//! The result of one run of an external process: a success-or-`CommandErr`
//! status together with the fully drained standard-output and standard-error
//! byte streams. A value is built once, after the run ends, and ownership of
//! all three fields moves to the consumer.

use vstd::prelude::*;

use crate::command_err::CommandErr;
use crate::command_err::CommandErrView;

verus! {

/// The mathematical value of an `Output`: the status outcome with the error's
/// view in the failure case, and the two captured streams as byte sequences.
pub struct OutputView {
    pub status: Result<(), CommandErrView>,
    pub stderr: Seq<u8>,
    pub stdout: Seq<u8>,
}

/// What running an external process produced. `status` is `Ok(())` for a run
/// that completed with status zero and carries a `CommandErr` otherwise;
/// `stdout` and `stderr` hold everything the process wrote to each stream.
#[derive(Debug)]
pub struct Output {
    pub status: Result<(), CommandErr>,
    pub stderr: Vec<u8>,
    pub stdout: Vec<u8>,
}

impl View for Output {
    type V = OutputView;

    open spec fn view(&self) -> OutputView {
        OutputView {
            status: match self.status {
                Ok(_) => Ok(()),
                Err(e) => Err(e@),
            },
            stderr: self.stderr@,
            stdout: self.stdout@,
        }
    }
}

/// Compares two byte buffers by contents.
fn eq_bytes(a: &Vec<u8>, b: &Vec<u8>) -> (r: bool)
    ensures
        r == (a@ == b@),
{
    if a.len() != b.len() {
        return false;
    }
    let mut i: usize = 0;
    while i < a.len()
        invariant
            i <= a.len(),
            a@.len() == b@.len(),
            forall|j: int| 0 <= j < i ==> a@[j] == b@[j],
        decreases a.len() - i,
    {
        if a[i] != b[i] {
            return false;
        }
        i = i + 1;
    }
    proof {
        assert(a@ =~= b@);
    }
    true
}

/// Copies a byte buffer; the copy holds the same bytes and owns them
/// independently.
fn clone_bytes(v: &Vec<u8>) -> (r: Vec<u8>)
    ensures
        r@ == v@,
{
    let mut r: Vec<u8> = Vec::new();
    let mut i: usize = 0;
    while i < v.len()
        invariant
            i <= v.len(),
            r@.len() == i,
            forall|j: int| 0 <= j < i ==> r@[j] == v@[j],
        decreases v.len() - i,
    {
        r.push(v[i]);
        i = i + 1;
    }
    proof {
        assert(r@ =~= v@);
    }
    r
}

impl Clone for Output {
    /// A deep copy: the error value, if any, is cloned variant-aware, and
    /// both stream buffers are copied byte for byte. The copy has the same
    /// view as the original.
    fn clone(&self) -> (r: Self)
        ensures
            r@ == self@,
    {
        let status: Result<(), CommandErr> = match &self.status {
            Ok(_) => Ok(()),
            Err(e) => Err(e.clone()),
        };
        Output { status, stderr: clone_bytes(&self.stderr), stdout: clone_bytes(&self.stdout) }
    }
}

impl PartialEq for Output {
    /// Two outputs are equal exactly when their statuses agree — both
    /// successes, or failures carrying equal errors — and both stream
    /// buffers hold the same bytes.
    fn eq(&self, other: &Self) -> (r: bool) {
        let status_eq: bool = match (&self.status, &other.status) {
            (Ok(_), Ok(_)) => true,
            (Err(a), Err(b)) => *a == *b,
            _ => false,
        };
        status_eq && eq_bytes(&self.stderr, &other.stderr) && eq_bytes(&self.stdout, &other.stdout)
    }
}

impl vstd::std_specs::cmp::PartialEqSpecImpl for Output {
    open spec fn obeys_eq_spec() -> bool {
        true
    }

    open spec fn eq_spec(&self, other: &Self) -> bool {
        self@ == other@
    }
}

} // verus!
