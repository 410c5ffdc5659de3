//! The description of one invocation of an external program: the program
//! name, its ordered arguments, the `KEY=VALUE` environment entries to apply,
//! and whether the inherited environment is cleared first. Plain data, built
//! by the caller and read by whatever runs the process.

use vstd::prelude::*;

verus! {

/// The mathematical value of a `Command`: every string as its character
/// sequence.
pub struct CommandView {
    pub args: Seq<Seq<char>>,
    pub envs: Seq<Seq<char>>,
    pub program: Seq<char>,
    pub clearEnvs: bool,
}

/// How to invoke a program. With `clearEnvs` set, the child process starts
/// with none of the caller's inherited environment variables and sees only
/// the entries listed in `envs`.
#[derive(Debug)]
#[allow(non_snake_case)]
pub struct Command {
    pub args: Vec<String>,
    pub envs: Vec<String>,
    pub program: String,
    pub clearEnvs: bool,
}

impl View for Command {
    type V = CommandView;

    open spec fn view(&self) -> CommandView {
        CommandView {
            args: self.args.deep_view(),
            envs: self.envs.deep_view(),
            program: self.program@,
            clearEnvs: self.clearEnvs,
        }
    }
}

/// Compares two string lists by contents: same length, and equal strings at
/// every position.
fn eq_strings(a: &Vec<String>, b: &Vec<String>) -> (r: bool)
    ensures
        r == (a.deep_view() == b.deep_view()),
{
    proof {
        assert(a.deep_view().len() == a@.len());
        assert(b.deep_view().len() == b@.len());
    }
    if a.len() != b.len() {
        return false;
    }
    let mut i: usize = 0;
    while i < a.len()
        invariant
            i <= a.len(),
            a@.len() == b@.len(),
            forall|j: int| 0 <= j < i ==> a.deep_view()[j] == b.deep_view()[j],
        decreases a.len() - i,
    {
        let same: bool = a[i] == b[i];
        proof {
            assert(a.deep_view()[i as int] == a@[i as int]@);
            assert(b.deep_view()[i as int] == b@[i as int]@);
        }
        if !same {
            return false;
        }
        i = i + 1;
    }
    proof {
        assert(a.deep_view() =~= b.deep_view());
    }
    true
}

/// Copies a string list; every string in the copy holds the same characters
/// and is owned independently.
fn clone_strings(v: &Vec<String>) -> (r: Vec<String>)
    ensures
        r.deep_view() == v.deep_view(),
{
    let mut r: Vec<String> = Vec::new();
    let mut i: usize = 0;
    while i < v.len()
        invariant
            i <= v.len(),
            r@.len() == i,
            forall|j: int| 0 <= j < i ==> r.deep_view()[j] == v.deep_view()[j],
        decreases v.len() - i,
    {
        let s = v[i].clone();
        r.push(s);
        i = i + 1;
    }
    proof {
        assert(r.deep_view() =~= v.deep_view());
    }
    r
}

impl Clone for Command {
    /// A deep copy: program, arguments and environment entries are all
    /// copied character for character. The copy has the same view as the
    /// original.
    fn clone(&self) -> (r: Self)
        ensures
            r@ == self@,
    {
        Command {
            args: clone_strings(&self.args),
            envs: clone_strings(&self.envs),
            program: self.program.clone(),
            clearEnvs: self.clearEnvs,
        }
    }
}

impl Default for Command {
    /// The empty invocation: no program name, no arguments, no environment
    /// entries, and the inherited environment kept.
    fn default() -> (r: Self)
        ensures
            r@ == (CommandView {
                args: Seq::<Seq<char>>::empty(),
                envs: Seq::<Seq<char>>::empty(),
                program: Seq::<char>::empty(),
                clearEnvs: false,
            }),
    {
        let r = Command { args: Vec::new(), envs: Vec::new(), program: String::new(), clearEnvs: false };
        proof {
            assert(r.args.deep_view() =~= Seq::<Seq<char>>::empty());
            assert(r.envs.deep_view() =~= Seq::<Seq<char>>::empty());
        }
        r
    }
}

impl PartialEq for Command {
    /// Two commands are equal exactly when the program names, the argument
    /// lists, the environment-entry lists and the clear-environment flags all
    /// agree.
    fn eq(&self, other: &Self) -> (r: bool) {
        self.program == other.program && self.clearEnvs == other.clearEnvs
            && eq_strings(&self.args, &other.args) && eq_strings(&self.envs, &other.envs)
    }
}

impl vstd::std_specs::cmp::PartialEqSpecImpl for Command {
    open spec fn obeys_eq_spec() -> bool {
        true
    }

    open spec fn eq_spec(&self, other: &Self) -> bool {
        self@ == other@
    }
}

impl Eq for Command {}

} // verus!
