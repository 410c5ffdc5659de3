//! The error side of a process run: a tagged union of three variants with a
//! contractual one-byte discriminant numbering (`ExitCode` is 0, `IOError` is
//! 1, `KilledBySignal` is 2). The numbering is a cross-boundary agreement with
//! an independently compiled caller and must never be renumbered or reordered.

use vstd::prelude::*;

verus! {

/// Which variant of `CommandErr` is populated.
///
/// The byte values of the three discriminants (0, 1 and 2, in declaration
/// order) are part of the boundary agreement; `spec_byte` is their one
/// authoritative statement in this crate.
#[derive(Clone, Copy, PartialEq, Eq, Structural, Debug)]
#[allow(non_camel_case_types)]
pub enum discriminant_CommandErr {
    ExitCode,
    IOError,
    KilledBySignal,
}

impl discriminant_CommandErr {
    /// The one-byte value that stands for this discriminant at the boundary.
    pub open spec fn spec_byte(self) -> u8 {
        match self {
            discriminant_CommandErr::ExitCode => 0u8,
            discriminant_CommandErr::IOError => 1u8,
            discriminant_CommandErr::KilledBySignal => 2u8,
        }
    }

    /// The boundary byte of this discriminant.
    pub fn byte(&self) -> (b: u8)
        ensures
            b == self.spec_byte(),
    {
        match self {
            discriminant_CommandErr::ExitCode => 0u8,
            discriminant_CommandErr::IOError => 1u8,
            discriminant_CommandErr::KilledBySignal => 2u8,
        }
    }

    /// Decodes a boundary byte back into a discriminant; exactly the bytes
    /// 0, 1 and 2 are meaningful.
    pub fn from_byte(b: u8) -> (d: Option<discriminant_CommandErr>)
        ensures
            b <= 2 ==> (d matches Some(x) && x.spec_byte() == b),
            b > 2 ==> d is None,
    {
        if b == 0 {
            Some(discriminant_CommandErr::ExitCode)
        } else if b == 1 {
            Some(discriminant_CommandErr::IOError)
        } else if b == 2 {
            Some(discriminant_CommandErr::KilledBySignal)
        } else {
            None
        }
    }

    /// The fully qualified name of this discriminant, as a reader of a
    /// diagnostic dump expects to see it.
    pub open spec fn spec_name(self) -> Seq<char> {
        match self {
            discriminant_CommandErr::ExitCode => "discriminant_CommandErr::ExitCode"@,
            discriminant_CommandErr::IOError => "discriminant_CommandErr::IOError"@,
            discriminant_CommandErr::KilledBySignal => "discriminant_CommandErr::KilledBySignal"@,
        }
    }

    /// The fully qualified name of this discriminant.
    pub fn name(&self) -> (r: &'static str)
        ensures
            r@ == self.spec_name(),
    {
        match self {
            discriminant_CommandErr::ExitCode => "discriminant_CommandErr::ExitCode",
            discriminant_CommandErr::IOError => "discriminant_CommandErr::IOError",
            discriminant_CommandErr::KilledBySignal => "discriminant_CommandErr::KilledBySignal",
        }
    }
}

/// The boundary byte determines the discriminant: two discriminants share a
/// byte value only if they are the same discriminant.
pub proof fn lemma_byte_injective(a: discriminant_CommandErr, b: discriminant_CommandErr)
    ensures
        (a.spec_byte() == b.spec_byte()) <==> a == b,
{
}

/// The mathematical value of a `CommandErr`: which variant is populated,
/// together with that variant's payload and nothing else.
pub enum CommandErrView {
    ExitCode(int),
    IOError(Seq<char>),
    KilledBySignal,
}

impl CommandErrView {
    /// The discriminant that a value with this view reports.
    pub open spec fn discriminant(self) -> discriminant_CommandErr {
        match self {
            CommandErrView::ExitCode(_) => discriminant_CommandErr::ExitCode,
            CommandErrView::IOError(_) => discriminant_CommandErr::IOError,
            CommandErrView::KilledBySignal => discriminant_CommandErr::KilledBySignal,
        }
    }

    /// The variant label that a diagnostic dump of a value with this view
    /// opens with.
    pub open spec fn spec_variant_name(self) -> Seq<char> {
        match self {
            CommandErrView::ExitCode(_) => "CommandErr::ExitCode"@,
            CommandErrView::IOError(_) => "CommandErr::IOError"@,
            CommandErrView::KilledBySignal => "CommandErr::KilledBySignal"@,
        }
    }
}

/// The payload storage of a `CommandErr`: exactly one variant is populated at
/// a time, and the owned message of `IOError` is released exactly when that
/// variant is.
#[derive(Debug, Hash)]
enum CommandErrData {
    ExitCode(i32),
    IOError(String),
    KilledBySignal,
}

/// The error outcome of running an external process.
///
/// `ExitCode` reports a process that completed with a non-zero status;
/// `IOError` reports one that could not be spawned or communicated with, with
/// a message describing the cause; `KilledBySignal` reports one terminated by
/// a signal, with no further detail (it arises only on platforms with signal
/// semantics). A value is built by one of the three variant constructors,
/// inspected through `discriminant` and the `is_*` tests, and consumed by the
/// matching `unwrap_*`.
#[derive(Debug, Hash)]
pub struct CommandErr {
    data: CommandErrData,
}

impl View for CommandErr {
    type V = CommandErrView;

    closed spec fn view(&self) -> CommandErrView {
        match self.data {
            CommandErrData::ExitCode(code) => CommandErrView::ExitCode(code as int),
            CommandErrData::IOError(msg) => CommandErrView::IOError(msg@),
            CommandErrData::KilledBySignal => CommandErrView::KilledBySignal,
        }
    }
}

#[allow(non_snake_case)]
impl CommandErr {
    /// Builds the variant for a process that completed on its own, carrying
    /// its exit status; payload and discriminant are set together, with no
    /// observable half-constructed state.
    pub fn ExitCode(payload: i32) -> (r: Self)
        ensures
            r@ == CommandErrView::ExitCode(payload as int),
    {
        CommandErr { data: CommandErrData::ExitCode(payload) }
    }

    /// Builds the variant for a process that could not be spawned or
    /// communicated with; the message becomes the owned payload.
    pub fn IOError(payload: String) -> (r: Self)
        ensures
            r@ == CommandErrView::IOError(payload@),
    {
        CommandErr { data: CommandErrData::IOError(payload) }
    }

    /// Builds the variant for a process terminated by a signal; it carries no
    /// payload.
    pub fn KilledBySignal() -> (r: Self)
        ensures
            r@ == CommandErrView::KilledBySignal,
    {
        CommandErr { data: CommandErrData::KilledBySignal }
    }

    /// Returns which variant this tag union holds. Note that this never
    /// reads a payload.
    pub fn discriminant(&self) -> (d: discriminant_CommandErr)
        ensures
            d == self@.discriminant(),
    {
        match &self.data {
            CommandErrData::ExitCode(_) => discriminant_CommandErr::ExitCode,
            CommandErrData::IOError(_) => discriminant_CommandErr::IOError,
            CommandErrData::KilledBySignal => discriminant_CommandErr::KilledBySignal,
        }
    }

    /// True exactly when the `ExitCode` variant is populated.
    pub fn is_ExitCode(&self) -> (r: bool)
        ensures
            r == (self@ is ExitCode),
    {
        matches!(&self.data, CommandErrData::ExitCode(_))
    }

    /// True exactly when the `IOError` variant is populated.
    pub fn is_IOError(&self) -> (r: bool)
        ensures
            r == (self@ is IOError),
    {
        matches!(&self.data, CommandErrData::IOError(_))
    }

    /// True exactly when the `KilledBySignal` variant is populated.
    pub fn is_KilledBySignal(&self) -> (r: bool)
        ensures
            r == (self@ is KilledBySignal),
    {
        matches!(&self.data, CommandErrData::KilledBySignal)
    }

    /// Consumes the union and returns the exit status it carries. Calling
    /// this against any other variant is a caller defect: verified callers
    /// are stopped by the precondition, and an unverified caller that
    /// violates it stops the program rather than read a meaningless payload.
    pub fn unwrap_ExitCode(self) -> (code: i32)
        requires
            self@ is ExitCode,
        ensures
            self@ == CommandErrView::ExitCode(code as int),
    {
        match self.data {
            CommandErrData::ExitCode(code) => code,
            _ => unreached(),
        }
    }

    /// Consumes the union and returns the owned message it carries; the
    /// consumed value is gone and is never released a second time. The same
    /// variant discipline as for `unwrap_ExitCode` applies.
    pub fn unwrap_IOError(self) -> (msg: String)
        requires
            self@ is IOError,
        ensures
            self@ == CommandErrView::IOError(msg@),
    {
        match self.data {
            CommandErrData::IOError(msg) => msg,
            _ => unreached(),
        }
    }

    /// The variant label that a diagnostic dump of this value opens with.
    pub fn variant_name(&self) -> (r: &'static str)
        ensures
            r@ == self@.spec_variant_name(),
    {
        match &self.data {
            CommandErrData::ExitCode(_) => "CommandErr::ExitCode",
            CommandErrData::IOError(_) => "CommandErr::IOError",
            CommandErrData::KilledBySignal => "CommandErr::KilledBySignal",
        }
    }
}

impl Clone for CommandErr {
    /// A variant-aware deep copy: the owned message of `IOError` is
    /// duplicated, the status of `ExitCode` is copied, and `KilledBySignal`
    /// copies nothing. The copy has the same view as the original and owns
    /// its payload independently.
    fn clone(&self) -> (r: Self)
        ensures
            r@ == self@,
    {
        match &self.data {
            CommandErrData::ExitCode(code) => CommandErr {
                data: CommandErrData::ExitCode(*code),
            },
            CommandErrData::IOError(msg) => CommandErr {
                data: CommandErrData::IOError(msg.clone()),
            },
            CommandErrData::KilledBySignal => CommandErr { data: CommandErrData::KilledBySignal },
        }
    }
}

impl PartialEq for CommandErr {
    /// Two unions are equal exactly when their discriminants match and the
    /// active payloads are equal: `ExitCode` compares the status, `IOError`
    /// compares the messages, and two `KilledBySignal` values are always
    /// equal.
    fn eq(&self, other: &Self) -> (r: bool) {
        match (&self.data, &other.data) {
            (CommandErrData::ExitCode(a), CommandErrData::ExitCode(b)) => *a == *b,
            (CommandErrData::IOError(a), CommandErrData::IOError(b)) => *a == *b,
            (CommandErrData::KilledBySignal, CommandErrData::KilledBySignal) => true,
            _ => false,
        }
    }
}

impl vstd::std_specs::cmp::PartialEqSpecImpl for CommandErr {
    open spec fn obeys_eq_spec() -> bool {
        true
    }

    open spec fn eq_spec(&self, other: &Self) -> bool {
        self@ == other@
    }
}

impl Eq for CommandErr {}

/// Each view populates exactly one variant, and the discriminant says which:
/// a value reports a given discriminant exactly when it was built by that
/// discriminant's constructor, and the other two variant tests are false of
/// it.
pub proof fn lemma_discriminant_characterizes_variant(v: CommandErrView)
    ensures
        (v is ExitCode) <==> v.discriminant() == discriminant_CommandErr::ExitCode,
        (v is IOError) <==> v.discriminant() == discriminant_CommandErr::IOError,
        (v is KilledBySignal) <==> v.discriminant() == discriminant_CommandErr::KilledBySignal,
{
}

/// The equality law of the union: two views are equal exactly when their
/// discriminants match and, within the matching variant, the payloads are
/// equal. In particular, views with distinct discriminants are never equal,
/// and two `KilledBySignal` views always are.
pub proof fn lemma_view_eq(a: CommandErrView, b: CommandErrView)
    ensures
        (a == b) <==> match (a, b) {
            (CommandErrView::ExitCode(x), CommandErrView::ExitCode(y)) => x == y,
            (CommandErrView::IOError(s), CommandErrView::IOError(t)) => s == t,
            (CommandErrView::KilledBySignal, CommandErrView::KilledBySignal) => true,
            _ => false,
        },
{
}

} // verus!
