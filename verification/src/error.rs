//! The errors a gate can report.

use vstd::prelude::*;

verus! {

/// Why a gate failed. Every failure ends the proof it occurs in.
#[derive(Clone, Copy, Debug, PartialEq, Eq, Structural)]
pub enum IKosErrorKind {
    /// A party's pre-generated randomness has no word left for this gate.
    RandomnessExhausted,
    /// A replayed AND gate disagrees with the committed view, or the view is too short.
    AndCheckMismatch,
    /// A replayed ADD gate disagrees with the committed view, or the view is too short.
    AddCheckMismatch,
}

impl IKosErrorKind {
    /// The text that an error of this kind carries.
    pub open spec fn message(self) -> Seq<char> {
        match self {
            IKosErrorKind::RandomnessExhausted => "All pre-generated randomness are exhausted!"@,
            IKosErrorKind::AndCheckMismatch => "AND operation fail."@,
            IKosErrorKind::AddCheckMismatch => "ADD operation fail."@,
        }
    }
}

/// An error of a gate, carried as its text.
#[derive(Debug, PartialEq)]
pub struct IKosError {
    pub error: String,
}

pub type IKosResult<T> = Result<T, IKosError>;

impl IKosError {
    /// Whether this error is the one of the given kind.
    pub open spec fn is_kind(&self, kind: IKosErrorKind) -> bool {
        self.error@ == kind.message()
    }

    /// The error of the given kind.
    pub fn new(kind: IKosErrorKind) -> (e: IKosError)
        ensures
            e.error@ == kind.message(),
    {
        match kind {
            IKosErrorKind::RandomnessExhausted => IKosError {
                error: String::from_str("All pre-generated randomness are exhausted!"),
            },
            IKosErrorKind::AndCheckMismatch => IKosError {
                error: String::from_str("AND operation fail."),
            },
            IKosErrorKind::AddCheckMismatch => IKosError {
                error: String::from_str("ADD operation fail."),
            },
        }
    }

    /// The kind of this error: the one kind whose text it carries, or none.
    pub fn kind(&self) -> (k: Option<IKosErrorKind>)
        ensures
            forall|kind: IKosErrorKind| self.is_kind(kind) <==> k == Some(kind),
    {
        proof {
            let exhausted = IKosErrorKind::RandomnessExhausted;
            let and_check = IKosErrorKind::AndCheckMismatch;
            let add_check = IKosErrorKind::AddCheckMismatch;
            if exhausted.message() == and_check.message() {
                lemma_message_determines_kind(exhausted, and_check);
            }
            if exhausted.message() == add_check.message() {
                lemma_message_determines_kind(exhausted, add_check);
            }
            if and_check.message() == add_check.message() {
                lemma_message_determines_kind(and_check, add_check);
            }
        }
        if self.error == String::from_str("All pre-generated randomness are exhausted!") {
            Some(IKosErrorKind::RandomnessExhausted)
        } else if self.error == String::from_str("AND operation fail.") {
            Some(IKosErrorKind::AndCheckMismatch)
        } else if self.error == String::from_str("ADD operation fail.") {
            Some(IKosErrorKind::AddCheckMismatch)
        } else {
            None
        }
    }
}

/// Two kinds with the same text are the same kind, so the text of an error
/// determines its kind.
pub proof fn lemma_message_determines_kind(a: IKosErrorKind, b: IKosErrorKind)
    requires
        a.message() == b.message(),
    ensures
        a == b,
{
    reveal_strlit("All pre-generated randomness are exhausted!");
    reveal_strlit("AND operation fail.");
    reveal_strlit("ADD operation fail.");
    assert("All pre-generated randomness are exhausted!"@.len() == 43);
    assert("AND operation fail."@.len() == 19);
    assert("ADD operation fail."@.len() == 19);
    assert("AND operation fail."@[1] == 'N');
    assert("ADD operation fail."@[1] == 'D');
}

} // verus!
