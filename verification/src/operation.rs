//! The element-wise operation selector and its lenient parsing policy.
//!
//! A request names the operation by a string. The recognized strings are
//! `"add"`, `"subtract"` and `"multiply"`; any other string is not an error:
//! it is reported as [`ParsedOperation::Unknown`] so that the caller can emit
//! a diagnostic, and then falls back to [`OperationKind::Add`].

use vstd::prelude::*;
use vstd::string::StrSliceExecFns;

verus! {

/// The recognized element-wise combination operations.
#[derive(Clone, Copy, Debug, PartialEq, Eq, Structural)]
pub enum OperationKind {
    Add,
    Subtract,
    Multiply,
}

/// The outcome of parsing an operation string: either one of the recognized
/// operations, or the original string, kept so that a caller can report it.
#[derive(Debug)]
pub enum ParsedOperation {
    Known(OperationKind),
    Unknown(String),
}

/// The operation a string names, if it is one of the recognized three.
pub open spec fn known_operation_of(s: Seq<char>) -> Option<OperationKind> {
    if s == "add"@ {
        Some(OperationKind::Add)
    } else if s == "subtract"@ {
        Some(OperationKind::Subtract)
    } else if s == "multiply"@ {
        Some(OperationKind::Multiply)
    } else {
        None
    }
}

/// The operation a string selects once the fallback policy is applied:
/// an unrecognized string selects `Add`.
pub open spec fn resolved_operation(s: Seq<char>) -> OperationKind {
    match known_operation_of(s) {
        Some(kind) => kind,
        None => OperationKind::Add,
    }
}

/// Character-by-character string equality, measured on the character views.
fn str_equal(a: &str, b: &str) -> (r: bool)
    ensures
        r == (a@ == b@),
{
    let a_len = a.unicode_len();
    let b_len = b.unicode_len();
    if a_len != b_len {
        return false;
    }
    let mut i: usize = 0;
    while i < a_len
        invariant
            a_len == a@.len(),
            a@.len() == b@.len(),
            i <= a_len,
            forall|j: int| 0 <= j < i ==> a@[j] == b@[j],
        decreases a_len - i,
    {
        if a.get_char(i) != b.get_char(i) {
            return false;
        }
        i += 1;
    }
    proof {
        assert(a@ =~= b@);
    }
    true
}

/// Classifies an operation string: each of the three recognized strings maps
/// to its operation, and any other string is handed back as `Unknown`.
pub fn parse_operation(operation: &str) -> (r: ParsedOperation)
    ensures
        match known_operation_of(operation@) {
            Some(kind) => r == ParsedOperation::Known(kind),
            None => r matches ParsedOperation::Unknown(orig) && orig@ == operation@,
        },
{
    if str_equal(operation, "add") {
        ParsedOperation::Known(OperationKind::Add)
    } else if str_equal(operation, "subtract") {
        ParsedOperation::Known(OperationKind::Subtract)
    } else if str_equal(operation, "multiply") {
        ParsedOperation::Known(OperationKind::Multiply)
    } else {
        ParsedOperation::Unknown(operation.to_owned())
    }
}

/// Maps a parse outcome to the operation that is actually performed:
/// a recognized operation stands, an unrecognized one falls back to `Add`.
pub fn operation_or_default(parsed: ParsedOperation) -> (r: OperationKind)
    ensures
        match parsed {
            ParsedOperation::Known(kind) => r == kind,
            ParsedOperation::Unknown(_) => r == OperationKind::Add,
        },
{
    match parsed {
        ParsedOperation::Known(kind) => kind,
        ParsedOperation::Unknown(_) => OperationKind::Add,
    }
}

/// Fallback law: a string outside the recognized set resolves to the same
/// operation as the string `"add"`, namely `Add`.
pub proof fn lemma_unknown_operation_resolves_to_add(s: Seq<char>)
    requires
        known_operation_of(s) is None,
    ensures
        resolved_operation(s) == OperationKind::Add,
        resolved_operation(s) == resolved_operation("add"@),
{
}

} // verus!
