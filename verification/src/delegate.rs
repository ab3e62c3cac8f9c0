//! Decisions around the external converter: the destination name it is
//! handed, the fail-fast check for the tool's presence, and the judgement
//! of its exit status. Locating and running the child process is the
//! caller's work.

use vstd::prelude::*;
use vstd::string::StrSliceExecFns;

use crate::errors::PrintError;
use crate::text::{lemma_drop_leading_skip, lemma_drop_trailing_take, strip_spec};

verus! {

/// The path-separator-like character stripped from a destination before
/// it names an OS-level printer.
pub open spec fn is_sep(c: char) -> bool {
    c == '\\'
}

/// The separator predicate as a value, so that every mention of it is
/// the same function.
pub open spec fn sep_pred() -> spec_fn(char) -> bool {
    |c: char| is_sep(c)
}

/// A destination as the converter receives it: leading and trailing
/// backslashes stripped.
pub open spec fn normalize_destination_spec(s: Seq<char>) -> Seq<char> {
    strip_spec(s, sep_pred())
}

/// Strips leading and trailing backslashes from a destination name.
pub fn normalize_destination(dest: &str) -> (r: &str)
    ensures
        r@ == normalize_destination_spec(dest@),
{
    let n = dest.unicode_len();
    let mut a: usize = 0;
    while a < n && dest.get_char(a) == '\\'
        invariant
            a <= n,
            n == dest@.len(),
            forall|k: int| 0 <= k < a ==> is_sep(dest@[k]),
        decreases n - a,
    {
        a = a + 1;
    }
    let mut b: usize = n;
    while b > a && dest.get_char(b - 1) == '\\'
        invariant
            a <= b <= n,
            n == dest@.len(),
            forall|k: int| b <= k < n ==> is_sep(dest@[k]),
        decreases b,
    {
        b = b - 1;
    }
    proof {
        lemma_drop_leading_skip(dest@, sep_pred(), a as int);
        let t = dest@.skip(a as int);
        assert(forall|k: int| b - a <= k < t.len() ==> is_sep(t[k]));
        lemma_drop_trailing_take(t, sep_pred(), b - a);
        assert(t.take(b - a) =~= dest@.subrange(a as int, b as int));
    }
    dest.substring_char(a, b)
}

/// The converter is only invoked when its executable stands at its
/// expected location; an absent tool fails fast, before any child
/// process is attempted.
pub fn converter_precheck(tool_present: bool) -> (r: Result<(), PrintError>)
    ensures
        r is Ok <==> tool_present,
        !tool_present ==> r == Err::<(), PrintError>(PrintError::ToolNotFound),
{
    if tool_present {
        Ok(())
    } else {
        Err(PrintError::ToolNotFound)
    }
}

/// Judges the converter's exit status: exit code zero is success; any
/// other code, and a status without a code, is a conversion failure
/// carrying the code when the OS reported one.
pub fn conversion_result(exit_code: Option<i32>) -> (r: Result<(), PrintError>)
    ensures
        r is Ok <==> exit_code == Some(0i32),
        exit_code != Some(0i32) ==> r == Err::<(), PrintError>(
            PrintError::ConversionFailed { exit_code },
        ),
{
    match exit_code {
        Some(0i32) => Ok(()),
        _ => Err(PrintError::ConversionFailed { exit_code }),
    }
}

} // verus!
