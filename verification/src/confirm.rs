//! The confirmation gate: deletion proceeds only when the user types the
//! exact keyword `DEL` (surrounding whitespace ignored).

use vstd::prelude::*;

verus! {

/// The characters of `s` with leading and trailing whitespace removed,
/// as `str::trim` removes it.
pub uninterp spec fn trim_of(s: Seq<char>) -> Seq<char>;

/// Trusted call into `str::trim`, which strips Unicode whitespace from both
/// ends; `trim_of` names the result, which is a function of the input
/// characters alone.
#[verifier::external_body]
fn trim(s: &str) -> (r: String)
    ensures
        r@ == trim_of(s@),
{
    s.trim().to_owned()
}

/// The keyword the user must type for the deletion to proceed.
pub fn delete_command() -> (r: &'static str)
    ensures
        r@ == "DEL"@,
{
    "DEL"
}

/// The typed line, once trimmed, is exactly the confirmation keyword.
pub open spec fn spec_confirms(input: Seq<char>) -> bool {
    trim_of(input) == "DEL"@
}

/// Whether an already-trimmed token is exactly the confirmation keyword
/// `DEL` (case-sensitive).
pub fn is_confirmation_token(token: &str) -> (r: bool)
    ensures
        r == (token@ == "DEL"@),
{
    proof {
        reveal_strlit("DEL");
    }
    let len = token.unicode_len();
    if len != 3 {
        return false;
    }
    let c0 = token.get_char(0);
    let c1 = token.get_char(1);
    let c2 = token.get_char(2);
    let r = c0 == 'D' && c1 == 'E' && c2 == 'L';
    proof {
        if r {
            assert(token@ =~= "DEL"@);
        }
    }
    r
}

/// Whether a line read from the user confirms the deletion: it must equal
/// `DEL` exactly after surrounding whitespace is trimmed. Any other line,
/// the empty line included, cancels the batch.
pub fn confirmation_accepts(input: &str) -> (r: bool)
    ensures
        r == spec_confirms(input@),
{
    let trimmed = trim(input);
    is_confirmation_token(trimmed.as_str())
}

} // verus!
