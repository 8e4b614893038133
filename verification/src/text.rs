//! Building the texts of messages and addresses.

use vstd::prelude::*;
use crate::decimal::{decimal, u32_to_decimal};

verus! {

/// `prefix` followed by the decimal rendering of `n`.
pub fn with_number(prefix: &str, n: u32) -> (s: String)
    ensures
        s@ == prefix@ + decimal(n as nat),
{
    let mut s = String::from_str(prefix);
    let d = u32_to_decimal(n);
    s.append(d.as_str());
    s
}

/// The pieces joined in order.
pub fn join3(a: &str, b: &str, c: &str) -> (s: String)
    ensures
        s@ == a@ + b@ + c@,
{
    let mut s = String::from_str(a);
    s.append(b);
    s.append(c);
    s
}

/// What `{:?}` writes for a string: the text in double quotes, with quotes,
/// backslashes and control characters escaped.
pub uninterp spec fn debug_str(s: Seq<char>) -> Seq<char>;

/// Formats `s` with `{:?}` (std's `Debug` for `str`); the result is named
/// `debug_str` of the text and nothing more is claimed of it.
#[verifier::external_body]
pub(crate) fn debug_string(s: &str) -> (r: String)
    ensures
        r@ == debug_str(s@),
{
    format!("{:?}", s)
}

} // verus!
