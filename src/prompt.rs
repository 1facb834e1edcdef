use vstd::prelude::*;
use crate::segment::{trim_text, trimmed};
use crate::text::same_text;

verus! {

/// Lower-case form of a text (see `lowercase`).
pub uninterp spec fn lower_of(s: Seq<char>) -> Seq<char>;

/// Relies on `str::to_lowercase`: the lower-case form of `s`, which depends
/// on its characters alone.
#[verifier::external_body]
fn lowercase(s: &str) -> (r: String)
    ensures
        r@ == lower_of(s@),
{
    s.to_lowercase()
}

/// The normalised answer is exactly `y`.
pub fn is_yes(normalised: &str) -> (r: bool)
    ensures
        r == (normalised@ == seq!['y']),
{
    proof {
        reveal_strlit("y");
    }
    assert("y"@ =~= seq!['y']);
    same_text(normalised, "y")
}

/// The operator's answer to a yes/no question accepts it: trimmed and in
/// lower case it is `y`. Anything else declines.
pub fn accepts_offer(answer: &str) -> (r: bool)
    ensures
        r == (lower_of(trimmed(answer@)) == seq!['y']),
{
    let t = trim_text(answer);
    let l = lowercase(t.as_str());
    is_yes(l.as_str())
}

} // verus!
