//! The answer that confirms clearing the pool.
use vstd::prelude::*;

verus! {

/// What `str::trim` returns for the given characters.
pub uninterp spec fn trim_of(s: Seq<char>) -> Seq<char>;

/// What `str::to_lowercase` returns for the given characters.
pub uninterp spec fn lower_of(s: Seq<char>) -> Seq<char>;

/// Relies on `str::trim`: leading and trailing white space taken off, which
/// depends on the characters alone.
#[verifier::external_body]
fn trim(s: &str) -> (r: &str)
    ensures
        r@ == trim_of(s@),
{
    s.trim()
}

/// Relies on `str::to_lowercase`: the lower-case form, which depends on the
/// characters alone.
#[verifier::external_body]
fn lowercase(s: &str) -> (r: String)
    ensures
        r@ == lower_of(s@),
{
    s.to_lowercase()
}

/// An answer, already trimmed and lower-cased, that says yes.
pub open spec fn is_yes(s: Seq<char>) -> bool {
    s == "y"@ || s == "yes"@
}

/// Whether an answer, already trimmed and lower-cased, says yes.
pub fn is_affirmative(s: &String) -> (r: bool)
    ensures
        r == is_yes(s@),
{
    let y = "y".to_owned();
    let yes = "yes".to_owned();
    *s == y || *s == yes
}

/// Whether the line typed at the prompt says yes, in any case and with any
/// white space around it.
pub fn confirms(answer: &str) -> (r: bool)
    ensures
        r == is_yes(lower_of(trim_of(answer@))),
{
    let t = trim(answer);
    let l = lowercase(t);
    is_affirmative(&l)
}

} // verus!
