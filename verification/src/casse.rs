//! Titles are compared without regard to case: two titles name the same book
//! when their lowercase forms are equal.

use vstd::prelude::*;

verus! {

/// The lowercase form of a text, as `str::to_lowercase` of the standard
/// library computes it from the Unicode tables. Nothing is stated of it but
/// that it depends on the text alone.
pub uninterp spec fn minuscules(texte: Seq<char>) -> Seq<char>;

/// Whether two titles are the same once case is set aside.
pub open spec fn meme_titre(a: Seq<char>, b: Seq<char>) -> bool {
    minuscules(a) == minuscules(b)
}

/// Calls `str::to_lowercase`. Trusted: the result is taken to be the
/// lowercase form, [`minuscules`], of the text given.
#[verifier::external_body]
pub(crate) fn en_minuscules(texte: &str) -> (cle: String)
    ensures
        cle@ == minuscules(texte@),
{
    texte.to_lowercase()
}

} // verus!
