//! Reading what the user typed: a line without the blanks around it, a choice
//! of the menu, the year of publication of a book.
//!
//! A year is written as a whole number in decimal digits, with an optional
//! `+` in front, and must lie between [`ANNEE_MIN`] and [`ANNEE_MAX`].

use vstd::prelude::*;
use vstd::utf8::is_ascii_chars;
use vstd::string::{is_ascii_spec_bytes, StrSliceExecFns};

verus! {

/// The earliest year of publication that is accepted.
pub const ANNEE_MIN: u32 = 1000;

/// The latest year of publication that is accepted.
pub const ANNEE_MAX: u32 = 2025;

/// Why a text was not accepted as a year of publication.
#[derive(Debug, Clone, Copy, PartialEq, Eq)]
pub enum ErreurAnnee {
    /// The text is not a whole number that fits in 32 bits.
    Invalide,
    /// The number lies outside the years that are accepted.
    HorsLimites,
}

impl ErreurAnnee {
    /// The text shown to the user for this refusal.
    pub open spec fn texte(self) -> Seq<char> {
        match self {
            ErreurAnnee::Invalide => "Veuillez entrer une année valide"@,
            ErreurAnnee::HorsLimites => "L'année doit être entre 1000 et 2025"@,
        }
    }

    /// The text shown to the user for this refusal.
    pub fn message(&self) -> (m: &'static str)
        ensures
            m@ == self.texte(),
    {
        match self {
            ErreurAnnee::Invalide => "Veuillez entrer une année valide",
            ErreurAnnee::HorsLimites => "L'année doit être entre 1000 et 2025",
        }
    }
}

/// A text without the white space at its beginning and at its end, as
/// `str::trim` of the standard library cuts it. Nothing is stated of it but
/// that it depends on the text alone.
pub uninterp spec fn rogne(texte: Seq<char>) -> Seq<char>;

/// Calls `str::trim`. Trusted: the result is taken to be the text without the
/// white space around it, [`rogne`].
#[verifier::external_body]
pub(crate) fn rogner(texte: &str) -> (entree: &str)
    ensures
        entree@ == rogne(texte@),
{
    texte.trim()
}

/// What the user can ask for at the menu.
#[derive(Debug, Clone, Copy, PartialEq, Eq)]
pub enum Choix {
    Ajouter,
    Emprunter,
    Retourner,
    ToutAfficher,
    AfficherDisponibles,
    Quitter,
}

/// The choice that a text writes: the digit `1` for the first of the six
/// choices, up to `6` for the last, and nothing else.
pub open spec fn choix_lu(entree: Seq<char>) -> Option<Choix> {
    if entree.len() != 1 {
        None
    } else if entree[0] == '1' {
        Some(Choix::Ajouter)
    } else if entree[0] == '2' {
        Some(Choix::Emprunter)
    } else if entree[0] == '3' {
        Some(Choix::Retourner)
    } else if entree[0] == '4' {
        Some(Choix::ToutAfficher)
    } else if entree[0] == '5' {
        Some(Choix::AfficherDisponibles)
    } else if entree[0] == '6' {
        Some(Choix::Quitter)
    } else {
        None
    }
}

/// Reads a choice of the menu from the text that the user entered.
pub fn lire_choix(entree: &str) -> (choix: Option<Choix>)
    ensures
        choix == choix_lu(entree@),
{
    if entree.unicode_len() != 1 {
        return None;
    }
    let c = entree.get_char(0);
    if c == '1' {
        Some(Choix::Ajouter)
    } else if c == '2' {
        Some(Choix::Emprunter)
    } else if c == '3' {
        Some(Choix::Retourner)
    } else if c == '4' {
        Some(Choix::ToutAfficher)
    } else if c == '5' {
        Some(Choix::AfficherDisponibles)
    } else if c == '6' {
        Some(Choix::Quitter)
    } else {
        None
    }
}

/// Whether `c` is one of the ten decimal digits.
pub open spec fn est_chiffre(c: char) -> bool {
    '0' <= c <= '9'
}

/// The number that a run of decimal digits writes.
pub open spec fn valeur_decimale(chiffres: Seq<char>) -> nat
    decreases chiffres.len(),
{
    if chiffres.len() == 0 {
        0
    } else {
        (10 * valeur_decimale(chiffres.drop_last()) + (chiffres.last() as u32 - '0' as u32)) as nat
    }
}

/// The digits of a text: the text itself, without the `+` in front if there
/// is one.
pub open spec fn sans_signe(texte: Seq<char>) -> Seq<char> {
    if texte.len() > 0 && texte[0] == '+' {
        texte.skip(1)
    } else {
        texte
    }
}

/// Whether `chiffres` is a run of at least one decimal digit.
pub open spec fn est_nombre(chiffres: Seq<char>) -> bool {
    &&& chiffres.len() > 0
    &&& forall|i: int| 0 <= i < chiffres.len() ==> est_chiffre(#[trigger] chiffres[i])
}

/// The whole number that a text writes, if it writes one that fits in 32 bits.
pub open spec fn entier_lu(texte: Seq<char>) -> Option<u32> {
    let chiffres = sans_signe(texte);
    if est_nombre(chiffres) && valeur_decimale(chiffres) <= u32::MAX {
        Some(valeur_decimale(chiffres) as u32)
    } else {
        None
    }
}

/// The year that a text writes, or the reason for which it is refused.
pub open spec fn annee_lue(texte: Seq<char>) -> Result<u32, ErreurAnnee> {
    match entier_lu(texte) {
        None => Err(ErreurAnnee::Invalide),
        Some(annee) => if ANNEE_MIN <= annee <= ANNEE_MAX {
            Ok(annee)
        } else {
            Err(ErreurAnnee::HorsLimites)
        },
    }
}

/// A longer run of digits writes a number that is no smaller.
proof fn lemme_valeur_croissante(chiffres: Seq<char>, k: int)
    requires
        0 <= k <= chiffres.len(),
        forall|i: int| 0 <= i < chiffres.len() ==> est_chiffre(#[trigger] chiffres[i]),
    ensures
        valeur_decimale(chiffres.take(k)) <= valeur_decimale(chiffres),
    decreases chiffres.len() - k,
{
    if k < chiffres.len() {
        lemme_valeur_croissante(chiffres, k + 1);
        assert(chiffres.take(k + 1).drop_last() =~= chiffres.take(k));
        assert(est_chiffre(chiffres[k]));
    } else {
        assert(chiffres.take(k) =~= chiffres);
    }
}

/// Reads a whole number: decimal digits, with an optional `+` in front and
/// nothing else, that write a number which fits in 32 bits.
pub fn lire_entier(texte: &str) -> (lu: Option<u32>)
    ensures
        lu == entier_lu(texte@),
{
    let ghost chiffres = sans_signe(texte@);
    if !texte.is_ascii() {
        proof {
            let i = choose|i: int| 0 <= i < texte@.len() && !('\0' <= #[trigger] texte@[i] <= '\u{7f}');
            if texte@[0] == '+' {
                assert(!est_chiffre(chiffres[i - 1]));
            } else {
                assert(!est_chiffre(chiffres[i]));
            }
        }
        return None;
    }
    let octets = texte.as_bytes();
    proof {
        is_ascii_spec_bytes(texte);
        assert(octets@ =~= Seq::new(texte@.len(), |i: int| texte@[i] as u8));
    }
    let longueur = octets.len();
    let debut: usize = if longueur > 0 && octets[0] == 43u8 {
        1
    } else {
        0
    };
    if debut == longueur {
        return None;
    }
    assert(chiffres =~= texte@.skip(debut as int));
    let mut valeur: u64 = 0;
    let mut i: usize = debut;
    assert(chiffres.take(0) =~= Seq::<char>::empty());
    while i < longueur
        invariant
            is_ascii_chars(texte@),
            longueur == texte@.len(),
            octets@ == Seq::new(texte@.len(), |i: int| texte@[i] as u8),
            chiffres == sans_signe(texte@),
            chiffres == texte@.skip(debut as int),
            debut <= i <= longueur,
            valeur == valeur_decimale(chiffres.take(i - debut)),
            valeur <= u32::MAX,
            forall|j: int| 0 <= j < i - debut ==> est_chiffre(#[trigger] chiffres[j]),
        decreases longueur - i,
    {
        let octet = octets[i];
        let ghost c = chiffres[i - debut];
        assert(c == texte@[i as int]);
        if octet < 48u8 || octet > 57u8 {
            assert(!est_chiffre(c));
            return None;
        }
        assert(est_chiffre(c));
        assert(chiffres.take(i - debut + 1).drop_last() =~= chiffres.take(i - debut));
        valeur = valeur * 10 + (octet - 48u8) as u64;
        assert(valeur == valeur_decimale(chiffres.take(i - debut + 1)));
        if valeur > u32::MAX as u64 {
            proof {
                if est_nombre(chiffres) {
                    lemme_valeur_croissante(chiffres, i - debut + 1);
                }
            }
            return None;
        }
        i += 1;
    }
    assert(chiffres.take(i - debut) =~= chiffres);
    Some(valeur as u32)
}

/// Reads a year of publication from the text that the user entered. Refused
/// with `Invalide` when the text does not write a whole number that fits in
/// 32 bits, and with `HorsLimites` when that number lies outside the years
/// from [`ANNEE_MIN`] to [`ANNEE_MAX`].
pub fn lire_annee(entree: &str) -> (r: Result<u32, ErreurAnnee>)
    ensures
        r == annee_lue(entree@),
{
    match lire_entier(entree) {
        Some(annee) => {
            if annee >= ANNEE_MIN && annee <= ANNEE_MAX {
                Ok(annee)
            } else {
                Err(ErreurAnnee::HorsLimites)
            }
        },
        None => Err(ErreurAnnee::Invalide),
    }
}

} // verus!
