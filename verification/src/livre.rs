//! A single book record and its two-valued loan state.

use vstd::prelude::*;

verus! {

/// A book of the catalogue.
#[derive(Debug, PartialEq, Eq)]
pub struct Livre {
    pub titre: String,
    pub auteur: String,
    pub annee: u32,
    pub disponible: bool,
}

/// The mathematical value of a [`Livre`]: its texts as sequences of characters.
pub ghost struct LivreVue {
    pub titre: Seq<char>,
    pub auteur: Seq<char>,
    pub annee: u32,
    pub disponible: bool,
}

impl LivreVue {
    /// The same record with its loan state replaced.
    pub open spec fn avec_disponible(self, disponible: bool) -> LivreVue {
        LivreVue { disponible, ..self }
    }
}

/// The word that tells the loan state of a book: on the shelf, or out.
pub open spec fn libelle_statut(disponible: bool) -> Seq<char> {
    if disponible {
        "Disponible"@
    } else {
        "Emprunté"@
    }
}

impl View for Livre {
    type V = LivreVue;

    open spec fn view(&self) -> LivreVue {
        LivreVue {
            titre: self.titre@,
            auteur: self.auteur@,
            annee: self.annee,
            disponible: self.disponible,
        }
    }
}

impl Clone for Livre {
    /// A copy that holds the same texts, year and loan state.
    fn clone(&self) -> (copie: Self)
        ensures
            copie@ == self@,
    {
        Livre {
            titre: self.titre.clone(),
            auteur: self.auteur.clone(),
            annee: self.annee,
            disponible: self.disponible,
        }
    }
}

impl Livre {
    /// A new book, on the shelf.
    pub fn new(titre: String, auteur: String, annee: u32) -> (livre: Self)
        ensures
            livre@ == (LivreVue { titre: titre@, auteur: auteur@, annee, disponible: true }),
    {
        Livre { titre, auteur, annee, disponible: true }
    }

    /// The word that tells whether the book is on the shelf or out.
    pub fn statut(&self) -> (libelle: &'static str)
        ensures
            libelle@ == libelle_statut(self.disponible),
    {
        if self.disponible {
            "Disponible"
        } else {
            "Emprunté"
        }
    }

    /// Lends the book. Succeeds exactly when it was on the shelf; a book that
    /// is already out stays as it is.
    pub fn emprunter(&mut self) -> (accepte: bool)
        ensures
            accepte == old(self).disponible,
            final(self)@ == old(self)@.avec_disponible(false),
    {
        if self.disponible {
            self.disponible = false;
            true
        } else {
            false
        }
    }

    /// Takes the book back. Succeeds exactly when it was out; a book that is
    /// already on the shelf stays as it is.
    pub fn retourner(&mut self) -> (accepte: bool)
        ensures
            accepte == !old(self).disponible,
            final(self)@ == old(self)@.avec_disponible(true),
    {
        if !self.disponible {
            self.disponible = true;
            true
        } else {
            false
        }
    }
}

} // verus!
