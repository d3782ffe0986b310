//! The reasons for which the catalogue turns a request down.

use vstd::prelude::*;

verus! {

/// Why a request to the catalogue was refused. A refusal changes nothing.
#[derive(Debug, Clone, Copy, PartialEq, Eq)]
pub enum ErreurCatalogue {
    /// A book with this title, case set aside, is already in the catalogue.
    TitreEnDouble,
    /// No book of the catalogue bears this title.
    LivreNonTrouve,
    /// The book is already out on loan.
    LivreNonDisponible,
    /// The book is not out on loan.
    LivreNonEmprunte,
}

impl ErreurCatalogue {
    /// The text shown to the user for this refusal.
    pub open spec fn texte(self) -> Seq<char> {
        match self {
            ErreurCatalogue::TitreEnDouble => "Un livre avec ce titre existe déjà"@,
            ErreurCatalogue::LivreNonTrouve => "Livre non trouvé"@,
            ErreurCatalogue::LivreNonDisponible => "Ce livre n'est pas disponible"@,
            ErreurCatalogue::LivreNonEmprunte => "Ce livre n'était pas emprunté"@,
        }
    }

    /// The text shown to the user for this refusal.
    pub fn message(&self) -> (m: &'static str)
        ensures
            m@ == self.texte(),
    {
        match self {
            ErreurCatalogue::TitreEnDouble => "Un livre avec ce titre existe déjà",
            ErreurCatalogue::LivreNonTrouve => "Livre non trouvé",
            ErreurCatalogue::LivreNonDisponible => "Ce livre n'est pas disponible",
            ErreurCatalogue::LivreNonEmprunte => "Ce livre n'était pas emprunté",
        }
    }
}

} // verus!
