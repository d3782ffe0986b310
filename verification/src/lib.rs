//! An in-memory library catalogue: books identified by their title, compared
//! without regard to case, that can be added, borrowed, returned and listed.

pub mod casse;
pub mod catalogue;
pub mod dialogue;
pub mod erreur;
pub mod livre;
pub mod lois;
pub mod saisie;
