//! The conversation with the user, as a machine that is fed one line at a
//! time: it remembers what it is waiting for, acts on the catalogue and says
//! what is to be shown before the next line is read.
//!
//! The machine neither reads nor prints. Whoever drives it shows the
//! announcements of [`Session::new`], then hands each line read to
//! [`Session::recevoir`] and shows what comes back, until the session is over.

use vstd::prelude::*;
use crate::catalogue::{
    ajout, disponibles, emprunt, retour, tous_dans_l_etat, vues, Bibliotheque,
};
use crate::erreur::ErreurCatalogue;
use crate::livre::{Livre, LivreVue};
use crate::saisie::{
    annee_lue, choix_lu, lire_annee, lire_choix, rogne, rogner, Choix, ErreurAnnee,
};

verus! {

/// What the session is waiting for.
#[derive(Debug, PartialEq, Eq)]
pub enum Etape {
    /// A choice of the menu.
    Menu,
    /// The title of a book to add.
    TitreAjout,
    /// The author of the book to add, whose title is known.
    AuteurAjout { titre: String },
    /// The year of the book to add, whose title and author are known.
    AnneeAjout { titre: String, auteur: String },
    /// The title of the book to lend.
    TitreEmprunt,
    /// The title of the book to take back.
    TitreRetour,
    /// Nothing: the user has quit.
    Fin,
}

/// The mathematical value of an [`Etape`].
pub ghost enum EtapeVue {
    Menu,
    TitreAjout,
    AuteurAjout { titre: Seq<char> },
    AnneeAjout { titre: Seq<char>, auteur: Seq<char> },
    TitreEmprunt,
    TitreRetour,
    Fin,
}

impl View for Etape {
    type V = EtapeVue;

    open spec fn view(&self) -> EtapeVue {
        match *self {
            Etape::Menu => EtapeVue::Menu,
            Etape::TitreAjout => EtapeVue::TitreAjout,
            Etape::AuteurAjout { titre } => EtapeVue::AuteurAjout { titre: titre@ },
            Etape::AnneeAjout { titre, auteur } => EtapeVue::AnneeAjout {
                titre: titre@,
                auteur: auteur@,
            },
            Etape::TitreEmprunt => EtapeVue::TitreEmprunt,
            Etape::TitreRetour => EtapeVue::TitreRetour,
            Etape::Fin => EtapeVue::Fin,
        }
    }
}

/// Something to show to the user.
#[derive(Debug, PartialEq, Eq)]
pub enum Annonce {
    /// The greeting at the start of the session.
    Bienvenue,
    /// The menu and the request for a choice.
    Menu,
    /// The line was none of the choices of the menu.
    ChoixInvalide,
    /// The farewell at the end of the session.
    AuRevoir,
    /// The heading of the request to add a book.
    EnTeteAjout,
    /// The request for the title of the book to add.
    InviteTitre,
    /// The request for the author of the book to add.
    InviteAuteur,
    /// The request for the year of the book to add.
    InviteAnnee,
    /// No title was given.
    TitreVide,
    /// No author was given.
    AuteurVide,
    /// The year was refused.
    AnneeRefusee(ErreurAnnee),
    /// The catalogue refused the request.
    Refus(ErreurCatalogue),
    /// The book with this title was added.
    LivreAjoute(String),
    /// The heading of the request to lend a book.
    EnTeteEmprunt,
    /// No book is on the shelf, so none can be lent.
    RienAEmprunter,
    /// The request for the title of the book to lend.
    InviteEmprunt,
    /// The book with this title was lent.
    LivreEmprunte(String),
    /// The heading of the request to take a book back.
    EnTeteRetour,
    /// No book is out, so none can come back.
    RienARetourner,
    /// The request for the title of the book to take back.
    InviteRetour,
    /// The book with this title was taken back.
    LivreRetourne(String),
    /// The catalogue holds no book.
    AucunLivre,
    /// Every book of the catalogue, in order; there is at least one.
    TousLivres(Vec<Livre>),
    /// No book is on the shelf.
    AucunLivreDisponible,
    /// Every book on the shelf, in order; there is at least one.
    LivresDisponibles(Vec<Livre>),
}

/// The mathematical value of an [`Annonce`].
pub ghost enum AnnonceVue {
    Bienvenue,
    Menu,
    ChoixInvalide,
    AuRevoir,
    EnTeteAjout,
    InviteTitre,
    InviteAuteur,
    InviteAnnee,
    TitreVide,
    AuteurVide,
    AnneeRefusee(ErreurAnnee),
    Refus(ErreurCatalogue),
    LivreAjoute(Seq<char>),
    EnTeteEmprunt,
    RienAEmprunter,
    InviteEmprunt,
    LivreEmprunte(Seq<char>),
    EnTeteRetour,
    RienARetourner,
    InviteRetour,
    LivreRetourne(Seq<char>),
    AucunLivre,
    TousLivres(Seq<LivreVue>),
    AucunLivreDisponible,
    LivresDisponibles(Seq<LivreVue>),
}

impl View for Annonce {
    type V = AnnonceVue;

    open spec fn view(&self) -> AnnonceVue {
        match *self {
            Annonce::Bienvenue => AnnonceVue::Bienvenue,
            Annonce::Menu => AnnonceVue::Menu,
            Annonce::ChoixInvalide => AnnonceVue::ChoixInvalide,
            Annonce::AuRevoir => AnnonceVue::AuRevoir,
            Annonce::EnTeteAjout => AnnonceVue::EnTeteAjout,
            Annonce::InviteTitre => AnnonceVue::InviteTitre,
            Annonce::InviteAuteur => AnnonceVue::InviteAuteur,
            Annonce::InviteAnnee => AnnonceVue::InviteAnnee,
            Annonce::TitreVide => AnnonceVue::TitreVide,
            Annonce::AuteurVide => AnnonceVue::AuteurVide,
            Annonce::AnneeRefusee(e) => AnnonceVue::AnneeRefusee(e),
            Annonce::Refus(e) => AnnonceVue::Refus(e),
            Annonce::LivreAjoute(titre) => AnnonceVue::LivreAjoute(titre@),
            Annonce::EnTeteEmprunt => AnnonceVue::EnTeteEmprunt,
            Annonce::RienAEmprunter => AnnonceVue::RienAEmprunter,
            Annonce::InviteEmprunt => AnnonceVue::InviteEmprunt,
            Annonce::LivreEmprunte(titre) => AnnonceVue::LivreEmprunte(titre@),
            Annonce::EnTeteRetour => AnnonceVue::EnTeteRetour,
            Annonce::RienARetourner => AnnonceVue::RienARetourner,
            Annonce::InviteRetour => AnnonceVue::InviteRetour,
            Annonce::LivreRetourne(titre) => AnnonceVue::LivreRetourne(titre@),
            Annonce::AucunLivre => AnnonceVue::AucunLivre,
            Annonce::TousLivres(livres) => AnnonceVue::TousLivres(vues(livres@)),
            Annonce::AucunLivreDisponible => AnnonceVue::AucunLivreDisponible,
            Annonce::LivresDisponibles(livres) => AnnonceVue::LivresDisponibles(vues(livres@)),
        }
    }
}

/// The values of a sequence of announcements, one by one.
pub open spec fn vues_annonces(annonces: Seq<Annonce>) -> Seq<AnnonceVue> {
    annonces.map_values(|a: Annonce| a@)
}

/// The mathematical value of a [`Session`]: the books of its catalogue and
/// what it is waiting for.
pub ghost struct SessionVue {
    pub livres: Seq<LivreVue>,
    pub etape: EtapeVue,
}

/// What a session that is at the menu does with the text entered.
pub open spec fn reponse_au_menu(livres: Seq<LivreVue>, entree: Seq<char>) -> (
    SessionVue,
    Seq<AnnonceVue>,
) {
    match choix_lu(entree) {
        None => (
            SessionVue { livres, etape: EtapeVue::Menu },
            seq![AnnonceVue::ChoixInvalide, AnnonceVue::Menu],
        ),
        Some(Choix::Ajouter) => (
            SessionVue { livres, etape: EtapeVue::TitreAjout },
            seq![AnnonceVue::EnTeteAjout, AnnonceVue::InviteTitre],
        ),
        Some(Choix::Emprunter) => if tous_dans_l_etat(livres, false) {
            (
                SessionVue { livres, etape: EtapeVue::Menu },
                seq![AnnonceVue::EnTeteEmprunt, AnnonceVue::RienAEmprunter, AnnonceVue::Menu],
            )
        } else {
            (
                SessionVue { livres, etape: EtapeVue::TitreEmprunt },
                seq![AnnonceVue::EnTeteEmprunt, AnnonceVue::InviteEmprunt],
            )
        },
        Some(Choix::Retourner) => if tous_dans_l_etat(livres, true) {
            (
                SessionVue { livres, etape: EtapeVue::Menu },
                seq![AnnonceVue::EnTeteRetour, AnnonceVue::RienARetourner, AnnonceVue::Menu],
            )
        } else {
            (
                SessionVue { livres, etape: EtapeVue::TitreRetour },
                seq![AnnonceVue::EnTeteRetour, AnnonceVue::InviteRetour],
            )
        },
        Some(Choix::ToutAfficher) => (
            SessionVue { livres, etape: EtapeVue::Menu },
            if livres.len() == 0 {
                seq![AnnonceVue::AucunLivre, AnnonceVue::Menu]
            } else {
                seq![AnnonceVue::TousLivres(livres), AnnonceVue::Menu]
            },
        ),
        Some(Choix::AfficherDisponibles) => (
            SessionVue { livres, etape: EtapeVue::Menu },
            if disponibles(livres).len() == 0 {
                seq![AnnonceVue::AucunLivreDisponible, AnnonceVue::Menu]
            } else {
                seq![AnnonceVue::LivresDisponibles(disponibles(livres)), AnnonceVue::Menu]
            },
        ),
        Some(Choix::Quitter) => (
            SessionVue { livres, etape: EtapeVue::Fin },
            seq![AnnonceVue::AuRevoir],
        ),
    }
}

/// What is announced once the catalogue has answered a request: `succes`
/// when it accepted, its refusal when it did not; then the menu.
pub open spec fn compte_rendu(
    resultat: Result<(), ErreurCatalogue>,
    succes: AnnonceVue,
) -> Seq<AnnonceVue> {
    match resultat {
        Ok(()) => seq![succes, AnnonceVue::Menu],
        Err(e) => seq![AnnonceVue::Refus(e), AnnonceVue::Menu],
    }
}

/// What a session does with the text entered: the session and the
/// announcements that follow.
///
/// At the menu, the text is a choice. While a book is being added, the title,
/// the author and the year are asked for in turn; an empty title, an empty
/// author or a year that is refused ends the request and leaves the catalogue
/// as it was. A request to lend or to take back asks for a title, unless no
/// book could be lent or taken back. Every request that ends leads back to
/// the menu. A session that is over stays so and says nothing.
pub open spec fn reponse(etat: SessionVue, entree: Seq<char>) -> (SessionVue, Seq<AnnonceVue>) {
    let livres = etat.livres;
    match etat.etape {
        EtapeVue::Menu => reponse_au_menu(livres, entree),
        EtapeVue::TitreAjout => if entree.len() == 0 {
            (
                SessionVue { livres, etape: EtapeVue::Menu },
                seq![AnnonceVue::TitreVide, AnnonceVue::Menu],
            )
        } else {
            (
                SessionVue { livres, etape: EtapeVue::AuteurAjout { titre: entree } },
                seq![AnnonceVue::InviteAuteur],
            )
        },
        EtapeVue::AuteurAjout { titre } => if entree.len() == 0 {
            (
                SessionVue { livres, etape: EtapeVue::Menu },
                seq![AnnonceVue::AuteurVide, AnnonceVue::Menu],
            )
        } else {
            (
                SessionVue { livres, etape: EtapeVue::AnneeAjout { titre, auteur: entree } },
                seq![AnnonceVue::InviteAnnee],
            )
        },
        EtapeVue::AnneeAjout { titre, auteur } => match annee_lue(entree) {
            Err(e) => (
                SessionVue { livres, etape: EtapeVue::Menu },
                seq![AnnonceVue::AnneeRefusee(e), AnnonceVue::Menu],
            ),
            Ok(annee) => (
                SessionVue { livres: ajout(livres, titre, auteur, annee).0, etape: EtapeVue::Menu },
                compte_rendu(
                    ajout(livres, titre, auteur, annee).1,
                    AnnonceVue::LivreAjoute(titre),
                ),
            ),
        },
        EtapeVue::TitreEmprunt => if entree.len() == 0 {
            (
                SessionVue { livres, etape: EtapeVue::Menu },
                seq![AnnonceVue::TitreVide, AnnonceVue::Menu],
            )
        } else {
            (
                SessionVue { livres: emprunt(livres, entree).0, etape: EtapeVue::Menu },
                compte_rendu(emprunt(livres, entree).1, AnnonceVue::LivreEmprunte(entree)),
            )
        },
        EtapeVue::TitreRetour => if entree.len() == 0 {
            (
                SessionVue { livres, etape: EtapeVue::Menu },
                seq![AnnonceVue::TitreVide, AnnonceVue::Menu],
            )
        } else {
            (
                SessionVue { livres: retour(livres, entree).0, etape: EtapeVue::Menu },
                compte_rendu(retour(livres, entree).1, AnnonceVue::LivreRetourne(entree)),
            )
        },
        EtapeVue::Fin => (etat, Seq::empty()),
    }
}

/// Two announcements, in order.
fn deux(premiere: Annonce, seconde: Annonce) -> (annonces: Vec<Annonce>)
    ensures
        vues_annonces(annonces@) == seq![premiere@, seconde@],
{
    let mut annonces = Vec::new();
    annonces.push(premiere);
    annonces.push(seconde);
    assert(vues_annonces(annonces@) =~= seq![premiere@, seconde@]);
    annonces
}

/// What is announced once the catalogue has answered a request: `succes`
/// when it accepted, its refusal when it did not; then the menu.
fn rendre_compte(resultat: Result<(), ErreurCatalogue>, succes: Annonce) -> (annonces: Vec<
    Annonce,
>)
    ensures
        vues_annonces(annonces@) == compte_rendu(resultat, succes@),
{
    match resultat {
        Ok(()) => deux(succes, Annonce::Menu),
        Err(e) => deux(Annonce::Refus(e), Annonce::Menu),
    }
}

/// A session with the user: a catalogue and what is awaited.
pub struct Session {
    pub bibliotheque: Bibliotheque,
    pub etape: Etape,
}

impl View for Session {
    type V = SessionVue;

    open spec fn view(&self) -> SessionVue {
        SessionVue { livres: self.bibliotheque@, etape: self.etape@ }
    }
}

impl Session {
    /// A session at its start, with an empty catalogue, and what is to be
    /// shown first: the greeting, then the menu.
    pub fn new() -> (debut: (Session, Vec<Annonce>))
        ensures
            debut.0@ == (SessionVue { livres: Seq::empty(), etape: EtapeVue::Menu }),
            vues_annonces(debut.1@) == seq![AnnonceVue::Bienvenue, AnnonceVue::Menu],
    {
        let session = Session { bibliotheque: Bibliotheque::new(), etape: Etape::Menu };
        (session, deux(Annonce::Bienvenue, Annonce::Menu))
    }

    /// Whether the user has quit.
    pub fn terminee(&self) -> (finie: bool)
        ensures
            finie == (self@.etape == EtapeVue::Fin),
    {
        match self.etape {
            Etape::Fin => true,
            _ => false,
        }
    }

    /// Takes the line that was read: cuts the white space around it and
    /// answers the text that is left, as [`Session::repondre`] does.
    pub fn recevoir(&mut self, ligne: &str) -> (annonces: Vec<Annonce>)
        ensures
            (final(self)@, vues_annonces(annonces@)) == reponse(old(self)@, rogne(ligne@)),
    {
        self.repondre(rogner(ligne))
    }

    /// Answers the text that the user entered: acts on the catalogue, moves
    /// on to what is awaited next and returns what is to be shown.
    pub fn repondre(&mut self, entree: &str) -> (annonces: Vec<Annonce>)
        ensures
            (final(self)@, vues_annonces(annonces@)) == reponse(old(self)@, entree@),
    {
        let mut etape = Etape::Menu;
        std::mem::swap(&mut etape, &mut self.etape);
        match etape {
            Etape::Menu => self.choisir(entree),
            Etape::TitreAjout => {
                if entree.is_empty() {
                    deux(Annonce::TitreVide, Annonce::Menu)
                } else {
                    self.etape = Etape::AuteurAjout { titre: entree.to_owned() };
                    let mut annonces = Vec::new();
                    annonces.push(Annonce::InviteAuteur);
                    assert(vues_annonces(annonces@) =~= seq![AnnonceVue::InviteAuteur]);
                    annonces
                }
            },
            Etape::AuteurAjout { titre } => {
                if entree.is_empty() {
                    deux(Annonce::AuteurVide, Annonce::Menu)
                } else {
                    self.etape = Etape::AnneeAjout { titre, auteur: entree.to_owned() };
                    let mut annonces = Vec::new();
                    annonces.push(Annonce::InviteAnnee);
                    assert(vues_annonces(annonces@) =~= seq![AnnonceVue::InviteAnnee]);
                    annonces
                }
            },
            Etape::AnneeAjout { titre, auteur } => {
                match lire_annee(entree) {
                    Err(e) => deux(Annonce::AnneeRefusee(e), Annonce::Menu),
                    Ok(annee) => {
                        let resultat = self.bibliotheque.ajouter_livre(titre.clone(), auteur, annee);
                        rendre_compte(resultat, Annonce::LivreAjoute(titre))
                    },
                }
            },
            Etape::TitreEmprunt => {
                if entree.is_empty() {
                    deux(Annonce::TitreVide, Annonce::Menu)
                } else {
                    let resultat = self.bibliotheque.emprunter_livre(entree);
                    rendre_compte(resultat, Annonce::LivreEmprunte(entree.to_owned()))
                }
            },
            Etape::TitreRetour => {
                if entree.is_empty() {
                    deux(Annonce::TitreVide, Annonce::Menu)
                } else {
                    let resultat = self.bibliotheque.retourner_livre(entree);
                    rendre_compte(resultat, Annonce::LivreRetourne(entree.to_owned()))
                }
            },
            Etape::Fin => {
                self.etape = Etape::Fin;
                let annonces = Vec::new();
                assert(vues_annonces(annonces@) =~= Seq::<AnnonceVue>::empty());
                annonces
            },
        }
    }

    /// Answers a choice of the menu.
    fn choisir(&mut self, entree: &str) -> (annonces: Vec<Annonce>)
        requires
            old(self).etape@ == EtapeVue::Menu,
        ensures
            (final(self)@, vues_annonces(annonces@)) == reponse_au_menu(
                old(self).bibliotheque@,
                entree@,
            ),
    {
        match lire_choix(entree) {
            None => deux(Annonce::ChoixInvalide, Annonce::Menu),
            Some(Choix::Ajouter) => {
                self.etape = Etape::TitreAjout;
                deux(Annonce::EnTeteAjout, Annonce::InviteTitre)
            },
            Some(Choix::Emprunter) => {
                let mut annonces = Vec::new();
                annonces.push(Annonce::EnTeteEmprunt);
                if self.bibliotheque.aucun_disponible() {
                    annonces.push(Annonce::RienAEmprunter);
                    annonces.push(Annonce::Menu);
                    assert(vues_annonces(annonces@) =~= seq![
                        AnnonceVue::EnTeteEmprunt,
                        AnnonceVue::RienAEmprunter,
                        AnnonceVue::Menu,
                    ]);
                } else {
                    self.etape = Etape::TitreEmprunt;
                    annonces.push(Annonce::InviteEmprunt);
                    assert(vues_annonces(annonces@) =~= seq![
                        AnnonceVue::EnTeteEmprunt,
                        AnnonceVue::InviteEmprunt,
                    ]);
                }
                annonces
            },
            Some(Choix::Retourner) => {
                let mut annonces = Vec::new();
                annonces.push(Annonce::EnTeteRetour);
                if self.bibliotheque.aucun_emprunte() {
                    annonces.push(Annonce::RienARetourner);
                    annonces.push(Annonce::Menu);
                    assert(vues_annonces(annonces@) =~= seq![
                        AnnonceVue::EnTeteRetour,
                        AnnonceVue::RienARetourner,
                        AnnonceVue::Menu,
                    ]);
                } else {
                    self.etape = Etape::TitreRetour;
                    annonces.push(Annonce::InviteRetour);
                    assert(vues_annonces(annonces@) =~= seq![
                        AnnonceVue::EnTeteRetour,
                        AnnonceVue::InviteRetour,
                    ]);
                }
                annonces
            },
            Some(Choix::ToutAfficher) => {
                let livres = self.bibliotheque.tous_livres();
                if livres.len() == 0 {
                    deux(Annonce::AucunLivre, Annonce::Menu)
                } else {
                    deux(Annonce::TousLivres(livres), Annonce::Menu)
                }
            },
            Some(Choix::AfficherDisponibles) => {
                let livres = self.bibliotheque.livres_disponibles();
                if livres.len() == 0 {
                    deux(Annonce::AucunLivreDisponible, Annonce::Menu)
                } else {
                    deux(Annonce::LivresDisponibles(livres), Annonce::Menu)
                }
            },
            Some(Choix::Quitter) => {
                self.etape = Etape::Fin;
                let mut annonces = Vec::new();
                annonces.push(Annonce::AuRevoir);
                assert(vues_annonces(annonces@) =~= seq![AnnonceVue::AuRevoir]);
                annonces
            },
        }
    }
}

} // verus!
