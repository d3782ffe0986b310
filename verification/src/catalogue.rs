//! The catalogue: an ordered collection of books in which no title occurs
//! twice, case set aside.
//!
//! The catalogue is modelled as the sequence of its books, in the order in
//! which they were added. Each operation is described by a function on such
//! sequences ([`ajout`], [`emprunt`], [`retour`], [`disponibles`]); the
//! executable methods of [`Bibliotheque`] are proved to compute them.
//!
//! Beside each book the catalogue keeps the lowercase form of its title. A
//! title that is looked up is put in lowercase once, and the search itself,
//! [`chercher_cle`], compares texts as they are.

use vstd::prelude::*;
use crate::casse::{en_minuscules, meme_titre, minuscules};
use crate::erreur::ErreurCatalogue;
use crate::livre::{Livre, LivreVue};

verus! {

/// The values of a sequence of books, one by one.
pub open spec fn vues(livres: Seq<Livre>) -> Seq<LivreVue> {
    livres.map_values(|l: Livre| l@)
}

/// Whether `i` is the place of the first book of `livres` that bears `titre`,
/// case set aside.
pub open spec fn est_premier(livres: Seq<LivreVue>, titre: Seq<char>, i: int) -> bool {
    &&& 0 <= i < livres.len()
    &&& meme_titre(livres[i].titre, titre)
    &&& forall|j: int| 0 <= j < i ==> !#[trigger] meme_titre(livres[j].titre, titre)
}

/// The place of the first book of `livres` that bears `titre`, case set
/// aside, if there is one. [`lemme_place`] says what it is worth.
pub open spec fn place(livres: Seq<LivreVue>, titre: Seq<char>) -> Option<int> {
    if exists|i: int| est_premier(livres, titre, i) {
        Some(choose|i: int| est_premier(livres, titre, i))
    } else {
        None
    }
}

/// Whether some book of `livres` bears `titre`, case set aside.
pub open spec fn contient(livres: Seq<LivreVue>, titre: Seq<char>) -> bool {
    place(livres, titre) is Some
}

/// Whether no two books of `livres` bear the same title, case set aside.
pub open spec fn titres_distincts(livres: Seq<LivreVue>) -> bool {
    forall|i: int, j: int|
        0 <= i < j < livres.len() ==> !#[trigger] meme_titre(livres[i].titre, livres[j].titre)
}

/// Adding a book: refused when the title is taken, else the book goes to the
/// end, on the shelf.
pub open spec fn ajout(livres: Seq<LivreVue>, titre: Seq<char>, auteur: Seq<char>, annee: u32) -> (
    Seq<LivreVue>,
    Result<(), ErreurCatalogue>,
) {
    if contient(livres, titre) {
        (livres, Err(ErreurCatalogue::TitreEnDouble))
    } else {
        (livres.push(LivreVue { titre, auteur, annee, disponible: true }), Ok(()))
    }
}

/// Lending the book that bears `titre`: refused when there is none or when it
/// is out already, else that book, and no other, goes out.
pub open spec fn emprunt(livres: Seq<LivreVue>, titre: Seq<char>) -> (
    Seq<LivreVue>,
    Result<(), ErreurCatalogue>,
) {
    match place(livres, titre) {
        None => (livres, Err(ErreurCatalogue::LivreNonTrouve)),
        Some(i) => if livres[i].disponible {
            (livres.update(i, livres[i].avec_disponible(false)), Ok(()))
        } else {
            (livres, Err(ErreurCatalogue::LivreNonDisponible))
        },
    }
}

/// Taking back the book that bears `titre`: refused when there is none or
/// when it is on the shelf already, else that book, and no other, comes back.
pub open spec fn retour(livres: Seq<LivreVue>, titre: Seq<char>) -> (
    Seq<LivreVue>,
    Result<(), ErreurCatalogue>,
) {
    match place(livres, titre) {
        None => (livres, Err(ErreurCatalogue::LivreNonTrouve)),
        Some(i) => if !livres[i].disponible {
            (livres.update(i, livres[i].avec_disponible(true)), Ok(()))
        } else {
            (livres, Err(ErreurCatalogue::LivreNonEmprunte))
        },
    }
}

/// The books of `livres` that are on the shelf, in the same order.
pub open spec fn disponibles(livres: Seq<LivreVue>) -> Seq<LivreVue> {
    livres.filter(|l: LivreVue| l.disponible)
}

/// Whether every book of `livres` is in the same state: all on the shelf
/// (`disponible` true) or all out (`disponible` false).
pub open spec fn tous_dans_l_etat(livres: Seq<LivreVue>, disponible: bool) -> bool {
    forall|i: int| 0 <= i < livres.len() ==> (#[trigger] livres[i]).disponible == disponible
}

/// The first place that bears a title is the one that [`place`] names.
pub proof fn lemme_place_unique(livres: Seq<LivreVue>, titre: Seq<char>, i: int)
    requires
        est_premier(livres, titre, i),
    ensures
        place(livres, titre) == Some(i),
{
    let k = choose|k: int| est_premier(livres, titre, k);
    assert(est_premier(livres, titre, k));
    if k < i {
        assert(!meme_titre(livres[k].titre, titre));
    } else if i < k {
        assert(!meme_titre(livres[i].titre, titre));
    }
}

/// Below a place that bears the title there is a first one.
proof fn lemme_premier_avant(livres: Seq<LivreVue>, titre: Seq<char>, i: int)
    requires
        0 <= i < livres.len(),
        meme_titre(livres[i].titre, titre),
    ensures
        exists|k: int| est_premier(livres, titre, k),
    decreases i,
{
    if exists|j: int| 0 <= j < i && #[trigger] meme_titre(livres[j].titre, titre) {
        let j = choose|j: int| 0 <= j < i && #[trigger] meme_titre(livres[j].titre, titre);
        lemme_premier_avant(livres, titre, j);
    } else {
        assert(est_premier(livres, titre, i));
    }
}

/// What [`place`] is worth: the place of the first book that bears the title
/// where some book bears it, and nothing where none does.
pub proof fn lemme_place(livres: Seq<LivreVue>, titre: Seq<char>)
    ensures
        match place(livres, titre) {
            Some(i) => est_premier(livres, titre, i),
            None => forall|j: int|
                0 <= j < livres.len() ==> !#[trigger] meme_titre(livres[j].titre, titre),
        },
        contient(livres, titre) <==> exists|j: int|
            0 <= j < livres.len() && #[trigger] meme_titre(livres[j].titre, titre),
{
    if place(livres, titre) is None {
        assert forall|j: int| 0 <= j < livres.len() implies !#[trigger] meme_titre(
            livres[j].titre,
            titre,
        ) by {
            if meme_titre(livres[j].titre, titre) {
                lemme_premier_avant(livres, titre, j);
            }
        }
    } else {
        let i = place(livres, titre)->0;
        assert(meme_titre(livres[i].titre, titre));
    }
}

/// Two catalogues that hold the same titles at the same places find every
/// title at the same place.
pub proof fn lemme_place_inchangee(avant: Seq<LivreVue>, apres: Seq<LivreVue>, titre: Seq<char>)
    requires
        avant.len() == apres.len(),
        forall|i: int| 0 <= i < avant.len() ==> (#[trigger] apres[i]).titre == avant[i].titre,
    ensures
        place(apres, titre) == place(avant, titre),
{
    lemme_place(avant, titre);
    lemme_place(apres, titre);
    match place(avant, titre) {
        Some(i) => {
            assert(apres[i].titre == avant[i].titre);
            assert forall|j: int| 0 <= j < i implies !#[trigger] meme_titre(
                apres[j].titre,
                titre,
            ) by {
                assert(apres[j].titre == avant[j].titre);
                assert(!meme_titre(avant[j].titre, titre));
            }
            lemme_place_unique(apres, titre, i);
        },
        None => {
            if place(apres, titre) is Some {
                let k = place(apres, titre)->0;
                assert(apres[k].titre == avant[k].titre);
                assert(!meme_titre(avant[k].titre, titre));
            }
        },
    }
}

/// Once a book was added under a title that was not taken, that title, in
/// whatever case, is found at the last place, and every other title where it
/// was found before.
pub proof fn lemme_place_apres_ajout(
    livres: Seq<LivreVue>,
    titre: Seq<char>,
    auteur: Seq<char>,
    annee: u32,
    autre: Seq<char>,
)
    requires
        !contient(livres, titre),
    ensures
        place(ajout(livres, titre, auteur, annee).0, autre) == if meme_titre(titre, autre) {
            Some(livres.len() as int)
        } else {
            place(livres, autre)
        },
{
    let apres = ajout(livres, titre, auteur, annee).0;
    let dernier = livres.len() as int;
    lemme_place(livres, titre);
    lemme_place(livres, autre);
    lemme_place(apres, autre);
    if meme_titre(titre, autre) {
        assert(meme_titre(apres[dernier].titre, autre));
        assert forall|j: int| 0 <= j < dernier implies !#[trigger] meme_titre(
            apres[j].titre,
            autre,
        ) by {
            assert(!meme_titre(livres[j].titre, titre));
        }
        lemme_place_unique(apres, autre, dernier);
    } else {
        match place(livres, autre) {
            Some(i) => {
                assert(meme_titre(apres[i].titre, autre));
                assert forall|j: int| 0 <= j < i implies !#[trigger] meme_titre(
                    apres[j].titre,
                    autre,
                ) by {
                    assert(!meme_titre(livres[j].titre, autre));
                }
                lemme_place_unique(apres, autre, i);
            },
            None => {
                if place(apres, autre) is Some {
                    let k = place(apres, autre)->0;
                    if k < dernier {
                        assert(!meme_titre(livres[k].titre, autre));
                    }
                }
            },
        }
    }
}

/// The books on the shelf among the first `i + 1` are those among the first
/// `i`, followed by the book at place `i` if it is on the shelf.
pub proof fn lemme_disponibles_etend(livres: Seq<LivreVue>, i: int)
    requires
        0 <= i < livres.len(),
    ensures
        disponibles(livres.take(i + 1)) == if livres[i].disponible {
            disponibles(livres.take(i)).push(livres[i])
        } else {
            disponibles(livres.take(i))
        },
{
    reveal(Seq::filter);
    assert(livres.take(i + 1).drop_last() =~= livres.take(i));
}

/// The first place of `cle` among `cles`, if it is there.
pub fn chercher_cle(cles: &Vec<String>, cle: &String) -> (trouve: Option<usize>)
    ensures
        match trouve {
            Some(i) => {
                &&& i < cles.len()
                &&& cles[i as int]@ == cle@
                &&& forall|j: int| 0 <= j < i ==> (#[trigger] cles[j])@ != cle@
            },
            None => forall|j: int| 0 <= j < cles.len() ==> (#[trigger] cles[j])@ != cle@,
        },
{
    let mut i: usize = 0;
    while i < cles.len()
        invariant
            0 <= i <= cles.len(),
            forall|j: int| 0 <= j < i ==> (#[trigger] cles[j])@ != cle@,
        decreases cles.len() - i,
    {
        if cles[i] == *cle {
            return Some(i);
        }
        i += 1;
    }
    None
}

/// The catalogue of a library.
pub struct Bibliotheque {
    livres: Vec<Livre>,
    /// The lowercase form of the title of each book, in the same order: what
    /// titles are compared by.
    cles: Vec<String>,
}

impl View for Bibliotheque {
    type V = Seq<LivreVue>;

    /// The books, in the order in which they were added.
    closed spec fn view(&self) -> Seq<LivreVue> {
        vues(self.livres@)
    }
}

impl Bibliotheque {
    #[verifier::type_invariant]
    spec fn bien_forme(self) -> bool {
        &&& self.cles@.len() == self.livres@.len()
        &&& forall|i: int|
            0 <= i < self.cles@.len() ==> (#[trigger] self.cles@[i])@ == minuscules(
                self.livres@[i].titre@,
            )
        &&& titres_distincts(vues(self.livres@))
    }

    /// An empty catalogue.
    pub fn new() -> (bibliotheque: Self)
        ensures
            bibliotheque@ == Seq::<LivreVue>::empty(),
    {
        let bibliotheque = Bibliotheque { livres: Vec::new(), cles: Vec::new() };
        assert(bibliotheque@ =~= Seq::<LivreVue>::empty());
        bibliotheque
    }

    /// The number of books.
    pub fn nombre_livres(&self) -> (n: usize)
        ensures
            n == self@.len(),
    {
        self.livres.len()
    }

    /// The place of the book that bears `titre`, case set aside.
    pub fn chercher(&self, titre: &str) -> (trouve: Option<usize>)
        ensures
            match trouve {
                Some(i) => place(self@, titre@) == Some(i as int),
                None => place(self@, titre@) is None,
            },
            trouve is Some <==> contient(self@, titre@),
            titres_distincts(self@),
    {
        let cle = en_minuscules(titre);
        self.chercher_parmi_les_cles(&cle, Ghost(titre@))
    }

    /// The place of the book whose title has `cle` as its lowercase form.
    fn chercher_parmi_les_cles(&self, cle: &String, Ghost(titre): Ghost<Seq<char>>) -> (trouve:
        Option<usize>)
        requires
            cle@ == minuscules(titre),
        ensures
            match trouve {
                Some(i) => place(self@, titre) == Some(i as int),
                None => place(self@, titre) is None,
            },
            titres_distincts(self@),
    {
        proof {
            use_type_invariant(self);
        }
        let trouve = chercher_cle(&self.cles, cle);
        proof {
            match trouve {
                Some(i) => {
                    assert(meme_titre(self@[i as int].titre, titre));
                    assert forall|j: int| 0 <= j < i implies !#[trigger] meme_titre(
                        self@[j].titre,
                        titre,
                    ) by {
                        assert(self.cles@[j]@ != cle@);
                    }
                    lemme_place_unique(self@, titre, i as int);
                },
                None => {
                    lemme_place(self@, titre);
                    if place(self@, titre) is Some {
                        let k = place(self@, titre)->0;
                        assert(self.cles@[k]@ != cle@);
                    }
                },
            }
        }
        trouve
    }

    /// Adds a book, on the shelf, at the end of the catalogue. Refused with
    /// `TitreEnDouble` when a book already bears this title, case set aside.
    pub fn ajouter_livre(&mut self, titre: String, auteur: String, annee: u32) -> (r: Result<
        (),
        ErreurCatalogue,
    >)
        ensures
            (final(self)@, r) == ajout(old(self)@, titre@, auteur@, annee),
            titres_distincts(final(self)@),
            r is Ok ==> forall|autre: Seq<char>| #[trigger]
                place(final(self)@, autre) == if meme_titre(titre@, autre) {
                    Some(old(self)@.len() as int)
                } else {
                    place(old(self)@, autre)
                },
    {
        proof {
            use_type_invariant(&*self);
        }
        let cle = en_minuscules(titre.as_str());
        if self.chercher_parmi_les_cles(&cle, Ghost(titre@)).is_some() {
            return Err(ErreurCatalogue::TitreEnDouble);
        }
        let livre = Livre::new(titre, auteur, annee);
        // The books are taken out of the catalogue while the lists change and
        // put back at once, so that the catalogue is well formed at every step.
        let mut contenu = Bibliotheque::new();
        std::mem::swap(self, &mut contenu);
        let Bibliotheque { mut livres, mut cles } = contenu;
        livres.push(livre);
        cles.push(cle);
        proof {
            let avant = old(self)@;
            let apres = vues(livres@);
            assert(apres =~= avant.push(livre@));
            lemme_place(avant, titre@);
            assert forall|i: int, j: int| 0 <= i < j < apres.len() implies !#[trigger] meme_titre(
                apres[i].titre,
                apres[j].titre,
            ) by {
                if j < avant.len() {
                    assert(!meme_titre(avant[i].titre, avant[j].titre));
                } else {
                    assert(!meme_titre(avant[i].titre, titre@));
                }
            }
        }
        *self = Bibliotheque { livres, cles };
        proof {
            assert forall|autre: Seq<char>| #[trigger]
                place(self@, autre) == if meme_titre(titre@, autre) {
                    Some(old(self)@.len() as int)
                } else {
                    place(old(self)@, autre)
                } by {
                lemme_place_apres_ajout(old(self)@, titre@, auteur@, annee, autre);
            }
        }
        Ok(())
    }

    /// Lends the book that bears `titre`, case set aside. Refused with
    /// `LivreNonTrouve` when there is no such book and with
    /// `LivreNonDisponible` when it is out already.
    pub fn emprunter_livre(&mut self, titre: &str) -> (r: Result<(), ErreurCatalogue>)
        ensures
            (final(self)@, r) == emprunt(old(self)@, titre@),
            titres_distincts(final(self)@),
            forall|autre: Seq<char>| #[trigger] place(final(self)@, autre) == place(old(self)@, autre),
    {
        proof {
            use_type_invariant(&*self);
        }
        match self.chercher(titre) {
            Some(i) => {
                if self.changer_etat(i, false) {
                    Ok(())
                } else {
                    Err(ErreurCatalogue::LivreNonDisponible)
                }
            },
            None => Err(ErreurCatalogue::LivreNonTrouve),
        }
    }

    /// Takes back the book that bears `titre`, case set aside. Refused with
    /// `LivreNonTrouve` when there is no such book and with
    /// `LivreNonEmprunte` when it is on the shelf already.
    pub fn retourner_livre(&mut self, titre: &str) -> (r: Result<(), ErreurCatalogue>)
        ensures
            (final(self)@, r) == retour(old(self)@, titre@),
            titres_distincts(final(self)@),
            forall|autre: Seq<char>| #[trigger] place(final(self)@, autre) == place(old(self)@, autre),
    {
        proof {
            use_type_invariant(&*self);
        }
        match self.chercher(titre) {
            Some(i) => {
                if self.changer_etat(i, true) {
                    Ok(())
                } else {
                    Err(ErreurCatalogue::LivreNonEmprunte)
                }
            },
            None => Err(ErreurCatalogue::LivreNonTrouve),
        }
    }

    /// A copy of every book, in the order of the catalogue.
    pub fn tous_livres(&self) -> (liste: Vec<Livre>)
        ensures
            vues(liste@) == self@,
            liste@.len() == self@.len(),
            forall|i: int| 0 <= i < liste@.len() ==> (#[trigger] liste@[i])@ == self@[i],
            titres_distincts(self@),
    {
        proof {
            use_type_invariant(self);
        }
        let mut liste: Vec<Livre> = Vec::new();
        let mut i: usize = 0;
        while i < self.livres.len()
            invariant
                0 <= i <= self.livres.len(),
                vues(liste@) == self@.take(i as int),
            decreases self.livres.len() - i,
        {
            let ghost avant = vues(liste@);
            liste.push(self.livres[i].clone());
            assert(vues(liste@) =~= avant.push(self@[i as int]));
            assert(self@.take(i + 1) =~= avant.push(self@[i as int]));
            i += 1;
        }
        assert(self@.take(i as int) =~= self@);
        liste
    }

    /// A copy of every book that is on the shelf, in the order of the
    /// catalogue.
    pub fn livres_disponibles(&self) -> (liste: Vec<Livre>)
        ensures
            vues(liste@) == disponibles(self@),
            liste@.len() == disponibles(self@).len(),
            forall|i: int|
                0 <= i < liste@.len() ==> (#[trigger] liste@[i])@ == disponibles(self@)[i],
    {
        let mut liste: Vec<Livre> = Vec::new();
        let mut i: usize = 0;
        assert(disponibles(self@.take(0)) =~= Seq::<LivreVue>::empty()) by {
            reveal(Seq::filter);
        }
        while i < self.livres.len()
            invariant
                0 <= i <= self.livres.len(),
                vues(liste@) == disponibles(self@.take(i as int)),
            decreases self.livres.len() - i,
        {
            proof {
                lemme_disponibles_etend(self@, i as int);
            }
            if self.livres[i].disponible {
                let ghost avant = vues(liste@);
                liste.push(self.livres[i].clone());
                assert(vues(liste@) =~= avant.push(self@[i as int]));
            }
            i += 1;
        }
        assert(self@.take(i as int) =~= self@);
        liste
    }

    /// Whether no book is on the shelf: every book is out, or there is none.
    pub fn aucun_disponible(&self) -> (aucun: bool)
        ensures
            aucun == tous_dans_l_etat(self@, false),
    {
        let mut i: usize = 0;
        while i < self.livres.len()
            invariant
                0 <= i <= self.livres.len(),
                forall|j: int| 0 <= j < i ==> !(#[trigger] self@[j]).disponible,
            decreases self.livres.len() - i,
        {
            if self.livres[i].disponible {
                assert(self@[i as int].disponible);
                return false;
            }
            i += 1;
        }
        true
    }

    /// Whether no book is out: every book is on the shelf, or there is none.
    pub fn aucun_emprunte(&self) -> (aucun: bool)
        ensures
            aucun == tous_dans_l_etat(self@, true),
    {
        let mut i: usize = 0;
        while i < self.livres.len()
            invariant
                0 <= i <= self.livres.len(),
                forall|j: int| 0 <= j < i ==> (#[trigger] self@[j]).disponible,
            decreases self.livres.len() - i,
        {
            if !self.livres[i].disponible {
                assert(!self@[i as int].disponible);
                return false;
            }
            i += 1;
        }
        true
    }

    /// Lends (`disponible` false) or takes back (`disponible` true) the book
    /// at place `i`, and says whether its state changed.
    fn changer_etat(&mut self, i: usize, disponible: bool) -> (change: bool)
        requires
            i < old(self)@.len(),
        ensures
            change == (old(self)@[i as int].disponible != disponible),
            final(self)@ == old(self)@.update(
                i as int,
                old(self)@[i as int].avec_disponible(disponible),
            ),
            !change ==> final(self)@ == old(self)@,
            titres_distincts(final(self)@),
            forall|autre: Seq<char>| #[trigger] place(final(self)@, autre) == place(old(self)@, autre),
    {
        proof {
            use_type_invariant(&*self);
        }
        // As in `ajouter_livre`, the books are taken out while one changes.
        let mut contenu = Bibliotheque::new();
        std::mem::swap(self, &mut contenu);
        let Bibliotheque { mut livres, cles } = contenu;
        let change = if disponible {
            livres[i].retourner()
        } else {
            livres[i].emprunter()
        };
        proof {
            let avant = old(self)@;
            let apres = vues(livres@);
            assert(apres =~= avant.update(i as int, avant[i as int].avec_disponible(disponible)));
            assert forall|a: int, b: int| 0 <= a < b < apres.len() implies !#[trigger] meme_titre(
                apres[a].titre,
                apres[b].titre,
            ) by {
                assert(!meme_titre(avant[a].titre, avant[b].titre));
            }
            if !change {
                assert(apres =~= avant);
            }
        }
        *self = Bibliotheque { livres, cles };
        proof {
            assert forall|autre: Seq<char>| #[trigger]
                place(self@, autre) == place(old(self)@, autre) by {
                lemme_place_inchangee(old(self)@, self@, autre);
            }
        }
        change
    }
}

} // verus!
