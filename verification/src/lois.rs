//! What holds of the catalogue whatever its books: how successive requests
//! act on one another. Each statement is about the functions on sequences of
//! books that the methods of `Bibliotheque` are proved to compute.

use vstd::prelude::*;
use crate::casse::meme_titre;
use crate::catalogue::{
    ajout, contient, disponibles, emprunt, lemme_place, lemme_place_apres_ajout,
    lemme_place_inchangee, lemme_place_unique, place, retour, titres_distincts, tous_dans_l_etat,
};
use crate::erreur::ErreurCatalogue;
use crate::livre::LivreVue;

verus! {

/// What is asked when a book is added.
pub ghost struct Notice {
    pub titre: Seq<char>,
    pub auteur: Seq<char>,
    pub annee: u32,
}

/// The catalogue after the books of `notices` were asked to be added, one
/// after the other.
pub open spec fn ajouts(livres: Seq<LivreVue>, notices: Seq<Notice>) -> Seq<LivreVue>
    decreases notices.len(),
{
    if notices.len() == 0 {
        livres
    } else {
        let n = notices.last();
        ajout(ajouts(livres, notices.drop_last()), n.titre, n.auteur, n.annee).0
    }
}

/// Whether the titles of `notices` differ from one another and from those of
/// `livres`, case set aside.
pub open spec fn titres_nouveaux(livres: Seq<LivreVue>, notices: Seq<Notice>) -> bool {
    &&& forall|k: int| 0 <= k < notices.len() ==> !contient(livres, #[trigger] notices[k].titre)
    &&& forall|j: int, k: int|
        0 <= j < k < notices.len() ==> !#[trigger] meme_titre(notices[j].titre, notices[k].titre)
}

/// Two titles that are the same, case set aside, are found at the same place:
/// every request gives the same outcome for the one as for the other.
pub proof fn loi_casse_indifferente(livres: Seq<LivreVue>, titre: Seq<char>, autre: Seq<char>)
    requires
        meme_titre(titre, autre),
    ensures
        contient(livres, titre) == contient(livres, autre),
        place(livres, titre) == place(livres, autre),
        emprunt(livres, titre) == emprunt(livres, autre),
        retour(livres, titre) == retour(livres, autre),
{
    lemme_place(livres, titre);
    lemme_place(livres, autre);
    match place(livres, titre) {
        Some(i) => {
            assert forall|j: int| 0 <= j < i implies !#[trigger] meme_titre(
                livres[j].titre,
                autre,
            ) by {
                assert(!meme_titre(livres[j].titre, titre));
            }
            lemme_place_unique(livres, autre, i);
        },
        None => {
            if place(livres, autre) is Some {
                assert(!meme_titre(livres[place(livres, autre)->0].titre, titre));
            }
        },
    }
}

/// Adding a book whose title is not taken succeeds, lengthens the catalogue
/// by one and leaves the books that were there as they were; the new book
/// stands last, as it was given, on the shelf.
pub proof fn loi_ajout_accepte(
    livres: Seq<LivreVue>,
    titre: Seq<char>,
    auteur: Seq<char>,
    annee: u32,
)
    requires
        !contient(livres, titre),
    ensures
        ajout(livres, titre, auteur, annee).1 == Ok::<(), ErreurCatalogue>(()),
        ajout(livres, titre, auteur, annee).0.len() == livres.len() + 1,
        ajout(livres, titre, auteur, annee).0.drop_last() == livres,
        ajout(livres, titre, auteur, annee).0.last() == (LivreVue {
            titre,
            auteur,
            annee,
            disponible: true,
        }),
{
    assert(ajout(livres, titre, auteur, annee).0.drop_last() =~= livres);
}

/// Adding a book whose title is taken, in whatever case, is refused with
/// `TitreEnDouble` and leaves the catalogue as it was.
pub proof fn loi_ajout_refuse(
    livres: Seq<LivreVue>,
    titre: Seq<char>,
    auteur: Seq<char>,
    annee: u32,
)
    requires
        contient(livres, titre),
    ensures
        ajout(livres, titre, auteur, annee) == (livres, Err::<(), _>(ErreurCatalogue::TitreEnDouble)),
{
}

/// Once a title was asked to be added, a second request for it, in whatever
/// case and with whatever author and year, is refused with `TitreEnDouble` and
/// leaves the catalogue as the first request left it.
pub proof fn loi_ajout_repete(
    livres: Seq<LivreVue>,
    titre: Seq<char>,
    auteur: Seq<char>,
    annee: u32,
    autre_titre: Seq<char>,
    autre_auteur: Seq<char>,
    autre_annee: u32,
)
    requires
        meme_titre(titre, autre_titre),
    ensures
        ajout(ajout(livres, titre, auteur, annee).0, autre_titre, autre_auteur, autre_annee) == (
            ajout(livres, titre, auteur, annee).0,
            Err::<(), _>(ErreurCatalogue::TitreEnDouble),
        ),
{
    if contient(livres, titre) {
        loi_casse_indifferente(livres, titre, autre_titre);
    } else {
        lemme_place_apres_ajout(livres, titre, auteur, annee, autre_titre);
    }
}

/// Requests to add books whose titles differ from one another and from those
/// of the catalogue all succeed, and each lengthens the catalogue by one.
pub proof fn loi_ajouts_distincts(livres: Seq<LivreVue>, notices: Seq<Notice>)
    requires
        titres_nouveaux(livres, notices),
    ensures
        ajouts(livres, notices).len() == livres.len() + notices.len(),
        forall|k: int|
            0 <= k < notices.len() ==> {
                let avant = #[trigger] ajouts(livres, notices.take(k));
                &&& avant.len() == livres.len() + k
                &&& ajout(avant, notices[k].titre, notices[k].auteur, notices[k].annee).1 is Ok
                &&& ajout(avant, notices[k].titre, notices[k].auteur, notices[k].annee).0
                    == ajouts(livres, notices.take(k + 1))
            },
    decreases notices.len(),
{
    assert(notices.take(notices.len() as int) =~= notices);
    assert forall|k: int| 0 <= k < notices.len() implies {
        let avant = #[trigger] ajouts(livres, notices.take(k));
        &&& avant.len() == livres.len() + k
        &&& ajout(avant, notices[k].titre, notices[k].auteur, notices[k].annee).1 is Ok
        &&& ajout(avant, notices[k].titre, notices[k].auteur, notices[k].annee).0 == ajouts(
            livres,
            notices.take(k + 1),
        )
    } by {
        lemme_ajouts_prefixe(livres, notices, k);
        assert(notices.take(k + 1).drop_last() =~= notices.take(k));
        assert(notices.take(k + 1).last() == notices[k]);
    }
    lemme_ajouts_prefixe(livres, notices, notices.len() as int);
}

/// After the first `k` of a run of requests with new titles, the catalogue
/// holds the books it held, then one book for each request, under its title.
proof fn lemme_ajouts_prefixe(livres: Seq<LivreVue>, notices: Seq<Notice>, k: int)
    requires
        titres_nouveaux(livres, notices),
        0 <= k <= notices.len(),
    ensures
        ajouts(livres, notices.take(k)).len() == livres.len() + k,
        forall|i: int| 0 <= i < livres.len() ==> ajouts(livres, notices.take(k))[i] == livres[i],
        forall|i: int|
            0 <= i < k ==> (#[trigger] ajouts(livres, notices.take(k))[livres.len() + i]).titre
                == notices[i].titre,
        k < notices.len() ==> !contient(ajouts(livres, notices.take(k)), notices[k].titre),
    decreases k,
{
    let debut = notices.take(k);
    if k > 0 {
        lemme_ajouts_prefixe(livres, notices, k - 1);
        assert(debut.drop_last() =~= notices.take(k - 1));
        assert(debut.last() == notices[k - 1]);
    }
    let apres = ajouts(livres, debut);
    if k < notices.len() {
        lemme_place(livres, notices[k].titre);
        lemme_place(apres, notices[k].titre);
        if place(apres, notices[k].titre) is Some {
            let i = place(apres, notices[k].titre)->0;
            if i < livres.len() {
                assert(apres[i] == livres[i]);
                assert(!meme_titre(livres[i].titre, notices[k].titre));
            } else {
                let j = i - livres.len();
                assert(apres[livres.len() + j].titre == notices[j].titre);
                assert(!meme_titre(notices[j].titre, notices[k].titre));
            }
        }
    }
}

/// Lending a title that the catalogue holds leaves its book out: a second
/// request to lend it is refused with `LivreNonDisponible` and changes nothing.
pub proof fn loi_emprunt_repete(livres: Seq<LivreVue>, titre: Seq<char>)
    requires
        contient(livres, titre),
    ensures
        emprunt(emprunt(livres, titre).0, titre) == (
            emprunt(livres, titre).0,
            Err::<(), _>(ErreurCatalogue::LivreNonDisponible),
        ),
{
    lemme_place_inchangee(livres, emprunt(livres, titre).0, titre);
}

/// Taking back a title that the catalogue holds leaves its book on the
/// shelf: a second request to take it back is refused with `LivreNonEmprunte`
/// and changes nothing.
pub proof fn loi_retour_repete(livres: Seq<LivreVue>, titre: Seq<char>)
    requires
        contient(livres, titre),
    ensures
        retour(retour(livres, titre).0, titre) == (
            retour(livres, titre).0,
            Err::<(), _>(ErreurCatalogue::LivreNonEmprunte),
        ),
{
    lemme_place_inchangee(livres, retour(livres, titre).0, titre);
}

/// Lending a title that the catalogue holds and then taking it back always
/// succeeds in the end and leaves the book on the shelf, every other book as
/// it was; where the loan itself succeeded, the catalogue is back to what it
/// was.
pub proof fn loi_emprunt_puis_retour(livres: Seq<LivreVue>, titre: Seq<char>)
    requires
        contient(livres, titre),
    ensures
        retour(emprunt(livres, titre).0, titre) == (
            livres.update(
                place(livres, titre)->0,
                livres[place(livres, titre)->0].avec_disponible(true),
            ),
            Ok::<(), ErreurCatalogue>(()),
        ),
        emprunt(livres, titre).1 is Ok ==> retour(emprunt(livres, titre).0, titre).0 == livres,
{
    let i = place(livres, titre)->0;
    let sorti = emprunt(livres, titre).0;
    lemme_place_inchangee(livres, sorti, titre);
    assert(sorti.update(i, sorti[i].avec_disponible(true)) =~= livres.update(
        i,
        livres[i].avec_disponible(true),
    ));
    if emprunt(livres, titre).1 is Ok {
        assert(livres.update(i, livres[i].avec_disponible(true)) =~= livres);
    }
}

/// A book that was just added can be lent under its title, in whatever case.
pub proof fn loi_ajout_puis_emprunt(
    livres: Seq<LivreVue>,
    titre: Seq<char>,
    auteur: Seq<char>,
    annee: u32,
    autre: Seq<char>,
)
    requires
        !contient(livres, titre),
        meme_titre(titre, autre),
    ensures
        emprunt(ajout(livres, titre, auteur, annee).0, autre) == (
            livres.push(LivreVue { titre, auteur, annee, disponible: false }),
            Ok::<(), ErreurCatalogue>(()),
        ),
{
    let ajoute = ajout(livres, titre, auteur, annee).0;
    let i = livres.len() as int;
    lemme_place_apres_ajout(livres, titre, auteur, annee, autre);
    assert(ajoute.update(i, ajoute[i].avec_disponible(false)) =~= livres.push(
        LivreVue { titre, auteur, annee, disponible: false },
    ));
}

/// The places of the books of `livres` that are on the shelf, in increasing
/// order.
pub open spec fn places_disponibles(livres: Seq<LivreVue>) -> Seq<int>
    decreases livres.len(),
{
    if livres.len() == 0 {
        Seq::empty()
    } else if livres.last().disponible {
        places_disponibles(livres.drop_last()).push(livres.len() - 1)
    } else {
        places_disponibles(livres.drop_last())
    }
}

/// The list of the books on the shelf is drawn from the catalogue without
/// changing the order: it holds, one for one and in increasing order of their
/// places, the books that are on the shelf, each as the catalogue has it, and
/// no other.
pub proof fn loi_disponibles_en_ordre(livres: Seq<LivreVue>)
    ensures
        disponibles(livres).len() == places_disponibles(livres).len(),
        disponibles(livres).len() <= livres.len(),
        forall|k: int|
            0 <= k < disponibles(livres).len() ==> {
                let p = #[trigger] places_disponibles(livres)[k];
                &&& 0 <= p < livres.len()
                &&& livres[p].disponible
                &&& disponibles(livres)[k] == livres[p]
            },
        forall|j: int, k: int|
            0 <= j < k < disponibles(livres).len() ==> #[trigger] places_disponibles(livres)[j]
                < #[trigger] places_disponibles(livres)[k],
        forall|i: int|
            0 <= i < livres.len() && (#[trigger] livres[i]).disponible ==> exists|k: int|
                0 <= k < disponibles(livres).len() && #[trigger] places_disponibles(livres)[k] == i,
    decreases livres.len(),
{
    reveal(Seq::filter);
    if livres.len() > 0 {
        let debut = livres.drop_last();
        let dernier = livres.len() - 1;
        loi_disponibles_en_ordre(debut);
        let places = places_disponibles(livres);
        assert forall|i: int| 0 <= i < livres.len() && (#[trigger] livres[i]).disponible implies exists|
            k: int,
        |
            0 <= k < disponibles(livres).len() && #[trigger] places[k] == i by {
            if i < dernier {
                assert(debut[i].disponible);
                let k = choose|k: int|
                    0 <= k < disponibles(debut).len() && #[trigger] places_disponibles(debut)[k]
                        == i;
                assert(places[k] == i);
            } else {
                assert(places[places.len() - 1] == i);
            }
        }
    }
}

/// The list of the books on the shelf is empty exactly when every book is
/// out.
pub proof fn loi_disponibles_vide(livres: Seq<LivreVue>)
    ensures
        disponibles(livres).len() == 0 <==> tous_dans_l_etat(livres, false),
{
    loi_disponibles_en_ordre(livres);
    if disponibles(livres).len() > 0 {
        let p = places_disponibles(livres)[0];
        assert(livres[p].disponible);
    }
}

/// No request brings a title twice into a catalogue in which titles are
/// distinct.
pub proof fn loi_titres_distincts(
    livres: Seq<LivreVue>,
    titre: Seq<char>,
    auteur: Seq<char>,
    annee: u32,
)
    requires
        titres_distincts(livres),
    ensures
        titres_distincts(ajout(livres, titre, auteur, annee).0),
        titres_distincts(emprunt(livres, titre).0),
        titres_distincts(retour(livres, titre).0),
{
    let ajoute = ajout(livres, titre, auteur, annee).0;
    lemme_place(livres, titre);
    assert forall|i: int, j: int| 0 <= i < j < ajoute.len() implies !#[trigger] meme_titre(
        ajoute[i].titre,
        ajoute[j].titre,
    ) by {
        if j < livres.len() {
            assert(!meme_titre(livres[i].titre, livres[j].titre));
        } else {
            assert(!meme_titre(livres[i].titre, titre));
        }
    }
    let sorti = emprunt(livres, titre).0;
    assert forall|i: int, j: int| 0 <= i < j < sorti.len() implies !#[trigger] meme_titre(
        sorti[i].titre,
        sorti[j].titre,
    ) by {
        assert(!meme_titre(livres[i].titre, livres[j].titre));
    }
    let rentre = retour(livres, titre).0;
    assert forall|i: int, j: int| 0 <= i < j < rentre.len() implies !#[trigger] meme_titre(
        rentre[i].titre,
        rentre[j].titre,
    ) by {
        assert(!meme_titre(livres[i].titre, livres[j].titre));
    }
}

/// In a catalogue in which titles are distinct, the book that a title finds
/// is the only one that bears it.
pub proof fn loi_titre_unique(livres: Seq<LivreVue>, titre: Seq<char>, i: int)
    requires
        titres_distincts(livres),
        0 <= i < livres.len(),
        meme_titre(livres[i].titre, titre),
    ensures
        place(livres, titre) == Some(i),
{
    assert forall|j: int| 0 <= j < i implies !#[trigger] meme_titre(livres[j].titre, titre) by {
        assert(!meme_titre(livres[j].titre, livres[i].titre));
    }
    lemme_place_unique(livres, titre, i);
}

} // verus!
