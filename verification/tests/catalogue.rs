use bibliotheque::catalogue::{chercher_cle, Bibliotheque};
use bibliotheque::erreur::ErreurCatalogue;
use bibliotheque::livre::Livre;

fn titres(livres: &[Livre]) -> Vec<String> {
    livres.iter().map(|l| l.titre.clone()).collect()
}

fn ajoute(b: &mut Bibliotheque, titre: &str, auteur: &str, annee: u32) -> Result<(), ErreurCatalogue> {
    b.ajouter_livre(titre.to_string(), auteur.to_string(), annee)
}

#[test]
fn nouvelle_bibliotheque_est_vide() {
    let b = Bibliotheque::new();
    assert_eq!(b.nombre_livres(), 0);
    assert!(b.tous_livres().is_empty());
    assert!(b.livres_disponibles().is_empty());
    assert!(b.aucun_disponible());
    assert!(b.aucun_emprunte());
}

#[test]
fn ajout_puis_titre_en_double_dans_une_autre_casse() {
    let mut b = Bibliotheque::new();
    assert_eq!(ajoute(&mut b, "Dune", "Herbert", 1965), Ok(()));
    assert_eq!(ajoute(&mut b, "dune", "X", 2000), Err(ErreurCatalogue::TitreEnDouble));
    assert_eq!(b.nombre_livres(), 1);
    let tous = b.tous_livres();
    assert_eq!(tous[0].titre, "Dune");
    assert_eq!(tous[0].auteur, "Herbert");
    assert_eq!(tous[0].annee, 1965);
    assert!(tous[0].disponible);
}

#[test]
fn emprunt_dans_une_bibliotheque_vide() {
    let mut b = Bibliotheque::new();
    assert_eq!(b.emprunter_livre("Dune"), Err(ErreurCatalogue::LivreNonTrouve));
    assert_eq!(b.retourner_livre("Dune"), Err(ErreurCatalogue::LivreNonTrouve));
    assert_eq!(b.nombre_livres(), 0);
}

#[test]
fn emprunt_retire_le_livre_des_disponibles() {
    let mut b = Bibliotheque::new();
    assert_eq!(ajoute(&mut b, "1984", "Orwell", 1949), Ok(()));
    assert_eq!(b.emprunter_livre("1984"), Ok(()));
    assert!(b.livres_disponibles().is_empty());
    let tous = b.tous_livres();
    assert_eq!(tous.len(), 1);
    assert_eq!(tous[0].titre, "1984");
    assert_eq!(tous[0].auteur, "Orwell");
    assert_eq!(tous[0].annee, 1949);
    assert!(!tous[0].disponible);
}

#[test]
fn retour_puis_second_retour_refuse() {
    let mut b = Bibliotheque::new();
    assert_eq!(ajoute(&mut b, "1984", "Orwell", 1949), Ok(()));
    assert_eq!(b.emprunter_livre("1984"), Ok(()));
    assert_eq!(b.retourner_livre("1984"), Ok(()));
    assert_eq!(b.retourner_livre("1984"), Err(ErreurCatalogue::LivreNonEmprunte));
    assert!(b.tous_livres()[0].disponible);
}

#[test]
fn titres_distincts_sont_tous_acceptes() {
    let mut b = Bibliotheque::new();
    let notices = [
        ("Dune", "Herbert", 1965),
        ("1984", "Orwell", 1949),
        ("Germinal", "Zola", 1885),
        ("Les Misérables", "Hugo", 1862),
        ("L'Étranger", "Camus", 1942),
    ];
    for (n, (titre, auteur, annee)) in notices.iter().enumerate() {
        assert_eq!(b.nombre_livres(), n);
        assert_eq!(ajoute(&mut b, titre, auteur, *annee), Ok(()));
        assert_eq!(b.nombre_livres(), n + 1);
    }
    assert_eq!(
        titres(&b.tous_livres()),
        vec!["Dune", "1984", "Germinal", "Les Misérables", "L'Étranger"]
    );
}

#[test]
fn titre_repete_est_refuse_sans_rien_changer() {
    let mut b = Bibliotheque::new();
    assert_eq!(ajoute(&mut b, "Les Misérables", "Hugo", 1862), Ok(()));
    assert_eq!(ajoute(&mut b, "Germinal", "Zola", 1885), Ok(()));
    for variante in ["Les Misérables", "les misérables", "LES MISÉRABLES", "lEs MiSéRaBlEs"] {
        assert_eq!(
            ajoute(&mut b, variante, "Quelqu'un", 2001),
            Err(ErreurCatalogue::TitreEnDouble)
        );
        assert_eq!(b.nombre_livres(), 2);
    }
    let tous = b.tous_livres();
    assert_eq!(titres(&tous), vec!["Les Misérables", "Germinal"]);
    assert_eq!(tous[0].auteur, "Hugo");
    assert_eq!(tous[0].annee, 1862);
}

#[test]
fn titre_proche_mais_different_est_accepte() {
    let mut b = Bibliotheque::new();
    assert_eq!(ajoute(&mut b, "Dune", "Herbert", 1965), Ok(()));
    assert_eq!(ajoute(&mut b, "Dune ", "Herbert", 1965), Ok(()));
    assert_eq!(ajoute(&mut b, "Dunes", "Autre", 1970), Ok(()));
    assert_eq!(b.nombre_livres(), 3);
}

#[test]
fn livre_ajoute_est_disponible() {
    let mut b = Bibliotheque::new();
    assert_eq!(ajoute(&mut b, "Dune", "Herbert", 1965), Ok(()));
    assert_eq!(b.emprunter_livre("Dune"), Ok(()));
    assert_eq!(ajoute(&mut b, "Germinal", "Zola", 1885), Ok(()));
    let tous = b.tous_livres();
    assert!(!tous[0].disponible);
    assert!(tous[1].disponible);
    assert_eq!(titres(&b.livres_disponibles()), vec!["Germinal"]);
}

#[test]
fn second_emprunt_refuse() {
    let mut b = Bibliotheque::new();
    assert_eq!(ajoute(&mut b, "Dune", "Herbert", 1965), Ok(()));
    assert_eq!(b.emprunter_livre("Dune"), Ok(()));
    assert_eq!(b.emprunter_livre("Dune"), Err(ErreurCatalogue::LivreNonDisponible));
    assert_eq!(b.emprunter_livre("DUNE"), Err(ErreurCatalogue::LivreNonDisponible));
    assert!(!b.tous_livres()[0].disponible);
}

#[test]
fn retour_d_un_livre_non_emprunte_refuse() {
    let mut b = Bibliotheque::new();
    assert_eq!(ajoute(&mut b, "Dune", "Herbert", 1965), Ok(()));
    assert_eq!(b.retourner_livre("Dune"), Err(ErreurCatalogue::LivreNonEmprunte));
    assert!(b.tous_livres()[0].disponible);
}

#[test]
fn emprunt_puis_retour_remet_le_livre_en_rayon() {
    let mut b = Bibliotheque::new();
    assert_eq!(ajoute(&mut b, "Dune", "Herbert", 1965), Ok(()));
    assert_eq!(ajoute(&mut b, "1984", "Orwell", 1949), Ok(()));
    assert_eq!(b.emprunter_livre("1984"), Ok(()));
    assert_eq!(titres(&b.livres_disponibles()), vec!["Dune"]);
    assert_eq!(b.retourner_livre("1984"), Ok(()));
    let tous = b.tous_livres();
    assert_eq!(titres(&tous), vec!["Dune", "1984"]);
    assert!(tous[0].disponible);
    assert!(tous[1].disponible);
    assert_eq!(titres(&b.livres_disponibles()), vec!["Dune", "1984"]);
}

#[test]
fn recherche_sans_egard_a_la_casse() {
    let mut b = Bibliotheque::new();
    assert_eq!(ajoute(&mut b, "Dune", "Herbert", 1965), Ok(()));
    assert_eq!(b.emprunter_livre("dune"), Ok(()));
    assert_eq!(b.retourner_livre("DUNE"), Ok(()));
    assert_eq!(b.tous_livres()[0].titre, "Dune");
}

#[test]
fn recherche_sans_egard_a_la_casse_avec_accents() {
    let mut b = Bibliotheque::new();
    assert_eq!(ajoute(&mut b, "L'ÉTRANGER", "Camus", 1942), Ok(()));
    assert_eq!(b.chercher("l'étranger"), Some(0));
    assert_eq!(b.chercher("L'étranger"), Some(0));
    assert_eq!(b.chercher("l'etranger"), None);
    assert_eq!(b.emprunter_livre("l'étranger"), Ok(()));
}

#[test]
fn chercher_donne_la_place_du_livre() {
    let mut b = Bibliotheque::new();
    assert_eq!(b.chercher("Dune"), None);
    assert_eq!(ajoute(&mut b, "Dune", "Herbert", 1965), Ok(()));
    assert_eq!(ajoute(&mut b, "1984", "Orwell", 1949), Ok(()));
    assert_eq!(ajoute(&mut b, "Germinal", "Zola", 1885), Ok(()));
    assert_eq!(b.chercher("dune"), Some(0));
    assert_eq!(b.chercher("1984"), Some(1));
    assert_eq!(b.chercher("GERMINAL"), Some(2));
    assert_eq!(b.chercher("Nana"), None);
    assert_eq!(b.chercher(""), None);
}

#[test]
fn emprunt_ne_touche_que_le_livre_demande() {
    let mut b = Bibliotheque::new();
    assert_eq!(ajoute(&mut b, "Dune", "Herbert", 1965), Ok(()));
    assert_eq!(ajoute(&mut b, "1984", "Orwell", 1949), Ok(()));
    assert_eq!(ajoute(&mut b, "Germinal", "Zola", 1885), Ok(()));
    assert_eq!(b.emprunter_livre("1984"), Ok(()));
    let tous = b.tous_livres();
    assert_eq!(titres(&tous), vec!["Dune", "1984", "Germinal"]);
    assert!(tous[0].disponible);
    assert!(!tous[1].disponible);
    assert!(tous[2].disponible);
    assert_eq!(tous[1].auteur, "Orwell");
    assert_eq!(tous[1].annee, 1949);
}

#[test]
fn refus_ne_change_rien() {
    let mut b = Bibliotheque::new();
    assert_eq!(ajoute(&mut b, "Dune", "Herbert", 1965), Ok(()));
    assert_eq!(ajoute(&mut b, "1984", "Orwell", 1949), Ok(()));
    assert_eq!(b.emprunter_livre("1984"), Ok(()));
    assert_eq!(b.emprunter_livre("Nana"), Err(ErreurCatalogue::LivreNonTrouve));
    assert_eq!(b.retourner_livre("Nana"), Err(ErreurCatalogue::LivreNonTrouve));
    assert_eq!(b.emprunter_livre("1984"), Err(ErreurCatalogue::LivreNonDisponible));
    assert_eq!(b.retourner_livre("Dune"), Err(ErreurCatalogue::LivreNonEmprunte));
    let tous = b.tous_livres();
    assert_eq!(titres(&tous), vec!["Dune", "1984"]);
    assert!(tous[0].disponible);
    assert!(!tous[1].disponible);
}

#[test]
fn disponibles_garde_l_ordre_du_catalogue() {
    let mut b = Bibliotheque::new();
    for (titre, auteur, annee) in [
        ("A", "a", 1001),
        ("B", "b", 1002),
        ("C", "c", 1003),
        ("D", "d", 1004),
        ("E", "e", 1005),
    ] {
        assert_eq!(ajoute(&mut b, titre, auteur, annee), Ok(()));
    }
    assert_eq!(b.emprunter_livre("b"), Ok(()));
    assert_eq!(b.emprunter_livre("d"), Ok(()));
    let disponibles = b.livres_disponibles();
    assert_eq!(titres(&disponibles), vec!["A", "C", "E"]);
    assert!(disponibles.iter().all(|l| l.disponible));
    assert_eq!(disponibles[1].auteur, "c");
    assert_eq!(disponibles[1].annee, 1003);
    let attendus: Vec<String> = b
        .tous_livres()
        .iter()
        .filter(|l| l.disponible)
        .map(|l| l.titre.clone())
        .collect();
    assert_eq!(titres(&disponibles), attendus);
}

#[test]
fn disponibles_vide_quand_tout_est_emprunte() {
    let mut b = Bibliotheque::new();
    assert_eq!(ajoute(&mut b, "Dune", "Herbert", 1965), Ok(()));
    assert_eq!(ajoute(&mut b, "1984", "Orwell", 1949), Ok(()));
    assert!(!b.aucun_disponible());
    assert!(b.aucun_emprunte());
    assert_eq!(b.emprunter_livre("Dune"), Ok(()));
    assert!(!b.aucun_disponible());
    assert!(!b.aucun_emprunte());
    assert_eq!(b.emprunter_livre("1984"), Ok(()));
    assert_eq!(b.livres_disponibles().len(), 0);
    assert!(b.aucun_disponible());
    assert!(!b.aucun_emprunte());
    assert_eq!(b.tous_livres().len(), 2);
}

#[test]
fn tous_livres_est_une_copie() {
    let mut b = Bibliotheque::new();
    assert_eq!(ajoute(&mut b, "Dune", "Herbert", 1965), Ok(()));
    let mut copie = b.tous_livres();
    assert!(copie[0].emprunter());
    copie[0].titre.push_str(" II");
    let tous = b.tous_livres();
    assert_eq!(tous[0].titre, "Dune");
    assert!(tous[0].disponible);
}

#[test]
fn messages_des_refus() {
    assert_eq!(ErreurCatalogue::TitreEnDouble.message(), "Un livre avec ce titre existe déjà");
    assert_eq!(ErreurCatalogue::LivreNonTrouve.message(), "Livre non trouvé");
    assert_eq!(ErreurCatalogue::LivreNonDisponible.message(), "Ce livre n'est pas disponible");
    assert_eq!(ErreurCatalogue::LivreNonEmprunte.message(), "Ce livre n'était pas emprunté");
}

#[test]
fn premiere_place_d_une_cle() {
    let cles: Vec<String> = ["dune", "1984", "germinal", "1984"].iter().map(|c| c.to_string()).collect();
    assert_eq!(chercher_cle(&cles, &"dune".to_string()), Some(0));
    assert_eq!(chercher_cle(&cles, &"1984".to_string()), Some(1));
    assert_eq!(chercher_cle(&cles, &"germinal".to_string()), Some(2));
    assert_eq!(chercher_cle(&cles, &"Dune".to_string()), None);
    assert_eq!(chercher_cle(&cles, &"".to_string()), None);
    assert_eq!(chercher_cle(&Vec::new(), &"dune".to_string()), None);
}
