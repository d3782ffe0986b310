use bibliotheque::livre::Livre;

#[test]
fn nouveau_livre_est_disponible() {
    let livre = Livre::new("Dune".to_string(), "Herbert".to_string(), 1965);
    assert_eq!(livre.titre, "Dune");
    assert_eq!(livre.auteur, "Herbert");
    assert_eq!(livre.annee, 1965);
    assert!(livre.disponible);
}

#[test]
fn emprunter_un_livre_disponible() {
    let mut livre = Livre::new("Dune".to_string(), "Herbert".to_string(), 1965);
    assert!(livre.emprunter());
    assert!(!livre.disponible);
    assert_eq!(livre.titre, "Dune");
    assert_eq!(livre.auteur, "Herbert");
    assert_eq!(livre.annee, 1965);
}

#[test]
fn emprunter_un_livre_deja_emprunte() {
    let mut livre = Livre::new("Dune".to_string(), "Herbert".to_string(), 1965);
    assert!(livre.emprunter());
    assert!(!livre.emprunter());
    assert!(!livre.disponible);
}

#[test]
fn retourner_un_livre_emprunte() {
    let mut livre = Livre::new("Dune".to_string(), "Herbert".to_string(), 1965);
    assert!(livre.emprunter());
    assert!(livre.retourner());
    assert!(livre.disponible);
}

#[test]
fn retourner_un_livre_disponible() {
    let mut livre = Livre::new("Dune".to_string(), "Herbert".to_string(), 1965);
    assert!(!livre.retourner());
    assert!(livre.disponible);
}

#[test]
fn copie_d_un_livre() {
    let mut livre = Livre::new("Dune".to_string(), "Herbert".to_string(), 1965);
    assert!(livre.emprunter());
    let copie = livre.clone();
    assert_eq!(copie.titre, "Dune");
    assert_eq!(copie.auteur, "Herbert");
    assert_eq!(copie.annee, 1965);
    assert!(!copie.disponible);
}
