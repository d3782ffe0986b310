use bibliotheque::saisie::{lire_annee, lire_entier, ErreurAnnee, ANNEE_MAX, ANNEE_MIN};

/// The range check on what the standard library reads as a `u32`.
fn annee_attendue(entree: &str) -> Result<u32, ErreurAnnee> {
    match entree.parse::<u32>() {
        Ok(annee) if annee >= 1000 && annee <= 2025 => Ok(annee),
        Ok(_) => Err(ErreurAnnee::HorsLimites),
        Err(_) => Err(ErreurAnnee::Invalide),
    }
}

#[test]
fn limites_des_annees() {
    assert_eq!(ANNEE_MIN, 1000);
    assert_eq!(ANNEE_MAX, 2025);
    assert_eq!(lire_annee("999"), Err(ErreurAnnee::HorsLimites));
    assert_eq!(lire_annee("1000"), Ok(1000));
    assert_eq!(lire_annee("2025"), Ok(2025));
    assert_eq!(lire_annee("2026"), Err(ErreurAnnee::HorsLimites));
}

#[test]
fn annees_ordinaires() {
    assert_eq!(lire_annee("1965"), Ok(1965));
    assert_eq!(lire_annee("1949"), Ok(1949));
    assert_eq!(lire_annee("+1885"), Ok(1885));
    assert_eq!(lire_annee("0001862"), Ok(1862));
}

#[test]
fn annees_hors_limites() {
    assert_eq!(lire_annee("0"), Err(ErreurAnnee::HorsLimites));
    assert_eq!(lire_annee("+0"), Err(ErreurAnnee::HorsLimites));
    assert_eq!(lire_annee("20250"), Err(ErreurAnnee::HorsLimites));
    assert_eq!(lire_annee("4294967295"), Err(ErreurAnnee::HorsLimites));
}

#[test]
fn annees_invalides() {
    for entree in [
        "", "+", "-", "abc", "19a5", "1965 ", " 1965", "-1965", "--1", "++1965", "1965+", "1_965",
        "19.65", "1965.0", "0x7AD", "١٩٦٥", "１９６５", "deux mille", "4294967296",
        "99999999999999999999999999",
    ] {
        assert_eq!(lire_annee(entree), Err(ErreurAnnee::Invalide), "{:?}", entree);
    }
}

#[test]
fn entiers_lus() {
    assert_eq!(lire_entier("0"), Some(0));
    assert_eq!(lire_entier("7"), Some(7));
    assert_eq!(lire_entier("+7"), Some(7));
    assert_eq!(lire_entier("007"), Some(7));
    assert_eq!(lire_entier("1234567890"), Some(1234567890));
    assert_eq!(lire_entier("4294967295"), Some(u32::MAX));
    assert_eq!(lire_entier("+4294967295"), Some(u32::MAX));
    assert_eq!(lire_entier("00000000000000000004294967295"), Some(u32::MAX));
    assert_eq!(lire_entier("4294967296"), None);
    assert_eq!(lire_entier("4294967300"), None);
    assert_eq!(lire_entier("42949672950"), None);
    assert_eq!(lire_entier(""), None);
    assert_eq!(lire_entier("+"), None);
    assert_eq!(lire_entier("-7"), None);
    assert_eq!(lire_entier("é"), None);
    assert_eq!(lire_entier("+é"), None);
    assert_eq!(lire_entier("1é"), None);
}

#[test]
fn meme_lecture_que_la_bibliotheque_standard() {
    let signes = ["", "+", "-", " ", "0", "00"];
    let corps = [
        "", "0", "9", "10", "999", "1000", "1001", "1965", "2025", "2026", "9999", "65535",
        "4294967294", "4294967295", "4294967296", "4294967305", "18446744073709551616", "1a", "a1",
        "1 ", "1\n", "1\t2", "٣", "1٣", "é", "+", "+1", "-", "/", ":", "0/", "9:",
    ];
    for s in signes {
        for c in corps {
            let entree = format!("{}{}", s, c);
            assert_eq!(lire_annee(&entree), annee_attendue(&entree), "{:?}", entree);
            assert_eq!(lire_entier(&entree), entree.parse::<u32>().ok(), "{:?}", entree);
        }
    }
    for n in 0u32..3000 {
        let entree = n.to_string();
        assert_eq!(lire_annee(&entree), annee_attendue(&entree));
        assert_eq!(lire_entier(&entree), Some(n));
    }
}

#[test]
fn messages_des_refus_d_annee() {
    assert_eq!(ErreurAnnee::Invalide.message(), "Veuillez entrer une année valide");
    assert_eq!(ErreurAnnee::HorsLimites.message(), "L'année doit être entre 1000 et 2025");
}
