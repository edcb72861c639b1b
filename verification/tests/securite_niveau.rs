use piscine::niveau_eau::NiveauEau;
use piscine::securite::SecuriteMoteur;

#[test]
fn defaut_confirme_apres_anti_rebond_puis_verrouille() {
    let mut s = SecuriteMoteur::nouveau();
    s.mettre_a_jour_a(true, 1_000);
    assert!(!s.actif());
    s.mettre_a_jour_a(true, 1_199);
    assert!(!s.actif());
    s.mettre_a_jour_a(true, 1_200);
    assert!(s.actif());
    assert!(s.verrouille());
    // Le contact se referme : le défaut reste verrouillé.
    s.mettre_a_jour_a(false, 1_300);
    assert!(s.actif());
    assert!(s.verrouille());
    s.mettre_a_jour_a(false, 100_000);
    assert!(s.verrouille());
    s.rearmer();
    assert!(!s.actif());
    assert!(!s.verrouille());
}

#[test]
fn glitch_court_ignore() {
    let mut s = SecuriteMoteur::nouveau();
    s.mettre_a_jour_a(true, 0);
    s.mettre_a_jour_a(true, 150);
    s.mettre_a_jour_a(false, 160);
    s.mettre_a_jour_a(true, 170);
    s.mettre_a_jour_a(true, 300);
    assert!(!s.actif());
    s.mettre_a_jour_a(true, 370);
    assert!(s.actif());
}

#[test]
fn securite_horloge_reelle() {
    let mut s = SecuriteMoteur::nouveau();
    s.mettre_a_jour(false);
    assert!(!s.actif());
}

#[test]
fn niveau_premiere_lecture_immediate() {
    let mut n = NiveauEau::nouveau();
    assert!(!n.mettre_a_jour_a(100, 0));
    let mut n2 = NiveauEau::nouveau();
    assert!(n2.mettre_a_jour_a(3000, 0));
    // Zone morte à la première lecture : la décision initiale (correcte) est gardée.
    let mut n3 = NiveauEau::nouveau();
    assert!(n3.mettre_a_jour_a(2000, 0));
}

#[test]
fn niveau_coupure_apres_trois_secondes() {
    let mut n = NiveauEau::nouveau();
    assert!(n.mettre_a_jour_a(3000, 0));
    assert!(n.mettre_a_jour_a(1000, 1_000));
    assert!(n.mettre_a_jour_a(1000, 3_999));
    assert!(!n.mettre_a_jour_a(1000, 4_000));
    // Retour : 5 s de confirmation.
    assert!(!n.mettre_a_jour_a(2500, 5_000));
    assert!(!n.mettre_a_jour_a(2500, 9_999));
    assert!(n.mettre_a_jour_a(2500, 10_000));
}

#[test]
fn niveau_vaguelette_ignoree() {
    let mut n = NiveauEau::nouveau();
    assert!(n.mettre_a_jour_a(3000, 0));
    assert!(n.mettre_a_jour_a(1000, 1_000));
    assert!(n.mettre_a_jour_a(3000, 2_000));
    assert!(n.mettre_a_jour_a(1000, 3_000));
    assert!(n.mettre_a_jour_a(1000, 5_999));
    assert!(!n.mettre_a_jour_a(1000, 6_000));
}

#[test]
fn niveau_zone_morte_garde_la_cible() {
    let mut n = NiveauEau::nouveau();
    assert!(n.mettre_a_jour_a(3000, 0));
    assert!(n.mettre_a_jour_a(1800, 1_000));
    assert!(n.mettre_a_jour_a(2200, 100_000));
    assert!(n.mettre_a_jour_a(1799, 200_000));
    assert!(!n.mettre_a_jour_a(1900, 203_000));
}

#[test]
fn niveau_horloge_reelle() {
    let mut n = NiveauEau::nouveau();
    assert!(!n.mettre_a_jour(0));
}
