use piscine::pompe::GestionPompe;

#[test]
fn securite_coupe_la_pompe() {
    let mut p = GestionPompe::nouveau();
    p.mettre_a_jour_a(true, true, 0);
    assert!(p.etat());
    p.mettre_a_jour_a(true, false, 1_000);
    assert!(!p.etat());
    assert_eq!(p.sessions_aujourdhui(), 1);
}

#[test]
fn cumul_du_temps_de_marche() {
    let mut p = GestionPompe::nouveau();
    p.mettre_a_jour_a(true, true, 10_000);
    assert_eq!(p.marche_aujourdhui_ms(), 0);
    p.mettre_a_jour_a(true, true, 70_000);
    assert_eq!(p.marche_aujourdhui_ms(), 60_000);
    p.mettre_a_jour_a(false, true, 100_000);
    assert_eq!(p.marche_aujourdhui_ms(), 90_000);
    p.mettre_a_jour_a(false, true, 200_000);
    assert_eq!(p.marche_aujourdhui_ms(), 90_000);
}

#[test]
fn anti_claquement_bloque_cinq_minutes() {
    let mut p = GestionPompe::nouveau();
    p.mettre_a_jour_a(true, true, 0); // 1
    p.mettre_a_jour_a(false, true, 10_000); // 2
    p.mettre_a_jour_a(true, true, 20_000); // 3
    p.mettre_a_jour_a(false, true, 30_000); // 4 : encore autorisé
    assert!(!p.etat());
    assert!(!p.bloquee_a(30_000));
    p.mettre_a_jour_a(true, true, 40_000); // 5 : plus de 4 en 2 min, blocage
    assert!(!p.etat());
    assert!(p.bloquee_a(40_000));
    p.mettre_a_jour_a(true, true, 50_000);
    assert!(!p.etat());
    p.mettre_a_jour_a(true, true, 339_999);
    assert!(!p.etat());
    assert!(p.bloquee_a(339_999));
    p.mettre_a_jour_a(true, true, 340_000);
    assert!(p.etat());
    assert!(!p.bloquee_a(340_000));
    assert_eq!(p.sessions_aujourdhui(), 3);
}

#[test]
fn anti_claquement_quatre_changements_autorises() {
    let mut p = GestionPompe::nouveau();
    for (i, t) in [0u64, 10_000, 20_000, 30_000].iter().enumerate() {
        p.mettre_a_jour_a(i % 2 == 0, true, *t);
        assert_eq!(p.etat(), i % 2 == 0);
        assert!(!p.bloquee_a(*t));
    }
    assert_eq!(p.sessions_aujourdhui(), 2);
}

#[test]
fn fenetre_glissante_expiree_remet_le_compteur() {
    let mut p = GestionPompe::nouveau();
    p.mettre_a_jour_a(true, true, 0);
    p.mettre_a_jour_a(false, true, 10_000);
    p.mettre_a_jour_a(true, true, 20_000);
    // Plus de 2 min après le début de la fenêtre : nouvelle fenêtre.
    p.mettre_a_jour_a(false, true, 130_001);
    assert!(!p.etat());
    assert!(!p.bloquee_a(130_001));
    p.mettre_a_jour_a(true, true, 130_002);
    assert!(p.etat());
}

#[test]
fn reinitialisation_et_rechargement_du_jour() {
    let mut p = GestionPompe::nouveau();
    p.mettre_a_jour_a(true, true, 0);
    p.mettre_a_jour_a(true, true, 5_000);
    p.reinitialiser_jour();
    assert_eq!(p.marche_aujourdhui_ms(), 0);
    assert_eq!(p.sessions_aujourdhui(), 0);
    p.charger_etat_jour(7_200_000, 3);
    assert_eq!(p.marche_aujourdhui_ms(), 7_200_000);
    assert_eq!(p.sessions_aujourdhui(), 3);
    assert!(p.etat());
}

#[test]
fn pompe_horloge_reelle() {
    let mut p = GestionPompe::nouveau();
    p.mettre_a_jour(true, false);
    assert!(!p.etat());
    assert!(!p.bloquee());
}

#[test]
fn anti_claquement_fenetre_glissante() {
    let mut p = GestionPompe::nouveau();
    p.mettre_a_jour_a(true, true, 100_000);
    p.mettre_a_jour_a(false, true, 100_001);
    p.mettre_a_jour_a(true, true, 100_002);
    p.mettre_a_jour_a(false, true, 100_003);
    assert!(!p.bloquee_a(100_003));
    // Cinquième changement en 30 s : bloqué, quelle que soit la position dans le temps.
    p.mettre_a_jour_a(true, true, 130_000);
    assert!(!p.etat());
    assert!(p.bloquee_a(130_000));
    p.mettre_a_jour_a(true, true, 429_999);
    assert!(!p.etat());
    // Quatre changements, dont le plus ancien a plus de 2 min : autorisé.
    let mut q = GestionPompe::nouveau();
    q.mettre_a_jour_a(true, true, 0);
    q.mettre_a_jour_a(false, true, 60_000);
    q.mettre_a_jour_a(true, true, 100_000);
    q.mettre_a_jour_a(false, true, 110_000);
    q.mettre_a_jour_a(true, true, 120_001);
    assert!(q.etat());
    assert!(!q.bloquee_a(120_001));
    // Le suivant : les quatre précédents (60 000 à 120 001) sont dans les 2 min.
    q.mettre_a_jour_a(false, true, 125_000);
    assert!(q.bloquee_a(125_000));
}
