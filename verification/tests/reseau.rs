use piscine::surveillance_reseau::{Action, Bilan, FenetreSondage, Superviseur};

#[test]
fn bilan_seulement_fenetre_complete() {
    let mut f = FenetreSondage::nouvelle();
    for i in 0..9u64 {
        f.enregistrer_a(4, 3, i);
        assert_eq!(f.bilan(), None);
    }
    f.enregistrer_a(4, 1, 9);
    assert_eq!(f.bilan(), Some(Bilan { envoyes: 40, recus: 28 }));
    // Le plus ancien sort de la fenêtre.
    f.enregistrer_a(4, 0, 10);
    assert_eq!(f.bilan(), Some(Bilan { envoyes: 40, recus: 25 }));
    f.reinitialiser_fenetre();
    assert_eq!(f.bilan(), None);
    assert_eq!(f.depuis_dernier_succes_a(20), Some(11));
}

#[test]
fn dernier_succes() {
    let mut f = FenetreSondage::nouvelle();
    assert_eq!(f.depuis_dernier_succes_a(5), None);
    f.enregistrer_a(4, 0, 100);
    assert_eq!(f.depuis_dernier_succes_a(200), None);
    f.enregistrer_a(4, 2, 300);
    assert_eq!(f.depuis_dernier_succes_a(1_300), Some(1_000));
    f.enregistrer(4, 0);
    assert!(f.depuis_dernier_succes().is_some());
}

#[test]
fn taux_et_perte() {
    assert!(!Bilan { envoyes: 0, recus: 0 }.utilisable());
    assert_eq!(Bilan { envoyes: 0, recus: 0 }.perte(), 100);
    assert!(!Bilan { envoyes: 40, recus: 16 }.utilisable());
    assert!(Bilan { envoyes: 40, recus: 17 }.utilisable());
    assert_eq!(Bilan { envoyes: 40, recus: 10 }.perte(), 75);
    assert_eq!(Bilan { envoyes: 40, recus: 40 }.perte(), 0);
    assert_eq!(Bilan { envoyes: 3, recus: 1 }.perte(), 67);
    assert_eq!(Bilan { envoyes: 40, recus: 0 }.perte(), 100);
}

#[test]
fn garde_fou_sans_succes() {
    let mut s = Superviseur::nouveau();
    let mut f = FenetreSondage::nouvelle();
    for i in 0..10u64 {
        f.enregistrer_a(4, 0, i);
    }
    for t in [0u64, 60_000, 700_000, 2_000_000] {
        assert_eq!(s.evaluer(true, Some(&mut f), t), Action::Rien);
        assert_eq!(s.evaluer(false, Some(&mut f), t), Action::Rien);
    }
    assert_eq!(s.evaluer(false, None, 5_000_000), Action::Rien);
}

#[test]
fn escalade_complete() {
    let mut s = Superviseur::nouveau();
    // Un succès ancien (garde-fou levé), puis que des pertes.
    let mut g = FenetreSondage::nouvelle();
    g.enregistrer_a(4, 4, 0);
    for i in 0..10u64 {
        g.enregistrer_a(4, 0, i);
    }
    assert_eq!(s.evaluer(true, Some(&mut g), 1_000), Action::Rien);
    assert_eq!(s.evaluer(true, Some(&mut g), 31_000), Action::Reconnecter { minutes: 0 });
    assert_eq!(s.evaluer(true, Some(&mut g), 40_000), Action::Rien);
    assert_eq!(s.evaluer(true, Some(&mut g), 61_000), Action::Reconnecter { minutes: 1 });
    assert_eq!(s.evaluer(true, Some(&mut g), 301_000), Action::ReinitialiserPilote { minutes: 5, perte: 100 });
    // Une seule réinitialisation par épisode : ensuite, retour aux reconnexions.
    assert_eq!(s.evaluer(true, Some(&mut g), 302_000), Action::Reconnecter { minutes: 5 });
    assert_eq!(s.evaluer(true, Some(&mut g), 331_000), Action::Rien);
    assert_eq!(s.evaluer(true, Some(&mut g), 540_000), Action::Reconnecter { minutes: 8 });
    assert_eq!(s.evaluer(true, Some(&mut g), 601_000), Action::Reconnecter { minutes: 10 });
    assert_eq!(s.evaluer(true, Some(&mut g), 899_999), Action::Reconnecter { minutes: 14 });
    // L'épisode a commencé à 1 000 ms : redémarrage à 15 minutes pleines.
    assert_eq!(s.evaluer(true, Some(&mut g), 900_999), Action::Rien);
    assert_eq!(s.evaluer(true, Some(&mut g), 901_000), Action::Redemarrer { minutes: 15, perte: 100 });
}

#[test]
fn association_perdue_compte_immediatement_et_retour_vide_la_fenetre() {
    let mut s = Superviseur::nouveau();
    let mut g = FenetreSondage::nouvelle();
    g.enregistrer_a(4, 4, 0);
    assert_eq!(s.evaluer(false, Some(&mut g), 0), Action::Rien);
    assert_eq!(s.evaluer(false, Some(&mut g), 30_000), Action::Reconnecter { minutes: 0 });
    for i in 0..10u64 {
        g.enregistrer_a(4, 0, i);
    }
    // Retour de l'association : fenêtre vidée, bénéfice du doute.
    assert_eq!(s.evaluer(true, Some(&mut g), 40_000), Action::Rien);
    assert_eq!(g.bilan(), None);
}

#[test]
fn oubli_apres_stabilite_seulement() {
    let mut s = Superviseur::nouveau();
    let mut g = FenetreSondage::nouvelle();
    g.enregistrer_a(4, 4, 0);
    assert_eq!(s.evaluer(false, Some(&mut g), 0), Action::Rien);
    assert_eq!(s.evaluer(false, Some(&mut g), 200_000), Action::Reconnecter { minutes: 3 });
    // Court retour (moins d'une minute) : le chronomètre n'est pas effacé.
    assert_eq!(s.evaluer(true, Some(&mut g), 210_000), Action::Rien);
    assert_eq!(s.evaluer(false, Some(&mut g), 250_000), Action::Reconnecter { minutes: 4 });
    assert_eq!(s.evaluer(false, Some(&mut g), 300_000), Action::ReinitialiserPilote { minutes: 5, perte: 100 });
    // Retour stable plus d'une minute : épisode oublié.
    assert_eq!(s.evaluer(true, Some(&mut g), 310_000), Action::Rien);
    assert_eq!(s.evaluer(true, Some(&mut g), 370_000), Action::Rien);
    assert_eq!(s.evaluer(false, Some(&mut g), 380_000), Action::Rien);
    assert_eq!(s.evaluer(false, Some(&mut g), 410_000), Action::Reconnecter { minutes: 0 });
}

#[test]
fn liaison_agonisante_detectee() {
    let mut s = Superviseur::nouveau();
    let mut g = FenetreSondage::nouvelle();
    for i in 0..10u64 {
        g.enregistrer_a(4, 1, i);
    }
    assert_eq!(s.evaluer(true, Some(&mut g), 0), Action::Rien);
    assert_eq!(s.evaluer(true, Some(&mut g), 30_000), Action::Reconnecter { minutes: 0 });
    assert_eq!(s.evaluer(true, Some(&mut g), 600_000), Action::ReinitialiserPilote { minutes: 10, perte: 75 });
    assert_eq!(s.evaluer(true, Some(&mut g), 900_000), Action::Redemarrer { minutes: 15, perte: 75 });
}
