use piscine::boost::Boost;
use piscine::etat_partage::Mode;
use piscine::filtration_auto::FiltrationAuto;
use piscine::filtre_mode::FiltreMode;

#[test]
fn boost_duree_par_defaut_et_reglage() {
    let mut b = Boost::nouveau(0);
    assert_eq!(b.duree_minutes(), 60);
    assert!(!b.definir_duree(0));
    assert!(!b.definir_duree(45));
    assert!(!b.definir_duree(510));
    assert_eq!(b.duree_minutes(), 60);
    assert!(b.definir_duree(30));
    assert!(b.definir_duree(480));
    assert_eq!(b.duree_minutes(), 480);
    let b2 = Boost::nouveau(90);
    assert_eq!(b2.duree_minutes(), 90);
    // Durée sauvegardée invalide : valeur par défaut.
    assert_eq!(Boost::nouveau(45).duree_minutes(), 60);
    assert_eq!(Boost::nouveau(510).duree_minutes(), 60);
    assert_eq!(Boost::nouveau(480).duree_minutes(), 480);
}

#[test]
fn boost_actif_pendant_sa_duree() {
    let mut b = Boost::nouveau(30);
    assert!(!b.actif_a(0));
    assert_eq!(b.restant_secondes_a(0), 0);
    b.demarrer_a(false, 1_000);
    assert!(b.marche_forcee());
    assert!(b.actif_a(1_000));
    assert_eq!(b.restant_secondes_a(1_000), 1800);
    assert_eq!(b.restant_secondes_a(1_999), 1799);
    assert!(b.actif_a(1_800_999));
    assert!(!b.actif_a(1_801_000));
    assert_eq!(b.restant_secondes_a(1_801_000), 0);
    assert_eq!(b.restant_secondes_a(5_000_000), 0);
    b.demarrer_a(true, 0);
    assert!(!b.marche_forcee());
    b.arreter();
    assert!(!b.actif_a(0));
}

#[test]
fn boost_horloge_reelle() {
    let mut b = Boost::nouveau(30);
    assert!(!b.actif());
    b.demarrer(false);
    assert!(b.actif());
    let r = b.restant_secondes();
    assert!(r <= 1800 && r >= 1790);
}

#[test]
fn cibles_par_regime() {
    let mut f = FiltrationAuto::nouveau(480, 1200);
    // Démarrage en régime hiver : 2 h fixes tant que l'eau ne dépasse pas 10,5 °C.
    assert_eq!(f.demi_heures_cibles(160), 4); // 10 °C
    assert_eq!(f.plage_horaire(), (600, 960));
    // 20 °C : 10 h.
    assert_eq!(f.demi_heures_cibles(320), 20);
    assert_eq!(f.plage_horaire(), (480, 1200));
    // 25 °C : 12,5 h + 1 h = 13,5 h.
    assert_eq!(f.demi_heures_cibles(400), 27);
    // 24 °C pile : bonus.
    assert_eq!(f.demi_heures_cibles(384), 26);
    // 23,5 °C : arrondi 11,75 -> 12 h (demi vers le haut).
    assert_eq!(f.demi_heures_cibles(376), 24);
    // 15,25 °C : 7,625 h -> 7,5 h.
    assert_eq!(f.demi_heures_cibles(244), 15);
}

#[test]
fn hysteresis_canicule_et_antigel() {
    let mut f = FiltrationAuto::nouveau(480, 1200);
    assert_eq!(f.demi_heures_cibles(320), 20);
    assert_eq!(f.demi_heures_cibles(457), 48); // 28,5625 °C
    assert!(f.canicule_actif());
    assert_eq!(f.plage_horaire(), (0, 1440));
    assert_eq!(f.demi_heures_cibles(448), 48); // 28 °C : toujours canicule
    assert_eq!(f.demi_heures_cibles(439), 29); // 27,4375 °C : sortie, 14,5 h
    assert!(!f.canicule_actif());
    assert_eq!(f.demi_heures_cibles(63), 48); // sous 4 °C
    assert!(f.anti_gel_actif());
    assert_eq!(f.demi_heures_cibles(80), 48); // 5 °C pile : toujours anti-gel
    assert_eq!(f.demi_heures_cibles(81), 4); // sortie d'anti-gel, entrée en hiver
    assert!(!f.anti_gel_actif());
}

#[test]
fn plage_configuree() {
    let mut f = FiltrationAuto::nouveau(480, 1200);
    assert!(!f.definir_plage(1200, 600));
    assert!(!f.definir_plage(1440, 1440));
    assert!(!f.definir_plage(0, 20));
    assert!(!f.definir_plage(0, 1500));
    assert_eq!(f.plage_configuree(), (480, 1200));
    assert!(f.definir_plage(1410, 1440));
    assert_eq!(f.plage_configuree(), (1410, 1440));
    assert!(f.definir_plage(0, 30));
    assert_eq!(f.plage_configuree(), (0, 30));
    // Régime hiver actif au démarrage : plage effective imposée.
    assert_eq!(f.plage_horaire(), (600, 960));
}

#[test]
fn filtre_mode_premiere_lecture_et_delais() {
    let mut f = FiltreMode::nouveau();
    assert_eq!(f.mettre_a_jour_a(Mode::Auto, 0), Mode::Auto);
    // Passage transitoire par ARRÊT pendant 1,5 s : ignoré.
    assert_eq!(f.mettre_a_jour_a(Mode::Off, 100), Mode::Auto);
    assert_eq!(f.mettre_a_jour_a(Mode::Off, 1_600), Mode::Auto);
    assert_eq!(f.mettre_a_jour_a(Mode::Manuel, 1_700), Mode::Auto);
    assert_eq!(f.mettre_a_jour_a(Mode::Manuel, 2_399), Mode::Auto);
    assert_eq!(f.mettre_a_jour_a(Mode::Manuel, 2_400), Mode::Manuel);
    // ARRÊT volontaire : 2 s.
    assert_eq!(f.mettre_a_jour_a(Mode::Off, 3_000), Mode::Manuel);
    assert_eq!(f.mettre_a_jour_a(Mode::Off, 4_999), Mode::Manuel);
    assert_eq!(f.mettre_a_jour_a(Mode::Off, 5_000), Mode::Off);
}

#[test]
fn filtre_mode_horloge_reelle() {
    let mut f = FiltreMode::nouveau();
    assert_eq!(f.mettre_a_jour(Mode::Manuel), Mode::Manuel);
}

#[test]
fn plage_arrondie_a_la_meme_minute() {
    // 10,001 h - 10,005 h : valide en heures, les deux bornes s'arrondissent à 600 min.
    let mut f = FiltrationAuto::nouveau(480, 1200);
    assert!(f.definir_plage(600, 600));
    assert_eq!(f.plage_configuree(), (600, 600));
    assert!(!f.definir_plage(601, 600));
    assert_eq!(f.plage_configuree(), (600, 600));
}
