use piscine::etat_partage::Mode;
use piscine::pompe::GestionPompe;
use piscine::pilotage::{
    cause_fin, code_mode, dans_plage, decider_demande_pompe, duree_arret, type_segment, CauseFin, Entrees,
    Session, SuiviSession,
};

fn entrees(mode: Mode) -> Entrees {
    Entrees {
        temperature_eau: Some(320),
        mode,
        demande_manuelle: false,
        boost_actif: false,
        boost_marche_forcee: false,
        demi_heures_cibles: 20,
        marche_ms: 0,
        dans_plage: true,
    }
}

#[test]
fn antigel_absolu_meme_en_arret() {
    let mut verrou = false;
    let mut e = entrees(Mode::Off);
    e.temperature_eau = Some(31); // 1,9375 °C
    assert!(decider_demande_pompe(&e, &mut verrou));
    e.temperature_eau = Some(32); // 2 °C pile
    assert!(!decider_demande_pompe(&e, &mut verrou));
    let mut m = entrees(Mode::Manuel);
    m.temperature_eau = Some(-16);
    assert!(decider_demande_pompe(&m, &mut verrou));
}

#[test]
fn mode_manuel_suit_la_demande() {
    let mut verrou = false;
    let mut e = entrees(Mode::Manuel);
    assert!(!decider_demande_pompe(&e, &mut verrou));
    e.demande_manuelle = true;
    assert!(decider_demande_pompe(&e, &mut verrou));
    e.dans_plage = false;
    e.temperature_eau = None;
    assert!(decider_demande_pompe(&e, &mut verrou));
}

#[test]
fn mode_auto_objectif_plage_et_verrou() {
    let mut verrou = false;
    let mut e = entrees(Mode::Auto);
    assert!(decider_demande_pompe(&e, &mut verrou));
    e.dans_plage = false;
    assert!(!decider_demande_pompe(&e, &mut verrou));
    e.dans_plage = true;
    // Objectif inconnu (sonde muette) : pas de filtration « à l'aveugle ».
    e.temperature_eau = None;
    assert!(!decider_demande_pompe(&e, &mut verrou));
    assert!(!verrou);
    e.temperature_eau = Some(320);
    e.demi_heures_cibles = 0;
    assert!(!decider_demande_pompe(&e, &mut verrou));
    assert!(!verrou);
    // Objectif atteint : 10 h faites.
    e.demi_heures_cibles = 20;
    e.marche_ms = 36_000_000;
    assert!(!decider_demande_pompe(&e, &mut verrou));
    assert!(verrou);
    // L'objectif remonte (orage) : le verrou tient.
    e.demi_heures_cibles = 30;
    assert!(!decider_demande_pompe(&e, &mut verrou));
    assert!(verrou);
}

#[test]
fn boost_prend_le_pas() {
    let mut verrou = true;
    let mut e = entrees(Mode::Auto);
    e.boost_actif = true;
    e.boost_marche_forcee = true;
    e.dans_plage = false;
    assert!(decider_demande_pompe(&e, &mut verrou));
    e.boost_marche_forcee = false;
    e.dans_plage = true;
    verrou = false;
    assert!(!decider_demande_pompe(&e, &mut verrou));
}

#[test]
fn plage_horaire_en_secondes() {
    assert!(dans_plage(Some(8 * 3600), 480, 1200));
    assert!(!dans_plage(Some(8 * 3600 - 1), 480, 1200));
    assert!(dans_plage(Some(20 * 3600 - 1), 480, 1200));
    assert!(!dans_plage(Some(20 * 3600), 480, 1200));
    // Sans heure fiable : midi.
    assert!(dans_plage(None, 480, 1200));
    assert!(!dans_plage(None, 780, 1200));
}

#[test]
fn types_de_segment() {
    assert_eq!(type_segment(Mode::Off, false, false, false), 0);
    assert_eq!(type_segment(Mode::Auto, true, false, false), 1);
    assert_eq!(type_segment(Mode::Manuel, true, false, false), 2);
    assert_eq!(type_segment(Mode::Manuel, false, false, true), 3);
    assert_eq!(type_segment(Mode::Auto, true, true, true), 4);
    assert_eq!(type_segment(Mode::Off, true, true, false), 5);
    assert_eq!(code_mode(Mode::Off), 0);
    assert_eq!(code_mode(Mode::Manuel), 1);
    assert_eq!(code_mode(Mode::Auto), 2);
}

#[test]
fn causes_de_fin() {
    assert_eq!(cause_fin(false, true), CauseFin::Securite);
    assert_eq!(cause_fin(true, true), CauseFin::Boost);
    assert_eq!(cause_fin(true, false), CauseFin::Normal);
}

#[test]
fn sessions_de_marche() {
    let mut s = SuiviSession::nouveau();
    assert_eq!(s.observer_a(false, 0), Session::Aucune);
    assert_eq!(s.observer_a(true, 1_000), Session::Debut);
    assert_eq!(s.observer_a(true, 50_000), Session::Aucune);
    assert_eq!(s.observer_a(false, 1_000 + 125_000), Session::Fin { duree_min: 2 });
    assert_eq!(s.observer_a(false, 500_000), Session::Aucune);
}

#[test]
fn duree_d_arret() {
    assert_eq!(duree_arret(1_700_000_000, 0), None);
    assert_eq!(duree_arret(1_700_000_000, 1_699_999_900), Some((1, true)));
    assert_eq!(duree_arret(1_700_000_000, 1_699_999_880), Some((2, false)));
    assert_eq!(duree_arret(1_700_000_000, 1_700_000_500), Some((0, true)));
    assert_eq!(duree_arret(i64::MIN, 5), Some((0, true)));
}

#[test]
fn pyramide_securite_au_dessus_de_l_antigel() {
    let mut verrou = false;
    let mut e = entrees(Mode::Off);
    e.temperature_eau = Some(16); // 1 °C : anti-gel absolu
    let demande = decider_demande_pompe(&e, &mut verrou);
    assert!(demande);
    let mut p = GestionPompe::nouveau();
    p.mettre_a_jour_a(demande, false, 0); // sécurité : arrêt malgré l'anti-gel
    assert!(!p.etat());
    p.mettre_a_jour_a(demande, true, 1_000);
    assert!(p.etat());
}
