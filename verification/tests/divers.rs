use piscine::aht10::valeurs_brutes;
use piscine::alertes::{Alertes, Conditions, SuiviAlertes};
use piscine::ds18b20::{Demande, SondeEau};
use piscine::envois::{Evenement, PlanEnvois};
use piscine::etat_partage::Mode;
use piscine::historique_modes::{HistoriqueModes, Segment};
use piscine::horloge::Horloge;
use piscine::pcf8574::{
    bouton_oled_depuis_octet, defaut_moteur_depuis_octet, mode_depuis_octet, piloter_defaut_systeme,
    piloter_pompe, Sorties,
};
use piscine::requetes::{commande_boost, commande_pompe, parametre, textes_egaux, CommandeBoost, Refus};

#[test]
fn horloge_monotone() {
    let h = Horloge::demarrer();
    let a = h.millisecondes();
    let mut b = h.millisecondes();
    while b < a + 20 {
        let c = h.millisecondes();
        assert!(c >= b);
        b = c;
    }
    assert!(a < 1_000);
}

#[test]
fn historique_ferme_et_ouvre() {
    let mut h = HistoriqueModes::nouveau();
    h.demarrer(1, 100);
    h.demarrer(2, 200);
    assert_eq!(
        h.segments(),
        &[
            Segment { debut: 100, fin: Some(200), type_segment: 1 },
            Segment { debut: 200, fin: None, type_segment: 2 },
        ]
    );
    h.reinitialiser();
    assert!(h.segments().is_empty());
}

#[test]
fn historique_borne_a_64() {
    let mut h = HistoriqueModes::nouveau();
    for i in 0..70u32 {
        h.demarrer((i % 6) as u8, i * 10);
    }
    let s = h.segments();
    assert_eq!(s.len(), 64);
    assert_eq!(s[63], Segment { debut: 630, fin: Some(640), type_segment: 3 });
    let recharge = HistoriqueModes::depuis_segments(vec![Segment { debut: 5, fin: None, type_segment: 0 }]);
    assert_eq!(recharge.segments().len(), 1);
}

#[test]
fn decodage_pcf8574() {
    // P6 bas seul : AUTO ; P5 bas seul : MANU ; ni l'un ni l'autre, ou les deux : ARRÊT.
    assert_eq!(mode_depuis_octet(0b1011_1111), Mode::Auto);
    assert_eq!(mode_depuis_octet(0b1101_1111), Mode::Manuel);
    assert_eq!(mode_depuis_octet(0xFF), Mode::Off);
    assert_eq!(mode_depuis_octet(0b1001_1111), Mode::Off);
    assert!(defaut_moteur_depuis_octet(0x80));
    assert!(!defaut_moteur_depuis_octet(0x7F));
    assert!(bouton_oled_depuis_octet(0b1110_1111));
    assert!(!bouton_oled_depuis_octet(0xFF));
}

#[test]
fn sorties_pcf8574() {
    let mut s = Sorties::initiales();
    assert_eq!(piloter_pompe(&mut s, true), 0xFE);
    assert_eq!(piloter_defaut_systeme(&mut s, true), 0xF6);
    assert_eq!(piloter_pompe(&mut s, false), 0xF7);
    assert_eq!(piloter_defaut_systeme(&mut s, false), 0xFF);
}

#[test]
fn mesures_brutes_aht10() {
    let (h, t) = valeurs_brutes(&[0x1C, 0x80, 0x00, 0x05, 0x66, 0x66]);
    assert_eq!(h, 0x80000);
    assert_eq!(t, 0x56666);
    let (h, t) = valeurs_brutes(&[0, 0xFF, 0xFF, 0xFF, 0xFF, 0xFF]);
    assert_eq!(h, 0xFFFFF);
    assert_eq!(t, 0xFFFFF);
}

#[test]
fn alertes_sur_front_montant() {
    let mut a = SuiviAlertes::nouveau();
    let normal = Conditions {
        niveau_ok: true,
        defaut_moteur: false,
        sonde_muette: false,
        pompe_bloquee: false,
        anti_gel: false,
        canicule: false,
    };
    let aucune = Alertes {
        niveau_eau: false,
        defaut_moteur: false,
        sonde_muette: false,
        claquement: false,
        anti_gel: false,
        canicule: false,
    };
    assert_eq!(a.observer(normal), aucune);
    let degrade = Conditions { niveau_ok: false, canicule: true, ..normal };
    assert_eq!(a.observer(degrade), Alertes { niveau_eau: true, canicule: true, ..aucune });
    assert_eq!(a.alertes_jour(), 2);
    assert_eq!(a.observer(degrade), aucune);
    assert_eq!(a.observer(normal), aucune);
    assert_eq!(a.observer(Conditions { pompe_bloquee: true, ..normal }), Alertes { claquement: true, ..aucune });
    assert_eq!(a.alertes_jour(), 3);
    a.reinitialiser_jour();
    assert_eq!(a.alertes_jour(), 0);
}

#[test]
fn cadence_des_envois() {
    let mut p = PlanEnvois::nouveau(0);
    assert!(!p.envoi_periodique_a(true, 299_999));
    assert!(!p.envoi_periodique_a(false, 300_000));
    assert!(p.envoi_periodique_a(true, 300_000));
    assert!(!p.envoi_periodique_a(true, 300_001));
    assert_eq!(p.evenement_a(true, 1), None);
    p.observer(true, Mode::Auto);
    assert_eq!(p.evenement_a(false, 2), None);
    assert_eq!(p.evenement_a(true, 3), Some(Evenement { pompe: Some(true), mode: Some(Mode::Auto) }));
    p.observer(false, Mode::Auto);
    p.observer(true, Mode::Auto);
    p.observer(false, Mode::Auto);
    assert_eq!(p.evenement_a(true, 16_002), None);
    assert_eq!(p.evenement_a(true, 16_003), Some(Evenement { pompe: Some(false), mode: None }));
}

#[test]
fn cycle_de_la_sonde_eau() {
    let mut s = SondeEau::nouveau();
    assert_eq!(s.etape_a(0), Demande::Declencher);
    assert!(!s.declenchement_a(true, 0));
    assert_eq!(s.etape_a(749), Demande::Rien);
    assert_eq!(s.etape_a(750), Demande::Lire);
    assert!(!s.lecture_a(Some(400), 760));
    assert_eq!(s.derniere_temperature(), Some(400));
    assert_eq!(s.etape_a(10_759), Demande::Rien);
    assert_eq!(s.etape_a(10_760), Demande::Declencher);
    assert_eq!(s.secondes_depuis_lecture_a(12_760), Some(12));
    // Échecs répétés : la valeur est conservée, relance au cinquième.
    assert!(!s.declenchement_a(false, 10_760));
    assert!(!s.declenchement_a(true, 20_760));
    assert!(!s.lecture_a(None, 21_510));
    assert!(!s.lecture_a(None, 22_000));
    assert!(!s.declenchement_a(false, 23_000));
    assert!(s.lecture_a(None, 24_000));
    assert_eq!(s.derniere_temperature(), Some(400));
    assert!(!s.muette_a(300_759));
    assert!(s.muette_a(300_760));
}

#[test]
fn sonde_muette_depuis_le_demarrage() {
    let s = SondeEau::nouveau();
    assert!(!s.muette());
    assert_eq!(s.secondes_depuis_lecture(), None);
    let debut = s.maintenant_ms();
    assert!(s.muette_a(debut + 300_000));
}

#[test]
fn parametres_de_requete() {
    assert_eq!(parametre("/pump?status=on", "status"), Some("on"));
    assert_eq!(parametre("/boost?x=1&action=stop&action=start", "action"), Some("stop"));
    assert_eq!(parametre("/set-schedule?start=8.5&end=20", "end"), Some("20"));
    assert_eq!(parametre("/pump", "status"), None);
    assert_eq!(parametre("/pump?statut=on", "status"), None);
    assert_eq!(parametre("/pump?status=", "status"), Some(""));
    assert_eq!(parametre("/a?b=1?status=on", "status"), None);
    assert_eq!(parametre("/a?b=1&status=on?x", "status"), Some("on"));
    assert!(textes_egaux("abc", "abc"));
    assert!(!textes_egaux("abc", "abd"));
}

#[test]
fn commandes_web() {
    assert_eq!(commande_pompe(Mode::Auto, Some("on")), Err(Refus::ModeIncorrect));
    assert_eq!(commande_pompe(Mode::Manuel, Some("on")), Ok(true));
    assert_eq!(commande_pompe(Mode::Manuel, Some("off")), Ok(false));
    assert_eq!(commande_pompe(Mode::Manuel, Some("ON")), Err(Refus::ParametreInvalide));
    assert_eq!(commande_pompe(Mode::Manuel, None), Err(Refus::ParametreInvalide));
    assert_eq!(commande_boost(Mode::Manuel, Some("start")), Err(Refus::ModeIncorrect));
    assert_eq!(commande_boost(Mode::Auto, Some("start")), Ok(CommandeBoost::Demarrer));
    assert_eq!(commande_boost(Mode::Auto, Some("stop")), Ok(CommandeBoost::Arreter));
    assert_eq!(commande_boost(Mode::Auto, Some("go")), Err(Refus::ParametreInvalide));
}
