use piscine::envois::corps_groupe;
use piscine::historique_modes::{HistoriqueModes, Segment};
use piscine::niveau_eau::NiveauEau;
use piscine::pilotage::SuiviJour;
use piscine::securite::SecuriteMoteur;
use piscine::surveillance_reseau::{choisir_reseau, Bilan, FenetreSondage, PAQUETS_MAX_PAR_SONDE};
use piscine::temps::{dernier_dimanche, heure_paris, heure_utc, horodatage_sauvegarde, DateHeure};

#[test]
fn sondage_en_echec_compte_quatre_paquets_perdus() {
    let mut f = FenetreSondage::nouvelle();
    for i in 0..9u64 {
        assert!(f.enregistrer_sondage_a(Some((4, 4)), i));
    }
    assert!(f.enregistrer_sondage_a(None, 9));
    assert_eq!(f.bilan(), Some(Bilan { envoyes: 40, recus: 36 }));
    // Le dernier succès date du sondage réussi précédent.
    assert_eq!(f.depuis_dernier_succes_a(20), Some(12));
}

#[test]
fn sondage_hors_bornes_ignore() {
    let mut f = FenetreSondage::nouvelle();
    assert!(!f.enregistrer_sondage_a(Some((PAQUETS_MAX_PAR_SONDE + 1, 0)), 5));
    assert!(!f.enregistrer_sondage_a(Some((4, PAQUETS_MAX_PAR_SONDE + 1)), 6));
    assert_eq!(f.depuis_dernier_succes_a(10), None);
    assert!(f.enregistrer_sondage_a(Some((4, 2)), 7));
    assert_eq!(f.depuis_dernier_succes_a(10), Some(3));
}

#[test]
fn suivi_jour_extremes_et_changement() {
    let mut s = SuiviJour::nouveau();
    assert!(!s.changement_de_jour(Some(14)));
    s.observer_temperature(Some(400));
    s.observer_temperature(None);
    s.observer_temperature(Some(380));
    s.observer_temperature(Some(420));
    assert_eq!(s.extremes(), (Some(380), Some(420)));
    // Sans heure fiable, le jour connu est gardé.
    assert!(!s.changement_de_jour(None));
    assert!(!s.changement_de_jour(Some(14)));
    assert_eq!(s.extremes(), (Some(380), Some(420)));
    assert!(s.changement_de_jour(Some(15)));
    assert_eq!(s.extremes(), (None, None));
    s.observer_temperature(Some(390));
    assert_eq!(s.extremes(), (Some(390), Some(390)));
}

#[test]
fn reprise_timeline_vide_ou_rechargee() {
    let (h, dernier) = HistoriqueModes::reprendre(Vec::new(), 2, 3600);
    assert_eq!(dernier, 2);
    assert_eq!(h.segments(), &[Segment { debut: 3600, fin: None, type_segment: 2 }][..]);

    let segments = vec![
        Segment { debut: 0, fin: Some(600), type_segment: 1 },
        Segment { debut: 600, fin: None, type_segment: 3 },
    ];
    let (h, dernier) = HistoriqueModes::reprendre(segments.clone(), 2, 3600);
    assert_eq!(dernier, 3);
    assert_eq!(h.segments(), &segments[..]);
}

#[test]
fn choix_du_reseau_par_ssid() {
    let ssids = ["Voisin", "Piscine", "Piscine"];
    assert_eq!(choisir_reseau(&ssids, "Piscine"), Some(1));
    assert_eq!(choisir_reseau(&ssids, "piscine"), None);
    assert_eq!(choisir_reseau(&[], "Piscine"), None);
}

#[test]
fn corps_json_envoi_groupe() {
    let feeds: [(&[u8], &[u8]); 2] = [(b"temp-eau", b"24.5"), (b"pompe", b"1")];
    let corps = corps_groupe(&feeds);
    assert_eq!(
        String::from_utf8(corps).unwrap(),
        r#"{"feeds":[{"key":"temp-eau","value":"24.5"},{"key":"pompe","value":"1"}]}"#
    );
    assert_eq!(String::from_utf8(corps_groupe(&[])).unwrap(), r#"{"feeds":[]}"#);
}

#[test]
fn defaut_confirme_toujours_verrouille() {
    let mut s = SecuriteMoteur::nouveau();
    let instants = [0u64, 100, 250, 260, 300, 600, 700];
    let contacts = [true, true, false, true, true, true, false];
    for (t, c) in instants.iter().zip(contacts.iter()) {
        s.mettre_a_jour_a(*c, *t);
        assert_eq!(s.actif(), s.verrouille());
    }
    assert!(s.verrouille());
}

#[test]
fn niveau_jamais_abaisse_au_dessus_du_seuil_bas() {
    let mut n = NiveauEau::nouveau();
    let mut t = 0u64;
    for v in [1800u16, 2000, 2200, 1800, 4095, 1900] {
        assert!(n.mettre_a_jour_a(v, t));
        t += 10_000;
    }
}

#[test]
fn dernier_dimanche_dans_la_derniere_semaine() {
    assert_eq!(dernier_dimanche(2026, 3), 29);
    assert_eq!(dernier_dimanche(2026, 10), 25);
    assert_eq!(dernier_dimanche(2000, 10), 29);
    assert_eq!(dernier_dimanche(-1, 3), 28);
}

#[test]
fn secondes_unix_du_calendrier() {
    let d = DateHeure { annee: 2024, mois: 2, jour: 29, secondes: 3_661 };
    assert_eq!(horodatage_sauvegarde(d), Some(1_709_164_800 + 3_661));
    assert_eq!(
        heure_utc(None, Some(0)),
        Some(DateHeure { annee: 1970, mois: 1, jour: 1, secondes: 0 })
    );
    assert_eq!(
        heure_utc(None, Some(-1)),
        Some(DateHeure { annee: 1969, mois: 12, jour: 31, secondes: 86_399 })
    );
    assert_eq!(heure_utc(None, Some(i64::MAX)), None);
    // Heure de Paris : +1 h en hiver, +2 h en été.
    assert_eq!(
        heure_paris(DateHeure { annee: 2026, mois: 12, jour: 31, secondes: 23 * 3_600 }),
        Some(DateHeure { annee: 2027, mois: 1, jour: 1, secondes: 0 })
    );
    assert_eq!(
        heure_paris(DateHeure { annee: 2026, mois: 7, jour: 14, secondes: 10 * 3_600 }),
        Some(DateHeure { annee: 2026, mois: 7, jour: 14, secondes: 12 * 3_600 })
    );
}
