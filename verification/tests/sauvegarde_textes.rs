use piscine::etat_partage::Mode;
use piscine::historique_modes::Segment;
use piscine::journal::{
    formater_temperature, ligne_alerte, ligne_bilan, ligne_session, nom_cause, nom_mode, valeur_redemarrage,
    SessionTerminee,
};
use piscine::pilotage::CauseFin;
use piscine::sauvegarde::{
    charger_pompe_jour, charger_timeline, ecrire_compteurs, ecrire_timeline, lire_compteurs, lire_timeline,
    memes_octets,
};
use piscine::temps::{
    est_date_heure_valide, formater_date, formater_date_heure, formater_heure, heure_paris, heure_utc,
    horodatage_sauvegarde, DateHeure, ANNEE_MAX,
};

fn texte(v: Vec<u8>) -> String {
    String::from_utf8(v).unwrap()
}

fn seg(debut: u32, fin: Option<u32>, type_segment: u8) -> Segment {
    Segment { debut, fin, type_segment }
}

#[test]
fn timeline_ecrite_puis_relue() {
    let segments = vec![seg(28_800, Some(30_600), 1), seg(30_600, Some(45_000), 4), seg(45_000, None, 2)];
    let t = ecrire_timeline(&segments);
    assert_eq!(texte(t.clone()), "8.000,8.500,1\n8.500,12.500,4\n12.500,-1.000,2\n");
    assert_eq!(lire_timeline(&t), segments);
    assert_eq!(lire_timeline(b""), Vec::<Segment>::new());
    assert_eq!(texte(ecrire_timeline(&[])), "");
}

#[test]
fn timeline_arrondie_au_millieme_d_heure() {
    // 100 s = 0,0278 h : écrit 0.028, relu 100,8 s arrondi à 101 s.
    let t = ecrire_timeline(&[seg(100, Some(3_601), 5)]);
    assert_eq!(texte(t.clone()), "0.028,1.000,5\n");
    assert_eq!(lire_timeline(&t), vec![seg(101, Some(3_600), 5)]);
}

#[test]
fn timeline_lignes_illisibles_ignorees() {
    let lu = lire_timeline(
        b"0.010,0.020,1\nabc\n0.030,-1\n0.040,-1.000,300\n0.050,0.060,3,extra\n,0.070,1\n0.070,x,1\n0.080,-1.000,0",
    );
    assert_eq!(lu, vec![seg(36, Some(72), 1), seg(180, Some(216), 3), seg(288, None, 0)]);
    // Entiers, décimales libres (au plus neuf), zéro négatif.
    assert_eq!(lire_timeline(b"1,2.5,1\n-0.000,-0.0,2\n0.0001,-0.0001,3\n"), vec![
        seg(3_600, Some(9_000), 1),
        seg(0, Some(0), 2),
        seg(0, None, 3),
    ]);
    // Un début négatif, trop de décimales, une forme incomplète : ignorés.
    assert_eq!(lire_timeline(b"-0.500,1.000,1\n0.1234567891,1,1\n1.,2,1\n.5,2,1\n"), Vec::<Segment>::new());
    // Plus grand instant qui tient sur 32 bits.
    assert_eq!(
        lire_timeline(b"1193046.471,-1,1\n1193046.4709,-1,1\n"),
        vec![seg(4_294_967_295, None, 1)]
    );
}

#[test]
fn timeline_du_jour_seulement() {
    let t = ecrire_timeline(&[seg(100, None, 0)]);
    assert_eq!(charger_timeline(b"02/08/2026", b"02/08/2026", &t), vec![seg(101, None, 0)]);
    assert_eq!(charger_timeline(b"01/08/2026", b"02/08/2026", &t), Vec::<Segment>::new());
    assert!(memes_octets(b"abc", b"abc"));
    assert!(!memes_octets(b"abc", b"abd"));
    assert!(!memes_octets(b"abc", b"ab"));
}

#[test]
fn compteurs_ecrits_puis_relus() {
    let t = ecrire_compteurs(9_000_000, 3);
    assert_eq!(texte(t.clone()), "2.5000,3");
    assert_eq!(lire_compteurs(&t), Some((9_000_000, 3)));
    // 1 000 ms = 2,78 dix-millièmes d'heure : écrit 0.0003, relu 1 080 ms.
    assert_eq!(texte(ecrire_compteurs(1_000, 0)), "0.0003,0");
    assert_eq!(lire_compteurs(&ecrire_compteurs(1_000, 0)), Some((1_080, 0)));
    let t = ecrire_compteurs(u64::MAX, u32::MAX);
    assert_eq!(texte(t.clone()), "5124095576030.4310,4294967295");
    assert_eq!(lire_compteurs(&t), Some((18_446_744_073_709_551_600, u32::MAX)));
    assert_eq!(lire_compteurs(b"18446744073709551616,1"), None);
    assert_eq!(lire_compteurs(b"12"), None);
    assert_eq!(lire_compteurs(b"12,x"), None);
    assert_eq!(lire_compteurs(b"12,4,9"), Some((43_200_000, 4)));
    assert_eq!(lire_compteurs(b"-1.5000,2"), None);
    assert_eq!(lire_compteurs(b"-0.0000,2"), Some((0, 2)));
    assert_eq!(charger_pompe_jour(b"d1", b"d1", b"5,1"), Some((18_000_000, 1)));
    assert_eq!(charger_pompe_jour(b"d0", b"d1", b"5,1"), None);
}

#[test]
fn temperatures_au_dixieme() {
    assert_eq!(texte(formater_temperature(Some(400))), "25.0");
    assert_eq!(texte(formater_temperature(Some(401))), "25.1");
    // 0,25 et 0,75 : égalité, arrondie vers le chiffre pair comme un flottant.
    assert_eq!(texte(formater_temperature(Some(4))), "0.2");
    assert_eq!(texte(formater_temperature(Some(12))), "0.8");
    assert_eq!(texte(formater_temperature(Some(-12))), "-0.8");
    assert_eq!(texte(formater_temperature(Some(-1))), "-0.1");
    assert_eq!(texte(formater_temperature(Some(1))), "0.1");
    assert_eq!(texte(formater_temperature(None)), "NaN");
    for t16 in -880i32..2000 {
        assert_eq!(texte(formater_temperature(Some(t16))), format!("{:.1}", t16 as f32 / 16.0));
    }
}

#[test]
fn lignes_du_journal() {
    let s = SessionTerminee {
        date: b"02/08/2026",
        debut: b"08:00:00",
        fin: b"10:30:00",
        duree_min: 150,
        t_eau: Some(392),
        mode: Mode::Auto,
        cause_fin: CauseFin::Normal,
        pompe_on: true,
    };
    assert_eq!(texte(ligne_session(&s)), "02/08/2026,08:00:00,10:30:00,150,24.5,AUTO,ON,NORMAL");
    let s2 = SessionTerminee { t_eau: None, mode: Mode::Manuel, cause_fin: CauseFin::Securite, pompe_on: false, ..s };
    assert_eq!(texte(ligne_session(&s2)), "02/08/2026,08:00:00,10:30:00,150,NaN,MANU,OFF,SECURITE");
    assert_eq!(texte(ligne_bilan(b"01/08/2026", 25, 45_000_000, 2, 1, Mode::Off)), "01/08/2026,12.5,12.50,2,1,OFF");
    assert_eq!(texte(ligne_bilan(b"01/08/2026", 4, 0, 0, 0, Mode::Auto)), "01/08/2026,2.0,0.00,0,0,AUTO");
    // 18 s = 0,005 h : égalité arrondie vers le pair ; 54 s = 0,015 h vers 0,02.
    assert_eq!(texte(ligne_bilan(b"d", 0, 18_000, 0, 0, Mode::Auto)), "d,0.0,0.00,0,0,AUTO");
    assert_eq!(texte(ligne_bilan(b"d", 0, 54_000, 0, 0, Mode::Auto)), "d,0.0,0.02,0,0,AUTO");
    assert_eq!(texte(ligne_bilan(b"d", 0, 3_599_999, 0, 0, Mode::Auto)), "d,0.0,1.00,0,0,AUTO");
    assert_eq!(texte(ligne_alerte(b"02/08/2026", b"09:15:00", b"NIVEAU_EAU", b"BAS")), "02/08/2026,09:15:00,NIVEAU_EAU,BAS");
    assert_eq!(nom_mode(Mode::Manuel), "MANU");
    assert_eq!(nom_cause(CauseFin::Boost), "BOOST");
}

#[test]
fn valeurs_de_redemarrage() {
    let utc = dh(2026, 8, 2, 9, 5, 7); // 1 785 661 507 s
    let valeur = |raison: &[u8], dernier: u32| valeur_redemarrage(raison, utc, dernier).map(texte);
    assert_eq!(valeur(b"ALIMENTATION", 0), Some("ALIMENTATION (premier demarrage)".to_string()));
    assert_eq!(valeur(b"SOUS_TENSION", 1_785_661_447), Some("SOUS_TENSION ~1min (coupure courte)".to_string()));
    assert_eq!(valeur(b"WATCHDOG", 1_785_657_907), Some("WATCHDOG ~60min (arret prolonge)".to_string()));
    assert_eq!(valeur(b"LOGICIEL", 1_785_662_507), Some("LOGICIEL ~0min (coupure courte)".to_string()));
    assert_eq!(valeur_redemarrage(b"X", dh(2026, 2, 30, 0, 0, 0), 0), None);
}

fn dh(annee: i32, mois: u32, jour: u32, h: u32, m: u32, s: u32) -> DateHeure {
    DateHeure { annee, mois, jour, secondes: h * 3600 + m * 60 + s }
}

#[test]
fn dates_et_heures_formatees() {
    let d = dh(2026, 8, 2, 9, 5, 7);
    assert_eq!(texte(formater_date(d)), "02/08/2026");
    assert_eq!(texte(formater_heure(d)), "09:05:07");
    assert_eq!(texte(formater_date_heure(d)), "02/08/2026 09:05:07");
    assert_eq!(texte(formater_date(dh(33, 1, 1, 0, 0, 0))), "01/01/0033");
    assert_eq!(texte(formater_date(dh(12_345, 12, 31, 0, 0, 0))), "31/12/+12345");
    assert_eq!(texte(formater_date(dh(-1, 12, 31, 0, 0, 0))), "31/12/-0001");
    assert_eq!(texte(formater_heure(dh(2026, 1, 1, 23, 59, 59))), "23:59:59");
}

#[test]
fn horodatages_et_sources_d_heure() {
    assert_eq!(horodatage_sauvegarde(dh(1970, 1, 1, 0, 0, 0)), Some(0));
    assert_eq!(horodatage_sauvegarde(dh(2026, 8, 2, 9, 5, 7)), Some(1_785_661_507));
    assert_eq!(horodatage_sauvegarde(dh(1969, 12, 31, 23, 59, 59)), Some(u32::MAX));
    assert_eq!(horodatage_sauvegarde(dh(2106, 2, 7, 6, 28, 16)), Some(0));
    assert_eq!(horodatage_sauvegarde(dh(2026, 2, 30, 0, 0, 0)), None);
    assert_eq!(horodatage_sauvegarde(DateHeure { annee: 2026, mois: 1, jour: 1, secondes: 86_400 }), None);
    let gps = dh(2026, 8, 2, 9, 5, 8);
    assert_eq!(heure_utc(Some(gps), Some(0)), Some(gps));
    assert_eq!(heure_utc(None, Some(1_785_661_507)), Some(dh(2026, 8, 2, 9, 5, 7)));
    assert_eq!(heure_utc(None, Some(-1)), Some(dh(1969, 12, 31, 23, 59, 59)));
    assert_eq!(heure_utc(None, Some(i64::MAX)), None);
    assert_eq!(heure_utc(None, None), None);
}

#[test]
fn heure_de_paris_gardee() {
    assert!(est_date_heure_valide(dh(2024, 2, 29, 23, 59, 59)));
    assert!(!est_date_heure_valide(dh(2023, 2, 29, 0, 0, 0)));
    assert!(!est_date_heure_valide(DateHeure { annee: 2024, mois: 1, jour: 1, secondes: 86_400 }));
    assert_eq!(heure_paris(dh(2024, 7, 1, 23, 30, 0)), Some(dh(2024, 7, 2, 1, 30, 0)));
    assert_eq!(heure_paris(dh(2024, 12, 31, 23, 30, 0)), Some(dh(2025, 1, 1, 0, 30, 0)));
    assert_eq!(heure_paris(dh(2023, 2, 29, 12, 0, 0)), None);
    assert_eq!(heure_paris(dh(ANNEE_MAX, 12, 31, 12, 0, 0)), None);
}
