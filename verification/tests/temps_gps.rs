use piscine::gps::{Gps, Trame};
use piscine::temps::{dernier_dimanche, heure_ete_active, heure_ete_entre, vers_heure_paris, DateHeure};

fn dh(annee: i32, mois: u32, jour: u32, h: u32, m: u32, s: u32) -> DateHeure {
    DateHeure { annee, mois, jour, secondes: h * 3600 + m * 60 + s }
}

#[test]
fn derniers_dimanches() {
    assert_eq!(dernier_dimanche(2024, 3), 31);
    assert_eq!(dernier_dimanche(2024, 10), 27);
    assert_eq!(dernier_dimanche(2025, 3), 30);
    assert_eq!(dernier_dimanche(2025, 10), 26);
    assert_eq!(dernier_dimanche(2026, 3), 29);
}

#[test]
fn bascules_heure_ete() {
    assert!(!heure_ete_active(dh(2024, 3, 31, 0, 59, 59)));
    assert!(heure_ete_active(dh(2024, 3, 31, 1, 0, 0)));
    assert!(heure_ete_active(dh(2024, 10, 27, 0, 59, 59)));
    assert!(!heure_ete_active(dh(2024, 10, 27, 1, 0, 0)));
    assert!(heure_ete_active(dh(2024, 7, 14, 12, 0, 0)));
    assert!(!heure_ete_active(dh(2024, 1, 14, 12, 0, 0)));
    assert!(!heure_ete_entre(dh(2024, 3, 29, 23, 0, 0), 30, 26));
    assert!(heure_ete_entre(dh(2024, 3, 30, 1, 0, 0), 30, 26));
}

#[test]
fn conversion_heure_de_paris() {
    assert_eq!(vers_heure_paris(dh(2024, 7, 1, 23, 30, 0)), dh(2024, 7, 2, 1, 30, 0));
    assert_eq!(vers_heure_paris(dh(2024, 12, 31, 23, 30, 0)), dh(2025, 1, 1, 0, 30, 0));
    assert_eq!(vers_heure_paris(dh(2024, 2, 28, 23, 0, 5)), dh(2024, 2, 29, 0, 0, 5));
    assert_eq!(vers_heure_paris(dh(2024, 3, 31, 1, 0, 0)), dh(2024, 3, 31, 3, 0, 0));
    assert_eq!(vers_heure_paris(dh(2024, 3, 31, 0, 59, 0)), dh(2024, 3, 31, 1, 59, 0));
}

fn envoyer(g: &mut Gps, trame: &str) {
    for &o in trame.as_bytes() {
        g.traiter_octet(o);
    }
}

#[test]
fn trames_nmea_reelles() {
    let mut g = Gps::new();
    assert!(!g.valide());
    assert_eq!(g.satellites(), 0);
    assert!(g.temps_utc().is_none());
    envoyer(&mut g, "$GPRMC,123519,A,4807.038,N,01131.000,E,022.4,084.4,230324,003.1,W*61\r\n");
    let t = g.temps_utc().expect("heure RMC");
    assert_eq!((t.mois, t.jour, t.secondes), (3, 23, 12 * 3600 + 35 * 60 + 19));
    assert_eq!(t.annee, 2024);
    assert!(!g.valide());
    envoyer(&mut g, "$GPGGA,123519,4807.038,N,01131.000,E,1,08,0.9,545.4,M,46.9,M,,*47\r\n");
    assert_eq!(g.satellites(), 8);
    assert!(g.valide());
    let p = g.position().expect("position GGA");
    assert!((p.latitude.as_f64() - 48.1173).abs() < 0.001);
    assert!((p.longitude.as_f64() - 11.516_666).abs() < 0.001);
}

#[test]
fn fraicheur_des_donnees() {
    let mut g = Gps::new();
    g.traiter_trame_a(Trame::Rmc { annee: 2024, mois: 6, jour: 1, heures: 10, minutes: 0, secondes: 0 }, 1_000);
    assert_eq!(g.temps_utc_a(5_999), Some(DateHeure { annee: 2024, mois: 6, jour: 1, secondes: 36_000 }));
    assert_eq!(g.temps_utc_a(6_000), None);
    // Date inexistante : ignorée.
    g.traiter_trame_a(Trame::Rmc { annee: 2023, mois: 2, jour: 29, heures: 10, minutes: 0, secondes: 0 }, 2_000);
    assert_eq!(g.temps_utc_a(5_999), Some(DateHeure { annee: 2024, mois: 6, jour: 1, secondes: 36_000 }));
    // Heure hors journée : conservée mais sans date-heure valide.
    g.traiter_trame_a(Trame::Rmc { annee: 2024, mois: 6, jour: 1, heures: 24, minutes: 0, secondes: 0 }, 3_000);
    assert_eq!(g.temps_utc_a(3_000), None);
    assert_eq!(g.satellites_a(3_000), 0);
    assert!(!g.valide_a(3_000));
}
