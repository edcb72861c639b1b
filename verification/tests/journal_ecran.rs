use piscine::ecran::{formater_duree, formater_hm, NavigationEcran};
use piscine::journal::recadrer;

fn texte(v: Vec<u8>) -> String {
    String::from_utf8(v).unwrap()
}

#[test]
fn journal_garde_les_dernieres_lignes() {
    assert_eq!(texte(recadrer(b"", b"a", 3)), "a\n");
    assert_eq!(texte(recadrer(b"a\nb\n", b"c", 3)), "a\nb\nc\n");
    assert_eq!(texte(recadrer(b"a\nb\nc\n", b"d", 3)), "b\nc\nd\n");
    assert_eq!(texte(recadrer(b"a\r\nb\r\n", b"c", 2)), "b\nc\n");
    assert_eq!(texte(recadrer(b"a\n\nb\n", b"c", 10)), "a\n\nb\nc\n");
    assert_eq!(texte(recadrer(b"a\nb", b"c", 10)), "a\nbc\n");
    assert_eq!(texte(recadrer(b"a\nb\n", b"c", 0)), "\n");
}

#[test]
fn journal_vingt_cinq_sessions() {
    let mut contenu: Vec<u8> = Vec::new();
    for i in 0..40 {
        let ligne = format!("ligne{i}");
        contenu = recadrer(&contenu, ligne.as_bytes(), 25);
    }
    let s = texte(contenu);
    let lignes: Vec<&str> = s.lines().collect();
    assert_eq!(lignes.len(), 25);
    assert_eq!(lignes[0], "ligne15");
    assert_eq!(lignes[24], "ligne39");
}

#[test]
fn formats_de_duree() {
    assert_eq!(texte(formater_hm(135)), "2h15");
    assert_eq!(texte(formater_hm(0)), "0h00");
    assert_eq!(texte(formater_hm(605)), "10h05");
    assert_eq!(texte(formater_duree(0)), "0h00m");
    assert_eq!(texte(formater_duree(3_725)), "1h02m");
    assert_eq!(texte(formater_duree(90_061)), "1j1h1m");
    assert_eq!(texte(formater_duree(86_400 * 12 + 3600 * 23 + 60 * 45)), "12j23h45m");
}

#[test]
fn navigation_ecran() {
    let mut n = NavigationEcran::nouvelle(0);
    assert_eq!(n.page(), 0);
    // Appui court : page suivante au relâchement.
    n.bouton_a(true, 100);
    n.bouton_a(false, 300);
    assert_eq!(n.page(), 1);
    for t in [400u64, 600, 800, 1_000, 1_200, 1_400, 1_600, 1_800] {
        n.bouton_a(t % 400 == 0, t);
    }
    assert_eq!(n.page(), 0);
    // Appui long : retour à la page 0.
    n.bouton_a(true, 2_000);
    n.bouton_a(false, 2_100);
    assert_eq!(n.page(), 1);
    n.bouton_a(true, 3_000);
    n.bouton_a(true, 3_800);
    assert_eq!(n.page(), 0);
    n.bouton_a(false, 3_900);
    assert_eq!(n.page(), 0);
    // Retour automatique après 30 s.
    n.bouton_a(true, 4_000);
    n.bouton_a(false, 4_100);
    assert_eq!(n.page(), 1);
    n.bouton_a(false, 34_099);
    assert_eq!(n.page(), 1);
    n.bouton_a(false, 34_100);
    assert_eq!(n.page(), 0);
}

#[test]
fn veille_et_reveil() {
    let mut n = NavigationEcran::nouvelle(0);
    n.veille_a(false, 299_999);
    assert!(!n.en_veille());
    n.veille_a(false, 300_000);
    assert!(n.en_veille());
    // Réveil au relâchement, sans changer de page.
    n.bouton_a(true, 310_000);
    n.bouton_a(false, 310_100);
    assert!(!n.en_veille());
    assert_eq!(n.page(), 0);
    n.veille_a(false, 610_099);
    assert!(!n.en_veille());
    n.veille_a(false, 610_100);
    assert!(n.en_veille());
    n.veille_a(true, 610_101);
    assert!(!n.en_veille());
}

#[test]
fn textes_courts_limites_a_leur_place() {
    // Un morceau qui n'entre pas en entier n'est pas écrit, et l'écriture s'arrête là.
    assert_eq!(texte(formater_hm(u32::MAX)), "71582788");
    assert_eq!(texte(formater_hm(60_000_005)), "1000000h");
    assert_eq!(texte(formater_hm(5_999_999)), "99999h59");
    assert_eq!(texte(formater_duree(u64::MAX)), "213503982334601j");
    assert_eq!(texte(formater_duree(86_400 * 1_000_000_000 + 23 * 3_600 + 59 * 60)), "1000000000j23h59");
    assert_eq!(texte(formater_duree(86_400 * 99_999_999 + 23 * 3_600 + 59 * 60)), "99999999j23h59m");
}
