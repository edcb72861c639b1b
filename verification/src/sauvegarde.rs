//! Formats de sauvegarde de l'état du jour en mémoire persistante, pour qu'il survive
//! à un redémarrage : la timeline des modes (segments) et les compteurs de la pompe
//! (temps de marche, sessions). Ce module produit le texte à stocker et relit un texte
//! stocké ; la lecture et l'écriture de la mémoire sont faites par l'appelant.
//!
//! Les instants et les durées sont stockés en heures décimales. Une timeline : une
//! ligne `debut,fin,type` par segment, heures à trois décimales (`8.000,8.500,1`), une
//! fin négative (`-1.000`) marquant un segment en cours. Les compteurs : heures de
//! marche à quatre décimales, puis sessions (`2.5000,3`). Les nombres relus ont au
//! plus neuf décimales ; la valeur relue est arrondie à la seconde (timeline) ou à la
//! milliseconde (compteurs) la plus proche.
use crate::ecran::{decimal, ecrire_decimal, ZERO};
use crate::historique_modes::Segment;
use crate::journal::{decoupe, MOINS, POINT, SAUT, VIRGULE};
use vstd::arithmetic::div_mod::lemma_fundamental_div_mod_converse;
use vstd::prelude::*;

verus! {

pub open spec fn est_chiffre(b: u8) -> bool {
    ZERO <= b && b <= ZERO + 9
}

/// `ds` est une suite non vide de chiffres décimaux.
pub open spec fn chiffres(ds: Seq<u8>) -> bool {
    ds.len() > 0 && forall|i: int| 0 <= i < ds.len() ==> est_chiffre(#[trigger] ds[i])
}

/// Valeur d'une suite de chiffres décimaux.
pub open spec fn valeur(ds: Seq<u8>) -> nat
    decreases ds.len(),
{
    if ds.len() == 0 {
        0
    } else {
        valeur(ds.drop_last()) * 10 + (ds.last() - ZERO) as nat
    }
}

/// Entier écrit en décimal dans `ds`, s'il ne dépasse pas `max`.
pub open spec fn entier(ds: Seq<u8>, max: nat) -> Option<nat> {
    if chiffres(ds) && valeur(ds) <= max {
        Some(valeur(ds))
    } else {
        None
    }
}

/// `10` à la puissance `k`.
pub open spec fn puissance10(k: nat) -> nat
    decreases k,
{
    if k == 0 { 1 } else { 10 * puissance10((k - 1) as nat) }
}

/// Les `k` derniers chiffres de `n`, complétés par des zéros à gauche.
pub open spec fn chiffres_fixes(n: nat, k: nat) -> Seq<u8>
    decreases k,
{
    if k == 0 {
        Seq::<u8>::empty()
    } else {
        chiffres_fixes(n / 10, (k - 1) as nat).push((ZERO + n % 10) as u8)
    }
}

/// Écriture de `q / 10^k` avec exactement `k` décimales (format `{:.k}`).
pub open spec fn texte_fixe(q: nat, k: nat) -> Seq<u8> {
    decimal(q / puissance10(k)) + seq![POINT] + chiffres_fixes(q, k)
}

/// Millièmes d'heure les plus proches d'un nombre de secondes (demi vers le haut).
pub open spec fn milliemes_heure(s: u32) -> nat {
    ((s * 10 + 18) / 36) as nat
}

/// Secondes les plus proches d'un nombre de millièmes d'heure.
pub open spec fn secondes_de_milliemes(m: nat) -> nat {
    (m * 36 + 5) / 10
}

/// Dix-millièmes d'heure les plus proches d'un nombre de millisecondes (demi vers le
/// haut).
pub open spec fn dix_milliemes_heure(ms: u64) -> nat {
    ((ms + 180) / 360) as nat
}

/// Texte de la fin d'un segment : son heure, ou `-1.000` s'il est en cours.
pub open spec fn texte_fin(fin: Option<u32>) -> Seq<u8> {
    match fin {
        Some(f) => texte_fixe(milliemes_heure(f), 3),
        None => seq![MOINS] + texte_fixe(1000, 3),
    }
}

/// Ligne d'un segment, sans fin de ligne.
pub open spec fn ligne_segment(s: Segment) -> Seq<u8> {
    texte_fixe(milliemes_heure(s.debut), 3) + seq![VIRGULE] + texte_fin(s.fin) + seq![VIRGULE] + decimal(s.type_segment as nat)
}

/// Texte stocké pour une timeline : une ligne terminée par `\n` par segment.
pub open spec fn texte_timeline(segments: Seq<Segment>) -> Seq<u8>
    decreases segments.len(),
{
    if segments.len() == 0 {
        Seq::<u8>::empty()
    } else {
        texte_timeline(segments.drop_last()) + ligne_segment(segments.last()) + seq![SAUT]
    }
}

/// Le champ commence par un signe `-`.
pub open spec fn negatif(ds: Seq<u8>) -> bool {
    ds.len() > 0 && ds[0] == MOINS
}

/// Le champ privé de son signe `-` éventuel.
pub open spec fn sans_signe(ds: Seq<u8>) -> Seq<u8> {
    if negatif(ds) { ds.drop_first() } else { ds }
}

/// Parties entière et décimale d'un nombre écrit `E` ou `E.F` (chiffres décimaux, au
/// plus neuf décimales) ; la partie décimale est vide pour `E`.
pub open spec fn parties(c: Seq<u8>) -> Option<(Seq<u8>, Seq<u8>)> {
    let m = decoupe(c, POINT);
    if m.len() == 1 && chiffres(m[0]) {
        Some((m[0], Seq::<u8>::empty()))
    } else if m.len() == 2 && chiffres(m[0]) && chiffres(m[1]) && m[1].len() <= 9 {
        Some((m[0], m[1]))
    } else {
        None
    }
}

/// Valeur de `E.F` comptée en `u`-ièmes d'unité, arrondie au plus proche (demi vers
/// le haut).
pub open spec fn en_unites(e: Seq<u8>, f: Seq<u8>, u: nat) -> nat {
    valeur(e) * u + (2 * valeur(f) * u + puissance10(f.len())) / (2 * puissance10(f.len()))
}

/// Nombre lu dans un champ `[-]E[.F]`, compté en `u`-ièmes d'unité, s'il ne dépasse pas
/// `max` en valeur absolue : (strictement négatif, valeur absolue arrondie).
pub open spec fn nombre_lu(ds: Seq<u8>, u: nat, max: nat) -> Option<(bool, nat)> {
    match parties(sans_signe(ds)) {
        Some((e, f)) => if en_unites(e, f, u) <= max {
            Some((negatif(ds) && (valeur(e) > 0 || valeur(f) > 0), en_unites(e, f, u)))
        } else {
            None
        },
        None => None,
    }
}

/// Début de segment lu dans un champ (heures), en secondes ; un instant strictement
/// négatif n'est pas lisible.
pub open spec fn debut_lu(ds: Seq<u8>) -> Option<u32> {
    match nombre_lu(ds, 3600, u32::MAX as nat) {
        Some((false, v)) => Some(v as u32),
        _ => None,
    }
}

/// Fin de segment lue dans un champ (heures) : en cours si elle est strictement
/// négative, sinon ses secondes.
pub open spec fn fin_lue(ds: Seq<u8>) -> Option<Option<u32>> {
    match nombre_lu(ds, 3600, u32::MAX as nat) {
        Some((true, _)) => Some(None),
        Some((false, v)) => Some(Some(v as u32)),
        None => None,
    }
}

/// Segment lu dans une ligne : ses trois premiers champs doivent être valides, les
/// champs suivants sont ignorés.
pub open spec fn segment_lu(ligne: Seq<u8>) -> Option<Segment> {
    let c = decoupe(ligne, VIRGULE);
    if c.len() >= 3 {
        match (debut_lu(c[0]), fin_lue(c[1]), entier(c[2], u8::MAX as nat)) {
            (Some(d), Some(f), Some(t)) => Some(Segment { debut: d, fin: f, type_segment: t as u8 }),
            _ => None,
        }
    } else {
        None
    }
}

/// Les valeurs présentes, dans l'ordre.
pub open spec fn retenus(ls: Seq<Option<Segment>>) -> Seq<Segment>
    decreases ls.len(),
{
    if ls.len() == 0 {
        Seq::<Segment>::empty()
    } else {
        let p = retenus(ls.drop_last());
        match ls.last() {
            Some(s) => p.push(s),
            None => p,
        }
    }
}

/// Segments relus d'un texte stocké : les lignes illisibles sont ignorées.
pub open spec fn segments_lus(t: Seq<u8>) -> Seq<Segment> {
    retenus(decoupe(t, SAUT).map_values(|l: Seq<u8>| segment_lu(l)))
}

/// Texte stocké pour les compteurs du jour.
pub open spec fn texte_compteurs(marche_ms: u64, sessions: u32) -> Seq<u8> {
    texte_fixe(dix_milliemes_heure(marche_ms), 4) + seq![VIRGULE] + decimal(sessions as nat)
}

/// Temps de marche lu dans un champ (heures), en millisecondes ; une durée strictement
/// négative n'est pas lisible.
pub open spec fn marche_lue(ds: Seq<u8>) -> Option<u64> {
    match nombre_lu(ds, 3_600_000, u64::MAX as nat) {
        Some((false, v)) => Some(v as u64),
        _ => None,
    }
}

/// Compteurs relus d'un texte stocké (champs suivants ignorés).
pub open spec fn compteurs_lus(t: Seq<u8>) -> Option<(u64, u32)> {
    let c = decoupe(t, VIRGULE);
    if c.len() >= 2 {
        match (marche_lue(c[0]), entier(c[1], u32::MAX as nat)) {
            (Some(m), Some(s)) => Some((m, s as u32)),
            _ => None,
        }
    } else {
        None
    }
}

/// Instant relu après sauvegarde : celui des millièmes d'heure écrits.
pub open spec fn secondes_relues(t: u32) -> u32 {
    secondes_de_milliemes(milliemes_heure(t)) as u32
}

/// Segment relu après sauvegarde : ses instants arrondis au millième d'heure.
pub open spec fn segment_relu(s: Segment) -> Segment {
    Segment {
        debut: secondes_relues(s.debut),
        fin: match s.fin {
            Some(f) => Some(secondes_relues(f)),
            None => None,
        },
        type_segment: s.type_segment,
    }
}

/// Plus grand instant (secondes) dont la sauvegarde se relit.
pub const INSTANT_MAX_S: u32 = 4_000_000_000;

/// Les instants du segment se relisent.
pub open spec fn segment_relisible(s: Segment) -> bool {
    s.debut <= INSTANT_MAX_S && (s.fin matches Some(f) ==> f <= INSTANT_MAX_S)
}

proof fn lemme_decoupe_non_vide(t: Seq<u8>, sep: u8)
    ensures
        decoupe(t, sep).len() >= 1,
    decreases t.len(),
{
    if t.len() > 0 {
        lemme_decoupe_non_vide(t.drop_last(), sep);
    }
}

/// Un texte sans séparateur forme un seul morceau.
proof fn lemme_decoupe_seul(b: Seq<u8>, sep: u8)
    requires
        forall|i: int| 0 <= i < b.len() ==> b[i] != sep,
    ensures
        decoupe(b, sep) == seq![b],
    decreases b.len(),
{
    if b.len() > 0 {
        let b1 = b.drop_last();
        lemme_decoupe_seul(b1, sep);
        assert(b1.push(b.last()) =~= b);
        assert(decoupe(b, sep) =~= seq![b]);
    } else {
        assert(b =~= Seq::<u8>::empty());
    }
}

/// Ajouter un texte sans séparateur prolonge le dernier morceau.
proof fn lemme_decoupe_prolonge(a: Seq<u8>, b: Seq<u8>, sep: u8)
    requires
        forall|i: int| 0 <= i < b.len() ==> b[i] != sep,
    ensures
        decoupe(a + b, sep) == decoupe(a, sep).update(decoupe(a, sep).len() - 1, decoupe(a, sep).last() + b),
    decreases b.len(),
{
    lemme_decoupe_non_vide(a, sep);
    let d = decoupe(a, sep);
    if b.len() == 0 {
        assert(a + b =~= a);
        assert(d.last() + b =~= d.last());
        assert(d.update(d.len() - 1, d.last() + b) =~= d);
    } else {
        let b1 = b.drop_last();
        lemme_decoupe_prolonge(a, b1, sep);
        assert((a + b).drop_last() =~= a + b1);
        assert((d.last() + b1).push(b.last()) =~= d.last() + b);
        assert(decoupe(a + b, sep) =~= d.update(d.len() - 1, d.last() + b));
    }
}

/// Ajouter un séparateur ouvre un nouveau morceau vide.
proof fn lemme_decoupe_separateur(a: Seq<u8>, sep: u8)
    ensures
        decoupe(a + seq![sep], sep) == decoupe(a, sep).push(Seq::<u8>::empty()),
{
    assert((a + seq![sep]).drop_last() =~= a);
}

/// L'écriture décimale de `n` est une suite de chiffres de valeur `n`.
proof fn lemme_decimal(n: nat)
    ensures
        chiffres(decimal(n)),
        valeur(decimal(n)) == n,
    decreases n,
{
    if n >= 10 {
        lemme_decimal(n / 10);
        assert(decimal(n).drop_last() =~= decimal(n / 10));
        assert(decimal(n).last() - ZERO == n % 10);
        assert((n / 10) * 10 + n % 10 == n);
        assert(valeur(decimal(n)) == valeur(decimal(n / 10)) * 10 + (decimal(n).last() - ZERO) as nat);
    } else {
        assert(decimal(n).drop_last() =~= Seq::<u8>::empty());
        assert(decimal(n).last() - ZERO == n);
        assert(valeur(decimal(n)) == valeur(Seq::<u8>::empty()) * 10 + (decimal(n).last() - ZERO) as nat);
    }
}

/// Une suite de chiffres ne contient pas d'octet qui n'est pas un chiffre.
proof fn lemme_sans(ds: Seq<u8>, sep: u8)
    requires
        chiffres(ds),
        !est_chiffre(sep),
    ensures
        forall|i: int| 0 <= i < ds.len() ==> ds[i] != sep,
{
    assert forall|i: int| 0 <= i < ds.len() implies ds[i] != sep by {
        assert(est_chiffre(ds[i]));
    }
}

/// Relire l'écriture décimale d'un entier qui tient dans `max` rend cet entier.
proof fn lemme_entier_relu(n: nat, max: nat)
    requires
        n <= max,
    ensures
        entier(decimal(n), max) == Some(n),
{
    lemme_decimal(n);
}

proof fn lemme_puissance10(k: nat)
    ensures
        puissance10(k) >= 1,
    decreases k,
{
    if k > 0 {
        lemme_puissance10((k - 1) as nat);
    }
}

/// Une suite de chiffres vaut moins que 10 à la puissance de sa longueur.
proof fn lemme_valeur_bornee(ds: Seq<u8>)
    requires
        forall|i: int| 0 <= i < ds.len() ==> est_chiffre(#[trigger] ds[i]),
    ensures
        valeur(ds) < puissance10(ds.len()),
    decreases ds.len(),
{
    if ds.len() > 0 {
        let d1 = ds.drop_last();
        assert forall|i: int| 0 <= i < d1.len() implies est_chiffre(#[trigger] d1[i]) by {
            assert(d1[i] == ds[i]);
        }
        lemme_valeur_bornee(d1);
        assert(est_chiffre(ds[ds.len() - 1]));
        assert(puissance10(ds.len()) == 10 * puissance10(d1.len()));
    }
}

/// Les chiffres fixes de `n` : `k` chiffres, de valeur `n` modulo `10^k`.
proof fn lemme_chiffres_fixes(n: nat, k: nat)
    ensures
        chiffres_fixes(n, k).len() == k,
        forall|i: int| 0 <= i < k ==> est_chiffre(#[trigger] chiffres_fixes(n, k)[i]),
        valeur(chiffres_fixes(n, k)) == n % puissance10(k),
    decreases k,
{
    lemme_puissance10(k);
    let c = chiffres_fixes(n, k);
    if k == 0 {
        assert(valeur(c) == 0);
    } else {
        let k1 = (k - 1) as nat;
        let c1 = chiffres_fixes(n / 10, k1);
        lemme_chiffres_fixes(n / 10, k1);
        lemme_puissance10(k1);
        let p1 = puissance10(k1);
        assert(c.drop_last() =~= c1);
        assert forall|i: int| 0 <= i < k implies est_chiffre(#[trigger] c[i]) by {
            if i < k1 {
                assert(c[i] == c1[i]);
            }
        }
        let m = n / 10;
        let a = m / p1;
        let r = m % p1;
        vstd::arithmetic::div_mod::lemma_fundamental_div_mod(m as int, p1 as int);
        vstd::arithmetic::div_mod::lemma_mod_pos_bound(m as int, p1 as int);
        assert(valeur(c) == r * 10 + n % 10);
        assert(n == a * (10 * p1) + (10 * r + n % 10)) by (nonlinear_arith)
            requires
                m == p1 * a + r,
                n == 10 * m + n % 10,
        ;
        lemma_fundamental_div_mod_converse(n as int, (10 * p1) as int, a as int, (10 * r + n % 10) as int);
    }
}

/// Lecture d'un nombre écrit avec `k` décimales : ni signe, ni séparateur de champ ou
/// de ligne ; ses deux parties.
proof fn lemme_texte_fixe(q: nat, k: nat)
    requires
        1 <= k <= 9,
    ensures
        !negatif(texte_fixe(q, k)),
        parties(texte_fixe(q, k)) == Some((decimal(q / puissance10(k)), chiffres_fixes(q, k))),
        forall|i: int| 0 <= i < texte_fixe(q, k).len() ==> texte_fixe(q, k)[i] != VIRGULE
            && texte_fixe(q, k)[i] != SAUT && texte_fixe(q, k)[i] != MOINS,
        valeur(decimal(q / puissance10(k))) == q / puissance10(k),
        valeur(chiffres_fixes(q, k)) == q % puissance10(k),
        chiffres_fixes(q, k).len() == k,
{
    lemme_puissance10(k);
    let e = decimal(q / puissance10(k));
    let f = chiffres_fixes(q, k);
    lemme_decimal(q / puissance10(k));
    lemme_chiffres_fixes(q, k);
    assert(chiffres(f));
    lemme_sans(e, POINT);
    lemme_sans(f, POINT);
    let a1 = e + seq![POINT];
    lemme_decoupe_seul(e, POINT);
    lemme_decoupe_separateur(e, POINT);
    lemme_decoupe_prolonge(a1, f, POINT);
    let t = texte_fixe(q, k);
    assert(t =~= a1 + f);
    assert(decoupe(t, POINT) =~= seq![e, f]);
    assert(t[0] == e[0]);
    assert(est_chiffre(e[0]));
    assert forall|i: int| 0 <= i < t.len() implies t[i] != VIRGULE && t[i] != SAUT && t[i] != MOINS by {
        if i < e.len() {
            assert(t[i] == e[i]);
            assert(est_chiffre(e[i]));
        } else if i > e.len() {
            assert(t[i] == f[i - e.len() - 1]);
            assert(est_chiffre(f[i - e.len() - 1]));
        }
    }
}

/// Relire une heure écrite en millièmes d'heure donne ses secondes arrondies.
proof fn lemme_relu_milliemes(m: nat)
    ensures
        valeur(decimal(m / puissance10(3))) == m / 1000,
        en_unites(decimal(m / puissance10(3)), chiffres_fixes(m, 3), 3600) == secondes_de_milliemes(m),
        parties(texte_fixe(m, 3)) == Some((decimal(m / puissance10(3)), chiffres_fixes(m, 3))),
{
    reveal_with_fuel(puissance10, 4);
    assert(puissance10(3) == 1000);
    lemme_texte_fixe(m, 3);
    let a = m / 1000;
    let r = m % 1000;
    let x = 36 * r + 5;
    let q = x / 10;
    let rr = x % 10;
    assert(chiffres_fixes(m, 3).len() == 3);
    assert(puissance10(chiffres_fixes(m, 3).len()) == 1000);
    lemma_fundamental_div_mod_converse((2 * r * 3600 + 1000) as int, 2000, q as int, (200 * rr) as int);
    lemma_fundamental_div_mod_converse((m * 36 + 5) as int, 10, (3600 * a + q) as int, rr as int);
}

/// Relire une durée écrite en dix-millièmes d'heure donne ses millisecondes exactes.
proof fn lemme_relu_dix_milliemes(q: nat)
    ensures
        en_unites(decimal(q / puissance10(4)), chiffres_fixes(q, 4), 3_600_000) == q * 360,
        parties(texte_fixe(q, 4)) == Some((decimal(q / puissance10(4)), chiffres_fixes(q, 4))),
{
    reveal_with_fuel(puissance10, 5);
    assert(puissance10(4) == 10000);
    lemme_texte_fixe(q, 4);
    let a = q / 10000;
    let r = q % 10000;
    assert(puissance10(chiffres_fixes(q, 4).len()) == 10000);
    lemma_fundamental_div_mod_converse((2 * r * 3_600_000 + 10000) as int, 20000, (360 * r) as int, 10000);
}

/// Un instant sauvegardé se relit, arrondi au millième d'heure, comme début ou comme fin.
proof fn lemme_instant_relu(t: u32)
    requires
        t <= INSTANT_MAX_S,
    ensures
        debut_lu(texte_fixe(milliemes_heure(t), 3)) == Some(secondes_relues(t)),
        fin_lue(texte_fixe(milliemes_heure(t), 3)) == Some(Some(secondes_relues(t))),
{
    let m = milliemes_heure(t);
    lemme_relu_milliemes(m);
    lemme_texte_fixe(m, 3);
    assert(secondes_de_milliemes(m) <= t + 2);
}

/// Une fin `-1.000` se relit comme un segment en cours.
proof fn lemme_fin_en_cours()
    ensures
        fin_lue(seq![MOINS] + texte_fixe(1000, 3)) == Some(None::<u32>),
        forall|i: int| 0 <= i < (seq![MOINS] + texte_fixe(1000, 3)).len() ==> (seq![MOINS] + texte_fixe(1000, 3))[i] != VIRGULE
            && (seq![MOINS] + texte_fixe(1000, 3))[i] != SAUT,
{
    let t = seq![MOINS] + texte_fixe(1000, 3);
    lemme_relu_milliemes(1000);
    lemme_texte_fixe(1000, 3);
    assert(t.drop_first() =~= texte_fixe(1000, 3));
    assert(negatif(t));
    assert(sans_signe(t) == texte_fixe(1000, 3));
    assert forall|i: int| 0 <= i < t.len() implies t[i] != VIRGULE && t[i] != SAUT by {
        if i > 0 {
            assert(t[i] == texte_fixe(1000, 3)[i - 1]);
        }
    }
}

/// Les trois champs d'une ligne de segment, et aucune fin de ligne dans celle-ci.
proof fn lemme_ligne_champs(s: Segment)
    ensures
        decoupe(ligne_segment(s), VIRGULE) == seq![texte_fixe(milliemes_heure(s.debut), 3), texte_fin(s.fin), decimal(s.type_segment as nat)],
        forall|i: int| 0 <= i < ligne_segment(s).len() ==> ligne_segment(s)[i] != SAUT,
{
    let d = texte_fixe(milliemes_heure(s.debut), 3);
    let f = texte_fin(s.fin);
    let t = decimal(s.type_segment as nat);
    lemme_texte_fixe(milliemes_heure(s.debut), 3);
    lemme_decimal(s.type_segment as nat);
    lemme_sans(t, VIRGULE);
    lemme_sans(t, SAUT);
    match s.fin {
        Some(x) => {
            lemme_texte_fixe(milliemes_heure(x), 3);
        },
        None => {
            lemme_fin_en_cours();
        },
    }
    assert(forall|i: int| 0 <= i < f.len() ==> f[i] != VIRGULE && f[i] != SAUT);
    let a1 = d + seq![VIRGULE];
    let a2 = a1 + f;
    let a3 = a2 + seq![VIRGULE];
    let a4 = a3 + t;
    assert(a4 =~= ligne_segment(s));
    lemme_decoupe_seul(d, VIRGULE);
    lemme_decoupe_separateur(d, VIRGULE);
    lemme_decoupe_prolonge(a1, f, VIRGULE);
    assert(decoupe(a2, VIRGULE) =~= seq![d, f]);
    lemme_decoupe_separateur(a2, VIRGULE);
    lemme_decoupe_prolonge(a3, t, VIRGULE);
    assert(decoupe(a4, VIRGULE) =~= seq![d, f, t]);
    assert forall|i: int| 0 <= i < a4.len() implies a4[i] != SAUT by {
        if i < d.len() {
        } else if i == d.len() {
        } else if i < a2.len() {
            assert(a4[i] == f[i - a1.len()]);
        } else if i == a2.len() {
        } else {
            assert(a4[i] == t[i - a3.len()]);
        }
    }
}

/// Une ligne de segment se relit en ce segment, ses instants arrondis au millième
/// d'heure.
proof fn lemme_ligne_relue(s: Segment)
    requires
        segment_relisible(s),
    ensures
        segment_lu(ligne_segment(s)) == Some(segment_relu(s)),
{
    lemme_ligne_champs(s);
    lemme_instant_relu(s.debut);
    match s.fin {
        Some(x) => {
            lemme_instant_relu(x);
        },
        None => {
            lemme_fin_en_cours();
        },
    }
    lemme_entier_relu(s.type_segment as nat, u8::MAX as nat);
}

/// Découpage en lignes du texte d'une timeline : une ligne par segment, puis un
/// morceau vide après la dernière fin de ligne.
proof fn lemme_lignes_timeline(segments: Seq<Segment>)
    ensures
        decoupe(texte_timeline(segments), SAUT) == segments.map_values(|s: Segment| ligne_segment(s)).push(Seq::<u8>::empty()),
    decreases segments.len(),
{
    if segments.len() == 0 {
        assert(decoupe(Seq::<u8>::empty(), SAUT) =~= seq![Seq::<u8>::empty()]);
        assert(segments.map_values(|s: Segment| ligne_segment(s)).push(Seq::<u8>::empty()) =~= seq![Seq::<u8>::empty()]);
    } else {
        let avant = segments.drop_last();
        let l = ligne_segment(segments.last());
        lemme_lignes_timeline(avant);
        lemme_ligne_champs(segments.last());
        let t0 = texte_timeline(avant);
        lemme_decoupe_prolonge(t0, l, SAUT);
        lemme_decoupe_separateur(t0 + l, SAUT);
        let p = avant.map_values(|s: Segment| ligne_segment(s));
        assert(segments.map_values(|s: Segment| ligne_segment(s)) =~= p.push(l));
        assert(decoupe(t0 + l, SAUT) =~= p.push(l));
    }
}

/// Chaque segment écrit se relit, arrondi.
proof fn lemme_retenus(segments: Seq<Segment>)
    requires
        forall|i: int| 0 <= i < segments.len() ==> segment_relisible(#[trigger] segments[i]),
    ensures
        retenus(segments.map_values(|s: Segment| segment_lu(ligne_segment(s)))) == segments.map_values(|s: Segment| segment_relu(s)),
    decreases segments.len(),
{
    if segments.len() > 0 {
        let avant = segments.drop_last();
        assert forall|i: int| 0 <= i < avant.len() implies segment_relisible(#[trigger] avant[i]) by {
            assert(avant[i] == segments[i]);
        }
        lemme_retenus(avant);
        assert(segment_relisible(segments[segments.len() - 1]));
        lemme_ligne_relue(segments.last());
        let m = segments.map_values(|s: Segment| segment_lu(ligne_segment(s)));
        assert(m.drop_last() =~= avant.map_values(|s: Segment| segment_lu(ligne_segment(s))));
        assert(avant.map_values(|s: Segment| segment_relu(s)).push(segment_relu(segments.last()))
            =~= segments.map_values(|s: Segment| segment_relu(s)));
    } else {
        assert(segments.map_values(|s: Segment| segment_lu(ligne_segment(s))) =~= Seq::<Option<Segment>>::empty());
        assert(segments.map_values(|s: Segment| segment_relu(s)) =~= Seq::<Segment>::empty());
    }
}

/// Relire une timeline sauvegardée rend les segments écrits, dans l'ordre, avec leurs
/// types et leur état (en cours ou fermé) ; leurs instants reviennent arrondis au
/// millième d'heure (voir `loi_arrondi_instant`).
pub proof fn loi_timeline_relue(segments: Seq<Segment>)
    requires
        forall|i: int| 0 <= i < segments.len() ==> segment_relisible(#[trigger] segments[i]),
    ensures
        segments_lus(texte_timeline(segments)) == segments.map_values(|s: Segment| segment_relu(s)),
{
    lemme_lignes_timeline(segments);
    let lignes = segments.map_values(|s: Segment| ligne_segment(s));
    let m = lignes.push(Seq::<u8>::empty()).map_values(|l: Seq<u8>| segment_lu(l));
    assert(decoupe(Seq::<u8>::empty(), VIRGULE) =~= seq![Seq::<u8>::empty()]);
    assert(segment_lu(Seq::<u8>::empty()) is None);
    assert(m.drop_last() =~= segments.map_values(|s: Segment| segment_lu(ligne_segment(s))));
    lemme_retenus(segments);
}

/// Un instant relu après sauvegarde est à deux secondes au plus de l'instant écrit, et
/// le sauvegarder de nouveau ne le change plus.
pub proof fn loi_arrondi_instant(t: u32)
    requires
        t <= INSTANT_MAX_S,
    ensures
        t <= secondes_relues(t) + 2,
        secondes_relues(t) <= t + 2,
        milliemes_heure(secondes_relues(t)) == milliemes_heure(t),
{
    let m = milliemes_heure(t);
    let v = secondes_de_milliemes(m);
    assert(v <= t + 2);
    assert(t <= v + 2);
    assert((v * 10 + 18) / 36 == m);
}

/// Relire les compteurs sauvegardés rend les sessions exactes et le temps de marche
/// arrondi au dix-millième d'heure (à 180 ms près).
pub proof fn loi_compteurs_relus(marche_ms: u64, sessions: u32)
    requires
        marche_ms <= u64::MAX - 360,
    ensures
        compteurs_lus(texte_compteurs(marche_ms, sessions)) == Some(((dix_milliemes_heure(marche_ms) * 360) as u64, sessions)),
        marche_ms <= dix_milliemes_heure(marche_ms) * 360 + 180,
        dix_milliemes_heure(marche_ms) * 360 <= marche_ms + 180,
{
    let q = dix_milliemes_heure(marche_ms);
    let m = texte_fixe(q, 4);
    let s = decimal(sessions as nat);
    lemme_relu_dix_milliemes(q);
    lemme_texte_fixe(q, 4);
    lemme_decimal(sessions as nat);
    lemme_sans(s, VIRGULE);
    let a1 = m + seq![VIRGULE];
    lemme_decoupe_seul(m, VIRGULE);
    lemme_decoupe_separateur(m, VIRGULE);
    lemme_decoupe_prolonge(a1, s, VIRGULE);
    assert(decoupe(texte_compteurs(marche_ms, sessions), VIRGULE) =~= seq![m, s]);
    lemme_entier_relu(sessions as nat, u32::MAX as nat);
}

/// Valeur d'un préfixe de chiffres, au plus celle de la suite entière.
proof fn lemme_valeur_croissante(ds: Seq<u8>, i: int)
    requires
        chiffres(ds),
        0 <= i <= ds.len(),
    ensures
        valeur(ds.take(i)) <= valeur(ds),
    decreases ds.len(),
{
    if i < ds.len() {
        let d1 = ds.drop_last();
        if d1.len() > 0 {
            assert(chiffres(d1)) by {
                assert forall|k: int| 0 <= k < d1.len() implies est_chiffre(#[trigger] d1[k]) by {
                    assert(d1[k] == ds[k]);
                }
            }
            lemme_valeur_croissante(d1, i);
            assert(d1.take(i) =~= ds.take(i));
        } else {
            assert(ds.take(i) =~= Seq::<u8>::empty());
        }
    } else {
        assert(ds.take(i) =~= ds);
    }
}

/// Les puissances de 10 croissent avec l'exposant.
proof fn lemme_puissance10_croissante(i: nat, j: nat)
    requires
        i <= j,
    ensures
        puissance10(i) <= puissance10(j),
    decreases j,
{
    lemme_puissance10(j);
    if i < j {
        lemme_puissance10_croissante(i, (j - 1) as nat);
    }
}

/// Les puissances de 10 dont les formats ont besoin.
proof fn lemme_puissances()
    ensures
        puissance10(0) == 1,
        puissance10(3) == 1000,
        puissance10(4) == 10000,
        puissance10(9) == 1_000_000_000,
{
    reveal_with_fuel(puissance10, 10);
}

/// Écrit les `k` derniers chiffres de `n` (zéros à gauche) à la suite de `t`.
fn ecrire_chiffres_fixes(t: &mut Vec<u8>, n: u64, k: u32)
    ensures
        final(t)@ == old(t)@ + chiffres_fixes(n as nat, k as nat),
    decreases k,
{
    if k > 0 {
        ecrire_chiffres_fixes(t, n / 10, k - 1);
        t.push(ZERO + (n % 10) as u8);
    }
    assert(final(t)@ =~= old(t)@ + chiffres_fixes(n as nat, k as nat));
}

/// Écrit `q / 10^k` avec exactement `k` décimales à la suite de `t` ; `p` vaut `10^k`.
fn ecrire_fixe(t: &mut Vec<u8>, q: u64, k: u32, p: u64)
    requires
        p == puissance10(k as nat),
    ensures
        final(t)@ == old(t)@ + texte_fixe(q as nat, k as nat),
{
    proof {
        lemme_puissance10(k as nat);
    }
    ecrire_decimal(t, q / p);
    t.push(POINT);
    ecrire_chiffres_fixes(t, q, k);
    assert(final(t)@ =~= old(t)@ + texte_fixe(q as nat, k as nat));
}

/// Millièmes d'heure les plus proches d'un nombre de secondes.
fn milliemes(s: u32) -> (m: u64)
    ensures
        m == milliemes_heure(s),
{
    (s as u64 * 10 + 18) / 36
}

/// Dix-millièmes d'heure les plus proches d'un nombre de millisecondes.
fn dix_milliemes(ms: u64) -> (q: u64)
    ensures
        q == dix_milliemes_heure(ms),
{
    let q = ms / 360;
    let r = ms % 360;
    proof {
        if r >= 180 {
            lemma_fundamental_div_mod_converse((ms + 180) as int, 360, q + 1, r - 180);
        } else {
            lemma_fundamental_div_mod_converse((ms + 180) as int, 360, q as int, r + 180);
        }
    }
    if r >= 180 { q + 1 } else { q }
}

/// `ds` à partir du rang `debut`.
fn suffixe(ds: &[u8], debut: usize) -> (r: Vec<u8>)
    requires
        debut <= ds@.len(),
    ensures
        r@ == ds@.subrange(debut as int, ds@.len() as int),
{
    let mut r: Vec<u8> = Vec::new();
    let mut i: usize = debut;
    while i < ds.len()
        invariant
            debut <= i <= ds@.len(),
            r@ == ds@.subrange(debut as int, i as int),
        decreases ds@.len() - i,
    {
        r.push(ds[i]);
        assert(ds@.subrange(debut as int, i + 1) =~= ds@.subrange(debut as int, i as int).push(ds@[i as int]));
        i = i + 1;
    }
    r
}

/// Lit un nombre `[-]E[.F]` compté en `u`-ièmes d'unité, s'il ne dépasse pas `max`
/// (voir `nombre_lu`).
fn lire_nombre(ds: &[u8], u: u64, max: u64) -> (r: Option<(bool, u64)>)
    requires
        1 <= u <= 3_600_000,
    ensures
        r == (match nombre_lu(ds@, u as nat, max as nat) {
            Some((n, v)) => Some((n, v as u64)),
            None => None,
        }),
{
    proof {
        lemme_puissances();
        vstd::arithmetic::div_mod::lemma_fundamental_div_mod(max as int, u as int);
        vstd::arithmetic::div_mod::lemma_mod_pos_bound(max as int, u as int);
    }
    let neg = ds.len() > 0 && ds[0] == MOINS;
    let debut: usize = if neg { 1 } else { 0 };
    let corps = suffixe(ds, debut);
    assert(corps@ =~= sans_signe(ds@));
    let m = decouper(corps.as_slice(), POINT);
    let ghost dm = decoupe(sans_signe(ds@), POINT);
    if m.len() != 1 && m.len() != 2 {
        return None;
    }
    let ghost e = dm[0];
    let borne_e = max / u;
    let e_val = match lire_entier(m[0].as_slice(), borne_e) {
        Some(v) => v,
        None => {
            proof {
                assert(m@[0]@ == e);
                if chiffres(e) {
                    assert(valeur(e) > borne_e);
                    assert(valeur(e) * u > max) by (nonlinear_arith)
                        requires
                            valeur(e) >= borne_e + 1,
                            max == u * borne_e + max % u,
                            max % u < u,
                    ;
                    match parties(sans_signe(ds@)) {
                        Some((e2, f2)) => {
                            assert(e2 == e);
                            lemme_puissance10(f2.len());
                            let un = u as nat;
                            let x: nat = (2 * valeur(f2) * un + puissance10(f2.len())) / (2 * puissance10(f2.len()));
                            assert(en_unites(e2, f2, u as nat) == valeur(e) * u + x);
                        },
                        None => {},
                    }
                }
            }
            return None;
        },
    };
    assert(e_val * u <= max) by (nonlinear_arith)
        requires
            e_val <= borne_e,
            max == u * borne_e + max % u,
            0 <= max % u,
    ;
    let ghost f: Seq<u8> = if m.len() == 1 { Seq::<u8>::empty() } else { dm[1] };
    let mut f_val: u64 = 0;
    let mut p: u64 = 1;
    if m.len() == 2 {
        let nf = m[1].len();
        if nf == 0 || nf > 9 {
            return None;
        }
        f_val = match lire_entier(m[1].as_slice(), 999_999_999) {
            Some(v) => v,
            None => {
                proof {
                    if chiffres(f) {
                        lemme_valeur_bornee(f);
                        lemme_puissance10_croissante(f.len(), 9);
                    }
                }
                return None;
            },
        };
        let mut i: usize = 0;
        while i < nf
            invariant
                i <= nf <= 9,
                p == puissance10(i as nat),
            decreases nf - i,
        {
            proof {
                lemme_puissance10_croissante(i as nat, 8);
                reveal_with_fuel(puissance10, 10);
            }
            p = p * 10;
            i = i + 1;
        }
        proof {
            lemme_valeur_bornee(f);
        }
    }
    assert(f_val < p && p <= 1_000_000_000) by {
        lemme_puissance10_croissante(f.len(), 9);
        if m.len() == 2 {
            lemme_valeur_bornee(f);
        }
    }
    assert(2 * f_val * u <= 7_200_000_000_000_000) by (nonlinear_arith)
        requires
            f_val < 1_000_000_000,
            u <= 3_600_000,
    ;
    let frac = (2 * f_val * u + p) / (2 * p);
    let entiere = e_val * u;
    if frac > max - entiere {
        return None;
    }
    let v = entiere + frac;
    Some((neg && (e_val > 0 || f_val > 0), v))
}

/// Découpe `t` aux octets `sep`.
fn decouper(t: &[u8], sep: u8) -> (r: Vec<Vec<u8>>)
    ensures
        r@.len() == decoupe(t@, sep).len(),
        forall|k: int| 0 <= k < r@.len() ==> (#[trigger] r@[k])@ == decoupe(t@, sep)[k],
{
    let mut r: Vec<Vec<u8>> = Vec::new();
    let mut courant: Vec<u8> = Vec::new();
    let mut i: usize = 0;
    assert(t@.take(0) =~= Seq::<u8>::empty());
    while i < t.len()
        invariant
            i <= t@.len(),
            r@.len() + 1 == decoupe(t@.take(i as int), sep).len(),
            forall|k: int| 0 <= k < r@.len() ==> (#[trigger] r@[k])@ == decoupe(t@.take(i as int), sep)[k],
            courant@ == decoupe(t@.take(i as int), sep).last(),
        decreases t@.len() - i,
    {
        assert(t@.take(i + 1).drop_last() =~= t@.take(i as int));
        let b = t[i];
        if b == sep {
            r.push(courant);
            courant = Vec::new();
        } else {
            courant.push(b);
        }
        i = i + 1;
    }
    assert(t@.take(i as int) =~= t@);
    r.push(courant);
    r
}

/// Lit un entier décimal qui ne dépasse pas `max`.
fn lire_entier(ds: &[u8], max: u64) -> (r: Option<u64>)
    ensures
        r == (match entier(ds@, max as nat) {
            Some(v) => Some(v as u64),
            None => None,
        }),
{
    if ds.len() == 0 {
        return None;
    }
    let mut v: u64 = 0;
    let mut i: usize = 0;
    assert(ds@.take(0) =~= Seq::<u8>::empty());
    while i < ds.len()
        invariant
            0 < ds@.len(),
            i <= ds@.len(),
            forall|k: int| 0 <= k < i ==> est_chiffre(#[trigger] ds@[k]),
            v as nat == valeur(ds@.take(i as int)),
            v <= max,
        decreases ds@.len() - i,
    {
        let b = ds[i];
        if b < ZERO || b > ZERO + 9 {
            assert(!est_chiffre(ds@[i as int]));
            return None;
        }
        let d: u64 = (b - ZERO) as u64;
        let ghost prefixe = ds@.take(i + 1);
        assert(prefixe.drop_last() =~= ds@.take(i as int));
        assert(valeur(prefixe) == v * 10 + d);
        let trop_grand = if v > max / 10 {
            assert(v * 10 + d > max) by (nonlinear_arith)
                requires
                    v > max / 10,
            ;
            true
        } else {
            assert(v * 10 <= max) by (nonlinear_arith)
                requires
                    v <= max / 10,
            ;
            d > max - v * 10
        };
        if trop_grand {
            proof {
                if chiffres(ds@) {
                    lemme_valeur_croissante(ds@, i + 1);
                }
            }
            return None;
        }
        v = v * 10 + d;
        i = i + 1;
    }
    assert(ds@.take(i as int) =~= ds@);
    Some(v)
}

/// Lit un segment dans une ligne.
fn segment_de(ligne: &[u8]) -> (r: Option<Segment>)
    ensures
        r == segment_lu(ligne@),
{
    let c = decouper(ligne, VIRGULE);
    if c.len() < 3 {
        return None;
    }
    let debut: Option<u32> = match lire_nombre(c[0].as_slice(), 3600, 0xffff_ffff) {
        Some((false, v)) => Some(v as u32),
        _ => None,
    };
    let fin: Option<Option<u32>> = match lire_nombre(c[1].as_slice(), 3600, 0xffff_ffff) {
        Some((true, _)) => Some(None),
        Some((false, v)) => Some(Some(v as u32)),
        None => None,
    };
    let type_segment = lire_entier(c[2].as_slice(), 0xff);
    match (debut, fin, type_segment) {
        (Some(d), Some(f), Some(t)) => Some(Segment { debut: d, fin: f, type_segment: t as u8 }),
        _ => None,
    }
}

/// Texte à stocker pour la timeline du jour.
pub fn ecrire_timeline(segments: &[Segment]) -> (t: Vec<u8>)
    ensures
        t@ == texte_timeline(segments@),
{
    let mut t: Vec<u8> = Vec::new();
    let mut i: usize = 0;
    assert(segments@.take(0) =~= Seq::<Segment>::empty());
    while i < segments.len()
        invariant
            i <= segments@.len(),
            t@ == texte_timeline(segments@.take(i as int)),
        decreases segments@.len() - i,
    {
        let s = segments[i];
        let ghost avant = t@;
        assert(segments@.take(i + 1).drop_last() =~= segments@.take(i as int));
        proof {
            lemme_puissances();
        }
        ecrire_fixe(&mut t, milliemes(s.debut), 3, 1000);
        t.push(VIRGULE);
        match s.fin {
            Some(f) => ecrire_fixe(&mut t, milliemes(f), 3, 1000),
            None => {
                t.push(MOINS);
                ecrire_fixe(&mut t, 1000, 3, 1000);
            },
        }
        t.push(VIRGULE);
        ecrire_decimal(&mut t, s.type_segment as u64);
        t.push(SAUT);
        assert(t@ =~= avant + ligne_segment(s) + seq![SAUT]);
        i = i + 1;
    }
    assert(segments@.take(i as int) =~= segments@);
    t
}

/// Segments relus d'une timeline stockée ; les lignes illisibles sont ignorées.
pub fn lire_timeline(texte: &[u8]) -> (r: Vec<Segment>)
    ensures
        r@ == segments_lus(texte@),
{
    let lignes = decouper(texte, SAUT);
    let ghost m = decoupe(texte@, SAUT).map_values(|l: Seq<u8>| segment_lu(l));
    let mut r: Vec<Segment> = Vec::new();
    let mut k: usize = 0;
    assert(m.take(0) =~= Seq::<Option<Segment>>::empty());
    while k < lignes.len()
        invariant
            k <= lignes@.len(),
            lignes@.len() == decoupe(texte@, SAUT).len(),
            forall|j: int| 0 <= j < lignes@.len() ==> (#[trigger] lignes@[j])@ == decoupe(texte@, SAUT)[j],
            m == decoupe(texte@, SAUT).map_values(|l: Seq<u8>| segment_lu(l)),
            r@ == retenus(m.take(k as int)),
        decreases lignes@.len() - k,
    {
        assert(m.take(k + 1).drop_last() =~= m.take(k as int));
        assert(m.take(k + 1).last() == segment_lu(lignes@[k as int]@));
        match segment_de(lignes[k].as_slice()) {
            Some(s) => r.push(s),
            None => {},
        }
        k = k + 1;
    }
    assert(m.take(k as int) =~= m);
    r
}

/// Texte à stocker pour les compteurs de la pompe du jour.
pub fn ecrire_compteurs(marche_ms: u64, sessions: u32) -> (t: Vec<u8>)
    ensures
        t@ == texte_compteurs(marche_ms, sessions),
{
    proof {
        lemme_puissances();
    }
    let mut t: Vec<u8> = Vec::new();
    ecrire_fixe(&mut t, dix_milliemes(marche_ms), 4, 10000);
    t.push(VIRGULE);
    ecrire_decimal(&mut t, sessions as u64);
    assert(t@ =~= texte_compteurs(marche_ms, sessions));
    t
}

/// Compteurs relus d'un texte stocké.
pub fn lire_compteurs(texte: &[u8]) -> (r: Option<(u64, u32)>)
    ensures
        r == compteurs_lus(texte@),
{
    let c = decouper(texte, VIRGULE);
    if c.len() < 2 {
        return None;
    }
    let marche: Option<u64> = match lire_nombre(c[0].as_slice(), 3_600_000, u64::MAX) {
        Some((false, v)) => Some(v),
        _ => None,
    };
    match (marche, lire_entier(c[1].as_slice(), 0xffff_ffff)) {
        (Some(m), Some(s)) => Some((m, s as u32)),
        _ => None,
    }
}

/// Égalité de deux textes.
pub fn memes_octets(a: &[u8], b: &[u8]) -> (r: bool)
    ensures
        r == (a@ == b@),
{
    if a.len() != b.len() {
        return false;
    }
    let mut i: usize = 0;
    while i < a.len()
        invariant
            a@.len() == b@.len(),
            i <= a@.len(),
            forall|j: int| 0 <= j < i ==> a@[j] == b@[j],
        decreases a@.len() - i,
    {
        if a[i] != b[i] {
            return false;
        }
        i = i + 1;
    }
    assert(a@ =~= b@);
    true
}

/// Timeline rechargée après un redémarrage : les segments stockés s'ils datent du
/// jour en cours, aucun sinon (redémarrage après minuit).
pub fn charger_timeline(date_sauvee: &[u8], date_actuelle: &[u8], texte: &[u8]) -> (r: Vec<Segment>)
    ensures
        r@ == (if date_sauvee@ == date_actuelle@ { segments_lus(texte@) } else { Seq::<Segment>::empty() }),
{
    if memes_octets(date_sauvee, date_actuelle) {
        lire_timeline(texte)
    } else {
        Vec::new()
    }
}

/// Compteurs de la pompe rechargés après un redémarrage : ceux stockés s'ils datent
/// du jour en cours, `None` sinon.
pub fn charger_pompe_jour(date_sauvee: &[u8], date_actuelle: &[u8], texte: &[u8]) -> (r: Option<(u64, u32)>)
    ensures
        r == (if date_sauvee@ == date_actuelle@ { compteurs_lus(texte@) } else { None }),
{
    if memes_octets(date_sauvee, date_actuelle) {
        lire_compteurs(texte)
    } else {
        None
    }
}

} // verus!
