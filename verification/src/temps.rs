//! Heure locale Europe/Paris (CET/CEST) à partir de l'heure UTC. Les calculs de
//! calendrier (jour de la semaine, addition d'une durée à une date) sont confiés à
//! `chrono` ; la règle d'heure d'été est celle de ce module.
use crate::ecran::{decimal, decimal_2, ecrire_decimal, ecrire_decimal_2, ZERO};
use chrono::{DateTime, Datelike, NaiveDate, NaiveTime, TimeDelta, Timelike};
use vstd::prelude::*;

verus! {

/// Première année représentable par `chrono::NaiveDate`.
pub const ANNEE_MIN: i32 = -262_143;
/// Dernière année représentable par `chrono::NaiveDate`.
pub const ANNEE_MAX: i32 = 262_142;
pub const SECONDES_PAR_JOUR: u32 = 86_400;

/// Date et heure (sans fuseau) : `secondes` depuis minuit.
#[derive(Clone, Copy, Debug, PartialEq, Eq, Structural)]
pub struct DateHeure {
    pub annee: i32,
    pub mois: u32,
    pub jour: u32,
    pub secondes: u32,
}

pub open spec fn annee_bissextile(annee: int) -> bool {
    annee % 4 == 0 && (annee % 100 != 0 || annee % 400 == 0)
}

pub open spec fn jours_du_mois(annee: int, mois: u32) -> u32 {
    if mois == 2 {
        if annee_bissextile(annee) { 29 } else { 28 }
    } else if mois == 4 || mois == 6 || mois == 9 || mois == 11 {
        30
    } else {
        31
    }
}

/// Date du calendrier grégorien proleptique, dans l'intervalle de `chrono`.
pub open spec fn date_valide(annee: i32, mois: u32, jour: u32) -> bool {
    &&& ANNEE_MIN <= annee <= ANNEE_MAX
    &&& 1 <= mois <= 12
    &&& 1 <= jour <= jours_du_mois(annee as int, mois)
}

/// Date et heure valides.
pub open spec fn date_heure_valide(d: DateHeure) -> bool {
    date_valide(d.annee, d.mois, d.jour) && d.secondes < SECONDES_PAR_JOUR
}

/// Décalage propre au mois (1 à 12) dans le calcul du jour de la semaine.
pub open spec fn decalage_mois(mois: u32) -> int {
    if mois == 1 { 0 } else if mois == 2 { 3 } else if mois == 3 { 2 } else if mois == 4 { 5 }
    else if mois == 5 { 0 } else if mois == 6 { 3 } else if mois == 7 { 5 } else if mois == 8 { 1 }
    else if mois == 9 { 4 } else if mois == 10 { 6 } else if mois == 11 { 2 } else { 4 }
}

/// Jour de la semaine (0 = dimanche, ..., 6 = samedi) d'une date du calendrier
/// grégorien proleptique (années astronomiques : l'an 0 existe et est bissextile).
/// Janvier et février comptent avec l'année précédente ; le cycle de 400 ans compte
/// un nombre entier de semaines.
pub open spec fn jour_semaine_gregorien(annee: i32, mois: u32, jour: u32) -> int {
    (base_semaine(annee, mois) + jour) % 7
}

/// Part du calcul du jour de la semaine qui ne dépend que de l'année et du mois.
#[verifier::opaque]
pub open spec fn base_semaine(annee: i32, mois: u32) -> int {
    let y: int = if mois < 3 { annee - 1 } else { annee as int };
    y + y / 4 - y / 100 + y / 400 + decalage_mois(mois)
}

/// Jours écoulés du 1er janvier 1970 à la date donnée, du calendrier grégorien
/// proleptique (négatifs avant 1970). L'année est comptée de mars à février, pour que
/// le jour bissextile tombe à la fin.
#[verifier::opaque]
pub open spec fn jours_depuis_1970(annee: i32, mois: u32, jour: u32) -> int {
    let y: int = if mois <= 2 { annee - 1 } else { annee as int };
    365 * y + y / 4 - y / 100 + y / 400 + (153 * ((mois + 9) % 12) + 2) / 5 + jour - 1 - 719_468
}

/// Secondes Unix d'une date et heure UTC (sans secondes intercalaires).
pub open spec fn secondes_depuis_1970(d: DateHeure) -> int {
    jours_depuis_1970(d.annee, d.mois, d.jour) * 86_400 + d.secondes
}

/// Premier instant représentable par `chrono`, en secondes Unix.
pub open spec fn epoque_min() -> int {
    secondes_depuis_1970(DateHeure { annee: ANNEE_MIN, mois: 1, jour: 1, secondes: 0 })
}

/// Dernier instant représentable par `chrono`, en secondes Unix.
pub open spec fn epoque_max() -> int {
    secondes_depuis_1970(DateHeure { annee: ANNEE_MAX, mois: 12, jour: 31, secondes: 86_399 })
}

/// L'instant `s` (secondes Unix) est représentable par `chrono`.
pub open spec fn dans_intervalle_chrono(s: int) -> bool {
    epoque_min() <= s <= epoque_max()
}

/// Secondes Unix d'une date et heure UTC valide ; `None` sinon.
pub open spec fn secondes_unix_spec(utc: DateHeure) -> Option<i64> {
    if date_heure_valide(utc) { Some(secondes_depuis_1970(utc) as i64) } else { None }
}

/// Appelle `chrono::NaiveDate::from_ymd_opt` puis `Datelike::weekday` et
/// `Weekday::num_days_from_sunday`. Affirme : le résultat existe exactement quand la
/// date existe (documentation de `from_ymd_opt`), et c'est alors le jour de la semaine
/// du calendrier grégorien proleptique, celui de `chrono` (0 = dimanche).
#[verifier::external_body]
pub(crate) fn jour_semaine(annee: i32, mois: u32, jour: u32) -> (r: Option<u32>)
    ensures
        r == (if date_valide(annee, mois, jour) {
            Some(jour_semaine_gregorien(annee, mois, jour) as u32)
        } else {
            None
        }),
{
    match NaiveDate::from_ymd_opt(annee, mois, jour) {
        Some(date) => Some(date.weekday().num_days_from_sunday()),
        None => None,
    }
}

/// Construit la date et l'heure `chrono` (`NaiveDate::from_ymd_opt`,
/// `NaiveTime::from_num_seconds_from_midnight_opt`), y ajoute `heures` heures
/// (`NaiveDateTime::checked_add_signed`, `TimeDelta::try_hours`) et décompose le
/// résultat. Affirme : il y a un résultat exactement quand `d` est une date et une
/// heure valides et que l'instant décalé reste dans l'intervalle de `chrono` (en
/// particulier pour un décalage d'au plus un jour hors des années extrêmes) ; c'est
/// alors la date et l'heure valides de cet instant.
#[verifier::external_body]
fn decaler_heures(d: DateHeure, heures: i64) -> (r: Option<DateHeure>)
    ensures
        r is Some <==> (date_heure_valide(d) && dans_intervalle_chrono(secondes_depuis_1970(d) + heures * 3600)),
        r matches Some(x) ==> date_heure_valide(x) && secondes_depuis_1970(x) == secondes_depuis_1970(d) + heures * 3600,
        date_heure_valide(d) && ANNEE_MIN < d.annee < ANNEE_MAX && -24 <= heures <= 24 ==> r is Some,
{
    let date = NaiveDate::from_ymd_opt(d.annee, d.mois, d.jour)?;
    let heure = NaiveTime::from_num_seconds_from_midnight_opt(d.secondes, 0)?;
    let r = date.and_time(heure).checked_add_signed(TimeDelta::try_hours(heures)?)?;
    Some(DateHeure { annee: r.year(), mois: r.month(), jour: r.day(), secondes: r.num_seconds_from_midnight() })
}

/// Dernier jour, entre 1 et `jour`, qui est un dimanche ; 1 si aucun ne l'est.
pub open spec fn dernier_dimanche_avant(annee: i32, mois: u32, jour: u32) -> u32
    decreases jour,
{
    if jour <= 1 {
        1
    } else if jour_semaine_gregorien(annee, mois, jour) == 0 {
        jour
    } else {
        dernier_dimanche_avant(annee, mois, (jour - 1) as u32)
    }
}

/// Dernier dimanche d'un mois de 31 jours (mars, octobre) : jour du mois.
pub fn dernier_dimanche(annee: i32, mois: u32) -> (jour: u32)
    requires
        date_valide(annee, mois, 31),
    ensures
        jour == dernier_dimanche_avant(annee, mois, 31),
        1 <= jour <= 31,
{
    let mut jour: u32 = 31;
    while jour > 1
        invariant
            1 <= jour <= 31,
            date_valide(annee, mois, 31),
            dernier_dimanche_avant(annee, mois, jour) == dernier_dimanche_avant(annee, mois, 31),
        decreases jour,
    {
        if jour_semaine(annee, mois, jour) == Some(0u32) {
            return jour;
        }
        jour = jour - 1;
    }
    jour
}

/// En remontant depuis le jour `jour`, le premier dimanche est à
/// `jour_semaine_gregorien(annee, mois, jour)` jours de là, s'il reste dans le mois.
proof fn lemme_remontee(annee: i32, mois: u32, jour: u32)
    requires
        1 <= jour,
        jour_semaine_gregorien(annee, mois, jour) < jour,
    ensures
        dernier_dimanche_avant(annee, mois, jour) == jour - jour_semaine_gregorien(annee, mois, jour),
    decreases jour,
{
    let k = base_semaine(annee, mois);
    if jour > 1 && jour_semaine_gregorien(annee, mois, jour) != 0 {
        assert((k + (jour - 1)) % 7 == (k + jour) % 7 - 1);
        lemme_remontee(annee, mois, (jour - 1) as u32);
    }
}

/// Dans un mois de 31 jours, le dernier dimanche tombe entre le 25 et le 31 : c'est
/// un dimanche, et aucun des jours qui le suivent dans le mois n'en est un.
pub proof fn loi_dernier_dimanche(annee: i32, mois: u32)
    requires
        date_valide(annee, mois, 31),
    ensures
        25 <= dernier_dimanche_avant(annee, mois, 31) <= 31,
        jour_semaine_gregorien(annee, mois, dernier_dimanche_avant(annee, mois, 31)) == 0,
        forall|j: u32| dernier_dimanche_avant(annee, mois, 31) < j <= 31
            ==> jour_semaine_gregorien(annee, mois, j) != 0,
{
    let k = base_semaine(annee, mois);
    lemme_remontee(annee, mois, 31);
    let d = dernier_dimanche_avant(annee, mois, 31);
    assert(d == 31 - (k + 31) % 7);
    assert((k + d) % 7 == 0);
    assert forall|j: u32| d < j <= 31 implies jour_semaine_gregorien(annee, mois, j) != 0 by {
        assert((k + j) % 7 == (k + 31) % 7 - (31 - j));
    }
}

/// Ordre chronologique dans une même année : (mois, jour, secondes).
pub open spec fn avant(a: (u32, u32, u32), b: (u32, u32, u32)) -> bool {
    a.0 < b.0 || (a.0 == b.0 && (a.1 < b.1 || (a.1 == b.1 && a.2 < b.2)))
}

/// Heure d'été en vigueur, les derniers dimanches de mars et d'octobre de l'année
/// étant donnés : du dernier dimanche de mars 01 h 00 UTC (inclus) au dernier
/// dimanche d'octobre 01 h 00 UTC (exclu).
pub open spec fn heure_ete_entre_spec(utc: DateHeure, dimanche_mars: u32, dimanche_octobre: u32) -> bool {
    let x = (utc.mois, utc.jour, utc.secondes);
    !avant(x, (3u32, dimanche_mars, 3600u32)) && avant(x, (10u32, dimanche_octobre, 3600u32))
}

/// L'heure d'été court du dernier dimanche de mars à 01 h 00 UTC (inclus) au dernier
/// dimanche d'octobre à 01 h 00 UTC (exclu) : toujours d'avril à septembre, jamais de
/// novembre à février.
pub proof fn loi_saisons(utc: DateHeure, dimanche_mars: u32, dimanche_octobre: u32)
    ensures
        heure_ete_entre_spec(utc, dimanche_mars, dimanche_octobre) <==> (
            (3 < utc.mois && utc.mois < 10)
            || (utc.mois == 3 && (utc.jour > dimanche_mars || (utc.jour == dimanche_mars && utc.secondes >= 3600)))
            || (utc.mois == 10 && (utc.jour < dimanche_octobre || (utc.jour == dimanche_octobre && utc.secondes < 3600)))),
        utc.mois < 3 || utc.mois > 10 ==> !heure_ete_entre_spec(utc, dimanche_mars, dimanche_octobre),
        3 < utc.mois < 10 ==> heure_ete_entre_spec(utc, dimanche_mars, dimanche_octobre),
{
}

/// Décalage de Paris : une heure de novembre à février, deux d'avril à septembre.
pub proof fn loi_decalage_saisons(utc: DateHeure)
    ensures
        utc.mois < 3 || utc.mois > 10 ==> decalage_paris(utc) == 1,
        3 < utc.mois < 10 ==> decalage_paris(utc) == 2,
{
}

/// Règle européenne appliquée à l'année de `utc`.
pub open spec fn heure_ete_spec(utc: DateHeure) -> bool {
    heure_ete_entre_spec(utc, dernier_dimanche_avant(utc.annee, 3, 31), dernier_dimanche_avant(utc.annee, 10, 31))
}

/// Heure d'été en vigueur à l'instant UTC `utc`, connaissant les jours des derniers
/// dimanches de mars et d'octobre de son année.
pub fn heure_ete_entre(utc: DateHeure, dimanche_mars: u32, dimanche_octobre: u32) -> (r: bool)
    ensures
        r == heure_ete_entre_spec(utc, dimanche_mars, dimanche_octobre),
{
    let apres_debut = !(utc.mois < 3 || (utc.mois == 3 && (utc.jour < dimanche_mars
        || (utc.jour == dimanche_mars && utc.secondes < 3600))));
    let avant_fin = utc.mois < 10 || (utc.mois == 10 && (utc.jour < dimanche_octobre
        || (utc.jour == dimanche_octobre && utc.secondes < 3600)));
    apres_debut && avant_fin
}

/// Vrai si l'heure d'été est en vigueur à l'instant UTC donné.
pub fn heure_ete_active(utc: DateHeure) -> (r: bool)
    requires
        ANNEE_MIN <= utc.annee <= ANNEE_MAX,
    ensures
        r == heure_ete_spec(utc),
{
    let dimanche_mars = dernier_dimanche(utc.annee, 3);
    let dimanche_octobre = dernier_dimanche(utc.annee, 10);
    heure_ete_entre(utc, dimanche_mars, dimanche_octobre)
}

/// Décalage de l'heure de Paris sur UTC, en heures.
pub open spec fn decalage_paris(utc: DateHeure) -> i64 {
    if heure_ete_spec(utc) { 2 } else { 1 }
}

/// Convertit une date et heure UTC en heure locale Europe/Paris (CET/CEST).
pub fn vers_heure_paris(utc: DateHeure) -> (locale: DateHeure)
    requires
        date_heure_valide(utc),
        ANNEE_MIN < utc.annee < ANNEE_MAX,
    ensures
        date_heure_valide(locale),
        secondes_depuis_1970(locale) == secondes_depuis_1970(utc) + decalage_paris(utc) * 3600,
{
    let decalage: i64 = if heure_ete_active(utc) { 2 } else { 1 };
    match decaler_heures(utc, decalage) {
        Some(locale) => locale,
        None => utc,
    }
}

/// Appelle `chrono::NaiveDate::from_ymd_opt`,
/// `NaiveTime::from_num_seconds_from_midnight_opt`, `NaiveDate::and_time`, puis
/// `NaiveDateTime::and_utc` et `DateTime::timestamp`. Affirme : il y a un résultat
/// exactement quand la date et l'heure sont valides (documentation de `from_ymd_opt`
/// et `from_num_seconds_from_midnight_opt`), et ce sont leurs secondes Unix.
#[verifier::external_body]
pub(crate) fn secondes_unix(utc: DateHeure) -> (r: Option<i64>)
    ensures
        r == secondes_unix_spec(utc),
{
    let date = NaiveDate::from_ymd_opt(utc.annee, utc.mois, utc.jour)?;
    let heure = NaiveTime::from_num_seconds_from_midnight_opt(utc.secondes, 0)?;
    Some(date.and_time(heure).and_utc().timestamp())
}

/// Appelle `chrono::DateTime::from_timestamp` (nanosecondes nulles), puis
/// `DateTime::naive_utc`, et décompose le résultat. Affirme : il y a un résultat
/// exactement quand l'instant est dans l'intervalle de `chrono` ; c'est alors la date
/// et l'heure valides dont les secondes Unix sont `secondes`.
#[verifier::external_body]
fn date_unix(secondes: i64) -> (r: Option<DateHeure>)
    ensures
        r is Some <==> dans_intervalle_chrono(secondes as int),
        r matches Some(d) ==> date_heure_valide(d) && secondes_depuis_1970(d) == secondes,
{
    let instant = DateTime::from_timestamp(secondes, 0)?.naive_utc();
    Some(DateHeure { annee: instant.year(), mois: instant.month(), jour: instant.day(), secondes: instant.num_seconds_from_midnight() })
}

/// Date et heure UTC courantes : celles du GPS quand il en fournit de fraîches, sinon
/// celles de l'horloge synchronisée par NTP (`ntp_secondes`, secondes Unix), sinon
/// aucune.
pub fn heure_utc(gps: Option<DateHeure>, ntp_secondes: Option<i64>) -> (r: Option<DateHeure>)
    ensures
        gps is Some ==> r == gps,
        gps is None ==> (match ntp_secondes {
            None => r is None,
            Some(s) => (r is Some <==> dans_intervalle_chrono(s as int))
                && (r matches Some(d) ==> date_heure_valide(d) && secondes_depuis_1970(d) == s),
        }),
{
    match gps {
        Some(d) => Some(d),
        None => match ntp_secondes {
            Some(s) => date_unix(s),
            None => None,
        },
    }
}

/// Horodatage sauvegardé en mémoire persistante pour estimer, au prochain démarrage,
/// la durée de l'arrêt : les secondes Unix de `utc` réduites à 32 bits ; `None` si ce
/// n'est pas une date et une heure valides.
pub fn horodatage_sauvegarde(utc: DateHeure) -> (r: Option<u32>)
    ensures
        r == (match secondes_unix_spec(utc) {
            Some(s) => Some(s as u32),
            None => None,
        }),
{
    match secondes_unix(utc) {
        Some(s) => Some(s as u32),
        None => None,
    }
}

/// Date et heure valides.
pub fn est_date_heure_valide(d: DateHeure) -> (r: bool)
    ensures
        r == date_heure_valide(d),
{
    jour_semaine(d.annee, d.mois, d.jour).is_some() && d.secondes < SECONDES_PAR_JOUR
}

/// Heure de Paris d'une heure UTC, quand celle-ci est valide et dans l'intervalle où
/// la conversion est définie ; `None` sinon.
pub fn heure_paris(utc: DateHeure) -> (r: Option<DateHeure>)
    ensures
        r is Some <==> date_heure_valide(utc) && ANNEE_MIN < utc.annee < ANNEE_MAX,
        r matches Some(l) ==> date_heure_valide(l)
            && secondes_depuis_1970(l) == secondes_depuis_1970(utc) + decalage_paris(utc) * 3600,
{
    if est_date_heure_valide(utc) && ANNEE_MIN < utc.annee && utc.annee < ANNEE_MAX {
        Some(vers_heure_paris(utc))
    } else {
        None
    }
}

/// `/`
pub const BARRE: u8 = 47;
/// `:`
pub const DEUX_POINTS: u8 = 58;
/// `+`
pub const PLUS: u8 = 43;
/// `-`
pub const MOINS: u8 = 45;
/// Espace.
pub const ESPACE: u8 = 32;

/// Écriture décimale sur au moins quatre chiffres (format `{:04}`).
pub open spec fn decimal_4(n: nat) -> Seq<u8> {
    if n < 10 {
        seq![ZERO, ZERO, ZERO] + decimal(n)
    } else if n < 100 {
        seq![ZERO, ZERO] + decimal(n)
    } else if n < 1000 {
        seq![ZERO] + decimal(n)
    } else {
        decimal(n)
    }
}

/// Année au format `%Y` de `chrono` : quatre chiffres au moins, précédés d'un signe
/// hors de 0 à 9999.
pub open spec fn texte_annee(annee: i32) -> Seq<u8> {
    if 0 <= annee && annee <= 9999 {
        decimal_4(annee as nat)
    } else if annee > 9999 {
        seq![PLUS] + decimal_4(annee as nat)
    } else {
        seq![MOINS] + decimal_4((-annee) as nat)
    }
}

/// Date au format `JJ/MM/AAAA`.
pub open spec fn texte_date(d: DateHeure) -> Seq<u8> {
    decimal_2(d.jour as nat) + seq![BARRE] + decimal_2(d.mois as nat) + seq![BARRE] + texte_annee(d.annee)
}

/// Heure au format `HH:MM:SS`.
pub open spec fn texte_heure(d: DateHeure) -> Seq<u8> {
    decimal_2((d.secondes / 3600) as nat) + seq![DEUX_POINTS] + decimal_2(((d.secondes / 60) % 60) as nat) + seq![DEUX_POINTS]
        + decimal_2((d.secondes % 60) as nat)
}

fn ecrire_decimal_4(texte: &mut Vec<u8>, n: u64)
    ensures
        final(texte)@ == old(texte)@ + decimal_4(n as nat),
{
    let ghost avant = texte@;
    if n < 10 {
        texte.push(ZERO);
        texte.push(ZERO);
        texte.push(ZERO);
    } else if n < 100 {
        texte.push(ZERO);
        texte.push(ZERO);
    } else if n < 1000 {
        texte.push(ZERO);
    }
    ecrire_decimal(texte, n);
    assert(texte@ =~= avant + decimal_4(n as nat));
}

fn ecrire_annee(texte: &mut Vec<u8>, annee: i32)
    ensures
        final(texte)@ == old(texte)@ + texte_annee(annee),
{
    let ghost avant = texte@;
    if 0 <= annee && annee <= 9999 {
        ecrire_decimal_4(texte, annee as u64);
    } else if annee > 9999 {
        texte.push(PLUS);
        ecrire_decimal_4(texte, annee as u64);
    } else {
        texte.push(MOINS);
        let a: i64 = -(annee as i64);
        ecrire_decimal_4(texte, a as u64);
    }
    assert(texte@ =~= avant + texte_annee(annee));
}

/// Date au format `JJ/MM/AAAA` (format `%d/%m/%Y` de `chrono`).
pub fn formater_date(d: DateHeure) -> (t: Vec<u8>)
    ensures
        t@ == texte_date(d),
{
    let mut t: Vec<u8> = Vec::new();
    ecrire_decimal_2(&mut t, d.jour as u64);
    t.push(BARRE);
    ecrire_decimal_2(&mut t, d.mois as u64);
    t.push(BARRE);
    ecrire_annee(&mut t, d.annee);
    assert(t@ =~= texte_date(d));
    t
}

/// Heure au format `HH:MM:SS` (format `%H:%M:%S` de `chrono`).
pub fn formater_heure(d: DateHeure) -> (t: Vec<u8>)
    ensures
        t@ == texte_heure(d),
{
    let mut t: Vec<u8> = Vec::new();
    ecrire_decimal_2(&mut t, (d.secondes / 3600) as u64);
    t.push(DEUX_POINTS);
    ecrire_decimal_2(&mut t, ((d.secondes / 60) % 60) as u64);
    t.push(DEUX_POINTS);
    ecrire_decimal_2(&mut t, (d.secondes % 60) as u64);
    assert(t@ =~= texte_heure(d));
    t
}

/// Date et heure au format `JJ/MM/AAAA HH:MM:SS`, telles qu'affichées par l'automate.
pub fn formater_date_heure(d: DateHeure) -> (t: Vec<u8>)
    ensures
        t@ == texte_date(d) + seq![ESPACE] + texte_heure(d),
{
    let mut t = formater_date(d);
    t.push(ESPACE);
    let h = formater_heure(d);
    let ghost avant = t@;
    let mut i: usize = 0;
    while i < h.len()
        invariant
            i <= h@.len(),
            t@ == avant + h@.take(i as int),
        decreases h@.len() - i,
    {
        t.push(h[i]);
        assert(h@.take(i + 1) =~= h@.take(i as int).push(h@[i as int]));
        i = i + 1;
    }
    assert(h@.take(i as int) =~= h@);
    assert(t@ =~= texte_date(d) + seq![ESPACE] + texte_heure(d));
    t
}

} // verus!
