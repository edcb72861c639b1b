//! Journaux persistés (sessions pompe, bilans journaliers, alertes) : historique borné
//! des dernières lignes de chaque catégorie, stocké sous forme de texte CSV. Ce module
//! calcule le texte à stocker ; la lecture et l'écriture de la mémoire persistante
//! sont faites par l'appelant.
use crate::ecran::{decimal, decimal_2, ecrire_decimal, ecrire_decimal_2, ZERO};
use crate::etat_partage::Mode;
use crate::pilotage::{arret_spec, duree_arret, CauseFin};
use crate::temps::{secondes_unix, secondes_unix_spec, DateHeure};
use vstd::prelude::*;
use vstd::string::StringSliceAdditionalSpecFns;

verus! {

pub const MAX_LIGNES_SESSIONS: usize = 25;
pub const MAX_LIGNES_BILANS: usize = 31;
pub const MAX_LIGNES_ALERTES: usize = 25;

/// Fin de ligne `\n`.
pub const SAUT: u8 = 10;
/// Retour chariot `\r`, retiré en fin de ligne (fins de ligne `\r\n`).
pub const RETOUR: u8 = 13;
/// Séparateur de champs `,`.
pub const VIRGULE: u8 = 44;
/// Séparateur décimal `.`.
pub const POINT: u8 = 46;
/// Signe `-`.
pub const MOINS: u8 = 45;

/// Morceaux d'un texte séparés par l'octet `sep` (un texte sans `sep` forme un seul
/// morceau, éventuellement vide).
pub open spec fn decoupe(t: Seq<u8>, sep: u8) -> Seq<Seq<u8>>
    decreases t.len(),
{
    if t.len() == 0 {
        seq![Seq::<u8>::empty()]
    } else {
        let p = decoupe(t.drop_last(), sep);
        if t.last() == sep {
            p.push(Seq::<u8>::empty())
        } else {
            p.update(p.len() - 1, p.last().push(t.last()))
        }
    }
}

/// Morceaux d'un texte séparés par `\n`.
pub open spec fn morceaux(t: Seq<u8>) -> Seq<Seq<u8>> {
    decoupe(t, SAUT)
}

/// Une ligne privée de son `\r` final éventuel.
pub open spec fn sans_retour(l: Seq<u8>) -> Seq<u8> {
    if l.len() > 0 && l.last() == RETOUR { l.drop_last() } else { l }
}

/// Lignes d'un texte `t` suivi d'une fin de ligne, comme les découpe `str::lines` :
/// séparées par `\n`, chacune privée d'un `\r` final.
pub open spec fn lignes_de(t: Seq<u8>) -> Seq<Seq<u8>> {
    morceaux(t).map_values(|l: Seq<u8>| sans_retour(l))
}

/// Lignes jointes par `\n`.
pub open spec fn joindre(ls: Seq<Seq<u8>>) -> Seq<u8>
    decreases ls.len(),
{
    if ls.len() == 0 {
        Seq::<u8>::empty()
    } else if ls.len() == 1 {
        ls[0]
    } else {
        joindre(ls.drop_last()) + seq![SAUT] + ls.last()
    }
}

/// Nombre de lignes les plus anciennes à retirer pour n'en garder que `max`.
pub open spec fn a_retirer(n: int, max: usize) -> int {
    if n > max { n - max } else { 0 }
}

/// Texte stocké après l'ajout de `ligne` à `contenu` : les `max_lignes` dernières
/// lignes, jointes par `\n`, suivies d'une fin de ligne.
pub open spec fn recadre(contenu: Seq<u8>, ligne: Seq<u8>, max_lignes: usize) -> Seq<u8> {
    let ls = lignes_de(contenu + ligne);
    joindre(ls.skip(a_retirer(ls.len() as int, max_lignes))) + seq![SAUT]
}

/// Le texte stocké garde au plus `max_lignes` lignes, et ce sont les plus récentes.
pub proof fn loi_dernieres_lignes(contenu: Seq<u8>, ligne: Seq<u8>, max_lignes: usize)
    ensures
        ({
            let ls = lignes_de(contenu + ligne);
            let gardees = ls.skip(a_retirer(ls.len() as int, max_lignes));
            &&& gardees.len() <= max_lignes
            &&& gardees.len() == if ls.len() < max_lignes { ls.len() as int } else { max_lignes as int }
            &&& forall|i: int| 0 <= i < gardees.len() ==> gardees[i] == ls[ls.len() - gardees.len() + i]
        }),
{
}

/// Ajoute un octet au découpage en cours : `complets` sont les morceaux terminés,
/// `courante` le morceau en cours.
fn ajouter_octet(lignes: &mut Vec<Vec<u8>>, courante: &mut Vec<u8>, b: u8, Ghost(prefixe): Ghost<Seq<u8>>, Ghost(complets): Ghost<Seq<Seq<u8>>>) -> (nouveaux: Ghost<Seq<Seq<u8>>>)
    requires
        morceaux(prefixe) == complets.push(old(courante)@),
        old(lignes)@.len() == complets.len(),
        forall|i: int| 0 <= i < complets.len() ==> (#[trigger] old(lignes)@[i])@ == sans_retour(complets[i]),
    ensures
        morceaux(prefixe.push(b)) == nouveaux@.push(final(courante)@),
        final(lignes)@.len() == nouveaux@.len(),
        forall|i: int| 0 <= i < nouveaux@.len() ==> (#[trigger] final(lignes)@[i])@ == sans_retour(nouveaux@[i]),
{
    let ghost t = prefixe.push(b);
    assert(t.drop_last() =~= prefixe);
    if b == SAUT {
        let mut c: Vec<u8> = Vec::new();
        std::mem::swap(&mut c, courante);
        let fini = retirer_retour(c);
        lignes.push(fini);
        let ghost n = complets.push(c@);
        assert(morceaux(t) =~= n.push(Seq::<u8>::empty()));
        assert(courante@ =~= Seq::<u8>::empty());
        Ghost(n)
    } else {
        courante.push(b);
        assert(morceaux(t) =~= complets.push(courante@));
        Ghost(complets)
    }
}

/// Retire le `\r` final éventuel.
fn retirer_retour(l: Vec<u8>) -> (r: Vec<u8>)
    ensures
        r@ == sans_retour(l@),
{
    let ghost l0 = l@;
    let mut l = l;
    let n = l.len();
    if n > 0 && l[n - 1] == RETOUR {
        let _ = l.pop();
        assert(l@ =~= sans_retour(l0));
    }
    l
}

/// Ajoute `ligne` à `contenu` et ne conserve que les `max_lignes` lignes les plus
/// récentes ; renvoie le texte à stocker.
pub fn recadrer(contenu: &[u8], ligne: &[u8], max_lignes: usize) -> (r: Vec<u8>)
    ensures
        r@ == recadre(contenu@, ligne@, max_lignes),
{
    let mut lignes: Vec<Vec<u8>> = Vec::new();
    let mut courante: Vec<u8> = Vec::new();
    let ghost mut complets: Seq<Seq<u8>> = Seq::empty();
    let ghost texte = contenu@ + ligne@;
    assert(morceaux(Seq::<u8>::empty()) == complets.push(courante@));

    let mut i: usize = 0;
    while i < contenu.len()
        invariant
            i <= contenu@.len(),
            texte == contenu@ + ligne@,
            morceaux(texte.take(i as int)) == complets.push(courante@),
            lignes@.len() == complets.len(),
            forall|k: int| 0 <= k < complets.len() ==> (#[trigger] lignes@[k])@ == sans_retour(complets[k]),
        decreases contenu@.len() - i,
    {
        assert(texte.take(i + 1) =~= texte.take(i as int).push(contenu@[i as int]));
        let Ghost(n) = ajouter_octet(&mut lignes, &mut courante, contenu[i], Ghost(texte.take(i as int)), Ghost(complets));
        proof { complets = n; }
        i = i + 1;
    }
    let mut j: usize = 0;
    while j < ligne.len()
        invariant
            j <= ligne@.len(),
            texte == contenu@ + ligne@,
            morceaux(texte.take(contenu@.len() + j as int)) == complets.push(courante@),
            lignes@.len() == complets.len(),
            forall|k: int| 0 <= k < complets.len() ==> (#[trigger] lignes@[k])@ == sans_retour(complets[k]),
        decreases ligne@.len() - j,
    {
        assert(texte.take(contenu@.len() + j as int + 1) =~= texte.take(contenu@.len() + j as int).push(ligne@[j as int]));
        let Ghost(n) = ajouter_octet(&mut lignes, &mut courante, ligne[j], Ghost(texte.take(contenu@.len() + j as int)), Ghost(complets));
        proof { complets = n; }
        j = j + 1;
    }
    assert(texte.take((contenu@.len() + ligne@.len()) as int) =~= texte);
    let derniere = retirer_retour(courante);
    lignes.push(derniere);
    let ghost ls = lignes_de(texte);
    assert(lignes@.len() == ls.len());
    assert forall|k: int| 0 <= k < ls.len() implies (#[trigger] lignes@[k])@ == ls[k] by {
        if k < complets.len() {
        }
    }

    let n = lignes.len();
    let debut: usize = if n > max_lignes { n - max_lignes } else { 0 };
    let ghost gardees = ls.skip(debut as int);
    let mut r: Vec<u8> = Vec::new();
    let mut k: usize = debut;
    while k < n
        invariant
            debut <= k <= n,
            n == lignes@.len(),
            n == ls.len(),
            forall|m: int| 0 <= m < ls.len() ==> (#[trigger] lignes@[m])@ == ls[m],
            r@ == joindre(ls.subrange(debut as int, k as int)),
        decreases n - k,
    {
        let ghost avant = r@;
        if k > debut {
            r.push(SAUT);
        }
        let l = &lignes[k];
        let mut m: usize = 0;
        while m < l.len()
            invariant
                m <= l@.len(),
                r@ == (if k > debut { avant + seq![SAUT] } else { avant }) + l@.take(m as int),
            decreases l@.len() - m,
        {
            r.push(l[m]);
            assert(l@.take(m + 1) =~= l@.take(m as int).push(l@[m as int]));
            m = m + 1;
        }
        assert(l@.take(m as int) =~= l@);
        let ghost s = ls.subrange(debut as int, k + 1);
        assert(s.drop_last() =~= ls.subrange(debut as int, k as int));
        assert(s.last() == l@);
        if k > debut {
            assert(r@ =~= joindre(s));
        } else {
            assert(s.len() == 1);
            assert(r@ =~= joindre(s));
        }
        k = k + 1;
    }
    assert(ls.subrange(debut as int, n as int) =~= gardees);
    r.push(SAUT);
    r
}

/// Ajoute `mot` à la suite de `texte`.
pub fn ajouter(texte: &mut Vec<u8>, mot: &[u8])
    ensures
        final(texte)@ == old(texte)@ + mot@,
{
    let ghost avant = texte@;
    let mut i: usize = 0;
    while i < mot.len()
        invariant
            i <= mot@.len(),
            texte@ == avant + mot@.take(i as int),
        decreases mot@.len() - i,
    {
        texte.push(mot[i]);
        assert(mot@.take(i + 1) =~= mot@.take(i as int).push(mot@[i as int]));
        i = i + 1;
    }
    assert(mot@.take(i as int) =~= mot@);
}

/// `n / q` arrondi à l'entier le plus proche, à égalité vers le pair (comme le
/// formatage des flottants à précision fixe).
pub open spec fn arrondi(n: nat, q: nat) -> nat {
    let d = n / q;
    let r = n % q;
    if 2 * r > q || (2 * r == q && d % 2 == 1) {
        d + 1
    } else {
        d
    }
}

/// Température donnée en seizièmes de degré, au dixième près (format `{:.1}`) :
/// signe `-` si elle est négative, arrondi au plus proche, à égalité vers le pair.
pub open spec fn texte_temperature(t16: i32) -> Seq<u8> {
    let a: nat = if t16 < 0 { (-t16) as nat } else { t16 as nat };
    let d = arrondi(a * 10, 16);
    (if t16 < 0 { seq![MOINS] } else { Seq::<u8>::empty() }) + decimal(d / 10) + seq![POINT, (ZERO + d % 10) as u8]
}

/// Température éventuelle : `NaN` si elle est inconnue.
pub open spec fn texte_temperature_opt(t16: Option<i32>) -> Seq<u8> {
    match t16 {
        Some(t) => texte_temperature(t),
        None => "NaN".spec_bytes(),
    }
}

/// Écrit une température (seizièmes de degré) au dixième près.
pub fn ecrire_temperature(texte: &mut Vec<u8>, t16: i32)
    ensures
        final(texte)@ == old(texte)@ + texte_temperature(t16),
{
    let ghost avant = texte@;
    let a: u64 = if t16 < 0 { (-(t16 as i64)) as u64 } else { t16 as u64 };
    if t16 < 0 {
        texte.push(MOINS);
    }
    let n: u64 = a * 10;
    let q: u64 = n / 16;
    let r: u64 = n % 16;
    let d: u64 = if 2 * r > 16 || (2 * r == 16 && q % 2 == 1) { q + 1 } else { q };
    ecrire_decimal(texte, d / 10);
    texte.push(POINT);
    texte.push(ZERO + (d % 10) as u8);
    assert(texte@ =~= avant + texte_temperature(t16));
}

/// Texte d'une température éventuelle, au dixième près (`NaN` si inconnue).
pub fn formater_temperature(t16: Option<i32>) -> (t: Vec<u8>)
    ensures
        t@ == texte_temperature_opt(t16),
{
    let mut t: Vec<u8> = Vec::new();
    match t16 {
        Some(v) => ecrire_temperature(&mut t, v),
        None => ajouter(&mut t, "NaN".as_bytes()),
    }
    assert(t@ =~= texte_temperature_opt(t16));
    t
}

/// Nom d'un mode dans les journaux et le tableau de bord.
pub open spec fn texte_mode(mode: Mode) -> Seq<u8> {
    match mode {
        Mode::Auto => "AUTO".spec_bytes(),
        Mode::Manuel => "MANU".spec_bytes(),
        Mode::Off => "OFF".spec_bytes(),
    }
}

/// Nom du mode : `AUTO`, `MANU` ou `OFF`.
pub fn nom_mode(mode: Mode) -> (r: &'static str)
    ensures
        r.spec_bytes() == texte_mode(mode),
{
    match mode {
        Mode::Auto => "AUTO",
        Mode::Manuel => "MANU",
        Mode::Off => "OFF",
    }
}

/// Nom d'une cause de fin de session.
pub open spec fn texte_cause(cause: CauseFin) -> Seq<u8> {
    match cause {
        CauseFin::Securite => "SECURITE".spec_bytes(),
        CauseFin::Boost => "BOOST".spec_bytes(),
        CauseFin::Normal => "NORMAL".spec_bytes(),
    }
}

/// Nom de la cause de fin : `SECURITE`, `BOOST` ou `NORMAL`.
pub fn nom_cause(cause: CauseFin) -> (r: &'static str)
    ensures
        r.spec_bytes() == texte_cause(cause),
{
    match cause {
        CauseFin::Securite => "SECURITE",
        CauseFin::Boost => "BOOST",
        CauseFin::Normal => "NORMAL",
    }
}

/// Une session pompe terminée, prête à être ajoutée au journal.
pub struct SessionTerminee<'a> {
    pub date: &'a [u8],
    pub debut: &'a [u8],
    pub fin: &'a [u8],
    pub duree_min: u64,
    /// Température de l'eau en seizièmes de degré, si elle est connue.
    pub t_eau: Option<i32>,
    pub mode: Mode,
    pub cause_fin: CauseFin,
    pub pompe_on: bool,
}

/// Ligne du journal des sessions :
/// `date,debut,fin,duree_min,T_eau,mode,pompe,cause_fin`.
pub open spec fn texte_session(s: SessionTerminee) -> Seq<u8> {
    s.date@ + seq![VIRGULE] + s.debut@ + seq![VIRGULE] + s.fin@ + seq![VIRGULE] + decimal(s.duree_min as nat) + seq![VIRGULE]
        + texte_temperature_opt(s.t_eau) + seq![VIRGULE] + texte_mode(s.mode) + seq![VIRGULE]
        + (if s.pompe_on { "ON".spec_bytes() } else { "OFF".spec_bytes() }) + seq![VIRGULE] + texte_cause(s.cause_fin)
}

/// Ligne du journal des sessions pour une session terminée.
pub fn ligne_session(s: &SessionTerminee) -> (t: Vec<u8>)
    ensures
        t@ == texte_session(*s),
{
    let mut t: Vec<u8> = Vec::new();
    ajouter(&mut t, s.date);
    t.push(VIRGULE);
    ajouter(&mut t, s.debut);
    t.push(VIRGULE);
    ajouter(&mut t, s.fin);
    t.push(VIRGULE);
    ecrire_decimal(&mut t, s.duree_min);
    t.push(VIRGULE);
    let temperature = formater_temperature(s.t_eau);
    ajouter(&mut t, temperature.as_slice());
    t.push(VIRGULE);
    ajouter(&mut t, nom_mode(s.mode).as_bytes());
    t.push(VIRGULE);
    ajouter(&mut t, if s.pompe_on { "ON".as_bytes() } else { "OFF".as_bytes() });
    t.push(VIRGULE);
    ajouter(&mut t, nom_cause(s.cause_fin).as_bytes());
    assert(t@ =~= texte_session(*s));
    t
}

/// Heures d'un nombre de demi-heures, au dixième (format `{:.1}`) : `X.0` ou `X.5`.
pub open spec fn texte_demi_heures(d: u32) -> Seq<u8> {
    decimal((d / 2) as nat) + seq![POINT, if d % 2 == 0 { ZERO } else { (ZERO + 5) as u8 }]
}

/// Heures d'une durée en millisecondes, au centième (format `{:.2}`).
pub open spec fn texte_heures_ms(ms: u64) -> Seq<u8> {
    let c = arrondi(ms as nat, 36_000);
    decimal(c / 100) + seq![POINT] + decimal_2(c % 100)
}

/// Ligne du journal des bilans : `date,objectif_h,fait_h,nb_sessions,nb_alertes,mode_jour`.
pub open spec fn texte_bilan(date: Seq<u8>, objectif_demi_heures: u32, fait_ms: u64, nb_sessions: u32, nb_alertes: u32, mode_jour: Mode) -> Seq<u8> {
    date + seq![VIRGULE] + texte_demi_heures(objectif_demi_heures) + seq![VIRGULE] + texte_heures_ms(fait_ms) + seq![VIRGULE]
        + decimal(nb_sessions as nat) + seq![VIRGULE] + decimal(nb_alertes as nat) + seq![VIRGULE] + texte_mode(mode_jour)
}

fn ecrire_demi_heures(texte: &mut Vec<u8>, d: u32)
    ensures
        final(texte)@ == old(texte)@ + texte_demi_heures(d),
{
    let ghost avant = texte@;
    ecrire_decimal(texte, (d / 2) as u64);
    texte.push(POINT);
    texte.push(if d % 2 == 0 { ZERO } else { ZERO + 5 });
    assert(texte@ =~= avant + texte_demi_heures(d));
}

fn ecrire_heures_ms(texte: &mut Vec<u8>, ms: u64)
    ensures
        final(texte)@ == old(texte)@ + texte_heures_ms(ms),
{
    let ghost avant = texte@;
    let q: u64 = ms / 36_000;
    let r: u64 = ms % 36_000;
    let c: u64 = if 2 * r > 36_000 || (2 * r == 36_000 && q % 2 == 1) { q + 1 } else { q };
    assert(c == arrondi(ms as nat, 36_000));
    ecrire_decimal(texte, c / 100);
    texte.push(POINT);
    ecrire_decimal_2(texte, c % 100);
    assert(texte@ =~= avant + texte_heures_ms(ms));
}

/// Ligne du bilan d'une journée terminée.
pub fn ligne_bilan(date: &[u8], objectif_demi_heures: u32, fait_ms: u64, nb_sessions: u32, nb_alertes: u32, mode_jour: Mode) -> (t: Vec<u8>)
    ensures
        t@ == texte_bilan(date@, objectif_demi_heures, fait_ms, nb_sessions, nb_alertes, mode_jour),
{
    let mut t: Vec<u8> = Vec::new();
    ajouter(&mut t, date);
    t.push(VIRGULE);
    ecrire_demi_heures(&mut t, objectif_demi_heures);
    t.push(VIRGULE);
    ecrire_heures_ms(&mut t, fait_ms);
    t.push(VIRGULE);
    ecrire_decimal(&mut t, nb_sessions as u64);
    t.push(VIRGULE);
    ecrire_decimal(&mut t, nb_alertes as u64);
    t.push(VIRGULE);
    ajouter(&mut t, nom_mode(mode_jour).as_bytes());
    assert(t@ =~= texte_bilan(date@, objectif_demi_heures, fait_ms, nb_sessions, nb_alertes, mode_jour));
    t
}

/// Ligne du journal des alertes : `date,heure,type,valeur`.
pub open spec fn texte_alerte(date: Seq<u8>, heure: Seq<u8>, type_alerte: Seq<u8>, valeur: Seq<u8>) -> Seq<u8> {
    date + seq![VIRGULE] + heure + seq![VIRGULE] + type_alerte + seq![VIRGULE] + valeur
}

/// Ligne du journal des alertes.
pub fn ligne_alerte(date: &[u8], heure: &[u8], type_alerte: &[u8], valeur: &[u8]) -> (t: Vec<u8>)
    ensures
        t@ == texte_alerte(date@, heure@, type_alerte@, valeur@),
{
    let mut t: Vec<u8> = Vec::new();
    ajouter(&mut t, date);
    t.push(VIRGULE);
    ajouter(&mut t, heure);
    t.push(VIRGULE);
    ajouter(&mut t, type_alerte);
    t.push(VIRGULE);
    ajouter(&mut t, valeur);
    assert(t@ =~= texte_alerte(date@, heure@, type_alerte@, valeur@));
    t
}

/// Valeur de l'alerte de redémarrage : la raison, puis la durée d'arrêt estimée et
/// sa nature, ou la mention du premier démarrage.
pub open spec fn texte_redemarrage(raison: Seq<u8>, epoch_actuel: i64, dernier_horodatage: u32) -> Seq<u8> {
    match arret_spec(epoch_actuel, dernier_horodatage) {
        None => raison + " (premier demarrage)".spec_bytes(),
        Some((duree, courte)) => raison + " ~".spec_bytes() + decimal(duree as nat) + "min (".spec_bytes()
            + (if courte { "coupure courte".spec_bytes() } else { "arret prolonge".spec_bytes() }) + ")".spec_bytes(),
    }
}

/// Valeur de l'alerte de redémarrage, à l'heure UTC `utc`, le dernier horodatage
/// sauvegardé étant en secondes Unix (0 : aucun) ; `None` si `utc` n'est pas une date
/// et une heure valides.
pub fn valeur_redemarrage(raison: &[u8], utc: DateHeure, dernier_horodatage: u32) -> (t: Option<Vec<u8>>)
    ensures
        t matches Some(v) ==> secondes_unix_spec(utc) matches Some(e)
            && v@ == texte_redemarrage(raison@, e, dernier_horodatage),
        t is None ==> secondes_unix_spec(utc) is None,
{
    let epoch_actuel = match secondes_unix(utc) {
        Some(e) => e,
        None => return None,
    };
    let mut t: Vec<u8> = Vec::new();
    ajouter(&mut t, raison);
    match duree_arret(epoch_actuel, dernier_horodatage) {
        None => ajouter(&mut t, " (premier demarrage)".as_bytes()),
        Some((duree, courte)) => {
            ajouter(&mut t, " ~".as_bytes());
            ecrire_decimal(&mut t, duree as u64);
            ajouter(&mut t, "min (".as_bytes());
            ajouter(&mut t, if courte { "coupure courte".as_bytes() } else { "arret prolonge".as_bytes() });
            ajouter(&mut t, ")".as_bytes());
        },
    }
    assert(t@ =~= texte_redemarrage(raison@, epoch_actuel, dernier_horodatage));
    Some(t)
}

} // verus!
