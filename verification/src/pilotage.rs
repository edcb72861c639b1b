//! Décision de marche/arrêt de la pompe : la pyramide de priorité.
//!
//! Du plus prioritaire au moins prioritaire : anti-claquement et sécurités process
//! (appliqués ensuite par `GestionPompe`), anti-gel absolu (force la marche même en
//! mode ARRÊT), puis le mode sélectionné (ARRÊT, MANUEL, AUTO avec objectif du jour,
//! verrou journalier, plage horaire et boost).
use crate::etat_partage::Mode;
use crate::pompe::{bloquee_a, ecart, etape_pompe, EtatPompe};
use vstd::prelude::*;

verus! {

/// Anti-gel absolu : eau sous 2 °C (en seizièmes de degré).
pub const ANTIGEL_ABSOLU: i32 = 32;
/// Une demi-heure, en millisecondes.
pub const DEMI_HEURE_MS: u64 = 1_800_000;
/// Heure utilisée quand l'heure locale n'est pas fiable : midi (en secondes).
pub const MIDI_S: u32 = 43_200;

/// Ce que la décision lit de l'état du système à ce tour.
pub struct Entrees {
    /// Dernière température d'eau valide, en seizièmes de degré ; `None` si la sonde
    /// n'a jamais répondu.
    pub temperature_eau: Option<i32>,
    /// Mode confirmé de l'interrupteur.
    pub mode: Mode,
    /// Intention marche/arrêt donnée depuis la page web (utilisée en MANUEL).
    pub demande_manuelle: bool,
    pub boost_actif: bool,
    pub boost_marche_forcee: bool,
    /// Objectif de filtration du jour, en demi-heures (0 si inconnu).
    pub demi_heures_cibles: u32,
    /// Temps de marche déjà effectué aujourd'hui, en millisecondes.
    pub marche_ms: u64,
    /// L'heure courante est dans la plage horaire effective.
    pub dans_plage: bool,
}

/// Anti-gel absolu : eau connue et sous 2 °C.
pub open spec fn antigel_absolu(e: Entrees) -> bool {
    e.temperature_eau is Some && e.temperature_eau->0 < ANTIGEL_ABSOLU
}

/// L'objectif du jour est fiable : sonde lue et objectif non nul.
pub open spec fn objectif_connu(e: Entrees) -> bool {
    e.temperature_eau is Some && e.demi_heures_cibles > 0
}

/// L'objectif du jour est atteint.
pub open spec fn objectif_atteint(e: Entrees) -> bool {
    objectif_connu(e) && e.marche_ms >= (e.demi_heures_cibles as int) * DEMI_HEURE_MS
}

/// Demande de marche et nouvel état du verrou journalier « filtration terminée ».
pub open spec fn decision_pompe(e: Entrees, terminee: bool) -> (bool, bool) {
    if antigel_absolu(e) {
        (true, terminee)
    } else {
        match e.mode {
            Mode::Manuel => (e.demande_manuelle, terminee),
            Mode::Off => (false, terminee),
            Mode::Auto => if e.boost_actif {
                (e.boost_marche_forcee, terminee)
            } else {
                let t2 = terminee || objectif_atteint(e);
                (objectif_connu(e) && !t2 && e.dans_plage, t2)
            },
        }
    }
}

/// Décide de la demande de marche de la pompe. `filtration_terminee` est le verrou
/// journalier : une fois l'objectif atteint en AUTO, la filtration ne redémarre plus
/// ce jour-là (l'appelant le remet à `false` au changement de jour).
pub fn decider_demande_pompe(e: &Entrees, filtration_terminee: &mut bool) -> (demande: bool)
    ensures
        (demande, *final(filtration_terminee)) == decision_pompe(*e, *old(filtration_terminee)),
{
    if let Some(t) = e.temperature_eau {
        if t < ANTIGEL_ABSOLU {
            return true;
        }
    }
    match e.mode {
        Mode::Manuel => e.demande_manuelle,
        Mode::Off => false,
        Mode::Auto => {
            if e.boost_actif {
                e.boost_marche_forcee
            } else {
                let objectif_connu = e.temperature_eau.is_some() && e.demi_heures_cibles > 0;
                if objectif_connu && e.marche_ms >= (e.demi_heures_cibles as u64) * DEMI_HEURE_MS {
                    *filtration_terminee = true;
                }
                objectif_connu && !*filtration_terminee && e.dans_plage
            }
        },
    }
}

/// Anti-gel absolu : sous 2 °C, la marche est demandée quel que soit le mode, y
/// compris ARRÊT.
pub proof fn loi_antigel_absolu(e: Entrees, terminee: bool)
    requires
        antigel_absolu(e),
    ensures
        decision_pompe(e, terminee).0,
{
}

/// En mode ARRÊT, la marche n'est demandée que par l'anti-gel absolu.
pub proof fn loi_mode_arret(e: Entrees, terminee: bool)
    requires
        e.mode == Mode::Off,
    ensures
        decision_pompe(e, terminee).0 == antigel_absolu(e),
{
}

/// En mode MANUEL, hors anti-gel, la demande est celle de l'utilisateur.
pub proof fn loi_mode_manuel(e: Entrees, terminee: bool)
    requires
        e.mode == Mode::Manuel,
        !antigel_absolu(e),
    ensures
        decision_pompe(e, terminee).0 == e.demande_manuelle,
{
}

/// En mode AUTO, hors anti-gel : le boost impose son sens ; sinon la marche n'est
/// demandée que si l'objectif est connu, pas encore atteint ni verrouillé, et l'heure
/// dans la plage.
pub proof fn loi_mode_auto(e: Entrees, terminee: bool)
    requires
        e.mode == Mode::Auto,
        !antigel_absolu(e),
    ensures
        e.boost_actif ==> decision_pompe(e, terminee).0 == e.boost_marche_forcee,
        !e.boost_actif ==> (decision_pompe(e, terminee).0 <==> (objectif_connu(e) && !terminee
            && !objectif_atteint(e) && e.dans_plage)),
{
}

/// Le verrou journalier ne se lève jamais de lui-même, et s'arme dès que l'objectif
/// est atteint en AUTO sans boost.
pub proof fn loi_verrou_journalier(e: Entrees, terminee: bool)
    ensures
        terminee ==> decision_pompe(e, terminee).1,
        e.mode == Mode::Auto && !e.boost_actif && !antigel_absolu(e) && objectif_atteint(e)
            ==> decision_pompe(e, terminee).1,
{
}

/// Le verrou journalier ne s'arme que sur l'objectif du jour atteint en AUTO, hors
/// boost et hors anti-gel : une marche forcée ou un arrêt forcé par le boost le laisse
/// tel quel, de sorte que la filtration AUTO reprend quand le boost rend la main.
pub proof fn loi_verrou_seulement_sur_objectif(e: Entrees, terminee: bool)
    ensures
        decision_pompe(e, terminee).1 ==> terminee || (e.mode == Mode::Auto && !e.boost_actif
            && !(e.temperature_eau is Some && e.temperature_eau->0 < ANTIGEL_ABSOLU)
            && e.temperature_eau is Some && e.demi_heures_cibles > 0
            && e.marche_ms >= (e.demi_heures_cibles as int) * DEMI_HEURE_MS),
        e.boost_actif ==> decision_pompe(e, terminee).1 == terminee,
        e.mode != Mode::Auto ==> decision_pompe(e, terminee).1 == terminee,
{
}

/// Un boost en AUTO, même en arrêt forcé, ne prive pas la journée de sa filtration :
/// après lui, avec la même entrée sans boost, la marche est demandée exactement quand
/// elle l'aurait été sans boost (objectif connu, non atteint, dans la plage).
pub proof fn loi_reprise_apres_boost(e: Entrees, terminee: bool)
    requires
        e.mode == Mode::Auto,
        e.boost_actif,
        !(e.temperature_eau is Some && e.temperature_eau->0 < ANTIGEL_ABSOLU),
    ensures
        ({
            let apres = Entrees { boost_actif: false, ..e };
            decision_pompe(apres, decision_pompe(e, terminee).1) == decision_pompe(apres, terminee)
        }),
        ({
            let apres = Entrees { boost_actif: false, ..e };
            !terminee && e.temperature_eau is Some && e.demi_heures_cibles > 0
                && e.marche_ms < (e.demi_heures_cibles as int) * DEMI_HEURE_MS && e.dans_plage
                ==> decision_pompe(apres, decision_pompe(e, terminee).1).0
        }),
{
}

/// Pyramide de priorité, de la décision au relais : quel que soit le mode et ce que
/// décide la logique du mode (anti-gel compris), un blocage anti-claquement en cours
/// ou une sécurité process arrête la pompe ; hors blocage et sécurité, l'anti-gel
/// absolu met la pompe en marche, à moins que ce démarrage ne déclenche lui-même le
/// blocage anti-claquement.
pub proof fn loi_pyramide_priorite(p: EtatPompe, e: Entrees, terminee: bool, systeme_sur: bool, t: u64)
    ensures
        ({
            let s = etape_pompe(p, decision_pompe(e, terminee).0, systeme_sur, t);
            &&& bloquee_a(p, t) ==> !s.etat
            &&& !systeme_sur ==> !s.etat
            &&& !bloquee_a(p, t) && systeme_sur && antigel_absolu(e) && s.bloquee_jusqua is None ==> s.etat
        }),
{
}

/// L'heure `secondes_du_jour` (midi si l'heure n'est pas fiable) est dans la plage
/// `[debut_min, fin_min)` exprimée en minutes.
pub open spec fn dans_plage_spec(secondes_du_jour: Option<u32>, debut_min: u32, fin_min: u32) -> bool {
    let s = match secondes_du_jour {
        Some(s) => s as int,
        None => MIDI_S as int,
    };
    s >= debut_min * 60 && s < fin_min * 60
}

/// Vrai si l'heure courante est dans la plage horaire ; sans heure fiable, midi est
/// pris comme heure neutre.
pub fn dans_plage(secondes_du_jour: Option<u32>, debut_min: u32, fin_min: u32) -> (r: bool)
    ensures
        r == dans_plage_spec(secondes_du_jour, debut_min, fin_min),
{
    let s: u64 = match secondes_du_jour {
        Some(s) => s as u64,
        None => MIDI_S as u64,
    };
    s >= (debut_min as u64) * 60 && s < (fin_min as u64) * 60
}

/// Type de segment de la timeline : 0 = ARRÊT, 1 = AUTO, 2 = MANU marche,
/// 3 = MANU arrêt, 4 = BOOST marche, 5 = BOOST arrêt.
pub open spec fn type_segment_spec(mode: Mode, pompe_on: bool, boost_actif: bool, boost_marche_forcee: bool) -> u8 {
    if boost_actif {
        if boost_marche_forcee { 4 } else { 5 }
    } else {
        match mode {
            Mode::Auto => 1,
            Mode::Manuel => if pompe_on { 2 } else { 3 },
            Mode::Off => 0,
        }
    }
}

/// Type de segment de la timeline des modes pour la situation courante.
pub fn type_segment(mode: Mode, pompe_on: bool, boost_actif: bool, boost_marche_forcee: bool) -> (t: u8)
    ensures
        t == type_segment_spec(mode, pompe_on, boost_actif, boost_marche_forcee),
        t <= 5,
{
    if boost_actif {
        if boost_marche_forcee { 4 } else { 5 }
    } else {
        match mode {
            Mode::Auto => 1,
            Mode::Manuel => if pompe_on { 2 } else { 3 },
            Mode::Off => 0,
        }
    }
}

/// Code du mode envoyé au nuage : 0 = ARRÊT, 1 = MANU, 2 = AUTO.
pub fn code_mode(mode: Mode) -> (c: u8)
    ensures
        c == (match mode { Mode::Off => 0u8, Mode::Manuel => 1u8, Mode::Auto => 2u8 }),
{
    match mode {
        Mode::Off => 0,
        Mode::Manuel => 1,
        Mode::Auto => 2,
    }
}

/// Cause de fin d'une session pompe, pour le journal.
#[derive(Clone, Copy, Debug, PartialEq, Eq, Structural)]
pub enum CauseFin {
    Securite,
    Boost,
    Normal,
}

/// Cause (approximative) de l'arrêt : priorité à la sécurité, sinon boost encore
/// actif (qui force l'arrêt), sinon arrêt normal.
pub fn cause_fin(systeme_sur: bool, boost_actif: bool) -> (c: CauseFin)
    ensures
        c == (if !systeme_sur { CauseFin::Securite } else if boost_actif { CauseFin::Boost } else { CauseFin::Normal }),
{
    if !systeme_sur {
        CauseFin::Securite
    } else if boost_actif {
        CauseFin::Boost
    } else {
        CauseFin::Normal
    }
}


/// Changement de session pompe observé à un tour.
#[derive(Clone, Copy, Debug, PartialEq, Eq, Structural)]
pub enum Session {
    Aucune,
    /// La pompe vient de démarrer.
    Debut,
    /// La pompe vient de s'arrêter après une session de `duree_min` minutes.
    Fin { duree_min: u64 },
}

/// Suivi des sessions de marche de la pompe, pour le journal.
pub struct SuiviSession {
    debut: Option<u64>,
    precedent: bool,
}

/// État logique du suivi : début (ms) de la session en cours, état précédent.
pub struct EtatSession {
    pub debut: Option<u64>,
    pub precedent: bool,
}

/// Après l'observation de l'état `etat` de la pompe à l'instant `t`.
pub open spec fn etape_session(e: EtatSession, etat: bool, t: u64) -> (EtatSession, Session) {
    if etat && !e.precedent {
        (EtatSession { debut: Some(t), precedent: true }, Session::Debut)
    } else if !etat && e.precedent {
        match e.debut {
            Some(d) => (EtatSession { debut: None, precedent: false }, Session::Fin { duree_min: ecart(t, d) / 60_000 }),
            None => (EtatSession { debut: None, precedent: false }, Session::Aucune),
        }
    } else {
        (EtatSession { precedent: etat, ..e }, Session::Aucune)
    }
}

impl View for SuiviSession {
    type V = EtatSession;

    closed spec fn view(&self) -> EtatSession {
        EtatSession { debut: self.debut, precedent: self.precedent }
    }
}

impl SuiviSession {
    pub fn nouveau() -> (s: Self)
        ensures
            s@ == (EtatSession { debut: None, precedent: false }),
    {
        SuiviSession { debut: None, precedent: false }
    }

    /// Observe l'état de la pompe à l'instant `maintenant_ms`.
    pub fn observer_a(&mut self, etat: bool, maintenant_ms: u64) -> (s: Session)
        ensures
            (final(self)@, s) == etape_session(old(self)@, etat, maintenant_ms),
    {
        let mut s = Session::Aucune;
        if etat && !self.precedent {
            self.debut = Some(maintenant_ms);
            s = Session::Debut;
        } else if !etat && self.precedent {
            if let Some(d) = self.debut {
                let duree = if maintenant_ms >= d { maintenant_ms - d } else { 0 };
                s = Session::Fin { duree_min: duree / 60_000 };
            }
            self.debut = None;
        }
        self.precedent = etat;
        s
    }
}

/// En dessous de ce nombre de minutes d'arrêt, un redémarrage ressemble à une
/// micro-coupure plutôt qu'à un arrêt prolongé.
pub const SEUIL_COUPURE_COURTE_MIN: i64 = 2;

/// Durée d'arrêt estimée avant un redémarrage, en minutes, et coupure courte ou non :
/// `None` au premier démarrage (aucun horodatage sauvegardé, noté 0).
pub open spec fn arret_spec(epoch_actuel: i64, dernier_horodatage: u32) -> Option<(i64, bool)> {
    if dernier_horodatage == 0 {
        None
    } else {
        let ecart = epoch_actuel - dernier_horodatage;
        let duree_min = if ecart > 0 { ecart / 60 } else { 0 };
        Some((duree_min as i64, duree_min < SEUIL_COUPURE_COURTE_MIN))
    }
}

/// Estime la durée d'arrêt par différence entre l'heure actuelle et le dernier
/// horodatage sauvegardé (secondes Unix).
pub fn duree_arret(epoch_actuel: i64, dernier_horodatage: u32) -> (r: Option<(i64, bool)>)
    ensures
        r == arret_spec(epoch_actuel, dernier_horodatage),
{
    if dernier_horodatage == 0 {
        return None;
    }
    let ecart: i128 = (epoch_actuel as i128) - (dernier_horodatage as i128);
    let duree_min: i128 = if ecart > 0 { ecart / 60 } else { 0 };
    assert(duree_min <= i64::MAX);
    let duree = duree_min as i64;
    Some((duree, duree < SEUIL_COUPURE_COURTE_MIN))
}

/// Suivi de la journée : jour local en cours et températures d'eau extrêmes du jour.
pub struct SuiviJour {
    dernier_jour: Option<u32>,
    temp_min: Option<i32>,
    temp_max: Option<i32>,
}

/// État logique du suivi de la journée (températures en seizièmes de degré).
pub struct EtatJour {
    pub dernier_jour: Option<u32>,
    pub temp_min: Option<i32>,
    pub temp_max: Option<i32>,
}

impl View for SuiviJour {
    type V = EtatJour;

    closed spec fn view(&self) -> EtatJour {
        EtatJour { dernier_jour: self.dernier_jour, temp_min: self.temp_min, temp_max: self.temp_max }
    }
}

/// Le jour local `jour` (quantième du mois, s'il est connu) est un nouveau jour : un
/// jour était déjà connu et il est différent.
pub open spec fn nouveau_jour(e: EtatJour, jour: Option<u32>) -> bool {
    e.dernier_jour is Some && jour is Some && e.dernier_jour->0 != jour->0
}

/// Extrême mis à jour par une température : la plus petite (`min`) ou la plus grande.
pub open spec fn extreme(courant: Option<i32>, t: i32, min: bool) -> Option<i32> {
    match courant {
        Some(c) => Some(if (min && t < c) || (!min && t > c) { t } else { c }),
        None => Some(t),
    }
}

impl SuiviJour {
    pub fn nouveau() -> (s: Self)
        ensures
            s@ == (EtatJour { dernier_jour: None, temp_min: None, temp_max: None }),
    {
        SuiviJour { dernier_jour: None, temp_min: None, temp_max: None }
    }

    /// Observe le jour local (`None` sans heure fiable) ; renvoie `true` au passage à
    /// un nouveau jour, dont les températures extrêmes repartent de zéro. Le jour connu
    /// n'est remplacé que par un jour connu.
    pub fn changement_de_jour(&mut self, jour: Option<u32>) -> (change: bool)
        ensures
            change == nouveau_jour(old(self)@, jour),
            final(self)@.dernier_jour == (if jour is Some { jour } else { old(self)@.dernier_jour }),
            change ==> final(self)@.temp_min is None && final(self)@.temp_max is None,
            !change ==> final(self)@.temp_min == old(self)@.temp_min && final(self)@.temp_max == old(self)@.temp_max,
    {
        let change = match (self.dernier_jour, jour) {
            (Some(d), Some(j)) => d != j,
            _ => false,
        };
        if change {
            self.temp_min = None;
            self.temp_max = None;
        }
        if jour.is_some() {
            self.dernier_jour = jour;
        }
        change
    }

    /// Prend en compte la température d'eau de ce tour (`None` : inconnue).
    pub fn observer_temperature(&mut self, t: Option<i32>)
        ensures
            final(self)@.dernier_jour == old(self)@.dernier_jour,
            final(self)@.temp_min == (match t { Some(v) => extreme(old(self)@.temp_min, v, true), None => old(self)@.temp_min }),
            final(self)@.temp_max == (match t { Some(v) => extreme(old(self)@.temp_max, v, false), None => old(self)@.temp_max }),
    {
        if let Some(v) = t {
            self.temp_min = Some(match self.temp_min {
                Some(c) => if v < c { v } else { c },
                None => v,
            });
            self.temp_max = Some(match self.temp_max {
                Some(c) => if v > c { v } else { c },
                None => v,
            });
        }
    }

    /// Températures d'eau minimale et maximale du jour.
    pub fn extremes(&self) -> (r: (Option<i32>, Option<i32>))
        ensures
            r == (self@.temp_min, self@.temp_max),
    {
        (self.temp_min, self.temp_max)
    }
}

/// Les extrêmes du jour encadrent chaque température observée depuis le début du jour.
pub proof fn loi_extremes(courant_min: Option<i32>, courant_max: Option<i32>, t: i32)
    requires
        courant_min is Some ==> courant_max is Some && courant_min->0 <= courant_max->0,
    ensures
        extreme(courant_min, t, true)->0 <= t <= extreme(courant_max, t, false)->0,
        courant_min is Some ==> extreme(courant_min, t, true)->0 <= courant_min->0,
        courant_max is Some ==> extreme(courant_max, t, false)->0 >= courant_max->0,
{
}

} // verus!
