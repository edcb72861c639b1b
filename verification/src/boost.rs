//! Marche/arrêt forcé temporaire : outrepasse la décision automatique pendant une
//! durée réglable (30 min à 8 h, par paliers de 30 min), puis rend la main.
//! Disponible uniquement en mode AUTO (vérifié par l'appelant).
use crate::horloge::Horloge;
use crate::pompe::somme_bornee;
use vstd::prelude::*;

verus! {

pub const DUREE_MIN_MINUTES: u32 = 30;
pub const DUREE_MAX_MINUTES: u32 = 480;
pub const DUREE_PAS_MINUTES: u32 = 30;
pub const DUREE_DEFAUT_MINUTES: u32 = 60;

/// État logique du boost.
pub struct EtatBoost {
    /// Instant (ms) de fin du boost en cours ou échu ; `None` si aucun.
    pub fin: Option<u64>,
    /// `true` = force la marche, `false` = force l'arrêt.
    pub marche_forcee: bool,
    pub duree_minutes: u32,
}

/// Durée acceptée pour un boost.
pub open spec fn duree_valide(minutes: u32) -> bool {
    DUREE_MIN_MINUTES <= minutes <= DUREE_MAX_MINUTES && minutes % DUREE_PAS_MINUTES == 0
}

/// Le boost est actif à l'instant `t`.
pub open spec fn boost_actif_a(e: EtatBoost, t: u64) -> bool {
    e.fin is Some && t < e.fin->0
}

/// Secondes restantes à l'instant `t` (tronquées à la seconde), nul sans boost en cours.
pub open spec fn restant_secondes_a(e: EtatBoost, t: u64) -> u32 {
    match e.fin {
        Some(f) => if f >= t { (((f - t) / 1000) % 0x1_0000_0000) as u32 } else { 0 },
        None => 0,
    }
}

/// Instant de fin d'un boost démarré à `t` avec la durée réglée.
pub open spec fn fin_boost(e: EtatBoost, t: u64) -> u64 {
    somme_bornee(t, ((e.duree_minutes as u64) * 60_000) as u64)
}

/// Un boost démarré à `t` reste actif jusqu'à sa fin, pour toute la durée réglée
/// (tant que l'horloge ne sature pas).
pub proof fn loi_boost_actif_sur_sa_duree(e: EtatBoost, t: u64, u: u64)
    requires
        t <= u,
        u < t + (e.duree_minutes as u64) * 60_000,
        t + (e.duree_minutes as u64) * 60_000 <= u64::MAX,
    ensures
        boost_actif_a(EtatBoost { fin: Some(fin_boost(e, t)), ..e }, u),
{
}

/// À son échéance, le boost rend la main : il n'est plus actif.
pub proof fn loi_boost_rend_la_main(e: EtatBoost, t: u64, u: u64)
    requires
        u >= fin_boost(e, t),
    ensures
        !boost_actif_a(EtatBoost { fin: Some(fin_boost(e, t)), ..e }, u),
{
}

/// Un boost ne dure jamais plus que sa durée réglée.
pub proof fn loi_restant_borne(e: EtatBoost, t: u64, u: u64)
    requires
        t <= u,
    ensures
        restant_secondes_a(EtatBoost { fin: Some(fin_boost(e, t)), ..e }, u) <= (e.duree_minutes as u64) * 60,
{
    let d = (e.duree_minutes as u64) * 60_000;
    let f = fin_boost(e, t);
    if f >= u {
        assert(f - u <= d);
        assert((f - u) / 1000 <= d / 1000) by (nonlinear_arith)
            requires f - u <= d;
        let x = (f - u) / 1000;
        assert(x % 0x1_0000_0000 <= x) by (nonlinear_arith)
            requires x >= 0;
    }
}

/// La durée réglée d'un boost est toujours d'au moins 30 minutes (donc d'au moins
/// une minute) et d'au plus 8 heures.
pub proof fn loi_duree_bornee(e: EtatBoost)
    requires
        duree_valide(e.duree_minutes),
    ensures
        1 <= DUREE_MIN_MINUTES <= e.duree_minutes <= DUREE_MAX_MINUTES,
        (e.duree_minutes as u64) * 60_000 >= 60_000,
{
}

/// Boost : sens et fin de la marche/arrêt forcé, et durée du prochain boost.
pub struct Boost {
    fin: Option<u64>,
    marche_forcee: bool,
    duree_minutes: u32,
    horloge: Horloge,
}

impl View for Boost {
    type V = EtatBoost;

    closed spec fn view(&self) -> EtatBoost {
        EtatBoost { fin: self.fin, marche_forcee: self.marche_forcee, duree_minutes: self.duree_minutes }
    }
}

impl Boost {
    /// La durée réglée est toujours valide : de 30 min à 8 h, par paliers de 30 min.
    #[verifier::type_invariant]
    closed spec fn duree_reglee_valide(self) -> bool {
        duree_valide(self.duree_minutes)
    }

    /// Crée un boost inactif ; une durée initiale invalide (nulle, hors de 30 min à
    /// 8 h, ou pas un multiple de 30 min) prend la valeur par défaut.
    pub fn nouveau(duree_minutes_initiale: u32) -> (b: Self)
        ensures
            b@.fin is None,
            b@.marche_forcee,
            b@.duree_minutes == (if duree_valide(duree_minutes_initiale) { duree_minutes_initiale } else { DUREE_DEFAUT_MINUTES }),
    {
        let valide = DUREE_MIN_MINUTES <= duree_minutes_initiale && duree_minutes_initiale <= DUREE_MAX_MINUTES
            && duree_minutes_initiale % DUREE_PAS_MINUTES == 0;
        Boost {
            fin: None,
            marche_forcee: true,
            duree_minutes: if valide { duree_minutes_initiale } else { DUREE_DEFAUT_MINUTES },
            horloge: Horloge::demarrer(),
        }
    }

    /// Vrai si un boost est en cours à l'instant `maintenant_ms`.
    pub fn actif_a(&self, maintenant_ms: u64) -> (r: bool)
        ensures
            r == boost_actif_a(self@, maintenant_ms),
    {
        match self.fin {
            Some(f) => maintenant_ms < f,
            None => false,
        }
    }

    /// Vrai si un boost est en cours.
    pub fn actif(&self) -> (r: bool)
        ensures
            exists|t: u64| r == boost_actif_a(self@, t),
            self@.fin is None ==> !r,
    {
        let t = self.horloge.millisecondes();
        self.actif_a(t)
    }

    /// Sens du boost : `true` = force la marche, `false` = force l'arrêt.
    pub fn marche_forcee(&self) -> (r: bool)
        ensures
            r == self@.marche_forcee,
    {
        self.marche_forcee
    }

    /// Secondes restantes à l'instant `maintenant_ms`.
    pub fn restant_secondes_a(&self, maintenant_ms: u64) -> (r: u32)
        ensures
            r == restant_secondes_a(self@, maintenant_ms),
    {
        match self.fin {
            Some(f) => if f >= maintenant_ms { (((f - maintenant_ms) / 1000) % 0x1_0000_0000) as u32 } else { 0 },
            None => 0,
        }
    }

    /// Secondes restantes du boost en cours (0 sans boost).
    pub fn restant_secondes(&self) -> (r: u32)
        ensures
            exists|t: u64| r == restant_secondes_a(self@, t),
            self@.fin is None ==> r == 0,
    {
        let t = self.horloge.millisecondes();
        self.restant_secondes_a(t)
    }

    /// Durée du prochain boost, toujours de 30 min à 8 h par paliers de 30 min.
    pub fn duree_minutes(&self) -> (r: u32)
        ensures
            r == self@.duree_minutes,
            duree_valide(r),
    {
        proof { use_type_invariant(self); }
        self.duree_minutes
    }

    /// Démarre un boost à l'instant `maintenant_ms` ; le sens est l'inverse de l'état
    /// courant de la pompe.
    pub fn demarrer_a(&mut self, pompe_actuellement_active: bool, maintenant_ms: u64)
        ensures
            final(self)@ == (EtatBoost {
                fin: Some(fin_boost(old(self)@, maintenant_ms)),
                marche_forcee: !pompe_actuellement_active,
                ..old(self)@
            }),
    {
        proof { use_type_invariant(&*self); }
        self.marche_forcee = !pompe_actuellement_active;
        let duree_ms = (self.duree_minutes as u64) * 60_000;
        self.fin = Some(maintenant_ms.saturating_add(duree_ms));
    }

    /// Démarre un boost maintenant ; le sens est l'inverse de l'état courant de la pompe.
    pub fn demarrer(&mut self, pompe_actuellement_active: bool)
        ensures
            exists|t: u64| final(self)@ == (EtatBoost {
                fin: Some(#[trigger] fin_boost(old(self)@, t)),
                marche_forcee: !pompe_actuellement_active,
                ..old(self)@
            }),
    {
        let t = self.horloge.millisecondes();
        self.demarrer_a(pompe_actuellement_active, t);
    }

    pub fn arreter(&mut self)
        ensures
            final(self)@ == (EtatBoost { fin: None, ..old(self)@ }),
    {
        proof { use_type_invariant(&*self); }
        self.fin = None;
    }

    /// Règle la durée du prochain boost. Renvoie `false` si elle est invalide (doit
    /// être un multiple de 30 min, entre 30 min et 8 h) : la durée n'est alors pas modifiée.
    pub fn definir_duree(&mut self, minutes: u32) -> (ok: bool)
        ensures
            ok == duree_valide(minutes),
            ok ==> final(self)@ == (EtatBoost { duree_minutes: minutes, ..old(self)@ }),
            !ok ==> final(self)@ == old(self)@,
    {
        if !(DUREE_MIN_MINUTES <= minutes && minutes <= DUREE_MAX_MINUTES) || minutes % DUREE_PAS_MINUTES != 0 {
            return false;
        }
        self.duree_minutes = minutes;
        true
    }
}

} // verus!
