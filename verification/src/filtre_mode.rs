//! Filtre du mode lu sur l'interrupteur 3 positions : un changement n'est validé que
//! s'il reste stable pendant un délai, pour ignorer la traversée de la position
//! centrale (ARRÊT) lors d'une manœuvre AUTO ↔ MANU.
use crate::etat_partage::Mode;
use crate::horloge::Horloge;
use crate::pompe::ecart;
use vstd::prelude::*;

verus! {

/// Délai de confirmation d'une sélection AUTO ou MANU, en millisecondes.
pub const DELAI_CONFIRMATION_MS: u64 = 700;
/// Délai de confirmation de la position ARRÊT, nettement plus long : le passage
/// parasite lors d'une manœuvre est toujours un passage par ARRÊT.
pub const DELAI_CONFIRMATION_ARRET_MS: u64 = 2000;

/// État logique du filtre.
pub struct EtatFiltreMode {
    pub stable: Mode,
    pub candidat: Mode,
    pub depuis: u64,
    pub premiere_lecture: bool,
}

/// Délai exigé pour confirmer la position `m`.
pub open spec fn delai_pour(m: Mode) -> u64 {
    if m == Mode::Off { DELAI_CONFIRMATION_ARRET_MS } else { DELAI_CONFIRMATION_MS }
}

/// Une lecture `lu` à l'instant `t`.
pub open spec fn etape_filtre_mode(e: EtatFiltreMode, lu: Mode, t: u64) -> EtatFiltreMode {
    if e.premiere_lecture {
        EtatFiltreMode { stable: lu, candidat: lu, depuis: t, premiere_lecture: false }
    } else {
        let (candidat, depuis) = if lu != e.candidat { (lu, t) } else { (e.candidat, e.depuis) };
        let stable = if candidat != e.stable && ecart(t, depuis) >= delai_pour(candidat) {
            candidat
        } else {
            e.stable
        };
        EtatFiltreMode { stable, candidat, depuis, premiere_lecture: false }
    }
}

/// La toute première lecture est confirmée immédiatement.
pub proof fn loi_premiere_lecture(e: EtatFiltreMode, lu: Mode, t: u64)
    requires
        e.premiere_lecture,
    ensures
        etape_filtre_mode(e, lu, t).stable == lu,
{
}

/// Ensuite, le mode confirmé ne change que vers la lecture courante, restée identique
/// depuis au moins le délai de sa position.
pub proof fn loi_confirmation(e: EtatFiltreMode, lu: Mode, t: u64)
    requires
        !e.premiere_lecture,
        etape_filtre_mode(e, lu, t).stable != e.stable,
    ensures
        etape_filtre_mode(e, lu, t).stable == lu,
        lu == e.candidat,
        ecart(t, e.depuis) >= delai_pour(lu),
{
}

/// Une position lue sans interruption depuis au moins son délai (2 s pour ARRÊT,
/// 700 ms pour AUTO ou MANU) devient le mode confirmé ; une lecture égale au mode
/// confirmé le garde ; le mode confirmé est toujours l'ancien ou la lecture.
pub proof fn loi_position_stable_confirmee(e: EtatFiltreMode, lu: Mode, t: u64)
    ensures
        !e.premiere_lecture && lu == e.candidat
            && ecart(t, e.depuis) >= (if lu == Mode::Off { 2000u64 } else { 700u64 })
            ==> etape_filtre_mode(e, lu, t).stable == lu,
        !e.premiere_lecture && lu == e.stable ==> etape_filtre_mode(e, lu, t).stable == e.stable,
        etape_filtre_mode(e, lu, t).stable == e.stable || etape_filtre_mode(e, lu, t).stable == lu,
        !e.premiere_lecture && lu != e.candidat ==> etape_filtre_mode(e, lu, t).candidat == lu
            && etape_filtre_mode(e, lu, t).depuis == t,
{
}

/// Deux lectures identiques séparées d'au moins le délai de la position confirment
/// celle-ci, quel que soit l'état de départ (hors première lecture, et les instants
/// ne reculant pas).
pub proof fn loi_deux_lectures(e: EtatFiltreMode, lu: Mode, t1: u64, t2: u64)
    requires
        !e.premiere_lecture,
        e.depuis <= t1,
        t1 <= t2,
        t2 - t1 >= (if lu == Mode::Off { 2000u64 } else { 700u64 }),
    ensures
        etape_filtre_mode(etape_filtre_mode(e, lu, t1), lu, t2).stable == lu,
{
}

/// Filtre du mode physique lu sur l'interrupteur.
pub struct FiltreMode {
    stable: Mode,
    candidat: Mode,
    depuis: u64,
    premiere_lecture: bool,
    horloge: Horloge,
}

impl View for FiltreMode {
    type V = EtatFiltreMode;

    closed spec fn view(&self) -> EtatFiltreMode {
        EtatFiltreMode { stable: self.stable, candidat: self.candidat, depuis: self.depuis, premiere_lecture: self.premiere_lecture }
    }
}

impl FiltreMode {
    pub fn nouveau() -> (f: Self)
        ensures
            f@.stable == Mode::Off,
            f@.candidat == Mode::Off,
            f@.premiere_lecture,
    {
        let horloge = Horloge::demarrer();
        let depuis = horloge.millisecondes();
        FiltreMode { stable: Mode::Off, candidat: Mode::Off, depuis, premiere_lecture: true, horloge }
    }

    /// Lecture brute de l'interrupteur à l'instant `maintenant_ms` ; renvoie le mode
    /// confirmé.
    pub fn mettre_a_jour_a(&mut self, lu: Mode, maintenant_ms: u64) -> (m: Mode)
        ensures
            final(self)@ == etape_filtre_mode(old(self)@, lu, maintenant_ms),
            m == final(self)@.stable,
    {
        if self.premiere_lecture {
            self.stable = lu;
            self.candidat = lu;
            self.depuis = maintenant_ms;
            self.premiere_lecture = false;
            return self.stable;
        }

        if lu != self.candidat {
            self.candidat = lu;
            self.depuis = maintenant_ms;
        }

        let delai = if self.candidat == Mode::Off { DELAI_CONFIRMATION_ARRET_MS } else { DELAI_CONFIRMATION_MS };
        let ecoule = if maintenant_ms >= self.depuis { maintenant_ms - self.depuis } else { 0 };
        if self.candidat != self.stable && ecoule >= delai {
            self.stable = self.candidat;
        }
        self.stable
    }

    /// À appeler à chaque tour de boucle avec la lecture brute de l'interrupteur ;
    /// l'instant est lu sur l'horloge interne. Renvoie le mode confirmé.
    pub fn mettre_a_jour(&mut self, lu: Mode) -> (m: Mode)
        ensures
            exists|t: u64| final(self)@ == etape_filtre_mode(old(self)@, lu, t),
            m == final(self)@.stable,
    {
        let t = self.horloge.millisecondes();
        self.mettre_a_jour_a(lu, t)
    }
}

} // verus!
