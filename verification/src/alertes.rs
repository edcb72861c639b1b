//! Détection des alertes à journaliser : une alerte est levée sur le front montant de
//! sa condition (passage de normal à anormal), et comptée dans le bilan du jour.
use vstd::prelude::*;

verus! {

/// Conditions observées à un tour de boucle.
#[derive(Clone, Copy, Debug, PartialEq, Eq, Structural)]
pub struct Conditions {
    pub niveau_ok: bool,
    pub defaut_moteur: bool,
    pub sonde_muette: bool,
    pub pompe_bloquee: bool,
    pub anti_gel: bool,
    pub canicule: bool,
}

/// Alertes levées à ce tour.
#[derive(Clone, Copy, Debug, PartialEq, Eq, Structural)]
pub struct Alertes {
    pub niveau_eau: bool,
    pub defaut_moteur: bool,
    pub sonde_muette: bool,
    pub claquement: bool,
    pub anti_gel: bool,
    pub canicule: bool,
}

/// Alertes levées en passant des conditions `avant` aux conditions `apres`.
pub open spec fn fronts(avant: Conditions, apres: Conditions) -> Alertes {
    Alertes {
        niveau_eau: !apres.niveau_ok && avant.niveau_ok,
        defaut_moteur: apres.defaut_moteur && !avant.defaut_moteur,
        sonde_muette: apres.sonde_muette && !avant.sonde_muette,
        claquement: apres.pompe_bloquee && !avant.pompe_bloquee,
        anti_gel: apres.anti_gel && !avant.anti_gel,
        canicule: apres.canicule && !avant.canicule,
    }
}

/// Nombre d'alertes levées.
pub open spec fn nombre(a: Alertes) -> int {
    (if a.niveau_eau { 1int } else { 0int }) + (if a.defaut_moteur { 1int } else { 0int })
        + (if a.sonde_muette { 1int } else { 0int }) + (if a.claquement { 1int } else { 0int })
        + (if a.anti_gel { 1int } else { 0int }) + (if a.canicule { 1int } else { 0int })
}

/// Conditions au démarrage : tout est normal.
pub open spec fn conditions_initiales() -> Conditions {
    Conditions {
        niveau_ok: true,
        defaut_moteur: false,
        sonde_muette: false,
        pompe_bloquee: false,
        anti_gel: false,
        canicule: false,
    }
}

/// Une condition qui reste anormale ne lève pas de nouvelle alerte.
pub proof fn loi_front_montant(avant: Conditions, apres: Conditions)
    requires
        apres == avant,
    ensures
        nombre(fronts(avant, apres)) == 0,
{
}

/// Une condition anormale qui apparaît lève son alerte ; une condition normale à ce
/// tour, ou déjà anormale au tour précédent, n'en lève pas.
pub proof fn loi_alerte_a_l_apparition(avant: Conditions, apres: Conditions)
    ensures
        !avant.defaut_moteur && apres.defaut_moteur ==> fronts(avant, apres).defaut_moteur,
        !apres.defaut_moteur || avant.defaut_moteur ==> !fronts(avant, apres).defaut_moteur,
        avant.niveau_ok && !apres.niveau_ok ==> fronts(avant, apres).niveau_eau,
        apres.niveau_ok || !avant.niveau_ok ==> !fronts(avant, apres).niveau_eau,
        !avant.sonde_muette && apres.sonde_muette ==> fronts(avant, apres).sonde_muette,
        !apres.sonde_muette || avant.sonde_muette ==> !fronts(avant, apres).sonde_muette,
        !avant.pompe_bloquee && apres.pompe_bloquee ==> fronts(avant, apres).claquement,
        !apres.pompe_bloquee || avant.pompe_bloquee ==> !fronts(avant, apres).claquement,
        !avant.anti_gel && apres.anti_gel ==> fronts(avant, apres).anti_gel,
        !apres.anti_gel || avant.anti_gel ==> !fronts(avant, apres).anti_gel,
        !avant.canicule && apres.canicule ==> fronts(avant, apres).canicule,
        !apres.canicule || avant.canicule ==> !fronts(avant, apres).canicule,
{
}

/// Au premier tour, chaque condition déjà anormale lève son alerte et compte une fois.
pub proof fn loi_premier_tour(c: Conditions)
    ensures
        fronts(conditions_initiales(), c).defaut_moteur == c.defaut_moteur,
        fronts(conditions_initiales(), c).niveau_eau == !c.niveau_ok,
        fronts(conditions_initiales(), c).sonde_muette == c.sonde_muette,
        fronts(conditions_initiales(), c).claquement == c.pompe_bloquee,
        fronts(conditions_initiales(), c).anti_gel == c.anti_gel,
        fronts(conditions_initiales(), c).canicule == c.canicule,
        nombre(fronts(conditions_initiales(), c)) == (if c.defaut_moteur { 1int } else { 0int })
            + (if !c.niveau_ok { 1int } else { 0int }) + (if c.sonde_muette { 1int } else { 0int })
            + (if c.pompe_bloquee { 1int } else { 0int }) + (if c.anti_gel { 1int } else { 0int })
            + (if c.canicule { 1int } else { 0int }),
{
}

/// Suivi des conditions d'un tour à l'autre et compteur d'alertes du jour.
pub struct SuiviAlertes {
    precedentes: Conditions,
    alertes_jour: u32,
}

/// État logique du suivi.
pub struct EtatAlertes {
    pub precedentes: Conditions,
    pub alertes_jour: u32,
}

impl View for SuiviAlertes {
    type V = EtatAlertes;

    closed spec fn view(&self) -> EtatAlertes {
        EtatAlertes { precedentes: self.precedentes, alertes_jour: self.alertes_jour }
    }
}

impl SuiviAlertes {
    pub fn nouveau() -> (s: Self)
        ensures
            s@ == (EtatAlertes { precedentes: conditions_initiales(), alertes_jour: 0 }),
    {
        SuiviAlertes {
            precedentes: Conditions {
                niveau_ok: true,
                defaut_moteur: false,
                sonde_muette: false,
                pompe_bloquee: false,
                anti_gel: false,
                canicule: false,
            },
            alertes_jour: 0,
        }
    }

    /// Observe les conditions de ce tour ; renvoie les alertes à journaliser et les
    /// ajoute au compteur du jour (borné à `u32::MAX`).
    pub fn observer(&mut self, c: Conditions) -> (a: Alertes)
        ensures
            a == fronts(old(self)@.precedentes, c),
            final(self)@.precedentes == c,
            final(self)@.alertes_jour == (if old(self)@.alertes_jour + nombre(a) <= u32::MAX {
                old(self)@.alertes_jour + nombre(a)
            } else {
                u32::MAX as int
            }),
    {
        let p = self.precedentes;
        let a = Alertes {
            niveau_eau: !c.niveau_ok && p.niveau_ok,
            defaut_moteur: c.defaut_moteur && !p.defaut_moteur,
            sonde_muette: c.sonde_muette && !p.sonde_muette,
            claquement: c.pompe_bloquee && !p.pompe_bloquee,
            anti_gel: c.anti_gel && !p.anti_gel,
            canicule: c.canicule && !p.canicule,
        };
        let n: u32 = (if a.niveau_eau { 1u32 } else { 0 }) + (if a.defaut_moteur { 1u32 } else { 0 })
            + (if a.sonde_muette { 1u32 } else { 0 }) + (if a.claquement { 1u32 } else { 0 })
            + (if a.anti_gel { 1u32 } else { 0 }) + (if a.canicule { 1u32 } else { 0 });
        self.alertes_jour = self.alertes_jour.saturating_add(n);
        self.precedentes = c;
        a
    }

    /// Alertes comptées depuis la dernière remise à zéro.
    pub fn alertes_jour(&self) -> (n: u32)
        ensures
            n == self@.alertes_jour,
    {
        self.alertes_jour
    }

    /// Remise à zéro du compteur au changement de jour.
    pub fn reinitialiser_jour(&mut self)
        ensures
            final(self)@ == (EtatAlertes { alertes_jour: 0, ..old(self)@ }),
    {
        self.alertes_jour = 0;
    }
}

} // verus!
