//! Heures de filtration cibles selon la température de l'eau, et plage horaire à
//! respecter. Formule T/2 (+1 h si l'eau atteint 24 °C), arrondie à la demi-heure,
//! avec trois régimes à hystérésis (anti-gel, canicule, hiver) pour éviter les
//! oscillations aux seuils.
//!
//! Les températures sont en seizièmes de degré Celsius (la résolution native de la
//! sonde DS18B20), les durées en demi-heures, les heures du jour en minutes depuis
//! minuit.
use vstd::prelude::*;

verus! {

/// Entrée en anti-gel : eau sous 4 °C.
pub const ANTIGEL_ENTREE: i32 = 64;
/// Sortie d'anti-gel : eau au-dessus de 5 °C.
pub const ANTIGEL_SORTIE: i32 = 80;
/// Entrée en canicule : eau au-dessus de 28,5 °C.
pub const CANICULE_ENTREE: i32 = 456;
/// Sortie de canicule : eau sous 27,5 °C.
pub const CANICULE_SORTIE: i32 = 440;
/// Sortie d'hiver : eau au-dessus de 10,5 °C.
pub const HIVER_SORTIE: i32 = 168;
/// Entrée en hiver : eau sous 9,5 °C.
pub const HIVER_ENTREE: i32 = 152;
/// À partir de 24 °C, une heure de filtration en plus.
pub const EAU_CHAUDE: i32 = 384;

/// 24 h, en demi-heures.
pub const JOURNEE_COMPLETE: u32 = 48;
/// 2 h fixes en hiver, en demi-heures.
pub const DUREE_HIVER: u32 = 4;

pub const DEBUT_DEFAUT_MIN: u32 = 480;
pub const FIN_DEFAUT_MIN: u32 = 1200;
/// Plage du régime hiver : 10 h - 16 h.
pub const DEBUT_HIVER_MIN: u32 = 600;
pub const FIN_HIVER_MIN: u32 = 960;
/// Plage continue (anti-gel, canicule).
pub const MINUTES_PAR_JOUR: u32 = 1440;
/// Début de plage configurable au plus tard à 23 h 30.
pub const DEBUT_MAX_MIN: u32 = 1410;
/// Fin de plage configurable au plus tôt à 0 h 30.
pub const FIN_MIN_MIN: u32 = 30;

/// Régimes actifs et plage horaire configurée.
pub struct EtatFiltration {
    pub mode_hiver: bool,
    pub mode_canicule: bool,
    pub mode_antigel: bool,
    pub debut_configure_min: u32,
    pub fin_configuree_min: u32,
}

/// Demi-heures cibles du régime normal : température arrondie au degré le plus
/// proche (demi vers le haut), plus deux demi-heures si l'eau est chaude.
pub open spec fn demi_heures_normal(t: i32) -> int {
    (t + 8) / 16 + if t >= EAU_CHAUDE { 2int } else { 0int }
}

/// Mise à jour des régimes pour la température `t`, et demi-heures cibles du jour.
pub open spec fn etape_filtration(e: EtatFiltration, t: i32) -> (EtatFiltration, u32) {
    let antigel = if !e.mode_antigel && t < ANTIGEL_ENTREE {
        true
    } else if e.mode_antigel && t > ANTIGEL_SORTIE {
        false
    } else {
        e.mode_antigel
    };
    let e1 = EtatFiltration { mode_antigel: antigel, ..e };
    if antigel {
        (e1, JOURNEE_COMPLETE)
    } else {
        let canicule = if !e.mode_canicule && t > CANICULE_ENTREE {
            true
        } else if e.mode_canicule && t < CANICULE_SORTIE {
            false
        } else {
            e.mode_canicule
        };
        let e2 = EtatFiltration { mode_canicule: canicule, ..e1 };
        if canicule {
            (e2, JOURNEE_COMPLETE)
        } else {
            let hiver = if e.mode_hiver && t > HIVER_SORTIE {
                false
            } else if !e.mode_hiver && t < HIVER_ENTREE {
                true
            } else {
                e.mode_hiver
            };
            let e3 = EtatFiltration { mode_hiver: hiver, ..e2 };
            if hiver {
                (e3, DUREE_HIVER)
            } else {
                (e3, demi_heures_normal(t) as u32)
            }
        }
    }
}

/// Plage horaire effective (début, fin) en minutes, selon le régime actif.
pub open spec fn plage_effective(e: EtatFiltration) -> (u32, u32) {
    if e.mode_antigel || e.mode_canicule {
        (0, MINUTES_PAR_JOUR)
    } else if e.mode_hiver {
        (DEBUT_HIVER_MIN, FIN_HIVER_MIN)
    } else {
        (e.debut_configure_min, e.fin_configuree_min)
    }
}

/// Plage horaire acceptée, en minutes arrondies : début au plus tard 23 h 30, fin
/// entre 0 h 30 et 24 h, début au plus tard à la fin. La demande, en heures, a un début
/// strictement avant sa fin ; deux heures proches peuvent s'arrondir à la même minute
/// (10,001 h - 10,005 h donne 600 - 600), et la plage est alors enregistrée telle quelle.
pub open spec fn plage_valide(debut_min: u32, fin_min: u32) -> bool {
    debut_min <= DEBUT_MAX_MIN && FIN_MIN_MIN <= fin_min <= MINUTES_PAR_JOUR && debut_min <= fin_min
}

/// Hystérésis anti-gel : une fois entré, l'anti-gel ne se lève qu'au-dessus de 5 °C ;
/// tant qu'il est actif, la cible est la journée complète.
pub proof fn loi_hysteresis_antigel(e: EtatFiltration, t: i32)
    ensures
        t < ANTIGEL_ENTREE ==> etape_filtration(e, t).0.mode_antigel,
        e.mode_antigel && t <= ANTIGEL_SORTIE ==> etape_filtration(e, t).0.mode_antigel,
        etape_filtration(e, t).0.mode_antigel ==> etape_filtration(e, t).1 == JOURNEE_COMPLETE,
{
}

/// Hystérésis canicule : entrée au-dessus de 28,5 °C, sortie sous 27,5 °C.
pub proof fn loi_hysteresis_canicule(e: EtatFiltration, t: i32)
    requires
        !e.mode_antigel,
        t >= ANTIGEL_ENTREE,
    ensures
        t > CANICULE_ENTREE ==> etape_filtration(e, t).0.mode_canicule,
        e.mode_canicule && t >= CANICULE_SORTIE ==> etape_filtration(e, t).0.mode_canicule,
        !e.mode_canicule && t <= CANICULE_ENTREE ==> !etape_filtration(e, t).0.mode_canicule,
        etape_filtration(e, t).0.mode_canicule ==> etape_filtration(e, t).1 == JOURNEE_COMPLETE,
{
}

/// Objectif et plage de chaque régime : anti-gel et canicule filtrent la journée
/// complète sur 24 h ; l'hiver filtre 2 h entre 10 h et 16 h ; le régime normal suit la
/// température (une demi-heure par degré, une heure de plus au-dessus de 24 °C) dans
/// la plage configurée.
pub proof fn loi_regimes(e: EtatFiltration, t: i32)
    ensures
        ({
            let (s, d) = etape_filtration(e, t);
            &&& s.mode_antigel || s.mode_canicule ==> d == JOURNEE_COMPLETE && plage_effective(s) == (0u32, MINUTES_PAR_JOUR)
            &&& !s.mode_antigel && !s.mode_canicule && s.mode_hiver ==> d == DUREE_HIVER
                && plage_effective(s) == (DEBUT_HIVER_MIN, FIN_HIVER_MIN)
            &&& !s.mode_antigel && !s.mode_canicule && !s.mode_hiver ==> d == demi_heures_normal(t)
                && plage_effective(s) == (e.debut_configure_min, e.fin_configuree_min)
        }),
{
}

/// La cible ne dépasse jamais la journée complète et n'est jamais nulle.
pub proof fn loi_cible_bornee(e: EtatFiltration, t: i32)
    ensures
        1 <= etape_filtration(e, t).1 <= JOURNEE_COMPLETE,
{
}

/// Calcul des heures de filtration cibles et de la plage horaire.
pub struct FiltrationAuto {
    mode_hiver: bool,
    mode_canicule: bool,
    mode_antigel: bool,
    debut_configure_min: u32,
    fin_configuree_min: u32,
}

impl View for FiltrationAuto {
    type V = EtatFiltration;

    closed spec fn view(&self) -> EtatFiltration {
        EtatFiltration {
            mode_hiver: self.mode_hiver,
            mode_canicule: self.mode_canicule,
            mode_antigel: self.mode_antigel,
            debut_configure_min: self.debut_configure_min,
            fin_configuree_min: self.fin_configuree_min,
        }
    }
}

impl FiltrationAuto {
    /// Démarre en régime hiver (sécurité par défaut), avec la plage horaire configurée
    /// rechargée par l'appelant.
    pub fn nouveau(debut_configure_min: u32, fin_configuree_min: u32) -> (f: Self)
        ensures
            f@ == (EtatFiltration {
                mode_hiver: true,
                mode_canicule: false,
                mode_antigel: false,
                debut_configure_min,
                fin_configuree_min,
            }),
    {
        FiltrationAuto { mode_hiver: true, mode_canicule: false, mode_antigel: false, debut_configure_min, fin_configuree_min }
    }

    /// Met à jour les régimes pour une eau à `temperature_eau` seizièmes de degré et
    /// renvoie les demi-heures de filtration cibles du jour.
    pub fn demi_heures_cibles(&mut self, temperature_eau: i32) -> (d: u32)
        ensures
            (final(self)@, d) == etape_filtration(old(self)@, temperature_eau),
    {
        let t = temperature_eau;
        // 1. Anti-gel
        if !self.mode_antigel && t < ANTIGEL_ENTREE {
            self.mode_antigel = true;
        } else if self.mode_antigel && t > ANTIGEL_SORTIE {
            self.mode_antigel = false;
        }
        if self.mode_antigel {
            return JOURNEE_COMPLETE;
        }
        // 2. Canicule
        if !self.mode_canicule && t > CANICULE_ENTREE {
            self.mode_canicule = true;
        } else if self.mode_canicule && t < CANICULE_SORTIE {
            self.mode_canicule = false;
        }
        if self.mode_canicule {
            return JOURNEE_COMPLETE;
        }
        // 3. Hiver
        if self.mode_hiver && t > HIVER_SORTIE {
            self.mode_hiver = false;
        } else if !self.mode_hiver && t < HIVER_ENTREE {
            self.mode_hiver = true;
        }
        if self.mode_hiver {
            return DUREE_HIVER;
        }
        // 4/5. Régime normal : T/2, +1 h si l'eau est chaude, à la demi-heure près.
        let bonus: i32 = if t >= EAU_CHAUDE { 2 } else { 0 };
        ((t + 8) / 16 + bonus) as u32
    }

    pub fn anti_gel_actif(&self) -> (r: bool)
        ensures
            r == self@.mode_antigel,
    {
        self.mode_antigel
    }

    pub fn canicule_actif(&self) -> (r: bool)
        ensures
            r == self@.mode_canicule,
    {
        self.mode_canicule
    }

    /// Plage horaire effective (début, fin) en minutes depuis minuit.
    pub fn plage_horaire(&self) -> (p: (u32, u32))
        ensures
            p == plage_effective(self@),
    {
        if self.mode_antigel || self.mode_canicule {
            (0, MINUTES_PAR_JOUR)
        } else if self.mode_hiver {
            (DEBUT_HIVER_MIN, FIN_HIVER_MIN)
        } else {
            self.plage_configuree()
        }
    }

    /// Plage horaire configurée pour le régime normal, indépendante du régime actif.
    pub fn plage_configuree(&self) -> (p: (u32, u32))
        ensures
            p == (self@.debut_configure_min, self@.fin_configuree_min),
    {
        (self.debut_configure_min, self.fin_configuree_min)
    }

    /// Modifie la plage horaire du régime normal. Renvoie `false` si elle est invalide :
    /// rien n'est alors modifié. La persistance est à la charge de l'appelant.
    pub fn definir_plage(&mut self, debut_min: u32, fin_min: u32) -> (ok: bool)
        ensures
            ok == plage_valide(debut_min, fin_min),
            ok ==> final(self)@ == (EtatFiltration {
                debut_configure_min: debut_min,
                fin_configuree_min: fin_min,
                ..old(self)@
            }),
            !ok ==> final(self)@ == old(self)@,
    {
        if !(debut_min <= DEBUT_MAX_MIN) || !(FIN_MIN_MIN <= fin_min && fin_min <= MINUTES_PAR_JOUR) || debut_min > fin_min {
            return false;
        }
        self.debut_configure_min = debut_min;
        self.fin_configuree_min = fin_min;
        true
    }
}

} // verus!
