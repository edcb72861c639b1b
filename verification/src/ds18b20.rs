//! Sonde de température de l'eau (DS18B20, bus 1-Wire) : cadence non bloquante des
//! mesures, conservation de la dernière valeur valide, relance du bus après des
//! échecs répétés, détection d'une sonde muette.
//!
//! Les transactions 1-Wire sont faites par l'appelant, qui suit les demandes de
//! `etape` et rapporte leurs résultats. Les températures sont en seizièmes de degré.
use crate::horloge::Horloge;
use crate::pompe::ecart;
use vstd::prelude::*;

verus! {

/// Durée de conversion en résolution 12 bits, en millisecondes.
pub const DUREE_CONVERSION_MS: u64 = 750;
/// Intervalle entre deux mesures, en millisecondes.
pub const INTERVALLE_LECTURE_MS: u64 = 10_000;
/// Échecs consécutifs avant d'oublier l'adresse du capteur et de relancer le bus.
pub const ECHECS_AVANT_REDECOUVERTE: u32 = 5;
/// Sans lecture valide depuis 5 minutes, la sonde est signalée muette.
pub const DELAI_SONDE_MUETTE_MS: u64 = 300_000;

/// Phase du cycle de mesure.
#[derive(Clone, Copy, Debug, PartialEq, Eq, Structural)]
pub enum Phase {
    /// En attente de la prochaine mesure ; `None` : une mesure est due tout de suite.
    Repos { depuis: Option<u64> },
    /// Conversion demandée au capteur à l'instant `debut`.
    Conversion { debut: u64 },
}

/// Transaction 1-Wire que l'appelant doit faire à ce tour.
#[derive(Clone, Copy, Debug, PartialEq, Eq, Structural)]
pub enum Demande {
    Rien,
    /// Déclencher une conversion (SKIP ROM), puis appeler `declenchement`.
    Declencher,
    /// Lire le résultat de la conversion, puis appeler `lecture`.
    Lire,
}

/// État logique de la sonde.
pub struct EtatSonde {
    pub phase: Phase,
    pub derniere_temperature: Option<i32>,
    pub derniere_lecture_ok: Option<u64>,
    pub depuis_creation: u64,
    pub echecs_consecutifs: u32,
}

/// Transaction due à l'instant `t`.
pub open spec fn demande_a(e: EtatSonde, t: u64) -> Demande {
    match e.phase {
        Phase::Repos { depuis } => match depuis {
            None => Demande::Declencher,
            Some(d) => if ecart(t, d) >= INTERVALLE_LECTURE_MS { Demande::Declencher } else { Demande::Rien },
        },
        Phase::Conversion { debut } => if ecart(t, debut) >= DUREE_CONVERSION_MS { Demande::Lire } else { Demande::Rien },
    }
}

/// Compte un échec : au `ECHECS_AVANT_REDECOUVERTE`-ième consécutif, le compteur
/// repart à zéro et la relance du bus est demandée (second élément).
pub open spec fn apres_echec(e: EtatSonde) -> (EtatSonde, bool) {
    let n = e.echecs_consecutifs + 1;
    if n < ECHECS_AVANT_REDECOUVERTE {
        (EtatSonde { echecs_consecutifs: n as u32, ..e }, false)
    } else {
        (EtatSonde { echecs_consecutifs: 0, ..e }, true)
    }
}

/// Après le déclenchement d'une conversion à l'instant `t` (`ok` : réussi).
pub open spec fn apres_declenchement(e: EtatSonde, ok: bool, t: u64) -> (EtatSonde, bool) {
    if ok {
        (EtatSonde { phase: Phase::Conversion { debut: t }, ..e }, false)
    } else {
        let (e1, relancer) = apres_echec(e);
        (EtatSonde { phase: Phase::Repos { depuis: Some(t) }, ..e1 }, relancer)
    }
}

/// Après la lecture du résultat à l'instant `t` (`mesure` : `None` en cas d'échec).
pub open spec fn apres_lecture(e: EtatSonde, mesure: Option<i32>, t: u64) -> (EtatSonde, bool) {
    let (e1, relancer) = match mesure {
        Some(v) => (EtatSonde { derniere_temperature: Some(v), derniere_lecture_ok: Some(t), echecs_consecutifs: 0, ..e }, false),
        None => apres_echec(e),
    };
    (EtatSonde { phase: Phase::Repos { depuis: Some(t) }, ..e1 }, relancer)
}

/// Sonde muette à l'instant `t` : aucune lecture valide depuis 5 minutes (comptées
/// depuis le démarrage tant qu'aucune n'a réussi).
pub open spec fn muette_a(e: EtatSonde, t: u64) -> bool {
    let reference = match e.derniere_lecture_ok {
        Some(r) => r,
        None => e.depuis_creation,
    };
    ecart(t, reference) >= DELAI_SONDE_MUETTE_MS
}

/// Un échec de lecture conserve la dernière température valide.
pub proof fn loi_valeur_conservee(e: EtatSonde, t: u64)
    ensures
        apres_lecture(e, None, t).0.derniere_temperature == e.derniere_temperature,
        apres_declenchement(e, false, t).0.derniere_temperature == e.derniere_temperature,
{
}

/// Le bus n'est relancé qu'après `ECHECS_AVANT_REDECOUVERTE` échecs consécutifs.
pub proof fn loi_relance_apres_echecs(e: EtatSonde, ok: bool, mesure: Option<i32>, t: u64)
    requires
        e.echecs_consecutifs < ECHECS_AVANT_REDECOUVERTE,
    ensures
        apres_declenchement(e, ok, t).1 ==> e.echecs_consecutifs + 1 == ECHECS_AVANT_REDECOUVERTE,
        apres_lecture(e, mesure, t).1 ==> e.echecs_consecutifs + 1 == ECHECS_AVANT_REDECOUVERTE,
        apres_declenchement(e, ok, t).0.echecs_consecutifs < ECHECS_AVANT_REDECOUVERTE,
        apres_lecture(e, mesure, t).0.echecs_consecutifs < ECHECS_AVANT_REDECOUVERTE,
{
}

/// Résultat d'une transaction 1-Wire rapporté à la sonde.
#[derive(Clone, Copy, Debug, PartialEq, Eq, Structural)]
pub enum Rapport {
    /// Déclenchement d'une conversion, réussi ou non.
    Declenchement { ok: bool },
    /// Lecture du résultat : la température, ou `None` en cas d'échec.
    Lecture { mesure: Option<i32> },
}

/// État après un rapport reçu à l'instant `t`.
pub open spec fn apres_rapport(e: EtatSonde, r: Rapport, t: u64) -> EtatSonde {
    match r {
        Rapport::Declenchement { ok } => apres_declenchement(e, ok, t).0,
        Rapport::Lecture { mesure } => apres_lecture(e, mesure, t).0,
    }
}

/// État après une suite de rapports (chacun avec son instant), en partant de `e`.
pub open spec fn etat_apres_rapports(e: EtatSonde, rapports: Seq<(Rapport, u64)>) -> EtatSonde
    decreases rapports.len(),
{
    if rapports.len() == 0 {
        e
    } else {
        apres_rapport(etat_apres_rapports(e, rapports.drop_last()), rapports.last().0, rapports.last().1)
    }
}

/// Température apportée par un rapport : celle d'une lecture réussie, sinon aucune.
pub open spec fn lecture_reussie(r: Rapport) -> Option<i32> {
    match r {
        Rapport::Lecture { mesure } => mesure,
        Rapport::Declenchement { .. } => None,
    }
}

/// La dernière température valide est celle de la dernière lecture réussie : les
/// déclenchements et les lectures en échec qui la suivent ne l'effacent ni ne la
/// modifient.
pub proof fn loi_derniere_lecture_reussie(e: EtatSonde, rapports: Seq<(Rapport, u64)>, i: int)
    requires
        0 <= i < rapports.len(),
        lecture_reussie(rapports[i].0) is Some,
        forall|k: int| i < k < rapports.len() ==> (#[trigger] lecture_reussie(rapports[k].0)) is None,
    ensures
        etat_apres_rapports(e, rapports).derniere_temperature == lecture_reussie(rapports[i].0),
    decreases rapports.len(),
{
    let n = rapports.len() - 1;
    if i < n {
        let debut = rapports.drop_last();
        assert forall|k: int| i < k < debut.len() implies (#[trigger] lecture_reussie(debut[k].0)) is None by {
            assert(debut[k] == rapports[k]);
        }
        loi_derniere_lecture_reussie(e, debut, i);
        assert(lecture_reussie(rapports[n].0) is None);
    }
}

/// Tant qu'aucune lecture n'a réussi, la température connue reste celle du départ.
pub proof fn loi_sans_lecture_reussie(e: EtatSonde, rapports: Seq<(Rapport, u64)>)
    requires
        forall|k: int| 0 <= k < rapports.len() ==> (#[trigger] lecture_reussie(rapports[k].0)) is None,
    ensures
        etat_apres_rapports(e, rapports).derniere_temperature == e.derniere_temperature,
    decreases rapports.len(),
{
    if rapports.len() > 0 {
        let debut = rapports.drop_last();
        assert forall|k: int| 0 <= k < debut.len() implies (#[trigger] lecture_reussie(debut[k].0)) is None by {
            assert(debut[k] == rapports[k]);
        }
        loi_sans_lecture_reussie(e, debut);
        assert(lecture_reussie(rapports[rapports.len() - 1].0) is None);
    }
}

/// Sonde de température de l'eau.
pub struct SondeEau {
    phase: Phase,
    derniere_temperature: Option<i32>,
    derniere_lecture_ok: Option<u64>,
    depuis_creation: u64,
    echecs_consecutifs: u32,
    horloge: Horloge,
}

impl View for SondeEau {
    type V = EtatSonde;

    closed spec fn view(&self) -> EtatSonde {
        EtatSonde {
            phase: self.phase,
            derniere_temperature: self.derniere_temperature,
            derniere_lecture_ok: self.derniere_lecture_ok,
            depuis_creation: self.depuis_creation,
            echecs_consecutifs: self.echecs_consecutifs,
        }
    }
}

impl SondeEau {
    #[verifier::type_invariant]
    closed spec fn echecs_sous_seuil(self) -> bool {
        self.echecs_consecutifs < ECHECS_AVANT_REDECOUVERTE
    }

    /// Une mesure est due dès le premier tour.
    pub fn nouveau() -> (s: Self)
        ensures
            s@.phase == (Phase::Repos { depuis: None }),
            s@.derniere_temperature is None,
            s@.derniere_lecture_ok is None,
            s@.echecs_consecutifs == 0,
    {
        let horloge = Horloge::demarrer();
        let depuis_creation = horloge.millisecondes();
        SondeEau {
            phase: Phase::Repos { depuis: None },
            derniere_temperature: None,
            derniere_lecture_ok: None,
            depuis_creation,
            echecs_consecutifs: 0,
            horloge,
        }
    }

    /// Lit l'horloge de la sonde.
    pub fn maintenant_ms(&self) -> u64 {
        self.horloge.millisecondes()
    }

    /// Transaction 1-Wire à faire à l'instant `maintenant_ms`.
    pub fn etape_a(&self, maintenant_ms: u64) -> (d: Demande)
        ensures
            d == demande_a(self@, maintenant_ms),
    {
        match self.phase {
            Phase::Repos { depuis } => match depuis {
                None => Demande::Declencher,
                Some(d) => if (if maintenant_ms >= d { maintenant_ms - d } else { 0 }) >= INTERVALLE_LECTURE_MS {
                    Demande::Declencher
                } else {
                    Demande::Rien
                },
            },
            Phase::Conversion { debut } => if (if maintenant_ms >= debut { maintenant_ms - debut } else { 0 }) >= DUREE_CONVERSION_MS {
                Demande::Lire
            } else {
                Demande::Rien
            },
        }
    }

    fn signaler_echec(&mut self) -> (relancer: bool)
        ensures
            (final(self)@, relancer) == apres_echec(old(self)@),
    {
        proof { use_type_invariant(&*self); }
        if self.echecs_consecutifs + 1 < ECHECS_AVANT_REDECOUVERTE {
            self.echecs_consecutifs = self.echecs_consecutifs + 1;
            return false;
        }
        self.echecs_consecutifs = 0;
        true
    }

    /// Résultat du déclenchement d'une conversion à l'instant `maintenant_ms`.
    /// Renvoie `true` si l'appelant doit oublier l'adresse du capteur et relancer le bus.
    pub fn declenchement_a(&mut self, ok: bool, maintenant_ms: u64) -> (relancer: bool)
        ensures
            (final(self)@, relancer) == apres_declenchement(old(self)@, ok, maintenant_ms),
    {
        proof { use_type_invariant(&*self); }
        if ok {
            self.phase = Phase::Conversion { debut: maintenant_ms };
            false
        } else {
            let relancer = self.signaler_echec();
            self.phase = Phase::Repos { depuis: Some(maintenant_ms) };
            relancer
        }
    }

    /// Résultat de la lecture à l'instant `maintenant_ms` (`None` : échec). Renvoie
    /// `true` si l'appelant doit oublier l'adresse du capteur et relancer le bus.
    pub fn lecture_a(&mut self, mesure: Option<i32>, maintenant_ms: u64) -> (relancer: bool)
        ensures
            (final(self)@, relancer) == apres_lecture(old(self)@, mesure, maintenant_ms),
    {
        proof { use_type_invariant(&*self); }
        let relancer = match mesure {
            Some(v) => {
                self.derniere_temperature = Some(v);
                self.derniere_lecture_ok = Some(maintenant_ms);
                self.echecs_consecutifs = 0;
                false
            },
            None => self.signaler_echec(),
        };
        self.phase = Phase::Repos { depuis: Some(maintenant_ms) };
        relancer
    }

    /// Dernière température valide, en seizièmes de degré.
    pub fn derniere_temperature(&self) -> (t: Option<i32>)
        ensures
            t == self@.derniere_temperature,
    {
        self.derniere_temperature
    }

    /// Vrai si aucune lecture valide n'a abouti depuis 5 minutes à `maintenant_ms`.
    pub fn muette_a(&self, maintenant_ms: u64) -> (r: bool)
        ensures
            r == muette_a(self@, maintenant_ms),
    {
        let reference = match self.derniere_lecture_ok {
            Some(r) => r,
            None => self.depuis_creation,
        };
        (if maintenant_ms >= reference { maintenant_ms - reference } else { 0 }) >= DELAI_SONDE_MUETTE_MS
    }

    /// Vrai si aucune lecture valide n'a abouti depuis 5 minutes.
    pub fn muette(&self) -> (r: bool)
        ensures
            exists|t: u64| r == muette_a(self@, t),
    {
        let t = self.horloge.millisecondes();
        self.muette_a(t)
    }

    /// Secondes écoulées à `maintenant_ms` depuis la dernière lecture valide.
    pub fn secondes_depuis_lecture_a(&self, maintenant_ms: u64) -> (r: Option<u32>)
        ensures
            r == (match self@.derniere_lecture_ok {
                Some(l) => Some(((ecart(maintenant_ms, l) / 1000) % 0x1_0000_0000) as u32),
                None => None,
            }),
    {
        match self.derniere_lecture_ok {
            Some(l) => Some((((if maintenant_ms >= l { maintenant_ms - l } else { 0 }) / 1000) % 0x1_0000_0000) as u32),
            None => None,
        }
    }

    /// Secondes écoulées depuis la dernière lecture valide (`None` si jamais aucune).
    pub fn secondes_depuis_lecture(&self) -> (r: Option<u32>)
        ensures
            r is Some <==> self@.derniere_lecture_ok is Some,
    {
        let t = self.horloge.millisecondes();
        self.secondes_depuis_lecture_a(t)
    }
}

} // verus!
