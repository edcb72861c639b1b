//! Cadence des envois vers le nuage : mesures toutes les 5 minutes, et état de la
//! pompe et du mode à chaque changement, jamais plus d'un envoi d'événement toutes les
//! 16 s. Un changement survenu trop tôt n'est pas perdu : il attend, et part avec la
//! valeur la plus récente. L'envoi lui-même est fait par l'appelant.
use crate::etat_partage::Mode;
use crate::pompe::ecart;
use crate::journal::{ajouter, VIRGULE};
use vstd::prelude::*;
use vstd::string::StringSliceAdditionalSpecFns;

verus! {

pub const INTERVALLE_ENVOI_CLOUD_MS: u64 = 300_000;
pub const DELAI_MIN_EVENEMENT_MS: u64 = 16_000;

/// Événement à envoyer : nouvel état de la pompe et/ou nouveau mode, si changés.
#[derive(Clone, Copy, Debug, PartialEq, Eq, Structural)]
pub struct Evenement {
    pub pompe: Option<bool>,
    pub mode: Option<Mode>,
}

/// État logique de la cadence.
pub struct EtatEnvois {
    pub dernier_periodique: u64,
    pub dernier_evenement: Option<u64>,
    pub pompe_transition: Option<bool>,
    pub mode_transition: Option<Mode>,
    pub pompe_precedente: bool,
    pub mode_precedent: Mode,
}

/// Après avoir observé l'état de la pompe et le mode de ce tour.
pub open spec fn apres_observation(e: EtatEnvois, pompe: bool, mode: Mode) -> EtatEnvois {
    EtatEnvois {
        pompe_transition: if pompe != e.pompe_precedente { Some(pompe) } else { e.pompe_transition },
        mode_transition: if mode != e.mode_precedent { Some(mode) } else { e.mode_transition },
        pompe_precedente: pompe,
        mode_precedent: mode,
        ..e
    }
}

/// Un événement peut partir à l'instant `t`.
pub open spec fn evenement_permis(e: EtatEnvois, wifi_connecte: bool, t: u64) -> bool {
    &&& wifi_connecte
    &&& (e.pompe_transition is Some || e.mode_transition is Some)
    &&& (e.dernier_evenement is None || ecart(t, e.dernier_evenement->0) >= DELAI_MIN_EVENEMENT_MS)
}

/// Un changement de la pompe ou du mode est mis en attente avec sa valeur la plus
/// récente, et y reste tant qu'aucun événement n'est permis ; un événement n'est
/// permis qu'à `DELAI_MIN_EVENEMENT_MS` au moins du précédent.
pub proof fn loi_changement_en_attente(e: EtatEnvois, pompe: bool, mode: Mode, wifi_connecte: bool, t: u64)
    ensures
        pompe != e.pompe_precedente ==> apres_observation(e, pompe, mode).pompe_transition == Some(pompe),
        mode != e.mode_precedent ==> apres_observation(e, pompe, mode).mode_transition == Some(mode),
        evenement_permis(apres_observation(e, pompe, mode), wifi_connecte, t) ==> (e.dernier_evenement is None
            || ecart(t, e.dernier_evenement->0) >= DELAI_MIN_EVENEMENT_MS),
{
}

/// Un changement de la pompe ou du mode reste en attente, avec sa valeur la plus
/// récente, tant qu'aucun événement ne part : une observation sans changement ne
/// l'efface pas ; l'observation devient la référence des suivantes.
pub proof fn loi_attente_conservee(e: EtatEnvois, pompe: bool, mode: Mode)
    ensures
        pompe == e.pompe_precedente ==> apres_observation(e, pompe, mode).pompe_transition == e.pompe_transition,
        mode == e.mode_precedent ==> apres_observation(e, pompe, mode).mode_transition == e.mode_transition,
        pompe != e.pompe_precedente ==> apres_observation(e, pompe, mode).pompe_transition == Some(pompe),
        mode != e.mode_precedent ==> apres_observation(e, pompe, mode).mode_transition == Some(mode),
        apres_observation(e, pompe, mode).pompe_precedente == pompe,
        apres_observation(e, pompe, mode).mode_precedent == mode,
        apres_observation(e, pompe, mode).dernier_evenement == e.dernier_evenement,
        apres_observation(e, pompe, mode).dernier_periodique == e.dernier_periodique,
{
}

/// Un changement observé n'est pas perdu par des observations sans changement : après
/// un changement de la pompe puis une observation identique, il est toujours en attente.
pub proof fn loi_changement_non_perdu(e: EtatEnvois, pompe: bool, mode: Mode, mode2: Mode)
    requires
        pompe != e.pompe_precedente,
    ensures
        apres_observation(apres_observation(e, pompe, mode), pompe, mode2).pompe_transition == Some(pompe),
{
}

/// Cadence des envois.
pub struct PlanEnvois {
    dernier_periodique: u64,
    dernier_evenement: Option<u64>,
    pompe_transition: Option<bool>,
    mode_transition: Option<Mode>,
    pompe_precedente: bool,
    mode_precedent: Mode,
}

impl View for PlanEnvois {
    type V = EtatEnvois;

    closed spec fn view(&self) -> EtatEnvois {
        EtatEnvois {
            dernier_periodique: self.dernier_periodique,
            dernier_evenement: self.dernier_evenement,
            pompe_transition: self.pompe_transition,
            mode_transition: self.mode_transition,
            pompe_precedente: self.pompe_precedente,
            mode_precedent: self.mode_precedent,
        }
    }
}

impl PlanEnvois {
    /// Au démarrage (`maintenant_ms`) : premier envoi périodique dans 5 minutes, un
    /// événement peut partir tout de suite ; pompe arrêtée et mode ARRÊT.
    pub fn nouveau(maintenant_ms: u64) -> (p: Self)
        ensures
            p@ == (EtatEnvois {
                dernier_periodique: maintenant_ms,
                dernier_evenement: None,
                pompe_transition: None,
                mode_transition: None,
                pompe_precedente: false,
                mode_precedent: Mode::Off,
            }),
    {
        PlanEnvois {
            dernier_periodique: maintenant_ms,
            dernier_evenement: None,
            pompe_transition: None,
            mode_transition: None,
            pompe_precedente: false,
            mode_precedent: Mode::Off,
        }
    }

    /// Observe l'état de la pompe et le mode de ce tour ; un changement est mis en attente.
    pub fn observer(&mut self, pompe: bool, mode: Mode)
        ensures
            final(self)@ == apres_observation(old(self)@, pompe, mode),
    {
        if pompe != self.pompe_precedente {
            self.pompe_transition = Some(pompe);
        }
        if mode != self.mode_precedent {
            self.mode_transition = Some(mode);
        }
        self.pompe_precedente = pompe;
        self.mode_precedent = mode;
    }

    /// Vrai si les mesures périodiques doivent partir à l'instant `maintenant_ms`.
    pub fn envoi_periodique_a(&mut self, wifi_connecte: bool, maintenant_ms: u64) -> (envoyer: bool)
        ensures
            envoyer == (wifi_connecte && ecart(maintenant_ms, old(self)@.dernier_periodique) >= INTERVALLE_ENVOI_CLOUD_MS),
            envoyer ==> final(self)@ == (EtatEnvois { dernier_periodique: maintenant_ms, ..old(self)@ }),
            !envoyer ==> final(self)@ == old(self)@,
    {
        let ecoule = if maintenant_ms >= self.dernier_periodique { maintenant_ms - self.dernier_periodique } else { 0 };
        if wifi_connecte && ecoule >= INTERVALLE_ENVOI_CLOUD_MS {
            self.dernier_periodique = maintenant_ms;
            true
        } else {
            false
        }
    }

    /// Événement à envoyer à l'instant `maintenant_ms`, s'il y en a un en attente et que
    /// le délai minimal est écoulé ; il est alors retiré de l'attente.
    pub fn evenement_a(&mut self, wifi_connecte: bool, maintenant_ms: u64) -> (ev: Option<Evenement>)
        ensures
            evenement_permis(old(self)@, wifi_connecte, maintenant_ms) ==> ev == Some(Evenement {
                pompe: old(self)@.pompe_transition,
                mode: old(self)@.mode_transition,
            }) && final(self)@ == (EtatEnvois {
                dernier_evenement: Some(maintenant_ms),
                pompe_transition: None,
                mode_transition: None,
                ..old(self)@
            }),
            !evenement_permis(old(self)@, wifi_connecte, maintenant_ms) ==> ev is None && final(self)@ == old(self)@,
    {
        let delai_ok = match self.dernier_evenement {
            None => true,
            Some(d) => (if maintenant_ms >= d { maintenant_ms - d } else { 0 }) >= DELAI_MIN_EVENEMENT_MS,
        };
        if wifi_connecte && (self.pompe_transition.is_some() || self.mode_transition.is_some()) && delai_ok {
            let ev = Evenement { pompe: self.pompe_transition, mode: self.mode_transition };
            self.pompe_transition = None;
            self.mode_transition = None;
            self.dernier_evenement = Some(maintenant_ms);
            Some(ev)
        } else {
            None
        }
    }
}


/// Une mesure du groupe au format JSON : `{"key":"<clé>","value":"<valeur>"}`.
pub open spec fn texte_feed(cle: Seq<u8>, valeur: Seq<u8>) -> Seq<u8> {
    "{\"key\":\"".spec_bytes() + cle + "\",\"value\":\"".spec_bytes() + valeur + "\"}".spec_bytes()
}

/// Les mesures, dans l'ordre, séparées par des virgules.
pub open spec fn texte_feeds(f: Seq<(Seq<u8>, Seq<u8>)>) -> Seq<u8>
    decreases f.len(),
{
    if f.len() == 0 {
        Seq::empty()
    } else if f.len() == 1 {
        texte_feed(f[0].0, f[0].1)
    } else {
        texte_feeds(f.drop_last()) + seq![VIRGULE] + texte_feed(f.last().0, f.last().1)
    }
}

/// Corps d'un envoi groupé : `{"feeds":[...]}`.
pub open spec fn texte_corps_groupe(f: Seq<(Seq<u8>, Seq<u8>)>) -> Seq<u8> {
    "{\"feeds\":[".spec_bytes() + texte_feeds(f) + "]}".spec_bytes()
}

/// Les paires (clé, valeur) vues comme suites d'octets.
pub open spec fn vue_feeds(feeds: Seq<(&[u8], &[u8])>) -> Seq<(Seq<u8>, Seq<u8>)> {
    feeds.map_values(|p: (&[u8], &[u8])| (p.0@, p.1@))
}

/// Corps JSON d'un envoi groupé de mesures (clé du flux, valeur), dans l'ordre donné.
pub fn corps_groupe(feeds: &[(&[u8], &[u8])]) -> (t: Vec<u8>)
    ensures
        t@ == texte_corps_groupe(vue_feeds(feeds@)),
{
    let ghost vue = vue_feeds(feeds@);
    let mut t: Vec<u8> = Vec::new();
    ajouter(&mut t, "{\"feeds\":[".as_bytes());
    let ghost debut = t@;
    let mut i: usize = 0;
    while i < feeds.len()
        invariant
            i <= feeds@.len(),
            vue == vue_feeds(feeds@),
            vue.len() == feeds@.len(),
            debut == "{\"feeds\":[".spec_bytes(),
            t@ == debut + texte_feeds(vue.take(i as int)),
        decreases feeds@.len() - i,
    {
        let (cle, valeur) = feeds[i];
        if i > 0 {
            t.push(VIRGULE);
        }
        ajouter(&mut t, "{\"key\":\"".as_bytes());
        ajouter(&mut t, cle);
        ajouter(&mut t, "\",\"value\":\"".as_bytes());
        ajouter(&mut t, valeur);
        ajouter(&mut t, "\"}".as_bytes());
        proof {
            let suite = vue.take(i + 1);
            assert(suite.drop_last() =~= vue.take(i as int));
            assert(suite.last() == vue[i as int]);
            assert(vue[i as int] == (cle@, valeur@));
            if i == 0 {
                assert(vue.take(0) =~= Seq::<(Seq<u8>, Seq<u8>)>::empty());
            }
            assert(t@ =~= debut + texte_feeds(suite));
        }
        i = i + 1;
    }
    assert(vue.take(i as int) =~= vue);
    ajouter(&mut t, "]}".as_bytes());
    assert(t@ =~= texte_corps_groupe(vue));
    t
}

} // verus!
