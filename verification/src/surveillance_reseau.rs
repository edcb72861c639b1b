//! Chien de garde réseau : juge si la carte est réellement joignable (et pas seulement
//! associée au point d'accès), et décide de l'escalade corrective.
//!
//! Le sondage lui-même (ping de la passerelle dans un fil dédié) est fait par
//! l'application ; ce module tient la fenêtre glissante des sondages et prend les
//! décisions. Le superviseur décide, l'appelant agit.
use crate::horloge::Horloge;
use crate::pompe::ecart;
use crate::requetes::textes_egaux;
use std::collections::VecDeque;
use vstd::prelude::*;

verus! {

/// Taille de la fenêtre glissante, en nombre de sondages.
pub const TAILLE_FENETRE: usize = 10;
/// Plus grand nombre de paquets accepté pour un sondage : la somme de la fenêtre
/// tient alors dans un `u32`.
pub const PAQUETS_MAX_PAR_SONDE: u32 = 429_496_729;

/// Paquets émis par sondage.
pub const PAQUETS_PAR_SONDE: u32 = 4;

/// Stabilité exigée (ms) avant d'oublier une indisponibilité en cours.
pub const STABILITE_AVANT_OUBLI_MS: u64 = 60_000;
pub const AVANT_RECONNEXION_MS: u64 = 30_000;
pub const INTERVALLE_RECONNEXION_MS: u64 = 30_000;
pub const AVANT_RESET_PILOTE_MS: u64 = 300_000;
/// Redémarrage complet après 15 minutes d'indisponibilité (réinitialisation du
/// pilote Wi-Fi après 5 minutes).
pub const AVANT_REDEMARRAGE_MS: u64 = 900_000;

/// Résultat cumulé de la fenêtre glissante.
#[derive(Clone, Copy, Debug, PartialEq, Eq, Structural)]
pub struct Bilan {
    /// Paquets émis sur l'ensemble de la fenêtre.
    pub envoyes: u32,
    /// Paquets revenus.
    pub recus: u32,
}

/// La liaison est utilisable : taux de réussite strictement supérieur à 40 %
/// (il faut perdre plus de 60 % des paquets pour la juger inutilisable).
/// Aucun paquet émis vaut un taux nul.
pub open spec fn bilan_utilisable(b: Bilan) -> bool {
    b.envoyes > 0 && 5 * (b.recus as int) > 2 * (b.envoyes as int)
}

/// Pourcentage de perte arrondi à l'entier le plus proche (demi vers le haut),
/// nul si tout est revenu, 100 si rien n'a été émis.
pub open spec fn perte_pourcent(b: Bilan) -> u32 {
    if b.envoyes == 0 {
        100
    } else if b.recus >= b.envoyes {
        0
    } else {
        ((200 * (b.envoyes - b.recus) + b.envoyes) / (2 * b.envoyes as int)) as u32
    }
}

impl Bilan {
    /// Vrai si la liaison est jugée utilisable (taux de réussite > 40 %).
    pub fn utilisable(&self) -> (r: bool)
        ensures
            r == bilan_utilisable(*self),
    {
        self.envoyes > 0 && 5 * (self.recus as u64) > 2 * (self.envoyes as u64)
    }

    /// Pourcentage de paquets perdus, arrondi (voir `perte_pourcent`).
    pub fn perte(&self) -> (r: u32)
        ensures
            r == perte_pourcent(*self),
            r <= 100,
    {
        if self.envoyes == 0 {
            100
        } else if self.recus >= self.envoyes {
            0
        } else {
            let e = self.envoyes as u64;
            let perdus = (self.envoyes - self.recus) as u64;
            assert(200 * perdus + e <= 201 * e);
            assert((200 * perdus + e) / (2 * e) <= 100) by (nonlinear_arith)
                requires perdus <= e, e > 0;
            ((200 * perdus + e) / (2 * e)) as u32
        }
    }
}

/// Somme des paquets émis sur une suite de sondages.
pub open spec fn somme_envoyes(s: Seq<(u32, u32)>) -> int
    decreases s.len(),
{
    if s.len() == 0 { 0 } else { somme_envoyes(s.drop_last()) + s.last().0 }
}

/// Somme des paquets reçus sur une suite de sondages.
pub open spec fn somme_recus(s: Seq<(u32, u32)>) -> int
    decreases s.len(),
{
    if s.len() == 0 { 0 } else { somme_recus(s.drop_last()) + s.last().1 }
}

/// État logique de la fenêtre : sondages (émis, reçus), du plus ancien au plus
/// récent, et instant (ms) du dernier sondage réussi.
pub struct EtatFenetre {
    pub sondages: Seq<(u32, u32)>,
    pub dernier_succes: Option<u64>,
}

/// Bilan d'une fenêtre : `None` tant qu'elle n'est pas complète.
pub open spec fn bilan_fenetre(s: Seq<(u32, u32)>) -> Option<Bilan> {
    if s.len() < TAILLE_FENETRE {
        None
    } else {
        Some(Bilan { envoyes: somme_envoyes(s) as u32, recus: somme_recus(s) as u32 })
    }
}

/// Fenêtre après l'ajout d'un sondage : le plus ancien est retiré quand elle est pleine.
pub open spec fn fenetre_apres_ajout(s: Seq<(u32, u32)>, sondage: (u32, u32)) -> Seq<(u32, u32)> {
    if s.len() == TAILLE_FENETRE { s.drop_first().push(sondage) } else { s.push(sondage) }
}

proof fn lemme_somme_bornee(s: Seq<(u32, u32)>)
    requires
        forall|i: int| 0 <= i < s.len() ==> s[i].0 <= PAQUETS_MAX_PAR_SONDE && s[i].1 <= PAQUETS_MAX_PAR_SONDE,
    ensures
        0 <= somme_envoyes(s) <= s.len() * PAQUETS_MAX_PAR_SONDE,
        0 <= somme_recus(s) <= s.len() * PAQUETS_MAX_PAR_SONDE,
    decreases s.len(),
{
    if s.len() > 0 {
        lemme_somme_bornee(s.drop_last());
    }
}

/// Fenêtre glissante des derniers sondages de la passerelle.
pub struct FenetreSondage {
    fenetre: VecDeque<(u32, u32)>,
    dernier_succes: Option<u64>,
    horloge: Horloge,
}

impl View for FenetreSondage {
    type V = EtatFenetre;

    closed spec fn view(&self) -> EtatFenetre {
        EtatFenetre { sondages: self.fenetre@, dernier_succes: self.dernier_succes }
    }
}

/// Paquets (émis, reçus) comptés pour un sondage : le résumé du ping, ou, si le
/// sondage lui-même a échoué (`None`), tous ses paquets perdus.
pub open spec fn paquets_du_sondage(resultat: Option<(u32, u32)>) -> (u32, u32) {
    match resultat {
        Some(r) => r,
        None => (PAQUETS_PAR_SONDE, 0u32),
    }
}

/// Bornes tenues par toute fenêtre : au plus `TAILLE_FENETRE` sondages, chacun d'au
/// plus `PAQUETS_MAX_PAR_SONDE` paquets.
pub open spec fn fenetre_bornee(s: Seq<(u32, u32)>) -> bool {
    &&& s.len() <= TAILLE_FENETRE
    &&& forall|i: int| 0 <= i < s.len() ==> s[i].0 <= PAQUETS_MAX_PAR_SONDE && s[i].1 <= PAQUETS_MAX_PAR_SONDE
}

impl FenetreSondage {
    #[verifier::type_invariant]
    closed spec fn bornee(self) -> bool {
        fenetre_bornee(self.fenetre@)
    }

    pub fn nouvelle() -> (f: Self)
        ensures
            f@.sondages.len() == 0,
            f@.dernier_succes is None,
    {
        FenetreSondage { fenetre: VecDeque::with_capacity(TAILLE_FENETRE), dernier_succes: None, horloge: Horloge::demarrer() }
    }

    /// Enregistre le résultat d'un sondage terminé à l'instant `maintenant_ms`.
    pub fn enregistrer_a(&mut self, envoyes: u32, recus: u32, maintenant_ms: u64)
        requires
            envoyes <= PAQUETS_MAX_PAR_SONDE,
            recus <= PAQUETS_MAX_PAR_SONDE,
        ensures
            final(self)@.sondages == fenetre_apres_ajout(old(self)@.sondages, (envoyes, recus)),
            final(self)@.dernier_succes == (if recus > 0 { Some(maintenant_ms) } else { old(self)@.dernier_succes }),
    {
        proof { use_type_invariant(&*self); }
        if recus > 0 {
            self.dernier_succes = Some(maintenant_ms);
        }
        let mut fenetre: VecDeque<(u32, u32)> = VecDeque::new();
        std::mem::swap(&mut fenetre, &mut self.fenetre);
        if fenetre.len() == TAILLE_FENETRE {
            let _ = fenetre.pop_front();
        }
        fenetre.push_back((envoyes, recus));
        assert(fenetre@ =~= fenetre_apres_ajout(old(self)@.sondages, (envoyes, recus)));
        self.fenetre = fenetre;
    }

    /// Enregistre le résultat d'un sondage ; l'instant est lu sur l'horloge interne.
    pub fn enregistrer(&mut self, envoyes: u32, recus: u32)
        requires
            envoyes <= PAQUETS_MAX_PAR_SONDE,
            recus <= PAQUETS_MAX_PAR_SONDE,
        ensures
            final(self)@.sondages == fenetre_apres_ajout(old(self)@.sondages, (envoyes, recus)),
            recus > 0 ==> final(self)@.dernier_succes is Some,
            recus == 0 ==> final(self)@.dernier_succes == old(self)@.dernier_succes,
    {
        let t = self.horloge.millisecondes();
        self.enregistrer_a(envoyes, recus, t);
    }

    /// Enregistre un sondage terminé à `maintenant_ms` : son résumé, ou `None` si le
    /// ping n'a pas pu être fait (compté comme tous les paquets perdus). Un résumé
    /// hors des bornes de paquets est ignoré ; renvoie `true` s'il a été pris en compte.
    pub fn enregistrer_sondage_a(&mut self, resultat: Option<(u32, u32)>, maintenant_ms: u64) -> (pris: bool)
        ensures
            ({
                let (envoyes, recus) = paquets_du_sondage(resultat);
                &&& pris == (envoyes <= PAQUETS_MAX_PAR_SONDE && recus <= PAQUETS_MAX_PAR_SONDE)
                &&& pris ==> final(self)@.sondages == fenetre_apres_ajout(old(self)@.sondages, (envoyes, recus))
                    && final(self)@.dernier_succes == (if recus > 0 { Some(maintenant_ms) } else { old(self)@.dernier_succes })
                &&& !pris ==> final(self)@ == old(self)@
            }),
    {
        let (envoyes, recus) = match resultat {
            Some(r) => r,
            None => (PAQUETS_PAR_SONDE, 0),
        };
        if envoyes > PAQUETS_MAX_PAR_SONDE || recus > PAQUETS_MAX_PAR_SONDE {
            return false;
        }
        self.enregistrer_a(envoyes, recus, maintenant_ms);
        true
    }

    /// Enregistre un sondage terminé (voir `enregistrer_sondage_a`) ; l'instant est lu
    /// sur l'horloge interne.
    pub fn enregistrer_sondage(&mut self, resultat: Option<(u32, u32)>) -> (pris: bool)
        ensures
            ({
                let (envoyes, recus) = paquets_du_sondage(resultat);
                &&& pris == (envoyes <= PAQUETS_MAX_PAR_SONDE && recus <= PAQUETS_MAX_PAR_SONDE)
                &&& pris ==> final(self)@.sondages == fenetre_apres_ajout(old(self)@.sondages, (envoyes, recus))
                    && (recus > 0 ==> final(self)@.dernier_succes is Some)
                    && (recus == 0 ==> final(self)@.dernier_succes == old(self)@.dernier_succes)
                &&& !pris ==> final(self)@ == old(self)@
            }),
    {
        let t = self.horloge.millisecondes();
        self.enregistrer_sondage_a(resultat, t)
    }

    /// Millisecondes écoulées à `maintenant_ms` depuis le dernier sondage réussi ;
    /// `None` si aucun n'a jamais abouti.
    pub fn depuis_dernier_succes_a(&self, maintenant_ms: u64) -> (r: Option<u64>)
        ensures
            r == (match self@.dernier_succes {
                Some(d) => Some(ecart(maintenant_ms, d)),
                None => None,
            }),
    {
        match self.dernier_succes {
            Some(d) => Some(if maintenant_ms >= d { maintenant_ms - d } else { 0 }),
            None => None,
        }
    }

    /// Millisecondes écoulées depuis le dernier sondage réussi ; `None` signifie
    /// qu'aucun sondage n'a jamais abouti depuis le démarrage.
    pub fn depuis_dernier_succes(&self) -> (r: Option<u64>)
        ensures
            r is Some <==> self@.dernier_succes is Some,
    {
        let t = self.horloge.millisecondes();
        self.depuis_dernier_succes_a(t)
    }

    /// Bilan de la fenêtre, ou `None` tant qu'elle n'est pas complète.
    pub fn bilan(&self) -> (r: Option<Bilan>)
        ensures
            r == bilan_fenetre(self@.sondages),
    {
        proof { use_type_invariant(self); }
        if self.fenetre.len() < TAILLE_FENETRE {
            return None;
        }
        let mut envoyes: u32 = 0;
        let mut recus: u32 = 0;
        let mut i: usize = 0;
        while i < self.fenetre.len()
            invariant
                fenetre_bornee(self.fenetre@),
                i <= self.fenetre@.len(),
                envoyes == somme_envoyes(self.fenetre@.take(i as int)),
                recus == somme_recus(self.fenetre@.take(i as int)),
            decreases self.fenetre@.len() - i,
        {
            let ghost s = self.fenetre@;
            assert(s.take(i + 1).drop_last() =~= s.take(i as int));
            proof {
                lemme_somme_bornee(s.take(i + 1));
            }
            let (e, r) = self.fenetre[i];
            envoyes = envoyes + e;
            recus = recus + r;
            i = i + 1;
        }
        assert(self.fenetre@.take(i as int) =~= self.fenetre@);
        Some(Bilan { envoyes, recus })
    }

    /// Vide la fenêtre, après une action corrective ou au retour de l'association :
    /// l'historique d'avant ne doit plus peser sur le verdict.
    pub fn reinitialiser_fenetre(&mut self)
        ensures
            final(self)@.sondages == Seq::<(u32, u32)>::empty(),
            final(self)@.dernier_succes == old(self)@.dernier_succes,
    {
        proof { use_type_invariant(&*self); }
        self.fenetre = VecDeque::new();
        assert(self.fenetre@ =~= Seq::<(u32, u32)>::empty());
    }
}


/// Ce que la boucle principale doit faire.
#[derive(Clone, Copy, Debug, PartialEq, Eq, Structural)]
pub enum Action {
    Rien,
    /// Tentative douce de reconnexion, répétée tant que ça ne revient pas.
    Reconnecter { minutes: u64 },
    /// Arrêt/relance du pilote Wi-Fi : une seule fois par épisode.
    ReinitialiserPilote { minutes: u64, perte: u32 },
    /// Dernier recours : redémarrage complet.
    Redemarrer { minutes: u64, perte: u32 },
}

/// État logique du superviseur.
pub struct EtatSuperviseur {
    pub inutilisable_depuis: Option<u64>,
    pub utilisable_depuis: Option<u64>,
    pub derniere_reconnexion: Option<u64>,
    pub pilote_deja_reinitialise: bool,
    pub etait_connecte: bool,
}

/// La fenêtre de la sonde est vidée à ce tour : retour de l'association.
pub open spec fn vidage_fenetre(e: EtatSuperviseur, wifi_connecte: bool, sonde: Option<EtatFenetre>) -> bool {
    wifi_connecte && !e.etait_connecte && sonde is Some
}

/// Verdict d'utilisabilité et pourcentage de perte à ce tour.
pub open spec fn verdict_utilisable(
    e: EtatSuperviseur,
    wifi_connecte: bool,
    sonde: Option<EtatFenetre>,
) -> (bool, u32) {
    if !wifi_connecte {
        (false, 100)
    } else {
        match sonde {
            None => (true, 0),
            Some(f) => {
                let bilan = if vidage_fenetre(e, wifi_connecte, sonde) { None } else { bilan_fenetre(f.sondages) };
                match bilan {
                    None => (true, 0),
                    Some(b) => (bilan_utilisable(b), perte_pourcent(b)),
                }
            }
        }
    }
}

/// Un tour d'évaluation à l'instant `t` : nouvel état et action demandée.
pub open spec fn etape_superviseur(
    e: EtatSuperviseur,
    wifi_connecte: bool,
    sonde: Option<EtatFenetre>,
    t: u64,
) -> (EtatSuperviseur, Action) {
    let (utilisable, perte) = verdict_utilisable(e, wifi_connecte, sonde);
    let e1 = EtatSuperviseur { etait_connecte: wifi_connecte, ..e };
    if utilisable {
        let stable = match e1.utilisable_depuis {
            Some(s) => s,
            None => t,
        };
        let e2 = EtatSuperviseur { utilisable_depuis: Some(stable), ..e1 };
        if ecart(t, stable) >= STABILITE_AVANT_OUBLI_MS {
            (
                EtatSuperviseur {
                    inutilisable_depuis: None,
                    derniere_reconnexion: None,
                    pilote_deja_reinitialise: false,
                    ..e2
                },
                Action::Rien,
            )
        } else {
            (e2, Action::Rien)
        }
    } else {
        let e2 = EtatSuperviseur { utilisable_depuis: None, ..e1 };
        if sonde is None || sonde->0.dernier_succes is None {
            (e2, Action::Rien)
        } else {
            let depuis = match e2.inutilisable_depuis {
                Some(d) => d,
                None => t,
            };
            let e3 = EtatSuperviseur { inutilisable_depuis: Some(depuis), ..e2 };
            let duree = ecart(t, depuis);
            let minutes = duree / 60_000;
            if duree >= AVANT_REDEMARRAGE_MS {
                (e3, Action::Redemarrer { minutes, perte })
            } else if duree >= AVANT_RESET_PILOTE_MS && !e3.pilote_deja_reinitialise {
                (EtatSuperviseur { pilote_deja_reinitialise: true, ..e3 }, Action::ReinitialiserPilote { minutes, perte })
            } else if duree >= AVANT_RECONNEXION_MS && (e3.derniere_reconnexion is None
                || ecart(t, e3.derniere_reconnexion->0) >= INTERVALLE_RECONNEXION_MS) {
                (EtatSuperviseur { derniere_reconnexion: Some(t), ..e3 }, Action::Reconnecter { minutes })
            } else {
                (e3, Action::Rien)
            }
        }
    }
}

/// Garde-fou : sans sonde, ou tant qu'aucun ping n'a jamais abouti, le superviseur ne
/// demande rien (une passerelle qui ignore l'ICMP ne provoque pas de redémarrages).
pub proof fn loi_garde_fou(e: EtatSuperviseur, wifi_connecte: bool, sonde: Option<EtatFenetre>, t: u64)
    requires
        sonde is None || sonde->0.dernier_succes is None,
    ensures
        etape_superviseur(e, wifi_connecte, sonde, t).1 == Action::Rien,
{
}

/// Un réseau utilisable ne provoque aucune action.
pub proof fn loi_utilisable_sans_action(e: EtatSuperviseur, wifi_connecte: bool, sonde: Option<EtatFenetre>, t: u64)
    requires
        verdict_utilisable(e, wifi_connecte, sonde).0,
    ensures
        etape_superviseur(e, wifi_connecte, sonde, t).1 == Action::Rien,
{
}

/// L'association perdue rend le réseau inutilisable immédiatement, sans attendre la fenêtre.
pub proof fn loi_association_perdue(e: EtatSuperviseur, sonde: Option<EtatFenetre>)
    ensures
        verdict_utilisable(e, false, sonde) == (false, 100u32),
{
}

/// Escalade : chaque action n'intervient qu'après la durée d'indisponibilité qui lui
/// correspond, comptée depuis le début de l'épisode.
pub proof fn loi_escalade(e: EtatSuperviseur, wifi_connecte: bool, sonde: Option<EtatFenetre>, t: u64)
    ensures
        ({
            let (s, a) = etape_superviseur(e, wifi_connecte, sonde, t);
            &&& a is Redemarrer ==> s.inutilisable_depuis is Some
                && ecart(t, s.inutilisable_depuis->0) >= AVANT_REDEMARRAGE_MS
            &&& a is ReinitialiserPilote ==> s.inutilisable_depuis is Some
                && ecart(t, s.inutilisable_depuis->0) >= AVANT_RESET_PILOTE_MS
                && ecart(t, s.inutilisable_depuis->0) < AVANT_REDEMARRAGE_MS
            &&& a is Reconnecter ==> s.inutilisable_depuis is Some
                && ecart(t, s.inutilisable_depuis->0) >= AVANT_RECONNEXION_MS
                && (e.derniere_reconnexion is None
                    || ecart(t, e.derniere_reconnexion->0) >= INTERVALLE_RECONNEXION_MS)
        }),
{
}

/// Le pilote n'est réinitialisé qu'une fois par épisode : tant que le drapeau est levé,
/// cette action n'est plus demandée, et la demander lève le drapeau.
pub proof fn loi_reinitialisation_unique(e: EtatSuperviseur, wifi_connecte: bool, sonde: Option<EtatFenetre>, t: u64)
    ensures
        e.pilote_deja_reinitialise ==> !(etape_superviseur(e, wifi_connecte, sonde, t).1 is ReinitialiserPilote),
        etape_superviseur(e, wifi_connecte, sonde, t).1 is ReinitialiserPilote
            ==> etape_superviseur(e, wifi_connecte, sonde, t).0.pilote_deja_reinitialise,
{
}

/// Le chronomètre d'indisponibilité n'est remis à zéro que si le réseau est utilisable
/// et l'est resté sans interruption depuis au moins `STABILITE_AVANT_OUBLI_MS` ;
/// aucune action corrective ne le remet à zéro.
pub proof fn loi_oubli_apres_stabilite(e: EtatSuperviseur, wifi_connecte: bool, sonde: Option<EtatFenetre>, t: u64)
    requires
        e.inutilisable_depuis is Some,
        etape_superviseur(e, wifi_connecte, sonde, t).0.inutilisable_depuis is None,
    ensures
        verdict_utilisable(e, wifi_connecte, sonde).0,
        e.utilisable_depuis is Some,
        ecart(t, e.utilisable_depuis->0) >= STABILITE_AVANT_OUBLI_MS,
{
}

/// Un retour à un réseau utilisable qui dure moins de `STABILITE_AVANT_OUBLI_MS` ne
/// touche ni au chronomètre de l'épisode, ni au drapeau de réinitialisation du
/// pilote, ni à l'instant de la dernière reconnexion.
pub proof fn loi_retour_bref(e: EtatSuperviseur, wifi_connecte: bool, sonde: Option<EtatFenetre>, t: u64)
    requires
        verdict_utilisable(e, wifi_connecte, sonde).0,
        ecart(t, match e.utilisable_depuis { Some(u) => u, None => t }) < STABILITE_AVANT_OUBLI_MS,
    ensures
        ({
            let s = etape_superviseur(e, wifi_connecte, sonde, t).0;
            &&& s.inutilisable_depuis == e.inutilisable_depuis
            &&& s.pilote_deja_reinitialise == e.pilote_deja_reinitialise
            &&& s.derniere_reconnexion == e.derniere_reconnexion
        }),
{
}

/// Au sein d'un épisode d'indisponibilité, le chronomètre garde son origine ; le
/// drapeau de réinitialisation du pilote et l'instant de la dernière reconnexion ne
/// sont effacés qu'avec l'épisode. Une reconnexion note son instant, et toute action
/// porte les minutes écoulées depuis le début de l'épisode. Les lois sur une suite de
/// tours (`loi_une_reinitialisation_par_episode`, `loi_reconnexions_espacees`) en
/// découlent.
pub proof fn loi_episode(e: EtatSuperviseur, wifi_connecte: bool, sonde: Option<EtatFenetre>, t: u64)
    ensures
        ({
            let (s, a) = etape_superviseur(e, wifi_connecte, sonde, t);
            &&& e.inutilisable_depuis is Some && s.inutilisable_depuis is Some ==> s.inutilisable_depuis == e.inutilisable_depuis
            &&& e.pilote_deja_reinitialise && !s.pilote_deja_reinitialise ==> s.inutilisable_depuis is None
            &&& e.derniere_reconnexion is Some && s.derniere_reconnexion is None ==> s.inutilisable_depuis is None
            &&& a is Reconnecter ==> s.derniere_reconnexion == Some(t)
            &&& a matches Action::Reconnecter { minutes } ==> s.inutilisable_depuis is Some
                && minutes == ecart(t, s.inutilisable_depuis->0) / 60_000
            &&& a matches Action::ReinitialiserPilote { minutes, .. } ==> s.inutilisable_depuis is Some
                && minutes == ecart(t, s.inutilisable_depuis->0) / 60_000
            &&& a matches Action::Redemarrer { minutes, .. } ==> s.inutilisable_depuis is Some
                && minutes == ecart(t, s.inutilisable_depuis->0) / 60_000
        }),
{
}

/// Un tour d'évaluation : association Wi-Fi, fenêtre de la sonde (si elle existe) et
/// instant de l'appel.
pub type Tour = (bool, Option<EtatFenetre>, u64);

/// État du superviseur après les `n` premiers tours de `tours`, en partant de `e`.
pub open spec fn etat_apres_tours(e: EtatSuperviseur, tours: Seq<Tour>, n: nat) -> EtatSuperviseur
    decreases n,
{
    if n == 0 {
        e
    } else {
        let x = tours[n - 1];
        etape_superviseur(etat_apres_tours(e, tours, (n - 1) as nat), x.0, x.1, x.2).0
    }
}

/// Action demandée au tour `i` (le premier tour a le rang 0).
pub open spec fn action_du_tour(e: EtatSuperviseur, tours: Seq<Tour>, i: nat) -> Action {
    let x = tours[i as int];
    etape_superviseur(etat_apres_tours(e, tours, i), x.0, x.1, x.2).1
}

/// Les tours forment un seul épisode d'indisponibilité : après chacun d'eux,
/// l'indisponibilité est toujours en cours (elle n'a pas été oubliée).
pub open spec fn episode_continu(e: EtatSuperviseur, tours: Seq<Tour>) -> bool {
    forall|k: nat| 1 <= k <= tours.len() ==> (#[trigger] etat_apres_tours(e, tours, k)).inutilisable_depuis is Some
}

/// Les instants des tours ne reculent pas.
pub open spec fn instants_croissants(tours: Seq<Tour>) -> bool {
    forall|a: int, b: int| 0 <= a <= b < tours.len() ==> (#[trigger] tours[a]).2 <= (#[trigger] tours[b]).2
}

/// Une fois le pilote réinitialisé au tour `i`, le drapeau reste levé tant que
/// l'épisode dure.
proof fn lemme_drapeau_leve(e: EtatSuperviseur, tours: Seq<Tour>, i: nat, k: nat)
    requires
        i < k <= tours.len(),
        episode_continu(e, tours),
        etat_apres_tours(e, tours, i + 1).pilote_deja_reinitialise,
    ensures
        etat_apres_tours(e, tours, k).pilote_deja_reinitialise,
    decreases k,
{
    if k > i + 1 {
        lemme_drapeau_leve(e, tours, i, (k - 1) as nat);
        let x = tours[k - 1];
        loi_episode(etat_apres_tours(e, tours, (k - 1) as nat), x.0, x.1, x.2);
        assert(etat_apres_tours(e, tours, k).inutilisable_depuis is Some);
    }
}

/// Au sein d'un épisode d'indisponibilité, le pilote Wi-Fi est réinitialisé au plus
/// une fois : deux tours distincts ne demandent pas tous deux une réinitialisation.
pub proof fn loi_une_reinitialisation_par_episode(e: EtatSuperviseur, tours: Seq<Tour>, i: nat, j: nat)
    requires
        episode_continu(e, tours),
        i < j < tours.len(),
    ensures
        !(action_du_tour(e, tours, i) is ReinitialiserPilote && action_du_tour(e, tours, j) is ReinitialiserPilote),
{
    if action_du_tour(e, tours, i) is ReinitialiserPilote {
        assert(etat_apres_tours(e, tours, i + 1).pilote_deja_reinitialise);
        lemme_drapeau_leve(e, tours, i, j);
    }
}

/// Après une reconnexion au tour `i`, l'instant de la dernière reconnexion reste
/// compris entre celui du tour `i` et celui du dernier tour passé.
proof fn lemme_derniere_reconnexion(e: EtatSuperviseur, tours: Seq<Tour>, i: nat, k: nat)
    requires
        i < k <= tours.len(),
        episode_continu(e, tours),
        instants_croissants(tours),
        action_du_tour(e, tours, i) is Reconnecter,
    ensures
        etat_apres_tours(e, tours, k).derniere_reconnexion is Some,
        tours[i as int].2 <= etat_apres_tours(e, tours, k).derniere_reconnexion->0 <= tours[k - 1].2,
    decreases k,
{
    let x = tours[k - 1];
    loi_episode(etat_apres_tours(e, tours, (k - 1) as nat), x.0, x.1, x.2);
    if k > i + 1 {
        lemme_derniere_reconnexion(e, tours, i, (k - 1) as nat);
        assert(etat_apres_tours(e, tours, k).inutilisable_depuis is Some);
        assert(tours[k - 2].2 <= tours[k - 1].2);
    }
}

/// Au sein d'un épisode d'indisponibilité dont les instants ne reculent pas, deux
/// demandes de reconnexion sont séparées d'au moins `INTERVALLE_RECONNEXION_MS`, et
/// aucune ne vient avant `AVANT_RECONNEXION_MS` d'indisponibilité.
pub proof fn loi_reconnexions_espacees(e: EtatSuperviseur, tours: Seq<Tour>, i: nat, j: nat)
    requires
        episode_continu(e, tours),
        instants_croissants(tours),
        i < j < tours.len(),
        action_du_tour(e, tours, i) is Reconnecter,
        action_du_tour(e, tours, j) is Reconnecter,
    ensures
        tours[j as int].2 - tours[i as int].2 >= INTERVALLE_RECONNEXION_MS,
        etat_apres_tours(e, tours, j + 1).inutilisable_depuis is Some,
        ecart(tours[j as int].2, etat_apres_tours(e, tours, j + 1).inutilisable_depuis->0) >= AVANT_RECONNEXION_MS,
{
    lemme_derniere_reconnexion(e, tours, i, j);
    assert(tours[j - 1].2 <= tours[j as int].2);
}

/// Superviseur de santé réseau : une seule notion, « le réseau est-il utilisable ? »,
/// et un seul chronomètre, remis à zéro uniquement quand le réseau est redevenu
/// utilisable sans interruption pendant `STABILITE_AVANT_OUBLI_MS`, jamais par une
/// action corrective.
pub struct Superviseur {
    inutilisable_depuis: Option<u64>,
    utilisable_depuis: Option<u64>,
    derniere_reconnexion: Option<u64>,
    pilote_deja_reinitialise: bool,
    etait_connecte: bool,
}

impl View for Superviseur {
    type V = EtatSuperviseur;

    closed spec fn view(&self) -> EtatSuperviseur {
        EtatSuperviseur {
            inutilisable_depuis: self.inutilisable_depuis,
            utilisable_depuis: self.utilisable_depuis,
            derniere_reconnexion: self.derniere_reconnexion,
            pilote_deja_reinitialise: self.pilote_deja_reinitialise,
            etait_connecte: self.etait_connecte,
        }
    }
}

impl Superviseur {
    pub fn nouveau() -> (s: Self)
        ensures
            s@ == (EtatSuperviseur {
                inutilisable_depuis: None,
                utilisable_depuis: None,
                derniere_reconnexion: None,
                pilote_deja_reinitialise: false,
                etait_connecte: true,
            }),
    {
        Superviseur {
            inutilisable_depuis: None,
            utilisable_depuis: None,
            derniere_reconnexion: None,
            pilote_deja_reinitialise: false,
            etait_connecte: true,
        }
    }

    /// À appeler à chaque tour de boucle. `sonde` vaut `None` si le Wi-Fi est désactivé.
    /// Au retour de l'association, la fenêtre de la sonde est vidée avant d'être lue.
    pub fn evaluer(
        &mut self,
        wifi_connecte: bool,
        sonde: Option<&mut FenetreSondage>,
        maintenant_ms: u64,
    ) -> (a: Action)
        ensures
            ({
                let sonde_avant = match sonde { Some(f) => Some((*f)@), None => None };
                let (e, action) = etape_superviseur(old(self)@, wifi_connecte, sonde_avant, maintenant_ms);
                &&& final(self)@ == e
                &&& a == action
            }),
            match sonde {
                Some(f) => final(f)@.dernier_succes == (*f)@.dernier_succes
                    && final(f)@.sondages == (if wifi_connecte && !old(self)@.etait_connecte {
                        Seq::<(u32, u32)>::empty()
                    } else {
                        (*f)@.sondages
                    }),
                None => true,
            },
    {
        let vider = wifi_connecte && !self.etait_connecte;
        self.etait_connecte = wifi_connecte;
        let (utilisable, perte, deja_reussi): (bool, u32, bool) = match sonde {
            None => (wifi_connecte, if wifi_connecte { 0 } else { 100 }, false),
            Some(f) => {
                if vider {
                    f.reinitialiser_fenetre();
                }
                let deja_reussi = f.depuis_dernier_succes_a(maintenant_ms).is_some();
                if !wifi_connecte {
                    (false, 100, deja_reussi)
                } else {
                    match f.bilan() {
                        None => (true, 0, deja_reussi),
                        Some(b) => (b.utilisable(), b.perte(), deja_reussi),
                    }
                }
            },
        };

        if utilisable {
            // Une indisponibilité en cours n'est oubliée qu'après une période de stabilité.
            let stable = match self.utilisable_depuis {
                Some(s) => s,
                None => maintenant_ms,
            };
            self.utilisable_depuis = Some(stable);
            let stable_depuis = if maintenant_ms >= stable { maintenant_ms - stable } else { 0 };
            if stable_depuis >= STABILITE_AVANT_OUBLI_MS {
                self.inutilisable_depuis = None;
                self.derniere_reconnexion = None;
                self.pilote_deja_reinitialise = false;
            }
            return Action::Rien;
        }

        self.utilisable_depuis = None;

        // Garde-fou : tant qu'aucun ping n'a jamais abouti, on ne fait rien.
        if !deja_reussi {
            return Action::Rien;
        }

        let depuis = match self.inutilisable_depuis {
            Some(d) => d,
            None => maintenant_ms,
        };
        self.inutilisable_depuis = Some(depuis);
        let duree = if maintenant_ms >= depuis { maintenant_ms - depuis } else { 0 };
        let minutes = duree / 60_000;

        if duree >= AVANT_REDEMARRAGE_MS {
            return Action::Redemarrer { minutes, perte };
        }
        if duree >= AVANT_RESET_PILOTE_MS && !self.pilote_deja_reinitialise {
            self.pilote_deja_reinitialise = true;
            return Action::ReinitialiserPilote { minutes, perte };
        }
        let intervalle_ecoule = match self.derniere_reconnexion {
            None => true,
            Some(r) => (if maintenant_ms >= r { maintenant_ms - r } else { 0 }) >= INTERVALLE_RECONNEXION_MS,
        };
        if duree >= AVANT_RECONNEXION_MS && intervalle_ecoule {
            self.derniere_reconnexion = Some(maintenant_ms);
            return Action::Reconnecter { minutes };
        }
        Action::Rien
    }
}


/// Rang du premier réseau trouvé au scan dont le SSID est `voulu`, s'il y en a un.
pub fn choisir_reseau(ssids: &[&str], voulu: &str) -> (r: Option<usize>)
    ensures
        match r {
            Some(i) => i < ssids@.len() && ssids@[i as int]@ == voulu@
                && forall|j: int| 0 <= j < i ==> ssids@[j]@ != voulu@,
            None => forall|j: int| 0 <= j < ssids@.len() ==> ssids@[j]@ != voulu@,
        },
{
    let mut i: usize = 0;
    while i < ssids.len()
        invariant
            i <= ssids@.len(),
            forall|j: int| 0 <= j < i ==> ssids@[j]@ != voulu@,
        decreases ssids@.len() - i,
    {
        if textes_egaux(ssids[i], voulu) {
            return Some(i);
        }
        i = i + 1;
    }
    None
}

} // verus!
