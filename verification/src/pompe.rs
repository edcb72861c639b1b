//! Pilotage sécurisé du relais pompe : priorité aux sécurités, anti-claquement
//! (protection matérielle du relais et du moteur), cumul du temps de marche du jour.
use crate::horloge::Horloge;
use vstd::prelude::*;

verus! {

/// Nombre maximal de changements d'état autorisés dans la fenêtre glissante : le
/// changement suivant (plus de 4 en 2 minutes) déclenche le blocage.
pub const CLAQUEMENT_MAX: u32 = 4;
/// Fenêtre de comptage des changements d'état, en millisecondes.
pub const FENETRE_CLAQUEMENT_MS: u64 = 120_000;
/// Durée du blocage après un claquement détecté, en millisecondes.
pub const DUREE_BLOCAGE_MS: u64 = 300_000;

/// Différence `a - b` bornée à zéro (comme une durée entre deux instants).
pub open spec fn ecart(a: u64, b: u64) -> u64 {
    if a >= b { (a - b) as u64 } else { 0 }
}

/// Somme bornée à `u64::MAX`.
pub open spec fn somme_bornee(a: u64, b: u64) -> u64 {
    if a + b <= u64::MAX { (a + b) as u64 } else { u64::MAX }
}

/// État logique de la pompe.
pub struct EtatPompe {
    /// État appliqué au relais.
    pub etat: bool,
    /// Instants (ms) des derniers changements d'état appliqués, du plus ancien au plus
    /// récent ; au plus `CLAQUEMENT_MAX`, vidés par un blocage.
    pub changements: Seq<u64>,
    /// Fin (ms) du blocage en cours, s'il y en a un.
    pub bloquee_jusqua: Option<u64>,
    /// Temps de marche cumulé du jour, en millisecondes.
    pub marche_ms: u64,
    /// Démarrages du jour.
    pub sessions: u32,
    /// Instant (ms) du dernier appel de `mettre_a_jour`.
    pub dernier_tick: Option<u64>,
}

/// Temps de marche cumulé après un appel à l'instant `t` : l'écart depuis l'appel
/// précédent est compté si la pompe était en marche.
pub open spec fn cumul_marche(e: EtatPompe, t: u64) -> u64 {
    let delta = match e.dernier_tick {
        Some(d) => ecart(t, d),
        None => 0,
    };
    if e.etat { somme_bornee(e.marche_ms, delta) } else { e.marche_ms }
}

/// Fenêtre glissante : les `CLAQUEMENT_MAX` changements précédents ont tous eu lieu
/// dans les `FENETRE_CLAQUEMENT_MS` qui précèdent `t`, si bien qu'un changement de plus
/// à `t` en ferait plus de `CLAQUEMENT_MAX` en 2 minutes.
pub open spec fn claquement(changements: Seq<u64>, t: u64) -> bool {
    &&& changements.len() >= CLAQUEMENT_MAX
    &&& forall|i: int| 0 <= i < changements.len() ==> ecart(t, #[trigger] changements[i]) <= FENETRE_CLAQUEMENT_MS
}

/// Changements retenus après un changement appliqué à `t` : le plus ancien est oublié
/// quand `CLAQUEMENT_MAX` sont déjà retenus.
pub open spec fn apres_changement(changements: Seq<u64>, t: u64) -> Seq<u64> {
    if changements.len() >= CLAQUEMENT_MAX { changements.drop_first().push(t) } else { changements.push(t) }
}

/// Un pas de pilotage : `demande` est l'intention (marche/arrêt) déjà décidée par
/// l'appelant, `systeme_sur` vaut `false` si une sécurité interdit la marche.
pub open spec fn etape_pompe(e: EtatPompe, demande: bool, systeme_sur: bool, t: u64) -> EtatPompe {
    let base = EtatPompe { marche_ms: cumul_marche(e, t), dernier_tick: Some(t), ..e };
    if base.bloquee_jusqua is Some && t < base.bloquee_jusqua->0 {
        EtatPompe { etat: false, ..base }
    } else {
        let base = EtatPompe { bloquee_jusqua: None, ..base };
        if !systeme_sur {
            EtatPompe { etat: false, ..base }
        } else if demande == base.etat {
            base
        } else {
            if claquement(base.changements, t) {
                EtatPompe {
                    etat: false,
                    changements: Seq::<u64>::empty(),
                    bloquee_jusqua: Some(somme_bornee(t, DUREE_BLOCAGE_MS)),
                    ..base
                }
            } else {
                EtatPompe {
                    etat: demande,
                    changements: apres_changement(base.changements, t),
                    sessions: if demande && base.sessions < u32::MAX {
                        (base.sessions + 1) as u32
                    } else {
                        base.sessions
                    },
                    ..base
                }
            }
        }
    }
}

/// La pompe est bloquée à l'instant `t`.
pub open spec fn bloquee_a(e: EtatPompe, t: u64) -> bool {
    e.bloquee_jusqua is Some && t < e.bloquee_jusqua->0
}

/// Sécurité : si une sécurité interdit la marche, la pompe est arrêtée après le pas.
pub proof fn loi_securite_coupe(e: EtatPompe, demande: bool, t: u64)
    ensures
        !etape_pompe(e, demande, false, t).etat,
{
}

/// Un blocage anti-claquement en cours arrête la pompe quelle que soit la demande,
/// et le blocage reste en place.
pub proof fn loi_blocage_coupe(e: EtatPompe, demande: bool, systeme_sur: bool, t: u64)
    requires
        bloquee_a(e, t),
    ensures
        !etape_pompe(e, demande, systeme_sur, t).etat,
        etape_pompe(e, demande, systeme_sur, t).bloquee_jusqua == e.bloquee_jusqua,
{
}

/// Hors blocage et hors sécurité, la demande est appliquée, sauf si ce changement
/// ferait plus de `CLAQUEMENT_MAX` changements dans les 2 dernières minutes (fenêtre
/// glissante) : la pompe est alors arrêtée et bloquée pour `DUREE_BLOCAGE_MS`.
/// Un changement appliqué est retenu avec son instant.
pub proof fn loi_demande_appliquee(e: EtatPompe, demande: bool, t: u64)
    requires
        !bloquee_a(e, t),
    ensures
        ({
            let s = etape_pompe(e, demande, true, t);
            let changement = demande != e.etat;
            if changement && claquement(e.changements, t) {
                !s.etat && s.bloquee_jusqua == Some(somme_bornee(t, DUREE_BLOCAGE_MS))
                    && s.changements.len() == 0
            } else {
                &&& s.etat == demande
                &&& s.bloquee_jusqua is None
                &&& changement ==> s.changements == apres_changement(e.changements, t)
            }
        }),
{
}

/// Les changements retenus sont les plus récents : au plus `CLAQUEMENT_MAX`, le
/// dernier étant celui qui vient d'être appliqué.
pub proof fn loi_changements_retenus(h: Seq<u64>, t: u64)
    requires
        h.len() <= CLAQUEMENT_MAX,
    ensures
        apres_changement(h, t).len() <= CLAQUEMENT_MAX,
        apres_changement(h, t).last() == t,
        forall|i: int| 0 <= i < apres_changement(h, t).len() - 1
            ==> apres_changement(h, t)[i] == h[h.len() + 1 - apres_changement(h, t).len() + i],
{
}

/// Les démarrages du jour augmentent d'exactement un à chaque passage de l'arrêt à la
/// marche (tant que le compteur n'est pas saturé), et ne changent pas sinon.
pub proof fn loi_comptage_sessions(e: EtatPompe, demande: bool, systeme_sur: bool, t: u64)
    ensures
        ({
            let s = etape_pompe(e, demande, systeme_sur, t);
            if !e.etat && s.etat && e.sessions < u32::MAX {
                s.sessions == e.sessions + 1
            } else {
                s.sessions == e.sessions
            }
        }),
{
}

/// Le temps de marche ne s'accumule que pendant la marche, et ne décroît jamais.
pub proof fn loi_cumul_marche(e: EtatPompe, demande: bool, systeme_sur: bool, t: u64)
    ensures
        etape_pompe(e, demande, systeme_sur, t).marche_ms >= e.marche_ms,
        !e.etat ==> etape_pompe(e, demande, systeme_sur, t).marche_ms == e.marche_ms,
{
}

/// Pilotage du relais pompe. Le cumul du temps de marche et le nombre de démarrages
/// sont des compteurs du jour, à remettre à zéro par l'appelant au changement de jour.
pub struct GestionPompe {
    etat: bool,
    changements: Vec<u64>,
    bloquee_jusqua: Option<u64>,
    marche_ms: u64,
    sessions_aujourdhui: u32,
    dernier_tick: Option<u64>,
    horloge: Horloge,
}

impl View for GestionPompe {
    type V = EtatPompe;

    closed spec fn view(&self) -> EtatPompe {
        EtatPompe {
            etat: self.etat,
            changements: self.changements@,
            bloquee_jusqua: self.bloquee_jusqua,
            marche_ms: self.marche_ms,
            sessions: self.sessions_aujourdhui,
            dernier_tick: self.dernier_tick,
        }
    }
}

impl GestionPompe {
    /// Au plus `CLAQUEMENT_MAX` changements sont retenus.
    #[verifier::type_invariant]
    closed spec fn changements_bornes(self) -> bool {
        self.changements@.len() <= CLAQUEMENT_MAX
    }

    /// Vrai si un changement à `t` en ferait plus de `CLAQUEMENT_MAX` en 2 minutes.
    fn claquement_a(&self, t: u64) -> (r: bool)
        ensures
            r == claquement(self@.changements, t),
    {
        let n = self.changements.len();
        if n < CLAQUEMENT_MAX as usize {
            return false;
        }
        let mut i: usize = 0;
        while i < n
            invariant
                n == self.changements@.len(),
                i <= n,
                forall|j: int| 0 <= j < i ==> ecart(t, #[trigger] self.changements@[j]) <= FENETRE_CLAQUEMENT_MS,
            decreases n - i,
        {
            let c = self.changements[i];
            if (if t >= c { t - c } else { 0 }) > FENETRE_CLAQUEMENT_MS {
                assert(ecart(t, self.changements@[i as int]) > FENETRE_CLAQUEMENT_MS);
                return false;
            }
            i = i + 1;
        }
        true
    }

    pub fn nouveau() -> (p: Self)
        ensures
            p@.etat == false,
            p@.changements.len() == 0,
            p@.bloquee_jusqua is None,
            p@.marche_ms == 0,
            p@.sessions == 0,
            p@.dernier_tick is None,
    {
        GestionPompe {
            etat: false,
            changements: Vec::new(),
            bloquee_jusqua: None,
            marche_ms: 0,
            sessions_aujourdhui: 0,
            dernier_tick: None,
            horloge: Horloge::demarrer(),
        }
    }

    /// Un pas de pilotage à l'instant `maintenant_ms` : blocage anti-claquement en
    /// cours, puis sécurité, puis application de la demande.
    pub fn mettre_a_jour_a(&mut self, demande: bool, systeme_sur: bool, maintenant_ms: u64)
        ensures
            final(self)@ == etape_pompe(old(self)@, demande, systeme_sur, maintenant_ms),
            final(self)@.changements.len() <= CLAQUEMENT_MAX,
    {
        proof { use_type_invariant(&*self); }
        let delta = match self.dernier_tick {
            Some(d) => if maintenant_ms >= d { maintenant_ms - d } else { 0 },
            None => 0,
        };
        self.dernier_tick = Some(maintenant_ms);
        if self.etat {
            self.marche_ms = self.marche_ms.saturating_add(delta);
        }

        if let Some(fin_blocage) = self.bloquee_jusqua {
            if maintenant_ms < fin_blocage {
                self.forcer_arret();
                proof { use_type_invariant(&*self); }
                return;
            }
            self.bloquee_jusqua = None;
        }

        if !systeme_sur {
            self.forcer_arret();
            proof { use_type_invariant(&*self); }
            return;
        }

        if demande != self.etat {
            if self.claquement_a(maintenant_ms) {
                self.bloquee_jusqua = Some(maintenant_ms.saturating_add(DUREE_BLOCAGE_MS));
                self.changements = Vec::new();
                self.forcer_arret();
                proof { use_type_invariant(&*self); }
                return;
            }
            let mut changements: Vec<u64> = Vec::new();
            std::mem::swap(&mut changements, &mut self.changements);
            if changements.len() >= CLAQUEMENT_MAX as usize {
                let _ = changements.remove(0);
            }
            changements.push(maintenant_ms);
            assert(changements@ =~= apres_changement(old(self)@.changements, maintenant_ms));
            self.changements = changements;
            if demande && !self.etat {
                self.sessions_aujourdhui = self.sessions_aujourdhui.saturating_add(1);
            }
            self.etat = demande;
        }
        proof { use_type_invariant(&*self); }
    }

    /// Un pas de pilotage ; l'instant est lu sur l'horloge interne.
    pub fn mettre_a_jour(&mut self, demande: bool, systeme_sur: bool)
        ensures
            exists|t: u64| final(self)@ == etape_pompe(old(self)@, demande, systeme_sur, t),
    {
        let t = self.horloge.millisecondes();
        self.mettre_a_jour_a(demande, systeme_sur, t);
    }

    fn forcer_arret(&mut self)
        ensures
            final(self)@ == (EtatPompe { etat: false, ..old(self)@ }),
    {
        proof { use_type_invariant(&*self); }
        self.etat = false;
    }

    /// État appliqué (ou à appliquer) au relais.
    pub fn etat(&self) -> (r: bool)
        ensures
            r == self@.etat,
    {
        self.etat
    }

    /// Vrai si la pompe est bloquée à l'instant `maintenant_ms`.
    pub fn bloquee_a(&self, maintenant_ms: u64) -> (r: bool)
        ensures
            r == bloquee_a(self@, maintenant_ms),
    {
        match self.bloquee_jusqua {
            Some(fin) => maintenant_ms < fin,
            None => false,
        }
    }

    /// Vrai si la pompe est actuellement bloquée suite à un claquement détecté.
    pub fn bloquee(&self) -> (r: bool)
        ensures
            exists|t: u64| r == bloquee_a(self@, t),
            self@.bloquee_jusqua is None ==> !r,
    {
        let t = self.horloge.millisecondes();
        self.bloquee_a(t)
    }

    /// Temps de marche cumulé du jour, en millisecondes.
    pub fn marche_aujourdhui_ms(&self) -> (r: u64)
        ensures
            r == self@.marche_ms,
    {
        self.marche_ms
    }

    /// Démarrages de la pompe depuis la dernière remise à zéro.
    pub fn sessions_aujourdhui(&self) -> (r: u32)
        ensures
            r == self@.sessions,
    {
        self.sessions_aujourdhui
    }

    /// Remise à zéro des compteurs du jour.
    pub fn reinitialiser_jour(&mut self)
        ensures
            final(self)@ == (EtatPompe { marche_ms: 0, sessions: 0, ..old(self)@ }),
    {
        proof { use_type_invariant(&*self); }
        self.marche_ms = 0;
        self.sessions_aujourdhui = 0;
    }

    /// Restaure les compteurs du jour (rechargés après un redémarrage).
    pub fn charger_etat_jour(&mut self, marche_ms: u64, sessions: u32)
        ensures
            final(self)@ == (EtatPompe { marche_ms, sessions, ..old(self)@ }),
    {
        proof { use_type_invariant(&*self); }
        self.marche_ms = marche_ms;
        self.sessions_aujourdhui = sessions;
    }
}

} // verus!
