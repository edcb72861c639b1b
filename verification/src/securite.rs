//! Suivi du défaut moteur (contact NF du disjoncteur) avec anti-rebond et verrou
//! de réarmement manuel.
use crate::horloge::Horloge;
use vstd::prelude::*;

verus! {

/// Délai de confirmation d'un défaut, en millisecondes : élimine les parasites I2C
/// et le bruit électrique.
pub const ANTI_REBOND_MS: u64 = 200;

/// État logique du suivi de défaut moteur.
pub struct EtatSecurite {
    pub verrouille: bool,
    pub confirme: bool,
    /// Instant (ms) depuis lequel le défaut brut est lu sans interruption.
    pub depuis: Option<u64>,
}

/// Une itération de suivi : `defaut_brut` est la lecture du contact (`true` = ouvert,
/// défaut), `t` l'instant de la lecture.
pub open spec fn etape_securite(e: EtatSecurite, defaut_brut: bool, t: u64) -> EtatSecurite {
    if defaut_brut {
        let depuis = match e.depuis {
            Some(d) => d,
            None => t,
        };
        if t >= depuis && t - depuis >= ANTI_REBOND_MS {
            EtatSecurite { verrouille: true, confirme: true, depuis: Some(depuis) }
        } else {
            EtatSecurite { depuis: Some(depuis), ..e }
        }
    } else {
        EtatSecurite { depuis: None, confirme: false, ..e }
    }
}

/// Un défaut verrouillé le reste quelle que soit la lecture suivante : seul le
/// réarmement manuel le lève.
pub proof fn loi_verrou_persistant(e: EtatSecurite, defaut_brut: bool, t: u64)
    requires
        e.verrouille,
    ensures
        etape_securite(e, defaut_brut, t).verrouille,
{
}

/// Un défaut ne se verrouille qu'après une lecture de défaut maintenue au moins
/// `ANTI_REBOND_MS` millisecondes.
pub proof fn loi_verrou_apres_anti_rebond(e: EtatSecurite, defaut_brut: bool, t: u64)
    requires
        !e.verrouille,
        etape_securite(e, defaut_brut, t).verrouille,
    ensures
        defaut_brut,
        e.depuis is Some ==> e.depuis->0 + ANTI_REBOND_MS <= t,
        e.depuis is None ==> ANTI_REBOND_MS == 0,
{
}

/// Suivi du défaut moteur. Contact fermé (normal) : lecture `false` ; contact ouvert
/// (disjoncteur déclenché ou fil coupé) : lecture `true`. Une fois confirmé, le défaut
/// reste verrouillé même si le contact se referme, jusqu'à `rearmer`.
pub struct SecuriteMoteur {
    verrouille: bool,
    confirme: bool,
    depuis: Option<u64>,
    horloge: Horloge,
}

impl View for SecuriteMoteur {
    type V = EtatSecurite;

    closed spec fn view(&self) -> EtatSecurite {
        EtatSecurite { verrouille: self.verrouille, confirme: self.confirme, depuis: self.depuis }
    }
}

/// Un défaut confirmé est toujours verrouillé : le défaut actif est le défaut
/// verrouillé.
pub open spec fn confirme_verrouille(e: EtatSecurite) -> bool {
    e.confirme ==> e.verrouille
}

/// Chaque pas de suivi préserve « confirmé implique verrouillé ».
pub proof fn loi_confirme_verrouille(e: EtatSecurite, defaut_brut: bool, t: u64)
    requires
        confirme_verrouille(e),
    ensures
        confirme_verrouille(etape_securite(e, defaut_brut, t)),
{
}

impl SecuriteMoteur {
    #[verifier::type_invariant]
    closed spec fn confirme_donc_verrouille(self) -> bool {
        self.confirme ==> self.verrouille
    }

    pub fn nouveau() -> (s: Self)
        ensures
            s@ == (EtatSecurite { verrouille: false, confirme: false, depuis: None }),
    {
        SecuriteMoteur { verrouille: false, confirme: false, depuis: None, horloge: Horloge::demarrer() }
    }

    /// Itération de suivi à l'instant `maintenant_ms`.
    pub fn mettre_a_jour_a(&mut self, defaut_brut: bool, maintenant_ms: u64)
        ensures
            final(self)@ == etape_securite(old(self)@, defaut_brut, maintenant_ms),
    {
        proof { use_type_invariant(&*self); }
        if defaut_brut {
            let depuis = match self.depuis {
                Some(d) => d,
                None => maintenant_ms,
            };
            self.depuis = Some(depuis);
            if maintenant_ms >= depuis && maintenant_ms - depuis >= ANTI_REBOND_MS {
                self.verrouille = true;
                self.confirme = true;
            }
        } else {
            self.depuis = None;
            self.confirme = false;
        }
    }

    /// À appeler à chaque itération avec la lecture brute du contact ; l'instant est
    /// lu sur l'horloge interne.
    pub fn mettre_a_jour(&mut self, defaut_brut: bool)
        ensures
            exists|t: u64| final(self)@ == etape_securite(old(self)@, defaut_brut, t),
    {
        let t = self.horloge.millisecondes();
        self.mettre_a_jour_a(defaut_brut, t);
    }

    /// Défaut actif : confirmé maintenant, ou verrouillé en attente de réarmement.
    pub fn actif(&self) -> (r: bool)
        ensures
            r == (self@.confirme || self@.verrouille),
            r == self@.verrouille,
    {
        proof { use_type_invariant(self); }
        self.confirme || self.verrouille
    }

    pub fn verrouille(&self) -> (r: bool)
        ensures
            r == self@.verrouille,
            confirme_verrouille(self@),
    {
        proof { use_type_invariant(self); }
        self.verrouille
    }

    /// Réarmement manuel (déclenché depuis la page web).
    pub fn rearmer(&mut self)
        ensures
            final(self)@ == (EtatSecurite { verrouille: false, confirme: false, depuis: None }),
    {
        proof { use_type_invariant(&*self); }
        self.confirme = false;
        self.verrouille = false;
        self.depuis = None;
    }
}

} // verus!
