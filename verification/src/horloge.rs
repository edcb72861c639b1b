use crate::horloge_impl::{duree_ecoulee, en_millisecondes, instant_present};
use std::time::Instant;
use vstd::prelude::*;

verus! {

/// Horloge monotone : millisecondes écoulées depuis sa création.
pub struct Horloge {
    origine: Instant,
}

impl Horloge {
    /// Démarre une horloge à zéro.
    pub fn demarrer() -> Horloge {
        Horloge { origine: instant_present() }
    }

    /// Millisecondes écoulées depuis `demarrer`. La valeur dépend du moment de
    /// l'appel : aucune propriété n'en est promise.
    pub fn millisecondes(&self) -> u64 {
        en_millisecondes(duree_ecoulee(&self.origine))
    }
}

} // verus!
