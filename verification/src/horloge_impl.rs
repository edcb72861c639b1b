use std::time::Duration;
use std::time::Instant;
use vstd::prelude::*;

verus! {

#[verifier::external_type_specification]
#[verifier::external_body]
pub struct ExInstant(Instant);

/// Appelle `std::time::Instant::now`. Rien n'est affirmé de l'instant obtenu.
#[verifier::external_body]
pub(crate) fn instant_present() -> Instant {
    Instant::now()
}

/// Appelle `std::time::Instant::elapsed` : durée écoulée depuis `origine`.
/// Rien n'est affirmé du résultat, qui dépend du moment de l'appel.
#[verifier::external_body]
pub(crate) fn duree_ecoulee(origine: &Instant) -> Duration {
    origine.elapsed()
}

/// Appelle `std::time::Duration::as_millis` et convertit le résultat en `u64`.
/// Rien n'est affirmé : `Duration` est opaque pour le vérificateur.
#[verifier::external_body]
pub(crate) fn en_millisecondes(duree: Duration) -> u64 {
    duree.as_millis() as u64
}

} // verus!
