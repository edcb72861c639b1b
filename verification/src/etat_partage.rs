//! Types partagés entre la boucle principale et le reste du programme.
use vstd::prelude::*;

verus! {

/// Position de l'interrupteur de mode (AUTO / MANUEL / ARRÊT).
#[derive(Clone, Copy, Debug, PartialEq, Eq, Structural)]
pub enum Mode {
    Auto,
    Manuel,
    Off,
}

} // verus!
