//! Câblage du PCF8574 (I2C 0x21), broches P0-P7, logique inversée (LOW = actif).
use vstd::prelude::*;

verus! {

pub const PCF8574_ADDR: u8 = 0x21;
pub const AHT10_ADDR: u8 = 0x38;

// --- Sorties (P0-P3) ---
/// Relais de la pompe de filtration.
pub const PCF_RELAIS_POMPE: u8 = 0;
/// Relais de signalisation de défaut (niveau, moteur, sécurité).
pub const PCF_RELAIS_DEFAUT_SYSTEME: u8 = 3;
// --- Entrées (P4-P7) ---
/// Bouton de l'écran.
pub const PCF_BOUTON_OLED: u8 = 4;
/// Interrupteur de mode, position MANU.
pub const PCF_MODE_MANU: u8 = 5;
/// Interrupteur de mode, position AUTO.
pub const PCF_MODE_AUTO: u8 = 6;
/// Contact NF du disjoncteur moteur.
pub const PCF_DEFAUT_RELAIS: u8 = 7;

} // verus!
