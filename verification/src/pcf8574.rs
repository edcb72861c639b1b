//! Expandeur de broches PCF8574 : calcul de l'octet des sorties et décodage de
//! l'octet lu. Les transactions I2C sont faites par l'appelant.
use crate::config::{
    PCF_BOUTON_OLED, PCF_DEFAUT_RELAIS, PCF_MODE_AUTO, PCF_MODE_MANU, PCF_RELAIS_DEFAUT_SYSTEME,
    PCF_RELAIS_POMPE,
};
use crate::etat_partage::Mode;
use vstd::prelude::*;

verus! {

/// Octet écrit à l'initialisation : sorties inactives (haut), entrées prêtes.
pub const OCTET_INITIAL: u8 = 0xFF;
/// Les entrées P4-P7 sont toujours écrites à l'état haut.
pub const MASQUE_ENTREES: u8 = 0xF0;

/// Broche `b` lue à l'état bas.
pub open spec fn broche_basse(octet: u8, b: u8) -> bool {
    (octet >> b) & 1 == 0
}

/// Mode lu sur l'interrupteur : AUTO ou MANU si exactement une des deux positions est
/// active (à l'état bas), ARRÊT sinon (position centrale ou lecture incohérente).
pub open spec fn mode_lu(octet: u8) -> Mode {
    let auto = broche_basse(octet, PCF_MODE_AUTO);
    let manu = broche_basse(octet, PCF_MODE_MANU);
    if auto && !manu {
        Mode::Auto
    } else if manu && !auto {
        Mode::Manuel
    } else {
        Mode::Off
    }
}

/// Décode la position de l'interrupteur AUTO/MANU (P6/P5).
pub fn mode_depuis_octet(octet: u8) -> (m: Mode)
    ensures
        m == mode_lu(octet),
{
    let manu_actif = (octet >> PCF_MODE_MANU) & 1 == 0;
    let auto_actif = (octet >> PCF_MODE_AUTO) & 1 == 0;
    match (auto_actif, manu_actif) {
        (true, false) => Mode::Auto,
        (false, true) => Mode::Manuel,
        _ => Mode::Off,
    }
}

/// Décode l'entrée défaut moteur (P7) : contact NF, état haut = contact ouvert = défaut.
pub fn defaut_moteur_depuis_octet(octet: u8) -> (d: bool)
    ensures
        d == !broche_basse(octet, PCF_DEFAUT_RELAIS),
{
    assert(((octet >> 7u8) & 1 == 1) == !((octet >> 7u8) & 1 == 0)) by (bit_vector);
    (octet >> PCF_DEFAUT_RELAIS) & 1 == 1
}

/// Décode le bouton de l'écran (P4) : `true` si appuyé (actif à l'état bas).
pub fn bouton_oled_depuis_octet(octet: u8) -> (b: bool)
    ensures
        b == broche_basse(octet, PCF_BOUTON_OLED),
{
    (octet >> PCF_BOUTON_OLED) & 1 == 0
}

/// Octet des sorties après avoir rendu la broche `broche` active (état bas) ou
/// inactive (état haut).
pub open spec fn octet_apres(octet: u8, broche: u8, actif: bool) -> u8 {
    if actif { octet & !(1u8 << broche) } else { octet | (1u8 << broche) }
}

/// Piloter une broche ne modifie qu'elle : les autres sorties gardent leur état.
pub proof fn loi_une_seule_broche(octet: u8, broche: u8, actif: bool, autre: u8)
    requires
        broche < 8,
        autre < 8,
        autre != broche,
    ensures
        broche_basse(octet_apres(octet, broche, actif), broche) == actif,
        broche_basse(octet_apres(octet, broche, actif), autre) == broche_basse(octet, autre),
{
    assert(broche_basse(octet & !(1u8 << broche), broche)) by (bit_vector)
        requires broche < 8;
    assert(!broche_basse(octet | (1u8 << broche), broche)) by (bit_vector)
        requires broche < 8;
    assert(broche_basse(octet & !(1u8 << broche), autre) == broche_basse(octet, autre)) by (bit_vector)
        requires broche < 8, autre < 8, autre != broche;
    assert(broche_basse(octet | (1u8 << broche), autre) == broche_basse(octet, autre)) by (bit_vector)
        requires broche < 8, autre < 8, autre != broche;
}

/// État voulu des sorties P0-P3. Le PCF8574 n'a qu'un registre pour ses huit broches :
/// chaque écriture renvoie l'octet complet, d'où la mémorisation des sorties.
pub struct Sorties {
    octet: u8,
}

impl View for Sorties {
    type V = u8;

    closed spec fn view(&self) -> u8 {
        self.octet
    }
}

impl Sorties {
    /// Sorties inactives, telles qu'écrites par l'initialisation (`OCTET_INITIAL`).
    pub fn initiales() -> (s: Self)
        ensures
            s@ == OCTET_INITIAL,
    {
        Sorties { octet: OCTET_INITIAL }
    }

    /// Rend la broche active ou inactive ; renvoie l'octet à écrire sur le bus, entrées
    /// P4-P7 toujours hautes.
    pub fn appliquer(&mut self, broche: u8, actif: bool) -> (a_ecrire: u8)
        requires
            broche < 8,
        ensures
            final(self)@ == octet_apres(old(self)@, broche, actif),
            a_ecrire == final(self)@ | MASQUE_ENTREES,
    {
        if actif {
            self.octet = self.octet & !(1u8 << broche);
        } else {
            self.octet = self.octet | (1u8 << broche);
        }
        self.octet | MASQUE_ENTREES
    }
}

/// Pilote le relais pompe (P0) ; renvoie l'octet à écrire.
pub fn piloter_pompe(sorties: &mut Sorties, actif: bool) -> (a_ecrire: u8)
    ensures
        final(sorties)@ == octet_apres(old(sorties)@, PCF_RELAIS_POMPE, actif),
        a_ecrire == final(sorties)@ | MASQUE_ENTREES,
{
    sorties.appliquer(PCF_RELAIS_POMPE, actif)
}

/// Pilote le relais de signalisation défaut système (P3) ; renvoie l'octet à écrire.
pub fn piloter_defaut_systeme(sorties: &mut Sorties, actif: bool) -> (a_ecrire: u8)
    ensures
        final(sorties)@ == octet_apres(old(sorties)@, PCF_RELAIS_DEFAUT_SYSTEME, actif),
        a_ecrire == final(sorties)@ | MASQUE_ENTREES,
{
    sorties.appliquer(PCF_RELAIS_DEFAUT_SYSTEME, actif)
}

} // verus!
