//! Capteur AHT10 (température et humidité de l'air) : extraction des mesures brutes
//! de la réponse de six octets. La transaction I2C et la mise à l'échelle sont faites
//! par l'appelant : humidité = brute / 2^20 × 100 %, température = brute / 2^20 × 200 − 50 °C.
use vstd::prelude::*;

verus! {

/// Commande de déclenchement d'une mesure.
pub const COMMANDE_MESURE: [u8; 3] = [0xAC, 0x33, 0x00];

/// Humidité brute sur 20 bits : octets 1, 2 et la moitié haute de l'octet 3.
pub open spec fn humidite_brute_spec(o: Seq<u8>) -> int {
    o[1] * 4096 + o[2] * 16 + o[3] / 16
}

/// Température brute sur 20 bits : moitié basse de l'octet 3, octets 4 et 5.
pub open spec fn temperature_brute_spec(o: Seq<u8>) -> int {
    (o[3] % 16) * 65536 + o[4] * 256 + o[5]
}

/// Mesures brutes (humidité, température), chacune sur 20 bits.
pub fn valeurs_brutes(octets: &[u8; 6]) -> (r: (u32, u32))
    ensures
        r.0 == humidite_brute_spec(octets@),
        r.1 == temperature_brute_spec(octets@),
        r.0 < 0x10_0000,
        r.1 < 0x10_0000,
{
    let b1 = octets[1] as u32;
    let b2 = octets[2] as u32;
    let b3 = octets[3] as u32;
    let b4 = octets[4] as u32;
    let b5 = octets[5] as u32;
    let humidite = (b1 << 12) | (b2 << 4) | (b3 >> 4);
    let temperature = ((b3 & 0x0F) << 16) | (b4 << 8) | b5;
    assert(humidite == b1 * 4096 + b2 * 16 + b3 / 16 && humidite < 0x10_0000) by (bit_vector)
        requires b1 < 256, b2 < 256, b3 < 256, humidite == (b1 << 12) | (b2 << 4) | (b3 >> 4);
    assert(temperature == (b3 % 16) * 65536 + b4 * 256 + b5 && temperature < 0x10_0000) by (bit_vector)
        requires b3 < 256, b4 < 256, b5 < 256, temperature == ((b3 & 0x0F) << 16) | (b4 << 8) | b5;
    (humidite, temperature)
}

} // verus!
