//! Décodage NMEA du module GPS (par `nmea0183`) et suivi de la fraîcheur des données.
//! La lecture de l'UART est faite par l'appelant, qui transmet les octets reçus.
use crate::horloge::Horloge;
use crate::pompe::ecart;
use crate::temps::{date_valide, jour_semaine, DateHeure, SECONDES_PAR_JOUR};
use nmea0183::coords::{Latitude, Longitude};
use nmea0183::{ParseResult, Parser};
use vstd::prelude::*;

verus! {

/// Au-delà de 5 s, une donnée GPS est périmée.
pub const FRAICHEUR_MAX_MS: u64 = 5000;
/// Nombre minimal de satellites pour un fix fiable.
pub const SATELLITES_MIN: u8 = 4;

#[verifier::external_type_specification]
#[verifier::external_body]
pub struct ExParser(Parser);

#[verifier::external_type_specification]
#[verifier::external_body]
pub struct ExLatitude(Latitude);

#[verifier::external_type_specification]
#[verifier::external_body]
pub struct ExLongitude(Longitude);

/// Position reçue (degrés, minutes, secondes et hémisphère, tels que décodés).
pub struct Position {
    pub latitude: Latitude,
    pub longitude: Longitude,
}

/// Trame utile décodée : date et heure UTC (RMC), ou satellites et position (GGA).
pub enum Trame {
    Rmc { annee: i32, mois: u32, jour: u32, heures: u32, minutes: u32, secondes: u32 },
    Gga { satellites: u8, position: Position },
}

/// Appelle `nmea0183::Parser::new`.
#[verifier::external_body]
fn nouveau_decodeur() -> Parser {
    Parser::new()
}

/// Appelle `nmea0183::Parser::parse_from_byte` et ne retient que les trames RMC et
/// GGA complètes, converties en valeurs simples (secondes tronquées à l'entier).
/// Le résultat dépend des octets reçus auparavant : il n'est pas affirmé. Affirme
/// seulement les bornes que le décodeur vérifie sur une RMC : heures de 0 à 23,
/// minutes et secondes de 0 à 59, mois de 1 à 12, jour de 1 à 31, année de 1970 à
/// 2069 (tirée des deux chiffres de l'année).
#[verifier::external_body]
fn decoder_octet(decodeur: &mut Parser, octet: u8) -> (r: Option<Trame>)
    ensures
        r matches Some(Trame::Rmc { annee, mois, jour, heures, minutes, secondes }) ==> heures < 24 && minutes < 60
            && secondes < 60 && 1 <= mois <= 12 && 1 <= jour <= 31 && 1970 <= annee <= 2069,
{
    match decodeur.parse_from_byte(octet) {
        Some(Ok(ParseResult::RMC(Some(rmc)))) => Some(Trame::Rmc {
            annee: rmc.datetime.date.year as i32,
            mois: rmc.datetime.date.month as u32,
            jour: rmc.datetime.date.day as u32,
            heures: rmc.datetime.time.hours as u32,
            minutes: rmc.datetime.time.minutes as u32,
            secondes: rmc.datetime.time.seconds as u32,
        }),
        Some(Ok(ParseResult::GGA(Some(gga)))) => Some(Trame::Gga {
            satellites: gga.sat_in_use,
            position: Position { latitude: gga.latitude, longitude: gga.longitude },
        }),
        _ => None,
    }
}

/// Ce que le suivi retient des trames : date (année, mois, jour), secondes depuis
/// minuit et instant de réception de la dernière RMC ; satellites et instant de
/// réception de la dernière GGA ; dernière position et son instant de réception.
pub struct EtatGps {
    pub temps_utc: Option<(i32, u32, u32, u32, u64)>,
    pub satellites: u8,
    pub recu_satellites: Option<u64>,
    pub position: Option<(Position, u64)>,
}

/// Donnée reçue à l'instant `recu` encore fraîche à l'instant `t`.
pub open spec fn fraiche(recu: u64, t: u64) -> bool {
    ecart(t, recu) < FRAICHEUR_MAX_MS
}

/// État après une trame reçue à l'instant `t` : une RMC n'est retenue que si sa date
/// existe.
pub open spec fn etape_gps(e: EtatGps, trame: Trame, t: u64) -> EtatGps {
    match trame {
        Trame::Rmc { annee, mois, jour, heures, minutes, secondes } => if date_valide(annee, mois, jour) {
            EtatGps { temps_utc: Some((annee, mois, jour, (heures * 3600 + minutes * 60 + secondes) as u32, t)), ..e }
        } else {
            e
        },
        Trame::Gga { satellites, position } => EtatGps {
            satellites,
            recu_satellites: Some(t),
            position: Some((position, t)),
            ..e
        },
    }
}

/// Heure UTC reçue et encore fraîche à l'instant `t`.
pub open spec fn temps_frais(e: EtatGps, t: u64) -> bool {
    match e.temps_utc {
        Some((_, _, _, _, recu)) => fraiche(recu, t),
        None => false,
    }
}

/// Fix valide à l'instant `t` : heure et satellites frais, au moins 4 satellites.
pub open spec fn valide_a(e: EtatGps, t: u64) -> bool {
    &&& temps_frais(e, t)
    &&& e.recu_satellites is Some && fraiche(e.recu_satellites->0, t)
    &&& e.satellites >= SATELLITES_MIN
}

/// Heure UTC fraîche à l'instant `t`, si elle forme une heure du jour valide.
pub open spec fn temps_utc_a(e: EtatGps, t: u64) -> Option<DateHeure> {
    match e.temps_utc {
        Some((annee, mois, jour, secondes, recu)) => if fraiche(recu, t) && secondes < SECONDES_PAR_JOUR {
            Some(DateHeure { annee, mois, jour, secondes })
        } else {
            None
        },
        None => None,
    }
}

/// Satellites utilisés à l'instant `t` : nombre reçu si la donnée est fraîche, 0 sinon.
pub open spec fn satellites_a(e: EtatGps, t: u64) -> u8 {
    if e.recu_satellites is Some && fraiche(e.recu_satellites->0, t) { e.satellites } else { 0 }
}

/// Position disponible à l'instant `t` : reçue et fraîche.
pub open spec fn position_fraiche(e: EtatGps, t: u64) -> bool {
    e.position is Some && fraiche((e.position->0).1, t)
}

/// Une donnée vieille de plus de 5 s n'est jamais utilisée.
pub proof fn loi_donnees_perimees(e: EtatGps, t: u64)
    requires
        !temps_frais(e, t),
    ensures
        !valide_a(e, t),
        temps_utc_a(e, t) is None,
{
}

/// Décodage NMEA et suivi de fraîcheur des données GPS.
pub struct Gps {
    decodeur: Parser,
    temps_utc: Option<(i32, u32, u32, u32, u64)>,
    satellites: u8,
    recu_satellites: Option<u64>,
    position: Option<(Position, u64)>,
    horloge: Horloge,
}

impl View for Gps {
    type V = EtatGps;

    closed spec fn view(&self) -> EtatGps {
        EtatGps {
            temps_utc: self.temps_utc,
            satellites: self.satellites,
            recu_satellites: self.recu_satellites,
            position: self.position,
        }
    }
}

impl Gps {
    pub fn new() -> (g: Self)
        ensures
            g@ == (EtatGps { temps_utc: None, satellites: 0, recu_satellites: None, position: None }),
    {
        Gps {
            decodeur: nouveau_decodeur(),
            temps_utc: None,
            satellites: 0,
            recu_satellites: None,
            position: None,
            horloge: Horloge::demarrer(),
        }
    }

    /// Prend en compte une trame reçue à l'instant `maintenant_ms`.
    pub fn traiter_trame_a(&mut self, trame: Trame, maintenant_ms: u64)
        requires
            trame matches Trame::Rmc { heures, minutes, secondes, .. } ==> heures < 256 && minutes < 256 && secondes < 256,
        ensures
            final(self)@ == etape_gps(old(self)@, trame, maintenant_ms),
    {
        match trame {
            Trame::Rmc { annee, mois, jour, heures, minutes, secondes } => {
                if jour_semaine(annee, mois, jour).is_some() {
                    let secondes_depuis_minuit = heures * 3600 + minutes * 60 + secondes;
                    self.temps_utc = Some((annee, mois, jour, secondes_depuis_minuit, maintenant_ms));
                }
            },
            Trame::Gga { satellites, position } => {
                self.satellites = satellites;
                self.recu_satellites = Some(maintenant_ms);
                self.position = Some((position, maintenant_ms));
            },
        }
    }

    /// Décode un octet reçu de l'UART et prend en compte la trame qu'il complète.
    pub fn traiter_octet(&mut self, octet: u8)
        ensures
            final(self)@ == old(self)@ || exists|trame: Trame, t: u64| final(self)@ == etape_gps(old(self)@, trame, t),
    {
        let t = self.horloge.millisecondes();
        match decoder_octet(&mut self.decodeur, octet) {
            Some(trame) => self.traiter_trame_a(trame, t),
            None => {},
        }
    }

    /// Fix frais (moins de 5 s) avec au moins 4 satellites, à l'instant `maintenant_ms`.
    pub fn valide_a(&self, maintenant_ms: u64) -> (r: bool)
        ensures
            r == valide_a(self@, maintenant_ms),
    {
        let temps_frais = match self.temps_utc {
            Some((_, _, _, _, recu)) => (if maintenant_ms >= recu { maintenant_ms - recu } else { 0 }) < FRAICHEUR_MAX_MS,
            None => false,
        };
        let satellites_frais = match self.recu_satellites {
            Some(recu) => (if maintenant_ms >= recu { maintenant_ms - recu } else { 0 }) < FRAICHEUR_MAX_MS,
            None => false,
        };
        temps_frais && satellites_frais && self.satellites >= SATELLITES_MIN
    }

    /// Fix frais avec au moins 4 satellites.
    pub fn valide(&self) -> (r: bool)
        ensures
            exists|t: u64| r == valide_a(self@, t),
    {
        let t = self.horloge.millisecondes();
        self.valide_a(t)
    }

    /// Satellites utilisés si la donnée est fraîche à `maintenant_ms`, 0 sinon.
    pub fn satellites_a(&self, maintenant_ms: u64) -> (n: u8)
        ensures
            n == satellites_a(self@, maintenant_ms),
    {
        match self.recu_satellites {
            Some(recu) => if (if maintenant_ms >= recu { maintenant_ms - recu } else { 0 }) < FRAICHEUR_MAX_MS {
                self.satellites
            } else {
                0
            },
            None => 0,
        }
    }

    /// Satellites utilisés si la donnée est fraîche, 0 sinon.
    pub fn satellites(&self) -> (n: u8)
        ensures
            exists|t: u64| n == satellites_a(self@, t),
    {
        let t = self.horloge.millisecondes();
        self.satellites_a(t)
    }

    /// Dernière position, si elle est fraîche à `maintenant_ms`.
    pub fn position_a(&self, maintenant_ms: u64) -> (p: Option<&Position>)
        ensures
            p is Some <==> position_fraiche(self@, maintenant_ms),
            p matches Some(q) ==> *q == (self@.position->0).0,
    {
        match &self.position {
            Some((pos, recu)) => if (if maintenant_ms >= *recu { maintenant_ms - *recu } else { 0 }) < FRAICHEUR_MAX_MS {
                Some(pos)
            } else {
                None
            },
            None => None,
        }
    }

    /// Dernière position, si elle est fraîche.
    pub fn position(&self) -> (p: Option<&Position>)
        ensures
            exists|t: u64| (p is Some <==> position_fraiche(self@, t)),
            p matches Some(q) ==> *q == (self@.position->0).0,
    {
        let t = self.horloge.millisecondes();
        self.position_a(t)
    }

    /// Date et heure UTC telles que reçues du GPS, si elles sont fraîches à
    /// `maintenant_ms` et forment une heure du jour valide.
    pub fn temps_utc_a(&self, maintenant_ms: u64) -> (r: Option<DateHeure>)
        ensures
            r == temps_utc_a(self@, maintenant_ms),
    {
        match self.temps_utc {
            Some((annee, mois, jour, secondes, recu)) => {
                let frais = (if maintenant_ms >= recu { maintenant_ms - recu } else { 0 }) < FRAICHEUR_MAX_MS;
                if frais && secondes < SECONDES_PAR_JOUR {
                    Some(DateHeure { annee, mois, jour, secondes })
                } else {
                    None
                }
            },
            None => None,
        }
    }

    /// Date et heure UTC telles que reçues du GPS, si elles sont fraîches.
    pub fn temps_utc(&self) -> (r: Option<DateHeure>)
        ensures
            exists|t: u64| r == temps_utc_a(self@, t),
    {
        let t = self.horloge.millisecondes();
        self.temps_utc_a(t)
    }
}

} // verus!
