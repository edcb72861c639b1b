//! Pilotage d'une pompe de filtration de piscine : logique de décision vérifiée.
//!
//! Le temps est mesuré en millisecondes sur une horloge monotone (voir `horloge`).
//! Chaque type dont la logique dépend du temps offre deux formes de chaque opération :
//! l'une lit l'horloge elle-même, l'autre (suffixe `_a`) reçoit l'instant en argument
//! et a un contrat exact pour toute valeur de cet instant.
mod horloge_impl;

pub mod aht10;
pub mod alertes;

pub mod boost;
pub mod config;
pub mod ds18b20;
pub mod ecran;
pub mod envois;
pub mod etat_partage;
pub mod filtration_auto;
pub mod filtre_mode;
pub mod gps;
pub mod historique_modes;
pub mod horloge;
pub mod journal;
pub mod niveau_eau;
pub mod pcf8574;
pub mod pilotage;
pub mod pompe;
pub mod requetes;
pub mod sauvegarde;
pub mod securite;
pub mod surveillance_reseau;
pub mod temps;
