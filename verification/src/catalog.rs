//! The immutable catalog: external identifier strings resolved to a unit
//! identity, and the identity's faction and optional category. The data is
//! a fixed asset produced offline from the simulator's reference dataset.

use vstd::prelude::*;
use crate::strutil::str_eq;
use crate::tree::{Node, spec_lookup_value, spec_as_string};

verus! {

/// The side a unit belongs to.
#[derive(Debug, Clone, Copy, PartialEq, Eq, Structural)]
pub enum Faction {
    Allied,
    Enemy,
}

/// The coarse functional role of a unit, where it has one.
#[derive(Debug, Clone, Copy, PartialEq, Eq, Structural)]
pub enum UnitType {
    SAMRadar,
    SAMLauncher,
    MissileWarning,
    IRMD,
}

/// One known unit identity, one value per external identifier string.
#[derive(Debug, Clone, Copy, PartialEq, Eq, Structural)]
pub enum Unit {
    AMWSTruckVariant,
    EMWSTruck,
    SLAIM120Truck,
    AlliedBackstopSAM,
    PatriotLauncher,
    MAD4Launcher,
    SlmrmLauncher,
    SamBattery1,
    WatchmanTruck,
    AlliedEWRadar,
    BSTOPRadar,
    PatRadarTrailer,
    MAD4Radar,
    SlmrmRadar,
    SamFCR,
    SamFCR2,
    AIRMDLauncher,
    EIRMDLauncher,
    MultiplayerSpawn,
}

/// The identity a given external identifier string resolves to, if any.
pub open spec fn spec_unit_from_id(s: Seq<char>) -> Option<Unit> {
    if s == "AMWSTruck Variant"@ {
        Some(Unit::AMWSTruckVariant)
    } else if s == "EMWSTruck"@ {
        Some(Unit::EMWSTruck)
    } else if s == "SLAIM120Truck"@ {
        Some(Unit::SLAIM120Truck)
    } else if s == "AlliedBackstopSAM"@ {
        Some(Unit::AlliedBackstopSAM)
    } else if s == "PatriotLauncher"@ {
        Some(Unit::PatriotLauncher)
    } else if s == "MAD-4Launcher"@ {
        Some(Unit::MAD4Launcher)
    } else if s == "slmrmLauncher"@ {
        Some(Unit::SlmrmLauncher)
    } else if s == "samBattery1"@ {
        Some(Unit::SamBattery1)
    } else if s == "WatchmanTruck"@ {
        Some(Unit::WatchmanTruck)
    } else if s == "AlliedEWRadar"@ {
        Some(Unit::AlliedEWRadar)
    } else if s == "BSTOPRadar"@ {
        Some(Unit::BSTOPRadar)
    } else if s == "PatRadarTrailer"@ {
        Some(Unit::PatRadarTrailer)
    } else if s == "MAD-4Radar"@ {
        Some(Unit::MAD4Radar)
    } else if s == "slmrmRadar"@ {
        Some(Unit::SlmrmRadar)
    } else if s == "SamFCR"@ {
        Some(Unit::SamFCR)
    } else if s == "SamFCR2"@ {
        Some(Unit::SamFCR2)
    } else if s == "aIRMDlauncher"@ {
        Some(Unit::AIRMDLauncher)
    } else if s == "eIRMDlauncher"@ {
        Some(Unit::EIRMDLauncher)
    } else if s == "MultiplayerSpawn"@ {
        Some(Unit::MultiplayerSpawn)
    } else {
        None
    }
}

/// Resolves an external identifier string to a unit identity.
pub fn unit_from_id(s: &str) -> (r: Option<Unit>)
    ensures
        r == spec_unit_from_id(s@),
{
    if str_eq(s, "AMWSTruck Variant") {
        Some(Unit::AMWSTruckVariant)
    } else if str_eq(s, "EMWSTruck") {
        Some(Unit::EMWSTruck)
    } else if str_eq(s, "SLAIM120Truck") {
        Some(Unit::SLAIM120Truck)
    } else if str_eq(s, "AlliedBackstopSAM") {
        Some(Unit::AlliedBackstopSAM)
    } else if str_eq(s, "PatriotLauncher") {
        Some(Unit::PatriotLauncher)
    } else if str_eq(s, "MAD-4Launcher") {
        Some(Unit::MAD4Launcher)
    } else if str_eq(s, "slmrmLauncher") {
        Some(Unit::SlmrmLauncher)
    } else if str_eq(s, "samBattery1") {
        Some(Unit::SamBattery1)
    } else if str_eq(s, "WatchmanTruck") {
        Some(Unit::WatchmanTruck)
    } else if str_eq(s, "AlliedEWRadar") {
        Some(Unit::AlliedEWRadar)
    } else if str_eq(s, "BSTOPRadar") {
        Some(Unit::BSTOPRadar)
    } else if str_eq(s, "PatRadarTrailer") {
        Some(Unit::PatRadarTrailer)
    } else if str_eq(s, "MAD-4Radar") {
        Some(Unit::MAD4Radar)
    } else if str_eq(s, "slmrmRadar") {
        Some(Unit::SlmrmRadar)
    } else if str_eq(s, "SamFCR") {
        Some(Unit::SamFCR)
    } else if str_eq(s, "SamFCR2") {
        Some(Unit::SamFCR2)
    } else if str_eq(s, "aIRMDlauncher") {
        Some(Unit::AIRMDLauncher)
    } else if str_eq(s, "eIRMDlauncher") {
        Some(Unit::EIRMDLauncher)
    } else if str_eq(s, "MultiplayerSpawn") {
        Some(Unit::MultiplayerSpawn)
    } else {
        None
    }
}

/// The faction of each identity: a total function, fixed at build time.
pub open spec fn spec_unit_faction(u: Unit) -> Faction {
    match u {
        Unit::AMWSTruckVariant => Faction::Allied,
        Unit::EMWSTruck => Faction::Enemy,
        Unit::SLAIM120Truck => Faction::Allied,
        Unit::AlliedBackstopSAM => Faction::Allied,
        Unit::PatriotLauncher => Faction::Allied,
        Unit::MAD4Launcher => Faction::Enemy,
        Unit::SlmrmLauncher => Faction::Enemy,
        Unit::SamBattery1 => Faction::Enemy,
        Unit::WatchmanTruck => Faction::Allied,
        Unit::AlliedEWRadar => Faction::Allied,
        Unit::BSTOPRadar => Faction::Allied,
        Unit::PatRadarTrailer => Faction::Allied,
        Unit::MAD4Radar => Faction::Enemy,
        Unit::SlmrmRadar => Faction::Enemy,
        Unit::SamFCR => Faction::Enemy,
        Unit::SamFCR2 => Faction::Enemy,
        Unit::AIRMDLauncher => Faction::Allied,
        Unit::EIRMDLauncher => Faction::Enemy,
        Unit::MultiplayerSpawn => Faction::Allied,
    }
}

/// Derives the faction of an identity.
pub fn get_unit_faction(u: &Unit) -> (r: Faction)
    ensures
        r == spec_unit_faction(*u),
{
    match u {
        Unit::EMWSTruck | Unit::MAD4Launcher | Unit::SlmrmLauncher | Unit::SamBattery1
        | Unit::MAD4Radar | Unit::SlmrmRadar | Unit::SamFCR | Unit::SamFCR2
        | Unit::EIRMDLauncher => Faction::Enemy,
        _ => Faction::Allied,
    }
}

/// The category of each identity, where it has one: a total function,
/// fixed at build time.
pub open spec fn spec_unit_type(u: Unit) -> Option<UnitType> {
    match u {
        Unit::AMWSTruckVariant => Some(UnitType::MissileWarning),
        Unit::EMWSTruck => Some(UnitType::MissileWarning),
        Unit::SLAIM120Truck => Some(UnitType::SAMLauncher),
        Unit::AlliedBackstopSAM => Some(UnitType::SAMLauncher),
        Unit::PatriotLauncher => Some(UnitType::SAMLauncher),
        Unit::MAD4Launcher => Some(UnitType::SAMLauncher),
        Unit::SlmrmLauncher => Some(UnitType::SAMLauncher),
        Unit::SamBattery1 => Some(UnitType::SAMLauncher),
        Unit::WatchmanTruck => Some(UnitType::SAMRadar),
        Unit::AlliedEWRadar => Some(UnitType::SAMRadar),
        Unit::BSTOPRadar => Some(UnitType::SAMRadar),
        Unit::PatRadarTrailer => Some(UnitType::SAMRadar),
        Unit::MAD4Radar => Some(UnitType::SAMRadar),
        Unit::SlmrmRadar => Some(UnitType::SAMRadar),
        Unit::SamFCR => Some(UnitType::SAMRadar),
        Unit::SamFCR2 => Some(UnitType::SAMRadar),
        Unit::AIRMDLauncher => Some(UnitType::IRMD),
        Unit::EIRMDLauncher => Some(UnitType::IRMD),
        Unit::MultiplayerSpawn => None,
    }
}

/// Derives the category of an identity.
pub fn get_unit_type(u: &Unit) -> (r: Option<UnitType>)
    ensures
        r == spec_unit_type(*u),
{
    match u {
        Unit::AMWSTruckVariant | Unit::EMWSTruck => Some(UnitType::MissileWarning),
        Unit::SLAIM120Truck | Unit::AlliedBackstopSAM | Unit::PatriotLauncher
        | Unit::MAD4Launcher | Unit::SlmrmLauncher | Unit::SamBattery1 => Some(
            UnitType::SAMLauncher,
        ),
        Unit::WatchmanTruck | Unit::AlliedEWRadar | Unit::BSTOPRadar | Unit::PatRadarTrailer
        | Unit::MAD4Radar | Unit::SlmrmRadar | Unit::SamFCR | Unit::SamFCR2 => Some(
            UnitType::SAMRadar,
        ),
        Unit::AIRMDLauncher | Unit::EIRMDLauncher => Some(UnitType::IRMD),
        Unit::MultiplayerSpawn => None,
    }
}

/// The identity a unit node resolves to: the node's external identifier
/// value, as a string, looked up in the catalog.
pub open spec fn spec_get_unit(node: Node) -> Option<Unit> {
    match spec_lookup_value(node.values@, "unitID"@) {
        None => None,
        Some(v) => match spec_as_string(v) {
            None => None,
            Some(s) => spec_unit_from_id(s@),
        },
    }
}

/// Resolves a unit node's external identifier via the catalog.
pub fn get_unit(node: &Node) -> (r: Option<Unit>)
    ensures
        r == spec_get_unit(*node),
{
    match node.get_value("unitID") {
        None => None,
        Some(v) => match v.as_string() {
            None => None,
            Some(s) => unit_from_id(s.as_str()),
        },
    }
}

} // verus!
