//! The catalog's source data: the record type the offline generation
//! step emits for each unit of the reference dataset, the category
//! overrides keyed by external identifier, and the identifier mangling
//! that turns display names into Rust identifiers.

use vstd::prelude::*;
use vstd::string::*;
use crate::catalog::Faction;
use crate::strutil::str_eq;
use crate::tree::{Node, Value, spec_lookup_value};

verus! {

/// One record of the offline-generated catalog data.
#[derive(Debug, PartialEq)]
pub struct Unit {
    pub name: String,
    pub id: String,
    pub rust_identifier_name: String,
    pub faction: Faction,
    pub unit_type: Option<String>,
}

/// The mathematical content of a catalog-data record.
pub ghost struct UnitDataV {
    pub name: Seq<char>,
    pub id: Seq<char>,
    pub rust_identifier_name: Seq<char>,
    pub faction: Faction,
    pub unit_type: Option<Seq<char>>,
}

impl View for Unit {
    type V = UnitDataV;

    open spec fn view(&self) -> UnitDataV {
        UnitDataV {
            name: self.name@,
            id: self.id@,
            rust_identifier_name: self.rust_identifier_name@,
            faction: self.faction,
            unit_type: match self.unit_type {
                Some(ref t) => Some(t@),
                None => None,
            },
        }
    }
}

/// The category name assigned to an external identifier, if any.
pub open spec fn spec_type_override(id: Seq<char>) -> Option<Seq<char>> {
    if id == "AMWSTruck Variant"@ || id == "EMWSTruck"@ {
        Some("MissileWarning"@)
    } else if id == "SLAIM120Truck"@ || id == "AlliedBackstopSAM"@ || id == "PatriotLauncher"@
        || id == "MAD-4Launcher"@ || id == "slmrmLauncher"@ || id == "samBattery1"@ {
        Some("SAMLauncher"@)
    } else if id == "WatchmanTruck"@ || id == "AlliedEWRadar"@ || id == "BSTOPRadar"@ || id
        == "PatRadarTrailer"@ || id == "MAD-4Radar"@ || id == "slmrmRadar"@ || id == "SamFCR"@
        || id == "SamFCR2"@ {
        Some("SAMRadar"@)
    } else if id == "aIRMDlauncher"@ || id == "eIRMDlauncher"@ {
        Some("IRMD"@)
    } else {
        None
    }
}

/// The category name assigned to an external identifier, if any.
pub fn type_override(id: &str) -> (r: Option<String>)
    ensures
        match r {
            Some(t) => spec_type_override(id@) == Some(t@),
            None => spec_type_override(id@) is None,
        },
{
    if str_eq(id, "AMWSTruck Variant") || str_eq(id, "EMWSTruck") {
        Some("MissileWarning".to_owned())
    } else if str_eq(id, "SLAIM120Truck") || str_eq(id, "AlliedBackstopSAM") || str_eq(
        id,
        "PatriotLauncher",
    ) || str_eq(id, "MAD-4Launcher") || str_eq(id, "slmrmLauncher") || str_eq(
        id,
        "samBattery1",
    ) {
        Some("SAMLauncher".to_owned())
    } else if str_eq(id, "WatchmanTruck") || str_eq(id, "AlliedEWRadar") || str_eq(
        id,
        "BSTOPRadar",
    ) || str_eq(id, "PatRadarTrailer") || str_eq(id, "MAD-4Radar") || str_eq(id, "slmrmRadar")
        || str_eq(id, "SamFCR") || str_eq(id, "SamFCR2") {
        Some("SAMRadar".to_owned())
    } else if str_eq(id, "aIRMDlauncher") || str_eq(id, "eIRMDlauncher") {
        Some("IRMD".to_owned())
    } else {
        None
    }
}

/// Display names become Rust identifiers by replacing spaces, slashes
/// and dashes with underscores, character for character.
pub open spec fn spec_rust_identifier(s: Seq<char>) -> Seq<char> {
    s.map_values(
        |c: char|
            if c == ' ' || c == '/' || c == '-' {
                '_'
            } else {
                c
            },
    )
}

/// Mangles a display name into a Rust identifier, exactly as
/// `spec_rust_identifier` describes.
pub fn name_to_rust_identifier(name: &str) -> (r: String)
    ensures
        r@ == spec_rust_identifier(name@),
{
    let n = name.unicode_len();
    let mut out = String::new();
    let mut st: usize = 0;
    let mut i: usize = 0;
    proof {
        assert(out@ =~= spec_rust_identifier(name@.take(0)));
    }
    while i < n
        invariant
            0 <= st <= i <= n,
            n == name@.len(),
            forall|j: int|
                st <= j < i ==> !(name@[j] == ' ' || name@[j] == '/' || name@[j] == '-'),
            out@ == spec_rust_identifier(name@.take(st as int)),
        decreases n - i,
    {
        let c = name.get_char(i);
        if c == ' ' || c == '/' || c == '-' {
            let piece = name.substring_char(st, i);
            out.append(piece);
            out.append("_");
            proof {
                reveal_strlit("_");
                assert("_"@ =~= seq!['_']);
                assert(out@ =~= spec_rust_identifier(name@.take(i + 1)));
            }
            st = i + 1;
        }
        i = i + 1;
    }
    let tail = name.substring_char(st, n);
    out.append(tail);
    proof {
        assert(name@.take(n as int) =~= name@);
        assert(out@ =~= spec_rust_identifier(name@));
    }
    out
}

/// Whether a record with display name `n` was already collected.
pub open spec fn has_name(acc: Seq<UnitDataV>, n: Seq<char>) -> bool {
    exists|j: int| 0 <= j < acc.len() && #[trigger] acc[j].name == n
}

/// Collects one record per unit node, left to right, onto `acc`. Units
/// before the multiplayer-spawn marker are allied, those after it enemy.
/// A display name seen before gets an `Enemy ` prefix, legitimate only
/// for an enemy unit; a node without a string-typed name or identifier,
/// a premature duplicate, or a name that repeats even after the prefix
/// yields nothing, as does everything after it.
pub open spec fn spec_collect_units(
    nodes: Seq<Node>,
    acc: Seq<UnitDataV>,
    faction: Faction,
) -> Option<Seq<UnitDataV>>
    decreases nodes.len(),
{
    if nodes.len() == 0 {
        Some(acc)
    } else {
        match spec_lookup_value(nodes[0].values@, "unitName"@) {
            Some(Value::Str(raw)) => {
                let name = if has_name(acc, raw@) {
                    "Enemy "@ + raw@
                } else {
                    raw@
                };
                if has_name(acc, raw@) && faction != Faction::Enemy {
                    None
                } else if has_name(acc, name) {
                    None
                } else {
                    match spec_lookup_value(nodes[0].values@, "unitID"@) {
                        Some(Value::Str(id)) => {
                            let rec = UnitDataV {
                                name,
                                id: id@,
                                rust_identifier_name: spec_rust_identifier(name),
                                faction,
                                unit_type: spec_type_override(id@),
                            };
                            let next = if id@ == "MultiplayerSpawn"@ {
                                Faction::Enemy
                            } else {
                                faction
                            };
                            spec_collect_units(nodes.drop_first(), acc.push(rec), next)
                        },
                        _ => None,
                    }
                }
            },
            _ => None,
        }
    }
}

fn contains_name(units: &Vec<Unit>, n: &str) -> (r: bool)
    ensures
        r == has_name(units@.map_values(|u: Unit| u@), n@),
{
    let ghost acc = units@.map_values(|u: Unit| u@);
    let m = units.len();
    let mut j: usize = 0;
    while j < m
        invariant
            0 <= j <= m,
            m == units@.len(),
            acc == units@.map_values(|u: Unit| u@),
            forall|t: int| 0 <= t < j ==> #[trigger] acc[t].name != n@,
        decreases m - j,
    {
        if str_eq(units[j].name.as_str(), n) {
            proof {
                assert(acc[j as int].name == n@);
            }
            return true;
        }
        j = j + 1;
    }
    false
}

/// Collects the catalog-data records of a units container, exactly as
/// `spec_collect_units` describes, starting allied with nothing
/// collected; `None` when the data is malformed.
pub fn collect_units(container: &Node) -> (r: Option<Vec<Unit>>)
    ensures
        match r {
            Some(v) => spec_collect_units(container.nodes@, Seq::empty(), Faction::Allied)
                == Some(v@.map_values(|u: Unit| u@)),
            None => spec_collect_units(container.nodes@, Seq::empty(), Faction::Allied) is None,
        },
{
    let n = container.nodes.len();
    let mut units: Vec<Unit> = Vec::new();
    let mut faction = Faction::Allied;
    let mut i: usize = 0;
    proof {
        assert(container.nodes@.skip(0) =~= container.nodes@);
        assert(units@.map_values(|u: Unit| u@) =~= Seq::<UnitDataV>::empty());
    }
    while i < n
        invariant
            0 <= i <= n,
            n == container.nodes@.len(),
            spec_collect_units(container.nodes@, Seq::empty(), Faction::Allied)
                == spec_collect_units(
                container.nodes@.skip(i as int),
                units@.map_values(|u: Unit| u@),
                faction,
            ),
        decreases n - i,
    {
        let ghost acc = units@.map_values(|u: Unit| u@);
        proof {
            assert(container.nodes@.skip(i as int)[0] == container.nodes@[i as int]);
            assert(container.nodes@.skip(i as int).drop_first() =~= container.nodes@.skip(i + 1));
        }
        let nd = &container.nodes[i];
        let raw = match nd.get_value("unitName") {
            Some(v) => match v.as_string() {
                Some(s) => s,
                None => {
                    return None;
                },
            },
            None => {
                return None;
            },
        };
        let dup = contains_name(&units, raw.as_str());
        let name: String = if dup {
            if faction != Faction::Enemy {
                return None;
            }
            let mut nm: String = "Enemy ".to_owned();
            nm.append(raw.as_str());
            nm
        } else {
            raw.clone()
        };
        if contains_name(&units, name.as_str()) {
            return None;
        }
        let id = match nd.get_value("unitID") {
            Some(v) => match v.as_string() {
                Some(s) => s,
                None => {
                    return None;
                },
            },
            None => {
                return None;
            },
        };
        let rust_name = name_to_rust_identifier(name.as_str());
        let unit_type = type_override(id.as_str());
        let is_spawn = str_eq(id.as_str(), "MultiplayerSpawn");
        let rec = Unit { name, id: id.clone(), rust_identifier_name: rust_name, faction, unit_type };
        let ghost recv = rec@;
        units.push(rec);
        proof {
            assert(units@.map_values(|u: Unit| u@) =~= acc.push(recv));
        }
        if is_spawn {
            faction = Faction::Enemy;
        }
        i = i + 1;
    }
    proof {
        assert(container.nodes@.skip(n as int) =~= Seq::<Node>::empty());
    }
    Some(units)
}

} // verus!
