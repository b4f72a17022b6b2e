//! Tests of the tree model, the catalog, the typed projection and the
//! field interpreter.

use vts_lint::catalog::{Faction, Unit, UnitType, get_unit_faction, get_unit_type, unit_from_id};
use vts_lint::catalog_data::{name_to_rust_identifier, type_override};
use vts_lint::fields::{AccessFieldsError, Fields, access_fields};
use vts_lint::parse_i64_str;
use vts_lint::tree::{Node, Value};
use vts_lint::units::{Scenario, ToScenarioError, ToUnitRefError, UnitRef};

fn pair(k: &str, v: Value) -> (String, Value) {
    (k.to_string(), v)
}

fn unit_node(unit_id: &str, instance_id: i64, name: &str, fields: Vec<(String, Value)>) -> Node {
    Node {
        name: "Unit".to_string(),
        values: vec![
            pair("unitID", Value::Str(unit_id.to_string())),
            pair("unitInstanceID", Value::Num(instance_id)),
            pair("unitName", Value::Str(name.to_string())),
        ],
        nodes: vec![Node { name: "UnitFields".to_string(), values: fields, nodes: vec![] }],
    }
}

fn scenario_node(units: Vec<Node>) -> Node {
    Node {
        name: "CustomScenario".to_string(),
        values: vec![],
        nodes: vec![Node { name: "UNITS".to_string(), values: vec![], nodes: units }],
    }
}

fn launcher_fields(radar_units: Value) -> Vec<(String, Value)> {
    vec![pair("engageEnemies", Value::Boolean(true)), pair("radarUnits", radar_units)]
}

#[test]
fn projection_is_deterministic() {
    let node = unit_node("EMWSTruck", 3, "Watcher", vec![]);
    let u1 = UnitRef::try_from(&node).unwrap();
    let u2 = UnitRef::try_from(&node).unwrap();
    assert_eq!(u1.unit(), u2.unit());
    assert_eq!(u1.faction(), u2.faction());
    assert_eq!(u1.unit_type(), u2.unit_type());
    assert_eq!(u1.name(), u2.name());
    assert_eq!(u1.id(), u2.id());
}

#[test]
fn projection_resolves_catalog_attributes() {
    let node = unit_node("EMWSTruck", 3, "Watcher", vec![]);
    let u = UnitRef::try_from(&node).unwrap();
    assert_eq!(u.unit(), Unit::EMWSTruck);
    assert_eq!(u.faction(), Faction::Enemy);
    assert_eq!(u.unit_type(), Some(UnitType::MissileWarning));
    assert_eq!(u.name(), "Watcher");
    assert_eq!(u.id(), 3);
    assert_eq!(u.get_field("missing"), None);
}

#[test]
fn unknown_identifier_fails_projection() {
    let node = unit_node("NotARealUnit", 3, "Watcher", vec![]);
    match UnitRef::try_from(&node) {
        Err(ToUnitRefError::NotValidUnit) => {},
        other => panic!("expected NotValidUnit, got {:?}", other.map(|u| u.id())),
    }
}

#[test]
fn unknown_identifier_fails_scenario_construction() {
    let root = scenario_node(vec![unit_node("NotARealUnit", 3, "Watcher", vec![])]);
    let err = Scenario::try_from(&root).map(|_| ()).unwrap_err();
    assert_eq!(
        err,
        ToScenarioError::InvalidUnit { index: 0, reason: ToUnitRefError::NotValidUnit }
    );
}

#[test]
fn missing_id_name_or_fields_fail_projection() {
    let mut node = unit_node("EMWSTruck", 3, "Watcher", vec![]);
    node.values.remove(1);
    assert!(matches!(UnitRef::try_from(&node), Err(ToUnitRefError::InvalidUnitID)));

    let mut node = unit_node("EMWSTruck", 3, "Watcher", vec![]);
    node.values[1] = pair("unitInstanceID", Value::Str("3".to_string()));
    assert!(matches!(UnitRef::try_from(&node), Err(ToUnitRefError::InvalidUnitID)));

    let node = unit_node("EMWSTruck", -1, "Watcher", vec![]);
    assert!(matches!(UnitRef::try_from(&node), Err(ToUnitRefError::InvalidUnitID)));

    let mut node = unit_node("EMWSTruck", 3, "Watcher", vec![]);
    node.values.remove(2);
    assert!(matches!(UnitRef::try_from(&node), Err(ToUnitRefError::InvalidUnitName)));

    let mut node = unit_node("EMWSTruck", 3, "Watcher", vec![]);
    node.values[2] = pair("unitName", Value::Num(7));
    assert!(matches!(UnitRef::try_from(&node), Err(ToUnitRefError::InvalidUnitName)));

    let mut node = unit_node("EMWSTruck", 3, "Watcher", vec![]);
    node.nodes.clear();
    assert!(matches!(UnitRef::try_from(&node), Err(ToUnitRefError::MissingUnitFields)));
}

#[test]
fn scenario_structural_errors() {
    let mut root = scenario_node(vec![]);
    root.name = "SomethingElse".to_string();
    assert!(matches!(Scenario::try_from(&root), Err(ToScenarioError::NotCustomScenario)));

    let root = Node { name: "CustomScenario".to_string(), values: vec![], nodes: vec![] };
    assert!(matches!(Scenario::try_from(&root), Err(ToScenarioError::UnitsMissing)));
}

#[test]
fn invalid_unit_error_carries_its_position() {
    let root = scenario_node(vec![
        unit_node("EMWSTruck", 4, "One", vec![]),
        unit_node("NotARealUnit", 5, "Two", vec![]),
    ]);
    let err = Scenario::try_from(&root).map(|_| ()).unwrap_err();
    assert_eq!(
        err,
        ToScenarioError::InvalidUnit { index: 1, reason: ToUnitRefError::NotValidUnit }
    );
}

#[test]
fn duplicate_instance_ids_are_rejected() {
    let root = scenario_node(vec![
        unit_node("EMWSTruck", 4, "One", vec![]),
        unit_node("WatchmanTruck", 4, "Two", vec![]),
    ]);
    let err = Scenario::try_from(&root).map(|_| ()).unwrap_err();
    assert_eq!(err, ToScenarioError::DuplicateUnitID { id: 4 });
}

#[test]
fn scenario_keeps_document_order() {
    let root = scenario_node(vec![
        unit_node("EMWSTruck", 9, "A", vec![]),
        unit_node("WatchmanTruck", 2, "B", vec![]),
        unit_node("samBattery1", 7, "C", vec![]),
    ]);
    let scenario = Scenario::try_from(&root).unwrap();
    let ids: Vec<i64> = scenario.units().iter().map(|u| u.id()).collect();
    assert_eq!(ids, vec![9, 2, 7]);
    assert_eq!(scenario.get(2).unwrap().name(), "B");
    assert!(scenario.get(5).is_none());
}

#[test]
fn empty_segments_yield_empty_list() {
    for raw in [";;", "", ";"] {
        let node = unit_node("samBattery1", 1, "L", launcher_fields(Value::Str(raw.to_string())));
        let u = UnitRef::try_from(&node).unwrap();
        match access_fields(&u).unwrap() {
            Fields::SAMLauncher { engage_enemies, radars } => {
                assert!(engage_enemies);
                assert_eq!(radars, Vec::<i64>::new());
            },
            other => panic!("expected launcher fields, got {:?}", other),
        }
    }
}

#[test]
fn null_list_field_yields_empty_list() {
    let node = unit_node("samBattery1", 1, "L", launcher_fields(Value::Null));
    let u = UnitRef::try_from(&node).unwrap();
    match access_fields(&u).unwrap() {
        Fields::SAMLauncher { radars, .. } => assert_eq!(radars, Vec::<i64>::new()),
        other => panic!("expected launcher fields, got {:?}", other),
    }
}

#[test]
fn list_field_parses_ids_in_order() {
    let node = unit_node(
        "samBattery1",
        1,
        "L",
        launcher_fields(Value::Str("5;2;19;".to_string())),
    );
    let u = UnitRef::try_from(&node).unwrap();
    match access_fields(&u).unwrap() {
        Fields::SAMLauncher { radars, .. } => assert_eq!(radars, vec![5, 2, 19]),
        other => panic!("expected launcher fields, got {:?}", other),
    }
}

#[test]
fn non_numeric_segment_is_a_parse_error() {
    let node = unit_node(
        "samBattery1",
        1,
        "L",
        launcher_fields(Value::Str("12;abc".to_string())),
    );
    let u = UnitRef::try_from(&node).unwrap();
    let err = access_fields(&u).map(|_| ()).unwrap_err();
    assert_eq!(
        err,
        AccessFieldsError::ParseFieldError {
            field: "radarUnits",
            reason: "invalid number in instance id list",
        }
    );
}

#[test]
fn negative_segment_is_a_distinct_parse_error() {
    let node = unit_node(
        "samBattery1",
        1,
        "L",
        launcher_fields(Value::Str("-1;2".to_string())),
    );
    let u = UnitRef::try_from(&node).unwrap();
    let err = access_fields(&u).map(|_| ()).unwrap_err();
    assert_eq!(
        err,
        AccessFieldsError::ParseFieldError {
            field: "radarUnits",
            reason: "negative number in instance id list",
        }
    );
    assert_ne!(
        "negative number in instance id list",
        "invalid number in instance id list"
    );
}

#[test]
fn missing_and_mistyped_fields_are_reported() {
    let node = unit_node("samBattery1", 1, "L", vec![]);
    let u = UnitRef::try_from(&node).unwrap();
    assert_eq!(
        access_fields(&u).map(|_| ()).unwrap_err(),
        AccessFieldsError::MissingFieldError { field: "engageEnemies" }
    );

    let node = unit_node(
        "samBattery1",
        1,
        "L",
        vec![pair("engageEnemies", Value::Str("yes".to_string()))],
    );
    let u = UnitRef::try_from(&node).unwrap();
    assert_eq!(
        access_fields(&u).map(|_| ()).unwrap_err(),
        AccessFieldsError::FieldInvalidType {
            field: "engageEnemies",
            expected: "bool",
            found: "string",
        }
    );

    let node = unit_node("samBattery1", 1, "L", launcher_fields(Value::Num(5)));
    let u = UnitRef::try_from(&node).unwrap();
    assert_eq!(
        access_fields(&u).map(|_| ()).unwrap_err(),
        AccessFieldsError::FieldInvalidType {
            field: "radarUnits",
            expected: "string",
            found: "number",
        }
    );
}

#[test]
fn unit_without_category_has_no_fields() {
    let node = unit_node("MultiplayerSpawn", 1, "Spawn", vec![]);
    let u = UnitRef::try_from(&node).unwrap();
    assert_eq!(u.unit_type(), None);
    assert_eq!(
        access_fields(&u).map(|_| ()).unwrap_err(),
        AccessFieldsError::UnitMissingType
    );
}

#[test]
fn value_kind_names() {
    assert_eq!(Value::Num(1).get_type(), "number");
    assert_eq!(Value::Float.get_type(), "float");
    assert_eq!(Value::Boolean(true).get_type(), "bool");
    assert_eq!(Value::Vector.get_type(), "vector");
    assert_eq!(Value::VectorGroup.get_type(), "vector_group");
    assert_eq!(Value::Str(String::new()).get_type(), "string");
    assert_eq!(Value::Null.get_type(), "null");
}

#[test]
fn integer_parsing_edges() {
    assert_eq!(parse_i64_str("0"), Some(0));
    assert_eq!(parse_i64_str("123"), Some(123));
    assert_eq!(parse_i64_str("+5"), Some(5));
    assert_eq!(parse_i64_str("-0"), Some(0));
    assert_eq!(parse_i64_str("-17"), Some(-17));
    assert_eq!(parse_i64_str(""), None);
    assert_eq!(parse_i64_str("+"), None);
    assert_eq!(parse_i64_str("-"), None);
    assert_eq!(parse_i64_str("12a"), None);
    assert_eq!(parse_i64_str(" 5"), None);
    assert_eq!(parse_i64_str("9223372036854775807"), Some(i64::MAX));
    assert_eq!(parse_i64_str("9223372036854775808"), None);
    assert_eq!(parse_i64_str("-9223372036854775808"), Some(i64::MIN));
    assert_eq!(parse_i64_str("-9223372036854775809"), None);
    assert_eq!(parse_i64_str("99999999999999999999999999"), None);
}

#[test]
fn catalog_lookups() {
    assert_eq!(unit_from_id("EMWSTruck"), Some(Unit::EMWSTruck));
    assert_eq!(unit_from_id("AMWSTruck Variant"), Some(Unit::AMWSTruckVariant));
    assert_eq!(unit_from_id("nope"), None);
    assert_eq!(get_unit_type(&Unit::WatchmanTruck), Some(UnitType::SAMRadar));
    assert_eq!(get_unit_type(&Unit::SamBattery1), Some(UnitType::SAMLauncher));
    assert_eq!(get_unit_type(&Unit::EIRMDLauncher), Some(UnitType::IRMD));
    assert_eq!(get_unit_type(&Unit::MultiplayerSpawn), None);
    assert_eq!(get_unit_faction(&Unit::EMWSTruck), Faction::Enemy);
    assert_eq!(get_unit_faction(&Unit::AlliedEWRadar), Faction::Allied);
}

#[test]
fn catalog_data_type_overrides() {
    assert_eq!(type_override("EMWSTruck"), Some("MissileWarning".to_string()));
    assert_eq!(type_override("MAD-4Launcher"), Some("SAMLauncher".to_string()));
    assert_eq!(type_override("SamFCR2"), Some("SAMRadar".to_string()));
    assert_eq!(type_override("aIRMDlauncher"), Some("IRMD".to_string()));
    assert_eq!(type_override("MultiplayerSpawn"), None);
}

#[test]
fn error_messages() {
    assert_eq!(ToUnitRefError::NotValidUnit.message(), "Unit was not valid unit");
    assert_eq!(ToUnitRefError::InvalidUnitID.message(), "Unit id missing or invalid");
    assert_eq!(ToUnitRefError::InvalidUnitName.message(), "Unit name missing or invalid");
    assert_eq!(ToUnitRefError::MissingUnitFields.message(), "Unit fields missing");
    assert_eq!(ToScenarioError::NotCustomScenario.message(), "Not CustomScenario");
    assert_eq!(ToScenarioError::UnitsMissing.message(), "UNITS node missing from route");
    assert_eq!(
        ToScenarioError::DuplicateUnitID { id: 17 }.message(),
        format!("Duplicate unit id {}", 17)
    );
    assert_eq!(
        AccessFieldsError::MissingFieldError { field: "radarUnits" }.message(),
        "Missing field radarUnits."
    );
    assert_eq!(
        AccessFieldsError::FieldInvalidType {
            field: "engageEnemies",
            expected: "bool",
            found: "string",
        }
        .message(),
        "Field engageEnemies had invalid type."
    );
    assert_eq!(
        AccessFieldsError::ParseFieldError {
            field: "radarUnits",
            reason: "negative number in instance id list",
        }
        .message(),
        "Couldn't parse radarUnits, because negative number in instance id list."
    );
    assert_eq!(AccessFieldsError::UnitMissingType.message(), "Unit has no type");
    assert_eq!(
        AccessFieldsError::InvalidUnitType.message(),
        "We haven't defined fields for this unit type"
    );
}

#[test]
fn rust_identifier_mangling() {
    assert_eq!(name_to_rust_identifier("MAD-4 Launcher/A"), "MAD_4_Launcher_A");
    assert_eq!(name_to_rust_identifier("plain"), "plain");
    assert_eq!(name_to_rust_identifier(""), "");
    assert_eq!(name_to_rust_identifier("--"), "__");
}
