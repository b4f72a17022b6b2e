//! Tests of the lint engine and the three concrete checks.

use vts_lint::fields::AccessFieldsError;
use vts_lint::lints::irmd::irmd_linked_to_by_mw;
use vts_lint::lints::mw::mw_has_radar;
use vts_lint::lints::sam_launcher::sam_launcher_attached_to_radar;
use vts_lint::lints::{LintError, Lints, Warning};
use vts_lint::tree::{Node, Value};
use vts_lint::units::Scenario;

fn pair(k: &str, v: Value) -> (String, Value) {
    (k.to_string(), v)
}

fn unit_node(unit_id: &str, instance_id: i64, name: &str, fields: Vec<(String, Value)>) -> Node {
    Node {
        name: "Unit".to_string(),
        values: vec![
            pair("unitID", Value::Str(unit_id.to_string())),
            pair("unitInstanceID", Value::Num(instance_id)),
            pair("unitName", Value::Str(name.to_string())),
        ],
        nodes: vec![Node { name: "UnitFields".to_string(), values: fields, nodes: vec![] }],
    }
}

fn scenario_node(units: Vec<Node>) -> Node {
    Node {
        name: "CustomScenario".to_string(),
        values: vec![],
        nodes: vec![Node { name: "UNITS".to_string(), values: vec![], nodes: units }],
    }
}

fn mw_fields(radar_units: Value, defense_units: Value) -> Vec<(String, Value)> {
    vec![
        pair("engageEnemies", Value::Boolean(true)),
        pair("radarUnits", radar_units),
        pair("decoyUnits", Value::Null),
        pair("unitsToDefend", Value::Null),
        pair("defenseUnits", defense_units),
        pair("jammerUnits", Value::Null),
    ]
}

fn launcher_fields(radar_units: Value) -> Vec<(String, Value)> {
    vec![pair("engageEnemies", Value::Boolean(true)), pair("radarUnits", radar_units)]
}

fn radar_fields() -> Vec<(String, Value)> {
    vec![pair("engageEnemies", Value::Boolean(false))]
}

fn irmd_fields() -> Vec<(String, Value)> {
    vec![pair("engageEnemies", Value::Boolean(false))]
}

fn all_lints() -> Lints {
    let mut lints = Lints::default();
    lints.add_lint(mw_has_radar());
    lints.add_lint(irmd_linked_to_by_mw());
    lints.add_lint(sam_launcher_attached_to_radar());
    lints
}

#[test]
fn mw_with_empty_radar_list_gets_one_warning() {
    let root = scenario_node(vec![unit_node(
        "EMWSTruck",
        1,
        "Watcher",
        mw_fields(Value::Str("".to_string()), Value::Null),
    )]);
    let scenario = Scenario::try_from(&root).unwrap();
    let warnings = all_lints().lint(&scenario).unwrap();
    assert_eq!(
        warnings,
        vec![Warning {
            unit_name: "Watcher".to_string(),
            unit_id: 1,
            description: "MW has no Radars!".to_string(),
        }]
    );
}

#[test]
fn launcher_with_nonexistent_radar_gets_one_warning() {
    let root = scenario_node(vec![unit_node(
        "samBattery1",
        1,
        "Battery",
        launcher_fields(Value::Str("5".to_string())),
    )]);
    let scenario = Scenario::try_from(&root).unwrap();
    let warnings = all_lints().lint(&scenario).unwrap();
    assert_eq!(
        warnings,
        vec![Warning {
            unit_name: "Battery".to_string(),
            unit_id: 1,
            description: format!("SAM Launcher's radar id:{} does not exist!", 5),
        }]
    );
}

#[test]
fn launcher_with_wrong_category_radar_gets_one_warning() {
    let root = scenario_node(vec![
        unit_node("samBattery1", 1, "Battery", launcher_fields(Value::Str("5".to_string()))),
        unit_node(
            "EMWSTruck",
            5,
            "Watcher",
            mw_fields(Value::Str("1".to_string()), Value::Null),
        ),
    ]);
    let scenario = Scenario::try_from(&root).unwrap();
    let warnings = sam_launcher_attached_to_radar().lint(&scenario).unwrap();
    assert_eq!(
        warnings,
        vec![Warning {
            unit_name: "Battery".to_string(),
            unit_id: 1,
            description: "SAM Launcher's radar Watcher (id:5) is not a radar!".to_string(),
        }]
    );
}

#[test]
fn linked_decoy_device_gets_no_warning() {
    let root = scenario_node(vec![
        unit_node("eIRMDlauncher", 9, "Decoy", irmd_fields()),
        unit_node(
            "EMWSTruck",
            1,
            "Watcher",
            mw_fields(Value::Str("2".to_string()), Value::Str("9".to_string())),
        ),
        unit_node("WatchmanTruck", 2, "Radar", radar_fields()),
    ]);
    let scenario = Scenario::try_from(&root).unwrap();
    let warnings = irmd_linked_to_by_mw().lint(&scenario).unwrap();
    assert_eq!(warnings, vec![]);
}

#[test]
fn unlinked_decoy_device_gets_one_warning() {
    let root = scenario_node(vec![
        unit_node("eIRMDlauncher", 9, "Decoy", irmd_fields()),
        unit_node(
            "EMWSTruck",
            1,
            "Watcher",
            mw_fields(Value::Str("2".to_string()), Value::Str("".to_string())),
        ),
        unit_node("WatchmanTruck", 2, "Radar", radar_fields()),
    ]);
    let scenario = Scenario::try_from(&root).unwrap();
    let warnings = irmd_linked_to_by_mw().lint(&scenario).unwrap();
    assert_eq!(
        warnings,
        vec![Warning {
            unit_name: "Decoy".to_string(),
            unit_id: 9,
            description: "IRMD has no MW linking to it!".to_string(),
        }]
    );
}

#[test]
fn composite_run_is_idempotent() {
    let root = scenario_node(vec![
        unit_node("eIRMDlauncher", 9, "Decoy", irmd_fields()),
        unit_node(
            "EMWSTruck",
            1,
            "Watcher",
            mw_fields(Value::Str("5;2".to_string()), Value::Str("".to_string())),
        ),
        unit_node("WatchmanTruck", 2, "Radar", radar_fields()),
        unit_node("samBattery1", 3, "Battery", launcher_fields(Value::Str("".to_string()))),
    ]);
    let scenario = Scenario::try_from(&root).unwrap();
    let lints = all_lints();
    let first = lints.lint(&scenario).unwrap();
    let second = lints.lint(&scenario).unwrap();
    assert_eq!(first, second);
    assert!(!first.is_empty());
}

#[test]
fn warnings_keep_reference_list_order() {
    let root = scenario_node(vec![
        unit_node(
            "EMWSTruck",
            1,
            "Watcher",
            mw_fields(Value::Str("5;6;2".to_string()), Value::Null),
        ),
        unit_node("WatchmanTruck", 2, "Radar", radar_fields()),
        unit_node("samBattery1", 6, "Battery", launcher_fields(Value::Str("2".to_string()))),
    ]);
    let scenario = Scenario::try_from(&root).unwrap();
    let warnings = mw_has_radar().lint(&scenario).unwrap();
    assert_eq!(
        warnings,
        vec![
            Warning {
                unit_name: "Watcher".to_string(),
                unit_id: 1,
                description: format!("MW radar {} does not exist!", 5),
            },
            Warning {
                unit_name: "Watcher".to_string(),
                unit_id: 1,
                description: "MW radar Battery (id:6) is not a radar.".to_string(),
            },
        ]
    );
}

#[test]
fn composite_concatenates_in_registration_order() {
    let root = scenario_node(vec![
        unit_node("eIRMDlauncher", 9, "Decoy", irmd_fields()),
        unit_node(
            "EMWSTruck",
            1,
            "Watcher",
            mw_fields(Value::Str("".to_string()), Value::Str("".to_string())),
        ),
    ]);
    let scenario = Scenario::try_from(&root).unwrap();
    let warnings = all_lints().lint(&scenario).unwrap();
    let descriptions: Vec<&str> = warnings.iter().map(|w| w.description.as_str()).collect();
    assert_eq!(
        descriptions,
        vec!["MW has no Radars!", "IRMD has no MW linking to it!"]
    );
}

#[test]
fn bad_fields_abort_the_run_with_unit_context() {
    let root = scenario_node(vec![unit_node(
        "EMWSTruck",
        1,
        "Watcher",
        vec![pair("engageEnemies", Value::Boolean(true))],
    )]);
    let scenario = Scenario::try_from(&root).unwrap();
    let err = all_lints().lint(&scenario).unwrap_err();
    assert_eq!(
        err,
        LintError::UnitAccessError {
            unit: "Watcher".to_string(),
            unit_id: 1,
            reason: AccessFieldsError::MissingFieldError { field: "radarUnits" },
        }
    );
}

#[test]
fn decoy_scan_reports_the_decoy_on_foreign_field_errors() {
    let root = scenario_node(vec![
        unit_node("eIRMDlauncher", 9, "Decoy", irmd_fields()),
        unit_node(
            "EMWSTruck",
            1,
            "Watcher",
            vec![pair("engageEnemies", Value::Boolean(true))],
        ),
    ]);
    let scenario = Scenario::try_from(&root).unwrap();
    let err = irmd_linked_to_by_mw().lint(&scenario).unwrap_err();
    assert_eq!(
        err,
        LintError::UnitAccessError {
            unit: "Decoy".to_string(),
            unit_id: 9,
            reason: AccessFieldsError::MissingFieldError { field: "radarUnits" },
        }
    );
}

#[test]
fn run_level_errors_suppress_all_warnings() {
    // The first lint would produce a warning, but a later unit's bad
    // fields abort the whole run: never warnings and an error together.
    let root = scenario_node(vec![
        unit_node(
            "EMWSTruck",
            1,
            "Watcher",
            mw_fields(Value::Str("".to_string()), Value::Null),
        ),
        unit_node(
            "samBattery1",
            2,
            "Battery",
            vec![pair("engageEnemies", Value::Boolean(true))],
        ),
    ]);
    let scenario = Scenario::try_from(&root).unwrap();
    let result = all_lints().lint(&scenario);
    assert_eq!(
        result,
        Err(LintError::UnitAccessError {
            unit: "Battery".to_string(),
            unit_id: 2,
            reason: AccessFieldsError::MissingFieldError { field: "radarUnits" },
        })
    );
}

#[test]
fn lint_error_message_names_the_unit() {
    let err = LintError::UnitAccessError {
        unit: "Watcher".to_string(),
        unit_id: 12,
        reason: AccessFieldsError::MissingFieldError { field: "radarUnits" },
    };
    assert_eq!(err.message(), format!("Couldn't access fields of {} (id:{})", "Watcher", 12));
}

#[test]
fn matching_references_produce_no_warnings() {
    let root = scenario_node(vec![
        unit_node(
            "EMWSTruck",
            1,
            "Watcher",
            mw_fields(Value::Str("2".to_string()), Value::Null),
        ),
        unit_node("WatchmanTruck", 2, "Radar", radar_fields()),
        unit_node("samBattery1", 3, "Battery", launcher_fields(Value::Str("2".to_string()))),
    ]);
    let scenario = Scenario::try_from(&root).unwrap();
    let warnings = all_lints().lint(&scenario).unwrap();
    assert_eq!(warnings, vec![]);
}
