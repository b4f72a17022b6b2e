//! The warning-system lint: every warning-system unit must reference at
//! least one existing unit of the sensor category.

use vstd::prelude::*;
use vstd::string::*;
use crate::catalog::UnitType;
use crate::fields::{Fields, FieldsV, access_fields, spec_access_fields};
use crate::lints::{
    LintErrV, LintError, Rule, UnitLint, Warning, WarningV, access_err, lint_err_view, warning_v,
    warnings_view,
};
use crate::strutil::{dec_int, i64_to_string};
use crate::units::{Scenario, UnitRef, UnitRefView, find_unit};

verus! {

/// The description reported when a warning-system has no sensors at all.
pub open spec fn mw_no_radar_desc() -> Seq<char> {
    "MW has no Radars!"@
}

/// The description reported for a referenced id absent from the scenario.
pub open spec fn mw_radar_missing_desc(rid: i64) -> Seq<char> {
    "MW radar "@ + dec_int(rid as int) + " does not exist!"@
}

/// The description reported for a referenced unit of the wrong category.
pub open spec fn mw_radar_wrong_desc(name: Seq<char>, id: i64) -> Seq<char> {
    "MW radar "@ + name + " (id:"@ + dec_int(id as int) + ") is not a radar."@
}

/// The warnings one referenced id contributes: one if it is absent from
/// the scenario, one if it is not a sensor, none if it is a sensor.
pub open spec fn mw_radar_warning(u: UnitRefView, s: Seq<UnitRefView>, rid: i64) -> Seq<WarningV> {
    match find_unit(s, rid) {
        None => seq![warning_v(u, mw_radar_missing_desc(rid))],
        Some(r) => if r.unit_type == Some(UnitType::SAMRadar) {
            Seq::empty()
        } else {
            seq![warning_v(u, mw_radar_wrong_desc(r.name, r.id))]
        },
    }
}

/// The warnings of all referenced ids, in list order.
pub open spec fn mw_radar_warnings(u: UnitRefView, s: Seq<UnitRefView>, rids: Seq<i64>) -> Seq<
    WarningV,
>
    decreases rids.len(),
{
    if rids.len() == 0 {
        Seq::empty()
    } else {
        mw_radar_warning(u, s, rids[0]) + mw_radar_warnings(u, s, rids.drop_first())
    }
}

/// The rule on one warning-system unit: interpret its fields; an empty
/// sensor list is one warning, otherwise each bad reference is one.
pub open spec fn mw_rule(u: UnitRefView, s: Seq<UnitRefView>) -> Result<Seq<WarningV>, LintErrV> {
    match spec_access_fields(u.fields, u.unit_type) {
        Err(e) => Err(access_err(u, e)),
        Ok(f) => match f {
            FieldsV::MissileWarning { radars, .. } => if radars.len() == 0 {
                Ok(seq![warning_v(u, mw_no_radar_desc())])
            } else {
                Ok(mw_radar_warnings(u, s, radars))
            },
            _ => Ok(Seq::empty()),
        },
    }
}

fn missing_desc(rid: i64) -> (d: String)
    ensures
        d@ == mw_radar_missing_desc(rid),
{
    let mut d: String = "MW radar ".to_owned();
    let num = i64_to_string(rid);
    d.append(num.as_str());
    d.append(" does not exist!");
    d
}

fn wrong_desc(name: &str, id: i64) -> (d: String)
    ensures
        d@ == mw_radar_wrong_desc(name@, id),
{
    let mut d: String = "MW radar ".to_owned();
    d.append(name);
    d.append(" (id:");
    let num = i64_to_string(id);
    d.append(num.as_str());
    d.append(") is not a radar.");
    d
}

pub(crate) fn mw_rule_exec(unit: &UnitRef<'_>, scenario: &Scenario<'_>) -> (r: Result<
    Vec<Warning>,
    LintError,
>)
    ensures
        match r {
            Ok(ws) => mw_rule(unit@, scenario@) == Ok::<Seq<WarningV>, LintErrV>(
                warnings_view(ws@),
            ),
            Err(e) => mw_rule(unit@, scenario@) == Err::<Seq<WarningV>, LintErrV>(
                lint_err_view(e),
            ),
        },
{
    let fields = match access_fields(unit) {
        Err(e) => {
            return Err(
                LintError::UnitAccessError {
                    unit: unit.name().to_owned(),
                    unit_id: unit.id(),
                    reason: e,
                },
            );
        },
        Ok(f) => f,
    };
    match fields {
        Fields::MissileWarning { radars, .. } => {
            if radars.len() == 0 {
                let mut ws: Vec<Warning> = Vec::new();
                ws.push(Warning::new(unit, "MW has no Radars!".to_owned()));
                proof {
                    assert(warnings_view(ws@) =~= seq![warning_v(unit@, mw_no_radar_desc())]);
                }
                return Ok(ws);
            }
            let ghost u = unit@;
            let ghost s = scenario@;
            let ghost rids = radars@;
            let m = radars.len();
            let mut ws: Vec<Warning> = Vec::new();
            let mut k: usize = 0;
            proof {
                assert(rids.skip(0) =~= rids);
                assert(warnings_view(ws@) =~= Seq::<WarningV>::empty());
            }
            while k < m
                invariant
                    0 <= k <= m,
                    m == radars@.len(),
                    rids == radars@,
                    u == unit@,
                    s == scenario@,
                    mw_radar_warnings(u, s, rids) == warnings_view(ws@) + mw_radar_warnings(
                        u,
                        s,
                        rids.skip(k as int),
                    ),
                decreases m - k,
            {
                proof {
                    assert(rids.skip(k as int)[0] == rids[k as int]);
                    assert(rids.skip(k as int).drop_first() =~= rids.skip(k + 1));
                }
                let rid = radars[k];
                let ghost oldws = ws@;
                match scenario.get(rid) {
                    None => {
                        ws.push(Warning::new(unit, missing_desc(rid)));
                        proof {
                            assert(warnings_view(ws@) =~= warnings_view(oldws) + seq![
                                warning_v(u, mw_radar_missing_desc(rid)),
                            ]);
                        }
                    },
                    Some(radar) => {
                        let is_radar = match radar.unit_type() {
                            Some(UnitType::SAMRadar) => true,
                            _ => false,
                        };
                        if !is_radar {
                            ws.push(Warning::new(unit, wrong_desc(radar.name(), radar.id())));
                            proof {
                                assert(warnings_view(ws@) =~= warnings_view(oldws) + seq![
                                    warning_v(u, mw_radar_wrong_desc(radar@.name, radar@.id)),
                                ]);
                            }
                        }
                    },
                }
                proof {
                    assert(mw_radar_warnings(u, s, rids.skip(k as int)) == mw_radar_warning(
                        u,
                        s,
                        rids[k as int],
                    ) + mw_radar_warnings(u, s, rids.skip(k + 1)));
                    assert(warnings_view(oldws) + (mw_radar_warning(u, s, rids[k as int])
                        + mw_radar_warnings(u, s, rids.skip(k + 1))) =~= (warnings_view(oldws)
                        + mw_radar_warning(u, s, rids[k as int])) + mw_radar_warnings(
                        u,
                        s,
                        rids.skip(k + 1),
                    ));
                    assert(warnings_view(ws@) =~= warnings_view(oldws) + mw_radar_warning(
                        u,
                        s,
                        rids[k as int],
                    ));
                }
                k = k + 1;
            }
            proof {
                assert(rids.skip(m as int) =~= Seq::<i64>::empty());
                assert(warnings_view(ws@) + Seq::<WarningV>::empty() =~= warnings_view(ws@));
            }
            Ok(ws)
        },
        _ => {
            let ws: Vec<Warning> = Vec::new();
            proof {
                assert(warnings_view(ws@) =~= Seq::<WarningV>::empty());
            }
            Ok(ws)
        },
    }
}

/// The warning-system lint: filter on the warning-system category, rule
/// as `mw_rule` describes.
pub fn mw_has_radar() -> (l: UnitLint)
    ensures
        l == (UnitLint { filter: UnitType::MissileWarning, rule: Rule::MwHasRadar }),
{
    UnitLint::new(UnitType::MissileWarning, Rule::MwHasRadar)
}

} // verus!
