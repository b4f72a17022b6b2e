//! The decoy-device lint: every infrared-decoy-device unit must be
//! referenced by some warning-system's missile-defense list. This is the
//! inverse-reference shape: the filtered unit is the target of a
//! reference held elsewhere.

use vstd::prelude::*;
use vstd::string::*;
use crate::catalog::UnitType;
use crate::fields::{Fields, FieldsV, access_fields, spec_access_fields};
use crate::lints::{
    LintErrV, LintError, Rule, UnitLint, Warning, WarningV, access_err, lint_err_view, warning_v,
    warnings_view,
};
use crate::units::{Scenario, UnitRef, UnitRefView};

verus! {

/// The description reported when no warning-system links to the unit.
pub open spec fn irmd_no_mw_desc() -> Seq<char> {
    "IRMD has no MW linking to it!"@
}

/// Scans the remaining units left to right: whether some warning-system
/// among them lists `u`'s id in its missile defenses. A warning-system
/// whose fields cannot be interpreted aborts the scan; the error names
/// `u`, the unit under examination.
pub open spec fn irmd_scan(u: UnitRefView, rem: Seq<UnitRefView>) -> Result<bool, LintErrV>
    decreases rem.len(),
{
    if rem.len() == 0 {
        Ok(false)
    } else {
        let uu = rem[0];
        if uu.unit_type == Some(UnitType::MissileWarning) {
            match spec_access_fields(uu.fields, uu.unit_type) {
                Err(e) => Err(access_err(u, e)),
                Ok(f) => {
                    let found = match f {
                        FieldsV::MissileWarning { missile_defenses, .. } => (
                        missile_defenses.contains(u.id)),
                        _ => false,
                    };
                    match irmd_scan(u, rem.drop_first()) {
                        Err(e) => Err(e),
                        Ok(acc) => Ok(acc || found),
                    }
                },
            }
        } else {
            irmd_scan(u, rem.drop_first())
        }
    }
}

/// The rule on one decoy-device unit: one warning when no warning-system
/// in the whole scenario references it, none otherwise.
pub open spec fn irmd_rule(u: UnitRefView, s: Seq<UnitRefView>) -> Result<Seq<WarningV>, LintErrV> {
    match irmd_scan(u, s) {
        Err(e) => Err(e),
        Ok(found) => if found {
            Ok(Seq::empty())
        } else {
            Ok(seq![warning_v(u, irmd_no_mw_desc())])
        },
    }
}

fn contains_i64(v: &Vec<i64>, x: i64) -> (r: bool)
    ensures
        r == v@.contains(x),
{
    let n = v.len();
    let mut j: usize = 0;
    while j < n
        invariant
            0 <= j <= n,
            n == v@.len(),
            forall|t: int| 0 <= t < j ==> v@[t] != x,
        decreases n - j,
    {
        if v[j] == x {
            return true;
        }
        j = j + 1;
    }
    proof {
        assert(forall|t: int| 0 <= t < v@.len() ==> v@[t] != x);
    }
    false
}

pub(crate) fn irmd_rule_exec(unit: &UnitRef<'_>, scenario: &Scenario<'_>) -> (r: Result<
    Vec<Warning>,
    LintError,
>)
    ensures
        match r {
            Ok(ws) => irmd_rule(unit@, scenario@) == Ok::<Seq<WarningV>, LintErrV>(
                warnings_view(ws@),
            ),
            Err(e) => irmd_rule(unit@, scenario@) == Err::<Seq<WarningV>, LintErrV>(
                lint_err_view(e),
            ),
        },
{
    let our_id = unit.id();
    let ghost u = unit@;
    let ghost s = scenario@;
    let n = scenario.units.len();
    let mut has_mw = false;
    let mut k: usize = 0;
    proof {
        assert(s.skip(0) =~= s);
    }
    while k < n
        invariant
            0 <= k <= n,
            n == scenario.units@.len(),
            u == unit@,
            s == scenario@,
            s.len() == n,
            our_id == u.id,
            irmd_scan(u, s) == (match irmd_scan(u, s.skip(k as int)) {
                Ok(rest) => Ok::<bool, LintErrV>(has_mw || rest),
                Err(e) => Err::<bool, LintErrV>(e),
            }),
        decreases n - k,
    {
        proof {
            assert(s.skip(k as int)[0] == s[k as int]);
            assert(s.skip(k as int).drop_first() =~= s.skip(k + 1));
            assert(s[k as int] == scenario.units@[k as int]@);
        }
        let uu = &scenario.units[k];
        let is_mw = match uu.unit_type() {
            Some(UnitType::MissileWarning) => true,
            _ => false,
        };
        if is_mw {
            let f = match access_fields(uu) {
                Err(e) => {
                    return Err(
                        LintError::UnitAccessError {
                            unit: unit.name().to_owned(),
                            unit_id: unit.id(),
                            reason: e,
                        },
                    );
                },
                Ok(f) => f,
            };
            match f {
                Fields::MissileWarning { missile_defenses, .. } => {
                    if contains_i64(&missile_defenses, our_id) {
                        has_mw = true;
                    }
                },
                _ => {},
            }
        }
        k = k + 1;
    }
    proof {
        assert(s.skip(n as int) =~= Seq::<UnitRefView>::empty());
    }
    if !has_mw {
        let mut ws: Vec<Warning> = Vec::new();
        ws.push(Warning::new(unit, "IRMD has no MW linking to it!".to_owned()));
        proof {
            assert(warnings_view(ws@) =~= seq![warning_v(u, irmd_no_mw_desc())]);
        }
        Ok(ws)
    } else {
        let ws: Vec<Warning> = Vec::new();
        proof {
            assert(warnings_view(ws@) =~= Seq::<WarningV>::empty());
        }
        Ok(ws)
    }
}

/// The decoy-device lint: filter on the decoy-device category, rule as
/// `irmd_rule` describes.
pub fn irmd_linked_to_by_mw() -> (l: UnitLint)
    ensures
        l == (UnitLint { filter: UnitType::IRMD, rule: Rule::IrmdLinkedToByMw }),
{
    UnitLint::new(UnitType::IRMD, Rule::IrmdLinkedToByMw)
}

} // verus!
