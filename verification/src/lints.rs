//! The lint engine: a lint is a pure check over a `Scenario` producing
//! advisory warnings or a hard error. A `UnitLint` pairs a per-unit
//! category filter with a per-unit rule; `Lints` runs a registered list
//! of them in order, concatenating warnings and stopping at the first
//! error.

use vstd::prelude::*;
use vstd::string::*;
use crate::catalog::UnitType;
use crate::fields::{AccessErrV, AccessFieldsError, err_view};
use crate::units::{Scenario, UnitRef, UnitRefView};

pub mod irmd;
pub mod mw;
pub mod sam_launcher;

verus! {

/// One reported problem: the offending unit's display name and id, and a
/// free-text description. All findings are advisory.
#[derive(Debug, PartialEq)]
pub struct Warning {
    pub unit_name: String,
    pub unit_id: i64,
    pub description: String,
}

/// The mathematical content of a `Warning`.
pub ghost struct WarningV {
    pub unit_name: Seq<char>,
    pub unit_id: i64,
    pub description: Seq<char>,
}

impl View for Warning {
    type V = WarningV;

    open spec fn view(&self) -> WarningV {
        WarningV {
            unit_name: self.unit_name@,
            unit_id: self.unit_id,
            description: self.description@,
        }
    }
}

/// The warning a unit `u` is reported with, under description `d`.
pub open spec fn warning_v(u: UnitRefView, d: Seq<char>) -> WarningV {
    WarningV { unit_name: u.name, unit_id: u.id, description: d }
}

/// The views of a sequence of warnings.
pub open spec fn warnings_view(ws: Seq<Warning>) -> Seq<WarningV> {
    ws.map_values(|w: Warning| w@)
}

impl Warning {
    /// Builds the warning that reports `unit` with `description`.
    pub fn new(unit: &UnitRef<'_>, description: String) -> (w: Warning)
        ensures
            w@ == warning_v(unit@, description@),
    {
        Warning { unit_name: unit.name().to_owned(), unit_id: unit.id(), description }
    }
}

/// Why a lint run aborted: a unit's fields could not be interpreted.
#[derive(Debug, PartialEq)]
pub enum LintError {
    UnitAccessError { unit: String, unit_id: i64, reason: AccessFieldsError },
}

/// The message each lint error carries.
pub open spec fn lint_error_message(e: LintError) -> Seq<char> {
    match e {
        LintError::UnitAccessError { unit, unit_id, .. } => "Couldn't access fields of "@ + unit@
            + " (id:"@ + crate::strutil::dec_int(unit_id as int) + ")"@,
    }
}

impl LintError {
    /// A human-readable account of the error.
    pub fn message(&self) -> (m: String)
        ensures
            m@ == lint_error_message(*self),
    {
        match self {
            LintError::UnitAccessError { unit, unit_id, .. } => {
                let mut m: String = "Couldn't access fields of ".to_owned();
                m.append(unit.as_str());
                m.append(" (id:");
                let num = crate::strutil::i64_to_string(*unit_id);
                m.append(num.as_str());
                m.append(")");
                m
            },
        }
    }
}

/// The mathematical content of a `LintError`.
pub ghost struct LintErrV {
    pub unit: Seq<char>,
    pub unit_id: i64,
    pub reason: AccessErrV,
}

/// The mathematical content of a `LintError` value.
pub open spec fn lint_err_view(e: LintError) -> LintErrV {
    match e {
        LintError::UnitAccessError { unit, unit_id, reason } => LintErrV {
            unit: unit@,
            unit_id,
            reason: err_view(reason),
        },
    }
}

/// The error that reports a failure to interpret the fields needed for
/// unit `u`, for reason `r`.
pub open spec fn access_err(u: UnitRefView, r: AccessErrV) -> LintErrV {
    LintErrV { unit: u.name, unit_id: u.id, reason: r }
}

/// The per-unit rule of a concrete lint.
#[derive(Debug, Clone, Copy, PartialEq, Eq, Structural)]
pub enum Rule {
    MwHasRadar,
    SamLauncherAttachedToRadar,
    IrmdLinkedToByMw,
}

/// One concrete lint: a category filter and a per-unit rule, applied to
/// every unit of the scenario that matches the filter.
#[derive(Debug, Clone, Copy, PartialEq, Eq, Structural)]
pub struct UnitLint {
    pub filter: UnitType,
    pub rule: Rule,
}

impl UnitLint {
    /// Pairs a category filter with a rule.
    pub fn new(filter: UnitType, rule: Rule) -> (l: UnitLint)
        ensures
            l == (UnitLint { filter, rule }),
    {
        UnitLint { filter, rule }
    }
}

/// What a rule yields on one unit, against the whole scenario.
pub open spec fn rule_spec(rule: Rule, u: UnitRefView, s: Seq<UnitRefView>) -> Result<
    Seq<WarningV>,
    LintErrV,
> {
    match rule {
        Rule::MwHasRadar => mw::mw_rule(u, s),
        Rule::SamLauncherAttachedToRadar => sam_launcher::sam_rule(u, s),
        Rule::IrmdLinkedToByMw => irmd::irmd_rule(u, s),
    }
}

/// Applies `l` to the remaining units left to right: a unit passing the
/// filter contributes its rule's warnings; the first error aborts.
pub open spec fn run_unit_lint(l: UnitLint, all: Seq<UnitRefView>, rem: Seq<UnitRefView>) -> Result<
    Seq<WarningV>,
    LintErrV,
>
    decreases rem.len(),
{
    if rem.len() == 0 {
        Ok(Seq::empty())
    } else {
        let head = if rem[0].unit_type == Some(l.filter) {
            rule_spec(l.rule, rem[0], all)
        } else {
            Ok(Seq::empty())
        };
        match head {
            Err(e) => Err(e),
            Ok(ws) => match run_unit_lint(l, all, rem.drop_first()) {
                Err(e) => Err(e),
                Ok(rest) => Ok(ws + rest),
            },
        }
    }
}

/// What one concrete lint yields on a scenario.
pub open spec fn unit_lint_spec(l: UnitLint, s: Seq<UnitRefView>) -> Result<
    Seq<WarningV>,
    LintErrV,
> {
    run_unit_lint(l, s, s)
}

fn apply_rule(rule: Rule, unit: &UnitRef<'_>, scenario: &Scenario<'_>) -> (r: Result<
    Vec<Warning>,
    LintError,
>)
    ensures
        match r {
            Ok(ws) => rule_spec(rule, unit@, scenario@) == Ok::<Seq<WarningV>, LintErrV>(
                warnings_view(ws@),
            ),
            Err(e) => rule_spec(rule, unit@, scenario@) == Err::<Seq<WarningV>, LintErrV>(
                lint_err_view(e),
            ),
        },
{
    match rule {
        Rule::MwHasRadar => mw::mw_rule_exec(unit, scenario),
        Rule::SamLauncherAttachedToRadar => sam_launcher::sam_rule_exec(unit, scenario),
        Rule::IrmdLinkedToByMw => irmd::irmd_rule_exec(unit, scenario),
    }
}

impl UnitLint {
    /// Runs this lint over the scenario, exactly as `unit_lint_spec`
    /// describes: filtered units in document order, warnings
    /// concatenated, first error aborting the run.
    pub fn lint(&self, scenario: &Scenario<'_>) -> (r: Result<Vec<Warning>, LintError>)
        ensures
            match r {
                Ok(ws) => unit_lint_spec(*self, scenario@) == Ok::<Seq<WarningV>, LintErrV>(
                    warnings_view(ws@),
                ),
                Err(e) => unit_lint_spec(*self, scenario@) == Err::<Seq<WarningV>, LintErrV>(
                    lint_err_view(e),
                ),
            },
    {
        let ghost s = scenario@;
        let n = scenario.units.len();
        let mut ws: Vec<Warning> = Vec::new();
        let mut k: usize = 0;
        proof {
            assert(s.skip(0) =~= s);
            assert(warnings_view(ws@) =~= Seq::<WarningV>::empty());
        }
        while k < n
            invariant
                0 <= k <= n,
                n == scenario.units@.len(),
                s == scenario@,
                s.len() == n,
                unit_lint_spec(*self, s) == (match run_unit_lint(*self, s, s.skip(k as int)) {
                    Ok(rest) => Ok::<Seq<WarningV>, LintErrV>(warnings_view(ws@) + rest),
                    Err(e) => Err::<Seq<WarningV>, LintErrV>(e),
                }),
            decreases n - k,
        {
            proof {
                assert(s.skip(k as int)[0] == s[k as int]);
                assert(s.skip(k as int).drop_first() =~= s.skip(k + 1));
                assert(s[k as int] == scenario.units@[k as int]@);
            }
            let u = &scenario.units[k];
            let matches_filter = match u.unit_type() {
                Some(t) => t == self.filter,
                None => false,
            };
            if matches_filter {
                match apply_rule(self.rule, u, scenario) {
                    Err(e) => {
                        return Err(e);
                    },
                    Ok(more) => {
                        let ghost oldws = ws@;
                        let ghost morev = more@;
                        let mut more = more;
                        ws.append(&mut more);
                        proof {
                            assert(warnings_view(ws@) =~= warnings_view(oldws) + warnings_view(
                                morev,
                            ));
                            if run_unit_lint(*self, s, s.skip(k + 1)) is Ok {
                                let rest = run_unit_lint(*self, s, s.skip(k + 1))->Ok_0;
                                assert(warnings_view(oldws) + (warnings_view(morev) + rest) =~= (
                                warnings_view(ws@) + rest));
                            }
                        }
                    },
                }
            }
            k = k + 1;
        }
        proof {
            assert(s.skip(n as int) =~= Seq::<UnitRefView>::empty());
            assert(warnings_view(ws@) + Seq::<WarningV>::empty() =~= warnings_view(ws@));
        }
        Ok(ws)
    }
}

/// An ordered list of registered lints.
pub struct Lints {
    pub lints: Vec<UnitLint>,
}

impl Default for Lints {
    /// An empty list of lints.
    fn default() -> (r: Lints)
        ensures
            r.lints@ == Seq::<UnitLint>::empty(),
    {
        Lints { lints: Vec::new() }
    }
}

/// Runs the registered lints left to right, concatenating their warnings;
/// the first error aborts the whole run.
pub open spec fn run_lints(ls: Seq<UnitLint>, s: Seq<UnitRefView>) -> Result<
    Seq<WarningV>,
    LintErrV,
>
    decreases ls.len(),
{
    if ls.len() == 0 {
        Ok(Seq::empty())
    } else {
        match unit_lint_spec(ls[0], s) {
            Err(e) => Err(e),
            Ok(ws) => match run_lints(ls.drop_first(), s) {
                Err(e) => Err(e),
                Ok(rest) => Ok(ws + rest),
            },
        }
    }
}

/// The view of a lint run's result: the warnings' content on success,
/// the error's otherwise.
pub open spec fn lint_result_view(r: Result<Vec<Warning>, LintError>) -> Result<
    Seq<WarningV>,
    LintErrV,
> {
    match r {
        Ok(ws) => Ok(warnings_view(ws@)),
        Err(e) => Err(lint_err_view(e)),
    }
}

/// Law: the composite run is idempotent. Any two results that `lint`'s
/// contract admits for the same lints and the same scenario carry the
/// same ordered warning list, or the same error.
pub proof fn lemma_lint_run_idempotent(
    ls: Seq<UnitLint>,
    s: Seq<UnitRefView>,
    r1: Result<Vec<Warning>, LintError>,
    r2: Result<Vec<Warning>, LintError>,
)
    requires
        lint_result_view(r1) == run_lints(ls, s),
        lint_result_view(r2) == run_lints(ls, s),
    ensures
        lint_result_view(r1) == lint_result_view(r2),
        (match (r1, r2) {
            (Ok(w1), Ok(w2)) => warnings_view(w1@) == warnings_view(w2@),
            (Err(e1), Err(e2)) => lint_err_view(e1) == lint_err_view(e2),
            _ => false,
        }),
{
}

impl Lints {
    /// Registers one more lint, after those already registered.
    pub fn add_lint(&mut self, lint: UnitLint)
        ensures
            final(self).lints@ == old(self).lints@.push(lint),
    {
        self.lints.push(lint);
    }

    /// Runs every registered lint in order, exactly as `run_lints`
    /// describes: either the full concatenated warning list, or the first
    /// error, never both.
    pub fn lint(&self, scenario: &Scenario<'_>) -> (r: Result<Vec<Warning>, LintError>)
        ensures
            match r {
                Ok(ws) => run_lints(self.lints@, scenario@) == Ok::<Seq<WarningV>, LintErrV>(
                    warnings_view(ws@),
                ),
                Err(e) => run_lints(self.lints@, scenario@) == Err::<Seq<WarningV>, LintErrV>(
                    lint_err_view(e),
                ),
            },
    {
        let ghost s = scenario@;
        let ghost ls = self.lints@;
        let n = self.lints.len();
        let mut ws: Vec<Warning> = Vec::new();
        let mut k: usize = 0;
        proof {
            assert(ls.skip(0) =~= ls);
            assert(warnings_view(ws@) =~= Seq::<WarningV>::empty());
        }
        while k < n
            invariant
                0 <= k <= n,
                n == self.lints@.len(),
                s == scenario@,
                ls == self.lints@,
                run_lints(ls, s) == (match run_lints(ls.skip(k as int), s) {
                    Ok(rest) => Ok::<Seq<WarningV>, LintErrV>(warnings_view(ws@) + rest),
                    Err(e) => Err::<Seq<WarningV>, LintErrV>(e),
                }),
            decreases n - k,
        {
            proof {
                assert(ls.skip(k as int)[0] == ls[k as int]);
                assert(ls.skip(k as int).drop_first() =~= ls.skip(k + 1));
            }
            let l = self.lints[k];
            match l.lint(scenario) {
                Err(e) => {
                    return Err(e);
                },
                Ok(more) => {
                    let ghost oldws = ws@;
                    let ghost morev = more@;
                    let mut more = more;
                    ws.append(&mut more);
                    proof {
                        assert(warnings_view(ws@) =~= warnings_view(oldws) + warnings_view(morev));
                        if run_lints(ls.skip(k + 1), s) is Ok {
                            let rest = run_lints(ls.skip(k + 1), s)->Ok_0;
                            assert(warnings_view(oldws) + (warnings_view(morev) + rest) =~= (
                            warnings_view(ws@) + rest));
                        }
                    }
                },
            }
            k = k + 1;
        }
        proof {
            assert(ls.skip(n as int) =~= Seq::<UnitLint>::empty());
            assert(warnings_view(ws@) + Seq::<WarningV>::empty() =~= warnings_view(ws@));
        }
        Ok(ws)
    }
}

} // verus!
