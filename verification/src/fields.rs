//! The field interpreter: reads and validates the category-specific
//! semantic fields of a unit's raw field sub-tree, producing one variant
//! of the closed `Fields` sum type or a descriptive error.

use vstd::prelude::*;
use vstd::string::*;
use crate::catalog::UnitType;
use crate::strutil::{parse_i64_str, spec_parse_i64};
use crate::tree::{Node, Value, spec_as_bool, spec_as_string, spec_lookup_value, spec_type_name};
use crate::units::UnitRef;

verus! {

/// The category-specific interpreted view of a unit's fields.
#[derive(Debug, PartialEq)]
pub enum Fields {
    SAMRadar { engage_enemies: bool },
    SAMLauncher { engage_enemies: bool, radars: Vec<i64> },
    MissileWarning {
        engage_enemies: bool,
        radars: Vec<i64>,
        decoys: Vec<i64>,
        missile_defenses: Vec<i64>,
        jammers: Vec<i64>,
        units_to_defend: Vec<i64>,
    },
    IRMD { engage_enemies: bool },
}

/// The mathematical content of `Fields`.
pub ghost enum FieldsV {
    SAMRadar { engage_enemies: bool },
    SAMLauncher { engage_enemies: bool, radars: Seq<i64> },
    MissileWarning {
        engage_enemies: bool,
        radars: Seq<i64>,
        decoys: Seq<i64>,
        missile_defenses: Seq<i64>,
        jammers: Seq<i64>,
        units_to_defend: Seq<i64>,
    },
    IRMD { engage_enemies: bool },
}

impl View for Fields {
    type V = FieldsV;

    open spec fn view(&self) -> FieldsV {
        match *self {
            Fields::SAMRadar { engage_enemies } => FieldsV::SAMRadar { engage_enemies },
            Fields::SAMLauncher { engage_enemies, ref radars } => FieldsV::SAMLauncher {
                engage_enemies,
                radars: radars@,
            },
            Fields::MissileWarning {
                engage_enemies,
                ref radars,
                ref decoys,
                ref missile_defenses,
                ref jammers,
                ref units_to_defend,
            } => FieldsV::MissileWarning {
                engage_enemies,
                radars: radars@,
                decoys: decoys@,
                missile_defenses: missile_defenses@,
                jammers: jammers@,
                units_to_defend: units_to_defend@,
            },
            Fields::IRMD { engage_enemies } => FieldsV::IRMD { engage_enemies },
        }
    }
}

/// Why a unit's fields could not be interpreted.
#[derive(Debug, Clone, Copy, PartialEq, Eq)]
pub enum AccessFieldsError {
    /// The named field is absent.
    MissingFieldError { field: &'static str },
    /// The named field holds a value of the wrong kind.
    FieldInvalidType { field: &'static str, expected: &'static str, found: &'static str },
    /// The named delimited-list field did not parse.
    ParseFieldError { field: &'static str, reason: &'static str },
    /// The category is known but has no interpreter defined.
    InvalidUnitType,
    /// The unit's identity has no category.
    UnitMissingType,
}

/// The mathematical content of `AccessFieldsError`.
pub ghost enum AccessErrV {
    MissingField { field: Seq<char> },
    FieldInvalidType { field: Seq<char>, expected: Seq<char>, found: Seq<char> },
    ParseField { field: Seq<char>, reason: Seq<char> },
    InvalidUnitType,
    UnitMissingType,
}

/// The message each field-access error carries.
pub open spec fn access_error_message(e: AccessFieldsError) -> Seq<char> {
    match e {
        AccessFieldsError::MissingFieldError { field } => "Missing field "@ + field@ + "."@,
        AccessFieldsError::FieldInvalidType { field, .. } => "Field "@ + field@
            + " had invalid type."@,
        AccessFieldsError::ParseFieldError { field, reason } => "Couldn't parse "@ + field@
            + ", because "@ + reason@ + "."@,
        AccessFieldsError::InvalidUnitType => "We haven't defined fields for this unit type"@,
        AccessFieldsError::UnitMissingType => "Unit has no type"@,
    }
}

impl AccessFieldsError {
    /// A human-readable account of the error.
    pub fn message(&self) -> (m: String)
        ensures
            m@ == access_error_message(*self),
    {
        match self {
            AccessFieldsError::MissingFieldError { field } => {
                let mut m: String = "Missing field ".to_owned();
                m.append(field);
                m.append(".");
                m
            },
            AccessFieldsError::FieldInvalidType { field, .. } => {
                let mut m: String = "Field ".to_owned();
                m.append(field);
                m.append(" had invalid type.");
                m
            },
            AccessFieldsError::ParseFieldError { field, reason } => {
                let mut m: String = "Couldn't parse ".to_owned();
                m.append(field);
                m.append(", because ");
                m.append(reason);
                m.append(".");
                m
            },
            AccessFieldsError::InvalidUnitType => (
            "We haven't defined fields for this unit type".to_owned()),
            AccessFieldsError::UnitMissingType => "Unit has no type".to_owned(),
        }
    }
}

/// The mathematical content of an `AccessFieldsError` value.
pub open spec fn err_view(e: AccessFieldsError) -> AccessErrV {
    match e {
        AccessFieldsError::MissingFieldError { field } => AccessErrV::MissingField {
            field: field@,
        },
        AccessFieldsError::FieldInvalidType { field, expected, found } => (
        AccessErrV::FieldInvalidType { field: field@, expected: expected@, found: found@ }),
        AccessFieldsError::ParseFieldError { field, reason } => AccessErrV::ParseField {
            field: field@,
            reason: reason@,
        },
        AccessFieldsError::InvalidUnitType => AccessErrV::InvalidUnitType,
        AccessFieldsError::UnitMissingType => AccessErrV::UnitMissingType,
    }
}

/// Splits a character sequence on `;`, keeping empty segments; the result
/// always holds one segment more than the string holds delimiters.
pub open spec fn split_semi(s: Seq<char>) -> Seq<Seq<char>>
    decreases s.len(),
{
    if s.len() == 0 {
        seq![Seq::<char>::empty()]
    } else if s[0] == ';' {
        seq![Seq::<char>::empty()] + split_semi(s.drop_first())
    } else {
        let r = split_semi(s.drop_first());
        seq![seq![s[0]] + r[0]] + r.drop_first()
    }
}

/// Parses segments left to right, skipping empty ones; a non-numeric
/// segment or one outside the range of an id yields the first reason, a
/// negative one the second.
pub open spec fn parse_segments(segs: Seq<Seq<char>>) -> Result<Seq<i64>, Seq<char>>
    decreases segs.len(),
{
    if segs.len() == 0 {
        Ok(Seq::empty())
    } else if segs[0].len() == 0 {
        parse_segments(segs.drop_first())
    } else {
        match spec_parse_i64(segs[0]) {
            None => Err("invalid number in instance id list"@),
            Some(v) => if v < 0 {
                Err("negative number in instance id list"@)
            } else {
                match parse_segments(segs.drop_first()) {
                    Err(e) => Err(e),
                    Ok(r) => Ok(seq![v as i64] + r),
                }
            },
        }
    }
}

/// The value of the required boolean field `engageEnemies`.
pub open spec fn spec_engage_enemies(f: Node) -> Result<bool, AccessErrV> {
    match spec_lookup_value(f.values@, "engageEnemies"@) {
        None => Err(AccessErrV::MissingField { field: "engageEnemies"@ }),
        Some(v) => match spec_as_bool(v) {
            Some(b) => Ok(b),
            None => Err(
                (AccessErrV::FieldInvalidType {
                    field: "engageEnemies"@,
                    expected: "bool"@,
                    found: spec_type_name(v),
                }),
            ),
        },
    }
}

/// The value of a delimited list field of unit ids: absent-as-null is the
/// empty list; a string is split on `;`, empty segments dropped, and each
/// remaining segment read as a non-negative integer.
pub open spec fn spec_id_list(f: Node, field: Seq<char>) -> Result<Seq<i64>, AccessErrV> {
    match spec_lookup_value(f.values@, field) {
        None => Err(AccessErrV::MissingField { field }),
        Some(v) => match v {
            Value::Null => Ok(Seq::empty()),
            _ => match spec_as_string(v) {
                Some(s) => match parse_segments(split_semi(s@)) {
                    Ok(ids) => Ok(ids),
                    Err(reason) => Err(AccessErrV::ParseField { field, reason }),
                },
                None => Err(
                    (AccessErrV::FieldInvalidType {
                        field,
                        expected: "string"@,
                        found: spec_type_name(v),
                    }),
                ),
            },
        },
    }
}

/// The interpreted fields of a unit of category `t`, reading each field
/// in a fixed order so the first failing field decides the error.
pub open spec fn spec_fields_of(f: Node, t: UnitType) -> Result<FieldsV, AccessErrV> {
    match t {
        UnitType::SAMRadar => match spec_engage_enemies(f) {
            Err(e) => Err(e),
            Ok(b) => Ok(FieldsV::SAMRadar { engage_enemies: b }),
        },
        UnitType::SAMLauncher => match spec_engage_enemies(f) {
            Err(e) => Err(e),
            Ok(b) => match spec_id_list(f, "radarUnits"@) {
                Err(e) => Err(e),
                Ok(radars) => Ok(FieldsV::SAMLauncher { engage_enemies: b, radars }),
            },
        },
        UnitType::MissileWarning => match spec_engage_enemies(f) {
            Err(e) => Err(e),
            Ok(b) => match spec_id_list(f, "radarUnits"@) {
                Err(e) => Err(e),
                Ok(radars) => match spec_id_list(f, "decoyUnits"@) {
                    Err(e) => Err(e),
                    Ok(decoys) => match spec_id_list(f, "unitsToDefend"@) {
                        Err(e) => Err(e),
                        Ok(units_to_defend) => match spec_id_list(f, "defenseUnits"@) {
                            Err(e) => Err(e),
                            Ok(missile_defenses) => match spec_id_list(f, "jammerUnits"@) {
                                Err(e) => Err(e),
                                Ok(jammers) => Ok(
                                    (FieldsV::MissileWarning {
                                        engage_enemies: b,
                                        radars,
                                        decoys,
                                        missile_defenses,
                                        jammers,
                                        units_to_defend,
                                    }),
                                ),
                            },
                        },
                    },
                },
            },
        },
        UnitType::IRMD => match spec_engage_enemies(f) {
            Err(e) => Err(e),
            Ok(b) => Ok(FieldsV::IRMD { engage_enemies: b }),
        },
    }
}

/// The interpreted fields of a unit: dispatch on its category; a unit
/// without a category has no interpretation.
pub open spec fn spec_access_fields(f: Node, t: Option<UnitType>) -> Result<FieldsV, AccessErrV> {
    match t {
        None => Err(AccessErrV::UnitMissingType),
        Some(tt) => spec_fields_of(f, tt),
    }
}

proof fn lemma_split_semi_all_empty(s: Seq<char>)
    requires
        forall|i: int| 0 <= i < s.len() ==> s[i] == ';',
    ensures
        forall|j: int|
            0 <= j < split_semi(s).len() ==> #[trigger] split_semi(s)[j].len() == 0,
    decreases s.len(),
{
    if s.len() > 0 {
        assert(forall|i: int| 0 <= i < s.drop_first().len() ==> s.drop_first()[i] == ';');
        lemma_split_semi_all_empty(s.drop_first());
        assert(s[0] == ';');
        assert forall|j: int|
            0 <= j < split_semi(s).len() implies #[trigger] split_semi(s)[j].len() == 0 by {
            if j > 0 {
                assert(split_semi(s)[j] == split_semi(s.drop_first())[j - 1]);
            }
        }
    }
}

proof fn lemma_parse_all_empty(segs: Seq<Seq<char>>)
    requires
        forall|i: int| 0 <= i < segs.len() ==> #[trigger] segs[i].len() == 0,
    ensures
        parse_segments(segs) == Ok::<Seq<i64>, Seq<char>>(Seq::empty()),
    decreases segs.len(),
{
    if segs.len() > 0 {
        assert(forall|i: int|
            0 <= i < segs.drop_first().len() ==> #[trigger] segs.drop_first()[i].len() == 0);
        lemma_parse_all_empty(segs.drop_first());
    }
}

/// Law: a delimited-list string of only empty segments — every character
/// a delimiter, the empty string included — yields the empty list, never
/// a parse error.
pub proof fn lemma_empty_segments_yield_empty_list(s: Seq<char>)
    requires
        forall|i: int| 0 <= i < s.len() ==> s[i] == ';',
    ensures
        parse_segments(split_semi(s)) == Ok::<Seq<i64>, Seq<char>>(Seq::empty()),
{
    lemma_split_semi_all_empty(s);
    lemma_parse_all_empty(split_semi(s));
}

proof fn lemma_bad_segment_errors(segs: Seq<Seq<char>>, i: int)
    requires
        0 <= i < segs.len(),
        segs[i].len() != 0,
        spec_parse_i64(segs[i]) is None,
    ensures
        parse_segments(segs) is Err,
    decreases segs.len(),
{
    if segs[0].len() == 0 {
        lemma_bad_segment_errors(segs.drop_first(), i - 1);
    } else {
        match spec_parse_i64(segs[0]) {
            None => {},
            Some(v) => {
                if v >= 0 {
                    lemma_bad_segment_errors(segs.drop_first(), i - 1);
                }
            },
        }
    }
}

/// Law: a delimited-list field holding a non-numeric segment always
/// yields a parse error that references that field's name.
pub proof fn lemma_bad_segment_field_error(f: Node, field: Seq<char>, i: int)
    requires
        spec_lookup_value(f.values@, field) matches Some(v) && v matches Value::Str(s) && ({
            let segs = split_semi(s@);
            0 <= i < segs.len() && segs[i].len() != 0 && spec_parse_i64(segs[i]) is None
        }),
    ensures
        spec_id_list(f, field) matches Err(e) && e matches AccessErrV::ParseField {
            field: g,
            ..
        } && g == field,
{
    let s = spec_lookup_value(f.values@, field)->Some_0->Str_0;
    lemma_bad_segment_errors(split_semi(s@), i);
}

proof fn lemma_negative_segment_errors(segs: Seq<Seq<char>>, i: int)
    requires
        forall|j: int|
            0 <= j < segs.len() && #[trigger] segs[j].len() != 0 ==> spec_parse_i64(segs[j])
                is Some,
        0 <= i < segs.len(),
        segs[i].len() != 0,
        spec_parse_i64(segs[i]) matches Some(v) && v < 0,
    ensures
        parse_segments(segs) == Err::<Seq<i64>, Seq<char>>(
            "negative number in instance id list"@,
        ),
    decreases segs.len(),
{
    if segs[0].len() == 0 {
        lemma_negative_segment_errors(segs.drop_first(), i - 1);
    } else {
        let v0 = spec_parse_i64(segs[0])->Some_0;
        if v0 >= 0 {
            lemma_negative_segment_errors(segs.drop_first(), i - 1);
        }
    }
}

/// Law: a delimited-list field of well-formed numbers among which one is
/// negative yields the negative-number error, a reason distinct from the
/// non-numeric one. (A list that also holds a non-numeric segment before
/// the negative one reports the non-numeric reason instead, so numeric
/// segments are required here.)
pub proof fn lemma_negative_segment_field_error(f: Node, field: Seq<char>, i: int)
    requires
        spec_lookup_value(f.values@, field) matches Some(v) && v matches Value::Str(s) && ({
            let segs = split_semi(s@);
            &&& forall|j: int|
                0 <= j < segs.len() && #[trigger] segs[j].len() != 0 ==> spec_parse_i64(segs[j])
                    is Some
            &&& 0 <= i < segs.len()
            &&& segs[i].len() != 0
            &&& (spec_parse_i64(segs[i]) matches Some(n) && n < 0)
        }),
    ensures
        spec_id_list(f, field) == Err::<Seq<i64>, AccessErrV>(
            (AccessErrV::ParseField {
                field,
                reason: "negative number in instance id list"@,
            }),
        ),
        "negative number in instance id list"@ != "invalid number in instance id list"@,
{
    let s = spec_lookup_value(f.values@, field)->Some_0->Str_0;
    lemma_negative_segment_errors(split_semi(s@), i);
    reveal_strlit("negative number in instance id list");
    reveal_strlit("invalid number in instance id list");
    assert("negative number in instance id list"@.len() == 35);
    assert("invalid number in instance id list"@.len() == 34);
}

fn get_unit_field<'a, 'b>(unit: &'b UnitRef<'a>, field: &'static str) -> (r: Result<
    &'b Value,
    AccessFieldsError,
>)
    ensures
        match r {
            Ok(v) => spec_lookup_value(unit@.fields.values@, field@) == Some(*v),
            Err(e) => spec_lookup_value(unit@.fields.values@, field@) is None && err_view(e)
                == (AccessErrV::MissingField { field: field@ }),
        },
{
    match unit.get_field(field) {
        Some(v) => Ok(v),
        None => Err(AccessFieldsError::MissingFieldError { field }),
    }
}

fn get_engage_enemies(unit: &UnitRef<'_>) -> (r: Result<bool, AccessFieldsError>)
    ensures
        match r {
            Ok(b) => spec_engage_enemies(unit@.fields) == Ok::<bool, AccessErrV>(b),
            Err(e) => spec_engage_enemies(unit@.fields) == Err::<bool, AccessErrV>(err_view(e)),
        },
{
    let v = match get_unit_field(unit, "engageEnemies") {
        Ok(v) => v,
        Err(e) => {
            return Err(e);
        },
    };
    match v.as_bool() {
        Some(b) => Ok(b),
        None => Err(
            AccessFieldsError::FieldInvalidType {
                field: "engageEnemies",
                expected: "bool",
                found: v.get_type(),
            },
        ),
    }
}

proof fn lemma_split_no_semi(t: Seq<char>)
    requires
        forall|j: int| 0 <= j < t.len() ==> t[j] != ';',
    ensures
        split_semi(t) == seq![t],
    decreases t.len(),
{
    if t.len() == 0 {
        assert(t =~= Seq::<char>::empty());
        assert(split_semi(t) =~~= seq![t]);
    } else {
        assert(forall|j: int| 0 <= j < t.drop_first().len() ==> t.drop_first()[j] != ';');
        lemma_split_no_semi(t.drop_first());
        assert(seq![t[0]] + t.drop_first() =~= t);
        assert(split_semi(t) =~~= seq![t]);
    }
}

proof fn lemma_split_first_semi(t: Seq<char>, k: int)
    requires
        0 <= k < t.len(),
        t[k] == ';',
        forall|j: int| 0 <= j < k ==> t[j] != ';',
    ensures
        split_semi(t) == seq![t.take(k)] + split_semi(t.skip(k + 1)),
    decreases k,
{
    if k == 0 {
        assert(t.take(0) =~= Seq::<char>::empty());
        assert(t.drop_first() =~= t.skip(1));
        assert(split_semi(t) =~~= seq![t.take(0)] + split_semi(t.skip(1)));
    } else {
        let d = t.drop_first();
        assert(d[k - 1] == ';');
        assert(forall|j: int| 0 <= j < k - 1 ==> d[j] != ';');
        lemma_split_first_semi(d, k - 1);
        assert(d.take(k - 1) =~= t.subrange(1, k));
        assert(d.skip(k) =~= t.skip(k + 1));
        assert(seq![t[0]] + t.subrange(1, k) =~= t.take(k));
        assert(split_semi(t) =~~= seq![t.take(k)] + split_semi(t.skip(k + 1)));
    }
}

fn split_semi_str(s: &str) -> (r: Vec<String>)
    ensures
        r@.map_values(|x: String| x@) == split_semi(s@),
{
    let n = s.unicode_len();
    let mut segs: Vec<String> = Vec::new();
    let mut st: usize = 0;
    let mut i: usize = 0;
    proof {
        assert(s@.skip(0) =~= s@);
        assert(segs@.map_values(|x: String| x@) =~= Seq::<Seq<char>>::empty());
    }
    while i < n
        invariant
            0 <= st <= i <= n,
            n == s@.len(),
            forall|j: int| st <= j < i ==> s@[j] != ';',
            segs@.map_values(|x: String| x@) + split_semi(s@.skip(st as int)) == split_semi(s@),
        decreases n - i,
    {
        let c = s.get_char(i);
        if c == ';' {
            proof {
                let t = s@.skip(st as int);
                assert(t[i - st] == s@[i as int]);
                assert(forall|j: int| 0 <= j < i - st ==> t[j] == s@[j + st] && t[j] != ';');
                lemma_split_first_semi(t, i - st);
                assert(t.take(i - st) =~= s@.subrange(st as int, i as int));
                assert(t.skip(i - st + 1) =~= s@.skip(i + 1));
            }
            let ghost oldsegs = segs@;
            let seg = s.substring_char(st, i).to_owned();
            segs.push(seg);
            proof {
                assert(segs@.map_values(|x: String| x@) =~= oldsegs.map_values(|x: String| x@)
                    + seq![s@.subrange(st as int, i as int)]);
                assert(segs@.map_values(|x: String| x@) + split_semi(s@.skip(i + 1)) =~~= (
                oldsegs.map_values(|x: String| x@) + split_semi(s@.skip(st as int))));
            }
            st = i + 1;
        }
        i = i + 1;
    }
    proof {
        let t = s@.skip(st as int);
        assert(forall|j: int| 0 <= j < t.len() ==> t[j] == s@[j + st] && t[j] != ';');
        lemma_split_no_semi(t);
        assert(t.take(n - st) =~= t);
        assert(t =~= s@.subrange(st as int, n as int));
    }
    let ghost oldsegs = segs@;
    let last = s.substring_char(st, n).to_owned();
    segs.push(last);
    proof {
        assert(segs@.map_values(|x: String| x@) =~= oldsegs.map_values(|x: String| x@) + seq![
            s@.subrange(st as int, n as int),
        ]);
        assert(segs@.map_values(|x: String| x@) =~~= split_semi(s@));
    }
    segs
}

fn get_instance_id_list_field(unit: &UnitRef<'_>, field: &'static str) -> (r: Result<
    Vec<i64>,
    AccessFieldsError,
>)
    ensures
        match r {
            Ok(v) => spec_id_list(unit@.fields, field@) == Ok::<Seq<i64>, AccessErrV>(v@),
            Err(e) => spec_id_list(unit@.fields, field@) == Err::<Seq<i64>, AccessErrV>(
                err_view(e),
            ),
        },
{
    let raw = match get_unit_field(unit, field) {
        Ok(v) => v,
        Err(e) => {
            return Err(e);
        },
    };
    if let Value::Null = raw {
        return Ok(Vec::new());
    }
    let s = match raw.as_string() {
        Some(s) => s,
        None => {
            return Err(
                AccessFieldsError::FieldInvalidType {
                    field,
                    expected: "string",
                    found: raw.get_type(),
                },
            );
        },
    };
    let segs = split_semi_str(s.as_str());
    let ghost segsv = segs@.map_values(|x: String| x@);
    let m = segs.len();
    let mut ids: Vec<i64> = Vec::new();
    let mut j: usize = 0;
    proof {
        assert(segsv.skip(0) =~= segsv);
    }
    while j < m
        invariant
            0 <= j <= m,
            m == segs@.len(),
            segsv == segs@.map_values(|x: String| x@),
            spec_lookup_value(unit@.fields.values@, field@) == Some(*raw),
            !((*raw) is Null),
            spec_as_string(*raw) == Some(*s),
            parse_segments(split_semi(s@)) == (match parse_segments(segsv.skip(j as int)) {
                Ok(rest) => Ok::<Seq<i64>, Seq<char>>(ids@ + rest),
                Err(e) => Err::<Seq<i64>, Seq<char>>(e),
            }),
        decreases m - j,
    {
        proof {
            assert(segsv.skip(j as int)[0] == segsv[j as int]);
            assert(segsv[j as int] == segs@[j as int]@);
            assert(segsv.skip(j as int).drop_first() =~= segsv.skip(j + 1));
        }
        let seg = &segs[j];
        if !seg.as_str().is_empty() {
            match parse_i64_str(seg.as_str()) {
                None => {
                    proof {
                        assert(parse_segments(segsv.skip(j as int)) == Err::<Seq<i64>, Seq<char>>(
                            "invalid number in instance id list"@,
                        ));
                        assert(parse_segments(split_semi(s@)) == Err::<Seq<i64>, Seq<char>>(
                            "invalid number in instance id list"@,
                        ));
                    }
                    return Err(
                        AccessFieldsError::ParseFieldError {
                            field,
                            reason: "invalid number in instance id list",
                        },
                    );
                },
                Some(v) => {
                    if v < 0 {
                        proof {
                            assert(parse_segments(segsv.skip(j as int)) == Err::<
                                Seq<i64>,
                                Seq<char>,
                            >("negative number in instance id list"@));
                            assert(parse_segments(split_semi(s@)) == Err::<Seq<i64>, Seq<char>>(
                                "negative number in instance id list"@,
                            ));
                        }
                        return Err(
                            AccessFieldsError::ParseFieldError {
                                field,
                                reason: "negative number in instance id list",
                            },
                        );
                    }
                    let ghost oldids = ids@;
                    ids.push(v);
                    proof {
                        if parse_segments(segsv.skip(j + 1)) is Ok {
                            let rest = parse_segments(segsv.skip(j + 1))->Ok_0;
                            assert(oldids + (seq![v] + rest) =~= ids@ + rest);
                        }
                    }
                },
            }
        }
        j = j + 1;
    }
    proof {
        assert(segsv.skip(m as int) =~= Seq::<Seq<char>>::empty());
        assert(ids@ + Seq::<i64>::empty() =~= ids@);
    }
    Ok(ids)
}

fn parse_sam_radar(unit: &UnitRef<'_>) -> (r: Result<Fields, AccessFieldsError>)
    requires
        unit@.unit_type == Some(UnitType::SAMRadar),
    ensures
        match r {
            Ok(f) => spec_fields_of(unit@.fields, UnitType::SAMRadar) == Ok::<
                FieldsV,
                AccessErrV,
            >(f@),
            Err(e) => spec_fields_of(unit@.fields, UnitType::SAMRadar) == Err::<
                FieldsV,
                AccessErrV,
            >(err_view(e)),
        },
{
    let engage_enemies = match get_engage_enemies(unit) {
        Ok(b) => b,
        Err(e) => {
            return Err(e);
        },
    };
    Ok(Fields::SAMRadar { engage_enemies })
}

fn parse_sam_launcher(unit: &UnitRef<'_>) -> (r: Result<Fields, AccessFieldsError>)
    requires
        unit@.unit_type == Some(UnitType::SAMLauncher),
    ensures
        match r {
            Ok(f) => spec_fields_of(unit@.fields, UnitType::SAMLauncher) == Ok::<
                FieldsV,
                AccessErrV,
            >(f@),
            Err(e) => spec_fields_of(unit@.fields, UnitType::SAMLauncher) == Err::<
                FieldsV,
                AccessErrV,
            >(err_view(e)),
        },
{
    let engage_enemies = match get_engage_enemies(unit) {
        Ok(b) => b,
        Err(e) => {
            return Err(e);
        },
    };
    let radars = match get_instance_id_list_field(unit, "radarUnits") {
        Ok(v) => v,
        Err(e) => {
            return Err(e);
        },
    };
    Ok(Fields::SAMLauncher { engage_enemies, radars })
}

fn parse_missile_warning(unit: &UnitRef<'_>) -> (r: Result<Fields, AccessFieldsError>)
    requires
        unit@.unit_type == Some(UnitType::MissileWarning),
    ensures
        match r {
            Ok(f) => spec_fields_of(unit@.fields, UnitType::MissileWarning) == Ok::<
                FieldsV,
                AccessErrV,
            >(f@),
            Err(e) => spec_fields_of(unit@.fields, UnitType::MissileWarning) == Err::<
                FieldsV,
                AccessErrV,
            >(err_view(e)),
        },
{
    let engage_enemies = match get_engage_enemies(unit) {
        Ok(b) => b,
        Err(e) => {
            return Err(e);
        },
    };
    let radars = match get_instance_id_list_field(unit, "radarUnits") {
        Ok(v) => v,
        Err(e) => {
            return Err(e);
        },
    };
    let decoys = match get_instance_id_list_field(unit, "decoyUnits") {
        Ok(v) => v,
        Err(e) => {
            return Err(e);
        },
    };
    let units_to_defend = match get_instance_id_list_field(unit, "unitsToDefend") {
        Ok(v) => v,
        Err(e) => {
            return Err(e);
        },
    };
    let missile_defenses = match get_instance_id_list_field(unit, "defenseUnits") {
        Ok(v) => v,
        Err(e) => {
            return Err(e);
        },
    };
    let jammers = match get_instance_id_list_field(unit, "jammerUnits") {
        Ok(v) => v,
        Err(e) => {
            return Err(e);
        },
    };
    Ok(
        Fields::MissileWarning {
            engage_enemies,
            radars,
            decoys,
            missile_defenses,
            jammers,
            units_to_defend,
        },
    )
}

fn parse_irmd(unit: &UnitRef<'_>) -> (r: Result<Fields, AccessFieldsError>)
    requires
        unit@.unit_type == Some(UnitType::IRMD),
    ensures
        match r {
            Ok(f) => spec_fields_of(unit@.fields, UnitType::IRMD) == Ok::<FieldsV, AccessErrV>(
                f@,
            ),
            Err(e) => spec_fields_of(unit@.fields, UnitType::IRMD) == Err::<FieldsV, AccessErrV>(
                err_view(e),
            ),
        },
{
    let engage_enemies = match get_engage_enemies(unit) {
        Ok(b) => b,
        Err(e) => {
            return Err(e);
        },
    };
    Ok(Fields::IRMD { engage_enemies })
}

/// Interprets a unit's raw fields according to its category, exactly as
/// `spec_access_fields` describes.
pub fn access_fields(unit: &UnitRef<'_>) -> (r: Result<Fields, AccessFieldsError>)
    ensures
        match r {
            Ok(f) => spec_access_fields(unit@.fields, unit@.unit_type) == Ok::<
                FieldsV,
                AccessErrV,
            >(f@),
            Err(e) => spec_access_fields(unit@.fields, unit@.unit_type) == Err::<
                FieldsV,
                AccessErrV,
            >(err_view(e)),
        },
{
    let t = match unit.unit_type() {
        None => {
            return Err(AccessFieldsError::UnitMissingType);
        },
        Some(t) => t,
    };
    match t {
        UnitType::SAMRadar => parse_sam_radar(unit),
        UnitType::SAMLauncher => parse_sam_launcher(unit),
        UnitType::MissileWarning => parse_missile_warning(unit),
        UnitType::IRMD => parse_irmd(unit),
    }
}

} // verus!
