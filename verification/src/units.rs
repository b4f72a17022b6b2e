//! The typed projection layer: one raw tree node becomes a `UnitRef` with
//! resolved identity, faction and category, and the whole scenario node
//! becomes a `Scenario`, the ordered collection of all its units.

use vstd::prelude::*;
use crate::catalog::{
    Faction, Unit, UnitType, get_unit, get_unit_faction, get_unit_type, spec_get_unit,
    spec_unit_faction, spec_unit_type,
};
use crate::strutil::str_eq;
use crate::tree::{Node, Value, spec_as_number, spec_as_string, spec_get_node, spec_lookup_value};

verus! {

/// Why a node could not be projected into a `UnitRef`.
#[derive(Debug, Clone, Copy, PartialEq, Eq, Structural)]
pub enum ToUnitRefError {
    /// The external identifier is absent or unknown to the catalog.
    NotValidUnit,
    /// The instance id is absent, not a number, or negative.
    InvalidUnitID,
    /// The display name is absent or not a string.
    InvalidUnitName,
    /// The unit's own field sub-tree is absent.
    MissingUnitFields,
}

/// One unit placed in a scenario, projected from a raw tree node. It
/// borrows the node's field sub-tree; it never owns or outlives the tree.
pub struct UnitRef<'a> {
    pub id: i64,
    pub unit: Unit,
    pub unit_faction: Faction,
    pub unit_type: Option<UnitType>,
    pub name: String,
    pub fields: &'a Node,
}

/// The mathematical content of a `UnitRef`.
pub ghost struct UnitRefView {
    pub id: i64,
    pub unit: Unit,
    pub unit_faction: Faction,
    pub unit_type: Option<UnitType>,
    pub name: Seq<char>,
    pub fields: Node,
}

impl<'a> View for UnitRef<'a> {
    type V = UnitRefView;

    open spec fn view(&self) -> UnitRefView {
        UnitRefView {
            id: self.id,
            unit: self.unit,
            unit_faction: self.unit_faction,
            unit_type: self.unit_type,
            name: self.name@,
            fields: *self.fields,
        }
    }
}

/// What projecting a unit node yields: either every attribute of the
/// `UnitRef`, fully determined by the node and the catalog, or the first
/// failing step's error.
pub open spec fn unit_ref_of(node: Node) -> Result<UnitRefView, ToUnitRefError> {
    match spec_get_unit(node) {
        None => Err(ToUnitRefError::NotValidUnit),
        Some(un) => match spec_lookup_value(node.values@, "unitInstanceID"@) {
            None => Err(ToUnitRefError::InvalidUnitID),
            Some(v) => match spec_as_number(v) {
                None => Err(ToUnitRefError::InvalidUnitID),
                Some(n) => if n < 0 {
                    Err(ToUnitRefError::InvalidUnitID)
                } else {
                    match spec_lookup_value(node.values@, "unitName"@) {
                        None => Err(ToUnitRefError::InvalidUnitName),
                        Some(w) => match spec_as_string(w) {
                            None => Err(ToUnitRefError::InvalidUnitName),
                            Some(s) => match spec_get_node(node.nodes@, "UnitFields"@) {
                                None => Err(ToUnitRefError::MissingUnitFields),
                                Some(f) => Ok(
                                    (UnitRefView {
                                        id: n,
                                        unit: un,
                                        unit_faction: spec_unit_faction(un),
                                        unit_type: spec_unit_type(un),
                                        name: s@,
                                        fields: f,
                                    }),
                                ),
                            },
                        },
                    }
                },
            },
        },
    }
}

impl<'a> UnitRef<'a> {
    /// Projects one raw unit node, resolving identity, id, name and the
    /// field sub-tree, exactly as `unit_ref_of` describes.
    pub fn try_from(node: &'a Node) -> (r: Result<UnitRef<'a>, ToUnitRefError>)
        ensures
            match r {
                Ok(u) => unit_ref_of(*node) == Ok::<UnitRefView, ToUnitRefError>(u@),
                Err(e) => unit_ref_of(*node) == Err::<UnitRefView, ToUnitRefError>(e),
            },
    {
        let unit = match get_unit(node) {
            None => {
                return Err(ToUnitRefError::NotValidUnit);
            },
            Some(u) => u,
        };
        let unit_faction = get_unit_faction(&unit);
        let unit_type = get_unit_type(&unit);
        let id = match node.get_value("unitInstanceID") {
            None => {
                return Err(ToUnitRefError::InvalidUnitID);
            },
            Some(v) => match v.as_number() {
                None => {
                    return Err(ToUnitRefError::InvalidUnitID);
                },
                Some(n) => {
                    if n < 0 {
                        return Err(ToUnitRefError::InvalidUnitID);
                    }
                    n
                },
            },
        };
        let name = match node.get_value("unitName") {
            None => {
                return Err(ToUnitRefError::InvalidUnitName);
            },
            Some(v) => match v.as_string() {
                None => {
                    return Err(ToUnitRefError::InvalidUnitName);
                },
                Some(s) => s.clone(),
            },
        };
        let fields = match node.get_node("UnitFields") {
            None => {
                return Err(ToUnitRefError::MissingUnitFields);
            },
            Some(f) => f,
        };
        Ok(UnitRef { id, unit, unit_faction, unit_type, name, fields })
    }

    /// The resolved identity.
    pub fn unit(&self) -> (r: Unit)
        ensures
            r == self@.unit,
    {
        self.unit
    }

    /// The resolved faction.
    pub fn faction(&self) -> (r: Faction)
        ensures
            r == self@.unit_faction,
    {
        self.unit_faction
    }

    /// The resolved category, if the identity has one.
    pub fn unit_type(&self) -> (r: Option<UnitType>)
        ensures
            r == self@.unit_type,
    {
        self.unit_type
    }

    /// The display name.
    pub fn name(&self) -> (r: &str)
        ensures
            r@ == self@.name,
    {
        self.name.as_str()
    }

    /// A named value of the unit's own field sub-tree.
    pub fn get_field(&self, k: &str) -> (r: Option<&Value>)
        ensures
            match r {
                Some(v) => spec_lookup_value(self@.fields.values@, k@) == Some(*v),
                None => spec_lookup_value(self@.fields.values@, k@) is None,
            },
    {
        self.fields.get_value(k)
    }

    /// The numeric instance id, unique within a scenario.
    pub fn id(&self) -> (r: i64)
        ensures
            r == self@.id,
    {
        self.id
    }
}

/// The message each projection error carries.
pub open spec fn unit_ref_error_message(e: ToUnitRefError) -> Seq<char> {
    match e {
        ToUnitRefError::NotValidUnit => "Unit was not valid unit"@,
        ToUnitRefError::InvalidUnitID => "Unit id missing or invalid"@,
        ToUnitRefError::InvalidUnitName => "Unit name missing or invalid"@,
        ToUnitRefError::MissingUnitFields => "Unit fields missing"@,
    }
}

impl ToUnitRefError {
    /// A human-readable account of the error.
    pub fn message(&self) -> (m: String)
        ensures
            m@ == unit_ref_error_message(*self),
    {
        match self {
            ToUnitRefError::NotValidUnit => "Unit was not valid unit".to_owned(),
            ToUnitRefError::InvalidUnitID => "Unit id missing or invalid".to_owned(),
            ToUnitRefError::InvalidUnitName => "Unit name missing or invalid".to_owned(),
            ToUnitRefError::MissingUnitFields => "Unit fields missing".to_owned(),
        }
    }
}

/// The view of a projection result: the unit's content on success, the
/// error otherwise.
pub open spec fn unit_ref_result_view<'a>(r: Result<UnitRef<'a>, ToUnitRefError>) -> Result<
    UnitRefView,
    ToUnitRefError,
> {
    match r {
        Ok(u) => Ok(u@),
        Err(e) => Err(e),
    }
}

/// Law: projection is deterministic. Any two results that `try_from`'s
/// contract admits for the same node are field-equal.
pub proof fn lemma_try_from_deterministic<'a>(
    node: Node,
    r1: Result<UnitRef<'a>, ToUnitRefError>,
    r2: Result<UnitRef<'a>, ToUnitRefError>,
)
    requires
        unit_ref_result_view(r1) == unit_ref_of(node),
        unit_ref_result_view(r2) == unit_ref_of(node),
    ensures
        unit_ref_result_view(r1) == unit_ref_result_view(r2),
        (match (r1, r2) {
            (Ok(u1), Ok(u2)) => u1@ == u2@,
            (Err(e1), Err(e2)) => e1 == e2,
            _ => false,
        }),
{
}

/// Law: a unit node whose external identifier is unknown to the catalog
/// fails projection with the not-a-valid-unit error, whatever its other
/// fields hold.
pub proof fn lemma_unknown_unit_rejected(node: Node)
    requires
        spec_get_unit(node) is None,
    ensures
        unit_ref_of(node) == Err::<UnitRefView, ToUnitRefError>(ToUnitRefError::NotValidUnit),
{
}

/// Why a root node could not be projected into a `Scenario`.
#[derive(Debug, Clone, Copy, PartialEq, Eq, Structural)]
pub enum ToScenarioError {
    /// The root's tag is not the custom-scenario marker.
    NotCustomScenario,
    /// The units container child is absent.
    UnitsMissing,
    /// A unit node could not be projected; `index` is its position within
    /// the units container.
    InvalidUnit { index: usize, reason: ToUnitRefError },
    /// Two unit nodes carry the same instance id. Duplicates are rejected
    /// rather than silently overwritten.
    DuplicateUnitID { id: i64 },
}

/// The message each scenario construction error carries.
pub open spec fn scenario_error_message(e: ToScenarioError) -> Seq<char> {
    match e {
        ToScenarioError::NotCustomScenario => "Not CustomScenario"@,
        ToScenarioError::UnitsMissing => "UNITS node missing from route"@,
        ToScenarioError::InvalidUnit { .. } => "Unit could not be converted to UnitRef"@,
        ToScenarioError::DuplicateUnitID { id } => "Duplicate unit id "@ + crate::strutil::dec_int(
            id as int,
        ),
    }
}

impl ToScenarioError {
    /// A human-readable account of the error.
    pub fn message(&self) -> (m: String)
        ensures
            m@ == scenario_error_message(*self),
    {
        match self {
            ToScenarioError::NotCustomScenario => "Not CustomScenario".to_owned(),
            ToScenarioError::UnitsMissing => "UNITS node missing from route".to_owned(),
            ToScenarioError::InvalidUnit { .. } => (
            "Unit could not be converted to UnitRef".to_owned()),
            ToScenarioError::DuplicateUnitID { id } => {
                let mut m: String = "Duplicate unit id ".to_owned();
                let num = crate::strutil::i64_to_string(*id);
                m.append(num.as_str());
                m
            },
        }
    }
}

/// The full set of units of one scenario file, in document order.
pub struct Scenario<'a> {
    pub units: Vec<UnitRef<'a>>,
}

impl<'a> View for Scenario<'a> {
    type V = Seq<UnitRefView>;

    open spec fn view(&self) -> Seq<UnitRefView> {
        self.units@.map_values(|u: UnitRef<'a>| u@)
    }
}

/// Whether some unit of `s` carries instance id `id`.
pub open spec fn seq_has_id(s: Seq<UnitRefView>, id: i64) -> bool {
    exists|j: int| 0 <= j < s.len() && #[trigger] s[j].id == id
}

/// Projects unit nodes left to right onto `acc`: the first projection
/// failure is reported with the node's position, and a repeated instance
/// id is rejected.
pub open spec fn build_units(nodes: Seq<Node>, acc: Seq<UnitRefView>) -> Result<
    Seq<UnitRefView>,
    ToScenarioError,
>
    decreases nodes.len(),
{
    if nodes.len() == 0 {
        Ok(acc)
    } else {
        match unit_ref_of(nodes[0]) {
            Err(e) => Err(
                (ToScenarioError::InvalidUnit { index: acc.len() as usize, reason: e }),
            ),
            Ok(u) => if seq_has_id(acc, u.id) {
                Err((ToScenarioError::DuplicateUnitID { id: u.id }))
            } else {
                build_units(nodes.drop_first(), acc.push(u))
            },
        }
    }
}

/// What projecting a root node yields: the units of its container, in
/// document order, or the first structural error.
pub open spec fn scenario_of(node: Node) -> Result<Seq<UnitRefView>, ToScenarioError> {
    if node.name@ != "CustomScenario"@ {
        Err(ToScenarioError::NotCustomScenario)
    } else {
        match spec_get_node(node.nodes@, "UNITS"@) {
            None => Err(ToScenarioError::UnitsMissing),
            Some(c) => build_units(c.nodes@, Seq::empty()),
        }
    }
}

fn contains_id(units: &Vec<UnitRef<'_>>, id: i64) -> (r: bool)
    ensures
        r == seq_has_id(units@.map_values(|u: UnitRef<'_>| u@), id),
{
    let ghost s = units@.map_values(|u: UnitRef<'_>| u@);
    let n = units.len();
    let mut j: usize = 0;
    while j < n
        invariant
            0 <= j <= n,
            n == units@.len(),
            s == units@.map_values(|u: UnitRef<'_>| u@),
            forall|t: int| 0 <= t < j ==> #[trigger] s[t].id != id,
        decreases n - j,
    {
        if units[j].id == id {
            proof {
                assert(s[j as int].id == id);
            }
            return true;
        }
        j = j + 1;
    }
    false
}

impl<'a> Scenario<'a> {
    /// Whether all instance ids are pairwise distinct.
    pub open spec fn wf(self) -> bool {
        forall|i: int, j: int|
            0 <= i < j < self@.len() ==> #[trigger] self@[i].id != #[trigger] self@[j].id
    }

    /// Projects the root node of a scenario file, exactly as `scenario_of`
    /// describes; no partial scenario is ever returned.
    pub fn try_from(node: &'a Node) -> (r: Result<Scenario<'a>, ToScenarioError>)
        ensures
            match r {
                Ok(s) => scenario_of(*node) == Ok::<Seq<UnitRefView>, ToScenarioError>(s@)
                    && s.wf(),
                Err(e) => scenario_of(*node) == Err::<Seq<UnitRefView>, ToScenarioError>(e),
            },
    {
        if !str_eq(node.name.as_str(), "CustomScenario") {
            return Err(ToScenarioError::NotCustomScenario);
        }
        let container = match node.get_node("UNITS") {
            None => {
                return Err(ToScenarioError::UnitsMissing);
            },
            Some(c) => c,
        };
        let n = container.nodes.len();
        let mut units: Vec<UnitRef<'a>> = Vec::new();
        let mut i: usize = 0;
        proof {
            assert(container.nodes@.skip(0) =~= container.nodes@);
            assert(units@.map_values(|u: UnitRef<'a>| u@) =~= Seq::<UnitRefView>::empty());
        }
        while i < n
            invariant
                0 <= i <= n,
                n == container.nodes@.len(),
                units@.len() == i,
                scenario_of(*node) == build_units(
                    container.nodes@.skip(i as int),
                    units@.map_values(|u: UnitRef<'a>| u@),
                ),
                forall|s: int, t: int|
                    0 <= s < t < i ==> #[trigger] units@[s]@.id != #[trigger] units@[t]@.id,
            decreases n - i,
        {
            let ghost acc = units@.map_values(|u: UnitRef<'a>| u@);
            proof {
                assert(container.nodes@.skip(i as int)[0] == container.nodes@[i as int]);
                assert(container.nodes@.skip(i as int).drop_first() =~= container.nodes@.skip(
                    i + 1,
                ));
            }
            let nd = &container.nodes[i];
            match UnitRef::try_from(nd) {
                Err(e) => {
                    return Err(ToScenarioError::InvalidUnit { index: i, reason: e });
                },
                Ok(u) => {
                    if contains_id(&units, u.id) {
                        return Err(ToScenarioError::DuplicateUnitID { id: u.id });
                    }
                    proof {
                        assert forall|t: int| 0 <= t < i implies #[trigger] acc[t].id != u@.id by {
                            assert(acc[t] == units@[t]@);
                            if acc[t].id == u@.id {
                                assert(seq_has_id(acc, u@.id));
                            }
                        }
                    }
                    let ghost uview = u@;
                    units.push(u);
                    proof {
                        assert(units@.map_values(|x: UnitRef<'a>| x@) =~= acc.push(uview));
                        assert forall|s2: int, t2: int| 0 <= s2 < t2 < i + 1 implies #[trigger] units@[s2]@.id
                            != #[trigger] units@[t2]@.id by {
                            let m = units@.map_values(|x: UnitRef<'a>| x@);
                            assert(m[s2] == units@[s2]@);
                            assert(m[t2] == units@[t2]@);
                            assert(m == acc.push(uview));
                            if t2 < i {
                                assert(m[s2] == acc[s2] && m[t2] == acc[t2]);
                            } else {
                                assert(m[t2] == uview);
                                assert(m[s2] == acc[s2]);
                            }
                        }
                    }
                },
            }
            i = i + 1;
        }
        proof {
            assert(container.nodes@.skip(n as int) =~= Seq::<Node>::empty());
        }
        Ok(Scenario { units })
    }

    /// The units of the scenario, in document order.
    pub fn units(&self) -> (r: &Vec<UnitRef<'a>>)
        ensures
            r == &self.units,
            r@.map_values(|u: UnitRef<'a>| u@) == self@,
    {
        &self.units
    }
}

proof fn lemma_build_units_all_ok(nodes: Seq<Node>, acc: Seq<UnitRefView>, j: int)
    requires
        build_units(nodes, acc) is Ok,
        0 <= j < nodes.len(),
    ensures
        unit_ref_of(nodes[j]) is Ok,
    decreases nodes.len(),
{
    if j > 0 {
        let u = unit_ref_of(nodes[0])->Ok_0;
        lemma_build_units_all_ok(nodes.drop_first(), acc.push(u), j - 1);
        assert(nodes.drop_first()[j - 1] == nodes[j]);
    }
}

/// Law: a scenario holding any unit node that fails projection never
/// constructs; no partial scenario exists.
pub proof fn lemma_invalid_unit_fails_scenario(root: Node, i: int)
    requires
        spec_get_node(root.nodes@, "UNITS"@) matches Some(c) && 0 <= i < c.nodes@.len()
            && unit_ref_of(c.nodes@[i]) is Err,
    ensures
        scenario_of(root) is Err,
{
    if scenario_of(root) is Ok {
        let c = spec_get_node(root.nodes@, "UNITS"@)->Some_0;
        lemma_build_units_all_ok(c.nodes@, Seq::empty(), i);
    }
}

/// The first unit of `s` carrying instance id `id`.
pub open spec fn find_unit(s: Seq<UnitRefView>, id: i64) -> Option<UnitRefView>
    decreases s.len(),
{
    if s.len() == 0 {
        None
    } else if s[0].id == id {
        Some(s[0])
    } else {
        find_unit(s.drop_first(), id)
    }
}

impl<'a> Scenario<'a> {
    /// Looks the unit with instance id `id` up.
    pub fn get(&self, id: i64) -> (r: Option<&UnitRef<'a>>)
        ensures
            match r {
                Some(u) => find_unit(self@, id) == Some(u@),
                None => find_unit(self@, id) is None,
            },
    {
        let ghost s = self@;
        let n = self.units.len();
        let mut j: usize = 0;
        proof {
            assert(s.skip(0) =~= s);
        }
        while j < n
            invariant
                0 <= j <= n,
                n == self.units@.len(),
                s == self@,
                s.len() == n,
                find_unit(s, id) == find_unit(s.skip(j as int), id),
            decreases n - j,
        {
            proof {
                assert(s.skip(j as int)[0] == s[j as int]);
                assert(s.skip(j as int).drop_first() =~= s.skip(j + 1));
                assert(s[j as int] == self.units@[j as int]@);
            }
            if self.units[j].id == id {
                return Some(&self.units[j]);
            }
            j = j + 1;
        }
        proof {
            assert(s.skip(n as int) =~= Seq::<UnitRefView>::empty());
        }
        None
    }
}

} // verus!
