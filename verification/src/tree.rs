//! The generic node/value tree that scenario files are parsed into.
//!
//! A `Node` has a tag name, an ordered mapping of named scalar values, and a
//! list of child nodes. The external parser's number values are 64-bit
//! integers; value kinds whose payload the projection never reads (floats,
//! vectors) are represented by their kind alone, which is all the field
//! interpreter ever asks of them (their kind name, for error messages).

use vstd::prelude::*;
use crate::strutil::str_eq;

verus! {

/// One scalar value of a node.
#[derive(Debug, PartialEq)]
pub enum Value {
    Num(i64),
    Float,
    Boolean(bool),
    Vector,
    VectorGroup,
    Str(String),
    Null,
}

/// The numeric payload of a value, when it is a number.
pub open spec fn spec_as_number(v: Value) -> Option<i64> {
    match v {
        Value::Num(n) => Some(n),
        _ => None,
    }
}

/// The string payload of a value, when it is a string.
pub open spec fn spec_as_string(v: Value) -> Option<String> {
    match v {
        Value::Str(s) => Some(s),
        _ => None,
    }
}

/// The boolean payload of a value, when it is a boolean.
pub open spec fn spec_as_bool(v: Value) -> Option<bool> {
    match v {
        Value::Boolean(b) => Some(b),
        _ => None,
    }
}

/// The kind name of a value, as used in error messages.
pub open spec fn spec_type_name(v: Value) -> Seq<char> {
    match v {
        Value::Num(_) => "number"@,
        Value::Float => "float"@,
        Value::Boolean(_) => "bool"@,
        Value::Vector => "vector"@,
        Value::VectorGroup => "vector_group"@,
        Value::Str(_) => "string"@,
        Value::Null => "null"@,
    }
}

impl Value {
    /// Kind-checked access to a number.
    pub fn as_number(&self) -> (r: Option<i64>)
        ensures
            r == spec_as_number(*self),
    {
        match self {
            Value::Num(n) => Some(*n),
            _ => None,
        }
    }

    /// Kind-checked access to a string.
    pub fn as_string(&self) -> (r: Option<&String>)
        ensures
            match r {
                Some(s) => spec_as_string(*self) == Some(*s),
                None => spec_as_string(*self) is None,
            },
    {
        match self {
            Value::Str(s) => Some(s),
            _ => None,
        }
    }

    /// Kind-checked access to a boolean.
    pub fn as_bool(&self) -> (r: Option<bool>)
        ensures
            r == spec_as_bool(*self),
    {
        match self {
            Value::Boolean(b) => Some(*b),
            _ => None,
        }
    }

    /// A human-readable name for the value's kind.
    pub fn get_type(&self) -> (r: &'static str)
        ensures
            r@ == spec_type_name(*self),
    {
        match self {
            Value::Num(_) => "number",
            Value::Float => "float",
            Value::Boolean(_) => "bool",
            Value::Vector => "vector",
            Value::VectorGroup => "vector_group",
            Value::Str(_) => "string",
            Value::Null => "null",
        }
    }
}

/// One node of the tree: a tag name, named scalar values in insertion
/// order, and child nodes in document order.
#[derive(Debug, PartialEq)]
pub struct Node {
    pub name: String,
    pub values: Vec<(String, Value)>,
    pub nodes: Vec<Node>,
}

/// The first value bound to key `k`, scanning in insertion order.
pub open spec fn spec_lookup_value(pairs: Seq<(String, Value)>, k: Seq<char>) -> Option<Value>
    decreases pairs.len(),
{
    if pairs.len() == 0 {
        None
    } else if pairs[0].0@ == k {
        Some(pairs[0].1)
    } else {
        spec_lookup_value(pairs.drop_first(), k)
    }
}

/// The first child node named `k`, in document order.
pub open spec fn spec_get_node(nodes: Seq<Node>, k: Seq<char>) -> Option<Node>
    decreases nodes.len(),
{
    if nodes.len() == 0 {
        None
    } else if nodes[0].name@ == k {
        Some(nodes[0])
    } else {
        spec_get_node(nodes.drop_first(), k)
    }
}

impl Node {
    /// Looks a named scalar value up.
    pub fn get_value(&self, k: &str) -> (r: Option<&Value>)
        ensures
            match r {
                Some(v) => spec_lookup_value(self.values@, k@) == Some(*v),
                None => spec_lookup_value(self.values@, k@) is None,
            },
    {
        let n = self.values.len();
        let mut i: usize = 0;
        proof {
            assert(self.values@.skip(0) =~= self.values@);
        }
        while i < n
            invariant
                0 <= i <= n,
                n == self.values@.len(),
                spec_lookup_value(self.values@, k@) == spec_lookup_value(
                    self.values@.skip(i as int),
                    k@,
                ),
            decreases n - i,
        {
            proof {
                assert(self.values@.skip(i as int)[0] == self.values@[i as int]);
                assert(self.values@.skip(i as int).drop_first() =~= self.values@.skip(i + 1));
            }
            if str_eq(self.values[i].0.as_str(), k) {
                return Some(&self.values[i].1);
            }
            i = i + 1;
        }
        proof {
            assert(self.values@.skip(n as int) =~= Seq::<(String, Value)>::empty());
        }
        None
    }

    /// Looks a named child node up.
    pub fn get_node(&self, k: &str) -> (r: Option<&Node>)
        ensures
            match r {
                Some(nd) => spec_get_node(self.nodes@, k@) == Some(*nd),
                None => spec_get_node(self.nodes@, k@) is None,
            },
    {
        let n = self.nodes.len();
        let mut i: usize = 0;
        proof {
            assert(self.nodes@.skip(0) =~= self.nodes@);
        }
        while i < n
            invariant
                0 <= i <= n,
                n == self.nodes@.len(),
                spec_get_node(self.nodes@, k@) == spec_get_node(self.nodes@.skip(i as int), k@),
            decreases n - i,
        {
            proof {
                assert(self.nodes@.skip(i as int)[0] == self.nodes@[i as int]);
                assert(self.nodes@.skip(i as int).drop_first() =~= self.nodes@.skip(i + 1));
            }
            if str_eq(self.nodes[i].name.as_str(), k) {
                return Some(&self.nodes[i]);
            }
            i = i + 1;
        }
        proof {
            assert(self.nodes@.skip(n as int) =~= Seq::<Node>::empty());
        }
        None
    }
}

} // verus!
