//! The schema members: fields, input values, enum values, types and
//! directives, and the uniform row projection used for tabular rendering.

use crate::text::{safe_view, to_safe_string};
use crate::typeref::{spec_decorated, TypeRef, TYPE_LEVELS};
use vstd::prelude::*;

verus! {

/// A member that can be shown as one row of a table: an ordered sequence of
/// single-line display cells.
pub trait TableItem {
    /// The cells the row is made of.
    spec fn table_view(&self) -> Seq<Seq<char>>;

    /// Produces the row, one sanitized string per cell.
    fn table_fields(&self) -> (r: Vec<String>)
        ensures
            r.deep_view() == self.table_view(),
    ;
}

/// A field of an object or interface type.
#[derive(Debug, Eq, Ord, PartialEq, PartialOrd)]
pub struct Field {
    pub name: Option<String>,
    pub description: Option<String>,
    pub args: Option<Vec<Input>>,
    pub field_type: Option<TypeRef>,
    pub is_deprecated: Option<bool>,
    pub deprecation_reason: Option<String>,
}

/// The decorated type cell of a member: empty when it has no type reference.
pub open spec fn type_cell(t: Option<TypeRef>) -> Seq<char> {
    match t {
        Some(t) => spec_decorated(t, TYPE_LEVELS as nat),
        None => Seq::<char>::empty(),
    }
}

fn decorate_opt(t: &Option<TypeRef>) -> (r: String)
    ensures
        r@ == type_cell(*t),
{
    match t {
        Some(t) => t.decorated_name(),
        None => String::new(),
    }
}

impl TableItem for Field {
    open spec fn table_view(&self) -> Seq<Seq<char>> {
        seq![safe_view(self.name), type_cell(self.field_type), safe_view(self.description)]
    }

    fn table_fields(&self) -> (r: Vec<String>) {
        let mut v: Vec<String> = Vec::new();
        v.push(to_safe_string(&self.name));
        v.push(decorate_opt(&self.field_type));
        v.push(to_safe_string(&self.description));
        proof {
            assert(v.deep_view() =~~= self.table_view());
        }
        v
    }
}

/// An input value: an argument of a field or directive, or a field of an
/// input object type.
#[derive(Debug, Eq, Ord, PartialEq, PartialOrd)]
pub struct Input {
    pub name: Option<String>,
    pub description: Option<String>,
    pub input_type: Option<TypeRef>,
    pub default_value: Option<String>,
}

impl TableItem for Input {
    open spec fn table_view(&self) -> Seq<Seq<char>> {
        seq![
            safe_view(self.name),
            type_cell(self.input_type),
            safe_view(self.description),
            safe_view(self.default_value),
        ]
    }

    fn table_fields(&self) -> (r: Vec<String>) {
        let mut v: Vec<String> = Vec::new();
        v.push(to_safe_string(&self.name));
        v.push(decorate_opt(&self.input_type));
        v.push(to_safe_string(&self.description));
        v.push(to_safe_string(&self.default_value));
        proof {
            assert(v.deep_view() =~~= self.table_view());
        }
        v
    }
}

/// One value of an enum type.
#[derive(Debug, Eq, Ord, PartialEq, PartialOrd)]
pub struct Enum {
    pub name: Option<String>,
    pub description: Option<String>,
    pub is_deprecated: Option<bool>,
    pub deprecation_reason: Option<String>,
}

impl TableItem for Enum {
    open spec fn table_view(&self) -> Seq<Seq<char>> {
        seq![
            safe_view(self.name),
            safe_view(self.description),
            if self.is_deprecated == Some(true) {
                safe_view(self.deprecation_reason)
            } else {
                "no"@
            },
        ]
    }

    fn table_fields(&self) -> (r: Vec<String>) {
        let mut v: Vec<String> = Vec::new();
        v.push(to_safe_string(&self.name));
        v.push(to_safe_string(&self.description));
        let is_deprecated = match &self.is_deprecated {
            Some(is_deprecated) => *is_deprecated,
            None => false,
        };
        if is_deprecated {
            v.push(to_safe_string(&self.deprecation_reason));
        } else {
            v.push(String::from_str("no"));
        }
        proof {
            assert(v.deep_view() =~~= self.table_view());
        }
        v
    }
}

/// A named schema type: object, interface, union, enum, input object or
/// scalar, together with the members its kind carries.
#[derive(Debug, Eq, PartialEq)]
pub struct Type {
    pub name: Option<String>,
    pub kind: Option<String>,
    pub description: Option<String>,
    pub fields: Option<Vec<Field>>,
    pub inputs: Option<Vec<Input>>,
    pub interfaces: Option<Vec<TypeRef>>,
    pub enums: Option<Vec<Enum>>,
    pub possible_types: Option<Vec<TypeRef>>,
}

/// A schema directive and its arguments.
#[derive(Debug, Eq, PartialEq)]
pub struct Directive {
    pub name: Option<String>,
    pub description: Option<String>,
    pub locations: Option<Vec<String>>,
    pub args: Option<Vec<Input>>,
}

} // verus!
