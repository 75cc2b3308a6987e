//! Building the schema model out of a parsed JSON tree.
//!
//! Each `*_build(j, r)` spec relation says that reading `j` as the given
//! entity yields exactly `r`: `Some` with every recognized member carried
//! over, or `None` when the tree does not fit the data model. Every
//! recognized member is optional, a `null` counts as absent, and unknown
//! members are ignored; a member that is present with a value of the wrong
//! shape makes the whole entity fail. The lemmas at the end prove that no
//! tree reads back both ways, so each ensures below pins its result down.

use crate::json::{find_member, member_index, obj_lookup, Json};
use crate::model::{Directive, Enum, Field, Input, Type};
use crate::typeref::TypeRef;
use vstd::prelude::*;

verus! {

/// An optional text member: absent or `null` is `None`, a string is kept,
/// anything else is a mismatch.
pub open spec fn spec_opt_string(v: Option<Json>) -> Option<Option<String>> {
    match v {
        None => Some(None),
        Some(Json::Null) => Some(None),
        Some(Json::Str(s)) => Some(Some(s)),
        Some(_) => None,
    }
}

/// An optional boolean member, read as `spec_opt_string` reads text.
pub open spec fn spec_opt_bool(v: Option<Json>) -> Option<Option<bool>> {
    match v {
        None => Some(None),
        Some(Json::Null) => Some(None),
        Some(Json::Bool(b)) => Some(Some(b)),
        Some(_) => None,
    }
}

/// Reading `j` as a type reference yields exactly `r`: an object's `name`
/// and `kind` text members and, under `ofType`, the next link of the chain.
pub open spec fn typeref_build(j: Json, r: Option<TypeRef>) -> bool
    decreases j,
{
    match j {
        Json::Obj(ps) => {
            let name = spec_opt_string(obj_lookup(ps@, "name"@));
            let kind = spec_opt_string(obj_lookup(ps@, "kind"@));
            let mi = member_index(ps@, "ofType"@, 0);
            if name is None || kind is None {
                r is None
            } else if mi >= ps@.len() || ps@[mi as int].1 is Null {
                match r {
                    Some(t) => t.name == name->0 && t.kind == kind->0 && t.of_type is None,
                    None => false,
                }
            } else if !(ps@[mi as int].1 is Obj) {
                r is None
            } else {
                match r {
                    Some(t) => t.name == name->0 && t.kind == kind->0 && t.of_type is Some
                        && typeref_build(ps@[mi as int].1, Some(*t.of_type->0)),
                    None => typeref_build(ps@[mi as int].1, None),
                }
            }
        },
        _ => r is None,
    }
}

/// An optional type-reference member.
pub open spec fn opt_typeref_build(v: Option<Json>, r: Option<Option<TypeRef>>) -> bool {
    match v {
        None => r == Some(Option::<TypeRef>::None),
        Some(Json::Null) => r == Some(Option::<TypeRef>::None),
        Some(j) => if j is Obj {
            match r {
                Some(o) => o is Some && typeref_build(j, Some(o->0)),
                None => typeref_build(j, None),
            }
        } else {
            r is None
        },
    }
}

/// Reading `j` as an input value yields exactly `r`.
pub open spec fn input_build(j: Json, r: Option<Input>) -> bool {
    match j {
        Json::Obj(ps) => {
            let name = spec_opt_string(obj_lookup(ps@, "name"@));
            let description = spec_opt_string(obj_lookup(ps@, "description"@));
            let default_value = spec_opt_string(obj_lookup(ps@, "defaultValue"@));
            match r {
                Some(i) => name is Some && i.name == name->0 && description is Some
                    && i.description == description->0 && default_value is Some
                    && i.default_value == default_value->0 && opt_typeref_build(
                    obj_lookup(ps@, "type"@),
                    Some(i.input_type),
                ),
                None => name is None || description is None || default_value is None
                    || opt_typeref_build(obj_lookup(ps@, "type"@), None),
            }
        },
        _ => r is None,
    }
}

/// Reading the elements of an array as input values yields exactly `r`.
pub open spec fn inputs_build(elems: Seq<Json>, r: Option<Seq<Input>>) -> bool {
    match r {
        Some(s) => s.len() == elems.len() && forall|k: int|
            0 <= k < elems.len() ==> input_build(elems[k], Some(#[trigger] s[k])),
        None => exists|k: int| 0 <= k < elems.len() && input_build(#[trigger] elems[k], None),
    }
}

/// An optional array-of-inputs member.
pub open spec fn opt_inputs_build(v: Option<Json>, r: Option<Option<Vec<Input>>>) -> bool {
    match v {
        None => r == Some(Option::<Vec<Input>>::None),
        Some(Json::Null) => r == Some(Option::<Vec<Input>>::None),
        Some(Json::Arr(elems)) => match r {
            Some(o) => o is Some && inputs_build(elems@, Some(o->0@)),
            None => inputs_build(elems@, None),
        },
        Some(_) => r is None,
    }
}

/// Reading `j` as a field yields exactly `r`.
pub open spec fn field_build(j: Json, r: Option<Field>) -> bool {
    match j {
        Json::Obj(ps) => {
            let name = spec_opt_string(obj_lookup(ps@, "name"@));
            let description = spec_opt_string(obj_lookup(ps@, "description"@));
            let is_deprecated = spec_opt_bool(obj_lookup(ps@, "isDeprecated"@));
            let deprecation_reason = spec_opt_string(obj_lookup(ps@, "deprecationReason"@));
            match r {
                Some(f) => name is Some && f.name == name->0 && description is Some
                    && f.description == description->0 && is_deprecated is Some
                    && f.is_deprecated == is_deprecated->0 && deprecation_reason is Some
                    && f.deprecation_reason == deprecation_reason->0 && opt_inputs_build(
                    obj_lookup(ps@, "args"@),
                    Some(f.args),
                ) && opt_typeref_build(obj_lookup(ps@, "type"@), Some(f.field_type)),
                None => name is None || description is None || is_deprecated is None
                    || deprecation_reason is None || opt_inputs_build(obj_lookup(ps@, "args"@), None)
                    || opt_typeref_build(obj_lookup(ps@, "type"@), None),
            }
        },
        _ => r is None,
    }
}

/// Reading the elements of an array as fields yields exactly `r`.
pub open spec fn fields_build(elems: Seq<Json>, r: Option<Seq<Field>>) -> bool {
    match r {
        Some(s) => s.len() == elems.len() && forall|k: int|
            0 <= k < elems.len() ==> field_build(elems[k], Some(#[trigger] s[k])),
        None => exists|k: int| 0 <= k < elems.len() && field_build(#[trigger] elems[k], None),
    }
}

/// An optional array-of-fields member.
pub open spec fn opt_fields_build(v: Option<Json>, r: Option<Option<Vec<Field>>>) -> bool {
    match v {
        None => r == Some(Option::<Vec<Field>>::None),
        Some(Json::Null) => r == Some(Option::<Vec<Field>>::None),
        Some(Json::Arr(elems)) => match r {
            Some(o) => o is Some && fields_build(elems@, Some(o->0@)),
            None => fields_build(elems@, None),
        },
        Some(_) => r is None,
    }
}

/// Reading `j` as an enum value yields exactly `r`.
pub open spec fn enum_build(j: Json, r: Option<Enum>) -> bool {
    match j {
        Json::Obj(ps) => {
            let name = spec_opt_string(obj_lookup(ps@, "name"@));
            let description = spec_opt_string(obj_lookup(ps@, "description"@));
            let is_deprecated = spec_opt_bool(obj_lookup(ps@, "isDeprecated"@));
            let deprecation_reason = spec_opt_string(obj_lookup(ps@, "deprecationReason"@));
            match r {
                Some(e) => name is Some && e.name == name->0 && description is Some
                    && e.description == description->0 && is_deprecated is Some
                    && e.is_deprecated == is_deprecated->0 && deprecation_reason is Some
                    && e.deprecation_reason == deprecation_reason->0,
                None => name is None || description is None || is_deprecated is None
                    || deprecation_reason is None,
            }
        },
        _ => r is None,
    }
}

/// Reading the elements of an array as enum values yields exactly `r`.
pub open spec fn enums_build(elems: Seq<Json>, r: Option<Seq<Enum>>) -> bool {
    match r {
        Some(s) => s.len() == elems.len() && forall|k: int|
            0 <= k < elems.len() ==> enum_build(elems[k], Some(#[trigger] s[k])),
        None => exists|k: int| 0 <= k < elems.len() && enum_build(#[trigger] elems[k], None),
    }
}

/// An optional array-of-enum-values member.
pub open spec fn opt_enums_build(v: Option<Json>, r: Option<Option<Vec<Enum>>>) -> bool {
    match v {
        None => r == Some(Option::<Vec<Enum>>::None),
        Some(Json::Null) => r == Some(Option::<Vec<Enum>>::None),
        Some(Json::Arr(elems)) => match r {
            Some(o) => o is Some && enums_build(elems@, Some(o->0@)),
            None => enums_build(elems@, None),
        },
        Some(_) => r is None,
    }
}

/// Reading the elements of an array as type references yields exactly `r`.
pub open spec fn typerefs_build(elems: Seq<Json>, r: Option<Seq<TypeRef>>) -> bool {
    match r {
        Some(s) => s.len() == elems.len() && forall|k: int|
            0 <= k < elems.len() ==> typeref_build(elems[k], Some(#[trigger] s[k])),
        None => exists|k: int| 0 <= k < elems.len() && typeref_build(#[trigger] elems[k], None),
    }
}

/// An optional array-of-type-references member.
pub open spec fn opt_typerefs_build(v: Option<Json>, r: Option<Option<Vec<TypeRef>>>) -> bool {
    match v {
        None => r == Some(Option::<Vec<TypeRef>>::None),
        Some(Json::Null) => r == Some(Option::<Vec<TypeRef>>::None),
        Some(Json::Arr(elems)) => match r {
            Some(o) => o is Some && typerefs_build(elems@, Some(o->0@)),
            None => typerefs_build(elems@, None),
        },
        Some(_) => r is None,
    }
}

/// Reading the elements of an array as plain strings yields exactly `r`.
pub open spec fn strings_build(elems: Seq<Json>, r: Option<Seq<String>>) -> bool {
    match r {
        Some(s) => s.len() == elems.len() && forall|k: int|
            0 <= k < elems.len() ==> elems[k] == Json::Str(#[trigger] s[k]),
        None => exists|k: int| 0 <= k < elems.len() && !(#[trigger] elems[k] is Str),
    }
}

/// An optional array-of-strings member.
pub open spec fn opt_strings_build(v: Option<Json>, r: Option<Option<Vec<String>>>) -> bool {
    match v {
        None => r == Some(Option::<Vec<String>>::None),
        Some(Json::Null) => r == Some(Option::<Vec<String>>::None),
        Some(Json::Arr(elems)) => match r {
            Some(o) => o is Some && strings_build(elems@, Some(o->0@)),
            None => strings_build(elems@, None),
        },
        Some(_) => r is None,
    }
}

/// Reading `j` as a schema type yields exactly `r`.
pub open spec fn type_build(j: Json, r: Option<Type>) -> bool {
    match j {
        Json::Obj(ps) => {
            let name = spec_opt_string(obj_lookup(ps@, "name"@));
            let kind = spec_opt_string(obj_lookup(ps@, "kind"@));
            let description = spec_opt_string(obj_lookup(ps@, "description"@));
            match r {
                Some(t) => name is Some && t.name == name->0 && kind is Some && t.kind == kind->0
                    && description is Some && t.description == description->0 && opt_fields_build(
                    obj_lookup(ps@, "fields"@),
                    Some(t.fields),
                ) && opt_inputs_build(obj_lookup(ps@, "inputFields"@), Some(t.inputs))
                    && opt_typerefs_build(obj_lookup(ps@, "interfaces"@), Some(t.interfaces))
                    && opt_enums_build(obj_lookup(ps@, "enumValues"@), Some(t.enums))
                    && opt_typerefs_build(
                    obj_lookup(ps@, "possibleTypes"@),
                    Some(t.possible_types),
                ),
                None => name is None || kind is None || description is None || opt_fields_build(
                    obj_lookup(ps@, "fields"@),
                    None,
                ) || opt_inputs_build(obj_lookup(ps@, "inputFields"@), None) || opt_typerefs_build(
                    obj_lookup(ps@, "interfaces"@),
                    None,
                ) || opt_enums_build(obj_lookup(ps@, "enumValues"@), None) || opt_typerefs_build(
                    obj_lookup(ps@, "possibleTypes"@),
                    None,
                ),
            }
        },
        _ => r is None,
    }
}

/// Reading the elements of an array as schema types yields exactly `r`.
pub open spec fn types_build(elems: Seq<Json>, r: Option<Seq<Type>>) -> bool {
    match r {
        Some(s) => s.len() == elems.len() && forall|k: int|
            0 <= k < elems.len() ==> type_build(elems[k], Some(#[trigger] s[k])),
        None => exists|k: int| 0 <= k < elems.len() && type_build(#[trigger] elems[k], None),
    }
}

/// An optional array-of-types member.
pub open spec fn opt_types_build(v: Option<Json>, r: Option<Option<Vec<Type>>>) -> bool {
    match v {
        None => r == Some(Option::<Vec<Type>>::None),
        Some(Json::Null) => r == Some(Option::<Vec<Type>>::None),
        Some(Json::Arr(elems)) => match r {
            Some(o) => o is Some && types_build(elems@, Some(o->0@)),
            None => types_build(elems@, None),
        },
        Some(_) => r is None,
    }
}

/// An optional single-type member, as the root operation types are given.
pub open spec fn opt_type_build(v: Option<Json>, r: Option<Option<Type>>) -> bool {
    match v {
        None => r == Some(Option::<Type>::None),
        Some(Json::Null) => r == Some(Option::<Type>::None),
        Some(j) => if j is Obj {
            match r {
                Some(o) => o is Some && type_build(j, Some(o->0)),
                None => type_build(j, None),
            }
        } else {
            r is None
        },
    }
}

/// Reading `j` as a directive yields exactly `r`.
pub open spec fn directive_build(j: Json, r: Option<Directive>) -> bool {
    match j {
        Json::Obj(ps) => {
            let name = spec_opt_string(obj_lookup(ps@, "name"@));
            let description = spec_opt_string(obj_lookup(ps@, "description"@));
            match r {
                Some(d) => name is Some && d.name == name->0 && description is Some
                    && d.description == description->0 && opt_strings_build(
                    obj_lookup(ps@, "locations"@),
                    Some(d.locations),
                ) && opt_inputs_build(obj_lookup(ps@, "args"@), Some(d.args)),
                None => name is None || description is None || opt_strings_build(
                    obj_lookup(ps@, "locations"@),
                    None,
                ) || opt_inputs_build(obj_lookup(ps@, "args"@), None),
            }
        },
        _ => r is None,
    }
}

/// Reading the elements of an array as directives yields exactly `r`.
pub open spec fn directives_build(elems: Seq<Json>, r: Option<Seq<Directive>>) -> bool {
    match r {
        Some(s) => s.len() == elems.len() && forall|k: int|
            0 <= k < elems.len() ==> directive_build(elems[k], Some(#[trigger] s[k])),
        None => exists|k: int| 0 <= k < elems.len() && directive_build(#[trigger] elems[k], None),
    }
}

/// An optional array-of-directives member.
pub open spec fn opt_directives_build(v: Option<Json>, r: Option<Option<Vec<Directive>>>) -> bool {
    match v {
        None => r == Some(Option::<Vec<Directive>>::None),
        Some(Json::Null) => r == Some(Option::<Vec<Directive>>::None),
        Some(Json::Arr(elems)) => match r {
            Some(o) => o is Some && directives_build(elems@, Some(o->0@)),
            None => directives_build(elems@, None),
        },
        Some(_) => r is None,
    }
}

// Each relation above is exclusive: a tree that reads back as an entity
// cannot also read back as a mismatch. The lemmas below prove it, relation by
// relation; they are what lets a caller of `Schema::from_str` conclude that
// a conforming payload never comes back as an error.
proof fn lemma_typeref_build_exclusive(j: Json, t: TypeRef)
    requires
        typeref_build(j, Some(t)),
    ensures
        !typeref_build(j, None),
    decreases j,
{
    match j {
        Json::Obj(ps) => {
            let mi = member_index(ps@, "ofType"@, 0);
            if mi < ps@.len() && ps@[mi as int].1 is Obj {
                lemma_typeref_build_exclusive(ps@[mi as int].1, *t.of_type->0);
            }
        },
        _ => {},
    }
}

proof fn lemma_opt_typeref_build_exclusive(v: Option<Json>, o: Option<TypeRef>)
    requires
        opt_typeref_build(v, Some(o)),
    ensures
        !opt_typeref_build(v, None),
{
    match v {
        Some(j) => {
            if j is Obj {
                lemma_typeref_build_exclusive(j, o->0);
            }
        },
        None => {},
    }
}

proof fn lemma_input_build_exclusive(j: Json, i: Input)
    requires
        input_build(j, Some(i)),
    ensures
        !input_build(j, None),
{
    match j {
        Json::Obj(ps) => {
            lemma_opt_typeref_build_exclusive(obj_lookup(ps@, "type"@), i.input_type);
        },
        _ => {},
    }
}

proof fn lemma_inputs_build_exclusive(elems: Seq<Json>, s: Seq<Input>)
    requires
        inputs_build(elems, Some(s)),
    ensures
        !inputs_build(elems, None),
{
    if inputs_build(elems, None) {
        let k = choose|k: int| 0 <= k < elems.len() && input_build(elems[k], None);
        lemma_input_build_exclusive(elems[k], s[k]);
    }
}

proof fn lemma_opt_inputs_build_exclusive(v: Option<Json>, o: Option<Vec<Input>>)
    requires
        opt_inputs_build(v, Some(o)),
    ensures
        !opt_inputs_build(v, None),
{
    match v {
        Some(Json::Arr(elems)) => lemma_inputs_build_exclusive(elems@, o->0@),
        _ => {},
    }
}

proof fn lemma_field_build_exclusive(j: Json, f: Field)
    requires
        field_build(j, Some(f)),
    ensures
        !field_build(j, None),
{
    match j {
        Json::Obj(ps) => {
            lemma_opt_inputs_build_exclusive(obj_lookup(ps@, "args"@), f.args);
            lemma_opt_typeref_build_exclusive(obj_lookup(ps@, "type"@), f.field_type);
        },
        _ => {},
    }
}

proof fn lemma_fields_build_exclusive(elems: Seq<Json>, s: Seq<Field>)
    requires
        fields_build(elems, Some(s)),
    ensures
        !fields_build(elems, None),
{
    if fields_build(elems, None) {
        let k = choose|k: int| 0 <= k < elems.len() && field_build(elems[k], None);
        lemma_field_build_exclusive(elems[k], s[k]);
    }
}

proof fn lemma_opt_fields_build_exclusive(v: Option<Json>, o: Option<Vec<Field>>)
    requires
        opt_fields_build(v, Some(o)),
    ensures
        !opt_fields_build(v, None),
{
    match v {
        Some(Json::Arr(elems)) => lemma_fields_build_exclusive(elems@, o->0@),
        _ => {},
    }
}

proof fn lemma_enums_build_exclusive(elems: Seq<Json>, s: Seq<Enum>)
    requires
        enums_build(elems, Some(s)),
    ensures
        !enums_build(elems, None),
{
    if enums_build(elems, None) {
        let k = choose|k: int| 0 <= k < elems.len() && enum_build(elems[k], None);
        assert(enum_build(elems[k], Some(s[k])));
    }
}

proof fn lemma_opt_enums_build_exclusive(v: Option<Json>, o: Option<Vec<Enum>>)
    requires
        opt_enums_build(v, Some(o)),
    ensures
        !opt_enums_build(v, None),
{
    match v {
        Some(Json::Arr(elems)) => lemma_enums_build_exclusive(elems@, o->0@),
        _ => {},
    }
}

proof fn lemma_typerefs_build_exclusive(elems: Seq<Json>, s: Seq<TypeRef>)
    requires
        typerefs_build(elems, Some(s)),
    ensures
        !typerefs_build(elems, None),
{
    if typerefs_build(elems, None) {
        let k = choose|k: int| 0 <= k < elems.len() && typeref_build(elems[k], None);
        lemma_typeref_build_exclusive(elems[k], s[k]);
    }
}

proof fn lemma_opt_typerefs_build_exclusive(v: Option<Json>, o: Option<Vec<TypeRef>>)
    requires
        opt_typerefs_build(v, Some(o)),
    ensures
        !opt_typerefs_build(v, None),
{
    match v {
        Some(Json::Arr(elems)) => lemma_typerefs_build_exclusive(elems@, o->0@),
        _ => {},
    }
}

proof fn lemma_strings_build_exclusive(elems: Seq<Json>, s: Seq<String>)
    requires
        strings_build(elems, Some(s)),
    ensures
        !strings_build(elems, None),
{
    if strings_build(elems, None) {
        let k = choose|k: int| 0 <= k < elems.len() && !(elems[k] is Str);
        assert(elems[k] == Json::Str(s[k]));
    }
}

proof fn lemma_opt_strings_build_exclusive(v: Option<Json>, o: Option<Vec<String>>)
    requires
        opt_strings_build(v, Some(o)),
    ensures
        !opt_strings_build(v, None),
{
    match v {
        Some(Json::Arr(elems)) => lemma_strings_build_exclusive(elems@, o->0@),
        _ => {},
    }
}

proof fn lemma_type_build_exclusive(j: Json, t: Type)
    requires
        type_build(j, Some(t)),
    ensures
        !type_build(j, None),
{
    match j {
        Json::Obj(ps) => {
            lemma_opt_fields_build_exclusive(obj_lookup(ps@, "fields"@), t.fields);
            lemma_opt_inputs_build_exclusive(obj_lookup(ps@, "inputFields"@), t.inputs);
            lemma_opt_typerefs_build_exclusive(obj_lookup(ps@, "interfaces"@), t.interfaces);
            lemma_opt_enums_build_exclusive(obj_lookup(ps@, "enumValues"@), t.enums);
            lemma_opt_typerefs_build_exclusive(
                obj_lookup(ps@, "possibleTypes"@),
                t.possible_types,
            );
        },
        _ => {},
    }
}

proof fn lemma_types_build_exclusive(elems: Seq<Json>, s: Seq<Type>)
    requires
        types_build(elems, Some(s)),
    ensures
        !types_build(elems, None),
{
    if types_build(elems, None) {
        let k = choose|k: int| 0 <= k < elems.len() && type_build(elems[k], None);
        lemma_type_build_exclusive(elems[k], s[k]);
    }
}

/// A member read as a type list cannot also read as a mismatch.
pub(crate) proof fn lemma_opt_types_build_exclusive(v: Option<Json>, o: Option<Vec<Type>>)
    requires
        opt_types_build(v, Some(o)),
    ensures
        !opt_types_build(v, None),
{
    match v {
        Some(Json::Arr(elems)) => lemma_types_build_exclusive(elems@, o->0@),
        _ => {},
    }
}

/// A member read as a root type cannot also read as a mismatch.
pub(crate) proof fn lemma_opt_type_build_exclusive(v: Option<Json>, o: Option<Type>)
    requires
        opt_type_build(v, Some(o)),
    ensures
        !opt_type_build(v, None),
{
    match v {
        Some(j) => {
            if j is Obj {
                lemma_type_build_exclusive(j, o->0);
            }
        },
        None => {},
    }
}

proof fn lemma_directive_build_exclusive(j: Json, d: Directive)
    requires
        directive_build(j, Some(d)),
    ensures
        !directive_build(j, None),
{
    match j {
        Json::Obj(ps) => {
            lemma_opt_strings_build_exclusive(obj_lookup(ps@, "locations"@), d.locations);
            lemma_opt_inputs_build_exclusive(obj_lookup(ps@, "args"@), d.args);
        },
        _ => {},
    }
}

proof fn lemma_directives_build_exclusive(elems: Seq<Json>, s: Seq<Directive>)
    requires
        directives_build(elems, Some(s)),
    ensures
        !directives_build(elems, None),
{
    if directives_build(elems, None) {
        let k = choose|k: int| 0 <= k < elems.len() && directive_build(elems[k], None);
        lemma_directive_build_exclusive(elems[k], s[k]);
    }
}

/// A member read as a directive list cannot also read as a mismatch.
pub(crate) proof fn lemma_opt_directives_build_exclusive(v: Option<Json>, o: Option<Vec<Directive>>)
    requires
        opt_directives_build(v, Some(o)),
    ensures
        !opt_directives_build(v, None),
{
    match v {
        Some(Json::Arr(elems)) => lemma_directives_build_exclusive(elems@, o->0@),
        _ => {},
    }
}

fn opt_string_member(ps: &Vec<(String, Json)>, key: &str) -> (r: Option<Option<String>>)
    ensures
        r == spec_opt_string(obj_lookup(ps@, key@)),
{
    match find_member(ps, key) {
        None => Some(None),
        Some(Json::Null) => Some(None),
        Some(Json::Str(s)) => Some(Some(s.clone())),
        Some(_) => None,
    }
}

fn opt_bool_member(ps: &Vec<(String, Json)>, key: &str) -> (r: Option<Option<bool>>)
    ensures
        r == spec_opt_bool(obj_lookup(ps@, key@)),
{
    match find_member(ps, key) {
        None => Some(None),
        Some(Json::Null) => Some(None),
        Some(Json::Bool(b)) => Some(Some(*b)),
        Some(_) => None,
    }
}

/// Builds a type reference out of `j`.
pub fn typeref_from_json(j: &Json) -> (r: Option<TypeRef>)
    ensures
        typeref_build(*j, r),
    decreases *j,
{
    let ps = match j {
        Json::Obj(ps) => ps,
        _ => {
            return None;
        },
    };
    let name = match opt_string_member(ps, "name") {
        Some(name) => name,
        None => {
            return None;
        },
    };
    let kind = match opt_string_member(ps, "kind") {
        Some(kind) => kind,
        None => {
            return None;
        },
    };
    let of_type = match find_member(ps, "ofType") {
        None => None,
        Some(Json::Null) => None,
        Some(inner) => {
            if let Json::Obj(_) = inner {
                proof {
                    let mi = member_index(ps@, "ofType"@, 0);
                    assert(*inner == ps@[mi as int].1);
                }
                match typeref_from_json(inner) {
                    Some(t) => Some(Box::new(t)),
                    None => {
                        return None;
                    },
                }
            } else {
                return None;
            }
        },
    };
    Some(TypeRef { name, kind, of_type })
}

fn opt_typeref_member(ps: &Vec<(String, Json)>, key: &str) -> (r: Option<Option<TypeRef>>)
    ensures
        opt_typeref_build(obj_lookup(ps@, key@), r),
{
    match find_member(ps, key) {
        None => Some(None),
        Some(Json::Null) => Some(None),
        Some(inner) => {
            if let Json::Obj(_) = inner {
                match typeref_from_json(inner) {
                    Some(t) => Some(Some(t)),
                    None => None,
                }
            } else {
                None
            }
        },
    }
}

/// Builds an input value out of `j`.
pub fn input_from_json(j: &Json) -> (r: Option<Input>)
    ensures
        input_build(*j, r),
{
    let ps = match j {
        Json::Obj(ps) => ps,
        _ => {
            return None;
        },
    };
    let name = match opt_string_member(ps, "name") {
        Some(name) => name,
        None => {
            return None;
        },
    };
    let description = match opt_string_member(ps, "description") {
        Some(description) => description,
        None => {
            return None;
        },
    };
    let default_value = match opt_string_member(ps, "defaultValue") {
        Some(default_value) => default_value,
        None => {
            return None;
        },
    };
    let input_type = match opt_typeref_member(ps, "type") {
        Some(input_type) => input_type,
        None => {
            return None;
        },
    };
    Some(Input { name, description, input_type, default_value })
}

fn inputs_from_json(elems: &Vec<Json>) -> (r: Option<Vec<Input>>)
    ensures
        match r {
            Some(v) => inputs_build(elems@, Some(v@)),
            None => inputs_build(elems@, None),
        },
{
    let mut out: Vec<Input> = Vec::new();
    let mut i: usize = 0;
    while i < elems.len()
        invariant
            i <= elems@.len(),
            out@.len() == i,
            forall|k: int| 0 <= k < i ==> input_build(elems@[k], Some(#[trigger] out@[k])),
        decreases elems@.len() - i,
    {
        match input_from_json(&elems[i]) {
            Some(v) => out.push(v),
            None => {
                return None;
            },
        }
        i = i + 1;
    }
    Some(out)
}

fn opt_inputs_member(ps: &Vec<(String, Json)>, key: &str) -> (r: Option<Option<Vec<Input>>>)
    ensures
        opt_inputs_build(obj_lookup(ps@, key@), r),
{
    match find_member(ps, key) {
        None => Some(None),
        Some(Json::Null) => Some(None),
        Some(Json::Arr(elems)) => match inputs_from_json(elems) {
            Some(v) => Some(Some(v)),
            None => None,
        },
        Some(_) => None,
    }
}

/// Builds a field out of `j`.
pub fn field_from_json(j: &Json) -> (r: Option<Field>)
    ensures
        field_build(*j, r),
{
    let ps = match j {
        Json::Obj(ps) => ps,
        _ => {
            return None;
        },
    };
    let name = match opt_string_member(ps, "name") {
        Some(name) => name,
        None => {
            return None;
        },
    };
    let description = match opt_string_member(ps, "description") {
        Some(description) => description,
        None => {
            return None;
        },
    };
    let is_deprecated = match opt_bool_member(ps, "isDeprecated") {
        Some(is_deprecated) => is_deprecated,
        None => {
            return None;
        },
    };
    let deprecation_reason = match opt_string_member(ps, "deprecationReason") {
        Some(deprecation_reason) => deprecation_reason,
        None => {
            return None;
        },
    };
    let args = match opt_inputs_member(ps, "args") {
        Some(args) => args,
        None => {
            return None;
        },
    };
    let field_type = match opt_typeref_member(ps, "type") {
        Some(field_type) => field_type,
        None => {
            return None;
        },
    };
    Some(Field { name, description, args, field_type, is_deprecated, deprecation_reason })
}

fn fields_from_json(elems: &Vec<Json>) -> (r: Option<Vec<Field>>)
    ensures
        match r {
            Some(v) => fields_build(elems@, Some(v@)),
            None => fields_build(elems@, None),
        },
{
    let mut out: Vec<Field> = Vec::new();
    let mut i: usize = 0;
    while i < elems.len()
        invariant
            i <= elems@.len(),
            out@.len() == i,
            forall|k: int| 0 <= k < i ==> field_build(elems@[k], Some(#[trigger] out@[k])),
        decreases elems@.len() - i,
    {
        match field_from_json(&elems[i]) {
            Some(v) => out.push(v),
            None => {
                return None;
            },
        }
        i = i + 1;
    }
    Some(out)
}

fn opt_fields_member(ps: &Vec<(String, Json)>, key: &str) -> (r: Option<Option<Vec<Field>>>)
    ensures
        opt_fields_build(obj_lookup(ps@, key@), r),
{
    match find_member(ps, key) {
        None => Some(None),
        Some(Json::Null) => Some(None),
        Some(Json::Arr(elems)) => match fields_from_json(elems) {
            Some(v) => Some(Some(v)),
            None => None,
        },
        Some(_) => None,
    }
}

/// Builds an enum value out of `j`.
pub fn enum_from_json(j: &Json) -> (r: Option<Enum>)
    ensures
        enum_build(*j, r),
{
    let ps = match j {
        Json::Obj(ps) => ps,
        _ => {
            return None;
        },
    };
    let name = match opt_string_member(ps, "name") {
        Some(name) => name,
        None => {
            return None;
        },
    };
    let description = match opt_string_member(ps, "description") {
        Some(description) => description,
        None => {
            return None;
        },
    };
    let is_deprecated = match opt_bool_member(ps, "isDeprecated") {
        Some(is_deprecated) => is_deprecated,
        None => {
            return None;
        },
    };
    let deprecation_reason = match opt_string_member(ps, "deprecationReason") {
        Some(deprecation_reason) => deprecation_reason,
        None => {
            return None;
        },
    };
    Some(Enum { name, description, is_deprecated, deprecation_reason })
}

fn enums_from_json(elems: &Vec<Json>) -> (r: Option<Vec<Enum>>)
    ensures
        match r {
            Some(v) => enums_build(elems@, Some(v@)),
            None => enums_build(elems@, None),
        },
{
    let mut out: Vec<Enum> = Vec::new();
    let mut i: usize = 0;
    while i < elems.len()
        invariant
            i <= elems@.len(),
            out@.len() == i,
            forall|k: int| 0 <= k < i ==> enum_build(elems@[k], Some(#[trigger] out@[k])),
        decreases elems@.len() - i,
    {
        match enum_from_json(&elems[i]) {
            Some(v) => out.push(v),
            None => {
                return None;
            },
        }
        i = i + 1;
    }
    Some(out)
}

fn opt_enums_member(ps: &Vec<(String, Json)>, key: &str) -> (r: Option<Option<Vec<Enum>>>)
    ensures
        opt_enums_build(obj_lookup(ps@, key@), r),
{
    match find_member(ps, key) {
        None => Some(None),
        Some(Json::Null) => Some(None),
        Some(Json::Arr(elems)) => match enums_from_json(elems) {
            Some(v) => Some(Some(v)),
            None => None,
        },
        Some(_) => None,
    }
}

fn typerefs_from_json(elems: &Vec<Json>) -> (r: Option<Vec<TypeRef>>)
    ensures
        match r {
            Some(v) => typerefs_build(elems@, Some(v@)),
            None => typerefs_build(elems@, None),
        },
{
    let mut out: Vec<TypeRef> = Vec::new();
    let mut i: usize = 0;
    while i < elems.len()
        invariant
            i <= elems@.len(),
            out@.len() == i,
            forall|k: int| 0 <= k < i ==> typeref_build(elems@[k], Some(#[trigger] out@[k])),
        decreases elems@.len() - i,
    {
        match typeref_from_json(&elems[i]) {
            Some(v) => out.push(v),
            None => {
                return None;
            },
        }
        i = i + 1;
    }
    Some(out)
}

fn opt_typerefs_member(ps: &Vec<(String, Json)>, key: &str) -> (r: Option<Option<Vec<TypeRef>>>)
    ensures
        opt_typerefs_build(obj_lookup(ps@, key@), r),
{
    match find_member(ps, key) {
        None => Some(None),
        Some(Json::Null) => Some(None),
        Some(Json::Arr(elems)) => match typerefs_from_json(elems) {
            Some(v) => Some(Some(v)),
            None => None,
        },
        Some(_) => None,
    }
}

fn strings_from_json(elems: &Vec<Json>) -> (r: Option<Vec<String>>)
    ensures
        match r {
            Some(v) => strings_build(elems@, Some(v@)),
            None => strings_build(elems@, None),
        },
{
    let mut out: Vec<String> = Vec::new();
    let mut i: usize = 0;
    while i < elems.len()
        invariant
            i <= elems@.len(),
            out@.len() == i,
            forall|k: int| 0 <= k < i ==> elems@[k] == Json::Str(#[trigger] out@[k]),
        decreases elems@.len() - i,
    {
        match &elems[i] {
            Json::Str(s) => out.push(s.clone()),
            _ => {
                return None;
            },
        }
        i = i + 1;
    }
    Some(out)
}

fn opt_strings_member(ps: &Vec<(String, Json)>, key: &str) -> (r: Option<Option<Vec<String>>>)
    ensures
        opt_strings_build(obj_lookup(ps@, key@), r),
{
    match find_member(ps, key) {
        None => Some(None),
        Some(Json::Null) => Some(None),
        Some(Json::Arr(elems)) => match strings_from_json(elems) {
            Some(v) => Some(Some(v)),
            None => None,
        },
        Some(_) => None,
    }
}

/// Builds a schema type out of `j`.
pub fn type_from_json(j: &Json) -> (r: Option<Type>)
    ensures
        type_build(*j, r),
{
    let ps = match j {
        Json::Obj(ps) => ps,
        _ => {
            return None;
        },
    };
    let name = match opt_string_member(ps, "name") {
        Some(name) => name,
        None => {
            return None;
        },
    };
    let kind = match opt_string_member(ps, "kind") {
        Some(kind) => kind,
        None => {
            return None;
        },
    };
    let description = match opt_string_member(ps, "description") {
        Some(description) => description,
        None => {
            return None;
        },
    };
    let fields = match opt_fields_member(ps, "fields") {
        Some(fields) => fields,
        None => {
            return None;
        },
    };
    let inputs = match opt_inputs_member(ps, "inputFields") {
        Some(inputs) => inputs,
        None => {
            return None;
        },
    };
    let interfaces = match opt_typerefs_member(ps, "interfaces") {
        Some(interfaces) => interfaces,
        None => {
            return None;
        },
    };
    let enums = match opt_enums_member(ps, "enumValues") {
        Some(enums) => enums,
        None => {
            return None;
        },
    };
    let possible_types = match opt_typerefs_member(ps, "possibleTypes") {
        Some(possible_types) => possible_types,
        None => {
            return None;
        },
    };
    Some(Type { name, kind, description, fields, inputs, interfaces, enums, possible_types })
}

/// Builds the member list of an array of schema types.
pub fn types_from_json(elems: &Vec<Json>) -> (r: Option<Vec<Type>>)
    ensures
        match r {
            Some(v) => types_build(elems@, Some(v@)),
            None => types_build(elems@, None),
        },
{
    let mut out: Vec<Type> = Vec::new();
    let mut i: usize = 0;
    while i < elems.len()
        invariant
            i <= elems@.len(),
            out@.len() == i,
            forall|k: int| 0 <= k < i ==> type_build(elems@[k], Some(#[trigger] out@[k])),
        decreases elems@.len() - i,
    {
        match type_from_json(&elems[i]) {
            Some(v) => out.push(v),
            None => {
                return None;
            },
        }
        i = i + 1;
    }
    Some(out)
}

/// Reads an optional array-of-types member of an object.
pub fn opt_types_member(ps: &Vec<(String, Json)>, key: &str) -> (r: Option<Option<Vec<Type>>>)
    ensures
        opt_types_build(obj_lookup(ps@, key@), r),
{
    match find_member(ps, key) {
        None => Some(None),
        Some(Json::Null) => Some(None),
        Some(Json::Arr(elems)) => match types_from_json(elems) {
            Some(v) => Some(Some(v)),
            None => None,
        },
        Some(_) => None,
    }
}

/// Reads an optional single-type member of an object.
pub fn opt_type_member(ps: &Vec<(String, Json)>, key: &str) -> (r: Option<Option<Type>>)
    ensures
        opt_type_build(obj_lookup(ps@, key@), r),
{
    match find_member(ps, key) {
        None => Some(None),
        Some(Json::Null) => Some(None),
        Some(inner) => {
            if let Json::Obj(_) = inner {
                match type_from_json(inner) {
                    Some(t) => Some(Some(t)),
                    None => None,
                }
            } else {
                None
            }
        },
    }
}

/// Builds a directive out of `j`.
pub fn directive_from_json(j: &Json) -> (r: Option<Directive>)
    ensures
        directive_build(*j, r),
{
    let ps = match j {
        Json::Obj(ps) => ps,
        _ => {
            return None;
        },
    };
    let name = match opt_string_member(ps, "name") {
        Some(name) => name,
        None => {
            return None;
        },
    };
    let description = match opt_string_member(ps, "description") {
        Some(description) => description,
        None => {
            return None;
        },
    };
    let locations = match opt_strings_member(ps, "locations") {
        Some(locations) => locations,
        None => {
            return None;
        },
    };
    let args = match opt_inputs_member(ps, "args") {
        Some(args) => args,
        None => {
            return None;
        },
    };
    Some(Directive { name, description, locations, args })
}

/// Builds the member list of an array of directives.
pub fn directives_from_json(elems: &Vec<Json>) -> (r: Option<Vec<Directive>>)
    ensures
        match r {
            Some(v) => directives_build(elems@, Some(v@)),
            None => directives_build(elems@, None),
        },
{
    let mut out: Vec<Directive> = Vec::new();
    let mut i: usize = 0;
    while i < elems.len()
        invariant
            i <= elems@.len(),
            out@.len() == i,
            forall|k: int| 0 <= k < i ==> directive_build(elems@[k], Some(#[trigger] out@[k])),
        decreases elems@.len() - i,
    {
        match directive_from_json(&elems[i]) {
            Some(v) => out.push(v),
            None => {
                return None;
            },
        }
        i = i + 1;
    }
    Some(out)
}

/// Reads an optional array-of-directives member of an object.
pub fn opt_directives_member(ps: &Vec<(String, Json)>, key: &str) -> (r: Option<
    Option<Vec<Directive>>,
>)
    ensures
        opt_directives_build(obj_lookup(ps@, key@), r),
{
    match find_member(ps, key) {
        None => Some(None),
        Some(Json::Null) => Some(None),
        Some(Json::Arr(elems)) => match directives_from_json(elems) {
            Some(v) => Some(Some(v)),
            None => None,
        },
        Some(_) => None,
    }
}

} // verus!
