//! The schema aggregate: construction from a raw introspection response and
//! navigation over the types it declares.

use crate::builders::{
    lemma_opt_directives_build_exclusive, lemma_opt_type_build_exclusive,
    lemma_opt_types_build_exclusive, opt_directives_build, opt_directives_member, opt_type_build,
    opt_type_member, opt_types_build, opt_types_member,
};
use crate::json::{find_member, obj_lookup, parse_json, parsed_json, Json};
use crate::model::{Directive, Type};
use vstd::prelude::*;

verus! {

/// A failure of schema construction, carrying its message.
#[derive(Debug, Eq, PartialEq)]
pub struct SchemaError {
    pub message: String,
}

impl SchemaError {
    /// An error carrying `message`.
    pub fn new(message: &str) -> (r: SchemaError)
        ensures
            r.message@ == message@,
    {
        SchemaError { message: String::from_str(message) }
    }
}

/// The schema aggregate: the root operation types, every declared type, and
/// the declared directives. Each part may be absent from a response.
#[derive(Debug)]
pub struct Schema {
    pub query_type: Option<Type>,
    pub mutation_type: Option<Type>,
    pub subscription_type: Option<Type>,
    pub types: Option<Vec<Type>>,
    pub directives: Option<Vec<Directive>>,
}

/// Reading `j` as the schema aggregate yields exactly `r`.
pub open spec fn schema_build(j: Json, r: Option<Schema>) -> bool {
    match j {
        Json::Obj(ps) => match r {
            Some(s) => opt_type_build(obj_lookup(ps@, "queryType"@), Some(s.query_type))
                && opt_type_build(obj_lookup(ps@, "mutationType"@), Some(s.mutation_type))
                && opt_type_build(obj_lookup(ps@, "subscriptionType"@), Some(s.subscription_type))
                && opt_types_build(obj_lookup(ps@, "types"@), Some(s.types))
                && opt_directives_build(obj_lookup(ps@, "directives"@), Some(s.directives)),
            None => opt_type_build(obj_lookup(ps@, "queryType"@), None) || opt_type_build(
                obj_lookup(ps@, "mutationType"@),
                None,
            ) || opt_type_build(obj_lookup(ps@, "subscriptionType"@), None) || opt_types_build(
                obj_lookup(ps@, "types"@),
                None,
            ) || opt_directives_build(obj_lookup(ps@, "directives"@), None),
        },
        _ => r is None,
    }
}

/// What construction from a raw document text must return: the parser's
/// message when the text is not valid JSON; a missing-data or missing-schema
/// message when the envelope lacks `data` or `data.__schema`; a mismatch
/// message when the `__schema` payload does not fit the data model; else the
/// schema built from that payload.
pub open spec fn spec_from_str(text: Seq<char>, r: Result<Schema, SchemaError>) -> bool {
    match parsed_json(text) {
        Err(m) => r == Err::<Schema, SchemaError>(SchemaError { message: m }),
        Ok(doc) => match doc {
            Json::Obj(ps) => match obj_lookup(ps@, "data"@) {
                None => r matches Err(e) && e.message@ == "data not in response"@,
                Some(data) => match data {
                    Json::Obj(dps) => match obj_lookup(dps@, "__schema"@) {
                        None => r matches Err(e) && e.message@ == "schema not in response"@,
                        Some(sj) => match r {
                            Ok(s) => schema_build(sj, Some(s)),
                            Err(e) => schema_build(sj, None) && e.message@
                                == "schema does not match the expected structure"@,
                        },
                    },
                    _ => r matches Err(e) && e.message@ == "schema not in response"@,
                },
            },
            _ => r matches Err(e) && e.message@ == "response format not an object"@,
        },
    }
}

/// The name of an optional root operation type, when both the type and its
/// name are present.
pub open spec fn spec_type_name(t: Option<Type>) -> Option<String> {
    match t {
        Some(t) => t.name,
        None => None,
    }
}

/// The first type in `ts`, at or after `i`, whose name is present and equals
/// `name`.
pub open spec fn first_named(ts: Seq<Type>, name: Seq<char>, i: nat) -> Option<Type>
    decreases ts.len() - i,
{
    if i >= ts.len() {
        None
    } else if ts[i as int].name is Some && ts[i as int].name->0@ == name {
        Some(ts[i as int])
    } else {
        first_named(ts, name, i + 1)
    }
}

/// The type the schema declares under `name`, scanning in declaration order;
/// a type without a name never matches.
pub open spec fn spec_get_type(s: Schema, name: Seq<char>) -> Option<Type> {
    match s.types {
        Some(ts) => first_named(ts@, name, 0),
        None => None,
    }
}

/// Whether the type's kind is present and equals `kind`.
pub open spec fn kind_matches(t: Type, kind: Seq<char>) -> bool {
    t.kind is Some && t.kind->0@ == kind
}

/// Every type of `ts` at or after `i` whose kind equals `kind`, in order.
pub open spec fn kind_matches_from(ts: Seq<Type>, kind: Seq<char>, i: nat) -> Seq<Type>
    decreases ts.len() - i,
{
    if i >= ts.len() {
        Seq::<Type>::empty()
    } else if kind_matches(ts[i as int], kind) {
        seq![ts[i as int]] + kind_matches_from(ts, kind, i + 1)
    } else {
        kind_matches_from(ts, kind, i + 1)
    }
}

/// Every type the schema declares with kind `kind`, in declaration order; a
/// type without a kind never matches.
pub open spec fn spec_types_of_kind(s: Schema, kind: Seq<char>) -> Seq<Type> {
    match s.types {
        Some(ts) => kind_matches_from(ts@, kind, 0),
        None => Seq::<Type>::empty(),
    }
}

proof fn lemma_first_named_is(ts: Seq<Type>, name: Seq<char>, i: nat, m: nat)
    requires
        i <= m <= ts.len(),
        forall|k: int|
            i <= k < m ==> !(ts[k].name is Some && #[trigger] ts[k].name->0@ == name),
        m < ts.len() ==> ts[m as int].name is Some && ts[m as int].name->0@ == name,
    ensures
        first_named(ts, name, i) == if m < ts.len() {
            Some(ts[m as int])
        } else {
            None
        },
    decreases m - i,
{
    if i < m {
        lemma_first_named_is(ts, name, i + 1, m);
    }
}

impl Schema {
    /// Builds the aggregate out of the `__schema` payload of a response.
    fn schema_from_json(j: &Json) -> (r: Result<Schema, SchemaError>)
        ensures
            match r {
                Ok(s) => schema_build(*j, Some(s)),
                Err(e) => schema_build(*j, None) && e.message@
                    == "schema does not match the expected structure"@,
            },
    {
        let ps = match j {
            Json::Obj(ps) => ps,
            _ => {
                return Err(SchemaError::new("schema does not match the expected structure"));
            },
        };
        let query_type = match opt_type_member(ps, "queryType") {
            Some(query_type) => query_type,
            None => {
                return Err(SchemaError::new("schema does not match the expected structure"));
            },
        };
        let mutation_type = match opt_type_member(ps, "mutationType") {
            Some(mutation_type) => mutation_type,
            None => {
                return Err(SchemaError::new("schema does not match the expected structure"));
            },
        };
        let subscription_type = match opt_type_member(ps, "subscriptionType") {
            Some(subscription_type) => subscription_type,
            None => {
                return Err(SchemaError::new("schema does not match the expected structure"));
            },
        };
        let types = match opt_types_member(ps, "types") {
            Some(types) => types,
            None => {
                return Err(SchemaError::new("schema does not match the expected structure"));
            },
        };
        let directives = match opt_directives_member(ps, "directives") {
            Some(directives) => directives,
            None => {
                return Err(SchemaError::new("schema does not match the expected structure"));
            },
        };
        Ok(Schema { query_type, mutation_type, subscription_type, types, directives })
    }

    /// Builds a schema out of the raw text of an introspection response: the
    /// document must be a JSON object holding `data`, `data` must hold
    /// `__schema`, and the `__schema` payload must fit the data model.
    pub fn from_str(text: &str) -> (r: Result<Schema, SchemaError>)
        ensures
            spec_from_str(text@, r),
    {
        let doc = match parse_json(text) {
            Ok(doc) => doc,
            Err(m) => {
                return Err(SchemaError { message: m });
            },
        };
        let ps = match &doc {
            Json::Obj(ps) => ps,
            _ => {
                return Err(SchemaError::new("response format not an object"));
            },
        };
        let data = match find_member(ps, "data") {
            Some(data) => data,
            None => {
                return Err(SchemaError::new("data not in response"));
            },
        };
        let dps = match data {
            Json::Obj(dps) => dps,
            _ => {
                return Err(SchemaError::new("schema not in response"));
            },
        };
        match find_member(dps, "__schema") {
            Some(sj) => Schema::schema_from_json(sj),
            None => Err(SchemaError::new("schema not in response")),
        }
    }

    /// Building a schema out of an SDL document is not available: this entry
    /// point always fails.
    pub fn from_schema(_file: &str) -> (r: Result<Schema, SchemaError>)
        ensures
            r matches Err(e) && e.message@ == "not yet implemented"@,
    {
        Err(SchemaError::new("not yet implemented"))
    }

    /// The name of the schema's query root type, when present.
    pub fn get_query_name(&self) -> (r: Option<String>)
        ensures
            r == spec_type_name(self.query_type),
    {
        Schema::get_type_name(&self.query_type)
    }

    /// The name of the schema's mutation root type, when present.
    pub fn get_mutation_name(&self) -> (r: Option<String>)
        ensures
            r == spec_type_name(self.mutation_type),
    {
        Schema::get_type_name(&self.mutation_type)
    }

    /// The name of the schema's subscription root type, when present.
    pub fn get_subscription_name(&self) -> (r: Option<String>)
        ensures
            r == spec_type_name(self.subscription_type),
    {
        Schema::get_type_name(&self.subscription_type)
    }

    /// The first declared type whose name equals `name` exactly, if any.
    pub fn get_type<'a>(&'a self, name: &str) -> (r: Option<&'a Type>)
        ensures
            match r {
                Some(t) => spec_get_type(*self, name@) == Some(*t),
                None => spec_get_type(*self, name@) is None,
            },
    {
        let types = match &self.types {
            Some(types) => types,
            None => {
                return None;
            },
        };
        let mut i: usize = 0;
        while i < types.len()
            invariant
                self.types == Some(*types),
                i <= types@.len(),
                forall|k: int|
                    0 <= k < i ==> !(types@[k].name is Some && #[trigger] types@[k].name->0@
                        == name@),
            decreases types@.len() - i,
        {
            match &types[i].name {
                Some(n) => {
                    if crate::text::str_eq(n.as_str(), name) {
                        proof {
                            lemma_first_named_is(types@, name@, 0, i as nat);
                        }
                        return Some(&types[i]);
                    }
                },
                None => {},
            }
            i = i + 1;
        }
        proof {
            lemma_first_named_is(types@, name@, 0, types@.len());
        }
        None
    }

    /// Every declared type whose kind equals `kind` exactly, in declaration
    /// order, as a read-only view.
    pub fn get_types_of_kind<'a>(&'a self, kind: &str) -> (r: Vec<&'a Type>)
        ensures
            r@.len() == spec_types_of_kind(*self, kind@).len(),
            forall|i: int|
                0 <= i < r@.len() ==> *(#[trigger] r@[i]) == spec_types_of_kind(*self, kind@)[i],
    {
        let mut vec: Vec<&Type> = Vec::new();
        let types = match &self.types {
            Some(types) => types,
            None => {
                return vec;
            },
        };
        let ghost mut acc: Seq<Type> = Seq::<Type>::empty();
        let mut i: usize = 0;
        while i < types.len()
            invariant
                i <= types@.len(),
                acc.len() == vec@.len(),
                forall|k: int| 0 <= k < vec@.len() ==> *(#[trigger] vec@[k]) == acc[k],
                acc + kind_matches_from(types@, kind@, i as nat) == kind_matches_from(
                    types@,
                    kind@,
                    0,
                ),
            decreases types@.len() - i,
        {
            let matched = match &types[i].kind {
                Some(k) => crate::text::str_eq(k.as_str(), kind),
                None => false,
            };
            if matched {
                vec.push(&types[i]);
                proof {
                    assert(acc.push(types@[i as int]) + kind_matches_from(
                        types@,
                        kind@,
                        (i + 1) as nat,
                    ) =~= acc + (seq![types@[i as int]] + kind_matches_from(
                        types@,
                        kind@,
                        (i + 1) as nat,
                    )));
                    acc = acc.push(types@[i as int]);
                }
            }
            i = i + 1;
        }
        vec
    }

    fn get_type_name(typ: &Option<Type>) -> (r: Option<String>)
        ensures
            r == spec_type_name(*typ),
    {
        match typ {
            Some(t) => match &t.name {
                Some(n) => Some(n.clone()),
                None => None,
            },
            None => None,
        }
    }
}

proof fn lemma_schema_build_exclusive(j: Json, s: Schema)
    requires
        schema_build(j, Some(s)),
    ensures
        !schema_build(j, None),
{
    match j {
        Json::Obj(ps) => {
            lemma_opt_type_build_exclusive(obj_lookup(ps@, "queryType"@), s.query_type);
            lemma_opt_type_build_exclusive(obj_lookup(ps@, "mutationType"@), s.mutation_type);
            lemma_opt_type_build_exclusive(
                obj_lookup(ps@, "subscriptionType"@),
                s.subscription_type,
            );
            lemma_opt_types_build_exclusive(obj_lookup(ps@, "types"@), s.types);
            lemma_opt_directives_build_exclusive(obj_lookup(ps@, "directives"@), s.directives);
        },
        _ => {},
    }
}

/// Whether construction succeeds is decided by the document text alone: the
/// contract of `from_str` cannot be met both by a success and by a failure on
/// one and the same text. In particular, a payload that fits the data model
/// never comes back as an error.
pub proof fn lemma_from_str_success_unambiguous(
    text: Seq<char>,
    r1: Result<Schema, SchemaError>,
    r2: Result<Schema, SchemaError>,
)
    requires
        spec_from_str(text, r1),
        spec_from_str(text, r2),
    ensures
        r1 is Ok <==> r2 is Ok,
{
    match parsed_json(text) {
        Err(m) => {},
        Ok(doc) => match doc {
            Json::Obj(ps) => match obj_lookup(ps@, "data"@) {
                Some(data) => match data {
                    Json::Obj(dps) => match obj_lookup(dps@, "__schema"@) {
                        Some(sj) => match (r1, r2) {
                            (Ok(s1), Err(_)) => lemma_schema_build_exclusive(sj, s1),
                            (Err(_), Ok(s2)) => lemma_schema_build_exclusive(sj, s2),
                            _ => {},
                        },
                        None => {},
                    },
                    _ => {},
                },
                None => {},
            },
            _ => {},
        },
    }
}

/// Navigation is repeatable: it neither changes the schema nor reads anything
/// beside it, so on one and the same schema, asking twice with the same
/// argument gives identical results, for every navigation method.
pub proof fn lemma_navigation_repeatable(s1: Schema, s2: Schema, name: Seq<char>, kind: Seq<char>)
    requires
        s1 == s2,
    ensures
        spec_type_name(s1.query_type) == spec_type_name(s2.query_type),
        spec_type_name(s1.mutation_type) == spec_type_name(s2.mutation_type),
        spec_type_name(s1.subscription_type) == spec_type_name(s2.subscription_type),
        spec_get_type(s1, name) == spec_get_type(s2, name),
        spec_types_of_kind(s1, kind) == spec_types_of_kind(s2, kind),
{
}

} // verus!
