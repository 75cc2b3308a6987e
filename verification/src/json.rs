//! A plain model of a parsed JSON document, and the one place where the
//! outside JSON parser is called.
//!
//! The schema model is built from values of this tree; numbers carry no
//! payload because nothing in the schema model reads one.

use crate::text::str_eq;
use vstd::prelude::*;

verus! {

/// A parsed JSON value, held as plain data.
///
/// Object members keep the order in which the parser handed them out, and an
/// object never holds the same key twice (the parser keeps the last binding).
pub enum Json {
    Null,
    Bool(bool),
    Number,
    Str(String),
    Arr(Vec<Json>),
    Obj(Vec<(String, Json)>),
}

/// The first index at or after `i` at which `pairs` binds `key`, or the
/// length if none does.
pub open spec fn member_index(pairs: Seq<(String, Json)>, key: Seq<char>, i: nat) -> nat
    decreases pairs.len() - i,
{
    if i >= pairs.len() {
        pairs.len()
    } else if pairs[i as int].0@ == key {
        i
    } else {
        member_index(pairs, key, i + 1)
    }
}

/// The value bound to `key` in `pairs`, if any.
pub open spec fn obj_lookup(pairs: Seq<(String, Json)>, key: Seq<char>) -> Option<Json> {
    if member_index(pairs, key, 0) < pairs.len() {
        Some(pairs[member_index(pairs, key, 0) as int].1)
    } else {
        None
    }
}

proof fn lemma_member_index_is(pairs: Seq<(String, Json)>, key: Seq<char>, i: nat, m: nat)
    requires
        i <= m <= pairs.len(),
        forall|k: int| i <= k < m ==> pairs[k].0@ != key,
        m < pairs.len() ==> pairs[m as int].0@ == key,
    ensures
        member_index(pairs, key, i) == m,
    decreases m - i,
{
    if i < m {
        lemma_member_index_is(pairs, key, i + 1, m);
    }
}

/// The member of `pairs` bound to `key`, scanning in order, if any.
pub fn find_member<'a>(pairs: &'a Vec<(String, Json)>, key: &str) -> (r: Option<&'a Json>)
    ensures
        match r {
            Some(v) => obj_lookup(pairs@, key@) == Some(*v),
            None => obj_lookup(pairs@, key@) is None,
        },
{
    let mut i: usize = 0;
    while i < pairs.len()
        invariant
            i <= pairs@.len(),
            forall|k: int| 0 <= k < i ==> pairs@[k].0@ != key@,
        decreases pairs@.len() - i,
    {
        if str_eq(pairs[i].0.as_str(), key) {
            proof {
                lemma_member_index_is(pairs@, key@, 0, i as nat);
            }
            return Some(&pairs[i].1);
        }
        i = i + 1;
    }
    proof {
        lemma_member_index_is(pairs@, key@, 0, pairs@.len());
    }
    None
}

#[verifier::external_type_specification]
#[verifier::external_body]
pub struct ExValue(serde_json::Value);

/// Relies on the shape of serde_json::Value: each variant is carried over to
/// the plain tree one for one, a number losing its payload on the way.
#[verifier::external_body]
fn value_to_json(v: serde_json::Value) -> Json {
    match v {
        serde_json::Value::Null => Json::Null,
        serde_json::Value::Bool(b) => Json::Bool(b),
        serde_json::Value::Number(_) => Json::Number,
        serde_json::Value::String(s) => Json::Str(s),
        serde_json::Value::Array(a) => Json::Arr(a.into_iter().map(value_to_json).collect()),
        serde_json::Value::Object(m) => Json::Obj(
            m.into_iter().map(|(k, x)| (k, value_to_json(x))).collect(),
        ),
    }
}

/// What the JSON parser makes of a document: the value tree when the text is
/// valid JSON (numbers abstracted away), else the parser's error message.
/// Both depend on the text alone.
pub uninterp spec fn parsed_json(s: Seq<char>) -> Result<Json, String>;

/// Relies on serde_json::from_str: parses the document text into a JSON value
/// tree; what comes back, tree or error message, is a function of the text
/// alone.
#[verifier::external_body]
pub(crate) fn parse_json(text: &str) -> (r: Result<Json, String>)
    ensures
        r == parsed_json(text@),
{
    match serde_json::from_str::<serde_json::Value>(text) {
        Ok(v) => Ok(value_to_json(v)),
        Err(e) => Err(e.to_string()),
    }
}

} // verus!
