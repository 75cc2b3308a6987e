//! Type references: a possibly nested chain of `LIST` / `NON_NULL` wrappers
//! around a named type, and the decoration that turns the chain back into
//! GraphQL's compact bracket-and-bang syntax, e.g. `[String!]!`.

use crate::text::str_eq;
use vstd::prelude::*;

verus! {

/// How many wrapper levels the decoration walks before it gives up: the
/// nesting depth of `ofType` in the introspection query. A deeper chain is
/// silently truncated to the empty string at this level.
pub const TYPE_LEVELS: u32 = 7;

/// A link in a wrapper chain: either a leaf with a name and a concrete kind,
/// or a `LIST` / `NON_NULL` wrapper whose `of_type` carries the next link.
#[derive(Debug, Eq, Ord, PartialEq, PartialOrd)]
pub struct TypeRef {
    pub name: Option<String>,
    pub kind: Option<String>,
    pub of_type: Option<Box<TypeRef>>,
}

/// Whether the node is a `NON_NULL` wrapper.
pub open spec fn spec_is_required(t: TypeRef) -> bool {
    t.kind is Some && t.kind->0@ == "NON_NULL"@
}

/// Whether the node is a `LIST` wrapper.
pub open spec fn spec_is_list(t: TypeRef) -> bool {
    t.kind is Some && t.kind->0@ == "LIST"@
}

/// The decorated name of `t`, walking at most `level` links: the base name
/// (the node's own name, or the decorated name of the wrapped link), then `!`
/// appended for `NON_NULL`, then `[` and `]` put around it for `LIST`.
pub open spec fn spec_decorated(t: TypeRef, level: nat) -> Seq<char>
    decreases level,
{
    if level == 0 {
        Seq::<char>::empty()
    } else {
        let base = if t.name is Some {
            t.name->0@
        } else if t.of_type is Some {
            spec_decorated(*t.of_type->0, (level - 1) as nat)
        } else {
            Seq::<char>::empty()
        };
        let required = if spec_is_required(t) {
            base + "!"@
        } else {
            base
        };
        if spec_is_list(t) {
            "["@ + required + "]"@
        } else {
            required
        }
    }
}

impl TypeRef {
    /// Whether this node marks its contents as non-nullable.
    pub fn is_required(&self) -> (r: bool)
        ensures
            r == spec_is_required(*self),
    {
        match &self.kind {
            Some(k) => str_eq(k.as_str(), "NON_NULL"),
            None => false,
        }
    }

    /// Whether this node marks its contents as a list.
    pub fn is_list(&self) -> (r: bool)
        ensures
            r == spec_is_list(*self),
    {
        match &self.kind {
            Some(k) => str_eq(k.as_str(), "LIST"),
            None => false,
        }
    }

    /// The canonical textual rendering of the whole wrapper chain.
    pub fn decorated_name(&self) -> (r: String)
        ensures
            r@ == spec_decorated(*self, TYPE_LEVELS as nat),
    {
        self.recurse_decorated_name(TYPE_LEVELS)
    }

    fn recurse_decorated_name(&self, level: u32) -> (r: String)
        ensures
            r@ == spec_decorated(*self, level as nat),
        decreases level,
    {
        if level == 0 {
            return String::new();
        }
        let mut s = match &self.name {
            Some(name) => name.clone(),
            None => match &self.of_type {
                Some(typ) => typ.recurse_decorated_name(level - 1),
                None => String::new(),
            },
        };
        if self.is_required() {
            s.append("!");
        }
        if self.is_list() {
            let mut out = String::from_str("[");
            out.append(s.as_str());
            out.append("]");
            proof {
                assert(out@ =~= spec_decorated(*self, level as nat));
            }
            out
        } else {
            proof {
                assert(s@ =~= spec_decorated(*self, level as nat));
            }
            s
        }
    }
}

/// The two wrapper kinds are distinct words.
proof fn lemma_wrapper_kinds_distinct()
    ensures
        "NON_NULL"@ != "LIST"@,
{
    reveal_strlit("NON_NULL");
    reveal_strlit("LIST");
    assert("NON_NULL"@.len() != "LIST"@.len());
}

/// A leaf that carries only a name, under no wrapper marking, decorates to
/// that name unchanged.
pub proof fn lemma_decorated_plain_leaf(t: TypeRef)
    requires
        t.name is Some,
        !spec_is_required(t),
        !spec_is_list(t),
    ensures
        spec_decorated(t, TYPE_LEVELS as nat) == t.name->0@,
{
}

/// A named leaf marked `NON_NULL` decorates to its name followed by `!`.
pub proof fn lemma_decorated_required_leaf(t: TypeRef)
    requires
        t.name is Some,
        spec_is_required(t),
    ensures
        spec_decorated(t, TYPE_LEVELS as nat) == t.name->0@ + "!"@,
{
    lemma_wrapper_kinds_distinct();
}

/// A named leaf marked `LIST` decorates to its name between brackets.
pub proof fn lemma_decorated_list_leaf(t: TypeRef)
    requires
        t.name is Some,
        spec_is_list(t),
    ensures
        spec_decorated(t, TYPE_LEVELS as nat) == "["@ + t.name->0@ + "]"@,
{
    lemma_wrapper_kinds_distinct();
}

/// A wholly empty node, with no name, no kind and nothing wrapped, decorates
/// to the empty string.
pub proof fn lemma_decorated_empty(t: TypeRef)
    requires
        t.name is None,
        t.kind is None,
        t.of_type is None,
    ensures
        spec_decorated(t, TYPE_LEVELS as nat) == Seq::<char>::empty(),
{
}

/// A nameless `LIST` wrapper around a `NON_NULL` named leaf decorates to
/// `[name!]`: the inner `!` stays inside the brackets.
pub proof fn lemma_decorated_list_of_required(outer: TypeRef, leaf: TypeRef)
    requires
        outer.name is None,
        spec_is_list(outer),
        outer.of_type is Some,
        *outer.of_type->0 == leaf,
        leaf.name is Some,
        spec_is_required(leaf),
    ensures
        spec_decorated(outer, TYPE_LEVELS as nat) == "["@ + leaf.name->0@ + "!"@ + "]"@,
{
    lemma_wrapper_kinds_distinct();
    assert(spec_decorated(leaf, (TYPE_LEVELS - 1) as nat) == leaf.name->0@ + "!"@);
}

/// A nameless `NON_NULL` wrapper around a `LIST` named leaf decorates to
/// `[name]!`: the outer `!` stands after the closing bracket.
pub proof fn lemma_decorated_required_list(outer: TypeRef, leaf: TypeRef)
    requires
        outer.name is None,
        spec_is_required(outer),
        outer.of_type is Some,
        *outer.of_type->0 == leaf,
        leaf.name is Some,
        spec_is_list(leaf),
    ensures
        spec_decorated(outer, TYPE_LEVELS as nat) == "["@ + leaf.name->0@ + "]"@ + "!"@,
{
    lemma_wrapper_kinds_distinct();
    assert(spec_decorated(leaf, (TYPE_LEVELS - 1) as nat) == "["@ + leaf.name->0@ + "]"@);
}

/// `NON_NULL` around `LIST` around a `NON_NULL` named leaf decorates to
/// `[name!]!`.
pub proof fn lemma_decorated_required_list_of_required(outer: TypeRef, mid: TypeRef, leaf: TypeRef)
    requires
        outer.name is None,
        spec_is_required(outer),
        outer.of_type is Some,
        *outer.of_type->0 == mid,
        mid.name is None,
        spec_is_list(mid),
        mid.of_type is Some,
        *mid.of_type->0 == leaf,
        leaf.name is Some,
        spec_is_required(leaf),
    ensures
        spec_decorated(outer, TYPE_LEVELS as nat) == "["@ + leaf.name->0@ + "!"@ + "]"@ + "!"@,
{
    lemma_wrapper_kinds_distinct();
    assert(spec_decorated(leaf, (TYPE_LEVELS - 2) as nat) == leaf.name->0@ + "!"@);
    assert(spec_decorated(mid, (TYPE_LEVELS - 1) as nat) == "["@ + (leaf.name->0@ + "!"@) + "]"@);
}

} // verus!
