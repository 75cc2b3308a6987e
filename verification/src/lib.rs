//! A typed, navigable model of a GraphQL schema, built from the response of
//! an introspection query.
//!
//! [`schema::Schema::from_str`] checks the response envelope and builds the
//! whole tree of types, fields, inputs, enum values and directives;
//! [`typeref::TypeRef::decorated_name`] turns a nested `LIST` / `NON_NULL`
//! wrapper chain back into GraphQL's compact type syntax, e.g. `[String!]!`;
//! the navigation methods on [`schema::Schema`] look types up by name or
//! kind. Every function is verified against the contracts stated beside it;
//! only the JSON parser itself is relied upon.

pub mod builders;
pub mod json;
pub mod model;
pub mod schema;
pub mod text;
pub mod typeref;
