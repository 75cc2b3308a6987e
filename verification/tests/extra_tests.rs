use gql_schema::model::{Enum, Field, Input, TableItem};
use gql_schema::schema::{Schema, SchemaError};
use gql_schema::typeref::TypeRef;

fn leaf(name: &str, kind: Option<&str>) -> TypeRef {
    TypeRef { name: Some(name.to_string()), kind: kind.map(|k| k.to_string()), of_type: None }
}

fn wrapper(kind: &str, inner: TypeRef) -> TypeRef {
    TypeRef { name: None, kind: Some(kind.to_string()), of_type: Some(Box::new(inner)) }
}

#[test]
fn decorated_name_nested_list_of_list() {
    let tr = wrapper("LIST", wrapper("LIST", leaf("Int", Some("NON_NULL"))));
    assert_eq!("[[Int!]]", tr.decorated_name());
}

#[test]
fn decorated_name_truncates_past_seven_levels() {
    let mut tr = leaf("X", Some("SCALAR"));
    for _ in 0..7 {
        tr = wrapper("LIST", tr);
    }
    assert_eq!("[[[[[[[]]]]]]]", tr.decorated_name());
}

#[test]
fn schema_error_new_keeps_message() {
    let err = SchemaError::new("boom");
    assert_eq!("boom", err.message);
}

#[test]
fn from_schema_is_not_implemented() {
    match Schema::from_schema("whatever.graphql") {
        Ok(_) => assert!(false, "SDL input should not be available"),
        Err(err) => assert_eq!("not yet implemented", err.message),
    }
}

#[test]
fn from_str_fails_when_response_is_an_array() {
    match Schema::from_str("[1, 2]") {
        Ok(_) => assert!(false, "an array is not a response object"),
        Err(err) => assert_eq!("response format not an object", err.message),
    }
}

#[test]
fn from_str_fails_when_data_is_not_an_object() {
    match Schema::from_str(r#"{"data": 5}"#) {
        Ok(_) => assert!(false, "data must hold __schema"),
        Err(err) => assert_eq!("schema not in response", err.message),
    }
}

#[test]
fn from_str_fails_when_schema_payload_has_wrong_shape() {
    let response = r#"{"data": {"__schema": {"types": 5}}}"#;
    match Schema::from_str(response) {
        Ok(_) => assert!(false, "a number is not a type list"),
        Err(err) => assert_eq!("schema does not match the expected structure", err.message),
    }
}

#[test]
fn from_str_fails_when_schema_payload_is_not_an_object() {
    let response = r#"{"data": {"__schema": "yes"}}"#;
    match Schema::from_str(response) {
        Ok(_) => assert!(false, "a string is not a schema"),
        Err(err) => assert_eq!("schema does not match the expected structure", err.message),
    }
}

#[test]
fn from_str_treats_null_members_as_absent() {
    let response = r#"{
        "data": {
            "__schema": {
                "queryType": null,
                "types": null,
                "directives": null
            }
        }
    }"#;
    let schema = Schema::from_str(response).unwrap();
    assert!(schema.query_type.is_none());
    assert!(schema.types.is_none());
    assert!(schema.directives.is_none());
}

#[test]
fn from_str_builds_the_whole_tree() {
    let response = r#"{
        "data": {
            "__schema": {
                "queryType": {"name": "Query"},
                "types": [
                    {
                        "name": "Query",
                        "kind": "OBJECT",
                        "description": " the root \n type ",
                        "fields": [
                            {
                                "name": "user",
                                "description": "look one up",
                                "args": [
                                    {
                                        "name": "id",
                                        "type": {"kind": "NON_NULL", "ofType": {"kind": "SCALAR", "name": "ID"}},
                                        "defaultValue": "1"
                                    }
                                ],
                                "type": {"kind": "OBJECT", "name": "User"},
                                "isDeprecated": false
                            }
                        ],
                        "interfaces": [
                            {"kind": "INTERFACE", "name": "Node"}
                        ]
                    },
                    {
                        "name": "Role",
                        "kind": "ENUM",
                        "enumValues": [
                            {"name": "ADMIN", "isDeprecated": true, "deprecationReason": "too broad"}
                        ]
                    }
                ],
                "directives": [
                    {
                        "name": "skip",
                        "locations": ["FIELD"],
                        "args": [{"name": "if"}]
                    }
                ]
            }
        }
    }"#;
    let schema = Schema::from_str(response).unwrap();
    assert_eq!("Query", schema.get_query_name().unwrap());

    let query = schema.get_type("Query").unwrap();
    let fields = query.fields.as_ref().unwrap();
    assert_eq!(1, fields.len());
    let user = &fields[0];
    assert_eq!("User", user.field_type.as_ref().unwrap().decorated_name());
    let args = user.args.as_ref().unwrap();
    assert_eq!(1, args.len());
    assert_eq!("ID!", args[0].input_type.as_ref().unwrap().decorated_name());
    assert_eq!("1", args[0].default_value.as_ref().unwrap());
    let interfaces = query.interfaces.as_ref().unwrap();
    assert_eq!("Node", interfaces[0].decorated_name());

    let role = schema.get_type("Role").unwrap();
    let values = role.enums.as_ref().unwrap();
    assert_eq!("ADMIN", values[0].name.as_ref().unwrap());

    let directives = schema.directives.as_ref().unwrap();
    assert_eq!(1, directives.len());
    assert_eq!("skip", directives[0].name.as_ref().unwrap());
    assert_eq!(vec!["FIELD".to_string()], directives[0].locations.clone().unwrap());
}

#[test]
fn get_type_returns_first_of_equal_names() {
    let response = r#"{
        "data": {
            "__schema": {
                "types": [
                    {"name": "T", "kind": "FIRST"},
                    {"name": "T", "kind": "SECOND"}
                ]
            }
        }
    }"#;
    let schema = Schema::from_str(response).unwrap();
    let t = schema.get_type("T").unwrap();
    assert_eq!("FIRST", t.kind.as_ref().unwrap());
}

#[test]
fn navigation_twice_gives_identical_results() {
    let response = r#"{
        "data": {
            "__schema": {
                "queryType": {"name": "Query"},
                "mutationType": {},
                "types": [
                    {"name": "A", "kind": "OBJECT"},
                    {"name": "B", "kind": "SCALAR"},
                    {"kind": "OBJECT"}
                ]
            }
        }
    }"#;
    let schema = Schema::from_str(response).unwrap();
    assert_eq!(schema.get_query_name(), schema.get_query_name());
    assert_eq!(schema.get_mutation_name(), schema.get_mutation_name());
    assert_eq!(schema.get_subscription_name(), schema.get_subscription_name());
    assert_eq!(schema.get_type("A"), schema.get_type("A"));
    assert_eq!(schema.get_type("missing"), schema.get_type("missing"));
    assert_eq!(schema.get_types_of_kind("OBJECT"), schema.get_types_of_kind("OBJECT"));
}

#[test]
fn field_row_holds_name_type_and_description() {
    let field = Field {
        name: Some("  user \n one ".to_string()),
        description: Some("\nfinds\nthem\n".to_string()),
        args: None,
        field_type: Some(wrapper("NON_NULL", leaf("User", Some("OBJECT")))),
        is_deprecated: None,
        deprecation_reason: None,
    };
    assert_eq!(
        vec!["user  one".to_string(), "User!".to_string(), "findsthem".to_string()],
        field.table_fields()
    );
}

#[test]
fn field_row_type_cell_is_empty_without_a_type() {
    let field = Field {
        name: Some("user".to_string()),
        description: None,
        args: None,
        field_type: None,
        is_deprecated: None,
        deprecation_reason: None,
    };
    assert_eq!(vec!["user".to_string(), "".to_string(), "".to_string()], field.table_fields());
}

#[test]
fn input_row_holds_default_value() {
    let input = Input {
        name: Some("limit".to_string()),
        description: Some(" how many ".to_string()),
        input_type: Some(leaf("Int", Some("SCALAR"))),
        default_value: Some("10".to_string()),
    };
    assert_eq!(
        vec!["limit".to_string(), "Int".to_string(), "how many".to_string(), "10".to_string()],
        input.table_fields()
    );
}

#[test]
fn enum_row_shows_reason_only_when_deprecated() {
    let deprecated = Enum {
        name: Some("ADMIN".to_string()),
        description: None,
        is_deprecated: Some(true),
        deprecation_reason: Some(" too \n broad ".to_string()),
    };
    assert_eq!(
        vec!["ADMIN".to_string(), "".to_string(), "too  broad".to_string()],
        deprecated.table_fields()
    );

    let kept = Enum {
        name: Some("USER".to_string()),
        description: None,
        is_deprecated: None,
        deprecation_reason: Some("ignored".to_string()),
    };
    assert_eq!(vec!["USER".to_string(), "".to_string(), "no".to_string()], kept.table_fields());

    let flagged_false = Enum {
        name: Some("GUEST".to_string()),
        description: None,
        is_deprecated: Some(false),
        deprecation_reason: Some("ignored".to_string()),
    };
    assert_eq!(
        vec!["GUEST".to_string(), "".to_string(), "no".to_string()],
        flagged_false.table_fields()
    );
}
