use gql_schema::schema::Schema;
use gql_schema::typeref::TypeRef;

#[test]
fn test_should_pass_when_empty_schema() {
    let response = r#"{
            "data": {
                "__schema": {
                }
            }
        }"#;
    match Schema::from_str(&response) {
        Err(_) => assert!(false, "schema should parse"),
        Ok(_) => assert!(true),
    }
}

#[test]
fn test_should_fail_when_not_json() {
    let response = "test";
    match Schema::from_str(response) {
        Ok(_) => assert!(false, "plain text should fail"),
        Err(err) => assert_eq!("expected ident at line 1 column 2", err.message),
    }
}

#[test]
fn test_should_fail_when_no_data() {
    let response = r#"{
        }"#;
    match Schema::from_str(&response) {
        Ok(_) => assert!(false, "schema should have data"),
        Err(err) => assert_eq!("data not in response", err.message),
    }
}

#[test]
fn test_should_fail_when_no_schema() {
    let response = r#"{
            "data": {
            }
        }"#;
    match Schema::from_str(&response) {
        Ok(_) => assert!(false, "schema should have __schema"),
        Err(err) => assert_eq!("schema not in response", err.message),
    }
}

#[test]
fn test_should_have_no_query_type_when_none() {
    let response = r#"{
            "data": {
                "__schema": {
                }
            }
        }"#;
    let schema = Schema::from_str(&response).unwrap();
    assert!(schema.query_type.is_none());
}

#[test]
fn test_should_have_query_type_when_some() {
    let response = r#"{
            "data": {
                "__schema": {
                    "queryType": {
                    }
                }
            }
        }"#;
    let schema = Schema::from_str(&response).unwrap();
    assert!(schema.query_type.is_some());
}

#[test]
fn test_should_have_query_type_name_when_present() {
    let response = r#"{
            "data": {
                "__schema": {
                    "queryType": {
                        "name": "Query"
                    }
                }
            }
        }"#;
    let schema = Schema::from_str(&response).unwrap();
    assert_eq!("Query", schema.query_type.unwrap().name.unwrap());
}

#[test]
fn test_should_return_some_query_name_when_present() {
    let response = r#"{
            "data": {
                "__schema": {
                    "queryType": {
                        "name": "Query"
                    }
                }
            }
        }"#;
    let schema = Schema::from_str(&response).unwrap();
    assert!(schema.get_query_name().is_some());
    assert_eq!("Query", schema.get_query_name().unwrap());
}

#[test]
fn test_should_return_none_query_name_when_absent() {
    let response = r#"{
            "data": {
                "__schema": {
                }
            }
        }"#;
    let schema = Schema::from_str(&response).unwrap();
    assert!(schema.get_query_name().is_none());
}

#[test]
fn test_should_return_none_query_name_when_name_absent() {
    let response = r#"{
            "data": {
                "__schema": {
                    "queryType": {
                    }
                }
            }
        }"#;
    let schema = Schema::from_str(&response).unwrap();
    assert!(schema.get_query_name().is_none());
}

#[test]
fn test_should_have_no_mutation_type_when_none() {
    let response = r#"{
            "data": {
                "__schema": {
                }
            }
        }"#;
    let schema = Schema::from_str(&response).unwrap();
    assert!(schema.mutation_type.is_none());
}

#[test]
fn test_should_have_mutation_type_when_some() {
    let response = r#"{
            "data": {
                "__schema": {
                    "mutationType": {
                    }
                }
            }
        }"#;
    let schema = Schema::from_str(&response).unwrap();
    assert!(schema.mutation_type.is_some());
}

#[test]
fn test_should_have_mutation_type_name_when_present() {
    let response = r#"{
            "data": {
                "__schema": {
                    "mutationType": {
                        "name": "mutation"
                    }
                }
            }
        }"#;
    let schema = Schema::from_str(&response).unwrap();
    assert_eq!("mutation", schema.mutation_type.unwrap().name.unwrap());
}

#[test]
fn test_should_return_some_mutation_name_when_present() {
    let response = r#"{
            "data": {
                "__schema": {
                    "mutationType": {
                        "name": "mutation"
                    }
                }
            }
        }"#;
    let schema = Schema::from_str(&response).unwrap();
    assert!(schema.get_mutation_name().is_some());
    assert_eq!("mutation", schema.get_mutation_name().unwrap());
}

#[test]
fn test_should_return_none_mutation_name_when_absent() {
    let response = r#"{
            "data": {
                "__schema": {
                }
            }
        }"#;
    let schema = Schema::from_str(&response).unwrap();
    assert!(schema.get_mutation_name().is_none());
}

#[test]
fn test_should_return_none_mutation_name_when_name_absent() {
    let response = r#"{
            "data": {
                "__schema": {
                    "mutationType": {
                    }
                }
            }
        }"#;
    let schema = Schema::from_str(&response).unwrap();
    assert!(schema.get_mutation_name().is_none());
}

#[test]
fn test_should_have_no_subscription_type_when_none() {
    let response = r#"{
            "data": {
                "__schema": {
                }
            }
        }"#;
    let schema = Schema::from_str(&response).unwrap();
    assert!(schema.subscription_type.is_none());
}

#[test]
fn test_should_have_subscription_type_when_some() {
    let response = r#"{
            "data": {
                "__schema": {
                    "subscriptionType": {
                    }
                }
            }
        }"#;
    let schema = Schema::from_str(&response).unwrap();
    assert!(schema.subscription_type.is_some());
}

#[test]
fn test_should_have_subscription_type_name_when_present() {
    let response = r#"{
            "data": {
                "__schema": {
                    "subscriptionType": {
                        "name": "subscription"
                    }
                }
            }
        }"#;
    let schema = Schema::from_str(&response).unwrap();
    assert_eq!("subscription", schema.subscription_type.unwrap().name.unwrap());
}

#[test]
fn test_should_return_some_subscription_name_when_present() {
    let response = r#"{
            "data": {
                "__schema": {
                    "subscriptionType": {
                        "name": "subscription"
                    }
                }
            }
        }"#;
    let schema = Schema::from_str(&response).unwrap();
    assert!(schema.get_subscription_name().is_some());
    assert_eq!("subscription", schema.get_subscription_name().unwrap());
}

#[test]
fn test_should_return_none_subscription_name_when_absent() {
    let response = r#"{
            "data": {
                "__schema": {
                }
            }
        }"#;
    let schema = Schema::from_str(&response).unwrap();
    assert!(schema.get_subscription_name().is_none());
}

#[test]
fn test_should_return_none_subscription_name_when_name_absent() {
    let response = r#"{
            "data": {
                "__schema": {
                    "subscriptionType": {
                    }
                }
            }
        }"#;
    let schema = Schema::from_str(&response).unwrap();
    assert!(schema.get_subscription_name().is_none());
}

#[test]
fn test_should_return_none_when_no_types() {
    let response = r#"{
        "data": {
            "__schema": {
            }
        }
    }"#;
    let schema = Schema::from_str(&response).unwrap();
    assert!(schema.get_type("hello").is_none());
}

#[test]
fn test_should_return_none_when_type_has_no_name() {
    let response = r#"{
        "data": {
            "__schema": {
                "types": [
                    {
                        "kind": "SCALAR"
                    }
                ]
            }
        }
    }"#;
    let schema = Schema::from_str(&response).unwrap();
    assert!(schema.get_type("hello").is_none());
}

#[test]
fn test_should_return_none_when_no_type_of_name() {
    let response = r#"{
        "data": {
            "__schema": {
                "types": [
                    {
                        "name": "you're not my"
                    }
                ]
            }
        }
    }"#;
    let schema = Schema::from_str(&response).unwrap();
    assert!(schema.get_type("hello").is_none());
}

#[test]
fn test_should_return_some_when_type_of_name() {
    let response = r#"{
        "data": {
            "__schema": {
                "types": [
                    {
                        "name": "you're not my"
                    }
                ]
            }
        }
    }"#;
    let schema = Schema::from_str(&response).unwrap();
    assert!(schema.get_type("you're not my").is_some());
}

#[test]
fn test_typeref_is_required_should_return_false_when_kind_is_none() {
    let tr = TypeRef { name: None, kind: None, of_type: None };
    assert!(!tr.is_required());
}

#[test]
fn test_typeref_is_required_should_return_false_when_kind_is_not_non_null() {
    let tr = TypeRef { name: None, kind: Some("foo".to_string()), of_type: None };
    assert!(!tr.is_required());
}

#[test]
fn test_typeref_is_required_should_return_true_when_kind_is_non_null() {
    let tr = TypeRef { name: None, kind: Some("NON_NULL".to_string()), of_type: None };
    assert!(tr.is_required());
}

#[test]
fn test_typeref_is_list_should_return_false_when_kind_is_none() {
    let tr = TypeRef { name: None, kind: None, of_type: None };
    assert!(!tr.is_list());
}

#[test]
fn test_typeref_is_list_should_return_false_when_kind_is_not_non_null() {
    let tr = TypeRef { name: None, kind: Some("foo".to_string()), of_type: None };
    assert!(!tr.is_list());
}

#[test]
fn test_typeref_is_list_should_return_true_when_kind_is_non_null() {
    let tr = TypeRef { name: None, kind: Some("LIST".to_string()), of_type: None };
    assert!(tr.is_list());
}

#[test]
fn test_typeref_decorated_name_should_return_empty_when_none() {
    let tr = TypeRef { name: None, kind: None, of_type: None };
    assert_eq!("", tr.decorated_name());
}

#[test]
fn test_typeref_decorated_name_should_return_name_when_not_required() {
    let tr = TypeRef { name: Some("myName".to_string()), kind: None, of_type: None };
    assert_eq!("myName", tr.decorated_name());
}

#[test]
fn test_typeref_decorated_name_should_return_name_with_exclamation_when_required() {
    let tr = TypeRef {
        name: Some("myName".to_string()),
        kind: Some("NON_NULL".to_string()),
        of_type: None,
    };
    assert_eq!("myName!", tr.decorated_name());
}

#[test]
fn test_typeref_decorated_name_should_return_name_with_brackets_when_list() {
    let tr = TypeRef {
        name: Some("myName".to_string()),
        kind: Some("LIST".to_string()),
        of_type: None,
    };
    assert_eq!("[myName]", tr.decorated_name());
}

#[test]
fn test_typeref_decorated_name_should_return_name_with_brackets_and_exclamation_when_list_and_required(
) {
    let tr = TypeRef {
        name: None,
        kind: Some("LIST".to_string()),
        of_type: Some(Box::new(TypeRef {
            kind: Some("NON_NULL".to_string()),
            name: Some("myName".to_string()),
            of_type: None,
        })),
    };
    assert_eq!("[myName!]", tr.decorated_name());
}

#[test]
fn test_typeref_decorated_name_should_return_name_with_brackets_and_exclamation_outside_when_list_and_required(
) {
    let tr = TypeRef {
        name: None,
        kind: Some("NON_NULL".to_string()),
        of_type: Some(Box::new(TypeRef {
            kind: Some("LIST".to_string()),
            name: Some("myName".to_string()),
            of_type: None,
        })),
    };
    assert_eq!("[myName]!", tr.decorated_name());
}

#[test]
fn test_typeref_decorated_name_should_return_name_with_brackets_and_two_exclamation_when_list_and_required(
) {
    let tr = TypeRef {
        name: None,
        kind: Some("NON_NULL".to_string()),
        of_type: Some(Box::new(TypeRef {
            kind: Some("LIST".to_string()),
            name: None,
            of_type: Some(Box::new(TypeRef {
                kind: Some("NON_NULL".to_string()),
                name: Some("myName".to_string()),
                of_type: None,
            })),
        })),
    };
    assert_eq!("[myName!]!", tr.decorated_name());
}

#[test]
fn test_typeref_decorated_name_should_return_name_with_brackets_when_not_scalar() {
    let tr = TypeRef {
        name: None,
        kind: Some("LIST".to_string()),
        of_type: Some(Box::new(TypeRef {
            kind: Some("INPUT_OBJECT".to_string()),
            name: Some("MyInputObject".to_string()),
            of_type: None,
        })),
    };
    assert_eq!("[MyInputObject]", tr.decorated_name());
}

#[test]
fn test_get_types_of_kind_should_return_only_types_of_kind() {
    let response = r#"{
        "data": {
            "__schema": {
                "types": [
                    {
                        "kind": "FOO"
                    },
                    {
                        "kind": "BAR"
                    },
                    {
                        "kind": "FOO"
                    },
                    {
                        "name": "FOO"
                    }
                ]
            }
        }
    }"#;
    let schema = Schema::from_str(&response).unwrap();
    assert_eq!(2, schema.get_types_of_kind("FOO").len());
}
