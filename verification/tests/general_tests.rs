//! Workspace capability objects: defaults and wire layout.

use lsp_msg::codec::{deserialize_record, serialize_record, FieldSchema, PayloadShape};
use lsp_msg::json::{json_eq, Json, Member};
use lsp_msg::text::wire_name;
use lsp_msg::{
    DidChangeConfigurationCapabilities, DidChangeWatchedFilesCapabilities, Elective,
    ExecuteCommandCapabilities, FailureHandlingKind, ResourceOperationKind, SymbolCapabilities,
    SymbolKindCapabilities, WorkspaceEditCapabilities,
};

fn field(name: &str, shape: PayloadShape, elective: bool) -> FieldSchema {
    FieldSchema {
        wire_name: wire_name(name),
        shape,
        elective,
    }
}

fn workspace_edit_schema() -> Vec<FieldSchema> {
    vec![
        field("document_changes", PayloadShape::Boolean, false),
        field("resource_operations", PayloadShape::List, false),
        field("failure_handling", PayloadShape::Text, true),
    ]
}

#[test]
fn general_default() {
    assert_eq!(
        WorkspaceEditCapabilities::default(),
        WorkspaceEditCapabilities {
            document_changes: false,
            resource_operations: vec![],
            failure_handling: Elective::Absent,
        }
    );
    assert_eq!(
        DidChangeConfigurationCapabilities::default(),
        DidChangeConfigurationCapabilities {
            dynamic_registration: false,
        }
    );
    assert_eq!(
        DidChangeWatchedFilesCapabilities::default(),
        DidChangeWatchedFilesCapabilities {
            dynamic_registration: false,
        }
    );
    assert_eq!(
        SymbolKindCapabilities::default(),
        SymbolKindCapabilities {
            value_set: Elective::Absent,
        }
    );
    assert_eq!(
        SymbolCapabilities::default(),
        SymbolCapabilities {
            dynamic_registration: false,
            symbol_kind: SymbolKindCapabilities::default(),
        }
    );
    assert_eq!(
        ExecuteCommandCapabilities::default(),
        ExecuteCommandCapabilities {
            dynamic_registration: false,
        }
    );
}

#[test]
fn default() {
    assert_eq!(
        DidChangeWatchedFilesCapabilities::default(),
        DidChangeWatchedFilesCapabilities {
            dynamic_registration: false,
        }
    );
    assert_eq!(
        ExecuteCommandCapabilities::default(),
        ExecuteCommandCapabilities {
            dynamic_registration: false,
        }
    );
}

#[test]
fn general_serde() {
    // A `WorkspaceEditCapabilities` value with `document_changes: false`,
    // one `create` resource operation, and an `abort` failure handling
    // strategy, laid out as the generator prescribes.
    let schema = workspace_edit_schema();
    let values = vec![
        Elective::Present(Json::Bool(false)),
        Elective::Present(Json::Array(vec![Json::Str(String::from("create"))])),
        Elective::Present(Json::Str(String::from("abort"))),
    ];
    let out = serialize_record(&schema, &values);
    let expected = Json::Object(vec![
        Member {
            name: String::from("documentChanges"),
            value: Json::Bool(false),
        },
        Member {
            name: String::from("resourceOperations"),
            value: Json::Array(vec![Json::Str(String::from("create"))]),
        },
        Member {
            name: String::from("failureHandling"),
            value: Json::Str(String::from("abort")),
        },
    ]);
    assert!(json_eq(&out, &expected));
    let back = deserialize_record(&schema, false, &out).unwrap();
    assert_eq!(back.len(), 3);
    assert!(matches!(&back[0], Elective::Present(Json::Bool(false))));
    assert!(matches!(&back[2], Elective::Present(Json::Str(s)) if s == "abort"));

    // The string tags of the resource operation kinds.
    assert_eq!(ResourceOperationKind::Create.tag(), "create");
    assert_eq!(ResourceOperationKind::Rename.tag(), "rename");
    assert_eq!(ResourceOperationKind::Delete.tag(), "delete");

    // The string tags of the failure handling kinds.
    assert_eq!(FailureHandlingKind::Abort.tag(), "abort");
    assert_eq!(FailureHandlingKind::Transactional.tag(), "transactional");
    assert_eq!(
        FailureHandlingKind::TextOnlyTransactional.tag(),
        "textOnlyTransactional"
    );
    assert_eq!(FailureHandlingKind::Undo.tag(), "undo");

    // A `DidChangeConfigurationCapabilities` value serializes to exactly
    // its `dynamicRegistration` property.
    let schema = vec![field("dynamic_registration", PayloadShape::Boolean, false)];
    let values = vec![Elective::Present(Json::Bool(false))];
    let out = serialize_record(&schema, &values);
    let expected = Json::Object(vec![Member {
        name: String::from("dynamicRegistration"),
        value: Json::Bool(false),
    }]);
    assert!(json_eq(&out, &expected));

    // A `SymbolKindCapabilities` value with one known symbol kind in its
    // `valueSet`.
    let schema = vec![field("value_set", PayloadShape::List, true)];
    let values = vec![Elective::Present(Json::Array(vec![Json::Int(
        lsp_msg::Symbol::File.number() as i64,
    )]))];
    let out = serialize_record(&schema, &values);
    let expected = Json::Object(vec![Member {
        name: String::from("valueSet"),
        value: Json::Array(vec![Json::Int(1)]),
    }]);
    assert!(json_eq(&out, &expected));

    // A `SymbolCapabilities` value with dynamic registration and that
    // same symbol kind set.
    let schema = vec![
        field("dynamic_registration", PayloadShape::Boolean, false),
        field("symbol_kind", PayloadShape::Record, false),
    ];
    let values = vec![
        Elective::Present(Json::Bool(true)),
        Elective::Present(Json::Object(vec![Member {
            name: String::from("valueSet"),
            value: Json::Array(vec![Json::Int(1)]),
        }])),
    ];
    let out = serialize_record(&schema, &values);
    let expected = Json::Object(vec![
        Member {
            name: String::from("dynamicRegistration"),
            value: Json::Bool(true),
        },
        Member {
            name: String::from("symbolKind"),
            value: Json::Object(vec![Member {
                name: String::from("valueSet"),
                value: Json::Array(vec![Json::Int(1)]),
            }]),
        },
    ]);
    assert!(json_eq(&out, &expected));

    // An `ExecuteCommandCapabilities` value with dynamic registration.
    let schema = vec![field("dynamic_registration", PayloadShape::Boolean, false)];
    let values = vec![Elective::Present(Json::Bool(true))];
    let out = serialize_record(&schema, &values);
    let expected = Json::Object(vec![Member {
        name: String::from("dynamicRegistration"),
        value: Json::Bool(true),
    }]);
    assert!(json_eq(&out, &expected));
}

#[test]
fn general_deserialize_missing() {
    // Every capability object allows missing properties: an empty object
    // deserializes to the all-defaults value.
    let schema = workspace_edit_schema();
    let empty = Json::Object(vec![]);
    let back = deserialize_record(&schema, true, &empty).unwrap();
    assert_eq!(back.len(), 3);
    assert!(matches!(&back[0], Elective::Present(Json::Bool(false))));
    assert!(matches!(&back[1], Elective::Present(Json::Array(v)) if v.is_empty()));
    assert!(matches!(&back[2], Elective::Absent));

    let schema = vec![field("dynamic_registration", PayloadShape::Boolean, false)];
    let back = deserialize_record(&schema, true, &empty).unwrap();
    assert_eq!(back.len(), 1);
    assert!(matches!(&back[0], Elective::Present(Json::Bool(false))));
}

#[test]
fn serialize_absent() {
    // An absent elective field is omitted from the output entirely: the
    // serialized object holds only the two non-elective properties.
    let schema = workspace_edit_schema();
    let values = vec![
        Elective::Present(Json::Bool(false)),
        Elective::Present(Json::Array(vec![])),
        Elective::Absent,
    ];
    let out = serialize_record(&schema, &values);
    let expected = Json::Object(vec![
        Member {
            name: String::from("documentChanges"),
            value: Json::Bool(false),
        },
        Member {
            name: String::from("resourceOperations"),
            value: Json::Array(vec![]),
        },
    ]);
    assert!(json_eq(&out, &expected));
}
