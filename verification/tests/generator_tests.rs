//! The annotation parser and the shape synthesizer.

use lsp_msg::attr::{
    parse_attribute_specification, specification_tokens, AttributeParserState,
    AttributeSpecification, SpecificationError, Token, ValueOption,
};
use lsp_msg::codec::{deserialize_record, PayloadShape};
use lsp_msg::json::Json;
use lsp_msg::json::Member;
use lsp_msg::synth::{
    choose_dispatch, decode_numeric, decode_string_tag, decode_untagged, encode_numeric,
    parse_kind_marker, record_schema, synthesize, wire_token, DeclaredField, DispatchShape,
    FieldType, KindMarkerError, VariantDecl, VariantError,
};
use lsp_msg::text::wire_name;

fn ident(s: &str) -> Token {
    Token::Ident(String::from(s))
}

fn literal(s: &str) -> Token {
    Token::Literal(format!("\"{}\"", s))
}

fn unit_variant(name: &str) -> VariantDecl {
    VariantDecl {
        name: String::from(name),
        payload: None,
        discriminant: None,
    }
}

#[test]
fn parse_flags_and_values() {
    let tokens = vec![
        ident("allow_missing"),
        Token::Other,
        ident("dynamic_registration"),
        Token::Other,
        literal("`textDocument/hover` request"),
        Token::Other,
        ident("markup_kind_list"),
        Token::Other,
        literal("content"),
    ];
    let spec = parse_attribute_specification(&tokens).unwrap();
    assert!(spec.allow_missing);
    assert!(!spec.has_document_selector);
    assert!(!spec.has_static_registration);
    assert_eq!(
        spec.dynamic_registration,
        Some(String::from("`textDocument/hover` request"))
    );
    assert_eq!(spec.markup_kind_list, Some(String::from("content")));
    assert_eq!(spec.link_support, None);
    assert_eq!(spec.triggers, None);
    assert_eq!(spec.resolve_provider, None);
}

#[test]
fn parse_unsupported_option() {
    let tokens = vec![ident("allow_missing"), ident("value_set")];
    assert_eq!(
        parse_attribute_specification(&tokens),
        Err(SpecificationError::UnsupportedOption(String::from(
            "value_set"
        )))
    );
}

#[test]
fn parse_missing_value() {
    let tokens = vec![ident("triggers"), Token::Other];
    assert_eq!(
        parse_attribute_specification(&tokens),
        Err(SpecificationError::MissingValue(ValueOption::Triggers))
    );
}

#[test]
fn parse_duplicate_overwrites() {
    // A repeated value-option overwrites the earlier occurrence.
    let tokens = vec![
        ident("link_support"),
        literal("declaration"),
        ident("link_support"),
        literal("definition"),
    ];
    let spec = parse_attribute_specification(&tokens).unwrap();
    assert_eq!(spec.link_support, Some(String::from("definition")));
}

#[test]
fn parser_state_search() {
    assert!(!AttributeParserState::ScanningOption.is_searching_for_value());
    assert!(
        AttributeParserState::AwaitingValue(ValueOption::Triggers).is_searching_for_value()
    );
}

#[test]
fn specification_reparse() {
    // Re-parsing the canonical rendering of a validated specification
    // yields the specification unchanged.
    let spec = AttributeSpecification {
        allow_missing: true,
        has_document_selector: false,
        has_static_registration: true,
        dynamic_registration: Some(String::from("`workspace/symbol` request")),
        link_support: None,
        markup_kind_list: Some(String::from("documentation")),
        triggers: Some(String::from("completion")),
        resolve_provider: None,
    };
    let tokens = specification_tokens(&spec);
    let back = parse_attribute_specification(&tokens).unwrap();
    assert_eq!(back, spec);
}

#[test]
fn synthesized_record_scenario() {
    // A record declared with `dynamic_registration = "workspace/symbol
    // request"` holds exactly one boolean field whose wire name is
    // `dynamicRegistration` and whose documentation is the synthesized
    // sentence.
    let tokens = vec![
        ident("dynamic_registration"),
        Token::Other,
        literal("workspace/symbol request"),
    ];
    let spec = parse_attribute_specification(&tokens).unwrap();
    let fields = synthesize(&spec, &vec![]);
    assert_eq!(fields.len(), 1);
    assert_eq!(fields[0].name, "dynamic_registration");
    assert_eq!(fields[0].ty, FieldType::Boolean);
    assert_eq!(
        fields[0].doc,
        "Supports dynamic registration of the workspace/symbol request."
    );
    assert!(!fields[0].elective);
    assert_eq!(fields[0].wire(), "dynamicRegistration");
}

#[test]
fn synthesized_field_order() {
    // Fixed fields come in the fixed order, then the declared fields in
    // their original order.
    let spec = AttributeSpecification {
        allow_missing: false,
        has_document_selector: true,
        has_static_registration: true,
        dynamic_registration: None,
        link_support: Some(String::from("definition")),
        markup_kind_list: Some(String::from("documentation")),
        triggers: Some(String::from("completion")),
        resolve_provider: Some(String::from("completion")),
    };
    let declared = vec![
        DeclaredField {
            name: String::from("snippet_support"),
            ty: String::from("bool"),
            elective: false,
        },
        DeclaredField {
            name: String::from("experimental"),
            ty: String::from("Json"),
            elective: true,
        },
    ];
    let fields = synthesize(&spec, &declared);
    let names: Vec<&str> = fields.iter().map(|f| f.name.as_str()).collect();
    assert_eq!(
        names,
        vec![
            "document_selector",
            "id",
            "link_support",
            "documentation_format",
            "trigger_characters",
            "resolve_provider",
            "snippet_support",
            "experimental",
        ]
    );
    // The registration id is elective; a declared elective field keeps
    // its directive.
    assert!(fields[1].elective);
    assert!(!fields[6].elective);
    assert!(fields[7].elective);
    assert_eq!(
        fields[3].doc,
        "Preferred formats for the documentation property, most preferred first."
    );
    assert_eq!(fields[3].wire(), "documentationFormat");
    assert_eq!(
        fields[4].doc,
        "Characters that trigger completion automatically."
    );
    assert_eq!(
        fields[5].doc,
        "Provides support to resolve additional information for an completion item."
    );
    assert_eq!(
        fields[2].doc,
        "Supports additional metadata in the form of definition links."
    );
}

#[test]
fn kind_marker() {
    assert_eq!(parse_kind_marker(&vec![]), Ok(false));
    assert_eq!(parse_kind_marker(&vec![ident("number")]), Ok(true));
    assert_eq!(
        parse_kind_marker(&vec![ident("string")]),
        Err(KindMarkerError::UnsupportedToken)
    );
    assert_eq!(
        parse_kind_marker(&vec![Token::Other]),
        Err(KindMarkerError::UnsupportedToken)
    );
}

#[test]
fn numeric_dispatch() {
    // A number-tagged sum type with three unit variants and no explicit
    // discriminant assigns exactly 0, 1, 2 in declaration order; decoding
    // 1 yields the second variant and decoding 3 fails.
    let variants = vec![unit_variant("Off"), unit_variant("Messages"), unit_variant("Verbose")];
    let shape = choose_dispatch(true, &variants);
    assert_eq!(shape, DispatchShape::Numeric(0));
    assert_eq!(encode_numeric(0, 0, 3), 0);
    assert_eq!(encode_numeric(0, 1, 3), 1);
    assert_eq!(encode_numeric(0, 2, 3), 2);
    assert_eq!(decode_numeric(0, 3, 1), Ok(1));
    assert_eq!(decode_numeric(0, 3, 3), Err(VariantError::UnknownTag));
}

#[test]
fn numeric_dispatch_base() {
    // The base is the first explicit discriminant in declaration order.
    let mut variants = vec![unit_variant("Error"), unit_variant("Warning")];
    variants[0].discriminant = Some(1);
    assert_eq!(choose_dispatch(true, &variants), DispatchShape::Numeric(1));
    assert_eq!(decode_numeric(1, 2, 2), Ok(1));
    assert_eq!(decode_numeric(1, 2, 0), Err(VariantError::UnknownTag));
}

#[test]
fn string_dispatch() {
    // A sum type of unit variants without the number marker is
    // string-tagged; the wire token of `TextOnlyTransactional` is exactly
    // `textOnlyTransactional`.
    let variants = vec![
        unit_variant("Abort"),
        unit_variant("Transactional"),
        unit_variant("TextOnlyTransactional"),
        unit_variant("Undo"),
    ];
    assert_eq!(choose_dispatch(false, &variants), DispatchShape::StringTagged);
    assert_eq!(wire_token(&variants[2]), "textOnlyTransactional");
    assert_eq!(
        decode_string_tag(&variants, &String::from("textOnlyTransactional")),
        Ok(2)
    );
    assert_eq!(
        decode_string_tag(&variants, &String::from("rollback")),
        Err(VariantError::UnknownToken)
    );
}

#[test]
fn untagged_dispatch() {
    // An untagged sum type with variants `Boolean(bool)` and `Options(T)`
    // decodes a boolean literal to the first variant, a structured value
    // to the second, and fails on a value matching neither shape, with no
    // default fallback.
    let variants = vec![
        VariantDecl {
            name: String::from("Boolean"),
            payload: Some(PayloadShape::Boolean),
            discriminant: None,
        },
        VariantDecl {
            name: String::from("Options"),
            payload: Some(PayloadShape::Record),
            discriminant: None,
        },
    ];
    assert_eq!(choose_dispatch(false, &variants), DispatchShape::Untagged);
    assert_eq!(decode_untagged(&variants, &Json::Bool(true)), Ok(0));
    assert_eq!(decode_untagged(&variants, &Json::Object(vec![])), Ok(1));
    assert_eq!(
        decode_untagged(&variants, &Json::Int(3)),
        Err(VariantError::NoVariantMatches)
    );
}

#[test]
fn wire_names() {
    assert_eq!(wire_name("will_save_wait_until"), "willSaveWaitUntil");
    assert_eq!(wire_name("id"), "id");
    assert_eq!(wire_name("GitCommit"), "gitCommit");
    assert_eq!(wire_name("dynamic_registration"), "dynamicRegistration");
    assert_eq!(wire_name("value_set"), "valueSet");
}

#[test]
fn generated_record_decodes_wire_payload() {
    // The full pipeline of one declaration: annotation tokens to a
    // validated specification, to the synthesized field list, to the
    // runtime codec schema, to decoding a wire object under the elective
    // value contract.
    let tokens = vec![
        ident("allow_missing"),
        ident("dynamic_registration"),
        literal("`workspace/symbol` request"),
    ];
    let spec = parse_attribute_specification(&tokens).unwrap();
    let declared = vec![DeclaredField {
        name: String::from("experimental"),
        ty: String::from("Json"),
        elective: true,
    }];
    let fields = synthesize(&spec, &declared);
    let schema = record_schema(&fields);
    assert_eq!(schema.len(), 2);
    assert_eq!(schema[0].wire_name, "dynamicRegistration");
    assert!(!schema[0].elective);
    assert_eq!(schema[1].wire_name, "experimental");
    assert!(schema[1].elective);

    let wire = Json::Object(vec![Member {
        name: String::from("dynamicRegistration"),
        value: Json::Bool(true),
    }]);
    let values = deserialize_record(&schema, spec.allow_missing, &wire).unwrap();
    assert!(matches!(&values[0], lsp_msg::Elective::Present(Json::Bool(true))));
    assert!(matches!(&values[1], lsp_msg::Elective::Absent));

    // Without the record-level default, an empty object is rejected for
    // the non-elective field.
    let empty = Json::Object(vec![]);
    assert!(deserialize_record(&schema, false, &empty).is_err());
    // With it, the missing boolean takes its shape's default.
    let defaults = deserialize_record(&schema, true, &empty).unwrap();
    assert!(matches!(&defaults[0], lsp_msg::Elective::Present(Json::Bool(false))));
    assert!(matches!(&defaults[1], lsp_msg::Elective::Absent));
}
