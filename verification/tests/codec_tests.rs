//! The record codec: elective round trips, defaults, and errors.

use lsp_msg::codec::{
    deserialize_record, serialize_record, shape_accepts, shape_default_json, DecodeError,
    FieldSchema, PayloadShape,
};
use lsp_msg::json::{json_clone, json_eq, Json, Member};
use lsp_msg::Elective;

fn schema(fields: &[(&str, PayloadShape, bool)]) -> Vec<FieldSchema> {
    fields
        .iter()
        .map(|(name, shape, elective)| FieldSchema {
            wire_name: String::from(*name),
            shape: *shape,
            elective: *elective,
        })
        .collect()
}

#[test]
fn elective_round_trip() {
    // Serializing `Absent` and deserializing the result yields `Absent`;
    // serializing `Present(v)` yields `Present(v)` again.
    let s = schema(&[("experimental", PayloadShape::Any, true)]);

    let absent = vec![Elective::Absent];
    let out = serialize_record(&s, &absent);
    assert!(json_eq(&out, &Json::Object(vec![])));
    let back = deserialize_record(&s, false, &out).unwrap();
    assert_eq!(back.len(), 1);
    assert!(matches!(&back[0], Elective::Absent));

    let v = Json::Object(vec![Member {
        name: String::from("flag"),
        value: Json::Bool(true),
    }]);
    let present = vec![Elective::Present(json_clone(&v))];
    let out = serialize_record(&s, &present);
    let back = deserialize_record(&s, false, &out).unwrap();
    assert_eq!(back.len(), 1);
    match &back[0] {
        Elective::Present(w) => assert!(json_eq(w, &v)),
        Elective::Absent => panic!("present value lost"),
    }
}

#[test]
fn record_round_trip_mixed() {
    // A record with elective and non-elective fields round-trips under
    // any `allow_missing` setting.
    let s = schema(&[
        ("openClose", PayloadShape::Boolean, false),
        ("change", PayloadShape::Integer, false),
        ("save", PayloadShape::Record, true),
        ("name", PayloadShape::Text, true),
    ]);
    let values = vec![
        Elective::Present(Json::Bool(true)),
        Elective::Present(Json::Int(2)),
        Elective::Absent,
        Elective::Present(Json::Str(String::from("doc"))),
    ];
    for allow_missing in [false, true] {
        let out = serialize_record(&s, &values);
        let back = deserialize_record(&s, allow_missing, &out).unwrap();
        assert_eq!(back.len(), 4);
        assert!(matches!(&back[0], Elective::Present(Json::Bool(true))));
        assert!(matches!(&back[1], Elective::Present(Json::Int(2))));
        assert!(matches!(&back[2], Elective::Absent));
        assert!(matches!(&back[3], Elective::Present(Json::Str(t)) if t == "doc"));
    }
}

#[test]
fn allow_missing_empty_record() {
    // A record declared with `allow_missing` and zero fields: an empty
    // input deserializes to the all-defaults value, and serializing the
    // defaults emits an output with no properties at all.
    let s: Vec<FieldSchema> = vec![];
    let empty = Json::Object(vec![]);
    let back = deserialize_record(&s, true, &empty).unwrap();
    assert_eq!(back.len(), 0);
    let out = serialize_record(&s, &back);
    assert!(json_eq(&out, &Json::Object(vec![])));
}

#[test]
fn allow_missing_defaults_fields() {
    // Under `allow_missing`, a missing non-elective field takes its
    // shape's own default, and a missing elective field stays `Absent`;
    // serializing that all-defaults value emits only the non-elective
    // fields with their default values.
    let s = schema(&[
        ("openClose", PayloadShape::Boolean, false),
        ("commands", PayloadShape::List, false),
        ("experimental", PayloadShape::Any, true),
    ]);
    let back = deserialize_record(&s, true, &Json::Object(vec![])).unwrap();
    assert_eq!(back.len(), 3);
    assert!(matches!(&back[0], Elective::Present(Json::Bool(false))));
    assert!(matches!(&back[1], Elective::Present(Json::Array(v)) if v.is_empty()));
    assert!(matches!(&back[2], Elective::Absent));
    let out = serialize_record(&s, &back);
    let expected = Json::Object(vec![
        Member {
            name: String::from("openClose"),
            value: Json::Bool(false),
        },
        Member {
            name: String::from("commands"),
            value: Json::Array(vec![]),
        },
    ]);
    assert!(json_eq(&out, &expected));
}

#[test]
fn missing_field_error() {
    // Without `allow_missing`, a missing non-elective property fails the
    // whole record, attributed to the field.
    let s = schema(&[("openClose", PayloadShape::Boolean, false)]);
    let r = deserialize_record(&s, false, &Json::Object(vec![]));
    assert!(matches!(r, Err(DecodeError::MissingField(n)) if n == "openClose"));
}

#[test]
fn field_shape_error() {
    // A property that fails to parse under its field's shape fails the
    // whole record, attributed to the field, even for an elective field
    // and even under `allow_missing`.
    let s = schema(&[("experimental", PayloadShape::Boolean, true)]);
    let input = Json::Object(vec![Member {
        name: String::from("experimental"),
        value: Json::Str(String::from("yes")),
    }]);
    let r = deserialize_record(&s, true, &input);
    assert!(matches!(r, Err(DecodeError::FieldShape(n)) if n == "experimental"));
}

#[test]
fn not_an_object_error() {
    let s = schema(&[("openClose", PayloadShape::Boolean, false)]);
    let r = deserialize_record(&s, true, &Json::Bool(true));
    assert!(matches!(r, Err(DecodeError::NotAnObject)));
}

#[test]
fn duplicate_input_properties_take_first() {
    // Lookup finds the first property of a name in the input object.
    let s = schema(&[("flag", PayloadShape::Boolean, false)]);
    let input = Json::Object(vec![
        Member {
            name: String::from("flag"),
            value: Json::Bool(true),
        },
        Member {
            name: String::from("flag"),
            value: Json::Bool(false),
        },
    ]);
    let back = deserialize_record(&s, false, &input).unwrap();
    assert!(matches!(&back[0], Elective::Present(Json::Bool(true))));
}

#[test]
fn shape_defaults_and_acceptance() {
    assert!(json_eq(&shape_default_json(PayloadShape::Any), &Json::Null));
    assert!(json_eq(
        &shape_default_json(PayloadShape::Boolean),
        &Json::Bool(false)
    ));
    assert!(json_eq(&shape_default_json(PayloadShape::Integer), &Json::Int(0)));
    assert!(json_eq(
        &shape_default_json(PayloadShape::Text),
        &Json::Str(String::new())
    ));
    assert!(json_eq(
        &shape_default_json(PayloadShape::List),
        &Json::Array(vec![])
    ));
    assert!(json_eq(
        &shape_default_json(PayloadShape::Record),
        &Json::Object(vec![])
    ));
    assert!(shape_accepts(PayloadShape::Any, &Json::Null));
    assert!(shape_accepts(PayloadShape::Boolean, &Json::Bool(true)));
    assert!(!shape_accepts(PayloadShape::Boolean, &Json::Int(1)));
    assert!(shape_accepts(PayloadShape::Text, &Json::Str(String::new())));
    assert!(!shape_accepts(PayloadShape::Record, &Json::Array(vec![])));
}

#[test]
fn elective_states() {
    let absent: Elective<i64> = Elective::default();
    assert!(absent.is_absent());
    assert!(!absent.is_present());
    let present = Elective::Present(3_i64);
    assert!(present.is_present());
    assert!(!present.is_absent());
}
