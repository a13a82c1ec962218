//! The record codec: how a generated record type serializes to and
//! deserializes from an object payload.
//!
//! Every field of a record carries a serialization directive derived from
//! its schema. An elective field defaults to `Absent` when its property is
//! missing on input and is omitted from output entirely when `Absent`; a
//! present value is written with no wrapping marker. A non-elective field
//! must be present on input unless the record was declared with
//! `allow_missing`, in which case it is defaulted from its declared
//! shape's own default. A value that fails to parse into its field's
//! declared shape is an error attributed to that field, and any field
//! error fails the whole record: no partial records are produced.

use vstd::prelude::*;
use crate::elective::Elective;
use crate::json::{
    Json, JsonView, Member, MemberView, json_clone, json_view, lemma_member_seq_views, lookup,
    lookup_member, member_seq_views, member_view,
};

verus! {

/// The payload shape a field's declared semantic type accepts.
#[derive(Debug, Clone, Copy, PartialEq, Eq, Structural)]
pub enum PayloadShape {
    /// Any payload at all; its default is null.
    Any,
    /// A boolean literal; its default is false.
    Boolean,
    /// An integer number; its default is zero.
    Integer,
    /// A string; its default is empty.
    Text,
    /// An ordered list; its default is empty.
    List,
    /// A structured object; its default has no members.
    Record,
}

/// Whether a payload value parses under a shape.
pub open spec fn shape_matches(shape: PayloadShape, j: JsonView) -> bool {
    match shape {
        PayloadShape::Any => true,
        PayloadShape::Boolean => j is Bool,
        PayloadShape::Integer => j is Int,
        PayloadShape::Text => j is Str,
        PayloadShape::List => j is Array,
        PayloadShape::Record => j is Object,
    }
}

/// The default value of a shape, used when a missing non-elective field is
/// defaulted under `allow_missing`.
pub open spec fn shape_default(shape: PayloadShape) -> JsonView {
    match shape {
        PayloadShape::Any => JsonView::Null,
        PayloadShape::Boolean => JsonView::Bool(false),
        PayloadShape::Integer => JsonView::Int(0),
        PayloadShape::Text => JsonView::Str(Seq::empty()),
        PayloadShape::List => JsonView::Array(Seq::empty()),
        PayloadShape::Record => JsonView::Object(Seq::empty()),
    }
}

/// Whether a payload value parses under a shape.
pub fn shape_accepts(shape: PayloadShape, j: &Json) -> (r: bool)
    ensures
        r == shape_matches(shape, j@),
{
    match shape {
        PayloadShape::Any => true,
        PayloadShape::Boolean => matches!(j, Json::Bool(_)),
        PayloadShape::Integer => matches!(j, Json::Int(_)),
        PayloadShape::Text => matches!(j, Json::Str(_)),
        PayloadShape::List => matches!(j, Json::Array(_)),
        PayloadShape::Record => matches!(j, Json::Object(_)),
    }
}

/// The default value of a shape.
pub fn shape_default_json(shape: PayloadShape) -> (r: Json)
    ensures
        r@ == shape_default(shape),
{
    match shape {
        PayloadShape::Any => Json::Null,
        PayloadShape::Boolean => Json::Bool(false),
        PayloadShape::Integer => Json::Int(0),
        PayloadShape::Text => Json::Str(String::new()),
        PayloadShape::List => Json::Array(Vec::new()),
        PayloadShape::Record => Json::Object(Vec::new()),
    }
}

/// One field of a record's serialization schema: its wire name, the shape
/// its values take, and whether the field is elective.
#[derive(Debug, Clone, PartialEq)]
pub struct FieldSchema {
    /// The property name on the wire.
    pub wire_name: String,
    /// The shape of the field's values.
    pub shape: PayloadShape,
    /// The field defaults to `Absent` on missing input and is omitted from
    /// output when `Absent`.
    pub elective: bool,
}

/// The mathematical value of a [`FieldSchema`].
#[verifier::ext_equal]
pub struct FieldSchemaView {
    /// The property name on the wire.
    pub wire_name: Seq<char>,
    /// The shape of the field's values.
    pub shape: PayloadShape,
    /// Whether the field is elective.
    pub elective: bool,
}

impl View for FieldSchema {
    type V = FieldSchemaView;

    open spec fn view(&self) -> FieldSchemaView {
        FieldSchemaView { wire_name: self.wire_name@, shape: self.shape, elective: self.elective }
    }
}

/// The views of a schema's field list.
pub open spec fn schema_views(fs: Seq<FieldSchema>) -> Seq<FieldSchemaView> {
    fs.map_values(|f: FieldSchema| f@)
}

/// The value of one field slot: `Absent` only ever stands in an elective
/// field.
pub open spec fn field_value_view(v: Elective<Json>) -> Elective<JsonView> {
    match v {
        Elective::Absent => Elective::Absent,
        Elective::Present(j) => Elective::Present(json_view(j)),
    }
}

/// The values of a record's field slots.
pub open spec fn field_values_view(vs: Seq<Elective<Json>>) -> Seq<Elective<JsonView>> {
    vs.map_values(|v: Elective<Json>| field_value_view(v))
}

/// A record value fits its schema: one slot per field, `Absent` only in
/// elective slots, and every present value parses under its field's shape.
pub open spec fn record_wf(schema: Seq<FieldSchemaView>, values: Seq<Elective<JsonView>>) -> bool {
    &&& values.len() == schema.len()
    &&& forall|i: int|
        0 <= i < schema.len() ==> match #[trigger] values[i] {
            Elective::Absent => schema[i].elective,
            Elective::Present(j) => shape_matches(schema[i].shape, j),
        }
}

/// No two fields of the schema share a wire name.
pub open spec fn distinct_wire_names(schema: Seq<FieldSchemaView>) -> bool {
    forall|i: int, k: int|
        0 <= i < schema.len() && 0 <= k < schema.len() && i != k ==> (#[trigger] schema[i].wire_name)
            != (#[trigger] schema[k].wire_name)
}

/// The members a record's fields contribute to its object payload: each
/// present slot in schema order, absent slots omitted entirely.
pub open spec fn spec_serialize_fields(
    schema: Seq<FieldSchemaView>,
    values: Seq<Elective<JsonView>>,
) -> Seq<MemberView>
    decreases schema.len(),
{
    if schema.len() == 0 {
        Seq::empty()
    } else {
        let head = match values[0] {
            Elective::Absent => Seq::<MemberView>::empty(),
            Elective::Present(j) => seq![MemberView { name: schema[0].wire_name, value: j }],
        };
        head + spec_serialize_fields(schema.drop_first(), values.drop_first())
    }
}

/// The object payload of a record value.
pub open spec fn spec_serialize_record(
    schema: Seq<FieldSchemaView>,
    values: Seq<Elective<JsonView>>,
) -> JsonView {
    JsonView::Object(spec_serialize_fields(schema, values))
}

/// A runtime deserialization error, identifying the offending field.
#[derive(Debug, Clone, PartialEq)]
pub enum DecodeError {
    /// The input payload is not an object.
    NotAnObject,
    /// This non-elective field is missing and the record does not allow
    /// missing fields.
    MissingField(String),
    /// This field's value does not parse under the field's shape.
    FieldShape(String),
}

/// The mathematical value of a [`DecodeError`].
pub enum DecodeErrorView {
    /// The input payload is not an object.
    NotAnObject,
    /// This non-elective field is missing.
    MissingField(Seq<char>),
    /// This field's value fails its shape.
    FieldShape(Seq<char>),
}

impl View for DecodeError {
    type V = DecodeErrorView;

    open spec fn view(&self) -> DecodeErrorView {
        match self {
            DecodeError::NotAnObject => DecodeErrorView::NotAnObject,
            DecodeError::MissingField(s) => DecodeErrorView::MissingField(s@),
            DecodeError::FieldShape(s) => DecodeErrorView::FieldShape(s@),
        }
    }
}

/// What deserializing one field of a record yields, looking its wire name
/// up in the input object: a present property parses under the field's
/// shape or fails; a missing property is `Absent` for an elective field,
/// defaulted under `allow_missing`, and an error otherwise.
pub open spec fn spec_decode_field(
    f: FieldSchemaView,
    obj: Seq<MemberView>,
    allow_missing: bool,
) -> Result<Elective<JsonView>, DecodeErrorView> {
    match lookup(obj, f.wire_name) {
        Some(j) => if shape_matches(f.shape, j) {
            Ok(Elective::Present(j))
        } else {
            Err(DecodeErrorView::FieldShape(f.wire_name))
        },
        None => if f.elective {
            Ok(Elective::Absent)
        } else if allow_missing {
            Ok(Elective::Present(shape_default(f.shape)))
        } else {
            Err(DecodeErrorView::MissingField(f.wire_name))
        },
    }
}

/// What deserializing a record's fields from an object yields: every field
/// in schema order, failing as a whole on the first field error.
pub open spec fn spec_decode_fields(
    schema: Seq<FieldSchemaView>,
    obj: Seq<MemberView>,
    allow_missing: bool,
) -> Result<Seq<Elective<JsonView>>, DecodeErrorView>
    decreases schema.len(),
{
    if schema.len() == 0 {
        Ok(Seq::empty())
    } else {
        match spec_decode_field(schema[0], obj, allow_missing) {
            Ok(v) => match spec_decode_fields(schema.drop_first(), obj, allow_missing) {
                Ok(rest) => Ok(seq![v] + rest),
                Err(e) => Err(e),
            },
            Err(e) => Err(e),
        }
    }
}

/// What deserializing a record from a payload yields: a non-object input
/// is rejected outright.
pub open spec fn spec_deserialize_record(
    schema: Seq<FieldSchemaView>,
    allow_missing: bool,
    input: JsonView,
) -> Result<Seq<Elective<JsonView>>, DecodeErrorView> {
    match input {
        JsonView::Object(members) => spec_decode_fields(schema, members, allow_missing),
        _ => Err(DecodeErrorView::NotAnObject),
    }
}

/// Serializes a record value to its object payload: each present slot
/// becomes a member under its field's wire name, in schema order, and each
/// absent slot is omitted entirely, never emitted as null.
pub fn serialize_record(schema: &Vec<FieldSchema>, values: &Vec<Elective<Json>>) -> (r: Json)
    requires
        values@.len() == schema@.len(),
    ensures
        r@ == spec_serialize_record(schema_views(schema@), field_values_view(values@)),
{
    let ghost sv = schema_views(schema@);
    let ghost vv = field_values_view(values@);
    let mut out: Vec<Member> = Vec::new();
    let mut i: usize = 0;
    proof {
        assert(sv.skip(0) =~= sv);
        assert(vv.skip(0) =~= vv);
        assert(member_seq_views(out@) + spec_serialize_fields(sv, vv) =~= spec_serialize_fields(
            sv,
            vv,
        ));
    }
    while i < schema.len()
        invariant
            i <= schema@.len(),
            values@.len() == schema@.len(),
            sv == schema_views(schema@),
            vv == field_values_view(values@),
            spec_serialize_fields(sv, vv) == member_seq_views(out@) + spec_serialize_fields(
                sv.skip(i as int),
                vv.skip(i as int),
            ),
        decreases schema@.len() - i,
    {
        proof {
            lemma_member_seq_views(out@);
            assert(sv.skip(i as int)[0] == schema@[i as int]@);
            assert(vv.skip(i as int)[0] == field_value_view(values@[i as int]));
            assert(sv.skip(i as int).drop_first() =~= sv.skip(i as int + 1));
            assert(vv.skip(i as int).drop_first() =~= vv.skip(i as int + 1));
        }
        let ghost prev = out@;
        match &values[i] {
            Elective::Absent => {
                proof {
                    assert(member_seq_views(out@) + (Seq::<MemberView>::empty()
                        + spec_serialize_fields(sv.skip(i as int + 1), vv.skip(i as int + 1)))
                        =~= member_seq_views(out@) + spec_serialize_fields(
                        sv.skip(i as int + 1),
                        vv.skip(i as int + 1),
                    ));
                }
            },
            Elective::Present(j) => {
                let c = json_clone(j);
                let n = schema[i].wire_name.clone();
                out.push(Member { name: n, value: c });
                proof {
                    lemma_member_seq_views(out@);
                    lemma_member_seq_views(prev);
                    assert(member_seq_views(out@) =~= member_seq_views(prev) + seq![
                        MemberView { name: sv.skip(i as int)[0].wire_name, value: j@ },
                    ]);
                    assert(member_seq_views(prev) + (seq![
                        MemberView { name: sv.skip(i as int)[0].wire_name, value: j@ },
                    ] + spec_serialize_fields(sv.skip(i as int + 1), vv.skip(i as int + 1))) =~= (
                    member_seq_views(prev) + seq![
                        MemberView { name: sv.skip(i as int)[0].wire_name, value: j@ },
                    ]) + spec_serialize_fields(sv.skip(i as int + 1), vv.skip(i as int + 1)));
                }
            },
        }
        i += 1;
    }
    proof {
        assert(sv.skip(sv.len() as int) =~= Seq::<FieldSchemaView>::empty());
        assert(vv.skip(vv.len() as int) =~= Seq::<Elective<JsonView>>::empty());
        assert(member_seq_views(out@) + Seq::<MemberView>::empty() =~= member_seq_views(out@));
    }
    Json::Object(out)
}

/// Deserializes a record from a payload: looks every field's wire name up
/// in the input object, in schema order, applying the elective default and
/// the `allow_missing` defaulting, and fails as a whole on the first field
/// whose property is missing without a default or fails its shape.
pub fn deserialize_record(schema: &Vec<FieldSchema>, allow_missing: bool, input: &Json) -> (r:
    Result<Vec<Elective<Json>>, DecodeError>)
    ensures
        match r {
            Ok(vs) => spec_deserialize_record(schema_views(schema@), allow_missing, input@) == Ok::<
                Seq<Elective<JsonView>>,
                DecodeErrorView,
            >(field_values_view(vs@)),
            Err(e) => spec_deserialize_record(schema_views(schema@), allow_missing, input@)
                == Err::<Seq<Elective<JsonView>>, DecodeErrorView>(e@),
        },
{
    let members = match input {
        Json::Object(members) => members,
        _ => {
            return Err(DecodeError::NotAnObject);
        },
    };
    let ghost sv = schema_views(schema@);
    let ghost mv = member_seq_views(members@);
    let mut out: Vec<Elective<Json>> = Vec::new();
    let mut i: usize = 0;
    proof {
        assert(sv.skip(0) =~= sv);
        assert(field_values_view(out@) =~= Seq::<Elective<JsonView>>::empty());
    }
    while i < schema.len()
        invariant
            i <= schema@.len(),
            sv == schema_views(schema@),
            mv == member_seq_views(members@),
            input@ == JsonView::Object(mv),
            out@.len() == i,
            spec_decode_fields(sv, mv, allow_missing) == (match spec_decode_fields(
                sv.skip(i as int),
                mv,
                allow_missing,
            ) {
                Ok(rest) => Ok::<Seq<Elective<JsonView>>, DecodeErrorView>(
                    field_values_view(out@) + rest,
                ),
                Err(e) => Err(e),
            }),
        decreases schema@.len() - i,
    {
        proof {
            assert(sv.skip(i as int)[0] == schema@[i as int]@);
            assert(sv.skip(i as int).drop_first() =~= sv.skip(i as int + 1));
        }
        let ghost f = sv.skip(i as int)[0];
        let ghost prev = out@;
        match lookup_member(members, &schema[i].wire_name) {
            Some(j) => {
                if shape_accepts(schema[i].shape, j) {
                    let c = json_clone(j);
                    out.push(Elective::Present(c));
                    proof {
                        assert(spec_decode_field(f, mv, allow_missing) == Ok::<
                            Elective<JsonView>,
                            DecodeErrorView,
                        >(Elective::Present(j@)));
                    }
                } else {
                    proof {
                        assert(spec_decode_field(f, mv, allow_missing) == Err::<
                            Elective<JsonView>,
                            DecodeErrorView,
                        >(DecodeErrorView::FieldShape(f.wire_name)));
                        assert(spec_decode_fields(sv.skip(i as int), mv, allow_missing) == Err::<
                            Seq<Elective<JsonView>>,
                            DecodeErrorView,
                        >(DecodeErrorView::FieldShape(f.wire_name)));
                    }
                    return Err(DecodeError::FieldShape(schema[i].wire_name.clone()));
                }
            },
            None => {
                if schema[i].elective {
                    out.push(Elective::Absent);
                    proof {
                        assert(spec_decode_field(f, mv, allow_missing) == Ok::<
                            Elective<JsonView>,
                            DecodeErrorView,
                        >(Elective::Absent));
                    }
                } else if allow_missing {
                    let d = shape_default_json(schema[i].shape);
                    out.push(Elective::Present(d));
                    proof {
                        assert(spec_decode_field(f, mv, allow_missing) == Ok::<
                            Elective<JsonView>,
                            DecodeErrorView,
                        >(Elective::Present(shape_default(f.shape))));
                    }
                } else {
                    proof {
                        assert(spec_decode_field(f, mv, allow_missing) == Err::<
                            Elective<JsonView>,
                            DecodeErrorView,
                        >(DecodeErrorView::MissingField(f.wire_name)));
                        assert(spec_decode_fields(sv.skip(i as int), mv, allow_missing) == Err::<
                            Seq<Elective<JsonView>>,
                            DecodeErrorView,
                        >(DecodeErrorView::MissingField(f.wire_name)));
                    }
                    return Err(DecodeError::MissingField(schema[i].wire_name.clone()));
                }
            },
        }
        proof {
            let fv = field_value_view(out@[i as int]);
            assert(spec_decode_field(f, mv, allow_missing) == Ok::<
                Elective<JsonView>,
                DecodeErrorView,
            >(fv));
            assert(field_values_view(out@) =~= field_values_view(prev) + seq![fv]);
            let tail = spec_decode_fields(sv.skip(i as int + 1), mv, allow_missing);
            assert(spec_decode_fields(sv.skip(i as int), mv, allow_missing) == (match tail {
                Ok(rest) => Ok::<Seq<Elective<JsonView>>, DecodeErrorView>(seq![fv] + rest),
                Err(e) => Err(e),
            }));
            if tail is Ok {
                let rest = tail->Ok_0;
                assert(field_values_view(prev) + (seq![fv] + rest) =~= field_values_view(out@)
                    + rest);
            }
        }
        i += 1;
    }
    proof {
        assert(sv.skip(sv.len() as int) =~= Seq::<FieldSchemaView>::empty());
        assert(field_values_view(out@) + Seq::<Elective<JsonView>>::empty() =~= field_values_view(
            out@,
        ));
    }
    Ok(out)
}

/// The all-defaults value of a record: `Absent` in every elective slot and
/// each shape's own default in every other slot.
pub open spec fn record_defaults(schema: Seq<FieldSchemaView>) -> Seq<Elective<JsonView>> {
    Seq::new(
        schema.len(),
        |i: int|
            if schema[i].elective {
                Elective::Absent
            } else {
                Elective::Present(shape_default(schema[i].shape))
            },
    )
}

/// Under `allow_missing`, deserializing an object with no members yields
/// the all-defaults record value, whatever the schema.
pub proof fn lemma_decode_empty_defaults(schema: Seq<FieldSchemaView>)
    ensures
        spec_decode_fields(schema, Seq::empty(), true) == Ok::<
            Seq<Elective<JsonView>>,
            DecodeErrorView,
        >(record_defaults(schema)),
    decreases schema.len(),
{
    if schema.len() == 0 {
        assert(record_defaults(schema) =~= Seq::<Elective<JsonView>>::empty());
    } else {
        lemma_decode_empty_defaults(schema.drop_first());
        let head = if schema[0].elective {
            Elective::Absent
        } else {
            Elective::Present(shape_default(schema[0].shape))
        };
        assert(spec_decode_field(schema[0], Seq::empty(), true) == Ok::<
            Elective<JsonView>,
            DecodeErrorView,
        >(head));
        assert(record_defaults(schema.drop_first()) =~= record_defaults(schema).drop_first());
        assert(seq![head] + record_defaults(schema).drop_first() =~= record_defaults(schema));
    }
}

/// The members that the non-elective fields contribute under their
/// defaults, in schema order.
pub open spec fn default_members(schema: Seq<FieldSchemaView>) -> Seq<MemberView>
    decreases schema.len(),
{
    if schema.len() == 0 {
        Seq::empty()
    } else {
        let head = if schema[0].elective {
            Seq::<MemberView>::empty()
        } else {
            seq![MemberView { name: schema[0].wire_name, value: shape_default(schema[0].shape) }]
        };
        head + default_members(schema.drop_first())
    }
}

/// Serializing the all-defaults record value emits no elective field at
/// all, and every non-elective field with its default value.
pub proof fn lemma_serialize_defaults(schema: Seq<FieldSchemaView>)
    ensures
        spec_serialize_fields(schema, record_defaults(schema)) == default_members(schema),
    decreases schema.len(),
{
    if schema.len() > 0 {
        lemma_serialize_defaults(schema.drop_first());
        assert(record_defaults(schema).drop_first() =~= record_defaults(schema.drop_first()));
    }
}

/// Looking a name up in a serialized record finds nothing when no field of
/// the schema carries that name.
proof fn lemma_lookup_serialized_none(
    schema: Seq<FieldSchemaView>,
    values: Seq<Elective<JsonView>>,
    name: Seq<char>,
)
    requires
        values.len() == schema.len(),
        forall|k: int| 0 <= k < schema.len() ==> (#[trigger] schema[k].wire_name) != name,
    ensures
        lookup(spec_serialize_fields(schema, values), name) is None,
    decreases schema.len(),
{
    if schema.len() > 0 {
        lemma_lookup_serialized_none(schema.drop_first(), values.drop_first(), name);
        match values[0] {
            Elective::Absent => {
                assert(Seq::<MemberView>::empty() + spec_serialize_fields(
                    schema.drop_first(),
                    values.drop_first(),
                ) =~= spec_serialize_fields(schema.drop_first(), values.drop_first()));
            },
            Elective::Present(j) => {
                let m = MemberView { name: schema[0].wire_name, value: j };
                let obj = spec_serialize_fields(schema, values);
                assert(obj[0] == m);
                assert(obj.drop_first() =~= spec_serialize_fields(
                    schema.drop_first(),
                    values.drop_first(),
                ));
            },
        }
    }
}

/// Looking a field's wire name up in its record's serialized object finds
/// exactly the field's value: the value it holds when present, and nothing
/// when absent.
proof fn lemma_lookup_serialized(
    schema: Seq<FieldSchemaView>,
    values: Seq<Elective<JsonView>>,
    i: int,
)
    requires
        record_wf(schema, values),
        distinct_wire_names(schema),
        0 <= i < schema.len(),
    ensures
        lookup(spec_serialize_fields(schema, values), schema[i].wire_name) == (match values[i] {
            Elective::Absent => None::<JsonView>,
            Elective::Present(j) => Some(j),
        }),
    decreases i,
{
    let obj = spec_serialize_fields(schema, values);
    if i == 0 {
        match values[0] {
            Elective::Absent => {
                assert(Seq::<MemberView>::empty() + spec_serialize_fields(
                    schema.drop_first(),
                    values.drop_first(),
                ) =~= spec_serialize_fields(schema.drop_first(), values.drop_first()));
                assert(forall|k: int|
                    0 <= k < schema.drop_first().len() ==> (#[trigger] schema.drop_first()[k].wire_name)
                        != schema[0].wire_name);
                lemma_lookup_serialized_none(
                    schema.drop_first(),
                    values.drop_first(),
                    schema[0].wire_name,
                );
            },
            Elective::Present(j) => {
                assert(obj[0] == MemberView { name: schema[0].wire_name, value: j });
            },
        }
    } else {
        assert(record_wf(schema.drop_first(), values.drop_first()));
        assert(distinct_wire_names(schema.drop_first())) by {
            assert(forall|a: int, b: int|
                0 <= a < schema.drop_first().len() && 0 <= b < schema.drop_first().len() && a != b
                    ==> (#[trigger] schema.drop_first()[a].wire_name) != (
                #[trigger] schema.drop_first()[b].wire_name));
        }
        assert(schema.drop_first()[i - 1] == schema[i]);
        assert(values.drop_first()[i - 1] == values[i]);
        lemma_lookup_serialized(schema.drop_first(), values.drop_first(), i - 1);
        let tail = spec_serialize_fields(schema.drop_first(), values.drop_first());
        match values[0] {
            Elective::Absent => {
                assert(Seq::<MemberView>::empty() + tail =~= tail);
            },
            Elective::Present(j) => {
                assert(obj[0] == MemberView { name: schema[0].wire_name, value: j });
                assert(obj.drop_first() =~= tail);
                assert(schema[0].wire_name != schema[i].wire_name);
            },
        }
    }
}

/// Round trip of a whole record, and with it of every elective field:
/// serializing a record value that fits its schema and then deserializing
/// the result yields exactly the value serialized. An absent elective slot
/// comes back `Absent` and a present one comes back with the same value,
/// under any `allow_missing` setting.
pub proof fn lemma_record_round_trip(
    schema: Seq<FieldSchemaView>,
    values: Seq<Elective<JsonView>>,
    allow_missing: bool,
)
    requires
        record_wf(schema, values),
        distinct_wire_names(schema),
    ensures
        spec_deserialize_record(schema, allow_missing, spec_serialize_record(schema, values))
            == Ok::<Seq<Elective<JsonView>>, DecodeErrorView>(values),
{
    let obj = spec_serialize_fields(schema, values);
    lemma_decode_suffix(schema, values, 0, allow_missing);
    assert(schema.skip(0) =~= schema);
    assert(values.skip(0) =~= values);
}

/// Decoding the fields of a schema suffix from the record's own serialized
/// object recovers the corresponding suffix of its values.
proof fn lemma_decode_suffix(
    schema: Seq<FieldSchemaView>,
    values: Seq<Elective<JsonView>>,
    k: int,
    allow_missing: bool,
)
    requires
        record_wf(schema, values),
        distinct_wire_names(schema),
        0 <= k <= schema.len(),
    ensures
        spec_decode_fields(schema.skip(k), spec_serialize_fields(schema, values), allow_missing)
            == Ok::<Seq<Elective<JsonView>>, DecodeErrorView>(values.skip(k)),
    decreases schema.len() - k,
{
    let obj = spec_serialize_fields(schema, values);
    if k == schema.len() {
        assert(schema.skip(k) =~= Seq::<FieldSchemaView>::empty());
        assert(values.skip(k) =~= Seq::<Elective<JsonView>>::empty());
    } else {
        lemma_lookup_serialized(schema, values, k);
        let f = schema[k];
        let head = values[k];
        assert(spec_decode_field(f, obj, allow_missing) == Ok::<
            Elective<JsonView>,
            DecodeErrorView,
        >(head));
        lemma_decode_suffix(schema, values, k + 1, allow_missing);
        assert(schema.skip(k)[0] == f);
        assert(schema.skip(k).drop_first() =~= schema.skip(k + 1));
        assert(seq![head] + values.skip(k + 1) =~= values.skip(k));
    }
}

} // verus!
