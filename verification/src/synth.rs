//! The shape synthesizer.
//!
//! For a record declaration, the synthesizer turns a validated
//! [`AttributeSpecification`] plus the declared fields into the final
//! ordered field list: the fixed fields its options inject, in the fixed
//! order — document selector, registration id, dynamic registration, link
//! support, markup kind list, trigger characters, resolve provider — each
//! with synthesized documentation, followed by the declared fields in
//! their original order. Every field whose type is elective carries the
//! serialization directive: default to `Absent` when missing on input,
//! omit entirely from output when `Absent`.
//!
//! For a sum-type declaration, the synthesizer picks one of three dispatch
//! shapes: numeric tagging when the `number` marker is present, string
//! tagging when every variant is a unit, and untagged one-of dispatch
//! otherwise.

use vstd::prelude::*;
use vstd::string::*;
use crate::attr::{AttributeSpecification, AttributeSpecificationView, Token, TokenView, token_views};
use crate::codec::{PayloadShape, shape_matches, shape_accepts};
use crate::json::{Json, JsonView};
use crate::text::camel_case;

verus! {

/// The semantic type of a field in a synthesized layout.
#[derive(Debug, Clone, PartialEq)]
pub enum FieldType {
    /// A single-element document-selector placeholder, nullable.
    Selector,
    /// An elective string: the registration id.
    ElectiveString,
    /// A boolean capability flag.
    Boolean,
    /// An ordered list of markup kinds, most preferred first.
    MarkupKindList,
    /// An ordered list of strings.
    StringList,
    /// A declared field's own semantic type, carried as text.
    Declared(String),
}

/// The mathematical value of a [`FieldType`].
pub enum FieldTypeView {
    /// A single-element document-selector placeholder.
    Selector,
    /// An elective string.
    ElectiveString,
    /// A boolean capability flag.
    Boolean,
    /// An ordered list of markup kinds.
    MarkupKindList,
    /// An ordered list of strings.
    StringList,
    /// A declared field's own semantic type.
    Declared(Seq<char>),
}

impl View for FieldType {
    type V = FieldTypeView;

    open spec fn view(&self) -> FieldTypeView {
        match self {
            FieldType::Selector => FieldTypeView::Selector,
            FieldType::ElectiveString => FieldTypeView::ElectiveString,
            FieldType::Boolean => FieldTypeView::Boolean,
            FieldType::MarkupKindList => FieldTypeView::MarkupKindList,
            FieldType::StringList => FieldTypeView::StringList,
            FieldType::Declared(t) => FieldTypeView::Declared(t@),
        }
    }
}

/// One field as the consumer declared it: a name, a semantic type, and
/// whether that type is elective.
#[derive(Debug, Clone, PartialEq)]
pub struct DeclaredField {
    /// The field's identifier.
    pub name: String,
    /// The text of the field's semantic type.
    pub ty: String,
    /// Whether the type is elective.
    pub elective: bool,
}

/// The mathematical value of a [`DeclaredField`].
#[verifier::ext_equal]
pub struct DeclaredFieldView {
    /// The field's identifier.
    pub name: Seq<char>,
    /// The text of the field's semantic type.
    pub ty: Seq<char>,
    /// Whether the type is elective.
    pub elective: bool,
}

impl View for DeclaredField {
    type V = DeclaredFieldView;

    open spec fn view(&self) -> DeclaredFieldView {
        DeclaredFieldView { name: self.name@, ty: self.ty@, elective: self.elective }
    }
}

/// One field of the final synthesized layout: its identifier, its
/// semantic type, its documentation, and whether it carries the elective
/// serialization directive.
#[derive(Debug, Clone, PartialEq)]
pub struct SynthesizedField {
    /// The field's identifier.
    pub name: String,
    /// The field's semantic type.
    pub ty: FieldType,
    /// The field's documentation text.
    pub doc: String,
    /// The field defaults to `Absent` on missing input and is omitted
    /// from output when `Absent`.
    pub elective: bool,
}

/// The mathematical value of a [`SynthesizedField`].
#[verifier::ext_equal]
pub struct SynthesizedFieldView {
    /// The field's identifier.
    pub name: Seq<char>,
    /// The field's semantic type.
    pub ty: FieldTypeView,
    /// The field's documentation text.
    pub doc: Seq<char>,
    /// Whether the field carries the elective directive.
    pub elective: bool,
}

impl View for SynthesizedField {
    type V = SynthesizedFieldView;

    open spec fn view(&self) -> SynthesizedFieldView {
        SynthesizedFieldView {
            name: self.name@,
            ty: self.ty@,
            doc: self.doc@,
            elective: self.elective,
        }
    }
}

impl SynthesizedField {
    /// The field's property name on the wire: the lowerCamelCase
    /// transform of its identifier.
    pub fn wire(&self) -> (r: String)
        ensures
            r@ == crate::text::camel_case(self.name@),
    {
        crate::text::wire_name(self.name.as_str())
    }
}

/// The views of a synthesized field list.
pub open spec fn synth_views(fs: Seq<SynthesizedField>) -> Seq<SynthesizedFieldView> {
    fs.map_values(|f: SynthesizedField| f@)
}

/// The views of a declared field list.
pub open spec fn declared_views(fs: Seq<DeclaredField>) -> Seq<DeclaredFieldView> {
    fs.map_values(|f: DeclaredField| f@)
}

/// The documentation of the fixed document-selector field.
pub open spec fn doc_document_selector() -> Seq<char> {
    "Identifies the scope of the registration.\n\nIf `Option::None`, `DocumentSelector` provided by client will be used."@
}

/// The documentation of the fixed registration-id field.
pub open spec fn doc_static_registration() -> Seq<char> {
    "The id used to register the request."@
}

/// The documentation synthesized for the dynamic-registration field.
pub open spec fn doc_dynamic_registration(x: Seq<char>) -> Seq<char> {
    "Supports dynamic registration of the "@ + x + "."@
}

/// The documentation synthesized for the link-support field.
pub open spec fn doc_link_support(x: Seq<char>) -> Seq<char> {
    "Supports additional metadata in the form of "@ + x + " links."@
}

/// The documentation synthesized for a markup-kind-list field.
pub open spec fn doc_markup_kind_list(p: Seq<char>) -> Seq<char> {
    "Preferred formats for the "@ + p + " property, most preferred first."@
}

/// The documentation synthesized for the trigger-characters field.
pub open spec fn doc_triggers(x: Seq<char>) -> Seq<char> {
    "Characters that trigger "@ + x + " automatically."@
}

/// The documentation synthesized for the resolve-provider field.
pub open spec fn doc_resolve_provider(x: Seq<char>) -> Seq<char> {
    "Provides support to resolve additional information for an "@ + x + " item."@
}

/// The name of a markup-kind-list field: the property name with the
/// format suffix.
pub open spec fn markup_field_name(p: Seq<char>) -> Seq<char> {
    p + "_format"@
}

/// The fixed field the document-selector flag injects.
pub open spec fn selector_field() -> SynthesizedFieldView {
    SynthesizedFieldView {
        name: "document_selector"@,
        ty: FieldTypeView::Selector,
        doc: doc_document_selector(),
        elective: false,
    }
}

/// The fixed field the static-registration flag injects; its type is
/// elective, so it carries the directive.
pub open spec fn static_registration_field() -> SynthesizedFieldView {
    SynthesizedFieldView {
        name: "id"@,
        ty: FieldTypeView::ElectiveString,
        doc: doc_static_registration(),
        elective: true,
    }
}

/// The fixed field a recorded dynamic-registration option injects.
pub open spec fn dynamic_registration_field(x: Seq<char>) -> SynthesizedFieldView {
    SynthesizedFieldView {
        name: "dynamic_registration"@,
        ty: FieldTypeView::Boolean,
        doc: doc_dynamic_registration(x),
        elective: false,
    }
}

/// The fixed field a recorded link-support option injects.
pub open spec fn link_support_field(x: Seq<char>) -> SynthesizedFieldView {
    SynthesizedFieldView {
        name: "link_support"@,
        ty: FieldTypeView::Boolean,
        doc: doc_link_support(x),
        elective: false,
    }
}

/// The fixed field a recorded markup-kind-list option injects.
pub open spec fn markup_kind_list_field(p: Seq<char>) -> SynthesizedFieldView {
    SynthesizedFieldView {
        name: markup_field_name(p),
        ty: FieldTypeView::MarkupKindList,
        doc: doc_markup_kind_list(p),
        elective: false,
    }
}

/// The fixed field a recorded triggers option injects.
pub open spec fn triggers_field(x: Seq<char>) -> SynthesizedFieldView {
    SynthesizedFieldView {
        name: "trigger_characters"@,
        ty: FieldTypeView::StringList,
        doc: doc_triggers(x),
        elective: false,
    }
}

/// The fixed field a recorded resolve-provider option injects.
pub open spec fn resolve_provider_field(x: Seq<char>) -> SynthesizedFieldView {
    SynthesizedFieldView {
        name: "resolve_provider"@,
        ty: FieldTypeView::Boolean,
        doc: doc_resolve_provider(x),
        elective: false,
    }
}

/// A declared field carried into the final layout: its own name, type
/// text and documentation-free entry, elective exactly when its declared
/// type is.
pub open spec fn declared_field(f: DeclaredFieldView) -> SynthesizedFieldView {
    SynthesizedFieldView {
        name: f.name,
        ty: FieldTypeView::Declared(f.ty),
        doc: Seq::empty(),
        elective: f.elective,
    }
}

/// The fields a flag injects: one when set, none otherwise.
pub open spec fn when(on: bool, f: SynthesizedFieldView) -> Seq<SynthesizedFieldView> {
    if on {
        seq![f]
    } else {
        Seq::empty()
    }
}

/// The fields a recorded dynamic-registration option injects.
pub open spec fn part_dynamic_registration(o: Option<Seq<char>>) -> Seq<SynthesizedFieldView> {
    match o {
        Some(x) => seq![dynamic_registration_field(x)],
        None => Seq::empty(),
    }
}

/// The fields a recorded link-support option injects.
pub open spec fn part_link_support(o: Option<Seq<char>>) -> Seq<SynthesizedFieldView> {
    match o {
        Some(x) => seq![link_support_field(x)],
        None => Seq::empty(),
    }
}

/// The fields a recorded markup-kind-list option injects.
pub open spec fn part_markup_kind_list(o: Option<Seq<char>>) -> Seq<SynthesizedFieldView> {
    match o {
        Some(p) => seq![markup_kind_list_field(p)],
        None => Seq::empty(),
    }
}

/// The fields a recorded triggers option injects.
pub open spec fn part_triggers(o: Option<Seq<char>>) -> Seq<SynthesizedFieldView> {
    match o {
        Some(x) => seq![triggers_field(x)],
        None => Seq::empty(),
    }
}

/// The fields a recorded resolve-provider option injects.
pub open spec fn part_resolve_provider(o: Option<Seq<char>>) -> Seq<SynthesizedFieldView> {
    match o {
        Some(x) => seq![resolve_provider_field(x)],
        None => Seq::empty(),
    }
}

/// The fixed fields a specification injects, in the fixed order.
pub open spec fn fixed_fields(v: AttributeSpecificationView) -> Seq<SynthesizedFieldView> {
    when(v.has_document_selector, selector_field()) + (when(
        v.has_static_registration,
        static_registration_field(),
    ) + (part_dynamic_registration(v.dynamic_registration) + (part_link_support(v.link_support) + (
    part_markup_kind_list(v.markup_kind_list) + (part_triggers(v.triggers) + part_resolve_provider(
        v.resolve_provider,
    ))))))
}

/// The final field list of a record declaration: the injected fixed
/// fields in the fixed order, then the declared fields in their original
/// order.
pub open spec fn spec_synthesize(
    v: AttributeSpecificationView,
    declared: Seq<DeclaredFieldView>,
) -> Seq<SynthesizedFieldView> {
    fixed_fields(v) + declared.map_values(|f: DeclaredFieldView| declared_field(f))
}

/// Builds a documentation string from its fixed prefix, the recorded
/// option text, and its fixed suffix.
fn make_doc(prefix: &str, text: &String, suffix: &str) -> (r: String)
    ensures
        r@ == prefix@ + text@ + suffix@,
{
    let mut s = String::from_str(prefix);
    s.append(text.as_str());
    s.append(suffix);
    s
}

/// Appends the fixed field the document-selector flag injects.
fn push_selector(out: &mut Vec<SynthesizedField>, on: bool)
    ensures
        synth_views(final(out)@) == synth_views(old(out)@) + when(on, selector_field()),
{
    if on {
        out.push(
            SynthesizedField {
                name: String::from_str("document_selector"),
                ty: FieldType::Selector,
                doc: String::from_str(
                    "Identifies the scope of the registration.\n\nIf `Option::None`, `DocumentSelector` provided by client will be used.",
                ),
                elective: false,
            },
        );
    }
    proof {
        assert(synth_views(out@) =~= synth_views(old(out)@) + when(on, selector_field()));
    }
}

/// Appends the fixed field the static-registration flag injects.
fn push_static_registration(out: &mut Vec<SynthesizedField>, on: bool)
    ensures
        synth_views(final(out)@) == synth_views(old(out)@) + when(on, static_registration_field()),
{
    if on {
        out.push(
            SynthesizedField {
                name: String::from_str("id"),
                ty: FieldType::ElectiveString,
                doc: String::from_str("The id used to register the request."),
                elective: true,
            },
        );
    }
    proof {
        assert(synth_views(out@) =~= synth_views(old(out)@) + when(
            on,
            static_registration_field(),
        ));
    }
}

/// Appends the fixed field a recorded dynamic-registration option
/// injects.
fn push_dynamic_registration(out: &mut Vec<SynthesizedField>, o: &Option<String>)
    ensures
        synth_views(final(out)@) == synth_views(old(out)@) + part_dynamic_registration(
            crate::attr::opt_view(*o),
        ),
{
    match o {
        Some(x) => {
            let doc = make_doc("Supports dynamic registration of the ", x, ".");
            out.push(
                SynthesizedField {
                    name: String::from_str("dynamic_registration"),
                    ty: FieldType::Boolean,
                    doc,
                    elective: false,
                },
            );
        },
        None => {},
    }
    proof {
        assert(synth_views(out@) =~= synth_views(old(out)@) + part_dynamic_registration(
            crate::attr::opt_view(*o),
        ));
    }
}

/// Appends the fixed field a recorded link-support option injects.
fn push_link_support(out: &mut Vec<SynthesizedField>, o: &Option<String>)
    ensures
        synth_views(final(out)@) == synth_views(old(out)@) + part_link_support(
            crate::attr::opt_view(*o),
        ),
{
    match o {
        Some(x) => {
            let doc = make_doc("Supports additional metadata in the form of ", x, " links.");
            out.push(
                SynthesizedField {
                    name: String::from_str("link_support"),
                    ty: FieldType::Boolean,
                    doc,
                    elective: false,
                },
            );
        },
        None => {},
    }
    proof {
        assert(synth_views(out@) =~= synth_views(old(out)@) + part_link_support(
            crate::attr::opt_view(*o),
        ));
    }
}

/// Appends the fixed field a recorded markup-kind-list option injects.
fn push_markup_kind_list(out: &mut Vec<SynthesizedField>, o: &Option<String>)
    ensures
        synth_views(final(out)@) == synth_views(old(out)@) + part_markup_kind_list(
            crate::attr::opt_view(*o),
        ),
{
    match o {
        Some(p) => {
            let doc = make_doc("Preferred formats for the ", p, " property, most preferred first.");
            let mut name = p.clone();
            name.append("_format");
            out.push(SynthesizedField { name, ty: FieldType::MarkupKindList, doc, elective: false });
        },
        None => {},
    }
    proof {
        assert(synth_views(out@) =~= synth_views(old(out)@) + part_markup_kind_list(
            crate::attr::opt_view(*o),
        ));
    }
}

/// Appends the fixed field a recorded triggers option injects.
fn push_triggers(out: &mut Vec<SynthesizedField>, o: &Option<String>)
    ensures
        synth_views(final(out)@) == synth_views(old(out)@) + part_triggers(
            crate::attr::opt_view(*o),
        ),
{
    match o {
        Some(x) => {
            let doc = make_doc("Characters that trigger ", x, " automatically.");
            out.push(
                SynthesizedField {
                    name: String::from_str("trigger_characters"),
                    ty: FieldType::StringList,
                    doc,
                    elective: false,
                },
            );
        },
        None => {},
    }
    proof {
        assert(synth_views(out@) =~= synth_views(old(out)@) + part_triggers(
            crate::attr::opt_view(*o),
        ));
    }
}

/// Appends the fixed field a recorded resolve-provider option injects.
fn push_resolve_provider(out: &mut Vec<SynthesizedField>, o: &Option<String>)
    ensures
        synth_views(final(out)@) == synth_views(old(out)@) + part_resolve_provider(
            crate::attr::opt_view(*o),
        ),
{
    match o {
        Some(x) => {
            let doc = make_doc(
                "Provides support to resolve additional information for an ",
                x,
                " item.",
            );
            out.push(
                SynthesizedField {
                    name: String::from_str("resolve_provider"),
                    ty: FieldType::Boolean,
                    doc,
                    elective: false,
                },
            );
        },
        None => {},
    }
    proof {
        assert(synth_views(out@) =~= synth_views(old(out)@) + part_resolve_provider(
            crate::attr::opt_view(*o),
        ));
    }
}

/// Builds the fixed fields a specification injects, in the fixed order,
/// each with its synthesized documentation.
#[verifier::rlimit(100)]
fn synthesize_fixed(spec: &AttributeSpecification) -> (out: Vec<SynthesizedField>)
    ensures
        synth_views(out@) == fixed_fields(spec@),
{
    let mut out: Vec<SynthesizedField> = Vec::new();
    proof {
        assert(synth_views(out@) =~= Seq::<SynthesizedFieldView>::empty());
    }
    push_selector(&mut out, spec.has_document_selector);
    push_static_registration(&mut out, spec.has_static_registration);
    push_dynamic_registration(&mut out, &spec.dynamic_registration);
    push_link_support(&mut out, &spec.link_support);
    push_markup_kind_list(&mut out, &spec.markup_kind_list);
    push_triggers(&mut out, &spec.triggers);
    push_resolve_provider(&mut out, &spec.resolve_provider);
    proof {
        assert(synth_views(out@) =~= fixed_fields(spec@));
    }
    out
}

/// Synthesizes the final field list of a record declaration from its
/// validated specification and its declared fields: the fixed fields each
/// present option injects, in the fixed order and with their synthesized
/// documentation, then the declared fields in their original order, each
/// elective field carrying the elective serialization directive.
pub fn synthesize(spec: &AttributeSpecification, declared: &Vec<DeclaredField>) -> (out: Vec<
    SynthesizedField,
>)
    ensures
        synth_views(out@) == spec_synthesize(spec@, declared_views(declared@)),
{
    let mut out = synthesize_fixed(spec);
    let ghost fixed = synth_views(out@);
    let ghost n0 = out@.len();
    let mut i: usize = 0;
    while i < declared.len()
        invariant
            i <= declared@.len(),
            fixed == fixed_fields(spec@),
            n0 == fixed.len(),
            out@.len() == n0 + i,
            synth_views(out@).subrange(0, n0 as int) =~= fixed,
            forall|k: int|
                0 <= k < i ==> (#[trigger] out@[n0 + k])@ == declared_field(declared@[k]@),
        decreases declared@.len() - i,
    {
        let f = &declared[i];
        out.push(
            SynthesizedField {
                name: f.name.clone(),
                ty: FieldType::Declared(f.ty.clone()),
                doc: String::new(),
                elective: f.elective,
            },
        );
        proof {
            assert(synth_views(out@).subrange(0, n0 as int) =~= fixed);
        }
        i += 1;
    }
    proof {
        let dv = declared_views(declared@);
        let m = dv.map_values(|f: DeclaredFieldView| declared_field(f));
        assert forall|j: int| n0 <= j < out@.len() implies (#[trigger] synth_views(out@)[j]) == m[j
            - n0] by {
            assert(out@[n0 + (j - n0)]@ == declared_field(declared@[j - n0]@));
        }
        assert(synth_views(out@) =~= fixed + m);
    }
    out
}

/// One declared variant of a sum-type declaration: its identifier, the
/// payload shape of its associated data if it carries any, and its
/// explicit numeric discriminant if the declaration gives one.
#[derive(Debug, Clone, PartialEq)]
pub struct VariantDecl {
    /// The variant's identifier.
    pub name: String,
    /// The payload shape of a data-carrying variant; a unit variant has
    /// none.
    pub payload: Option<PayloadShape>,
    /// An explicit numeric discriminant, if one was written.
    pub discriminant: Option<u8>,
}

/// The mathematical value of a [`VariantDecl`].
#[verifier::ext_equal]
pub struct VariantDeclView {
    /// The variant's identifier.
    pub name: Seq<char>,
    /// The payload shape of a data-carrying variant.
    pub payload: Option<PayloadShape>,
    /// An explicit numeric discriminant.
    pub discriminant: Option<u8>,
}

impl View for VariantDecl {
    type V = VariantDeclView;

    open spec fn view(&self) -> VariantDeclView {
        VariantDeclView {
            name: self.name@,
            payload: self.payload,
            discriminant: self.discriminant,
        }
    }
}

/// The views of a variant list.
pub open spec fn variant_views(vs: Seq<VariantDecl>) -> Seq<VariantDeclView> {
    vs.map_values(|v: VariantDecl| v@)
}

/// A fatal error in a sum-type declaration's annotation: the only marker
/// it may carry is `number`.
#[derive(Debug, Clone, Copy, PartialEq, Eq, Structural)]
pub enum KindMarkerError {
    /// A token that is not the `number` marker.
    UnsupportedToken,
}

/// One run of the marker scan: every token must be the `number`
/// identifier, and the marker is set when at least one occurs.
pub open spec fn parse_kind_from(tokens: Seq<TokenView>, number: bool) -> Result<
    bool,
    KindMarkerError,
>
    decreases tokens.len(),
{
    if tokens.len() == 0 {
        Ok(number)
    } else {
        match tokens[0] {
            TokenView::Ident(name) => if name == "number"@ {
                parse_kind_from(tokens.drop_first(), true)
            } else {
                Err(KindMarkerError::UnsupportedToken)
            },
            _ => Err(KindMarkerError::UnsupportedToken),
        }
    }
}

/// What parsing a sum-type declaration's annotation tokens yields:
/// whether the `number` marker is present, or an error on any other
/// token.
pub open spec fn spec_parse_kind(tokens: Seq<TokenView>) -> Result<bool, KindMarkerError> {
    parse_kind_from(tokens, false)
}

/// Parses the annotation tokens of a sum-type declaration: the `number`
/// marker selects numeric tagging, and any other token is a fatal error.
pub fn parse_kind_marker(tokens: &Vec<Token>) -> (r: Result<bool, KindMarkerError>)
    ensures
        r == spec_parse_kind(token_views(tokens@)),
{
    let mut number = false;
    let mut i: usize = 0;
    proof {
        assert(token_views(tokens@).skip(0) =~= token_views(tokens@));
    }
    while i < tokens.len()
        invariant
            i <= tokens@.len(),
            spec_parse_kind(token_views(tokens@)) == parse_kind_from(
                token_views(tokens@).skip(i as int),
                number,
            ),
        decreases tokens@.len() - i,
    {
        proof {
            assert(token_views(tokens@).skip(i as int)[0] == tokens@[i as int]@);
            assert(token_views(tokens@).skip(i as int).drop_first() =~= token_views(
                tokens@,
            ).skip(i as int + 1));
        }
        match &tokens[i] {
            Token::Ident(name) => {
                if *name == String::from_str("number") {
                    number = true;
                } else {
                    return Err(KindMarkerError::UnsupportedToken);
                }
            },
            _ => {
                return Err(KindMarkerError::UnsupportedToken);
            },
        }
        i += 1;
    }
    proof {
        assert(token_views(tokens@).skip(tokens@.len() as int) =~= Seq::<TokenView>::empty());
    }
    Ok(number)
}

/// The dispatch strategy of a sum-type declaration.
#[derive(Debug, Clone, Copy, PartialEq, Eq, Structural)]
pub enum DispatchShape {
    /// Each unit variant is one of a run of consecutive integers starting
    /// at this base.
    Numeric(u8),
    /// Each unit variant is the lowerCamelCase token of its identifier.
    StringTagged,
    /// Variants carry data: each value is decoded by trying every
    /// variant's own shape in declaration order.
    Untagged,
}

/// Every variant is a unit, with no associated data.
pub open spec fn all_unit(vs: Seq<VariantDeclView>) -> bool {
    forall|i: int| 0 <= i < vs.len() ==> (#[trigger] vs[i].payload) is None
}

/// The first explicit discriminant in declaration order, or zero when no
/// variant gives one.
pub open spec fn first_discriminant(vs: Seq<VariantDeclView>) -> u8
    decreases vs.len(),
{
    if vs.len() == 0 {
        0
    } else {
        match vs[0].discriminant {
            Some(d) => d,
            None => first_discriminant(vs.drop_first()),
        }
    }
}

/// Which dispatch shape a declaration gets: numeric when the `number`
/// marker is present, with the base taken from the first explicit
/// discriminant (zero if none); string tagging when every variant is a
/// unit; untagged one-of dispatch otherwise.
pub open spec fn spec_choose_dispatch(number: bool, vs: Seq<VariantDeclView>) -> DispatchShape {
    if number {
        DispatchShape::Numeric(first_discriminant(vs))
    } else if all_unit(vs) {
        DispatchShape::StringTagged
    } else {
        DispatchShape::Untagged
    }
}

/// Picks the dispatch shape of a sum-type declaration from its marker and
/// its declared variants.
pub fn choose_dispatch(number: bool, variants: &Vec<VariantDecl>) -> (r: DispatchShape)
    ensures
        r == spec_choose_dispatch(number, variant_views(variants@)),
{
    let ghost vs = variant_views(variants@);
    if number {
        let mut i: usize = 0;
        proof {
            assert(vs.skip(0) =~= vs);
        }
        while i < variants.len()
            invariant
                number,
                i <= variants@.len(),
                vs == variant_views(variants@),
                first_discriminant(vs) == first_discriminant(vs.skip(i as int)),
            decreases variants@.len() - i,
        {
            proof {
                assert(vs.skip(i as int)[0] == variants@[i as int]@);
                assert(vs.skip(i as int).drop_first() =~= vs.skip(i as int + 1));
            }
            let d = variants[i].discriminant;
            proof {
                assert(d == vs[i as int].discriminant);
            }
            match d {
                Some(d) => {
                    proof {
                        assert(first_discriminant(vs.skip(i as int)) == d);
                    }
                    return DispatchShape::Numeric(d);
                },
                None => {},
            }
            i += 1;
        }
        proof {
            assert(vs.skip(variants@.len() as int) =~= Seq::<VariantDeclView>::empty());
        }
        DispatchShape::Numeric(0)
    } else {
        let mut i: usize = 0;
        while i < variants.len()
            invariant
                !number,
                i <= variants@.len(),
                vs == variant_views(variants@),
                forall|k: int| 0 <= k < i ==> (#[trigger] vs[k].payload) is None,
            decreases variants@.len() - i,
        {
            proof {
                assert(vs[i as int] == variants@[i as int]@);
            }
            let p = variants[i].payload;
            proof {
                assert(p == vs[i as int].payload);
            }
            match p {
                Some(_) => {
                    proof {
                        assert(vs[i as int].payload is Some);
                        assert(!all_unit(vs));
                    }
                    return DispatchShape::Untagged;
                },
                None => {},
            }
            i += 1;
        }
        DispatchShape::StringTagged
    }
}

/// The integer assigned to the variant at a position: consecutive from
/// the base.
pub open spec fn numeric_tag(base: u8, i: int) -> int {
    base + i
}

/// A runtime error in decoding a sum-type value.
#[derive(Debug, Clone, Copy, PartialEq, Eq, Structural)]
pub enum VariantError {
    /// The integer maps to no variant of the declaration.
    UnknownTag,
    /// The string token is no variant's wire token.
    UnknownToken,
    /// No variant's shape matches the payload.
    NoVariantMatches,
}

/// The integer a numeric-tagged variant serializes as.
pub fn encode_numeric(base: u8, index: usize, count: usize) -> (tag: u64)
    requires
        index < count,
        base as int + count as int <= 256,
    ensures
        tag == numeric_tag(base, index as int),
{
    base as u64 + index as u64
}

/// Decodes a numeric tag: the value succeeds exactly when it lies in the
/// assigned run, and then names the variant at its offset from the base.
pub fn decode_numeric(base: u8, count: usize, value: i64) -> (r: Result<usize, VariantError>)
    requires
        base as int + count as int <= 256,
    ensures
        match r {
            Ok(i) => i < count && value == numeric_tag(base, i as int),
            Err(e) => e == VariantError::UnknownTag && !(base as int <= value < base as int
                + count as int),
        },
{
    if value >= base as i64 && value < base as i64 + count as i64 {
        Ok((value - base as i64) as usize)
    } else {
        Err(VariantError::UnknownTag)
    }
}

/// The wire token of a string-tagged variant: the lowerCamelCase
/// transform of its identifier.
pub fn wire_token(v: &VariantDecl) -> (r: String)
    ensures
        r@ == camel_case(v.name@),
{
    crate::text::wire_name(v.name.as_str())
}

/// The position of the first variant whose wire token is the given one.
pub open spec fn spec_find_token(vs: Seq<VariantDeclView>, token: Seq<char>) -> Option<int>
    decreases vs.len(),
{
    if vs.len() == 0 {
        None
    } else if camel_case(vs[0].name) == token {
        Some(0)
    } else {
        match spec_find_token(vs.drop_first(), token) {
            Some(i) => Some(i + 1),
            None => None,
        }
    }
}

/// When no variant before a position matches, the search result is the
/// search over the rest, shifted by the position.
proof fn lemma_find_token_skip(vs: Seq<VariantDeclView>, token: Seq<char>, i: int)
    requires
        0 <= i <= vs.len(),
        forall|k: int| 0 <= k < i ==> camel_case((#[trigger] vs[k]).name) != token,
    ensures
        spec_find_token(vs, token) == (match spec_find_token(vs.skip(i), token) {
            Some(j) => Some(i + j),
            None => None::<int>,
        }),
    decreases i,
{
    if i == 0 {
        assert(vs.skip(0) =~= vs);
    } else {
        assert(camel_case(vs[0].name) != token);
        assert(forall|k: int|
            0 <= k < i - 1 ==> camel_case((#[trigger] vs.drop_first()[k]).name) != token) by {
            assert(forall|k: int| 0 <= k < i - 1 ==> vs.drop_first()[k] == vs[k + 1]);
        }
        lemma_find_token_skip(vs.drop_first(), token, i - 1);
        assert(vs.drop_first().skip(i - 1) =~= vs.skip(i));
    }
}

/// Decodes a string tag: finds the first variant whose wire token is the
/// given one, and fails exactly when there is none.
pub fn decode_string_tag(variants: &Vec<VariantDecl>, token: &String) -> (r: Result<
    usize,
    VariantError,
>)
    ensures
        match r {
            Ok(i) => spec_find_token(variant_views(variants@), token@) == Some(i as int),
            Err(e) => e == VariantError::UnknownToken && spec_find_token(
                variant_views(variants@),
                token@,
            ) is None,
        },
{
    let ghost vs = variant_views(variants@);
    let mut i: usize = 0;
    while i < variants.len()
        invariant
            i <= variants@.len(),
            vs == variant_views(variants@),
            forall|k: int| 0 <= k < i ==> camel_case((#[trigger] vs[k]).name) != token@,
        decreases variants@.len() - i,
    {
        proof {
            assert(vs[i as int] == variants@[i as int]@);
        }
        let w = wire_token(&variants[i]);
        if w == *token {
            proof {
                lemma_find_token_skip(vs, token@, i as int);
                assert(vs.skip(i as int)[0] == vs[i as int]);
                assert(spec_find_token(vs.skip(i as int), token@) == Some(0int));
            }
            return Ok(i);
        }
        i += 1;
    }
    proof {
        lemma_find_token_skip(vs, token@, vs.len() as int);
        assert(vs.skip(vs.len() as int) =~= Seq::<VariantDeclView>::empty());
    }
    Err(VariantError::UnknownToken)
}

/// Whether a payload parses as one variant: a data-carrying variant
/// accepts what its shape accepts, and a unit variant accepts exactly the
/// null value.
pub open spec fn variant_matches(v: VariantDeclView, j: JsonView) -> bool {
    match v.payload {
        Some(s) => shape_matches(s, j),
        None => j is Null,
    }
}

/// The position of the first variant whose shape the payload parses
/// under.
pub open spec fn spec_first_match(vs: Seq<VariantDeclView>, j: JsonView) -> Option<int>
    decreases vs.len(),
{
    if vs.len() == 0 {
        None
    } else if variant_matches(vs[0], j) {
        Some(0)
    } else {
        match spec_first_match(vs.drop_first(), j) {
            Some(i) => Some(i + 1),
            None => None,
        }
    }
}

/// When no variant before a position matches, the search result is the
/// search over the rest, shifted by the position.
proof fn lemma_first_match_skip(vs: Seq<VariantDeclView>, j: JsonView, i: int)
    requires
        0 <= i <= vs.len(),
        forall|k: int| 0 <= k < i ==> !variant_matches(#[trigger] vs[k], j),
    ensures
        spec_first_match(vs, j) == (match spec_first_match(vs.skip(i), j) {
            Some(k) => Some(i + k),
            None => None::<int>,
        }),
    decreases i,
{
    if i == 0 {
        assert(vs.skip(0) =~= vs);
    } else {
        assert(!variant_matches(vs[0], j));
        assert(forall|k: int| 0 <= k < i - 1 ==> !variant_matches(#[trigger] vs.drop_first()[k], j))
            by {
            assert(forall|k: int| 0 <= k < i - 1 ==> vs.drop_first()[k] == vs[k + 1]);
        }
        lemma_first_match_skip(vs.drop_first(), j, i - 1);
        assert(vs.drop_first().skip(i - 1) =~= vs.skip(i));
    }
}

/// Whether a payload parses as one variant.
pub fn variant_accepts(v: &VariantDecl, j: &Json) -> (r: bool)
    ensures
        r == variant_matches(v@, j@),
{
    match v.payload {
        Some(s) => shape_accepts(s, j),
        None => matches!(j, Json::Null),
    }
}

/// Decodes an untagged one-of value: tries each variant's shape against
/// the payload in declaration order and accepts the first that parses,
/// failing exactly when none matches, with no default fallback.
pub fn decode_untagged(variants: &Vec<VariantDecl>, payload: &Json) -> (r: Result<
    usize,
    VariantError,
>)
    ensures
        match r {
            Ok(i) => spec_first_match(variant_views(variants@), payload@) == Some(i as int),
            Err(e) => e == VariantError::NoVariantMatches && spec_first_match(
                variant_views(variants@),
                payload@,
            ) is None,
        },
{
    let ghost vs = variant_views(variants@);
    let mut i: usize = 0;
    while i < variants.len()
        invariant
            i <= variants@.len(),
            vs == variant_views(variants@),
            forall|k: int| 0 <= k < i ==> !variant_matches(#[trigger] vs[k], payload@),
        decreases variants@.len() - i,
    {
        proof {
            assert(vs[i as int] == variants@[i as int]@);
        }
        if variant_accepts(&variants[i], payload) {
            proof {
                lemma_first_match_skip(vs, payload@, i as int);
                assert(vs.skip(i as int)[0] == vs[i as int]);
                assert(spec_first_match(vs.skip(i as int), payload@) == Some(0int));
            }
            return Ok(i);
        }
        i += 1;
    }
    proof {
        lemma_first_match_skip(vs, payload@, vs.len() as int);
        assert(vs.skip(vs.len() as int) =~= Seq::<VariantDeclView>::empty());
    }
    Err(VariantError::NoVariantMatches)
}

/// The payload shape of a synthesized field's semantic type: lists of
/// markup kinds and of strings are list-shaped, capability flags are
/// boolean, the registration id is a string, and the nullable selector
/// placeholder and a declared type are left unconstrained.
pub open spec fn spec_field_shape(ty: FieldTypeView) -> PayloadShape {
    match ty {
        FieldTypeView::Selector => PayloadShape::Any,
        FieldTypeView::ElectiveString => PayloadShape::Text,
        FieldTypeView::Boolean => PayloadShape::Boolean,
        FieldTypeView::MarkupKindList => PayloadShape::List,
        FieldTypeView::StringList => PayloadShape::List,
        FieldTypeView::Declared(_) => PayloadShape::Any,
    }
}

/// The codec schema entry of one synthesized field: its wire name, its
/// shape, and its elective directive.
pub open spec fn spec_field_schema(f: SynthesizedFieldView) -> crate::codec::FieldSchemaView {
    crate::codec::FieldSchemaView {
        wire_name: camel_case(f.name),
        shape: spec_field_shape(f.ty),
        elective: f.elective,
    }
}

/// The serialization schema of a synthesized field list, one entry per
/// field in order.
pub open spec fn spec_record_schema(fs: Seq<SynthesizedFieldView>) -> Seq<
    crate::codec::FieldSchemaView,
> {
    fs.map_values(|f: SynthesizedFieldView| spec_field_schema(f))
}

/// Builds the runtime codec schema of a synthesized field list: the
/// record serializes and deserializes through this schema under the
/// elective value contract.
pub fn record_schema(fields: &Vec<SynthesizedField>) -> (out: Vec<crate::codec::FieldSchema>)
    ensures
        crate::codec::schema_views(out@) == spec_record_schema(synth_views(fields@)),
{
    let mut out: Vec<crate::codec::FieldSchema> = Vec::new();
    let mut i: usize = 0;
    while i < fields.len()
        invariant
            i <= fields@.len(),
            out@.len() == i,
            forall|k: int|
                0 <= k < i ==> (#[trigger] out@[k])@ == spec_field_schema(fields@[k]@),
        decreases fields@.len() - i,
    {
        let f = &fields[i];
        let shape = match &f.ty {
            FieldType::Selector => PayloadShape::Any,
            FieldType::ElectiveString => PayloadShape::Text,
            FieldType::Boolean => PayloadShape::Boolean,
            FieldType::MarkupKindList => PayloadShape::List,
            FieldType::StringList => PayloadShape::List,
            FieldType::Declared(_) => PayloadShape::Any,
        };
        let entry = crate::codec::FieldSchema {
            wire_name: f.wire(),
            shape,
            elective: f.elective,
        };
        out.push(entry);
        i += 1;
    }
    proof {
        assert(crate::codec::schema_views(out@) =~= spec_record_schema(synth_views(fields@)));
    }
    out
}

/// First-token-wins: the string-tag search yields the position of the
/// first variant whose wire token is the given one, and fails exactly
/// when no variant's token matches.
pub proof fn lemma_find_token_is_first(vs: Seq<VariantDeclView>, token: Seq<char>)
    ensures
        match spec_find_token(vs, token) {
            Some(i) => 0 <= i < vs.len() && camel_case(vs[i].name) == token && forall|k: int|
                0 <= k < i ==> camel_case((#[trigger] vs[k]).name) != token,
            None => forall|k: int|
                0 <= k < vs.len() ==> camel_case((#[trigger] vs[k]).name) != token,
        },
    decreases vs.len(),
{
    if vs.len() > 0 {
        lemma_find_token_is_first(vs.drop_first(), token);
        if camel_case(vs[0].name) != token {
            match spec_find_token(vs.drop_first(), token) {
                Some(ti) => {
                    assert(vs[ti + 1] == vs.drop_first()[ti]);
                    assert forall|k: int| 0 <= k < ti + 1 implies camel_case(
                        (#[trigger] vs[k]).name,
                    ) != token by {
                        if k > 0 {
                            assert(vs[k] == vs.drop_first()[k - 1]);
                        }
                    }
                },
                None => {
                    assert forall|k: int| 0 <= k < vs.len() implies camel_case(
                        (#[trigger] vs[k]).name,
                    ) != token by {
                        if k > 0 {
                            assert(vs[k] == vs.drop_first()[k - 1]);
                        }
                    }
                },
            }
        }
    }
}

/// First-success-wins: untagged dispatch yields the position of the first
/// variant whose shape the payload parses under, and fails exactly when
/// no variant matches, with no default fallback.
pub proof fn lemma_first_match_is_first(vs: Seq<VariantDeclView>, j: JsonView)
    ensures
        match spec_first_match(vs, j) {
            Some(i) => 0 <= i < vs.len() && variant_matches(vs[i], j) && forall|k: int|
                0 <= k < i ==> !variant_matches(#[trigger] vs[k], j),
            None => forall|k: int| 0 <= k < vs.len() ==> !variant_matches(#[trigger] vs[k], j),
        },
    decreases vs.len(),
{
    if vs.len() > 0 {
        lemma_first_match_is_first(vs.drop_first(), j);
        if !variant_matches(vs[0], j) {
            match spec_first_match(vs.drop_first(), j) {
                Some(ti) => {
                    assert(vs[ti + 1] == vs.drop_first()[ti]);
                    assert forall|k: int| 0 <= k < ti + 1 implies !variant_matches(
                        #[trigger] vs[k],
                        j,
                    ) by {
                        if k > 0 {
                            assert(vs[k] == vs.drop_first()[k - 1]);
                        }
                    }
                },
                None => {
                    assert forall|k: int| 0 <= k < vs.len() implies !variant_matches(
                        #[trigger] vs[k],
                        j,
                    ) by {
                        if k > 0 {
                            assert(vs[k] == vs.drop_first()[k - 1]);
                        }
                    }
                },
            }
        }
    }
}

} // verus!