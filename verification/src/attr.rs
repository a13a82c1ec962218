//! The annotation parser.
//!
//! A record declaration carries an annotation token sequence that selects
//! boolean flags (`allow_missing`, `document_selector`,
//! `static_registration`) and value-options (`dynamic_registration`,
//! `link_support`, `markup_kind_list`, `triggers`, `resolve_provider`),
//! each value-option being followed by a literal holding its text. Parsing
//! runs a small state machine: while scanning, an identifier either sets a
//! flag, moves to the awaiting-value state of a value-option, or is a fatal
//! unsupported-option error; other tokens are ignored. While awaiting a
//! value, a literal records its de-quoted text and returns to scanning;
//! other tokens are ignored. Ending while a value is still awaited is a
//! fatal missing-value error. Names match by exact, case-sensitive text,
//! and a repeated option overwrites the earlier occurrence.

use vstd::prelude::*;
use vstd::string::*;

verus! {

/// One token of an annotation sequence attached to a type declaration.
#[derive(Debug, Clone, PartialEq)]
pub enum Token {
    /// An identifier token, with its text.
    Ident(String),
    /// A literal token, with its source text, quotes included.
    Literal(String),
    /// Any other token: punctuation or grouping. The parser ignores these.
    Other,
}

/// The mathematical value of a [`Token`].
pub enum TokenView {
    /// An identifier token.
    Ident(Seq<char>),
    /// A literal token, quotes included.
    Literal(Seq<char>),
    /// Punctuation or grouping.
    Other,
}

impl View for Token {
    type V = TokenView;

    open spec fn view(&self) -> TokenView {
        match self {
            Token::Ident(s) => TokenView::Ident(s@),
            Token::Literal(s) => TokenView::Literal(s@),
            Token::Other => TokenView::Other,
        }
    }
}

/// The views of a token sequence.
pub open spec fn token_views(ts: Seq<Token>) -> Seq<TokenView> {
    ts.map_values(|t: Token| t@)
}

/// The options that take a value: each injects one fixed field whose
/// documentation is synthesized from the recorded text.
#[derive(Debug, Clone, Copy, PartialEq, Eq, Structural)]
pub enum ValueOption {
    /// Injects the `dynamic_registration` field.
    DynamicRegistration,
    /// Injects the `link_support` field.
    LinkSupport,
    /// Injects the markup-kind-list field named after the property.
    MarkupKindList,
    /// Injects the `trigger_characters` field.
    Triggers,
    /// Injects the `resolve_provider` field.
    ResolveProvider,
}

/// The parser's state: scanning for the next option, or awaiting the value
/// of the value-option just named.
#[derive(Debug, Clone, Copy, PartialEq, Eq, Structural)]
pub enum AttributeParserState {
    /// Scanning for an option name. This is the initial state and the only
    /// state in which the token stream may end.
    ScanningOption,
    /// An option name was consumed; the next literal carries its value.
    AwaitingValue(ValueOption),
}

impl AttributeParserState {
    /// True exactly when a value-option still awaits its value.
    pub fn is_searching_for_value(&self) -> (r: bool)
        ensures
            r == (self is AwaitingValue),
    {
        match self {
            AttributeParserState::ScanningOption => false,
            AttributeParserState::AwaitingValue(_) => true,
        }
    }
}

/// The validated description of the annotations on one type declaration:
/// three boolean flags and the recorded text of each value-option that
/// occurred.
#[derive(Debug, Clone, PartialEq)]
pub struct AttributeSpecification {
    /// The whole record deserializes even when no properties are present.
    pub allow_missing: bool,
    /// Inject the fixed document-selector field.
    pub has_document_selector: bool,
    /// Inject the fixed registration-id field.
    pub has_static_registration: bool,
    /// Text describing what may be registered dynamically.
    pub dynamic_registration: Option<String>,
    /// Text describing what the links point at.
    pub link_support: Option<String>,
    /// The name of the property whose markup formats are listed.
    pub markup_kind_list: Option<String>,
    /// Text describing what the characters trigger.
    pub triggers: Option<String>,
    /// Text describing the item kind that can be resolved.
    pub resolve_provider: Option<String>,
}

/// The mathematical value of an [`AttributeSpecification`].
#[verifier::ext_equal]
pub struct AttributeSpecificationView {
    /// The record-level default flag.
    pub allow_missing: bool,
    /// The document-selector flag.
    pub has_document_selector: bool,
    /// The static-registration flag.
    pub has_static_registration: bool,
    /// The recorded dynamic-registration text.
    pub dynamic_registration: Option<Seq<char>>,
    /// The recorded link-support text.
    pub link_support: Option<Seq<char>>,
    /// The recorded markup-kind-list property name.
    pub markup_kind_list: Option<Seq<char>>,
    /// The recorded triggers text.
    pub triggers: Option<Seq<char>>,
    /// The recorded resolve-provider text.
    pub resolve_provider: Option<Seq<char>>,
}

/// The view of an optional string.
pub open spec fn opt_view(o: Option<String>) -> Option<Seq<char>> {
    match o {
        Some(s) => Some(s@),
        None => None,
    }
}

impl View for AttributeSpecification {
    type V = AttributeSpecificationView;

    open spec fn view(&self) -> AttributeSpecificationView {
        AttributeSpecificationView {
            allow_missing: self.allow_missing,
            has_document_selector: self.has_document_selector,
            has_static_registration: self.has_static_registration,
            dynamic_registration: opt_view(self.dynamic_registration),
            link_support: opt_view(self.link_support),
            markup_kind_list: opt_view(self.markup_kind_list),
            triggers: opt_view(self.triggers),
            resolve_provider: opt_view(self.resolve_provider),
        }
    }
}

impl AttributeSpecification {
    /// The specification with no flags set and no value-options recorded.
    pub fn empty() -> (r: Self)
        ensures
            r@ == empty_specification(),
    {
        AttributeSpecification {
            allow_missing: false,
            has_document_selector: false,
            has_static_registration: false,
            dynamic_registration: None,
            link_support: None,
            markup_kind_list: None,
            triggers: None,
            resolve_provider: None,
        }
    }
}

/// The specification with no flags set and no value-options recorded.
pub open spec fn empty_specification() -> AttributeSpecificationView {
    AttributeSpecificationView {
        allow_missing: false,
        has_document_selector: false,
        has_static_registration: false,
        dynamic_registration: None,
        link_support: None,
        markup_kind_list: None,
        triggers: None,
        resolve_provider: None,
    }
}

/// A fatal error in interpreting a declaration's annotations. Both kinds
/// are reported before any code is produced for the declaration.
#[derive(Debug, Clone, PartialEq)]
pub enum SpecificationError {
    /// An identifier that names no flag and no value-option, carried as the
    /// offending text.
    UnsupportedOption(String),
    /// The token stream ended while this value-option awaited its value.
    MissingValue(ValueOption),
}

/// The mathematical value of a [`SpecificationError`].
pub enum SpecificationErrorView {
    /// An identifier that names no option.
    UnsupportedOption(Seq<char>),
    /// The stream ended while this value-option awaited its value.
    MissingValue(ValueOption),
}

impl View for SpecificationError {
    type V = SpecificationErrorView;

    open spec fn view(&self) -> SpecificationErrorView {
        match self {
            SpecificationError::UnsupportedOption(s) => {
                SpecificationErrorView::UnsupportedOption(s@)
            },
            SpecificationError::MissingValue(o) => SpecificationErrorView::MissingValue(*o),
        }
    }
}

/// The literal's text with every quote character removed.
pub open spec fn spec_strip_quotes(s: Seq<char>) -> Seq<char>
    decreases s.len(),
{
    if s.len() == 0 {
        Seq::empty()
    } else if s[0] == '"' {
        spec_strip_quotes(s.drop_first())
    } else {
        seq![s[0]] + spec_strip_quotes(s.drop_first())
    }
}

/// Removes every quote character from a literal's source text.
pub fn strip_quotes(s: &String) -> (r: String)
    ensures
        r@ == spec_strip_quotes(s@),
{
    let cs = crate::text::chars_of_str(s.as_str());
    let mut out: Vec<char> = Vec::new();
    let mut i: usize = 0;
    proof {
        assert(cs@.skip(0) =~= cs@);
        assert(out@ + spec_strip_quotes(cs@) =~= spec_strip_quotes(cs@));
    }
    while i < cs.len()
        invariant
            i <= cs@.len(),
            spec_strip_quotes(cs@) == out@ + spec_strip_quotes(cs@.skip(i as int)),
        decreases cs@.len() - i,
    {
        proof {
            assert(cs@.skip(i as int)[0] == cs@[i as int]);
            assert(cs@.skip(i as int).drop_first() =~= cs@.skip(i as int + 1));
        }
        let c = cs[i];
        if c != '"' {
            proof {
                assert(out@ + (seq![c] + spec_strip_quotes(cs@.skip(i as int + 1))) =~= (out@
                    + seq![c]) + spec_strip_quotes(cs@.skip(i as int + 1)));
            }
            out.push(c);
        }
        i += 1;
    }
    proof {
        assert(cs@.skip(cs@.len() as int) =~= Seq::<char>::empty());
        assert(out@ + Seq::<char>::empty() =~= out@);
    }
    crate::text::string_from_chars(&out)
}

/// Records a value-option's de-quoted text, overwriting any earlier
/// occurrence.
pub open spec fn record_value(
    acc: AttributeSpecificationView,
    opt: ValueOption,
    text: Seq<char>,
) -> AttributeSpecificationView {
    match opt {
        ValueOption::DynamicRegistration => AttributeSpecificationView {
            dynamic_registration: Some(text),
            ..acc
        },
        ValueOption::LinkSupport => AttributeSpecificationView { link_support: Some(text), ..acc },
        ValueOption::MarkupKindList => AttributeSpecificationView {
            markup_kind_list: Some(text),
            ..acc
        },
        ValueOption::Triggers => AttributeSpecificationView { triggers: Some(text), ..acc },
        ValueOption::ResolveProvider => AttributeSpecificationView {
            resolve_provider: Some(text),
            ..acc
        },
    }
}

/// One run of the state machine from a given state and accumulated
/// specification over the remaining tokens.
pub open spec fn parse_from(
    tokens: Seq<TokenView>,
    state: AttributeParserState,
    acc: AttributeSpecificationView,
) -> Result<AttributeSpecificationView, SpecificationErrorView>
    decreases tokens.len(),
{
    if tokens.len() == 0 {
        match state {
            AttributeParserState::ScanningOption => Ok(acc),
            AttributeParserState::AwaitingValue(opt) => Err(
                SpecificationErrorView::MissingValue(opt),
            ),
        }
    } else {
        let rest = tokens.drop_first();
        match state {
            AttributeParserState::ScanningOption => match tokens[0] {
                TokenView::Ident(name) => {
                    if name == "allow_missing"@ {
                        parse_from(
                            rest,
                            AttributeParserState::ScanningOption,
                            AttributeSpecificationView { allow_missing: true, ..acc },
                        )
                    } else if name == "document_selector"@ {
                        parse_from(
                            rest,
                            AttributeParserState::ScanningOption,
                            AttributeSpecificationView { has_document_selector: true, ..acc },
                        )
                    } else if name == "static_registration"@ {
                        parse_from(
                            rest,
                            AttributeParserState::ScanningOption,
                            AttributeSpecificationView { has_static_registration: true, ..acc },
                        )
                    } else if name == "dynamic_registration"@ {
                        parse_from(
                            rest,
                            AttributeParserState::AwaitingValue(ValueOption::DynamicRegistration),
                            acc,
                        )
                    } else if name == "link_support"@ {
                        parse_from(
                            rest,
                            AttributeParserState::AwaitingValue(ValueOption::LinkSupport),
                            acc,
                        )
                    } else if name == "markup_kind_list"@ {
                        parse_from(
                            rest,
                            AttributeParserState::AwaitingValue(ValueOption::MarkupKindList),
                            acc,
                        )
                    } else if name == "triggers"@ {
                        parse_from(
                            rest,
                            AttributeParserState::AwaitingValue(ValueOption::Triggers),
                            acc,
                        )
                    } else if name == "resolve_provider"@ {
                        parse_from(
                            rest,
                            AttributeParserState::AwaitingValue(ValueOption::ResolveProvider),
                            acc,
                        )
                    } else {
                        Err(SpecificationErrorView::UnsupportedOption(name))
                    }
                },
                _ => parse_from(rest, state, acc),
            },
            AttributeParserState::AwaitingValue(opt) => match tokens[0] {
                TokenView::Literal(text) => parse_from(
                    rest,
                    AttributeParserState::ScanningOption,
                    record_value(acc, opt, spec_strip_quotes(text)),
                ),
                _ => parse_from(rest, state, acc),
            },
        }
    }
}

/// What parsing an annotation token sequence yields: the validated
/// specification, or the first fatal error.
pub open spec fn spec_parse(tokens: Seq<TokenView>) -> Result<
    AttributeSpecificationView,
    SpecificationErrorView,
> {
    parse_from(tokens, AttributeParserState::ScanningOption, empty_specification())
}

/// The view of a parse result.
pub open spec fn parse_result_view(
    r: Result<AttributeSpecification, SpecificationError>,
) -> Result<AttributeSpecificationView, SpecificationErrorView> {
    match r {
        Ok(s) => Ok(s@),
        Err(e) => Err(e@),
    }
}

/// Whether an identifier's text is exactly the given option name.
fn is_named(name: &String, expected: &str) -> (r: bool)
    ensures
        r == (name@ == expected@),
{
    let e = String::from_str(expected);
    *name == e
}

/// Parses the annotation token sequence of one type declaration into its
/// validated specification, or reports the first fatal error: an
/// unsupported option name, or a value-option left without its value.
pub fn parse_attribute_specification(tokens: &Vec<Token>) -> (r: Result<
    AttributeSpecification,
    SpecificationError,
>)
    ensures
        parse_result_view(r) == spec_parse(token_views(tokens@)),
{
    let mut acc = AttributeSpecification::empty();
    let mut state = AttributeParserState::ScanningOption;
    let mut i: usize = 0;
    proof {
        assert(token_views(tokens@).skip(0) =~= token_views(tokens@));
    }
    while i < tokens.len()
        invariant
            i <= tokens@.len(),
            spec_parse(token_views(tokens@)) == parse_from(
                token_views(tokens@).skip(i as int),
                state,
                acc@,
            ),
        decreases tokens@.len() - i,
    {
        proof {
            assert(token_views(tokens@)[i as int] == tokens@[i as int]@);
            assert(token_views(tokens@).skip(i as int)[0] == token_views(tokens@)[i as int]);
            assert(token_views(tokens@).skip(i as int).drop_first() =~= token_views(
                tokens@,
            ).skip(i as int + 1));
        }
        match state {
            AttributeParserState::ScanningOption => {
                match &tokens[i] {
                    Token::Ident(name) => {
                        if is_named(name, "allow_missing") {
                            acc.allow_missing = true;
                        } else if is_named(name, "document_selector") {
                            acc.has_document_selector = true;
                        } else if is_named(name, "static_registration") {
                            acc.has_static_registration = true;
                        } else if is_named(name, "dynamic_registration") {
                            state = AttributeParserState::AwaitingValue(
                                ValueOption::DynamicRegistration,
                            );
                        } else if is_named(name, "link_support") {
                            state = AttributeParserState::AwaitingValue(ValueOption::LinkSupport);
                        } else if is_named(name, "markup_kind_list") {
                            state = AttributeParserState::AwaitingValue(
                                ValueOption::MarkupKindList,
                            );
                        } else if is_named(name, "triggers") {
                            state = AttributeParserState::AwaitingValue(ValueOption::Triggers);
                        } else if is_named(name, "resolve_provider") {
                            state = AttributeParserState::AwaitingValue(
                                ValueOption::ResolveProvider,
                            );
                        } else {
                            return Err(SpecificationError::UnsupportedOption(name.clone()));
                        }
                    },
                    _ => {},
                }
            },
            AttributeParserState::AwaitingValue(opt) => {
                match &tokens[i] {
                    Token::Literal(text) => {
                        let value = strip_quotes(text);
                        match opt {
                            ValueOption::DynamicRegistration => {
                                acc.dynamic_registration = Some(value);
                            },
                            ValueOption::LinkSupport => {
                                acc.link_support = Some(value);
                            },
                            ValueOption::MarkupKindList => {
                                acc.markup_kind_list = Some(value);
                            },
                            ValueOption::Triggers => {
                                acc.triggers = Some(value);
                            },
                            ValueOption::ResolveProvider => {
                                acc.resolve_provider = Some(value);
                            },
                        }
                        state = AttributeParserState::ScanningOption;
                    },
                    _ => {},
                }
            },
        }
        i += 1;
    }
    proof {
        assert(token_views(tokens@).skip(tokens@.len() as int) =~= Seq::<TokenView>::empty());
    }
    match state {
        AttributeParserState::ScanningOption => Ok(acc),
        AttributeParserState::AwaitingValue(opt) => Err(SpecificationError::MissingValue(opt)),
    }
}

/// A text with no quote character, so the de-quoting of its literal leaves
/// it unchanged.
pub open spec fn quote_free(t: Seq<char>) -> bool {
    forall|i: int| 0 <= i < t.len() ==> t[i] != '"'
}

/// A specification whose recorded texts survive requoting: each is free of
/// quote characters.
pub open spec fn wf_specification(v: AttributeSpecificationView) -> bool {
    &&& (v.dynamic_registration matches Some(t) ==> quote_free(t))
    &&& (v.link_support matches Some(t) ==> quote_free(t))
    &&& (v.markup_kind_list matches Some(t) ==> quote_free(t))
    &&& (v.triggers matches Some(t) ==> quote_free(t))
    &&& (v.resolve_provider matches Some(t) ==> quote_free(t))
}

/// A text wrapped in quote characters, as a literal token carries it.
pub open spec fn quoted(t: Seq<char>) -> Seq<char> {
    seq!['"'] + t + seq!['"']
}

/// The tokens a set flag contributes to the canonical rendering.
pub open spec fn flag_tokens(on: bool, name: Seq<char>) -> Seq<TokenView> {
    if on {
        seq![TokenView::Ident(name)]
    } else {
        Seq::empty()
    }
}

/// The tokens a recorded value-option contributes to the canonical
/// rendering: its name and its re-quoted text.
pub open spec fn value_tokens(o: Option<Seq<char>>, name: Seq<char>) -> Seq<TokenView> {
    match o {
        Some(t) => seq![TokenView::Ident(name), TokenView::Literal(quoted(t))],
        None => Seq::empty(),
    }
}

/// The canonical annotation token sequence of a specification: each set
/// flag as an identifier, then each recorded value-option as its name
/// followed by a quoted literal, in the fixed option order.
pub open spec fn specification_token_views(v: AttributeSpecificationView) -> Seq<TokenView> {
    flag_tokens(v.allow_missing, "allow_missing"@) + (flag_tokens(
        v.has_document_selector,
        "document_selector"@,
    ) + (flag_tokens(v.has_static_registration, "static_registration"@) + (value_tokens(
        v.dynamic_registration,
        "dynamic_registration"@,
    ) + (value_tokens(v.link_support, "link_support"@) + (value_tokens(
        v.markup_kind_list,
        "markup_kind_list"@,
    ) + (value_tokens(v.triggers, "triggers"@) + value_tokens(
        v.resolve_provider,
        "resolve_provider"@,
    )))))))
}

/// De-quoting distributes over concatenation.
proof fn lemma_strip_quotes_concat(a: Seq<char>, b: Seq<char>)
    ensures
        spec_strip_quotes(a + b) == spec_strip_quotes(a) + spec_strip_quotes(b),
    decreases a.len(),
{
    if a.len() == 0 {
        assert(a + b =~= b);
        assert(spec_strip_quotes(a) =~= Seq::<char>::empty());
        assert(spec_strip_quotes(a) + spec_strip_quotes(b) =~= spec_strip_quotes(b));
    } else {
        assert((a + b)[0] == a[0]);
        assert((a + b).drop_first() =~= a.drop_first() + b);
        lemma_strip_quotes_concat(a.drop_first(), b);
        if a[0] == '"' {
        } else {
            assert(seq![a[0]] + (spec_strip_quotes(a.drop_first()) + spec_strip_quotes(b)) =~= (
            seq![a[0]] + spec_strip_quotes(a.drop_first())) + spec_strip_quotes(b));
        }
    }
}

/// De-quoting a quote-free text leaves it unchanged.
proof fn lemma_strip_quotes_free(t: Seq<char>)
    requires
        quote_free(t),
    ensures
        spec_strip_quotes(t) == t,
    decreases t.len(),
{
    if t.len() == 0 {
        assert(spec_strip_quotes(t) =~= t);
    } else {
        assert(t[0] != '"');
        lemma_strip_quotes_free(t.drop_first());
        assert(seq![t[0]] + t.drop_first() =~= t);
    }
}

/// De-quoting a re-quoted quote-free text recovers the text.
proof fn lemma_strip_quotes_quoted(t: Seq<char>)
    requires
        quote_free(t),
    ensures
        spec_strip_quotes(quoted(t)) == t,
{
    lemma_strip_quotes_concat(seq!['"'] + t, seq!['"']);
    lemma_strip_quotes_concat(seq!['"'], t);
    lemma_strip_quotes_free(t);
    let q: Seq<char> = seq!['"'];
    assert(q.drop_first() =~= Seq::<char>::empty());
    assert(spec_strip_quotes(Seq::<char>::empty()) == Seq::<char>::empty());
    assert(spec_strip_quotes(q) == Seq::<char>::empty());
    assert(spec_strip_quotes(quoted(t)) =~= t);
}

/// The eight option names are pairwise distinct texts.
proof fn lemma_option_names_distinct()
    ensures
        "allow_missing"@ != "document_selector"@,
        "allow_missing"@ != "static_registration"@,
        "allow_missing"@ != "dynamic_registration"@,
        "allow_missing"@ != "link_support"@,
        "allow_missing"@ != "markup_kind_list"@,
        "allow_missing"@ != "triggers"@,
        "allow_missing"@ != "resolve_provider"@,
        "document_selector"@ != "static_registration"@,
        "document_selector"@ != "dynamic_registration"@,
        "document_selector"@ != "link_support"@,
        "document_selector"@ != "markup_kind_list"@,
        "document_selector"@ != "triggers"@,
        "document_selector"@ != "resolve_provider"@,
        "static_registration"@ != "dynamic_registration"@,
        "static_registration"@ != "link_support"@,
        "static_registration"@ != "markup_kind_list"@,
        "static_registration"@ != "triggers"@,
        "static_registration"@ != "resolve_provider"@,
        "dynamic_registration"@ != "link_support"@,
        "dynamic_registration"@ != "markup_kind_list"@,
        "dynamic_registration"@ != "triggers"@,
        "dynamic_registration"@ != "resolve_provider"@,
        "link_support"@ != "markup_kind_list"@,
        "link_support"@ != "triggers"@,
        "link_support"@ != "resolve_provider"@,
        "markup_kind_list"@ != "triggers"@,
        "markup_kind_list"@ != "resolve_provider"@,
        "triggers"@ != "resolve_provider"@,
{
    reveal_strlit("allow_missing");
    reveal_strlit("document_selector");
    reveal_strlit("static_registration");
    reveal_strlit("dynamic_registration");
    reveal_strlit("link_support");
    reveal_strlit("markup_kind_list");
    reveal_strlit("triggers");
    reveal_strlit("resolve_provider");
    assert("allow_missing"@.len() == 13);
    assert("document_selector"@.len() == 17);
    assert("static_registration"@.len() == 19);
    assert("dynamic_registration"@.len() == 20);
    assert("link_support"@.len() == 12);
    assert("markup_kind_list"@.len() == 16);
    assert("triggers"@.len() == 8);
    assert("resolve_provider"@.len() == 16);
    assert("markup_kind_list"@[0] == 'm');
    assert("resolve_provider"@[0] == 'r');
}

/// Consuming a flag identifier from the scanning state sets its flag and
/// scans on.
proof fn lemma_parse_flag_token(
    name: Seq<char>,
    rest: Seq<TokenView>,
    acc: AttributeSpecificationView,
    updated: AttributeSpecificationView,
)
    requires
        name == "allow_missing"@ && updated == (AttributeSpecificationView {
            allow_missing: true,
            ..acc
        }) || name == "document_selector"@ && updated == (AttributeSpecificationView {
            has_document_selector: true,
            ..acc
        }) || name == "static_registration"@ && updated == (AttributeSpecificationView {
            has_static_registration: true,
            ..acc
        }),
    ensures
        parse_from(
            seq![TokenView::Ident(name)] + rest,
            AttributeParserState::ScanningOption,
            acc,
        ) == parse_from(rest, AttributeParserState::ScanningOption, updated),
{
    lemma_option_names_distinct();
    let tokens = seq![TokenView::Ident(name)] + rest;
    assert(tokens[0] == TokenView::Ident(name));
    assert(tokens.drop_first() =~= rest);
}

/// Consuming a value-option identifier and its quoted literal from the
/// scanning state records the de-quoted text and scans on.
proof fn lemma_parse_value_tokens(
    name: Seq<char>,
    opt: ValueOption,
    text: Seq<char>,
    rest: Seq<TokenView>,
    acc: AttributeSpecificationView,
)
    requires
        quote_free(text),
        name == "dynamic_registration"@ && opt == ValueOption::DynamicRegistration || name
            == "link_support"@ && opt == ValueOption::LinkSupport || name == "markup_kind_list"@
            && opt == ValueOption::MarkupKindList || name == "triggers"@ && opt
            == ValueOption::Triggers || name == "resolve_provider"@ && opt
            == ValueOption::ResolveProvider,
    ensures
        parse_from(
            seq![TokenView::Ident(name), TokenView::Literal(quoted(text))] + rest,
            AttributeParserState::ScanningOption,
            acc,
        ) == parse_from(rest, AttributeParserState::ScanningOption, record_value(acc, opt, text)),
{
    lemma_option_names_distinct();
    lemma_strip_quotes_quoted(text);
    let tokens = seq![TokenView::Ident(name), TokenView::Literal(quoted(text))] + rest;
    let tokens2 = seq![TokenView::Literal(quoted(text))] + rest;
    assert(tokens[0] == TokenView::Ident(name));
    assert(tokens.drop_first() =~= tokens2);
    assert(tokens2[0] == TokenView::Literal(quoted(text)));
    assert(tokens2.drop_first() =~= rest);
    assert(parse_from(tokens, AttributeParserState::ScanningOption, acc) == parse_from(
        tokens2,
        AttributeParserState::AwaitingValue(opt),
        acc,
    ));
    assert(parse_from(tokens2, AttributeParserState::AwaitingValue(opt), acc) == parse_from(
        rest,
        AttributeParserState::ScanningOption,
        record_value(acc, opt, text),
    ));
}

/// Parsing is idempotent on validated specifications: the canonical token
/// rendering of any well-formed specification parses back to exactly that
/// specification. In particular, re-parsing synthesized annotation text
/// never changes the specification it came from.
pub proof fn lemma_specification_round_trip(v: AttributeSpecificationView)
    requires
        wf_specification(v),
    ensures
        spec_parse(specification_token_views(v)) == Ok::<
            AttributeSpecificationView,
            SpecificationErrorView,
        >(v),
{
    let a0 = empty_specification();
    let s7 = value_tokens(v.resolve_provider, "resolve_provider"@);
    let s6 = value_tokens(v.triggers, "triggers"@) + s7;
    let s5 = value_tokens(v.markup_kind_list, "markup_kind_list"@) + s6;
    let s4 = value_tokens(v.link_support, "link_support"@) + s5;
    let s3 = value_tokens(v.dynamic_registration, "dynamic_registration"@) + s4;
    let s2 = flag_tokens(v.has_static_registration, "static_registration"@) + s3;
    let s1 = flag_tokens(v.has_document_selector, "document_selector"@) + s2;
    let s0 = flag_tokens(v.allow_missing, "allow_missing"@) + s1;
    assert(specification_token_views(v) == s0);

    let a1 = AttributeSpecificationView { allow_missing: v.allow_missing, ..a0 };
    if v.allow_missing {
        lemma_parse_flag_token("allow_missing"@, s1, a0, a1);
    } else {
        assert(s0 =~= s1);
        assert(a1 =~= a0);
    }
    assert(parse_from(s0, AttributeParserState::ScanningOption, a0) == parse_from(
        s1,
        AttributeParserState::ScanningOption,
        a1,
    ));

    let a2 = AttributeSpecificationView { has_document_selector: v.has_document_selector, ..a1 };
    if v.has_document_selector {
        lemma_parse_flag_token("document_selector"@, s2, a1, a2);
    } else {
        assert(s1 =~= s2);
        assert(a2 =~= a1);
    }
    assert(parse_from(s1, AttributeParserState::ScanningOption, a1) == parse_from(
        s2,
        AttributeParserState::ScanningOption,
        a2,
    ));

    let a3 = AttributeSpecificationView {
        has_static_registration: v.has_static_registration,
        ..a2
    };
    if v.has_static_registration {
        lemma_parse_flag_token("static_registration"@, s3, a2, a3);
    } else {
        assert(s2 =~= s3);
        assert(a3 =~= a2);
    }
    assert(parse_from(s2, AttributeParserState::ScanningOption, a2) == parse_from(
        s3,
        AttributeParserState::ScanningOption,
        a3,
    ));

    let a4 = AttributeSpecificationView { dynamic_registration: v.dynamic_registration, ..a3 };
    match v.dynamic_registration {
        Some(t) => {
            lemma_parse_value_tokens(
                "dynamic_registration"@,
                ValueOption::DynamicRegistration,
                t,
                s4,
                a3,
            );
            assert(record_value(a3, ValueOption::DynamicRegistration, t) =~= a4);
        },
        None => {
            assert(s3 =~= s4);
            assert(a4 =~= a3);
        },
    }
    assert(parse_from(s3, AttributeParserState::ScanningOption, a3) == parse_from(
        s4,
        AttributeParserState::ScanningOption,
        a4,
    ));

    let a5 = AttributeSpecificationView { link_support: v.link_support, ..a4 };
    match v.link_support {
        Some(t) => {
            lemma_parse_value_tokens("link_support"@, ValueOption::LinkSupport, t, s5, a4);
            assert(record_value(a4, ValueOption::LinkSupport, t) =~= a5);
        },
        None => {
            assert(s4 =~= s5);
            assert(a5 =~= a4);
        },
    }
    assert(parse_from(s4, AttributeParserState::ScanningOption, a4) == parse_from(
        s5,
        AttributeParserState::ScanningOption,
        a5,
    ));

    let a6 = AttributeSpecificationView { markup_kind_list: v.markup_kind_list, ..a5 };
    match v.markup_kind_list {
        Some(t) => {
            lemma_parse_value_tokens("markup_kind_list"@, ValueOption::MarkupKindList, t, s6, a5);
            assert(record_value(a5, ValueOption::MarkupKindList, t) =~= a6);
        },
        None => {
            assert(s5 =~= s6);
            assert(a6 =~= a5);
        },
    }
    assert(parse_from(s5, AttributeParserState::ScanningOption, a5) == parse_from(
        s6,
        AttributeParserState::ScanningOption,
        a6,
    ));

    let a7 = AttributeSpecificationView { triggers: v.triggers, ..a6 };
    match v.triggers {
        Some(t) => {
            lemma_parse_value_tokens("triggers"@, ValueOption::Triggers, t, s7, a6);
            assert(record_value(a6, ValueOption::Triggers, t) =~= a7);
        },
        None => {
            assert(s6 =~= s7);
            assert(a7 =~= a6);
        },
    }
    assert(parse_from(s6, AttributeParserState::ScanningOption, a6) == parse_from(
        s7,
        AttributeParserState::ScanningOption,
        a7,
    ));

    let a8 = AttributeSpecificationView { resolve_provider: v.resolve_provider, ..a7 };
    match v.resolve_provider {
        Some(t) => {
            lemma_parse_value_tokens(
                "resolve_provider"@,
                ValueOption::ResolveProvider,
                t,
                Seq::empty(),
                a7,
            );
            assert(seq![
                TokenView::Ident("resolve_provider"@),
                TokenView::Literal(quoted(t)),
            ] + Seq::<TokenView>::empty() =~= s7);
            assert(record_value(a7, ValueOption::ResolveProvider, t) =~= a8);
        },
        None => {
            assert(s7 =~= Seq::<TokenView>::empty());
            assert(a8 =~= a7);
        },
    }
    assert(parse_from(s7, AttributeParserState::ScanningOption, a7) == parse_from(
        Seq::empty(),
        AttributeParserState::ScanningOption,
        a8,
    ));
    assert(a8 =~= v);
}

/// Renders a specification back into its canonical annotation token
/// sequence: each set flag as an identifier, each recorded value-option as
/// its name followed by its re-quoted text, in the fixed option order.
#[verifier::rlimit(100)]
pub fn specification_tokens(s: &AttributeSpecification) -> (out: Vec<Token>)
    ensures
        token_views(out@) == specification_token_views(s@),
{
    let mut out: Vec<Token> = Vec::new();
    proof {
        assert(token_views(out@) =~= Seq::<TokenView>::empty());
    }
    push_flag(&mut out, s.allow_missing, "allow_missing");
    push_flag(&mut out, s.has_document_selector, "document_selector");
    push_flag(&mut out, s.has_static_registration, "static_registration");
    push_value_option(&mut out, &s.dynamic_registration, "dynamic_registration");
    push_value_option(&mut out, &s.link_support, "link_support");
    push_value_option(&mut out, &s.markup_kind_list, "markup_kind_list");
    push_value_option(&mut out, &s.triggers, "triggers");
    push_value_option(&mut out, &s.resolve_provider, "resolve_provider");
    proof {
        assert(token_views(out@) =~= specification_token_views(s@));
    }
    out
}

/// Appends a set flag's identifier token.
fn push_flag(out: &mut Vec<Token>, on: bool, name: &str)
    ensures
        token_views(final(out)@) == token_views(old(out)@) + flag_tokens(on, name@),
{
    if on {
        out.push(Token::Ident(String::from_str(name)));
    }
    proof {
        assert(token_views(out@) =~= token_views(old(out)@) + flag_tokens(on, name@));
    }
}

/// Appends a recorded value-option's name and re-quoted literal.
fn push_value_option(out: &mut Vec<Token>, o: &Option<String>, name: &str)
    ensures
        token_views(final(out)@) == token_views(old(out)@) + value_tokens(opt_view(*o), name@),
{
    match o {
        Some(t) => {
            out.push(Token::Ident(String::from_str(name)));
            let mut lit = String::from_str("\"");
            lit.append(t.as_str());
            lit.append("\"");
            proof {
                reveal_strlit("\"");
                assert("\""@ =~= seq!['"']);
                assert(lit@ =~= quoted(t@));
            }
            out.push(Token::Literal(lit));
            proof {
                assert(token_views(out@) =~= token_views(old(out)@) + value_tokens(
                    opt_view(*o),
                    name@,
                ));
            }
        },
        None => {
            proof {
                assert(token_views(out@) =~= token_views(old(out)@) + value_tokens(
                    opt_view(*o),
                    name@,
                ));
            }
        },
    }
}

} // verus!
