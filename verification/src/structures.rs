//! Basic structures of the message catalog, laid out as the generator
//! prescribes.

use vstd::prelude::*;
use crate::elective::Elective;

verus! {

/// The format of a documentation string.
#[derive(Debug, Clone, Copy, PartialEq, Eq, Structural)]
pub enum MarkupKind {
    /// Plain text.
    Plaintext,
    /// Markdown.
    Markdown,
}

/// A line and character gap offset of a text document.
#[derive(Debug, Clone, Copy, PartialEq, Eq, Structural)]
pub struct Position {
    /// Zero-based index of the line.
    pub line: u64,
    /// Zero-based index of the character gap within the given line.
    ///
    /// If `character` is greater than the line length (not including line
    /// ending characters), it defaults to the line length.
    pub character: u64,
}

impl Position {
    /// Moves 1 line up.
    pub fn move_up(&mut self)
        requires
            old(self).line >= 1,
        ensures
            final(self).line == old(self).line - 1,
            final(self).character == old(self).character,
    {
        self.line = self.line - 1;
    }

    /// Moves to the end of the line.
    pub fn move_to_end_of_line(&mut self)
        ensures
            final(self).line == old(self).line,
            final(self).character == u64::MAX,
    {
        self.character = u64::MAX;
    }

    /// Moves 1 character to the left.
    pub fn move_left(&mut self)
        requires
            old(self).character >= 1,
        ensures
            final(self).line == old(self).line,
            final(self).character == old(self).character - 1,
    {
        self.character = self.character - 1;
    }

    /// Moves 1 character to the right.
    pub fn move_right(&mut self)
        requires
            old(self).character < u64::MAX,
        ensures
            final(self).line == old(self).line,
            final(self).character == old(self).character + 1,
    {
        self.character = self.character + 1;
    }

    /// `Position` is at the start of its line.
    pub fn is_first_character(&self) -> (r: bool)
        ensures
            r == (self.character == 0),
    {
        self.character == 0
    }

    /// `Position` is at the first line in its text document.
    pub fn is_first_line(&self) -> (r: bool)
        ensures
            r == (self.line == 0),
    {
        self.line == 0
    }
}

impl Default for Position {
    /// The origin of a text document.
    fn default() -> (r: Self)
        ensures
            r.line == 0,
            r.character == 0,
    {
        Position { line: 0, character: 0 }
    }
}

/// `Position`s in between 2 given `Position`s.
///
/// The start `Position` is inclusive while the end `Position` is
/// exclusive.
#[derive(Debug, Clone, Copy, PartialEq, Eq, Structural)]
pub struct Range {
    /// Start `Position` of the `Range`.
    pub start: Position,
    /// End `Position` of the `Range`.
    pub end: Position,
}

impl Range {
    /// Creates a new `Range` that describes an entire line.
    ///
    /// An entire line does not include line ending characters.
    pub fn entire_line(line: u64) -> (r: Self)
        ensures
            r == (Range {
                start: Position { line, character: 0 },
                end: Position { line, character: u64::MAX },
            }),
    {
        Self::partial_line(line, 0, u64::MAX)
    }

    /// Creates a new `Range` that describes the specified characters on a
    /// line.
    pub fn partial_line(line: u64, start: u64, end: u64) -> (r: Self)
        ensures
            r == (Range {
                start: Position { line, character: start },
                end: Position { line, character: end },
            }),
    {
        Range { start: Position { line, character: start }, end: Position { line, character: end } }
    }
}

impl Default for Range {
    /// The empty range at the origin.
    fn default() -> (r: Self)
        ensures
            r.start == (Position { line: 0, character: 0 }),
            r.end == (Position { line: 0, character: 0 }),
    {
        Range { start: Position { line: 0, character: 0 }, end: Position { line: 0, character: 0 } }
    }
}

impl From<Position> for Range {
    /// The empty range at a given position.
    fn from(value: Position) -> (r: Self) {
        Range { start: value, end: value }
    }
}

impl vstd::std_specs::convert::FromSpecImpl<Position> for Range {
    open spec fn obeys_from_spec() -> bool {
        true
    }

    open spec fn from_spec(value: Position) -> Range {
        Range { start: value, end: value }
    }
}

/// A part of a text document.
#[derive(Debug, Clone, PartialEq)]
pub struct Location {
    /// The URI of the text document.
    pub uri: String,
    /// The `Range` within the text document.
    pub range: Range,
}

/// Supported severities of a diagnostic.
#[derive(Debug, Clone, Copy, PartialEq, Eq, Structural)]
pub enum DiagnosticSeverity {
    /// A `Diagnostic` that prevents successful completion.
    Error,
    /// A `Diagnostic` that does not prevent successful completion but may
    /// need to be addressed.
    Warning,
    /// A `Diagnostic` that provides noncritical information that does not
    /// need to be addressed.
    Information,
    /// A `Diagnostic` that may assist debugging efforts.
    Hint,
}

impl DiagnosticSeverity {
    /// The integer this severity serializes as: consecutive from 1 in
    /// declaration order.
    pub fn number(self) -> (n: u8)
        ensures
            n == spec_severity_number(self),
    {
        match self {
            DiagnosticSeverity::Error => 1,
            DiagnosticSeverity::Warning => 2,
            DiagnosticSeverity::Information => 3,
            DiagnosticSeverity::Hint => 4,
        }
    }
}

/// The integer a severity serializes as.
pub open spec fn spec_severity_number(s: DiagnosticSeverity) -> u8 {
    match s {
        DiagnosticSeverity::Error => 1,
        DiagnosticSeverity::Warning => 2,
        DiagnosticSeverity::Information => 3,
        DiagnosticSeverity::Hint => 4,
    }
}

/// A code representing a `Diagnostic`.
#[derive(Debug, Clone, PartialEq)]
pub enum DiagnosticCode {
    /// Number format.
    Number(i64),
    /// String format.
    String(String),
}

/// A related message for a `Diagnostic`.
#[derive(Debug, Clone, PartialEq)]
pub struct DiagnosticRelatedInformation {
    /// Location of the related information.
    pub location: Location,
    /// Message of the related information.
    pub message: String,
}

/// A diagnostic such as a compiler error or warning.
#[derive(Debug, Clone, PartialEq)]
pub struct Diagnostic {
    /// `Range` at which the message applies.
    pub range: Range,
    /// The severity of the diagnostic.
    ///
    /// If `Elective::Absent`, client is responsible for interpreting
    /// severity.
    pub severity: Elective<DiagnosticSeverity>,
    /// Code of the diagnostic.
    pub code: Elective<DiagnosticCode>,
    /// Human-readable description of the source of the diagnostic.
    pub source: Elective<String>,
    /// Message of the diagnostic.
    pub message: String,
    /// Related information about a diagnostic.
    pub related_information: Elective<Vec<DiagnosticRelatedInformation>>,
}

/// An item to transfer a text document from the client to the server.
#[derive(Debug, Clone, PartialEq)]
pub struct TextDocumentItem {
    /// URI of text document.
    pub uri: String,
    /// Language identifier of text document.
    pub language_id: LanguageId,
    /// Version number of text document.
    pub version: i64,
    /// Content of the text document.
    pub text: String,
}

impl TextDocumentItem {
    /// Increments the version.
    pub fn increment_version(&mut self)
        requires
            old(self).version < i64::MAX,
        ensures
            final(self).version == old(self).version + 1,
            final(self).uri == old(self).uri,
            final(self).language_id == old(self).language_id,
            final(self).text == old(self).text,
    {
        self.version = self.version + 1;
    }
}

impl Default for TextDocumentItem {
    /// An empty, unversioned document with an undefined language.
    fn default() -> (r: Self)
        ensures
            r.uri@ == Seq::<char>::empty(),
            r.language_id matches LanguageId::Undefined(s) && s@ == Seq::<char>::empty(),
            r.version == 0,
            r.text@ == Seq::<char>::empty(),
    {
        TextDocumentItem {
            uri: String::new(),
            language_id: LanguageId::Undefined(String::new()),
            version: 0,
            text: String::new(),
        }
    }
}

/// A language identifier of a text document.
#[derive(Debug, Clone, PartialEq)]
pub enum LanguageId {
    /// A language id that has been defined.
    Defined(LanguageIdKind),
    /// A language id that has not been defined.
    Undefined(String),
}

impl Default for LanguageId {
    /// The undefined language id with empty text.
    fn default() -> (r: Self)
        ensures
            r matches LanguageId::Undefined(s) && s@ == Seq::<char>::empty(),
    {
        LanguageId::Undefined(String::new())
    }
}

/// The defined language ids.
#[derive(Debug, Clone, Copy, PartialEq, Eq, Structural)]
pub enum LanguageIdKind {
    /// Windows Bat language.
    Bat,
    /// BibTeX language.
    Bibtex,
    /// Clojure language.
    Clojure,
    /// Coffeescript language.
    Coffeescript,
    /// C language.
    C,
    /// C++ language.
    Cpp,
    /// C# language.
    Csharp,
    /// CSS language.
    Css,
    /// Diff language.
    Diff,
    /// Dart language.
    Dart,
    /// Dockerfile language.
    Dockerfile,
    /// F# language.
    Fsharp,
    /// Git commit message format.
    GitCommit,
    /// Git rebase message format.
    GitRebase,
    /// Go language.
    Go,
    /// Groovy language.
    Groovy,
    /// Handlebars language.
    Handlebars,
    /// HTML language.
    Html,
    /// Ini language.
    Ini,
    /// Java language.
    Java,
    /// JavaScript language.
    Javascript,
    /// JSON language.
    Json,
    /// LaTeX language.
    Latex,
    /// Less language.
    Less,
    /// Lua language.
    Lua,
    /// Makefile language.
    Makefile,
    /// Markdown language.
    Markdown,
    /// Objective-C language.
    ObjectiveC,
    /// Objective-C++ language.
    ObjectiveCpp,
    /// Perl language.
    Perl,
    /// Perl 6 language.
    Perl6,
    /// PHP language.
    Php,
    /// Powershell language.
    Powershell,
    /// Pug language.
    Jade,
    /// Python language.
    Python,
    /// R language.
    R,
    /// Razor (cshtml) language.
    Razor,
    /// Ruby language.
    Ruby,
    /// Rust language.
    Rust,
    /// Sass language with curly bracket syntax.
    Scss,
    /// Sass language with indented syntax.
    Sass,
    /// Scala language.
    Scala,
    /// ShaderLab language.
    Shaderlab,
    /// Shell Script (Bash) language.
    Shellscript,
    /// SQL language.
    Sql,
    /// Swift language.
    Swift,
    /// TypeScript language.
    Typescript,
    /// TeX language.
    Tex,
    /// Visual Basic language.
    Vb,
    /// XML language.
    Xml,
    /// XSL language.
    Xsl,
    /// YAML language.
    Yaml,
}

/// A symbol kind.
#[derive(Debug, Clone, Copy, PartialEq, Eq, Structural)]
pub enum SymbolKind {
    /// A known `Symbol`.
    Known(Symbol),
    /// A value that is not known to map to a `Symbol`.
    Unknown(u8),
}

impl SymbolKind {
    /// The integer this kind serializes as; an unknown kind cannot be
    /// serialized.
    pub fn to_number(self) -> (r: Option<u8>)
        ensures
            match r {
                Some(n) => self matches SymbolKind::Known(s) && n == spec_symbol_number(s),
                None => self is Unknown,
            },
    {
        match self {
            SymbolKind::Known(s) => Some(s.number()),
            SymbolKind::Unknown(_) => None,
        }
    }

    /// The kind an integer deserializes to: the symbol it names when it
    /// names one, else the unknown kind carrying it.
    pub fn from_number(n: u8) -> (r: Self)
        ensures
            match r {
                SymbolKind::Known(s) => spec_symbol_number(s) == n,
                SymbolKind::Unknown(m) => m == n && !(1 <= n <= 26),
            },
    {
        match Symbol::from_number(n) {
            Some(s) => SymbolKind::Known(s),
            None => SymbolKind::Unknown(n),
        }
    }
}

/// The value of a symbol kind.
#[derive(Debug, Clone, Copy, PartialEq, Eq, Structural)]
pub enum Symbol {
    /// A file.
    File,
    /// A module.
    Module,
    /// A namespace.
    Namespace,
    /// A package.
    Package,
    /// A class.
    Class,
    /// A method.
    Method,
    /// A property.
    Property,
    /// A field.
    Field,
    /// A constructor.
    Constructor,
    /// An enum.
    Enum,
    /// An interface.
    Interface,
    /// A function.
    Function,
    /// A variable.
    Variable,
    /// A constant.
    Constant,
    /// A string.
    String,
    /// A number.
    Number,
    /// A boolean.
    Boolean,
    /// An array.
    Array,
    /// An object.
    Object,
    /// A key.
    Key,
    /// A null.
    Null,
    /// An enum member.
    EnumMember,
    /// A struct.
    Struct,
    /// An event.
    Event,
    /// An operator.
    Operator,
    /// A type parameter.
    TypeParameter,
}

/// The integer a symbol serializes as: consecutive from 1 in declaration
/// order.
pub open spec fn spec_symbol_number(s: Symbol) -> u8 {
    match s {
        Symbol::File => 1,
        Symbol::Module => 2,
        Symbol::Namespace => 3,
        Symbol::Package => 4,
        Symbol::Class => 5,
        Symbol::Method => 6,
        Symbol::Property => 7,
        Symbol::Field => 8,
        Symbol::Constructor => 9,
        Symbol::Enum => 10,
        Symbol::Interface => 11,
        Symbol::Function => 12,
        Symbol::Variable => 13,
        Symbol::Constant => 14,
        Symbol::String => 15,
        Symbol::Number => 16,
        Symbol::Boolean => 17,
        Symbol::Array => 18,
        Symbol::Object => 19,
        Symbol::Key => 20,
        Symbol::Null => 21,
        Symbol::EnumMember => 22,
        Symbol::Struct => 23,
        Symbol::Event => 24,
        Symbol::Operator => 25,
        Symbol::TypeParameter => 26,
    }
}

impl Symbol {
    /// The integer this symbol serializes as.
    pub fn number(self) -> (n: u8)
        ensures
            n == spec_symbol_number(self),
    {
        match self {
            Symbol::File => 1,
            Symbol::Module => 2,
            Symbol::Namespace => 3,
            Symbol::Package => 4,
            Symbol::Class => 5,
            Symbol::Method => 6,
            Symbol::Property => 7,
            Symbol::Field => 8,
            Symbol::Constructor => 9,
            Symbol::Enum => 10,
            Symbol::Interface => 11,
            Symbol::Function => 12,
            Symbol::Variable => 13,
            Symbol::Constant => 14,
            Symbol::String => 15,
            Symbol::Number => 16,
            Symbol::Boolean => 17,
            Symbol::Array => 18,
            Symbol::Object => 19,
            Symbol::Key => 20,
            Symbol::Null => 21,
            Symbol::EnumMember => 22,
            Symbol::Struct => 23,
            Symbol::Event => 24,
            Symbol::Operator => 25,
            Symbol::TypeParameter => 26,
        }
    }

    /// The symbol an integer deserializes to, exactly when it names one.
    pub fn from_number(n: u8) -> (r: Option<Symbol>)
        ensures
            match r {
                Some(s) => spec_symbol_number(s) == n,
                None => !(1 <= n <= 26),
            },
    {
        match n {
            1 => Some(Symbol::File),
            2 => Some(Symbol::Module),
            3 => Some(Symbol::Namespace),
            4 => Some(Symbol::Package),
            5 => Some(Symbol::Class),
            6 => Some(Symbol::Method),
            7 => Some(Symbol::Property),
            8 => Some(Symbol::Field),
            9 => Some(Symbol::Constructor),
            10 => Some(Symbol::Enum),
            11 => Some(Symbol::Interface),
            12 => Some(Symbol::Function),
            13 => Some(Symbol::Variable),
            14 => Some(Symbol::Constant),
            15 => Some(Symbol::String),
            16 => Some(Symbol::Number),
            17 => Some(Symbol::Boolean),
            18 => Some(Symbol::Array),
            19 => Some(Symbol::Object),
            20 => Some(Symbol::Key),
            21 => Some(Symbol::Null),
            22 => Some(Symbol::EnumMember),
            23 => Some(Symbol::Struct),
            24 => Some(Symbol::Event),
            25 => Some(Symbol::Operator),
            26 => Some(Symbol::TypeParameter),
            _ => None,
        }
    }

    /// Returns if `Symbol` is supported in version 1.
    pub fn is_version1(self) -> (r: bool)
        ensures
            r == (spec_symbol_number(self) <= spec_symbol_number(Symbol::Array)),
    {
        self.number() <= 18
    }
}

impl Default for Symbol {
    /// The property symbol.
    fn default() -> (r: Self)
        ensures
            r == Symbol::Property,
    {
        Symbol::Property
    }
}

} // verus!
