//! Basic structures: numeric tags, defaults, and position arithmetic.

use lsp_msg::structures::DiagnosticSeverity;
use lsp_msg::{
    Diagnostic, Elective, LanguageId, Position, Range, Symbol, SymbolKind, TextDocumentItem,
};

#[test]
fn structures_serde() {
    // An integer that names no symbol deserializes to the unknown kind,
    // and an unknown kind cannot be serialized.
    assert_eq!(SymbolKind::from_number(0), SymbolKind::Unknown(0));
    assert_eq!(SymbolKind::from_number(255), SymbolKind::Unknown(255));
    assert_eq!(SymbolKind::Known(Symbol::Module).to_number(), Some(2));
    assert_eq!(SymbolKind::Unknown(0).to_number(), None);

    // Every symbol serializes as its position in declaration order,
    // consecutive from 1, and deserializes back.
    let symbols = [
        Symbol::File,
        Symbol::Module,
        Symbol::Namespace,
        Symbol::Package,
        Symbol::Class,
        Symbol::Method,
        Symbol::Property,
        Symbol::Field,
        Symbol::Constructor,
        Symbol::Enum,
        Symbol::Interface,
        Symbol::Function,
        Symbol::Variable,
        Symbol::Constant,
        Symbol::String,
        Symbol::Number,
        Symbol::Boolean,
        Symbol::Array,
        Symbol::Object,
        Symbol::Key,
        Symbol::Null,
        Symbol::EnumMember,
        Symbol::Struct,
        Symbol::Event,
        Symbol::Operator,
        Symbol::TypeParameter,
    ];
    for (i, s) in symbols.iter().enumerate() {
        let n = (i + 1) as u8;
        assert_eq!(s.number(), n);
        assert_eq!(Symbol::from_number(n), Some(*s));
    }
    assert_eq!(Symbol::from_number(27), None);
}

#[test]
fn structures_default() {
    assert_eq!(Symbol::default(), Symbol::Property);
}

#[test]
fn symbol_is_version1() {
    assert!(Symbol::File.is_version1());
    assert!(Symbol::Array.is_version1());
    assert!(!Symbol::Object.is_version1());
    assert!(!Symbol::TypeParameter.is_version1());
}

#[test]
fn position_moves() {
    let mut p = Position { line: 2, character: 3 };
    p.move_up();
    assert_eq!(p, Position { line: 1, character: 3 });
    p.move_left();
    assert_eq!(p, Position { line: 1, character: 2 });
    p.move_right();
    assert_eq!(p, Position { line: 1, character: 3 });
    p.move_to_end_of_line();
    assert_eq!(p, Position { line: 1, character: u64::MAX });
    assert!(!p.is_first_character());
    assert!(!p.is_first_line());
    let origin = Position::default();
    assert!(origin.is_first_character());
    assert!(origin.is_first_line());
}

#[test]
fn range_lines() {
    assert_eq!(
        Range::entire_line(4),
        Range {
            start: Position { line: 4, character: 0 },
            end: Position { line: 4, character: u64::MAX },
        }
    );
    assert_eq!(
        Range::partial_line(1, 2, 5),
        Range {
            start: Position { line: 1, character: 2 },
            end: Position { line: 1, character: 5 },
        }
    );
    let p = Position { line: 7, character: 9 };
    assert_eq!(Range::from(p), Range { start: p, end: p });
}

#[test]
fn text_document_item_version() {
    let mut item = TextDocumentItem {
        uri: String::from("file:///a"),
        language_id: LanguageId::Undefined(String::new()),
        version: 4,
        text: String::from("text"),
    };
    item.increment_version();
    assert_eq!(item.version, 5);
    assert_eq!(item.uri, "file:///a");
}

#[test]
fn diagnostic_severity_numbers() {
    assert_eq!(DiagnosticSeverity::Error.number(), 1);
    assert_eq!(DiagnosticSeverity::Warning.number(), 2);
    assert_eq!(DiagnosticSeverity::Information.number(), 3);
    assert_eq!(DiagnosticSeverity::Hint.number(), 4);
    let d = Diagnostic {
        range: Range::entire_line(0),
        severity: Elective::Present(DiagnosticSeverity::Error),
        code: Elective::Absent,
        source: Elective::Absent,
        message: String::from("unexpected token"),
        related_information: Elective::Absent,
    };
    assert!(d.severity.is_present());
    assert!(d.code.is_absent());
}
