//! Message objects: defaults, constructors, and version checks.

use lsp_msg::{
    BooleanOrOptions, BooleanOrOptionsOrStaticDocumentSelectorOptions, ChangeNotificationsOptions,
    ClientCapabilities, InitializeParams,
    CompletionItemKind, DidChangeTextDocumentParams, DidOpenTextDocumentParams, Elective,
    InitializeResult, InitializedParams, LanguageId, Range, ServerCapabilities,
    TextDocumentContentChangeEvent, TextDocumentItem, TextDocumentSyncKind,
    TextDocumentSyncOptions, TextDocumentSyncProvider, TraceKind,
    VersionedTextDocumentIdentifier,
};

fn document() -> TextDocumentItem {
    TextDocumentItem {
        uri: String::from("file:///doc"),
        language_id: LanguageId::Undefined(String::new()),
        version: 7,
        text: String::from("body"),
    }
}

#[test]
fn completion_item_kind_versions() {
    assert_eq!(CompletionItemKind::default(), CompletionItemKind::Text);
    assert!(CompletionItemKind::Text.is_version1());
    assert!(CompletionItemKind::Reference.is_version1());
    assert!(!CompletionItemKind::Folder.is_version1());
    assert!(!CompletionItemKind::Unknown.is_version1());
}

#[test]
fn trace_kind_default() {
    assert_eq!(TraceKind::default(), TraceKind::Off);
}

#[test]
fn sync_defaults() {
    assert_eq!(TextDocumentSyncKind::default(), TextDocumentSyncKind::NoSync);
    assert_eq!(
        TextDocumentSyncProvider::default(),
        TextDocumentSyncProvider::Kind(TextDocumentSyncKind::NoSync)
    );
    let options = TextDocumentSyncOptions::default();
    assert!(!options.open_close);
    assert_eq!(options.change, TextDocumentSyncKind::NoSync);
    assert!(!options.will_save);
    assert!(!options.will_save_wait_until);
    assert!(!options.save.include_text);
    let _ = InitializedParams::default();
}

#[test]
fn option_defaults() {
    assert_eq!(
        BooleanOrOptions::<TextDocumentSyncOptions>::default(),
        BooleanOrOptions::Boolean(false)
    );
    assert_eq!(
        BooleanOrOptionsOrStaticDocumentSelectorOptions::<TextDocumentSyncOptions>::default(),
        BooleanOrOptionsOrStaticDocumentSelectorOptions::Boolean(false)
    );
    assert_eq!(
        ChangeNotificationsOptions::default(),
        ChangeNotificationsOptions::Boolean(false)
    );
}

#[test]
fn did_open_from_item() {
    let params = DidOpenTextDocumentParams::from(document());
    assert_eq!(params.text_document, document());
}

#[test]
fn versioned_identifier_from_item() {
    let id = VersionedTextDocumentIdentifier::from(document());
    assert_eq!(id.uri, "file:///doc");
    assert_eq!(id.version, Some(7));
}

#[test]
fn content_change_event_new() {
    let event = TextDocumentContentChangeEvent::new(
        Range::entire_line(3),
        String::from("replacement"),
    );
    assert_eq!(event.range, Elective::Present(Range::entire_line(3)));
    assert_eq!(event.range_length, Elective::Absent);
    assert_eq!(event.text, "replacement");
}

#[test]
fn did_change_params_new() {
    let id = VersionedTextDocumentIdentifier::from(document());
    let event = TextDocumentContentChangeEvent::new(Range::entire_line(0), String::new());
    let params = DidChangeTextDocumentParams::new(id.clone(), vec![event.clone()]);
    assert_eq!(params.text_document, id);
    assert_eq!(params.content_changes, vec![event]);
}

#[test]
fn server_capabilities_default() {
    let caps = ServerCapabilities::default();
    assert_eq!(
        caps.text_document_sync,
        TextDocumentSyncProvider::Kind(TextDocumentSyncKind::NoSync)
    );
    assert!(!caps.hover_provider);
    assert!(caps.completion_provider.trigger_characters.is_empty());
    assert!(!caps.completion_provider.resolve_provider);
    assert_eq!(
        caps.type_definition_provider,
        BooleanOrOptions::Boolean(false)
    );
    assert!(!caps.code_lens_provider.resolve_provider);
    assert_eq!(caps.rename_provider, BooleanOrOptions::Boolean(false));
    assert_eq!(
        caps.color_provider,
        BooleanOrOptionsOrStaticDocumentSelectorOptions::Boolean(false)
    );
    assert!(caps.execute_command_provider.commands.is_empty());
    assert!(!caps.workspace.workspace_folders.supported);
    assert!(caps.experimental.is_absent());
    let result = InitializeResult { capabilities: caps };
    assert!(!result.capabilities.definition_provider);
}

#[test]
fn client_capabilities_default() {
    let caps = ClientCapabilities::default();
    assert!(!caps.workspace.apply_edit);
    assert!(!caps.workspace.workspace_folders);
    assert!(!caps.workspace.configuration);
    assert!(caps.workspace.workspace_edit.failure_handling.is_absent());
    let td = &caps.text_document;
    assert!(!td.synchronization.dynamic_registration);
    assert!(!td.synchronization.will_save);
    assert!(td.completion.completion_item.documentation_format.is_empty());
    assert!(td.completion.completion_item_kind.value_set.is_absent());
    assert!(td.hover.content_format.is_empty());
    assert!(!td.declaration.link_support);
    assert!(td.code_action.code_action_literal_support.is_absent());
    assert_eq!(td.folding_range.range_limit, 0);
    assert!(caps.experimental.is_absent());
}

#[test]
fn initialize_params_shape() {
    let params = InitializeParams {
        process_id: Some(41),
        root_path: Elective::Absent,
        root_uri: None,
        initialization_options: Elective::Absent,
        capabilities: ClientCapabilities::default(),
        trace: TraceKind::default(),
        workspace_folders: Elective::Absent,
    };
    assert_eq!(params.process_id, Some(41));
    assert_eq!(params.trace, TraceKind::Off);
    assert!(params.root_path.is_absent());
    assert!(params.workspace_folders.is_absent());
}
