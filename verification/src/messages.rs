//! Message objects of the protocol's lifecycle and text-document
//! notifications, laid out as the generator prescribes.

use vstd::prelude::*;
use crate::elective::Elective;
use crate::json::Json;
use crate::structures::{Diagnostic, Range, TextDocumentItem};

verus! {

/// The kind of a `CompletionItem`.
#[derive(Debug, Clone, Copy, PartialEq, Eq, Structural)]
pub enum CompletionItemKind {
    /// A text.
    Text,
    /// A method.
    Method,
    /// A function.
    Function,
    /// A constructor.
    Constructor,
    /// A field.
    Field,
    /// A variable.
    Variable,
    /// A class.
    Class,
    /// An interface.
    Interface,
    /// A module.
    Module,
    /// A property.
    Property,
    /// A unit.
    Unit,
    /// A value.
    Value,
    /// An enum.
    Enum,
    /// A keyword.
    Keyword,
    /// A snippet.
    Snippet,
    /// A color.
    Color,
    /// A file.
    File,
    /// A reference.
    Reference,
    /// A folder.
    Folder,
    /// An enum member.
    EnumMember,
    /// A constant.
    Constant,
    /// A struct.
    Struct,
    /// An event.
    Event,
    /// An operator.
    Operator,
    /// A type parameter.
    TypeParameter,
    /// An unknown completion item kind.
    Unknown,
}

/// The position of a completion item kind in declaration order,
/// consecutive from 1.
pub open spec fn spec_completion_rank(k: CompletionItemKind) -> u8 {
    match k {
        CompletionItemKind::Text => 1,
        CompletionItemKind::Method => 2,
        CompletionItemKind::Function => 3,
        CompletionItemKind::Constructor => 4,
        CompletionItemKind::Field => 5,
        CompletionItemKind::Variable => 6,
        CompletionItemKind::Class => 7,
        CompletionItemKind::Interface => 8,
        CompletionItemKind::Module => 9,
        CompletionItemKind::Property => 10,
        CompletionItemKind::Unit => 11,
        CompletionItemKind::Value => 12,
        CompletionItemKind::Enum => 13,
        CompletionItemKind::Keyword => 14,
        CompletionItemKind::Snippet => 15,
        CompletionItemKind::Color => 16,
        CompletionItemKind::File => 17,
        CompletionItemKind::Reference => 18,
        CompletionItemKind::Folder => 19,
        CompletionItemKind::EnumMember => 20,
        CompletionItemKind::Constant => 21,
        CompletionItemKind::Struct => 22,
        CompletionItemKind::Event => 23,
        CompletionItemKind::Operator => 24,
        CompletionItemKind::TypeParameter => 25,
        CompletionItemKind::Unknown => 26,
    }
}

impl CompletionItemKind {
    /// The kind's position in declaration order.
    pub fn rank(self) -> (n: u8)
        ensures
            n == spec_completion_rank(self),
    {
        match self {
            CompletionItemKind::Text => 1,
            CompletionItemKind::Method => 2,
            CompletionItemKind::Function => 3,
            CompletionItemKind::Constructor => 4,
            CompletionItemKind::Field => 5,
            CompletionItemKind::Variable => 6,
            CompletionItemKind::Class => 7,
            CompletionItemKind::Interface => 8,
            CompletionItemKind::Module => 9,
            CompletionItemKind::Property => 10,
            CompletionItemKind::Unit => 11,
            CompletionItemKind::Value => 12,
            CompletionItemKind::Enum => 13,
            CompletionItemKind::Keyword => 14,
            CompletionItemKind::Snippet => 15,
            CompletionItemKind::Color => 16,
            CompletionItemKind::File => 17,
            CompletionItemKind::Reference => 18,
            CompletionItemKind::Folder => 19,
            CompletionItemKind::EnumMember => 20,
            CompletionItemKind::Constant => 21,
            CompletionItemKind::Struct => 22,
            CompletionItemKind::Event => 23,
            CompletionItemKind::Operator => 24,
            CompletionItemKind::TypeParameter => 25,
            CompletionItemKind::Unknown => 26,
        }
    }

    /// Returns if `CompletionItemKind` is supported by version 1.
    pub fn is_version1(self) -> (r: bool)
        ensures
            r == (spec_completion_rank(self) <= spec_completion_rank(
                CompletionItemKind::Reference,
            )),
    {
        self.rank() <= 18
    }
}

impl Default for CompletionItemKind {
    /// The text kind.
    fn default() -> (r: Self)
        ensures
            r == CompletionItemKind::Text,
    {
        CompletionItemKind::Text
    }
}

/// The trace setting of the server.
#[derive(Debug, Clone, Copy, PartialEq, Eq, Structural)]
pub enum TraceKind {
    /// No messages are output.
    Off,
    /// Some messages are output.
    Messages,
    /// All messages are output.
    Verbose,
}

impl Default for TraceKind {
    /// No messages are output.
    fn default() -> (r: Self)
        ensures
            r == TraceKind::Off,
    {
        TraceKind::Off
    }
}

/// Describes a folder in a workspace.
#[derive(Debug, Clone, PartialEq)]
pub struct WorkspaceFolder {
    /// The associated URI.
    pub uri: String,
    /// The name as used in the user interface.
    pub name: String,
}

/// How the client should sync document changes with the server.
#[derive(Debug, Clone, Copy, PartialEq, Eq, Structural)]
pub enum TextDocumentSyncKind {
    /// Documents should not be synced at all.
    NoSync,
    /// Documents are synced by always sending the full content of the
    /// document.
    Full,
    /// Documents are synced by sending incremental updates.
    Incremental,
}

impl Default for TextDocumentSyncKind {
    /// Documents are not synced.
    fn default() -> (r: Self)
        ensures
            r == TextDocumentSyncKind::NoSync,
    {
        TextDocumentSyncKind::NoSync
    }
}

/// Save options.
#[derive(Debug, Clone, Copy, PartialEq, Eq, Structural)]
pub struct SaveOptions {
    /// Content is included in save notifications.
    pub include_text: bool,
}

impl Default for SaveOptions {
    /// Content is not included.
    fn default() -> (r: Self)
        ensures
            r.include_text == false,
    {
        SaveOptions { include_text: false }
    }
}

/// Options about the text documents to be synced.
#[derive(Debug, Clone, Copy, PartialEq, Eq, Structural)]
pub struct TextDocumentSyncOptions {
    /// Client sends open and close notifications to server.
    pub open_close: bool,
    /// Client sends change notifications to server.
    pub change: TextDocumentSyncKind,
    /// Client sends will save notifications to server.
    pub will_save: bool,
    /// Client sends will save wait until notifications to server.
    pub will_save_wait_until: bool,
    /// Client sends save notifications to server.
    pub save: SaveOptions,
}

impl Default for TextDocumentSyncOptions {
    /// No notifications are sent.
    fn default() -> (r: Self)
        ensures
            r.open_close == false,
            r.change == TextDocumentSyncKind::NoSync,
            r.will_save == false,
            r.will_save_wait_until == false,
            r.save.include_text == false,
    {
        TextDocumentSyncOptions {
            open_close: false,
            change: TextDocumentSyncKind::NoSync,
            will_save: false,
            will_save_wait_until: false,
            save: SaveOptions { include_text: false },
        }
    }
}

/// Information about text document synchronization.
#[derive(Debug, Clone, Copy, PartialEq, Eq, Structural)]
pub enum TextDocumentSyncProvider {
    /// Options about the text documents to by synced.
    Options(TextDocumentSyncOptions),
    /// The kind of text documents to be synced.
    Kind(TextDocumentSyncKind),
}

impl Default for TextDocumentSyncProvider {
    /// The default sync kind.
    fn default() -> (r: Self)
        ensures
            r == TextDocumentSyncProvider::Kind(TextDocumentSyncKind::NoSync),
    {
        TextDocumentSyncProvider::Kind(TextDocumentSyncKind::NoSync)
    }
}

/// Notification sent from client to server after client receives the
/// result of the `initialize` request.
#[derive(Debug, Clone, Copy, PartialEq, Eq, Structural)]
pub struct InitializedParams {}

impl Default for InitializedParams {
    /// The empty notification.
    fn default() -> (r: Self)
        ensures
            r == (InitializedParams {  }),
    {
        InitializedParams {  }
    }
}

/// General parameters to register for a capability.
#[derive(Debug)]
pub struct Registration {
    /// Id associated with the request.
    pub id: String,
    /// Method/capability to register for.
    pub method: String,
    /// Options necessary for the registration.
    pub register_options: Elective<Json>,
}

/// Request sent from server to client to register for a new capability on
/// the client side.
#[derive(Debug)]
pub struct RegistrationParams {
    /// Registrations requested by the server.
    pub registrations: Vec<Registration>,
}

/// Notification sent from the client to server to signal newly opened
/// text documents.
#[derive(Debug, Clone, PartialEq)]
pub struct DidOpenTextDocumentParams {
    /// Document that was opened.
    pub text_document: TextDocumentItem,
}

impl From<TextDocumentItem> for DidOpenTextDocumentParams {
    /// Wraps the opened document.
    fn from(text_document: TextDocumentItem) -> (r: Self) {
        DidOpenTextDocumentParams { text_document }
    }
}

impl vstd::std_specs::convert::FromSpecImpl<TextDocumentItem> for DidOpenTextDocumentParams {
    open spec fn obeys_from_spec() -> bool {
        true
    }

    open spec fn from_spec(text_document: TextDocumentItem) -> DidOpenTextDocumentParams {
        DidOpenTextDocumentParams { text_document }
    }
}

/// Denotes a specific version of a text document.
#[derive(Debug, Clone, PartialEq)]
pub struct VersionedTextDocumentIdentifier {
    /// URI of text document.
    pub uri: String,
    /// Version number of the document.
    ///
    /// If `Option::None`, content on disk is the truth.
    pub version: Option<i64>,
}

impl From<TextDocumentItem> for VersionedTextDocumentIdentifier {
    /// Identifies the document at its current version.
    fn from(value: TextDocumentItem) -> (r: Self) {
        VersionedTextDocumentIdentifier { uri: value.uri, version: Some(value.version) }
    }
}

impl vstd::std_specs::convert::FromSpecImpl<TextDocumentItem> for VersionedTextDocumentIdentifier {
    open spec fn obeys_from_spec() -> bool {
        true
    }

    open spec fn from_spec(value: TextDocumentItem) -> VersionedTextDocumentIdentifier {
        VersionedTextDocumentIdentifier { uri: value.uri, version: Some(value.version) }
    }
}

/// Describes a change to a text document.
///
/// If `range` and `range_length` are `Elective::Absent`, `text` is the
/// full content of the document.
#[derive(Debug, Clone, PartialEq)]
pub struct TextDocumentContentChangeEvent {
    /// `Range` of the changed document.
    pub range: Elective<Range>,
    /// Length of the `Range`.
    pub range_length: Elective<u64>,
    /// New text of the `Range`.
    pub text: String,
}

impl TextDocumentContentChangeEvent {
    /// Creates a new `TextDocumentContentChangeEvent`: the new text of a
    /// given range, with no range length.
    pub fn new(range: Range, text: String) -> (r: Self)
        ensures
            r.range == Elective::Present(range),
            r.range_length is Absent,
            r.text == text,
    {
        TextDocumentContentChangeEvent {
            range: Elective::Present(range),
            range_length: Elective::Absent,
            text,
        }
    }
}

/// Notification sent from client to server to signal changes to a text
/// document.
#[derive(Debug, Clone, PartialEq)]
pub struct DidChangeTextDocumentParams {
    /// Document that changed.
    ///
    /// Version number identifies version after all provided content
    /// changes have been applied.
    pub text_document: VersionedTextDocumentIdentifier,
    /// Changes to the content.
    pub content_changes: Vec<TextDocumentContentChangeEvent>,
}

impl DidChangeTextDocumentParams {
    /// Creates a new `DidChangeTextDocumentParams`.
    pub fn new(
        text_document: VersionedTextDocumentIdentifier,
        content_changes: Vec<TextDocumentContentChangeEvent>,
    ) -> (r: Self)
        ensures
            r.text_document == text_document,
            r.content_changes == content_changes,
    {
        DidChangeTextDocumentParams { text_document, content_changes }
    }
}

/// Notification sent from the server to the client to signal results of
/// validation runs.
#[derive(Debug, Clone, PartialEq)]
pub struct PublishDiagnosticsParams {
    /// URI of document for which diagnostic information is reported.
    pub uri: String,
    /// Diagnostic information items.
    pub diagnostics: Vec<Diagnostic>,
}

/// Either a boolean or `T`: an untagged one-of whose first variant
/// matches a boolean literal and whose second matches the shape of `T`.
#[derive(Debug, Clone, PartialEq)]
pub enum BooleanOrOptions<T> {
    /// A boolean.
    Boolean(bool),
    /// `T`.
    Options(T),
}

impl<T> Default for BooleanOrOptions<T> {
    /// The boolean variant, false.
    fn default() -> (r: Self)
        ensures
            r == BooleanOrOptions::<T>::Boolean(false),
    {
        BooleanOrOptions::Boolean(false)
    }
}

/// Adds static registration and document selector fields to `T`.
#[derive(Debug, Clone, PartialEq)]
pub struct StaticDocumentSelectorOptions<T> {
    /// The id used to register the request.
    pub id: Elective<String>,
    /// Identifies the scope of the registration.
    ///
    /// If `Option::None`, `DocumentSelector` provided by client will be
    /// used.
    pub document_selector: Option<char>,
    /// The options.
    pub options: T,
}

/// One of a boolean, `T`, or `StaticDocumentSelectorOptions<T>`: an
/// untagged one-of tried in declaration order.
#[derive(Debug, Clone, PartialEq)]
pub enum BooleanOrOptionsOrStaticDocumentSelectorOptions<T> {
    /// A boolean.
    Boolean(bool),
    /// Only `T`.
    Options(T),
    /// Adds static registration and document selector fields to `T`.
    StaticDocumentSelectorOptions(StaticDocumentSelectorOptions<T>),
}

impl<T> Default for BooleanOrOptionsOrStaticDocumentSelectorOptions<T> {
    /// The boolean variant, false.
    fn default() -> (r: Self)
        ensures
            r == BooleanOrOptionsOrStaticDocumentSelectorOptions::<T>::Boolean(false),
    {
        BooleanOrOptionsOrStaticDocumentSelectorOptions::Boolean(false)
    }
}

/// Change notification options: an untagged one-of of a support flag or
/// the identifier that can unregister change notifications.
#[derive(Debug, Clone, PartialEq)]
pub enum ChangeNotificationsOptions {
    /// Supports change notifications.
    Boolean(bool),
    /// The identifier that can unregister change notifications.
    ///
    /// Specifies support for change notifications.
    Id(String),
}

impl Default for ChangeNotificationsOptions {
    /// The boolean variant, false.
    fn default() -> (r: Self)
        ensures
            r == ChangeNotificationsOptions::Boolean(false),
    {
        ChangeNotificationsOptions::Boolean(false)
    }
}

/// Completion options.
#[derive(Debug, Clone, PartialEq)]
pub struct CompletionOptions {
    /// Characters that trigger completion automatically.
    pub trigger_characters: Vec<String>,
    /// Provides support to resolve additional information for a
    /// completion item.
    pub resolve_provider: bool,
}

impl Default for CompletionOptions {
    /// No trigger characters and no resolve support.
    fn default() -> (r: Self)
        ensures
            r.trigger_characters@ == Seq::<String>::empty(),
            r.resolve_provider == false,
    {
        CompletionOptions { trigger_characters: Vec::new(), resolve_provider: false }
    }
}

/// Signature help options.
#[derive(Debug, Clone, PartialEq)]
pub struct SignatureHelpOptions {
    /// Characters that trigger signature help automatically.
    pub trigger_characters: Vec<String>,
}

impl Default for SignatureHelpOptions {
    /// No trigger characters.
    fn default() -> (r: Self)
        ensures
            r.trigger_characters@ == Seq::<String>::empty(),
    {
        SignatureHelpOptions { trigger_characters: Vec::new() }
    }
}

/// Options of a goto-style request registration.
#[derive(Debug, Clone, PartialEq)]
pub struct GotoOptions {
    /// The id used to register the request.
    pub id: Elective<String>,
    /// Identifies the scope of the registration.
    ///
    /// If `Option::None`, `DocumentSelector` provided by client will be
    /// used.
    pub document_selector: Option<char>,
}

impl Default for GotoOptions {
    /// No registration id and no document selector.
    fn default() -> (r: Self)
        ensures
            r.id is Absent,
            r.document_selector is None,
    {
        GotoOptions { id: Elective::Absent, document_selector: None }
    }
}

/// Code action options.
#[derive(Debug, Clone, PartialEq)]
pub struct CodeActionOptions {
    /// `CodeActionKind`s supported by server.
    pub code_action_kinds: Vec<String>,
}

impl Default for CodeActionOptions {
    /// No supported kinds.
    fn default() -> (r: Self)
        ensures
            r.code_action_kinds@ == Seq::<String>::empty(),
    {
        CodeActionOptions { code_action_kinds: Vec::new() }
    }
}

/// Code lens options.
#[derive(Debug, Clone, Copy, PartialEq, Eq, Structural)]
pub struct CodeLensOptions {
    /// Provides support to resolve additional information for a code lens
    /// item.
    pub resolve_provider: bool,
}

impl Default for CodeLensOptions {
    /// No resolve support.
    fn default() -> (r: Self)
        ensures
            r.resolve_provider == false,
    {
        CodeLensOptions { resolve_provider: false }
    }
}

/// Format document on type options.
#[derive(Debug, Clone, PartialEq)]
pub struct DocumentOnTypeFormattingOptions {
    /// Character on which formatting should be triggered.
    pub first_trigger_character: String,
    /// More trigger characters.
    pub more_trigger_character: Vec<String>,
}

impl Default for DocumentOnTypeFormattingOptions {
    /// No trigger characters.
    fn default() -> (r: Self)
        ensures
            r.first_trigger_character@ == Seq::<char>::empty(),
            r.more_trigger_character@ == Seq::<String>::empty(),
    {
        DocumentOnTypeFormattingOptions {
            first_trigger_character: String::new(),
            more_trigger_character: Vec::new(),
        }
    }
}

/// Rename options.
#[derive(Debug, Clone, Copy, PartialEq, Eq, Structural)]
pub struct RenameOptions {
    /// Renames should be checked and tested before being executed.
    pub prepare_provider: bool,
}

impl Default for RenameOptions {
    /// No prepare support.
    fn default() -> (r: Self)
        ensures
            r.prepare_provider == false,
    {
        RenameOptions { prepare_provider: false }
    }
}

/// Document link options.
#[derive(Debug, Clone, Copy, PartialEq, Eq, Structural)]
pub struct DocumentLinkOptions {
    /// Provides support to resolve additional information for a document
    /// links item.
    pub resolve_provider: bool,
}

impl Default for DocumentLinkOptions {
    /// No resolve support.
    fn default() -> (r: Self)
        ensures
            r.resolve_provider == false,
    {
        DocumentLinkOptions { resolve_provider: false }
    }
}

/// Color provider options.
#[derive(Debug, Clone, Copy, PartialEq, Eq, Structural)]
pub struct ColorProviderOptions {}

impl Default for ColorProviderOptions {
    /// The empty options.
    fn default() -> (r: Self)
        ensures
            r == (ColorProviderOptions {  }),
    {
        ColorProviderOptions {  }
    }
}

/// Folding range provider options.
#[derive(Debug, Clone, Copy, PartialEq, Eq, Structural)]
pub struct FoldingRangeProviderOptions {}

impl Default for FoldingRangeProviderOptions {
    /// The empty options.
    fn default() -> (r: Self)
        ensures
            r == (FoldingRangeProviderOptions {  }),
    {
        FoldingRangeProviderOptions {  }
    }
}

/// Execute command options.
#[derive(Debug, Clone, PartialEq)]
pub struct ExecuteCommandOptions {
    /// Commands to be executed on the server.
    pub commands: Vec<String>,
}

impl Default for ExecuteCommandOptions {
    /// No commands.
    fn default() -> (r: Self)
        ensures
            r.commands@ == Seq::<String>::empty(),
    {
        ExecuteCommandOptions { commands: Vec::new() }
    }
}

/// Describes server capabilities specific to `WorkspaceFolder`s.
#[derive(Debug, Clone, PartialEq)]
pub struct WorkspaceFoldersOptions {
    /// Supports workspace folders.
    pub supported: bool,
    /// Supports `WorkspaceFolder` change notifications.
    pub change_notifications: ChangeNotificationsOptions,
}

impl Default for WorkspaceFoldersOptions {
    /// No folder support and no change notifications.
    fn default() -> (r: Self)
        ensures
            r.supported == false,
            r.change_notifications == ChangeNotificationsOptions::Boolean(false),
    {
        WorkspaceFoldersOptions {
            supported: false,
            change_notifications: ChangeNotificationsOptions::Boolean(false),
        }
    }
}

/// Describes server capabilities specific to the workspace.
#[derive(Debug, Clone, PartialEq)]
pub struct WorkspaceOptions {
    /// Capabilities specific to workspace folders.
    pub workspace_folders: WorkspaceFoldersOptions,
}

impl Default for WorkspaceOptions {
    /// The default folder options.
    fn default() -> (r: Self)
        ensures
            r.workspace_folders.supported == false,
            r.workspace_folders.change_notifications == ChangeNotificationsOptions::Boolean(
                false,
            ),
    {
        WorkspaceOptions { workspace_folders: WorkspaceFoldersOptions::default() }
    }
}

/// Describes capabilities provided by the server.
#[derive(Debug)]
pub struct ServerCapabilities {
    /// Defines how documents are synced.
    pub text_document_sync: TextDocumentSyncProvider,
    /// Provides hover support.
    pub hover_provider: bool,
    /// Provides completion support.
    pub completion_provider: CompletionOptions,
    /// Provides signature help support.
    pub signature_help_provider: SignatureHelpOptions,
    /// Provides goto definition support.
    pub definition_provider: bool,
    /// Provides goto type definition support.
    pub type_definition_provider: BooleanOrOptions<GotoOptions>,
    /// Provides goto implementation support.
    pub implementation_provider: BooleanOrOptions<GotoOptions>,
    /// Provides find references support.
    pub references_provider: bool,
    /// Provides document highlight support.
    pub document_highlight_provider: bool,
    /// Provides document symbol support.
    pub document_symbol_provider: bool,
    /// Provides workspace symbol support.
    pub workspace_symbol_provider: bool,
    /// Provides code actions.
    pub code_action_provider: BooleanOrOptions<CodeActionOptions>,
    /// Provides code lens.
    pub code_lens_provider: CodeLensOptions,
    /// Provides document formatting.
    pub document_formatting_provider: bool,
    /// Provides document range formatting.
    pub document_range_formatting_provider: bool,
    /// Provides document formatting on typing.
    pub document_on_type_formatting_provider: DocumentOnTypeFormattingOptions,
    /// Provides rename support.
    pub rename_provider: BooleanOrOptions<RenameOptions>,
    /// Provides document link support.
    pub document_link_provider: DocumentLinkOptions,
    /// Provides color provider support.
    pub color_provider: BooleanOrOptionsOrStaticDocumentSelectorOptions<ColorProviderOptions>,
    /// Provides folding provider support.
    pub folding_range_provider: BooleanOrOptionsOrStaticDocumentSelectorOptions<
        FoldingRangeProviderOptions,
    >,
    /// Provides goto declaration support.
    pub declaration_provider: BooleanOrOptions<GotoOptions>,
    /// Provides execute command support.
    pub execute_command_provider: ExecuteCommandOptions,
    /// Server capabilities specific to a workspace.
    pub workspace: WorkspaceOptions,
    /// Experimental server capabilities.
    pub experimental: Elective<Json>,
}

impl Default for ServerCapabilities {
    /// Every capability at its own default: nothing is provided.
    fn default() -> (r: Self)
        ensures
            r.text_document_sync == TextDocumentSyncProvider::Kind(TextDocumentSyncKind::NoSync),
            r.hover_provider == false,
            r.completion_provider.trigger_characters@ == Seq::<String>::empty(),
            r.completion_provider.resolve_provider == false,
            r.signature_help_provider.trigger_characters@ == Seq::<String>::empty(),
            r.definition_provider == false,
            r.type_definition_provider == BooleanOrOptions::<GotoOptions>::Boolean(false),
            r.implementation_provider == BooleanOrOptions::<GotoOptions>::Boolean(false),
            r.references_provider == false,
            r.document_highlight_provider == false,
            r.document_symbol_provider == false,
            r.workspace_symbol_provider == false,
            r.code_action_provider == BooleanOrOptions::<CodeActionOptions>::Boolean(false),
            r.code_lens_provider.resolve_provider == false,
            r.document_formatting_provider == false,
            r.document_range_formatting_provider == false,
            r.document_on_type_formatting_provider.first_trigger_character@ == Seq::<
                char,
            >::empty(),
            r.document_on_type_formatting_provider.more_trigger_character@ == Seq::<
                String,
            >::empty(),
            r.rename_provider == BooleanOrOptions::<RenameOptions>::Boolean(false),
            r.document_link_provider.resolve_provider == false,
            r.color_provider == BooleanOrOptionsOrStaticDocumentSelectorOptions::<
                ColorProviderOptions,
            >::Boolean(false),
            r.folding_range_provider == BooleanOrOptionsOrStaticDocumentSelectorOptions::<
                FoldingRangeProviderOptions,
            >::Boolean(false),
            r.declaration_provider == BooleanOrOptions::<GotoOptions>::Boolean(false),
            r.execute_command_provider.commands@ == Seq::<String>::empty(),
            r.workspace.workspace_folders.supported == false,
            r.experimental is Absent,
    {
        ServerCapabilities {
            text_document_sync: TextDocumentSyncProvider::Kind(TextDocumentSyncKind::NoSync),
            hover_provider: false,
            completion_provider: CompletionOptions::default(),
            signature_help_provider: SignatureHelpOptions::default(),
            definition_provider: false,
            type_definition_provider: BooleanOrOptions::Boolean(false),
            implementation_provider: BooleanOrOptions::Boolean(false),
            references_provider: false,
            document_highlight_provider: false,
            document_symbol_provider: false,
            workspace_symbol_provider: false,
            code_action_provider: BooleanOrOptions::Boolean(false),
            code_lens_provider: CodeLensOptions::default(),
            document_formatting_provider: false,
            document_range_formatting_provider: false,
            document_on_type_formatting_provider: DocumentOnTypeFormattingOptions::default(),
            rename_provider: BooleanOrOptions::Boolean(false),
            document_link_provider: DocumentLinkOptions::default(),
            color_provider: BooleanOrOptionsOrStaticDocumentSelectorOptions::Boolean(false),
            folding_range_provider: BooleanOrOptionsOrStaticDocumentSelectorOptions::Boolean(
                false,
            ),
            declaration_provider: BooleanOrOptions::Boolean(false),
            execute_command_provider: ExecuteCommandOptions::default(),
            workspace: WorkspaceOptions::default(),
            experimental: Elective::Absent,
        }
    }
}

/// The result of an `initialize` request.
#[derive(Debug)]
pub struct InitializeResult {
    /// Capabilities provided by the server.
    pub capabilities: ServerCapabilities,
}

} // verus!
