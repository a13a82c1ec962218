//! Schema-driven layout and serialization rules for LSP message objects.
//!
//! The crate has two halves. The first is the generator core: an
//! annotation parser ([`attr`]) that turns the token sequence attached to
//! a type declaration into a validated specification; a shape synthesizer
//! ([`synth`]) that turns that specification plus the declared fields or
//! variants into the final field list or dispatch strategy, with the
//! lowerCamelCase wire-name transform ([`text`]); and the record codec
//! ([`codec`]) that generated types rely on at runtime, built on the
//! tri-state [`Elective`] value and an explicit payload model ([`json`]).
//! The second half is a catalog of message and capability objects
//! ([`general`], [`client`], [`structures`], [`messages`]) laid out
//! exactly as the generator prescribes.

pub mod attr;
pub mod client;
pub mod codec;
pub mod elective;
pub mod general;
pub mod json;
pub mod messages;
pub mod structures;
pub mod synth;
pub mod text;

pub use client::{ClientCapabilities, InitializeParams, TextDocumentClientCapabilities};
pub use elective::Elective;
pub use general::{
    DidChangeConfigurationCapabilities, DidChangeWatchedFilesCapabilities,
    ExecuteCommandCapabilities, FailureHandlingKind, ResourceOperationKind, SymbolCapabilities,
    SymbolKindCapabilities, WorkspaceClientCapabilities, WorkspaceEditCapabilities,
};
pub use messages::{
    BooleanOrOptions, BooleanOrOptionsOrStaticDocumentSelectorOptions, ChangeNotificationsOptions,
    CompletionItemKind, DidChangeTextDocumentParams, DidOpenTextDocumentParams, InitializeResult,
    InitializedParams, PublishDiagnosticsParams, Registration, RegistrationParams,
    ServerCapabilities, StaticDocumentSelectorOptions, TextDocumentContentChangeEvent,
    TextDocumentSyncKind, TextDocumentSyncOptions, TextDocumentSyncProvider, TraceKind,
    VersionedTextDocumentIdentifier, WorkspaceFolder,
};
pub use structures::{
    Diagnostic, LanguageId, LanguageIdKind, MarkupKind, Position, Range, Symbol, SymbolKind,
    TextDocumentItem,
};
