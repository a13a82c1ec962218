//! Client capability objects of the message catalog, laid out as the
//! generator prescribes: each request's capabilities carry the fields its
//! annotations inject, ahead of the declared fields.

use vstd::prelude::*;
use crate::elective::Elective;
use crate::general::WorkspaceClientCapabilities;
use crate::json::Json;
use crate::messages::{CompletionItemKind, TraceKind, WorkspaceFolder};
use crate::structures::MarkupKind;

verus! {

/// Defines capabilities specific to text document synchronization.
#[derive(Debug, Clone, Copy, PartialEq, Eq, Structural)]
pub struct SynchronizationCapabilities {
    /// Supports dynamic registration of the text document synchronization.
    pub dynamic_registration: bool,
    /// Supports the `textDocument/willSave` notification.
    pub will_save: bool,
    /// Supports the `textDocument/willSaveWaitUntil` notification.
    pub will_save_until: bool,
    /// Supports the `textDocument/didSave` notification.
    pub did_save: bool,
}

impl Default for SynchronizationCapabilities {
    /// No synchronization support.
    fn default() -> (r: Self)
        ensures
            r == (SynchronizationCapabilities {
                dynamic_registration: false,
                will_save: false,
                will_save_until: false,
                did_save: false,
            }),
    {
        SynchronizationCapabilities {
            dynamic_registration: false,
            will_save: false,
            will_save_until: false,
            did_save: false,
        }
    }
}

/// Describes capabilities specific to `CompletionItem`s.
#[derive(Debug, Clone, PartialEq)]
pub struct CompletionItemCapabilities {
    /// Preferred formats for the documentation property, most preferred
    /// first.
    pub documentation_format: Vec<MarkupKind>,
    /// Supports snippets as insert text.
    pub snippet_support: bool,
    /// Supports commit characters on a `CompletionItem`.
    pub commit_characters_support: bool,
    /// Supports the deprecated property on a `CompletionItem`.
    pub deprecated_support: bool,
    /// Supports the preselect property on a `CompletionItem`.
    pub preselect_support: bool,
}

impl Default for CompletionItemCapabilities {
    /// No formats and no property support.
    fn default() -> (r: Self)
        ensures
            r.documentation_format@ == Seq::<MarkupKind>::empty(),
            r.snippet_support == false,
            r.commit_characters_support == false,
            r.deprecated_support == false,
            r.preselect_support == false,
    {
        CompletionItemCapabilities {
            documentation_format: Vec::new(),
            snippet_support: false,
            commit_characters_support: false,
            deprecated_support: false,
            preselect_support: false,
        }
    }
}

/// Describes capabilities specific to `CompletionItemKind`s.
#[derive(Debug, Clone, PartialEq)]
pub struct CompletionItemKindCapabilities {
    /// The `CompletionItemKind`s the client supports.
    ///
    /// If `Elective::Absent`, only the kinds supported in version 1 may
    /// be used.
    pub value_set: Elective<Vec<CompletionItemKind>>,
}

impl Default for CompletionItemKindCapabilities {
    /// No value set.
    fn default() -> (r: Self)
        ensures
            r.value_set is Absent,
    {
        CompletionItemKindCapabilities { value_set: Elective::Absent }
    }
}

/// Defines capabilities specific to the `textDocument/completion` request.
#[derive(Debug, Clone, PartialEq)]
pub struct CompletionCapabilities {
    /// Supports dynamic registration of the `textDocument/completion` request.
    pub dynamic_registration: bool,
    /// Capabilities specific to `CompletionItem`s.
    pub completion_item: CompletionItemCapabilities,
    /// Capabilities specific to `CompletionItemKind`s.
    pub completion_item_kind: CompletionItemKindCapabilities,
    /// Supports including additional context information in the
    /// `textDocument/completion` request.
    pub context_support: bool,
}

impl Default for CompletionCapabilities {
    /// No completion support.
    fn default() -> (r: Self)
        ensures
            r.dynamic_registration == false,
            r.completion_item.documentation_format@ == Seq::<MarkupKind>::empty(),
            r.completion_item.snippet_support == false,
            r.completion_item.commit_characters_support == false,
            r.completion_item.deprecated_support == false,
            r.completion_item.preselect_support == false,
            r.completion_item_kind.value_set is Absent,
            r.context_support == false,
    {
        CompletionCapabilities {
            dynamic_registration: false,
            completion_item: CompletionItemCapabilities::default(),
            completion_item_kind: CompletionItemKindCapabilities::default(),
            context_support: false,
        }
    }
}

/// Defines capabilities specific to the `textDocument/hover` request.
#[derive(Debug, Clone, PartialEq)]
pub struct HoverCapabilities {
    /// Supports dynamic registration of the `textDocument/hover` request.
    pub dynamic_registration: bool,
    /// Preferred formats for the content property, most preferred first.
    pub content_format: Vec<MarkupKind>,
}

impl Default for HoverCapabilities {
    /// No hover support.
    fn default() -> (r: Self)
        ensures
            r.dynamic_registration == false,
            r.content_format@ == Seq::<MarkupKind>::empty(),
    {
        HoverCapabilities { dynamic_registration: false, content_format: Vec::new() }
    }
}

/// Describes capabilities specific to parameter information.
#[derive(Debug, Clone, Copy, PartialEq, Eq, Structural)]
pub struct ParameterInformationCapabilities {
    /// Supports processing label offsets instead of a simple label
    /// string.
    pub label_offset_support: bool,
}

impl Default for ParameterInformationCapabilities {
    /// No label offset support.
    fn default() -> (r: Self)
        ensures
            r.label_offset_support == false,
    {
        ParameterInformationCapabilities { label_offset_support: false }
    }
}

/// Describes capabilities specific to `SignatureInformation`s.
#[derive(Debug, Clone, PartialEq)]
pub struct SignatureInformationCapabilities {
    /// Preferred formats for the documentation property, most preferred
    /// first.
    pub documentation_format: Vec<MarkupKind>,
    /// Capabilities specific to parameter information.
    pub parameter_information: ParameterInformationCapabilities,
}

impl Default for SignatureInformationCapabilities {
    /// No formats and no parameter information support.
    fn default() -> (r: Self)
        ensures
            r.documentation_format@ == Seq::<MarkupKind>::empty(),
            r.parameter_information.label_offset_support == false,
    {
        SignatureInformationCapabilities {
            documentation_format: Vec::new(),
            parameter_information: ParameterInformationCapabilities::default(),
        }
    }
}

/// Defines capabilities specific to the `textDocument/signatureHelp`
/// request.
#[derive(Debug, Clone, PartialEq)]
pub struct SignatureHelpCapabilities {
    /// Supports dynamic registration of the `textDocument/signatureHelp` request.
    pub dynamic_registration: bool,
    /// Capabilities specific to `SignatureInformation`s.
    pub signature_information: SignatureInformationCapabilities,
}

impl Default for SignatureHelpCapabilities {
    /// No signature help support.
    fn default() -> (r: Self)
        ensures
            r.dynamic_registration == false,
            r.signature_information.documentation_format@ == Seq::<MarkupKind>::empty(),
            r.signature_information.parameter_information.label_offset_support == false,
    {
        SignatureHelpCapabilities {
            dynamic_registration: false,
            signature_information: SignatureInformationCapabilities::default(),
        }
    }
}

/// Defines capabilities specific to the `textDocument/references`
/// request.
#[derive(Debug, Clone, Copy, PartialEq, Eq, Structural)]
pub struct ReferencesCapabilities {
    /// Supports dynamic registration of the `textDocument/references` request.
    pub dynamic_registration: bool,
}

impl Default for ReferencesCapabilities {
    /// No references support.
    fn default() -> (r: Self)
        ensures
            r.dynamic_registration == false,
    {
        ReferencesCapabilities { dynamic_registration: false }
    }
}

/// Defines capabilities specific to the `textDocument/documentHighlight`
/// request.
#[derive(Debug, Clone, Copy, PartialEq, Eq, Structural)]
pub struct DocumentHighlightCapabilities {
    /// Supports dynamic registration of the `textDocument/documentHighlight` request.
    pub dynamic_registration: bool,
}

impl Default for DocumentHighlightCapabilities {
    /// No document highlight support.
    fn default() -> (r: Self)
        ensures
            r.dynamic_registration == false,
    {
        DocumentHighlightCapabilities { dynamic_registration: false }
    }
}

/// Defines capabilities specific to the `textDocument/documentSymbol`
/// request.
#[derive(Debug, Clone, PartialEq)]
pub struct DocumentSymbolCapabilities {
    /// Supports dynamic registration of the `textDocument/documentSymbol` request.
    pub dynamic_registration: bool,
    /// Capabilities specific to `SymbolKind` in the
    /// `textDocument/documentSymbol` request.
    pub symbol_kind: crate::general::SymbolKindCapabilities,
    /// Supports hierarchical document symbols.
    pub hierarchical_document_symbol_support: bool,
}

impl Default for DocumentSymbolCapabilities {
    /// No document symbol support.
    fn default() -> (r: Self)
        ensures
            r.dynamic_registration == false,
            r.symbol_kind.value_set is Absent,
            r.hierarchical_document_symbol_support == false,
    {
        DocumentSymbolCapabilities {
            dynamic_registration: false,
            symbol_kind: crate::general::SymbolKindCapabilities::default(),
            hierarchical_document_symbol_support: false,
        }
    }
}

/// Defines capabilities specific to the `textDocument/formatting`
/// request.
#[derive(Debug, Clone, Copy, PartialEq, Eq, Structural)]
pub struct FormattingCapabilities {
    /// Supports dynamic registration of the `textDocument/formatting` request.
    pub dynamic_registration: bool,
}

impl Default for FormattingCapabilities {
    /// No formatting support.
    fn default() -> (r: Self)
        ensures
            r.dynamic_registration == false,
    {
        FormattingCapabilities { dynamic_registration: false }
    }
}

/// Defines capabilities specific to the `textDocument/rangeFormatting`
/// request.
#[derive(Debug, Clone, Copy, PartialEq, Eq, Structural)]
pub struct RangeFormattingCapabilities {
    /// Supports dynamic registration of the `textDocument/rangeFormatting` request.
    pub dynamic_registration: bool,
}

impl Default for RangeFormattingCapabilities {
    /// No range formatting support.
    fn default() -> (r: Self)
        ensures
            r.dynamic_registration == false,
    {
        RangeFormattingCapabilities { dynamic_registration: false }
    }
}

/// Defines capabilities specific to the `textDocument/onTypeFormatting`
/// request.
#[derive(Debug, Clone, Copy, PartialEq, Eq, Structural)]
pub struct OnTypeFormattingCapabilities {
    /// Supports dynamic registration of the `textDocument/onTypeFormatting` request.
    pub dynamic_registration: bool,
}

impl Default for OnTypeFormattingCapabilities {
    /// No on-type formatting support.
    fn default() -> (r: Self)
        ensures
            r.dynamic_registration == false,
    {
        OnTypeFormattingCapabilities { dynamic_registration: false }
    }
}

/// Defines capabilities specific to the `textDocument/declaration`
/// request.
#[derive(Debug, Clone, Copy, PartialEq, Eq, Structural)]
pub struct DeclarationCapabilities {
    /// Supports dynamic registration of the `textDocument/declaration` request.
    pub dynamic_registration: bool,
    /// Supports additional metadata in the form of declaration links.
    pub link_support: bool,
}

impl Default for DeclarationCapabilities {
    /// No declaration support.
    fn default() -> (r: Self)
        ensures
            r == (DeclarationCapabilities { dynamic_registration: false, link_support: false }),
    {
        DeclarationCapabilities { dynamic_registration: false, link_support: false }
    }
}

/// Defines capabilities specific to the `textDocument/definition`
/// request.
#[derive(Debug, Clone, Copy, PartialEq, Eq, Structural)]
pub struct DefinitionCapabilities {
    /// Supports dynamic registration of the `textDocument/definition` request.
    pub dynamic_registration: bool,
    /// Supports additional metadata in the form of definition links.
    pub link_support: bool,
}

impl Default for DefinitionCapabilities {
    /// No definition support.
    fn default() -> (r: Self)
        ensures
            r == (DefinitionCapabilities { dynamic_registration: false, link_support: false }),
    {
        DefinitionCapabilities { dynamic_registration: false, link_support: false }
    }
}

/// Defines capabilities specific to the `textDocument/typeDefinition`
/// request.
#[derive(Debug, Clone, Copy, PartialEq, Eq, Structural)]
pub struct TypeDefinitionCapabilities {
    /// Supports dynamic registration of the `textDocument/typeDefinition` request.
    pub dynamic_registration: bool,
    /// Supports additional metadata in the form of definition links.
    pub link_support: bool,
}

impl Default for TypeDefinitionCapabilities {
    /// No type definition support.
    fn default() -> (r: Self)
        ensures
            r == (TypeDefinitionCapabilities { dynamic_registration: false, link_support: false }),
    {
        TypeDefinitionCapabilities { dynamic_registration: false, link_support: false }
    }
}

/// Defines capabilities specific to the `textDocument/implementation`
/// request.
#[derive(Debug, Clone, Copy, PartialEq, Eq, Structural)]
pub struct ImplementationCapabilities {
    /// Supports dynamic registration of the `textDocument/implementation` request.
    pub dynamic_registration: bool,
    /// Supports additional metadata in the form of implementation links.
    pub link_support: bool,
}

impl Default for ImplementationCapabilities {
    /// No implementation support.
    fn default() -> (r: Self)
        ensures
            r == (ImplementationCapabilities { dynamic_registration: false, link_support: false }),
    {
        ImplementationCapabilities { dynamic_registration: false, link_support: false }
    }
}

/// Describes capabilities specific to `CodeActionKind`s.
#[derive(Debug, Clone, PartialEq)]
pub struct CodeActionKindCapabilities {
    /// The `CodeActionKind`s the client supports.
    pub value_set: Elective<Vec<String>>,
}

impl Default for CodeActionKindCapabilities {
    /// No value set.
    fn default() -> (r: Self)
        ensures
            r.value_set is Absent,
    {
        CodeActionKindCapabilities { value_set: Elective::Absent }
    }
}

/// Describes capabilities specific to code action literals.
#[derive(Debug, Clone, PartialEq)]
pub struct CodeActionLiteralCapabilities {
    /// Capabilities specific to `CodeActionKind`s.
    pub code_action_kind: CodeActionKindCapabilities,
}

impl Default for CodeActionLiteralCapabilities {
    /// No kind capabilities.
    fn default() -> (r: Self)
        ensures
            r.code_action_kind.value_set is Absent,
    {
        CodeActionLiteralCapabilities { code_action_kind: CodeActionKindCapabilities::default() }
    }
}

/// Defines capabilities specific to the `textDocument/codeAction`
/// request.
#[derive(Debug, Clone, PartialEq)]
pub struct CodeActionCapabilities {
    /// Supports dynamic registration of the `textDocument/codeAction` request.
    pub dynamic_registration: bool,
    /// Capabilities specific to code action literals.
    pub code_action_literal_support: Elective<CodeActionLiteralCapabilities>,
}

impl Default for CodeActionCapabilities {
    /// No code action support.
    fn default() -> (r: Self)
        ensures
            r.dynamic_registration == false,
            r.code_action_literal_support is Absent,
    {
        CodeActionCapabilities {
            dynamic_registration: false,
            code_action_literal_support: Elective::Absent,
        }
    }
}

/// Defines capabilities specific to the `textDocument/codeLens` request.
#[derive(Debug, Clone, Copy, PartialEq, Eq, Structural)]
pub struct CodeLensCapabilities {
    /// Supports dynamic registration of the `textDocument/codeLens` request.
    pub dynamic_registration: bool,
}

impl Default for CodeLensCapabilities {
    /// No code lens support.
    fn default() -> (r: Self)
        ensures
            r.dynamic_registration == false,
    {
        CodeLensCapabilities { dynamic_registration: false }
    }
}

/// Defines capabilities specific to the `textDocument/documentLink`
/// request.
#[derive(Debug, Clone, Copy, PartialEq, Eq, Structural)]
pub struct DocumentLinkCapabilities {
    /// Supports dynamic registration of the `textDocument/documentLink` request.
    pub dynamic_registration: bool,
}

impl Default for DocumentLinkCapabilities {
    /// No document link support.
    fn default() -> (r: Self)
        ensures
            r.dynamic_registration == false,
    {
        DocumentLinkCapabilities { dynamic_registration: false }
    }
}

/// Defines capabilities specific to the `textDocument/documentColor` and
/// `textDocument/colorPresentation` requests.
#[derive(Debug, Clone, Copy, PartialEq, Eq, Structural)]
pub struct ColorProviderCapabilities {
    /// Supports dynamic registration of the color provider.
    pub dynamic_registration: bool,
}

impl Default for ColorProviderCapabilities {
    /// No color provider support.
    fn default() -> (r: Self)
        ensures
            r.dynamic_registration == false,
    {
        ColorProviderCapabilities { dynamic_registration: false }
    }
}

/// Defines capabilities specific to the `textDocument/rename` request.
#[derive(Debug, Clone, Copy, PartialEq, Eq, Structural)]
pub struct RenameCapabilities {
    /// Supports dynamic registration of the `textDocument/rename` request.
    pub dynamic_registration: bool,
    /// Supports testing for validity of rename operations before
    /// execution.
    pub prepare_support: bool,
}

impl Default for RenameCapabilities {
    /// No rename support.
    fn default() -> (r: Self)
        ensures
            r == (RenameCapabilities { dynamic_registration: false, prepare_support: false }),
    {
        RenameCapabilities { dynamic_registration: false, prepare_support: false }
    }
}

/// Defines capabilities specific to the `textDocument/publishDiagnostics`
/// notification.
#[derive(Debug, Clone, Copy, PartialEq, Eq, Structural)]
pub struct PublishDiagnosticsCapabilities {
    /// Supports diagnostics with related information.
    pub related_information: bool,
}

impl Default for PublishDiagnosticsCapabilities {
    /// No related information support.
    fn default() -> (r: Self)
        ensures
            r.related_information == false,
    {
        PublishDiagnosticsCapabilities { related_information: false }
    }
}

/// Defines capabilities specific to the `textDocument/foldingRange`
/// request.
#[derive(Debug, Clone, Copy, PartialEq, Eq, Structural)]
pub struct FoldingRangeCapabilities {
    /// Supports dynamic registration of the `textDocument/foldingRange` request.
    pub dynamic_registration: bool,
    /// The preferred maximum number of folding ranges per document.
    ///
    /// Serves as a hint; servers are free to follow the limit.
    pub range_limit: u64,
    /// Only supports folding complete lines.
    pub line_folding_only: bool,
}

impl Default for FoldingRangeCapabilities {
    /// No folding range support.
    fn default() -> (r: Self)
        ensures
            r == (FoldingRangeCapabilities {
                dynamic_registration: false,
                range_limit: 0,
                line_folding_only: false,
            }),
    {
        FoldingRangeCapabilities {
            dynamic_registration: false,
            range_limit: 0,
            line_folding_only: false,
        }
    }
}

/// Defines capabilities the client provides on text documents.
#[derive(Debug, Clone, PartialEq)]
pub struct TextDocumentClientCapabilities {
    /// Capabilities specific to synchronization.
    pub synchronization: SynchronizationCapabilities,
    /// Capabilities specific to the `textDocument/completion` request.
    pub completion: CompletionCapabilities,
    /// Capabilities specific to the `textDocument/hover` request.
    pub hover: HoverCapabilities,
    /// Capabilities specific to the `textDocument/signatureHelp` request.
    pub signature_help: SignatureHelpCapabilities,
    /// Capabilities specific to the `textDocument/references` request.
    pub references: ReferencesCapabilities,
    /// Capabilities specific to the `textDocument/documentHighlight`
    /// request.
    pub document_highlight: DocumentHighlightCapabilities,
    /// Capabilities specific to the `textDocument/documentSymbol`
    /// request.
    pub document_symbol: DocumentSymbolCapabilities,
    /// Capabilities specific to the `textDocument/formatting` request.
    pub formatting: FormattingCapabilities,
    /// Capabilities specific to the `textDocument/rangeFormatting`
    /// request.
    pub range_formatting: RangeFormattingCapabilities,
    /// Capabilities specific to the `textDocument/onTypeFormatting`
    /// request.
    pub on_type_formatting: OnTypeFormattingCapabilities,
    /// Capabilities specific to the `textDocument/declaration` request.
    pub declaration: DeclarationCapabilities,
    /// Capabilities specific to the `textDocument/definition` request.
    pub definition: DefinitionCapabilities,
    /// Capabilities specific to the `textDocument/typeDefinition`
    /// request.
    pub type_definition: TypeDefinitionCapabilities,
    /// Capabilities specific to the `textDocument/implementation`
    /// request.
    pub implementation: ImplementationCapabilities,
    /// Capabilities specific to the `textDocument/codeAction` request.
    pub code_action: CodeActionCapabilities,
    /// Capabilities specific to the `textDocument/codeLens` request.
    pub code_lens: CodeLensCapabilities,
    /// Capabilities specific to the `textDocument/documentLink` request.
    pub document_link: DocumentLinkCapabilities,
    /// Capabilities specific to the `textDocument/documentColor` and
    /// `textDocument/colorPresentation` requests.
    pub color_provider: ColorProviderCapabilities,
    /// Capabilities specific to the `textDocument/rename` request.
    pub rename: RenameCapabilities,
    /// Capabilities specific to the `textDocument/publishDiagnostics`
    /// notification.
    pub publish_diagnostics: PublishDiagnosticsCapabilities,
    /// Capabilities specific to the `textDocument/foldingRange` request.
    pub folding_range: FoldingRangeCapabilities,
}

impl Default for TextDocumentClientCapabilities {
    /// Every request's capabilities at their own default: nothing is
    /// supported.
    fn default() -> (r: Self)
        ensures
            r.synchronization == (SynchronizationCapabilities {
                dynamic_registration: false,
                will_save: false,
                will_save_until: false,
                did_save: false,
            }),
            r.completion.dynamic_registration == false,
            r.completion.completion_item.documentation_format@ == Seq::<MarkupKind>::empty(),
            r.completion.completion_item_kind.value_set is Absent,
            r.completion.context_support == false,
            r.hover.dynamic_registration == false,
            r.hover.content_format@ == Seq::<MarkupKind>::empty(),
            r.signature_help.dynamic_registration == false,
            r.references == (ReferencesCapabilities { dynamic_registration: false }),
            r.document_highlight == (DocumentHighlightCapabilities {
                dynamic_registration: false,
            }),
            r.document_symbol.dynamic_registration == false,
            r.document_symbol.symbol_kind.value_set is Absent,
            r.document_symbol.hierarchical_document_symbol_support == false,
            r.formatting == (FormattingCapabilities { dynamic_registration: false }),
            r.range_formatting == (RangeFormattingCapabilities { dynamic_registration: false }),
            r.on_type_formatting == (OnTypeFormattingCapabilities {
                dynamic_registration: false,
            }),
            r.declaration == (DeclarationCapabilities {
                dynamic_registration: false,
                link_support: false,
            }),
            r.definition == (DefinitionCapabilities {
                dynamic_registration: false,
                link_support: false,
            }),
            r.type_definition == (TypeDefinitionCapabilities {
                dynamic_registration: false,
                link_support: false,
            }),
            r.implementation == (ImplementationCapabilities {
                dynamic_registration: false,
                link_support: false,
            }),
            r.code_action.dynamic_registration == false,
            r.code_action.code_action_literal_support is Absent,
            r.code_lens == (CodeLensCapabilities { dynamic_registration: false }),
            r.document_link == (DocumentLinkCapabilities { dynamic_registration: false }),
            r.color_provider == (ColorProviderCapabilities { dynamic_registration: false }),
            r.rename == (RenameCapabilities {
                dynamic_registration: false,
                prepare_support: false,
            }),
            r.publish_diagnostics == (PublishDiagnosticsCapabilities {
                related_information: false,
            }),
            r.folding_range == (FoldingRangeCapabilities {
                dynamic_registration: false,
                range_limit: 0,
                line_folding_only: false,
            }),
    {
        TextDocumentClientCapabilities {
            synchronization: SynchronizationCapabilities::default(),
            completion: CompletionCapabilities::default(),
            hover: HoverCapabilities::default(),
            signature_help: SignatureHelpCapabilities::default(),
            references: ReferencesCapabilities::default(),
            document_highlight: DocumentHighlightCapabilities::default(),
            document_symbol: DocumentSymbolCapabilities::default(),
            formatting: FormattingCapabilities::default(),
            range_formatting: RangeFormattingCapabilities::default(),
            on_type_formatting: OnTypeFormattingCapabilities::default(),
            declaration: DeclarationCapabilities::default(),
            definition: DefinitionCapabilities::default(),
            type_definition: TypeDefinitionCapabilities::default(),
            implementation: ImplementationCapabilities::default(),
            code_action: CodeActionCapabilities::default(),
            code_lens: CodeLensCapabilities::default(),
            document_link: DocumentLinkCapabilities::default(),
            color_provider: ColorProviderCapabilities::default(),
            rename: RenameCapabilities::default(),
            publish_diagnostics: PublishDiagnosticsCapabilities::default(),
            folding_range: FoldingRangeCapabilities::default(),
        }
    }
}

/// Defines capabilities for dynamic registration, workspace and text
/// document features the client supports.
///
/// `experimental` can be used to pass experimental capabilities under
/// development. For future compatibility `ClientCapabilities` can have
/// more properties set than currently defined.
#[derive(Debug)]
pub struct ClientCapabilities {
    /// Workspace specific client capabilities.
    pub workspace: WorkspaceClientCapabilities,
    /// Text document specific client capabilities.
    pub text_document: TextDocumentClientCapabilities,
    /// Experimental client capabilities.
    pub experimental: Elective<Json>,
}

impl Default for ClientCapabilities {
    /// Every capability at its own default and no experimental
    /// capabilities.
    fn default() -> (r: Self)
        ensures
            r.workspace.apply_edit == false,
            r.workspace.workspace_folders == false,
            r.workspace.configuration == false,
            r.text_document.synchronization == (SynchronizationCapabilities {
                dynamic_registration: false,
                will_save: false,
                will_save_until: false,
                did_save: false,
            }),
            r.experimental is Absent,
    {
        ClientCapabilities {
            workspace: WorkspaceClientCapabilities::default(),
            text_document: TextDocumentClientCapabilities::default(),
            experimental: Elective::Absent,
        }
    }
}

/// The first request from the client to the server.
#[derive(Debug)]
pub struct InitializeParams {
    /// The process id of the process that started the server.
    ///
    /// If `Option::None`, the server has not been started.
    pub process_id: Option<u64>,
    /// The root path of the workspace.
    ///
    /// If `Option::None`, no folder is open.
    ///
    /// Deprecated in favor of `InitializeParams::root_uri`.
    pub root_path: Elective<Option<String>>,
    /// The root URI of the workspace.
    ///
    /// If `Option::None`, no folder is open. Else, overrides
    /// `InitializeParams::root_path`.
    pub root_uri: Option<String>,
    /// User provided initialization options.
    pub initialization_options: Elective<Json>,
    /// Capabilities provided by the client.
    pub capabilities: ClientCapabilities,
    /// The initial trace setting.
    pub trace: TraceKind,
    /// The workspace folders configured in the client.
    ///
    /// If `Elective::Absent`, client does not support workspace folders.
    /// If `Option::None`, client supports workspace folders but none are
    /// configured.
    pub workspace_folders: Elective<Option<Vec<WorkspaceFolder>>>,
}

} // verus!
