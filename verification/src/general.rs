//! Workspace capability objects of the message catalog, laid out as the
//! generator prescribes.

use vstd::prelude::*;
use crate::elective::Elective;
use crate::structures::SymbolKind;
use crate::text::camel_case;

verus! {

/// The kind of resource operations.
#[derive(Debug, Clone, Copy, PartialEq, Eq, Structural)]
pub enum ResourceOperationKind {
    /// Creating new files and folders.
    Create,
    /// Renaming existing files and folders.
    Rename,
    /// Deleting existing files and folders.
    Delete,
}

impl ResourceOperationKind {
    /// The kind's wire token: the lowerCamelCase transform of its variant
    /// identifier.
    pub fn tag(self) -> (r: String)
        ensures
            r@ == spec_resource_operation_tag(self),
    {
        match self {
            ResourceOperationKind::Create => crate::text::wire_name("Create"),
            ResourceOperationKind::Rename => crate::text::wire_name("Rename"),
            ResourceOperationKind::Delete => crate::text::wire_name("Delete"),
        }
    }
}

/// The wire token of a resource operation kind.
pub open spec fn spec_resource_operation_tag(k: ResourceOperationKind) -> Seq<char> {
    match k {
        ResourceOperationKind::Create => camel_case("Create"@),
        ResourceOperationKind::Rename => camel_case("Rename"@),
        ResourceOperationKind::Delete => camel_case("Delete"@),
    }
}

/// The strategy of the client to handle a failure to apply a
/// `WorkspaceEdit`.
#[derive(Debug, Clone, Copy, PartialEq, Eq, Structural)]
pub enum FailureHandlingKind {
    /// Operations are simply aborted if one of the changes fails.
    ///
    /// All operations executed before the failing operation stayed
    /// executed.
    Abort,
    /// All operations are executed transactional.
    ///
    /// Either all operations succeed or no changes are applied to the
    /// workspace.
    Transactional,
    /// Textual file changes are executed transactional and resource
    /// changes are abort.
    TextOnlyTransactional,
    /// Client tries to undo operations already executed.
    ///
    /// There is no guarantee the undo is successful.
    Undo,
}

impl FailureHandlingKind {
    /// The kind's wire token: the lowerCamelCase transform of its variant
    /// identifier.
    pub fn tag(self) -> (r: String)
        ensures
            r@ == spec_failure_handling_tag(self),
    {
        match self {
            FailureHandlingKind::Abort => crate::text::wire_name("Abort"),
            FailureHandlingKind::Transactional => crate::text::wire_name("Transactional"),
            FailureHandlingKind::TextOnlyTransactional => crate::text::wire_name(
                "TextOnlyTransactional",
            ),
            FailureHandlingKind::Undo => crate::text::wire_name("Undo"),
        }
    }
}

/// The wire token of a failure handling kind.
pub open spec fn spec_failure_handling_tag(k: FailureHandlingKind) -> Seq<char> {
    match k {
        FailureHandlingKind::Abort => camel_case("Abort"@),
        FailureHandlingKind::Transactional => camel_case("Transactional"@),
        FailureHandlingKind::TextOnlyTransactional => camel_case("TextOnlyTransactional"@),
        FailureHandlingKind::Undo => camel_case("Undo"@),
    }
}

/// Defines capabilities specific to `WorkspaceEdit`s.
#[derive(Debug, Clone, PartialEq)]
pub struct WorkspaceEditCapabilities {
    /// Supports versioned document changes in `WorkspaceEdit`s.
    pub document_changes: bool,
    /// The supported resource operations.
    pub resource_operations: Vec<ResourceOperationKind>,
    /// The failure handling strategy if applying the `WorkspaceEdit`
    /// fails.
    ///
    /// Elective because an absence of the `FailureHandlingKind` capability
    /// is not defined.
    pub failure_handling: Elective<FailureHandlingKind>,
}

impl Default for WorkspaceEditCapabilities {
    /// No versioned changes, no resource operations, and no failure
    /// handling strategy.
    fn default() -> (r: Self)
        ensures
            r.document_changes == false,
            r.resource_operations@ == Seq::<ResourceOperationKind>::empty(),
            r.failure_handling is Absent,
    {
        WorkspaceEditCapabilities {
            document_changes: false,
            resource_operations: Vec::new(),
            failure_handling: Elective::Absent,
        }
    }
}

/// Defines capabilities specific to the `workspace/didChangeConfiguration`
/// notification.
#[derive(Debug, Clone, Copy, PartialEq, Eq, Structural)]
pub struct DidChangeConfigurationCapabilities {
    /// Supports dynamic registration of the `workspace/didChangeConfiguration` notification.
    pub dynamic_registration: bool,
}

impl Default for DidChangeConfigurationCapabilities {
    /// No dynamic registration support.
    fn default() -> (r: Self)
        ensures
            r.dynamic_registration == false,
    {
        DidChangeConfigurationCapabilities { dynamic_registration: false }
    }
}

/// Defines capabilities specific to the `workspace/didChangeWatchedFiles`
/// notification.
#[derive(Debug, Clone, Copy, PartialEq, Eq, Structural)]
pub struct DidChangeWatchedFilesCapabilities {
    /// Supports dynamic registration of the `workspace/didChangeWatchedFiles` notification.
    pub dynamic_registration: bool,
}

impl Default for DidChangeWatchedFilesCapabilities {
    /// No dynamic registration support.
    fn default() -> (r: Self)
        ensures
            r.dynamic_registration == false,
    {
        DidChangeWatchedFilesCapabilities { dynamic_registration: false }
    }
}

/// Describes capabilities specific to `SymbolKind`s.
#[derive(Debug, Clone, PartialEq)]
pub struct SymbolKindCapabilities {
    /// The `SymbolKind`s the client supports.
    ///
    /// If `Elective::Absent`, only the symbol kinds supported in version 1
    /// may be used.
    pub value_set: Elective<Vec<SymbolKind>>,
}

impl Default for SymbolKindCapabilities {
    /// No value set.
    fn default() -> (r: Self)
        ensures
            r.value_set is Absent,
    {
        SymbolKindCapabilities { value_set: Elective::Absent }
    }
}

/// Defines capabilities specific to the `workspace/symbol` request.
#[derive(Debug, Clone, PartialEq)]
pub struct SymbolCapabilities {
    /// Supports dynamic registration of the `workspace/symbol` request.
    pub dynamic_registration: bool,
    /// Capabilities specific to the `SymbolKind` in the `workspace/symbol`
    /// request.
    pub symbol_kind: SymbolKindCapabilities,
}

impl Default for SymbolCapabilities {
    /// No dynamic registration and the default symbol kinds.
    fn default() -> (r: Self)
        ensures
            r.dynamic_registration == false,
            r.symbol_kind.value_set is Absent,
    {
        SymbolCapabilities {
            dynamic_registration: false,
            symbol_kind: SymbolKindCapabilities::default(),
        }
    }
}

/// Defines capabilities specific to the `workspace/executeCommand`
/// request.
#[derive(Debug, Clone, Copy, PartialEq, Eq, Structural)]
pub struct ExecuteCommandCapabilities {
    /// Supports dynamic registration of the `workspace/executeCommand` request.
    pub dynamic_registration: bool,
}

impl Default for ExecuteCommandCapabilities {
    /// No dynamic registration support.
    fn default() -> (r: Self)
        ensures
            r.dynamic_registration == false,
    {
        ExecuteCommandCapabilities { dynamic_registration: false }
    }
}

/// Defines capabilities the client provides on the workspace.
#[derive(Debug, Clone, PartialEq)]
pub struct WorkspaceClientCapabilities {
    /// Supports applying batch edits to the workspace by the request
    /// `workspace/applyEdit`.
    pub apply_edit: bool,
    /// Capabilities specific to `WorkspaceEdit`s.
    pub workspace_edit: WorkspaceEditCapabilities,
    /// Capabilities specific to the `workspace/didChangeConfiguration`
    /// notification.
    pub did_change_configuration: DidChangeConfigurationCapabilities,
    /// Capabilities specific to the `workspace/didChangeWatchedFiles`
    /// notification.
    pub did_change_watched_files: DidChangeWatchedFilesCapabilities,
    /// Capabilities specific to the `workspace/symbol` request.
    pub symbol: SymbolCapabilities,
    /// Capabilities specific to the `workspace/executeCommand` request.
    pub execute_command: ExecuteCommandCapabilities,
    /// Supports workspace folders.
    pub workspace_folders: bool,
    /// Supports `workspace/configuration` requests.
    pub configuration: bool,
}

impl Default for WorkspaceClientCapabilities {
    /// Every capability at its own default.
    fn default() -> (r: Self)
        ensures
            r.apply_edit == false,
            r.workspace_edit.document_changes == false,
            r.workspace_edit.resource_operations@ == Seq::<ResourceOperationKind>::empty(),
            r.workspace_edit.failure_handling is Absent,
            r.did_change_configuration.dynamic_registration == false,
            r.did_change_watched_files.dynamic_registration == false,
            r.symbol.dynamic_registration == false,
            r.symbol.symbol_kind.value_set is Absent,
            r.execute_command.dynamic_registration == false,
            r.workspace_folders == false,
            r.configuration == false,
    {
        WorkspaceClientCapabilities {
            apply_edit: false,
            workspace_edit: WorkspaceEditCapabilities::default(),
            did_change_configuration: DidChangeConfigurationCapabilities::default(),
            did_change_watched_files: DidChangeWatchedFilesCapabilities::default(),
            symbol: SymbolCapabilities::default(),
            execute_command: ExecuteCommandCapabilities::default(),
            workspace_folders: false,
            configuration: false,
        }
    }
}

} // verus!
