//! LSP protocol data types.

pub mod base;
pub mod client_capabilities;
pub mod code_action;
pub mod code_lens;
pub mod diagnostics;
pub mod document;
pub mod enums;
pub mod features;
pub mod file_operations;
pub mod formatting;
pub mod hierarchy;
pub mod inlay_hint;
pub mod inline_completion;
pub mod inline_value;
pub mod lifecycle;
pub mod links;
pub mod moniker;
pub mod notebook;
pub mod progress;
pub mod ranges;
pub mod registration;
pub mod rename;
pub mod semantic_tokens;
pub mod signature;
pub mod symbols;
pub mod trace;
pub mod window;
pub mod workspace;

pub use base::{
    Location, Position, Range, TextDocumentIdentifier, TextDocumentItem, TextDocumentPositionParams, Uri, VersionedTextDocumentIdentifier,
};
pub use client_capabilities::{
    ChangeAnnotationSupportCapability, DidChangeWatchedFilesClientCapabilities, DynamicRegistrationCapability, FailureHandlingKind, FileOperationClientCapabilities, RefreshSupportCapability, ResolveSupportCapability, ResourceOperationKind, SymbolKindCapability, TagSupportCapability, WorkspaceClientCapabilities, WorkspaceEditClientCapabilities, WorkspaceSymbolClientCapabilities,
};
pub use code_action::{
    CodeAction, CodeActionContext, CodeActionDisabled, CodeActionKind, CodeActionOptions, CodeActionOrCommand, CodeActionParams, Command, code_action_kind,
};
pub use code_lens::{
    CodeLens, CodeLensOptions, CodeLensParams,
};
pub use diagnostics::{
    Diagnostic, DiagnosticOptions, DocumentDiagnosticParams, DocumentDiagnosticReport, FullDocumentDiagnosticReport, PreviousResultId, PublishDiagnosticsParams, UnchangedDocumentDiagnosticReport, WorkspaceDiagnosticParams, WorkspaceDiagnosticReport, WorkspaceDocumentDiagnosticReport, WorkspaceFullDocumentDiagnosticReport, WorkspaceUnchangedDocumentDiagnosticReport,
};
pub use document::{
    DidChangeTextDocumentParams, DidCloseTextDocumentParams, DidOpenTextDocumentParams, DidSaveTextDocumentParams, SaveOptions, SaveOptionsCapability, TextDocumentContentChangeEvent, TextDocumentSyncCapability, TextDocumentSyncOptions, WillSaveTextDocumentParams,
};
pub use enums::{
    CodeActionTriggerKind, CompletionItemKind, CompletionItemTag, CompletionTriggerKind, DiagnosticSeverity, DiagnosticTag, DocumentHighlightKind, FileChangeType, InlayHintKind, InlineCompletionTriggerKind, InsertTextFormat, InsertTextMode, MarkupKind, MessageType, NotebookCellKind, PositionEncodingKind, SignatureHelpTriggerKind, SymbolKind, SymbolTag, TextDocumentSaveReason, TextDocumentSyncKind,
};
pub use features::{
    CompletionContext, CompletionEditRange, CompletionItem, CompletionItemDefaults, CompletionItemLabelDetails, CompletionList, CompletionParams, CompletionResponse, CompletionTextEdit, DeclarationParams, DefinitionParams, DocumentHighlight, DocumentHighlightParams, GotoDefinitionResponse, Hover, HoverParams, ImplementationParams, InsertReplaceEdit, LocationLink, MarkupContent, ReferenceContext, ReferenceParams, TypeDefinitionParams,
};
pub use file_operations::{
    CreateFilesParams, DeleteFilesParams, FileCreate, FileDelete, FileOperationFilter, FileOperationPattern, FileOperationRegistrationOptions, FileOperationsServerCapabilities, FileRename, RenameFilesParams,
};
pub use formatting::{
    DocumentFormattingParams, DocumentOnTypeFormattingOptions, DocumentOnTypeFormattingParams, DocumentRangeFormattingParams, FormattingOptions,
};
pub use hierarchy::{
    CallHierarchyIncomingCall, CallHierarchyIncomingCallsParams, CallHierarchyItem, CallHierarchyOptions, CallHierarchyOutgoingCall, CallHierarchyOutgoingCallsParams, CallHierarchyPrepareParams, TypeHierarchyItem, TypeHierarchyOptions, TypeHierarchyPrepareParams, TypeHierarchySubtypesParams, TypeHierarchySupertypesParams,
};
pub use inlay_hint::{
    InlayHint, InlayHintLabel, InlayHintLabelPart, InlayHintOptions, InlayHintParams,
};
pub use inline_completion::{
    InlineCompletionContext, InlineCompletionInsertText, InlineCompletionItem, InlineCompletionList, InlineCompletionParams, InlineCompletionResponse, SelectedCompletionInfo, StringValue,
};
pub use inline_value::{
    InlineValue, InlineValueContext, InlineValueEvaluatableExpression, InlineValueParams, InlineValueText, InlineValueVariableLookup,
};
pub use lifecycle::{
    CallHierarchyProviderCapability, CapabilityValue, ClientCapabilities, ClientInfo, CodeActionProviderCapability, CompletionOptions, CompletionOptionsCompletionItem, InitializeParams, InitializeResult, RenameProviderCapability, ServerCapabilities, ServerInfo, SignatureHelpOptions, TypeHierarchyProviderCapability, WorkspaceServerCapabilities, WorkspaceSymbolProviderCapability,
};
pub use links::{
    ColorPresentation, DocumentColorParams, DocumentLink, DocumentLinkOptions, DocumentLinkParams,
};
pub use moniker::{
    Moniker, MonikerKind, MonikerParams, UniquenessLevel,
};
pub use notebook::{
    DidChangeNotebookDocumentParams, DidCloseNotebookDocumentParams, DidOpenNotebookDocumentParams, DidSaveNotebookDocumentParams, ExecutionSummary, NotebookCell, NotebookCellArrayChange, NotebookCellTextContentChange, NotebookDocument, NotebookDocumentCellChanges, NotebookDocumentCellStructureChange, NotebookDocumentChangeEvent, NotebookDocumentIdentifier, NotebookDocumentSyncOptions, VersionedNotebookDocumentIdentifier,
};
pub use progress::{
    PartialResultParams, ProgressParams, ProgressToken, WorkDoneProgress, WorkDoneProgressBegin, WorkDoneProgressCancelParams, WorkDoneProgressCreateParams, WorkDoneProgressEnd, WorkDoneProgressParams, WorkDoneProgressReport,
};
pub use ranges::{
    FoldingRange, FoldingRangeKind, FoldingRangeParams, SelectionRange, SelectionRangeParams, folding_range_kind,
};
pub use registration::{
    DidChangeWatchedFilesRegistrationOptions, DocumentFilter, DocumentSelector, FileSystemWatcher, GlobPattern, Registration, RegistrationParams, RelativePattern, TextDocumentRegistrationOptions, Unregistration, UnregistrationParams, watch_kind,
};
pub use rename::{
    PrepareRenameResponse, RenameOptions, RenameParams,
};
pub use semantic_tokens::{
    SemanticTokens, SemanticTokensBuilder, SemanticTokensDelta, SemanticTokensDeltaParams, SemanticTokensDeltaResult, SemanticTokensEdit, SemanticTokensFullOptions, SemanticTokensLegend, SemanticTokensOptions, SemanticTokensParams, SemanticTokensRangeParams,
};
pub use signature::{
    Documentation, ParameterInformation, ParameterLabel, SignatureHelp, SignatureHelpContext, SignatureHelpParams, SignatureInformation,
};
pub use symbols::{
    DocumentSymbol, DocumentSymbolParams, DocumentSymbolResponse, SymbolInformation, WorkspaceSymbol, WorkspaceSymbolLocation, WorkspaceSymbolOptions, WorkspaceSymbolParams, WorkspaceSymbolResponse,
};
pub use trace::{
    LogTraceParams, SetTraceParams, TraceValue,
};
pub use window::{
    LogMessageParams, MessageActionItem, ShowDocumentParams, ShowDocumentResult, ShowMessageParams, ShowMessageRequestParams,
};
pub use workspace::{
    AnnotatedTextEdit, ApplyWorkspaceEditParams, ApplyWorkspaceEditResult, ChangeAnnotation, ConfigurationItem, ConfigurationParams, CreateFile, CreateFileOptions, DeleteFile, DeleteFileOptions, DidChangeConfigurationParams, DidChangeWatchedFilesParams, DidChangeWorkspaceFoldersParams, DocumentChange, ExecuteCommandOptions, ExecuteCommandParams, FileEvent, OptionalVersionedTextDocumentIdentifier, RenameFile, ResourceOperation, TextDocumentEdit, TextEdit, WorkspaceEdit, WorkspaceFolder, WorkspaceFoldersChangeEvent,
};
