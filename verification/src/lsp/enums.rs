//! LSP enumerations. Most are transmitted as JSON integers; each of those
//! has an explicit, reversible numeric code ([`code`](TextDocumentSyncKind::code)
//! and [`from_code`](TextDocumentSyncKind::from_code)).

use vstd::prelude::*;

verus! {

/// How the client should synchronise document content to the server.
#[derive(Debug, Clone, Copy, PartialEq, Eq, Hash, Structural)]
pub enum TextDocumentSyncKind {
    /// Documents are not synced at all.
    NoSync,
    /// The full document text is sent on every change.
    Full,
    /// Only incremental ranges are sent on each change.
    Incremental,
}

impl TextDocumentSyncKind {
    /// The number that stands for this value on the wire.
    pub open spec fn spec_code(self) -> u8 {
        match self {
            TextDocumentSyncKind::NoSync => 0,
            TextDocumentSyncKind::Full => 1,
            TextDocumentSyncKind::Incremental => 2,
        }
    }

    /// The number that stands for this value on the wire.
    pub fn code(self) -> (r: u8)
        ensures
            r == self.spec_code(),
    {
        match self {
            TextDocumentSyncKind::NoSync => 0,
            TextDocumentSyncKind::Full => 1,
            TextDocumentSyncKind::Incremental => 2,
        }
    }

    /// The value a wire number stands for; `None` for a number that
    /// stands for no value.
    pub fn from_code(code: u8) -> (r: Option<TextDocumentSyncKind>)
        ensures
            forall|k: TextDocumentSyncKind| r == Some(k) <==> k.spec_code() == code,
    {
        match code {
            0 => Some(TextDocumentSyncKind::NoSync),
            1 => Some(TextDocumentSyncKind::Full),
            2 => Some(TextDocumentSyncKind::Incremental),
            _ => None,
        }
    }
}

/// Severity used by `window/showMessage` and `window/logMessage`.
#[derive(Debug, Clone, Copy, PartialEq, Eq, Hash, Structural)]
pub enum MessageType {
    /// An error message.
    Error,
    /// A warning message.
    Warning,
    /// An informational message.
    Info,
    /// A log message.
    Log,
    /// A debug message (LSP 3.18).
    Debug,
}

impl MessageType {
    /// The number that stands for this value on the wire.
    pub open spec fn spec_code(self) -> u8 {
        match self {
            MessageType::Error => 1,
            MessageType::Warning => 2,
            MessageType::Info => 3,
            MessageType::Log => 4,
            MessageType::Debug => 5,
        }
    }

    /// The number that stands for this value on the wire.
    pub fn code(self) -> (r: u8)
        ensures
            r == self.spec_code(),
    {
        match self {
            MessageType::Error => 1,
            MessageType::Warning => 2,
            MessageType::Info => 3,
            MessageType::Log => 4,
            MessageType::Debug => 5,
        }
    }

    /// The value a wire number stands for; `None` for a number that
    /// stands for no value.
    pub fn from_code(code: u8) -> (r: Option<MessageType>)
        ensures
            forall|k: MessageType| r == Some(k) <==> k.spec_code() == code,
    {
        match code {
            1 => Some(MessageType::Error),
            2 => Some(MessageType::Warning),
            3 => Some(MessageType::Info),
            4 => Some(MessageType::Log),
            5 => Some(MessageType::Debug),
            _ => None,
        }
    }
}

/// Severity of a [`crate::lsp::Diagnostic`].
#[derive(Debug, Clone, Copy, PartialEq, Eq, Hash, Structural)]
pub enum DiagnosticSeverity {
    /// Reports an error.
    Error,
    /// Reports a warning.
    Warning,
    /// Reports an informational hint.
    Information,
    /// Reports a low-priority hint.
    Hint,
}

impl DiagnosticSeverity {
    /// The number that stands for this value on the wire.
    pub open spec fn spec_code(self) -> u8 {
        match self {
            DiagnosticSeverity::Error => 1,
            DiagnosticSeverity::Warning => 2,
            DiagnosticSeverity::Information => 3,
            DiagnosticSeverity::Hint => 4,
        }
    }

    /// The number that stands for this value on the wire.
    pub fn code(self) -> (r: u8)
        ensures
            r == self.spec_code(),
    {
        match self {
            DiagnosticSeverity::Error => 1,
            DiagnosticSeverity::Warning => 2,
            DiagnosticSeverity::Information => 3,
            DiagnosticSeverity::Hint => 4,
        }
    }

    /// The value a wire number stands for; `None` for a number that
    /// stands for no value.
    pub fn from_code(code: u8) -> (r: Option<DiagnosticSeverity>)
        ensures
            forall|k: DiagnosticSeverity| r == Some(k) <==> k.spec_code() == code,
    {
        match code {
            1 => Some(DiagnosticSeverity::Error),
            2 => Some(DiagnosticSeverity::Warning),
            3 => Some(DiagnosticSeverity::Information),
            4 => Some(DiagnosticSeverity::Hint),
            _ => None,
        }
    }
}

/// What triggered a completion request.
#[derive(Debug, Clone, Copy, PartialEq, Eq, Hash, Structural)]
pub enum CompletionTriggerKind {
    /// Completion was invoked manually (e.g. Ctrl+Space) or via the API.
    Invoked,
    /// Completion was triggered by a trigger character.
    TriggerCharacter,
    /// Completion was re-triggered because the current list is incomplete.
    TriggerForIncompleteCompletions,
}

impl CompletionTriggerKind {
    /// The number that stands for this value on the wire.
    pub open spec fn spec_code(self) -> u8 {
        match self {
            CompletionTriggerKind::Invoked => 1,
            CompletionTriggerKind::TriggerCharacter => 2,
            CompletionTriggerKind::TriggerForIncompleteCompletions => 3,
        }
    }

    /// The number that stands for this value on the wire.
    pub fn code(self) -> (r: u8)
        ensures
            r == self.spec_code(),
    {
        match self {
            CompletionTriggerKind::Invoked => 1,
            CompletionTriggerKind::TriggerCharacter => 2,
            CompletionTriggerKind::TriggerForIncompleteCompletions => 3,
        }
    }

    /// The value a wire number stands for; `None` for a number that
    /// stands for no value.
    pub fn from_code(code: u8) -> (r: Option<CompletionTriggerKind>)
        ensures
            forall|k: CompletionTriggerKind| r == Some(k) <==> k.spec_code() == code,
    {
        match code {
            1 => Some(CompletionTriggerKind::Invoked),
            2 => Some(CompletionTriggerKind::TriggerCharacter),
            3 => Some(CompletionTriggerKind::TriggerForIncompleteCompletions),
            _ => None,
        }
    }
}

/// The semantic kind of a [`crate::lsp::CompletionItem`], used by clients to
/// pick an icon. Values match the LSP `CompletionItemKind` table.
#[derive(Debug, Clone, Copy, PartialEq, Eq, Hash, Structural)]
pub enum CompletionItemKind {
    /// A free-text completion.
    Text,
    /// A method.
    Method,
    /// A function.
    Function,
    /// A constructor.
    Constructor,
    /// A field.
    Field,
    /// A variable.
    Variable,
    /// A class.
    Class,
    /// An interface.
    Interface,
    /// A module.
    Module,
    /// A property.
    Property,
    /// A unit.
    Unit,
    /// A literal value.
    Value,
    /// An enum.
    Enum,
    /// A keyword.
    Keyword,
    /// A code snippet.
    Snippet,
    /// A color.
    Color,
    /// A file.
    File,
    /// A reference.
    Reference,
    /// A folder.
    Folder,
    /// An enum member.
    EnumMember,
    /// A constant.
    Constant,
    /// A struct.
    Struct,
    /// An event.
    Event,
    /// An operator.
    Operator,
    /// A type parameter.
    TypeParameter,
}

impl CompletionItemKind {
    /// The number that stands for this value on the wire.
    pub open spec fn spec_code(self) -> u8 {
        match self {
            CompletionItemKind::Text => 1,
            CompletionItemKind::Method => 2,
            CompletionItemKind::Function => 3,
            CompletionItemKind::Constructor => 4,
            CompletionItemKind::Field => 5,
            CompletionItemKind::Variable => 6,
            CompletionItemKind::Class => 7,
            CompletionItemKind::Interface => 8,
            CompletionItemKind::Module => 9,
            CompletionItemKind::Property => 10,
            CompletionItemKind::Unit => 11,
            CompletionItemKind::Value => 12,
            CompletionItemKind::Enum => 13,
            CompletionItemKind::Keyword => 14,
            CompletionItemKind::Snippet => 15,
            CompletionItemKind::Color => 16,
            CompletionItemKind::File => 17,
            CompletionItemKind::Reference => 18,
            CompletionItemKind::Folder => 19,
            CompletionItemKind::EnumMember => 20,
            CompletionItemKind::Constant => 21,
            CompletionItemKind::Struct => 22,
            CompletionItemKind::Event => 23,
            CompletionItemKind::Operator => 24,
            CompletionItemKind::TypeParameter => 25,
        }
    }

    /// The number that stands for this value on the wire.
    pub fn code(self) -> (r: u8)
        ensures
            r == self.spec_code(),
    {
        match self {
            CompletionItemKind::Text => 1,
            CompletionItemKind::Method => 2,
            CompletionItemKind::Function => 3,
            CompletionItemKind::Constructor => 4,
            CompletionItemKind::Field => 5,
            CompletionItemKind::Variable => 6,
            CompletionItemKind::Class => 7,
            CompletionItemKind::Interface => 8,
            CompletionItemKind::Module => 9,
            CompletionItemKind::Property => 10,
            CompletionItemKind::Unit => 11,
            CompletionItemKind::Value => 12,
            CompletionItemKind::Enum => 13,
            CompletionItemKind::Keyword => 14,
            CompletionItemKind::Snippet => 15,
            CompletionItemKind::Color => 16,
            CompletionItemKind::File => 17,
            CompletionItemKind::Reference => 18,
            CompletionItemKind::Folder => 19,
            CompletionItemKind::EnumMember => 20,
            CompletionItemKind::Constant => 21,
            CompletionItemKind::Struct => 22,
            CompletionItemKind::Event => 23,
            CompletionItemKind::Operator => 24,
            CompletionItemKind::TypeParameter => 25,
        }
    }

    /// The value a wire number stands for; `None` for a number that
    /// stands for no value.
    pub fn from_code(code: u8) -> (r: Option<CompletionItemKind>)
        ensures
            forall|k: CompletionItemKind| r == Some(k) <==> k.spec_code() == code,
    {
        match code {
            1 => Some(CompletionItemKind::Text),
            2 => Some(CompletionItemKind::Method),
            3 => Some(CompletionItemKind::Function),
            4 => Some(CompletionItemKind::Constructor),
            5 => Some(CompletionItemKind::Field),
            6 => Some(CompletionItemKind::Variable),
            7 => Some(CompletionItemKind::Class),
            8 => Some(CompletionItemKind::Interface),
            9 => Some(CompletionItemKind::Module),
            10 => Some(CompletionItemKind::Property),
            11 => Some(CompletionItemKind::Unit),
            12 => Some(CompletionItemKind::Value),
            13 => Some(CompletionItemKind::Enum),
            14 => Some(CompletionItemKind::Keyword),
            15 => Some(CompletionItemKind::Snippet),
            16 => Some(CompletionItemKind::Color),
            17 => Some(CompletionItemKind::File),
            18 => Some(CompletionItemKind::Reference),
            19 => Some(CompletionItemKind::Folder),
            20 => Some(CompletionItemKind::EnumMember),
            21 => Some(CompletionItemKind::Constant),
            22 => Some(CompletionItemKind::Struct),
            23 => Some(CompletionItemKind::Event),
            24 => Some(CompletionItemKind::Operator),
            25 => Some(CompletionItemKind::TypeParameter),
            _ => None,
        }
    }
}

/// How a watched file changed, reported in a [`crate::lsp::FileEvent`].
#[derive(Debug, Clone, Copy, PartialEq, Eq, Hash, Structural)]
pub enum FileChangeType {
    /// The file was created.
    Created,
    /// The file's content changed.
    Changed,
    /// The file was deleted.
    Deleted,
}

impl FileChangeType {
    /// The number that stands for this value on the wire.
    pub open spec fn spec_code(self) -> u8 {
        match self {
            FileChangeType::Created => 1,
            FileChangeType::Changed => 2,
            FileChangeType::Deleted => 3,
        }
    }

    /// The number that stands for this value on the wire.
    pub fn code(self) -> (r: u8)
        ensures
            r == self.spec_code(),
    {
        match self {
            FileChangeType::Created => 1,
            FileChangeType::Changed => 2,
            FileChangeType::Deleted => 3,
        }
    }

    /// The value a wire number stands for; `None` for a number that
    /// stands for no value.
    pub fn from_code(code: u8) -> (r: Option<FileChangeType>)
        ensures
            forall|k: FileChangeType| r == Some(k) <==> k.spec_code() == code,
    {
        match code {
            1 => Some(FileChangeType::Created),
            2 => Some(FileChangeType::Changed),
            3 => Some(FileChangeType::Deleted),
            _ => None,
        }
    }
}

/// The semantic kind of a symbol, used by
/// [`crate::lsp::DocumentSymbol`] and [`crate::lsp::SymbolInformation`].
#[derive(Debug, Clone, Copy, PartialEq, Eq, Hash, Structural)]
pub enum SymbolKind {
    /// A file.
    File,
    /// A module.
    Module,
    /// A namespace.
    Namespace,
    /// A package.
    Package,
    /// A class.
    Class,
    /// A method.
    Method,
    /// A property.
    Property,
    /// A field.
    Field,
    /// A constructor.
    Constructor,
    /// An enum.
    Enum,
    /// An interface.
    Interface,
    /// A function.
    Function,
    /// A variable.
    Variable,
    /// A constant.
    Constant,
    /// A string literal.
    String,
    /// A numeric literal.
    Number,
    /// A boolean literal.
    Boolean,
    /// An array.
    Array,
    /// An object.
    Object,
    /// A key in a map/object.
    Key,
    /// A null literal.
    Null,
    /// An enum member.
    EnumMember,
    /// A struct.
    Struct,
    /// An event.
    Event,
    /// An operator.
    Operator,
    /// A type parameter.
    TypeParameter,
}

impl SymbolKind {
    /// The number that stands for this value on the wire.
    pub open spec fn spec_code(self) -> u8 {
        match self {
            SymbolKind::File => 1,
            SymbolKind::Module => 2,
            SymbolKind::Namespace => 3,
            SymbolKind::Package => 4,
            SymbolKind::Class => 5,
            SymbolKind::Method => 6,
            SymbolKind::Property => 7,
            SymbolKind::Field => 8,
            SymbolKind::Constructor => 9,
            SymbolKind::Enum => 10,
            SymbolKind::Interface => 11,
            SymbolKind::Function => 12,
            SymbolKind::Variable => 13,
            SymbolKind::Constant => 14,
            SymbolKind::String => 15,
            SymbolKind::Number => 16,
            SymbolKind::Boolean => 17,
            SymbolKind::Array => 18,
            SymbolKind::Object => 19,
            SymbolKind::Key => 20,
            SymbolKind::Null => 21,
            SymbolKind::EnumMember => 22,
            SymbolKind::Struct => 23,
            SymbolKind::Event => 24,
            SymbolKind::Operator => 25,
            SymbolKind::TypeParameter => 26,
        }
    }

    /// The number that stands for this value on the wire.
    pub fn code(self) -> (r: u8)
        ensures
            r == self.spec_code(),
    {
        match self {
            SymbolKind::File => 1,
            SymbolKind::Module => 2,
            SymbolKind::Namespace => 3,
            SymbolKind::Package => 4,
            SymbolKind::Class => 5,
            SymbolKind::Method => 6,
            SymbolKind::Property => 7,
            SymbolKind::Field => 8,
            SymbolKind::Constructor => 9,
            SymbolKind::Enum => 10,
            SymbolKind::Interface => 11,
            SymbolKind::Function => 12,
            SymbolKind::Variable => 13,
            SymbolKind::Constant => 14,
            SymbolKind::String => 15,
            SymbolKind::Number => 16,
            SymbolKind::Boolean => 17,
            SymbolKind::Array => 18,
            SymbolKind::Object => 19,
            SymbolKind::Key => 20,
            SymbolKind::Null => 21,
            SymbolKind::EnumMember => 22,
            SymbolKind::Struct => 23,
            SymbolKind::Event => 24,
            SymbolKind::Operator => 25,
            SymbolKind::TypeParameter => 26,
        }
    }

    /// The value a wire number stands for; `None` for a number that
    /// stands for no value.
    pub fn from_code(code: u8) -> (r: Option<SymbolKind>)
        ensures
            forall|k: SymbolKind| r == Some(k) <==> k.spec_code() == code,
    {
        match code {
            1 => Some(SymbolKind::File),
            2 => Some(SymbolKind::Module),
            3 => Some(SymbolKind::Namespace),
            4 => Some(SymbolKind::Package),
            5 => Some(SymbolKind::Class),
            6 => Some(SymbolKind::Method),
            7 => Some(SymbolKind::Property),
            8 => Some(SymbolKind::Field),
            9 => Some(SymbolKind::Constructor),
            10 => Some(SymbolKind::Enum),
            11 => Some(SymbolKind::Interface),
            12 => Some(SymbolKind::Function),
            13 => Some(SymbolKind::Variable),
            14 => Some(SymbolKind::Constant),
            15 => Some(SymbolKind::String),
            16 => Some(SymbolKind::Number),
            17 => Some(SymbolKind::Boolean),
            18 => Some(SymbolKind::Array),
            19 => Some(SymbolKind::Object),
            20 => Some(SymbolKind::Key),
            21 => Some(SymbolKind::Null),
            22 => Some(SymbolKind::EnumMember),
            23 => Some(SymbolKind::Struct),
            24 => Some(SymbolKind::Event),
            25 => Some(SymbolKind::Operator),
            26 => Some(SymbolKind::TypeParameter),
            _ => None,
        }
    }
}

/// A tag modifying how a symbol is rendered, e.g. struck through for
/// [`Deprecated`](SymbolTag::Deprecated).
#[derive(Debug, Clone, Copy, PartialEq, Eq, Hash, Structural)]
pub enum SymbolTag {
    /// Render the symbol as deprecated.
    Deprecated,
}

impl SymbolTag {
    /// The number that stands for this value on the wire.
    pub open spec fn spec_code(self) -> u8 {
        match self {
            SymbolTag::Deprecated => 1,
        }
    }

    /// The number that stands for this value on the wire.
    pub fn code(self) -> (r: u8)
        ensures
            r == self.spec_code(),
    {
        match self {
            SymbolTag::Deprecated => 1,
        }
    }

    /// The value a wire number stands for; `None` for a number that
    /// stands for no value.
    pub fn from_code(code: u8) -> (r: Option<SymbolTag>)
        ensures
            forall|k: SymbolTag| r == Some(k) <==> k.spec_code() == code,
    {
        match code {
            1 => Some(SymbolTag::Deprecated),
            _ => None,
        }
    }
}

/// What triggered a `textDocument/codeAction` request.
#[derive(Debug, Clone, Copy, PartialEq, Eq, Hash, Structural)]
pub enum CodeActionTriggerKind {
    /// Explicitly invoked (e.g. the editor's code action menu).
    Invoked,
    /// Triggered automatically, e.g. due to cursor movement over a
    /// diagnostic's range.
    Automatic,
}

impl CodeActionTriggerKind {
    /// The number that stands for this value on the wire.
    pub open spec fn spec_code(self) -> u8 {
        match self {
            CodeActionTriggerKind::Invoked => 1,
            CodeActionTriggerKind::Automatic => 2,
        }
    }

    /// The number that stands for this value on the wire.
    pub fn code(self) -> (r: u8)
        ensures
            r == self.spec_code(),
    {
        match self {
            CodeActionTriggerKind::Invoked => 1,
            CodeActionTriggerKind::Automatic => 2,
        }
    }

    /// The value a wire number stands for; `None` for a number that
    /// stands for no value.
    pub fn from_code(code: u8) -> (r: Option<CodeActionTriggerKind>)
        ensures
            forall|k: CodeActionTriggerKind| r == Some(k) <==> k.spec_code() == code,
    {
        match code {
            1 => Some(CodeActionTriggerKind::Invoked),
            2 => Some(CodeActionTriggerKind::Automatic),
            _ => None,
        }
    }
}

/// What triggered a `textDocument/signatureHelp` request.
#[derive(Debug, Clone, Copy, PartialEq, Eq, Hash, Structural)]
pub enum SignatureHelpTriggerKind {
    /// Explicitly invoked (e.g. via a keybinding or the API).
    Invoked,
    /// Triggered by a trigger character.
    TriggerCharacter,
    /// Triggered because the cursor moved into a new parameter of an
    /// already-showing signature.
    ContentChange,
}

impl SignatureHelpTriggerKind {
    /// The number that stands for this value on the wire.
    pub open spec fn spec_code(self) -> u8 {
        match self {
            SignatureHelpTriggerKind::Invoked => 1,
            SignatureHelpTriggerKind::TriggerCharacter => 2,
            SignatureHelpTriggerKind::ContentChange => 3,
        }
    }

    /// The number that stands for this value on the wire.
    pub fn code(self) -> (r: u8)
        ensures
            r == self.spec_code(),
    {
        match self {
            SignatureHelpTriggerKind::Invoked => 1,
            SignatureHelpTriggerKind::TriggerCharacter => 2,
            SignatureHelpTriggerKind::ContentChange => 3,
        }
    }

    /// The value a wire number stands for; `None` for a number that
    /// stands for no value.
    pub fn from_code(code: u8) -> (r: Option<SignatureHelpTriggerKind>)
        ensures
            forall|k: SignatureHelpTriggerKind| r == Some(k) <==> k.spec_code() == code,
    {
        match code {
            1 => Some(SignatureHelpTriggerKind::Invoked),
            2 => Some(SignatureHelpTriggerKind::TriggerCharacter),
            3 => Some(SignatureHelpTriggerKind::ContentChange),
            _ => None,
        }
    }
}

/// The kind of an [`crate::lsp::InlayHint`], used by clients to style it.
#[derive(Debug, Clone, Copy, PartialEq, Eq, Hash, Structural)]
pub enum InlayHintKind {
    /// A type annotation, e.g. `: i32` after an inferred `let` binding.
    Type,
    /// A parameter name annotation, e.g. `x:` before a positional argument.
    Parameter,
}

impl InlayHintKind {
    /// The number that stands for this value on the wire.
    pub open spec fn spec_code(self) -> u8 {
        match self {
            InlayHintKind::Type => 1,
            InlayHintKind::Parameter => 2,
        }
    }

    /// The number that stands for this value on the wire.
    pub fn code(self) -> (r: u8)
        ensures
            r == self.spec_code(),
    {
        match self {
            InlayHintKind::Type => 1,
            InlayHintKind::Parameter => 2,
        }
    }

    /// The value a wire number stands for; `None` for a number that
    /// stands for no value.
    pub fn from_code(code: u8) -> (r: Option<InlayHintKind>)
        ensures
            forall|k: InlayHintKind| r == Some(k) <==> k.spec_code() == code,
    {
        match code {
            1 => Some(InlayHintKind::Type),
            2 => Some(InlayHintKind::Parameter),
            _ => None,
        }
    }
}

/// Why `textDocument/willSave` (or `willSaveWaitUntil`) fired.
#[derive(Debug, Clone, Copy, PartialEq, Eq, Hash, Structural)]
pub enum TextDocumentSaveReason {
    /// The user manually triggered the save (e.g. Ctrl+S).
    Manual,
    /// Saved automatically after a delay.
    AfterDelay,
    /// Saved automatically because the editor lost focus.
    FocusOut,
}

impl TextDocumentSaveReason {
    /// The number that stands for this value on the wire.
    pub open spec fn spec_code(self) -> u8 {
        match self {
            TextDocumentSaveReason::Manual => 1,
            TextDocumentSaveReason::AfterDelay => 2,
            TextDocumentSaveReason::FocusOut => 3,
        }
    }

    /// The number that stands for this value on the wire.
    pub fn code(self) -> (r: u8)
        ensures
            r == self.spec_code(),
    {
        match self {
            TextDocumentSaveReason::Manual => 1,
            TextDocumentSaveReason::AfterDelay => 2,
            TextDocumentSaveReason::FocusOut => 3,
        }
    }

    /// The value a wire number stands for; `None` for a number that
    /// stands for no value.
    pub fn from_code(code: u8) -> (r: Option<TextDocumentSaveReason>)
        ensures
            forall|k: TextDocumentSaveReason| r == Some(k) <==> k.spec_code() == code,
    {
        match code {
            1 => Some(TextDocumentSaveReason::Manual),
            2 => Some(TextDocumentSaveReason::AfterDelay),
            3 => Some(TextDocumentSaveReason::FocusOut),
            _ => None,
        }
    }
}

/// The kind of a [`crate::lsp::NotebookCell`].
#[derive(Debug, Clone, Copy, PartialEq, Eq, Hash, Structural)]
pub enum NotebookCellKind {
    /// A markup (prose/documentation) cell.
    Markup,
    /// A code cell.
    Code,
}

impl NotebookCellKind {
    /// The number that stands for this value on the wire.
    pub open spec fn spec_code(self) -> u8 {
        match self {
            NotebookCellKind::Markup => 1,
            NotebookCellKind::Code => 2,
        }
    }

    /// The number that stands for this value on the wire.
    pub fn code(self) -> (r: u8)
        ensures
            r == self.spec_code(),
    {
        match self {
            NotebookCellKind::Markup => 1,
            NotebookCellKind::Code => 2,
        }
    }

    /// The value a wire number stands for; `None` for a number that
    /// stands for no value.
    pub fn from_code(code: u8) -> (r: Option<NotebookCellKind>)
        ensures
            forall|k: NotebookCellKind| r == Some(k) <==> k.spec_code() == code,
    {
        match code {
            1 => Some(NotebookCellKind::Markup),
            2 => Some(NotebookCellKind::Code),
            _ => None,
        }
    }
}

/// How a `textDocument/inlineCompletion` request was triggered
/// (LSP 3.18, proposed).
#[derive(Debug, Clone, Copy, PartialEq, Eq, Hash, Structural)]
pub enum InlineCompletionTriggerKind {
    /// Explicitly invoked by a user gesture.
    Invoked,
    /// Triggered automatically while the user types.
    Automatic,
}

impl InlineCompletionTriggerKind {
    /// The number that stands for this value on the wire.
    pub open spec fn spec_code(self) -> u8 {
        match self {
            InlineCompletionTriggerKind::Invoked => 1,
            InlineCompletionTriggerKind::Automatic => 2,
        }
    }

    /// The number that stands for this value on the wire.
    pub fn code(self) -> (r: u8)
        ensures
            r == self.spec_code(),
    {
        match self {
            InlineCompletionTriggerKind::Invoked => 1,
            InlineCompletionTriggerKind::Automatic => 2,
        }
    }

    /// The value a wire number stands for; `None` for a number that
    /// stands for no value.
    pub fn from_code(code: u8) -> (r: Option<InlineCompletionTriggerKind>)
        ensures
            forall|k: InlineCompletionTriggerKind| r == Some(k) <==> k.spec_code() == code,
    {
        match code {
            1 => Some(InlineCompletionTriggerKind::Invoked),
            2 => Some(InlineCompletionTriggerKind::Automatic),
            _ => None,
        }
    }
}

/// The kind of a [`crate::lsp::DocumentHighlight`], used by clients to
/// style read vs. write occurrences differently.
#[derive(Debug, Clone, Copy, PartialEq, Eq, Hash, Structural)]
pub enum DocumentHighlightKind {
    /// A textual occurrence.
    Text,
    /// A read access of a symbol (e.g. reading a variable).
    Read,
    /// A write access of a symbol (e.g. assigning to a variable).
    Write,
}

impl DocumentHighlightKind {
    /// The number that stands for this value on the wire.
    pub open spec fn spec_code(self) -> u8 {
        match self {
            DocumentHighlightKind::Text => 1,
            DocumentHighlightKind::Read => 2,
            DocumentHighlightKind::Write => 3,
        }
    }

    /// The number that stands for this value on the wire.
    pub fn code(self) -> (r: u8)
        ensures
            r == self.spec_code(),
    {
        match self {
            DocumentHighlightKind::Text => 1,
            DocumentHighlightKind::Read => 2,
            DocumentHighlightKind::Write => 3,
        }
    }

    /// The value a wire number stands for; `None` for a number that
    /// stands for no value.
    pub fn from_code(code: u8) -> (r: Option<DocumentHighlightKind>)
        ensures
            forall|k: DocumentHighlightKind| r == Some(k) <==> k.spec_code() == code,
    {
        match code {
            1 => Some(DocumentHighlightKind::Text),
            2 => Some(DocumentHighlightKind::Read),
            3 => Some(DocumentHighlightKind::Write),
            _ => None,
        }
    }
}

/// A tag qualifying a [`crate::lsp::CompletionItem`].
#[derive(Debug, Clone, Copy, PartialEq, Eq, Hash, Structural)]
pub enum CompletionItemTag {
    /// Render the item as obsolete, usually struck through.
    Deprecated,
}

impl CompletionItemTag {
    /// The number that stands for this value on the wire.
    pub open spec fn spec_code(self) -> u8 {
        match self {
            CompletionItemTag::Deprecated => 1,
        }
    }

    /// The number that stands for this value on the wire.
    pub fn code(self) -> (r: u8)
        ensures
            r == self.spec_code(),
    {
        match self {
            CompletionItemTag::Deprecated => 1,
        }
    }

    /// The value a wire number stands for; `None` for a number that
    /// stands for no value.
    pub fn from_code(code: u8) -> (r: Option<CompletionItemTag>)
        ensures
            forall|k: CompletionItemTag| r == Some(k) <==> k.spec_code() == code,
    {
        match code {
            1 => Some(CompletionItemTag::Deprecated),
            _ => None,
        }
    }
}

/// How a [`crate::lsp::CompletionItem`]'s insert text should be
/// interpreted.
#[derive(Debug, Clone, Copy, PartialEq, Eq, Hash, Structural)]
pub enum InsertTextFormat {
    /// Insert the text verbatim.
    PlainText,
    /// Interpret the text as an LSP snippet (`${1:placeholder}`, `$0`).
    Snippet,
}

impl InsertTextFormat {
    /// The number that stands for this value on the wire.
    pub open spec fn spec_code(self) -> u8 {
        match self {
            InsertTextFormat::PlainText => 1,
            InsertTextFormat::Snippet => 2,
        }
    }

    /// The number that stands for this value on the wire.
    pub fn code(self) -> (r: u8)
        ensures
            r == self.spec_code(),
    {
        match self {
            InsertTextFormat::PlainText => 1,
            InsertTextFormat::Snippet => 2,
        }
    }

    /// The value a wire number stands for; `None` for a number that
    /// stands for no value.
    pub fn from_code(code: u8) -> (r: Option<InsertTextFormat>)
        ensures
            forall|k: InsertTextFormat| r == Some(k) <==> k.spec_code() == code,
    {
        match code {
            1 => Some(InsertTextFormat::PlainText),
            2 => Some(InsertTextFormat::Snippet),
            _ => None,
        }
    }
}

/// How whitespace/indentation in a [`crate::lsp::CompletionItem`]'s
/// insert text should be adjusted to the surrounding context (LSP 3.16).
#[derive(Debug, Clone, Copy, PartialEq, Eq, Hash, Structural)]
pub enum InsertTextMode {
    /// Insert the text and indentation exactly as given.
    AsIs,
    /// Adjust leading whitespace/indentation to match the current line.
    AdjustIndentation,
}

impl InsertTextMode {
    /// The number that stands for this value on the wire.
    pub open spec fn spec_code(self) -> u8 {
        match self {
            InsertTextMode::AsIs => 1,
            InsertTextMode::AdjustIndentation => 2,
        }
    }

    /// The number that stands for this value on the wire.
    pub fn code(self) -> (r: u8)
        ensures
            r == self.spec_code(),
    {
        match self {
            InsertTextMode::AsIs => 1,
            InsertTextMode::AdjustIndentation => 2,
        }
    }

    /// The value a wire number stands for; `None` for a number that
    /// stands for no value.
    pub fn from_code(code: u8) -> (r: Option<InsertTextMode>)
        ensures
            forall|k: InsertTextMode| r == Some(k) <==> k.spec_code() == code,
    {
        match code {
            1 => Some(InsertTextMode::AsIs),
            2 => Some(InsertTextMode::AdjustIndentation),
            _ => None,
        }
    }
}

/// A tag qualifying a [`crate::lsp::Diagnostic`], letting clients render
/// it specially (faded, struck through) instead of squiggling it.
#[derive(Debug, Clone, Copy, PartialEq, Eq, Hash, Structural)]
pub enum DiagnosticTag {
    /// Unused or unnecessary code; clients typically fade it.
    Unnecessary,
    /// Deprecated or obsolete code; clients typically strike it through.
    Deprecated,
}

impl DiagnosticTag {
    /// The number that stands for this value on the wire.
    pub open spec fn spec_code(self) -> u8 {
        match self {
            DiagnosticTag::Unnecessary => 1,
            DiagnosticTag::Deprecated => 2,
        }
    }

    /// The number that stands for this value on the wire.
    pub fn code(self) -> (r: u8)
        ensures
            r == self.spec_code(),
    {
        match self {
            DiagnosticTag::Unnecessary => 1,
            DiagnosticTag::Deprecated => 2,
        }
    }

    /// The value a wire number stands for; `None` for a number that
    /// stands for no value.
    pub fn from_code(code: u8) -> (r: Option<DiagnosticTag>)
        ensures
            forall|k: DiagnosticTag| r == Some(k) <==> k.spec_code() == code,
    {
        match code {
            1 => Some(DiagnosticTag::Unnecessary),
            2 => Some(DiagnosticTag::Deprecated),
            _ => None,
        }
    }
}

/// The format of a markup content value, encoded on the wire as the strings
/// `"plaintext"` and `"markdown"`.
#[derive(Debug, Clone, Copy, PartialEq, Eq, Hash, Structural)]
pub enum MarkupKind {
    /// Plain text.
    PlainText,
    /// Markdown.
    Markdown,
}

/// The unit in which a position's `character` field is measured (LSP 3.17).
#[derive(Debug, Clone, Copy, PartialEq, Eq, Hash, Structural)]
pub enum PositionEncodingKind {
    /// UTF-8 code units (bytes).
    Utf8,
    /// UTF-16 code units; the base-spec default.
    Utf16,
    /// UTF-32 code units (Unicode scalar values).
    Utf32,
}

} // verus!
