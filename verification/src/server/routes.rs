//! Which typed handler each LSP method reaches. A method this framework
//! does not model reaches the untyped fallback handler.

use crate::strings::str_eq;
use vstd::prelude::*;

verus! {

/// The typed handler a request method reaches.
#[derive(Debug, Clone, Copy, PartialEq, Eq, Structural)]
pub enum RequestRoute {
    /// `textDocument/hover`.
    Hover,
    /// `textDocument/completion`.
    Completion,
    /// `textDocument/definition`.
    Definition,
    /// `textDocument/declaration`.
    Declaration,
    /// `textDocument/typeDefinition`.
    TypeDefinition,
    /// `textDocument/implementation`.
    Implementation,
    /// `textDocument/references`.
    References,
    /// `textDocument/documentHighlight`.
    DocumentHighlight,
    /// `completionItem/resolve`.
    CompletionResolve,
    /// `textDocument/documentSymbol`.
    DocumentSymbol,
    /// `workspace/symbol`.
    WorkspaceSymbol,
    /// `workspaceSymbol/resolve`.
    WorkspaceSymbolResolve,
    /// `textDocument/signatureHelp`.
    SignatureHelp,
    /// `textDocument/codeAction`.
    CodeAction,
    /// `codeAction/resolve`.
    CodeActionResolve,
    /// `textDocument/rename`.
    Rename,
    /// `textDocument/prepareRename`.
    PrepareRename,
    /// `workspace/executeCommand`.
    ExecuteCommand,
    /// `textDocument/formatting`.
    Formatting,
    /// `textDocument/rangeFormatting`.
    RangeFormatting,
    /// `textDocument/onTypeFormatting`.
    OnTypeFormatting,
    /// `textDocument/foldingRange`.
    FoldingRange,
    /// `textDocument/selectionRange`.
    SelectionRange,
    /// `textDocument/codeLens`.
    CodeLens,
    /// `codeLens/resolve`.
    CodeLensResolve,
    /// `textDocument/documentLink`.
    DocumentLink,
    /// `documentLink/resolve`.
    DocumentLinkResolve,
    /// `textDocument/documentColor`.
    DocumentColor,
    /// `textDocument/colorPresentation`.
    ColorPresentation,
    /// `textDocument/semanticTokens/full`.
    SemanticTokensFull,
    /// `textDocument/semanticTokens/full/delta`.
    SemanticTokensFullDelta,
    /// `textDocument/semanticTokens/range`.
    SemanticTokensRange,
    /// `textDocument/inlayHint`.
    InlayHint,
    /// `inlayHint/resolve`.
    InlayHintResolve,
    /// `textDocument/diagnostic`.
    Diagnostic,
    /// `workspace/diagnostic`.
    WorkspaceDiagnostic,
    /// `textDocument/willSaveWaitUntil`.
    WillSaveWaitUntil,
    /// `workspace/willCreateFiles`.
    WillCreateFiles,
    /// `workspace/willRenameFiles`.
    WillRenameFiles,
    /// `workspace/willDeleteFiles`.
    WillDeleteFiles,
    /// `textDocument/prepareCallHierarchy`.
    PrepareCallHierarchy,
    /// `callHierarchy/incomingCalls`.
    IncomingCalls,
    /// `callHierarchy/outgoingCalls`.
    OutgoingCalls,
    /// `textDocument/prepareTypeHierarchy`.
    PrepareTypeHierarchy,
    /// `typeHierarchy/supertypes`.
    Supertypes,
    /// `typeHierarchy/subtypes`.
    Subtypes,
    /// `textDocument/moniker`.
    Moniker,
    /// `textDocument/linkedEditingRange`.
    LinkedEditingRange,
    /// `textDocument/inlineValue`.
    InlineValue,
    /// `textDocument/inlineCompletion`.
    InlineCompletion,
    /// Any other method: the untyped `handle_request` fallback.
    Custom,
}

/// The handler that the request method `m` reaches.
pub open spec fn request_route(m: Seq<char>) -> RequestRoute {
    if m == "textDocument/hover"@ {
        RequestRoute::Hover
    } else if m == "textDocument/completion"@ {
        RequestRoute::Completion
    } else if m == "textDocument/definition"@ {
        RequestRoute::Definition
    } else if m == "textDocument/declaration"@ {
        RequestRoute::Declaration
    } else if m == "textDocument/typeDefinition"@ {
        RequestRoute::TypeDefinition
    } else if m == "textDocument/implementation"@ {
        RequestRoute::Implementation
    } else if m == "textDocument/references"@ {
        RequestRoute::References
    } else if m == "textDocument/documentHighlight"@ {
        RequestRoute::DocumentHighlight
    } else if m == "completionItem/resolve"@ {
        RequestRoute::CompletionResolve
    } else if m == "textDocument/documentSymbol"@ {
        RequestRoute::DocumentSymbol
    } else if m == "workspace/symbol"@ {
        RequestRoute::WorkspaceSymbol
    } else if m == "workspaceSymbol/resolve"@ {
        RequestRoute::WorkspaceSymbolResolve
    } else if m == "textDocument/signatureHelp"@ {
        RequestRoute::SignatureHelp
    } else if m == "textDocument/codeAction"@ {
        RequestRoute::CodeAction
    } else if m == "codeAction/resolve"@ {
        RequestRoute::CodeActionResolve
    } else if m == "textDocument/rename"@ {
        RequestRoute::Rename
    } else if m == "textDocument/prepareRename"@ {
        RequestRoute::PrepareRename
    } else if m == "workspace/executeCommand"@ {
        RequestRoute::ExecuteCommand
    } else if m == "textDocument/formatting"@ {
        RequestRoute::Formatting
    } else if m == "textDocument/rangeFormatting"@ {
        RequestRoute::RangeFormatting
    } else if m == "textDocument/onTypeFormatting"@ {
        RequestRoute::OnTypeFormatting
    } else if m == "textDocument/foldingRange"@ {
        RequestRoute::FoldingRange
    } else if m == "textDocument/selectionRange"@ {
        RequestRoute::SelectionRange
    } else if m == "textDocument/codeLens"@ {
        RequestRoute::CodeLens
    } else if m == "codeLens/resolve"@ {
        RequestRoute::CodeLensResolve
    } else if m == "textDocument/documentLink"@ {
        RequestRoute::DocumentLink
    } else if m == "documentLink/resolve"@ {
        RequestRoute::DocumentLinkResolve
    } else if m == "textDocument/documentColor"@ {
        RequestRoute::DocumentColor
    } else if m == "textDocument/colorPresentation"@ {
        RequestRoute::ColorPresentation
    } else if m == "textDocument/semanticTokens/full"@ {
        RequestRoute::SemanticTokensFull
    } else if m == "textDocument/semanticTokens/full/delta"@ {
        RequestRoute::SemanticTokensFullDelta
    } else if m == "textDocument/semanticTokens/range"@ {
        RequestRoute::SemanticTokensRange
    } else if m == "textDocument/inlayHint"@ {
        RequestRoute::InlayHint
    } else if m == "inlayHint/resolve"@ {
        RequestRoute::InlayHintResolve
    } else if m == "textDocument/diagnostic"@ {
        RequestRoute::Diagnostic
    } else if m == "workspace/diagnostic"@ {
        RequestRoute::WorkspaceDiagnostic
    } else if m == "textDocument/willSaveWaitUntil"@ {
        RequestRoute::WillSaveWaitUntil
    } else if m == "workspace/willCreateFiles"@ {
        RequestRoute::WillCreateFiles
    } else if m == "workspace/willRenameFiles"@ {
        RequestRoute::WillRenameFiles
    } else if m == "workspace/willDeleteFiles"@ {
        RequestRoute::WillDeleteFiles
    } else if m == "textDocument/prepareCallHierarchy"@ {
        RequestRoute::PrepareCallHierarchy
    } else if m == "callHierarchy/incomingCalls"@ {
        RequestRoute::IncomingCalls
    } else if m == "callHierarchy/outgoingCalls"@ {
        RequestRoute::OutgoingCalls
    } else if m == "textDocument/prepareTypeHierarchy"@ {
        RequestRoute::PrepareTypeHierarchy
    } else if m == "typeHierarchy/supertypes"@ {
        RequestRoute::Supertypes
    } else if m == "typeHierarchy/subtypes"@ {
        RequestRoute::Subtypes
    } else if m == "textDocument/moniker"@ {
        RequestRoute::Moniker
    } else if m == "textDocument/linkedEditingRange"@ {
        RequestRoute::LinkedEditingRange
    } else if m == "textDocument/inlineValue"@ {
        RequestRoute::InlineValue
    } else if m == "textDocument/inlineCompletion"@ {
        RequestRoute::InlineCompletion
    } else {
        RequestRoute::Custom
    }
}

/// The method name of each typed request handler (none for the fallback).
pub open spec fn request_method(route: RequestRoute) -> Seq<char> {
    match route {
        RequestRoute::Hover => "textDocument/hover"@,
        RequestRoute::Completion => "textDocument/completion"@,
        RequestRoute::Definition => "textDocument/definition"@,
        RequestRoute::Declaration => "textDocument/declaration"@,
        RequestRoute::TypeDefinition => "textDocument/typeDefinition"@,
        RequestRoute::Implementation => "textDocument/implementation"@,
        RequestRoute::References => "textDocument/references"@,
        RequestRoute::DocumentHighlight => "textDocument/documentHighlight"@,
        RequestRoute::CompletionResolve => "completionItem/resolve"@,
        RequestRoute::DocumentSymbol => "textDocument/documentSymbol"@,
        RequestRoute::WorkspaceSymbol => "workspace/symbol"@,
        RequestRoute::WorkspaceSymbolResolve => "workspaceSymbol/resolve"@,
        RequestRoute::SignatureHelp => "textDocument/signatureHelp"@,
        RequestRoute::CodeAction => "textDocument/codeAction"@,
        RequestRoute::CodeActionResolve => "codeAction/resolve"@,
        RequestRoute::Rename => "textDocument/rename"@,
        RequestRoute::PrepareRename => "textDocument/prepareRename"@,
        RequestRoute::ExecuteCommand => "workspace/executeCommand"@,
        RequestRoute::Formatting => "textDocument/formatting"@,
        RequestRoute::RangeFormatting => "textDocument/rangeFormatting"@,
        RequestRoute::OnTypeFormatting => "textDocument/onTypeFormatting"@,
        RequestRoute::FoldingRange => "textDocument/foldingRange"@,
        RequestRoute::SelectionRange => "textDocument/selectionRange"@,
        RequestRoute::CodeLens => "textDocument/codeLens"@,
        RequestRoute::CodeLensResolve => "codeLens/resolve"@,
        RequestRoute::DocumentLink => "textDocument/documentLink"@,
        RequestRoute::DocumentLinkResolve => "documentLink/resolve"@,
        RequestRoute::DocumentColor => "textDocument/documentColor"@,
        RequestRoute::ColorPresentation => "textDocument/colorPresentation"@,
        RequestRoute::SemanticTokensFull => "textDocument/semanticTokens/full"@,
        RequestRoute::SemanticTokensFullDelta => "textDocument/semanticTokens/full/delta"@,
        RequestRoute::SemanticTokensRange => "textDocument/semanticTokens/range"@,
        RequestRoute::InlayHint => "textDocument/inlayHint"@,
        RequestRoute::InlayHintResolve => "inlayHint/resolve"@,
        RequestRoute::Diagnostic => "textDocument/diagnostic"@,
        RequestRoute::WorkspaceDiagnostic => "workspace/diagnostic"@,
        RequestRoute::WillSaveWaitUntil => "textDocument/willSaveWaitUntil"@,
        RequestRoute::WillCreateFiles => "workspace/willCreateFiles"@,
        RequestRoute::WillRenameFiles => "workspace/willRenameFiles"@,
        RequestRoute::WillDeleteFiles => "workspace/willDeleteFiles"@,
        RequestRoute::PrepareCallHierarchy => "textDocument/prepareCallHierarchy"@,
        RequestRoute::IncomingCalls => "callHierarchy/incomingCalls"@,
        RequestRoute::OutgoingCalls => "callHierarchy/outgoingCalls"@,
        RequestRoute::PrepareTypeHierarchy => "textDocument/prepareTypeHierarchy"@,
        RequestRoute::Supertypes => "typeHierarchy/supertypes"@,
        RequestRoute::Subtypes => "typeHierarchy/subtypes"@,
        RequestRoute::Moniker => "textDocument/moniker"@,
        RequestRoute::LinkedEditingRange => "textDocument/linkedEditingRange"@,
        RequestRoute::InlineValue => "textDocument/inlineValue"@,
        RequestRoute::InlineCompletion => "textDocument/inlineCompletion"@,
        RequestRoute::Custom => Seq::empty(),
    }
}

/// Every request method the framework models reaches its own typed handler:
/// a handler's method name routes to that handler, never to the untyped
/// fallback; a method that reaches a typed handler is that handler's name;
/// so distinct methods reach distinct handlers.
pub proof fn lemma_request_methods_reach_their_handlers(route: RequestRoute, m: Seq<char>, other: Seq<char>)
    ensures
        route != RequestRoute::Custom ==> request_route(request_method(route)) == route,
        request_route(m) != RequestRoute::Custom ==> request_method(request_route(m)) == m,
        request_route(m) != RequestRoute::Custom && request_route(m) == request_route(other) ==> m == other,
{
    reveal_strlit("textDocument/hover");
    assert("textDocument/hover"@.len() == 18);
    reveal_strlit("textDocument/completion");
    assert("textDocument/completion"@.len() == 23);
    reveal_strlit("textDocument/definition");
    assert("textDocument/definition"@.len() == 23);
    reveal_strlit("textDocument/declaration");
    assert("textDocument/declaration"@.len() == 24);
    reveal_strlit("textDocument/typeDefinition");
    assert("textDocument/typeDefinition"@.len() == 27);
    reveal_strlit("textDocument/implementation");
    assert("textDocument/implementation"@.len() == 27);
    reveal_strlit("textDocument/references");
    assert("textDocument/references"@.len() == 23);
    reveal_strlit("textDocument/documentHighlight");
    assert("textDocument/documentHighlight"@.len() == 30);
    reveal_strlit("completionItem/resolve");
    assert("completionItem/resolve"@.len() == 22);
    reveal_strlit("textDocument/documentSymbol");
    assert("textDocument/documentSymbol"@.len() == 27);
    reveal_strlit("workspace/symbol");
    assert("workspace/symbol"@.len() == 16);
    reveal_strlit("workspaceSymbol/resolve");
    assert("workspaceSymbol/resolve"@.len() == 23);
    reveal_strlit("textDocument/signatureHelp");
    assert("textDocument/signatureHelp"@.len() == 26);
    reveal_strlit("textDocument/codeAction");
    assert("textDocument/codeAction"@.len() == 23);
    reveal_strlit("codeAction/resolve");
    assert("codeAction/resolve"@.len() == 18);
    reveal_strlit("textDocument/rename");
    assert("textDocument/rename"@.len() == 19);
    reveal_strlit("textDocument/prepareRename");
    assert("textDocument/prepareRename"@.len() == 26);
    reveal_strlit("workspace/executeCommand");
    assert("workspace/executeCommand"@.len() == 24);
    reveal_strlit("textDocument/formatting");
    assert("textDocument/formatting"@.len() == 23);
    reveal_strlit("textDocument/rangeFormatting");
    assert("textDocument/rangeFormatting"@.len() == 28);
    reveal_strlit("textDocument/onTypeFormatting");
    assert("textDocument/onTypeFormatting"@.len() == 29);
    reveal_strlit("textDocument/foldingRange");
    assert("textDocument/foldingRange"@.len() == 25);
    reveal_strlit("textDocument/selectionRange");
    assert("textDocument/selectionRange"@.len() == 27);
    reveal_strlit("textDocument/codeLens");
    assert("textDocument/codeLens"@.len() == 21);
    reveal_strlit("codeLens/resolve");
    assert("codeLens/resolve"@.len() == 16);
    reveal_strlit("textDocument/documentLink");
    assert("textDocument/documentLink"@.len() == 25);
    reveal_strlit("documentLink/resolve");
    assert("documentLink/resolve"@.len() == 20);
    reveal_strlit("textDocument/documentColor");
    assert("textDocument/documentColor"@.len() == 26);
    reveal_strlit("textDocument/colorPresentation");
    assert("textDocument/colorPresentation"@.len() == 30);
    reveal_strlit("textDocument/semanticTokens/full");
    assert("textDocument/semanticTokens/full"@.len() == 32);
    reveal_strlit("textDocument/semanticTokens/full/delta");
    assert("textDocument/semanticTokens/full/delta"@.len() == 38);
    reveal_strlit("textDocument/semanticTokens/range");
    assert("textDocument/semanticTokens/range"@.len() == 33);
    reveal_strlit("textDocument/inlayHint");
    assert("textDocument/inlayHint"@.len() == 22);
    reveal_strlit("inlayHint/resolve");
    assert("inlayHint/resolve"@.len() == 17);
    reveal_strlit("textDocument/diagnostic");
    assert("textDocument/diagnostic"@.len() == 23);
    reveal_strlit("workspace/diagnostic");
    assert("workspace/diagnostic"@.len() == 20);
    reveal_strlit("textDocument/willSaveWaitUntil");
    assert("textDocument/willSaveWaitUntil"@.len() == 30);
    reveal_strlit("workspace/willCreateFiles");
    assert("workspace/willCreateFiles"@.len() == 25);
    reveal_strlit("workspace/willRenameFiles");
    assert("workspace/willRenameFiles"@.len() == 25);
    reveal_strlit("workspace/willDeleteFiles");
    assert("workspace/willDeleteFiles"@.len() == 25);
    reveal_strlit("textDocument/prepareCallHierarchy");
    assert("textDocument/prepareCallHierarchy"@.len() == 33);
    reveal_strlit("callHierarchy/incomingCalls");
    assert("callHierarchy/incomingCalls"@.len() == 27);
    reveal_strlit("callHierarchy/outgoingCalls");
    assert("callHierarchy/outgoingCalls"@.len() == 27);
    reveal_strlit("textDocument/prepareTypeHierarchy");
    assert("textDocument/prepareTypeHierarchy"@.len() == 33);
    reveal_strlit("typeHierarchy/supertypes");
    assert("typeHierarchy/supertypes"@.len() == 24);
    reveal_strlit("typeHierarchy/subtypes");
    assert("typeHierarchy/subtypes"@.len() == 22);
    reveal_strlit("textDocument/moniker");
    assert("textDocument/moniker"@.len() == 20);
    reveal_strlit("textDocument/linkedEditingRange");
    assert("textDocument/linkedEditingRange"@.len() == 31);
    reveal_strlit("textDocument/inlineValue");
    assert("textDocument/inlineValue"@.len() == 24);
    reveal_strlit("textDocument/inlineCompletion");
    assert("textDocument/inlineCompletion"@.len() == 29);
    assert("textDocument/definition"@ != "textDocument/completion"@) by {
        assert("textDocument/definition"@[13] != "textDocument/completion"@[13]);
    }
    assert("textDocument/implementation"@ != "textDocument/typeDefinition"@) by {
        assert("textDocument/implementation"@[13] != "textDocument/typeDefinition"@[13]);
    }
    assert("textDocument/references"@ != "textDocument/completion"@) by {
        assert("textDocument/references"@[13] != "textDocument/completion"@[13]);
    }
    assert("textDocument/references"@ != "textDocument/definition"@) by {
        assert("textDocument/references"@[13] != "textDocument/definition"@[13]);
    }
    assert("textDocument/documentSymbol"@ != "textDocument/typeDefinition"@) by {
        assert("textDocument/documentSymbol"@[13] != "textDocument/typeDefinition"@[13]);
    }
    assert("textDocument/documentSymbol"@ != "textDocument/implementation"@) by {
        assert("textDocument/documentSymbol"@[13] != "textDocument/implementation"@[13]);
    }
    assert("workspaceSymbol/resolve"@ != "textDocument/completion"@) by {
        assert("workspaceSymbol/resolve"@[0] != "textDocument/completion"@[0]);
    }
    assert("workspaceSymbol/resolve"@ != "textDocument/definition"@) by {
        assert("workspaceSymbol/resolve"@[0] != "textDocument/definition"@[0]);
    }
    assert("workspaceSymbol/resolve"@ != "textDocument/references"@) by {
        assert("workspaceSymbol/resolve"@[0] != "textDocument/references"@[0]);
    }
    assert("textDocument/codeAction"@ != "textDocument/completion"@) by {
        assert("textDocument/codeAction"@[15] != "textDocument/completion"@[15]);
    }
    assert("textDocument/codeAction"@ != "textDocument/definition"@) by {
        assert("textDocument/codeAction"@[13] != "textDocument/definition"@[13]);
    }
    assert("textDocument/codeAction"@ != "textDocument/references"@) by {
        assert("textDocument/codeAction"@[13] != "textDocument/references"@[13]);
    }
    assert("textDocument/codeAction"@ != "workspaceSymbol/resolve"@) by {
        assert("textDocument/codeAction"@[0] != "workspaceSymbol/resolve"@[0]);
    }
    assert("codeAction/resolve"@ != "textDocument/hover"@) by {
        assert("codeAction/resolve"@[0] != "textDocument/hover"@[0]);
    }
    assert("textDocument/prepareRename"@ != "textDocument/signatureHelp"@) by {
        assert("textDocument/prepareRename"@[13] != "textDocument/signatureHelp"@[13]);
    }
    assert("workspace/executeCommand"@ != "textDocument/declaration"@) by {
        assert("workspace/executeCommand"@[0] != "textDocument/declaration"@[0]);
    }
    assert("textDocument/formatting"@ != "textDocument/completion"@) by {
        assert("textDocument/formatting"@[13] != "textDocument/completion"@[13]);
    }
    assert("textDocument/formatting"@ != "textDocument/definition"@) by {
        assert("textDocument/formatting"@[13] != "textDocument/definition"@[13]);
    }
    assert("textDocument/formatting"@ != "textDocument/references"@) by {
        assert("textDocument/formatting"@[13] != "textDocument/references"@[13]);
    }
    assert("textDocument/formatting"@ != "workspaceSymbol/resolve"@) by {
        assert("textDocument/formatting"@[0] != "workspaceSymbol/resolve"@[0]);
    }
    assert("textDocument/formatting"@ != "textDocument/codeAction"@) by {
        assert("textDocument/formatting"@[13] != "textDocument/codeAction"@[13]);
    }
    assert("textDocument/selectionRange"@ != "textDocument/typeDefinition"@) by {
        assert("textDocument/selectionRange"@[13] != "textDocument/typeDefinition"@[13]);
    }
    assert("textDocument/selectionRange"@ != "textDocument/implementation"@) by {
        assert("textDocument/selectionRange"@[13] != "textDocument/implementation"@[13]);
    }
    assert("textDocument/selectionRange"@ != "textDocument/documentSymbol"@) by {
        assert("textDocument/selectionRange"@[13] != "textDocument/documentSymbol"@[13]);
    }
    assert("codeLens/resolve"@ != "workspace/symbol"@) by {
        assert("codeLens/resolve"@[0] != "workspace/symbol"@[0]);
    }
    assert("textDocument/documentLink"@ != "textDocument/foldingRange"@) by {
        assert("textDocument/documentLink"@[13] != "textDocument/foldingRange"@[13]);
    }
    assert("textDocument/documentColor"@ != "textDocument/signatureHelp"@) by {
        assert("textDocument/documentColor"@[13] != "textDocument/signatureHelp"@[13]);
    }
    assert("textDocument/documentColor"@ != "textDocument/prepareRename"@) by {
        assert("textDocument/documentColor"@[13] != "textDocument/prepareRename"@[13]);
    }
    assert("textDocument/colorPresentation"@ != "textDocument/documentHighlight"@) by {
        assert("textDocument/colorPresentation"@[13] != "textDocument/documentHighlight"@[13]);
    }
    assert("textDocument/inlayHint"@ != "completionItem/resolve"@) by {
        assert("textDocument/inlayHint"@[0] != "completionItem/resolve"@[0]);
    }
    assert("textDocument/diagnostic"@ != "textDocument/completion"@) by {
        assert("textDocument/diagnostic"@[13] != "textDocument/completion"@[13]);
    }
    assert("textDocument/diagnostic"@ != "textDocument/definition"@) by {
        assert("textDocument/diagnostic"@[14] != "textDocument/definition"@[14]);
    }
    assert("textDocument/diagnostic"@ != "textDocument/references"@) by {
        assert("textDocument/diagnostic"@[13] != "textDocument/references"@[13]);
    }
    assert("textDocument/diagnostic"@ != "workspaceSymbol/resolve"@) by {
        assert("textDocument/diagnostic"@[0] != "workspaceSymbol/resolve"@[0]);
    }
    assert("textDocument/diagnostic"@ != "textDocument/codeAction"@) by {
        assert("textDocument/diagnostic"@[13] != "textDocument/codeAction"@[13]);
    }
    assert("textDocument/diagnostic"@ != "textDocument/formatting"@) by {
        assert("textDocument/diagnostic"@[13] != "textDocument/formatting"@[13]);
    }
    assert("workspace/diagnostic"@ != "documentLink/resolve"@) by {
        assert("workspace/diagnostic"@[0] != "documentLink/resolve"@[0]);
    }
    assert("textDocument/willSaveWaitUntil"@ != "textDocument/documentHighlight"@) by {
        assert("textDocument/willSaveWaitUntil"@[13] != "textDocument/documentHighlight"@[13]);
    }
    assert("textDocument/willSaveWaitUntil"@ != "textDocument/colorPresentation"@) by {
        assert("textDocument/willSaveWaitUntil"@[13] != "textDocument/colorPresentation"@[13]);
    }
    assert("workspace/willCreateFiles"@ != "textDocument/foldingRange"@) by {
        assert("workspace/willCreateFiles"@[0] != "textDocument/foldingRange"@[0]);
    }
    assert("workspace/willCreateFiles"@ != "textDocument/documentLink"@) by {
        assert("workspace/willCreateFiles"@[0] != "textDocument/documentLink"@[0]);
    }
    assert("workspace/willRenameFiles"@ != "textDocument/foldingRange"@) by {
        assert("workspace/willRenameFiles"@[0] != "textDocument/foldingRange"@[0]);
    }
    assert("workspace/willRenameFiles"@ != "textDocument/documentLink"@) by {
        assert("workspace/willRenameFiles"@[0] != "textDocument/documentLink"@[0]);
    }
    assert("workspace/willRenameFiles"@ != "workspace/willCreateFiles"@) by {
        assert("workspace/willRenameFiles"@[14] != "workspace/willCreateFiles"@[14]);
    }
    assert("workspace/willDeleteFiles"@ != "textDocument/foldingRange"@) by {
        assert("workspace/willDeleteFiles"@[0] != "textDocument/foldingRange"@[0]);
    }
    assert("workspace/willDeleteFiles"@ != "textDocument/documentLink"@) by {
        assert("workspace/willDeleteFiles"@[0] != "textDocument/documentLink"@[0]);
    }
    assert("workspace/willDeleteFiles"@ != "workspace/willCreateFiles"@) by {
        assert("workspace/willDeleteFiles"@[14] != "workspace/willCreateFiles"@[14]);
    }
    assert("workspace/willDeleteFiles"@ != "workspace/willRenameFiles"@) by {
        assert("workspace/willDeleteFiles"@[14] != "workspace/willRenameFiles"@[14]);
    }
    assert("textDocument/prepareCallHierarchy"@ != "textDocument/semanticTokens/range"@) by {
        assert("textDocument/prepareCallHierarchy"@[13] != "textDocument/semanticTokens/range"@[13]);
    }
    assert("callHierarchy/incomingCalls"@ != "textDocument/typeDefinition"@) by {
        assert("callHierarchy/incomingCalls"@[0] != "textDocument/typeDefinition"@[0]);
    }
    assert("callHierarchy/incomingCalls"@ != "textDocument/implementation"@) by {
        assert("callHierarchy/incomingCalls"@[0] != "textDocument/implementation"@[0]);
    }
    assert("callHierarchy/incomingCalls"@ != "textDocument/documentSymbol"@) by {
        assert("callHierarchy/incomingCalls"@[0] != "textDocument/documentSymbol"@[0]);
    }
    assert("callHierarchy/incomingCalls"@ != "textDocument/selectionRange"@) by {
        assert("callHierarchy/incomingCalls"@[0] != "textDocument/selectionRange"@[0]);
    }
    assert("callHierarchy/outgoingCalls"@ != "textDocument/typeDefinition"@) by {
        assert("callHierarchy/outgoingCalls"@[0] != "textDocument/typeDefinition"@[0]);
    }
    assert("callHierarchy/outgoingCalls"@ != "textDocument/implementation"@) by {
        assert("callHierarchy/outgoingCalls"@[0] != "textDocument/implementation"@[0]);
    }
    assert("callHierarchy/outgoingCalls"@ != "textDocument/documentSymbol"@) by {
        assert("callHierarchy/outgoingCalls"@[0] != "textDocument/documentSymbol"@[0]);
    }
    assert("callHierarchy/outgoingCalls"@ != "textDocument/selectionRange"@) by {
        assert("callHierarchy/outgoingCalls"@[0] != "textDocument/selectionRange"@[0]);
    }
    assert("callHierarchy/outgoingCalls"@ != "callHierarchy/incomingCalls"@) by {
        assert("callHierarchy/outgoingCalls"@[14] != "callHierarchy/incomingCalls"@[14]);
    }
    assert("textDocument/prepareTypeHierarchy"@ != "textDocument/semanticTokens/range"@) by {
        assert("textDocument/prepareTypeHierarchy"@[13] != "textDocument/semanticTokens/range"@[13]);
    }
    assert("textDocument/prepareTypeHierarchy"@ != "textDocument/prepareCallHierarchy"@) by {
        assert("textDocument/prepareTypeHierarchy"@[20] != "textDocument/prepareCallHierarchy"@[20]);
    }
    assert("typeHierarchy/supertypes"@ != "textDocument/declaration"@) by {
        assert("typeHierarchy/supertypes"@[1] != "textDocument/declaration"@[1]);
    }
    assert("typeHierarchy/supertypes"@ != "workspace/executeCommand"@) by {
        assert("typeHierarchy/supertypes"@[0] != "workspace/executeCommand"@[0]);
    }
    assert("typeHierarchy/subtypes"@ != "completionItem/resolve"@) by {
        assert("typeHierarchy/subtypes"@[0] != "completionItem/resolve"@[0]);
    }
    assert("typeHierarchy/subtypes"@ != "textDocument/inlayHint"@) by {
        assert("typeHierarchy/subtypes"@[1] != "textDocument/inlayHint"@[1]);
    }
    assert("textDocument/moniker"@ != "documentLink/resolve"@) by {
        assert("textDocument/moniker"@[0] != "documentLink/resolve"@[0]);
    }
    assert("textDocument/moniker"@ != "workspace/diagnostic"@) by {
        assert("textDocument/moniker"@[0] != "workspace/diagnostic"@[0]);
    }
    assert("textDocument/inlineValue"@ != "textDocument/declaration"@) by {
        assert("textDocument/inlineValue"@[13] != "textDocument/declaration"@[13]);
    }
    assert("textDocument/inlineValue"@ != "workspace/executeCommand"@) by {
        assert("textDocument/inlineValue"@[0] != "workspace/executeCommand"@[0]);
    }
    assert("textDocument/inlineValue"@ != "typeHierarchy/supertypes"@) by {
        assert("textDocument/inlineValue"@[1] != "typeHierarchy/supertypes"@[1]);
    }
    assert("textDocument/inlineCompletion"@ != "textDocument/onTypeFormatting"@) by {
        assert("textDocument/inlineCompletion"@[13] != "textDocument/onTypeFormatting"@[13]);
    }
    match route {
        RequestRoute::Hover => assert(request_route("textDocument/hover"@) == RequestRoute::Hover),
        RequestRoute::Completion => assert(request_route("textDocument/completion"@) == RequestRoute::Completion),
        RequestRoute::Definition => assert(request_route("textDocument/definition"@) == RequestRoute::Definition),
        RequestRoute::Declaration => assert(request_route("textDocument/declaration"@) == RequestRoute::Declaration),
        RequestRoute::TypeDefinition => assert(request_route("textDocument/typeDefinition"@) == RequestRoute::TypeDefinition),
        RequestRoute::Implementation => assert(request_route("textDocument/implementation"@) == RequestRoute::Implementation),
        RequestRoute::References => assert(request_route("textDocument/references"@) == RequestRoute::References),
        RequestRoute::DocumentHighlight => assert(request_route("textDocument/documentHighlight"@) == RequestRoute::DocumentHighlight),
        RequestRoute::CompletionResolve => assert(request_route("completionItem/resolve"@) == RequestRoute::CompletionResolve),
        RequestRoute::DocumentSymbol => assert(request_route("textDocument/documentSymbol"@) == RequestRoute::DocumentSymbol),
        RequestRoute::WorkspaceSymbol => assert(request_route("workspace/symbol"@) == RequestRoute::WorkspaceSymbol),
        RequestRoute::WorkspaceSymbolResolve => assert(request_route("workspaceSymbol/resolve"@) == RequestRoute::WorkspaceSymbolResolve),
        RequestRoute::SignatureHelp => assert(request_route("textDocument/signatureHelp"@) == RequestRoute::SignatureHelp),
        RequestRoute::CodeAction => assert(request_route("textDocument/codeAction"@) == RequestRoute::CodeAction),
        RequestRoute::CodeActionResolve => assert(request_route("codeAction/resolve"@) == RequestRoute::CodeActionResolve),
        RequestRoute::Rename => assert(request_route("textDocument/rename"@) == RequestRoute::Rename),
        RequestRoute::PrepareRename => assert(request_route("textDocument/prepareRename"@) == RequestRoute::PrepareRename),
        RequestRoute::ExecuteCommand => assert(request_route("workspace/executeCommand"@) == RequestRoute::ExecuteCommand),
        RequestRoute::Formatting => assert(request_route("textDocument/formatting"@) == RequestRoute::Formatting),
        RequestRoute::RangeFormatting => assert(request_route("textDocument/rangeFormatting"@) == RequestRoute::RangeFormatting),
        RequestRoute::OnTypeFormatting => assert(request_route("textDocument/onTypeFormatting"@) == RequestRoute::OnTypeFormatting),
        RequestRoute::FoldingRange => assert(request_route("textDocument/foldingRange"@) == RequestRoute::FoldingRange),
        RequestRoute::SelectionRange => assert(request_route("textDocument/selectionRange"@) == RequestRoute::SelectionRange),
        RequestRoute::CodeLens => assert(request_route("textDocument/codeLens"@) == RequestRoute::CodeLens),
        RequestRoute::CodeLensResolve => assert(request_route("codeLens/resolve"@) == RequestRoute::CodeLensResolve),
        RequestRoute::DocumentLink => assert(request_route("textDocument/documentLink"@) == RequestRoute::DocumentLink),
        RequestRoute::DocumentLinkResolve => assert(request_route("documentLink/resolve"@) == RequestRoute::DocumentLinkResolve),
        RequestRoute::DocumentColor => assert(request_route("textDocument/documentColor"@) == RequestRoute::DocumentColor),
        RequestRoute::ColorPresentation => assert(request_route("textDocument/colorPresentation"@) == RequestRoute::ColorPresentation),
        RequestRoute::SemanticTokensFull => assert(request_route("textDocument/semanticTokens/full"@) == RequestRoute::SemanticTokensFull),
        RequestRoute::SemanticTokensFullDelta => assert(request_route("textDocument/semanticTokens/full/delta"@) == RequestRoute::SemanticTokensFullDelta),
        RequestRoute::SemanticTokensRange => assert(request_route("textDocument/semanticTokens/range"@) == RequestRoute::SemanticTokensRange),
        RequestRoute::InlayHint => assert(request_route("textDocument/inlayHint"@) == RequestRoute::InlayHint),
        RequestRoute::InlayHintResolve => assert(request_route("inlayHint/resolve"@) == RequestRoute::InlayHintResolve),
        RequestRoute::Diagnostic => assert(request_route("textDocument/diagnostic"@) == RequestRoute::Diagnostic),
        RequestRoute::WorkspaceDiagnostic => assert(request_route("workspace/diagnostic"@) == RequestRoute::WorkspaceDiagnostic),
        RequestRoute::WillSaveWaitUntil => assert(request_route("textDocument/willSaveWaitUntil"@) == RequestRoute::WillSaveWaitUntil),
        RequestRoute::WillCreateFiles => assert(request_route("workspace/willCreateFiles"@) == RequestRoute::WillCreateFiles),
        RequestRoute::WillRenameFiles => assert(request_route("workspace/willRenameFiles"@) == RequestRoute::WillRenameFiles),
        RequestRoute::WillDeleteFiles => assert(request_route("workspace/willDeleteFiles"@) == RequestRoute::WillDeleteFiles),
        RequestRoute::PrepareCallHierarchy => assert(request_route("textDocument/prepareCallHierarchy"@) == RequestRoute::PrepareCallHierarchy),
        RequestRoute::IncomingCalls => assert(request_route("callHierarchy/incomingCalls"@) == RequestRoute::IncomingCalls),
        RequestRoute::OutgoingCalls => assert(request_route("callHierarchy/outgoingCalls"@) == RequestRoute::OutgoingCalls),
        RequestRoute::PrepareTypeHierarchy => assert(request_route("textDocument/prepareTypeHierarchy"@) == RequestRoute::PrepareTypeHierarchy),
        RequestRoute::Supertypes => assert(request_route("typeHierarchy/supertypes"@) == RequestRoute::Supertypes),
        RequestRoute::Subtypes => assert(request_route("typeHierarchy/subtypes"@) == RequestRoute::Subtypes),
        RequestRoute::Moniker => assert(request_route("textDocument/moniker"@) == RequestRoute::Moniker),
        RequestRoute::LinkedEditingRange => assert(request_route("textDocument/linkedEditingRange"@) == RequestRoute::LinkedEditingRange),
        RequestRoute::InlineValue => assert(request_route("textDocument/inlineValue"@) == RequestRoute::InlineValue),
        RequestRoute::InlineCompletion => assert(request_route("textDocument/inlineCompletion"@) == RequestRoute::InlineCompletion),
        RequestRoute::Custom => {},
    }
}
/// Route a request by its method name.
pub fn route_request(method: &str) -> (r: RequestRoute)
    ensures
        r == request_route(method@),
{
    if str_eq(method, "textDocument/hover") {
        return RequestRoute::Hover;
    }
    if str_eq(method, "textDocument/completion") {
        return RequestRoute::Completion;
    }
    if str_eq(method, "textDocument/definition") {
        return RequestRoute::Definition;
    }
    if str_eq(method, "textDocument/declaration") {
        return RequestRoute::Declaration;
    }
    if str_eq(method, "textDocument/typeDefinition") {
        return RequestRoute::TypeDefinition;
    }
    if str_eq(method, "textDocument/implementation") {
        return RequestRoute::Implementation;
    }
    if str_eq(method, "textDocument/references") {
        return RequestRoute::References;
    }
    if str_eq(method, "textDocument/documentHighlight") {
        return RequestRoute::DocumentHighlight;
    }
    if str_eq(method, "completionItem/resolve") {
        return RequestRoute::CompletionResolve;
    }
    if str_eq(method, "textDocument/documentSymbol") {
        return RequestRoute::DocumentSymbol;
    }
    if str_eq(method, "workspace/symbol") {
        return RequestRoute::WorkspaceSymbol;
    }
    if str_eq(method, "workspaceSymbol/resolve") {
        return RequestRoute::WorkspaceSymbolResolve;
    }
    if str_eq(method, "textDocument/signatureHelp") {
        return RequestRoute::SignatureHelp;
    }
    if str_eq(method, "textDocument/codeAction") {
        return RequestRoute::CodeAction;
    }
    if str_eq(method, "codeAction/resolve") {
        return RequestRoute::CodeActionResolve;
    }
    if str_eq(method, "textDocument/rename") {
        return RequestRoute::Rename;
    }
    if str_eq(method, "textDocument/prepareRename") {
        return RequestRoute::PrepareRename;
    }
    if str_eq(method, "workspace/executeCommand") {
        return RequestRoute::ExecuteCommand;
    }
    if str_eq(method, "textDocument/formatting") {
        return RequestRoute::Formatting;
    }
    if str_eq(method, "textDocument/rangeFormatting") {
        return RequestRoute::RangeFormatting;
    }
    if str_eq(method, "textDocument/onTypeFormatting") {
        return RequestRoute::OnTypeFormatting;
    }
    if str_eq(method, "textDocument/foldingRange") {
        return RequestRoute::FoldingRange;
    }
    if str_eq(method, "textDocument/selectionRange") {
        return RequestRoute::SelectionRange;
    }
    if str_eq(method, "textDocument/codeLens") {
        return RequestRoute::CodeLens;
    }
    if str_eq(method, "codeLens/resolve") {
        return RequestRoute::CodeLensResolve;
    }
    if str_eq(method, "textDocument/documentLink") {
        return RequestRoute::DocumentLink;
    }
    if str_eq(method, "documentLink/resolve") {
        return RequestRoute::DocumentLinkResolve;
    }
    if str_eq(method, "textDocument/documentColor") {
        return RequestRoute::DocumentColor;
    }
    if str_eq(method, "textDocument/colorPresentation") {
        return RequestRoute::ColorPresentation;
    }
    if str_eq(method, "textDocument/semanticTokens/full") {
        return RequestRoute::SemanticTokensFull;
    }
    if str_eq(method, "textDocument/semanticTokens/full/delta") {
        return RequestRoute::SemanticTokensFullDelta;
    }
    if str_eq(method, "textDocument/semanticTokens/range") {
        return RequestRoute::SemanticTokensRange;
    }
    if str_eq(method, "textDocument/inlayHint") {
        return RequestRoute::InlayHint;
    }
    if str_eq(method, "inlayHint/resolve") {
        return RequestRoute::InlayHintResolve;
    }
    if str_eq(method, "textDocument/diagnostic") {
        return RequestRoute::Diagnostic;
    }
    if str_eq(method, "workspace/diagnostic") {
        return RequestRoute::WorkspaceDiagnostic;
    }
    if str_eq(method, "textDocument/willSaveWaitUntil") {
        return RequestRoute::WillSaveWaitUntil;
    }
    if str_eq(method, "workspace/willCreateFiles") {
        return RequestRoute::WillCreateFiles;
    }
    if str_eq(method, "workspace/willRenameFiles") {
        return RequestRoute::WillRenameFiles;
    }
    if str_eq(method, "workspace/willDeleteFiles") {
        return RequestRoute::WillDeleteFiles;
    }
    if str_eq(method, "textDocument/prepareCallHierarchy") {
        return RequestRoute::PrepareCallHierarchy;
    }
    if str_eq(method, "callHierarchy/incomingCalls") {
        return RequestRoute::IncomingCalls;
    }
    if str_eq(method, "callHierarchy/outgoingCalls") {
        return RequestRoute::OutgoingCalls;
    }
    if str_eq(method, "textDocument/prepareTypeHierarchy") {
        return RequestRoute::PrepareTypeHierarchy;
    }
    if str_eq(method, "typeHierarchy/supertypes") {
        return RequestRoute::Supertypes;
    }
    if str_eq(method, "typeHierarchy/subtypes") {
        return RequestRoute::Subtypes;
    }
    if str_eq(method, "textDocument/moniker") {
        return RequestRoute::Moniker;
    }
    if str_eq(method, "textDocument/linkedEditingRange") {
        return RequestRoute::LinkedEditingRange;
    }
    if str_eq(method, "textDocument/inlineValue") {
        return RequestRoute::InlineValue;
    }
    if str_eq(method, "textDocument/inlineCompletion") {
        return RequestRoute::InlineCompletion;
    }
    RequestRoute::Custom
}

/// The typed handler a notification method reaches.
#[derive(Debug, Clone, Copy, PartialEq, Eq, Structural)]
pub enum NotificationRoute {
    /// `textDocument/didOpen`.
    DidOpen,
    /// `textDocument/didChange`.
    DidChange,
    /// `textDocument/didClose`.
    DidClose,
    /// `textDocument/didSave`.
    DidSave,
    /// `workspace/didChangeWorkspaceFolders`.
    DidChangeWorkspaceFolders,
    /// `window/workDoneProgress/cancel`.
    WorkDoneProgressCancel,
    /// `workspace/didChangeConfiguration`.
    DidChangeConfiguration,
    /// `workspace/didChangeWatchedFiles`.
    DidChangeWatchedFiles,
    /// `textDocument/willSave`.
    WillSave,
    /// `workspace/didCreateFiles`.
    DidCreateFiles,
    /// `workspace/didRenameFiles`.
    DidRenameFiles,
    /// `workspace/didDeleteFiles`.
    DidDeleteFiles,
    /// `$/setTrace`.
    SetTrace,
    /// `notebookDocument/didOpen`.
    DidOpenNotebook,
    /// `notebookDocument/didChange`.
    DidChangeNotebook,
    /// `notebookDocument/didSave`.
    DidSaveNotebook,
    /// `notebookDocument/didClose`.
    DidCloseNotebook,
    /// Any other method: the untyped `handle_notification` fallback.
    Custom,
}

/// The handler that the notification method `m` reaches.
pub open spec fn notification_route(m: Seq<char>) -> NotificationRoute {
    if m == "textDocument/didOpen"@ {
        NotificationRoute::DidOpen
    } else if m == "textDocument/didChange"@ {
        NotificationRoute::DidChange
    } else if m == "textDocument/didClose"@ {
        NotificationRoute::DidClose
    } else if m == "textDocument/didSave"@ {
        NotificationRoute::DidSave
    } else if m == "workspace/didChangeWorkspaceFolders"@ {
        NotificationRoute::DidChangeWorkspaceFolders
    } else if m == "window/workDoneProgress/cancel"@ {
        NotificationRoute::WorkDoneProgressCancel
    } else if m == "workspace/didChangeConfiguration"@ {
        NotificationRoute::DidChangeConfiguration
    } else if m == "workspace/didChangeWatchedFiles"@ {
        NotificationRoute::DidChangeWatchedFiles
    } else if m == "textDocument/willSave"@ {
        NotificationRoute::WillSave
    } else if m == "workspace/didCreateFiles"@ {
        NotificationRoute::DidCreateFiles
    } else if m == "workspace/didRenameFiles"@ {
        NotificationRoute::DidRenameFiles
    } else if m == "workspace/didDeleteFiles"@ {
        NotificationRoute::DidDeleteFiles
    } else if m == "$/setTrace"@ {
        NotificationRoute::SetTrace
    } else if m == "notebookDocument/didOpen"@ {
        NotificationRoute::DidOpenNotebook
    } else if m == "notebookDocument/didChange"@ {
        NotificationRoute::DidChangeNotebook
    } else if m == "notebookDocument/didSave"@ {
        NotificationRoute::DidSaveNotebook
    } else if m == "notebookDocument/didClose"@ {
        NotificationRoute::DidCloseNotebook
    } else {
        NotificationRoute::Custom
    }
}

/// The method name of each typed notification handler (none for the fallback).
pub open spec fn notification_method(route: NotificationRoute) -> Seq<char> {
    match route {
        NotificationRoute::DidOpen => "textDocument/didOpen"@,
        NotificationRoute::DidChange => "textDocument/didChange"@,
        NotificationRoute::DidClose => "textDocument/didClose"@,
        NotificationRoute::DidSave => "textDocument/didSave"@,
        NotificationRoute::DidChangeWorkspaceFolders => "workspace/didChangeWorkspaceFolders"@,
        NotificationRoute::WorkDoneProgressCancel => "window/workDoneProgress/cancel"@,
        NotificationRoute::DidChangeConfiguration => "workspace/didChangeConfiguration"@,
        NotificationRoute::DidChangeWatchedFiles => "workspace/didChangeWatchedFiles"@,
        NotificationRoute::WillSave => "textDocument/willSave"@,
        NotificationRoute::DidCreateFiles => "workspace/didCreateFiles"@,
        NotificationRoute::DidRenameFiles => "workspace/didRenameFiles"@,
        NotificationRoute::DidDeleteFiles => "workspace/didDeleteFiles"@,
        NotificationRoute::SetTrace => "$/setTrace"@,
        NotificationRoute::DidOpenNotebook => "notebookDocument/didOpen"@,
        NotificationRoute::DidChangeNotebook => "notebookDocument/didChange"@,
        NotificationRoute::DidSaveNotebook => "notebookDocument/didSave"@,
        NotificationRoute::DidCloseNotebook => "notebookDocument/didClose"@,
        NotificationRoute::Custom => Seq::empty(),
    }
}

/// Every notification method the framework models reaches its own typed
/// handler: a handler's method name routes to that handler, never to the
/// untyped fallback; a method that reaches a typed handler is that handler's
/// name; so distinct methods reach distinct handlers.
pub proof fn lemma_notification_methods_reach_their_handlers(route: NotificationRoute, m: Seq<char>, other: Seq<char>)
    ensures
        route != NotificationRoute::Custom ==> notification_route(notification_method(route)) == route,
        notification_route(m) != NotificationRoute::Custom ==> notification_method(notification_route(m)) == m,
        notification_route(m) != NotificationRoute::Custom && notification_route(m) == notification_route(other) ==> m == other,
{
    reveal_strlit("textDocument/didOpen");
    assert("textDocument/didOpen"@.len() == 20);
    reveal_strlit("textDocument/didChange");
    assert("textDocument/didChange"@.len() == 22);
    reveal_strlit("textDocument/didClose");
    assert("textDocument/didClose"@.len() == 21);
    reveal_strlit("textDocument/didSave");
    assert("textDocument/didSave"@.len() == 20);
    reveal_strlit("workspace/didChangeWorkspaceFolders");
    assert("workspace/didChangeWorkspaceFolders"@.len() == 35);
    reveal_strlit("window/workDoneProgress/cancel");
    assert("window/workDoneProgress/cancel"@.len() == 30);
    reveal_strlit("workspace/didChangeConfiguration");
    assert("workspace/didChangeConfiguration"@.len() == 32);
    reveal_strlit("workspace/didChangeWatchedFiles");
    assert("workspace/didChangeWatchedFiles"@.len() == 31);
    reveal_strlit("textDocument/willSave");
    assert("textDocument/willSave"@.len() == 21);
    reveal_strlit("workspace/didCreateFiles");
    assert("workspace/didCreateFiles"@.len() == 24);
    reveal_strlit("workspace/didRenameFiles");
    assert("workspace/didRenameFiles"@.len() == 24);
    reveal_strlit("workspace/didDeleteFiles");
    assert("workspace/didDeleteFiles"@.len() == 24);
    reveal_strlit("$/setTrace");
    assert("$/setTrace"@.len() == 10);
    reveal_strlit("notebookDocument/didOpen");
    assert("notebookDocument/didOpen"@.len() == 24);
    reveal_strlit("notebookDocument/didChange");
    assert("notebookDocument/didChange"@.len() == 26);
    reveal_strlit("notebookDocument/didSave");
    assert("notebookDocument/didSave"@.len() == 24);
    reveal_strlit("notebookDocument/didClose");
    assert("notebookDocument/didClose"@.len() == 25);
    assert("textDocument/didSave"@ != "textDocument/didOpen"@) by {
        assert("textDocument/didSave"@[16] != "textDocument/didOpen"@[16]);
    }
    assert("textDocument/willSave"@ != "textDocument/didClose"@) by {
        assert("textDocument/willSave"@[13] != "textDocument/didClose"@[13]);
    }
    assert("workspace/didRenameFiles"@ != "workspace/didCreateFiles"@) by {
        assert("workspace/didRenameFiles"@[13] != "workspace/didCreateFiles"@[13]);
    }
    assert("workspace/didDeleteFiles"@ != "workspace/didCreateFiles"@) by {
        assert("workspace/didDeleteFiles"@[13] != "workspace/didCreateFiles"@[13]);
    }
    assert("workspace/didDeleteFiles"@ != "workspace/didRenameFiles"@) by {
        assert("workspace/didDeleteFiles"@[13] != "workspace/didRenameFiles"@[13]);
    }
    assert("notebookDocument/didOpen"@ != "workspace/didCreateFiles"@) by {
        assert("notebookDocument/didOpen"@[0] != "workspace/didCreateFiles"@[0]);
    }
    assert("notebookDocument/didOpen"@ != "workspace/didRenameFiles"@) by {
        assert("notebookDocument/didOpen"@[0] != "workspace/didRenameFiles"@[0]);
    }
    assert("notebookDocument/didOpen"@ != "workspace/didDeleteFiles"@) by {
        assert("notebookDocument/didOpen"@[0] != "workspace/didDeleteFiles"@[0]);
    }
    assert("notebookDocument/didSave"@ != "workspace/didCreateFiles"@) by {
        assert("notebookDocument/didSave"@[0] != "workspace/didCreateFiles"@[0]);
    }
    assert("notebookDocument/didSave"@ != "workspace/didRenameFiles"@) by {
        assert("notebookDocument/didSave"@[0] != "workspace/didRenameFiles"@[0]);
    }
    assert("notebookDocument/didSave"@ != "workspace/didDeleteFiles"@) by {
        assert("notebookDocument/didSave"@[0] != "workspace/didDeleteFiles"@[0]);
    }
    assert("notebookDocument/didSave"@ != "notebookDocument/didOpen"@) by {
        assert("notebookDocument/didSave"@[20] != "notebookDocument/didOpen"@[20]);
    }
    match route {
        NotificationRoute::DidOpen => assert(notification_route("textDocument/didOpen"@) == NotificationRoute::DidOpen),
        NotificationRoute::DidChange => assert(notification_route("textDocument/didChange"@) == NotificationRoute::DidChange),
        NotificationRoute::DidClose => assert(notification_route("textDocument/didClose"@) == NotificationRoute::DidClose),
        NotificationRoute::DidSave => assert(notification_route("textDocument/didSave"@) == NotificationRoute::DidSave),
        NotificationRoute::DidChangeWorkspaceFolders => assert(notification_route("workspace/didChangeWorkspaceFolders"@) == NotificationRoute::DidChangeWorkspaceFolders),
        NotificationRoute::WorkDoneProgressCancel => assert(notification_route("window/workDoneProgress/cancel"@) == NotificationRoute::WorkDoneProgressCancel),
        NotificationRoute::DidChangeConfiguration => assert(notification_route("workspace/didChangeConfiguration"@) == NotificationRoute::DidChangeConfiguration),
        NotificationRoute::DidChangeWatchedFiles => assert(notification_route("workspace/didChangeWatchedFiles"@) == NotificationRoute::DidChangeWatchedFiles),
        NotificationRoute::WillSave => assert(notification_route("textDocument/willSave"@) == NotificationRoute::WillSave),
        NotificationRoute::DidCreateFiles => assert(notification_route("workspace/didCreateFiles"@) == NotificationRoute::DidCreateFiles),
        NotificationRoute::DidRenameFiles => assert(notification_route("workspace/didRenameFiles"@) == NotificationRoute::DidRenameFiles),
        NotificationRoute::DidDeleteFiles => assert(notification_route("workspace/didDeleteFiles"@) == NotificationRoute::DidDeleteFiles),
        NotificationRoute::SetTrace => assert(notification_route("$/setTrace"@) == NotificationRoute::SetTrace),
        NotificationRoute::DidOpenNotebook => assert(notification_route("notebookDocument/didOpen"@) == NotificationRoute::DidOpenNotebook),
        NotificationRoute::DidChangeNotebook => assert(notification_route("notebookDocument/didChange"@) == NotificationRoute::DidChangeNotebook),
        NotificationRoute::DidSaveNotebook => assert(notification_route("notebookDocument/didSave"@) == NotificationRoute::DidSaveNotebook),
        NotificationRoute::DidCloseNotebook => assert(notification_route("notebookDocument/didClose"@) == NotificationRoute::DidCloseNotebook),
        NotificationRoute::Custom => {},
    }
}
/// Route a notification by its method name.
pub fn route_notification(method: &str) -> (r: NotificationRoute)
    ensures
        r == notification_route(method@),
{
    if str_eq(method, "textDocument/didOpen") {
        return NotificationRoute::DidOpen;
    }
    if str_eq(method, "textDocument/didChange") {
        return NotificationRoute::DidChange;
    }
    if str_eq(method, "textDocument/didClose") {
        return NotificationRoute::DidClose;
    }
    if str_eq(method, "textDocument/didSave") {
        return NotificationRoute::DidSave;
    }
    if str_eq(method, "workspace/didChangeWorkspaceFolders") {
        return NotificationRoute::DidChangeWorkspaceFolders;
    }
    if str_eq(method, "window/workDoneProgress/cancel") {
        return NotificationRoute::WorkDoneProgressCancel;
    }
    if str_eq(method, "workspace/didChangeConfiguration") {
        return NotificationRoute::DidChangeConfiguration;
    }
    if str_eq(method, "workspace/didChangeWatchedFiles") {
        return NotificationRoute::DidChangeWatchedFiles;
    }
    if str_eq(method, "textDocument/willSave") {
        return NotificationRoute::WillSave;
    }
    if str_eq(method, "workspace/didCreateFiles") {
        return NotificationRoute::DidCreateFiles;
    }
    if str_eq(method, "workspace/didRenameFiles") {
        return NotificationRoute::DidRenameFiles;
    }
    if str_eq(method, "workspace/didDeleteFiles") {
        return NotificationRoute::DidDeleteFiles;
    }
    if str_eq(method, "$/setTrace") {
        return NotificationRoute::SetTrace;
    }
    if str_eq(method, "notebookDocument/didOpen") {
        return NotificationRoute::DidOpenNotebook;
    }
    if str_eq(method, "notebookDocument/didChange") {
        return NotificationRoute::DidChangeNotebook;
    }
    if str_eq(method, "notebookDocument/didSave") {
        return NotificationRoute::DidSaveNotebook;
    }
    if str_eq(method, "notebookDocument/didClose") {
        return NotificationRoute::DidCloseNotebook;
    }
    NotificationRoute::Custom
}

} // verus!
