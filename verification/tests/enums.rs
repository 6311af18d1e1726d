use rusty_lsp::lsp::{
    CompletionItemKind, CompletionTriggerKind, DiagnosticSeverity, MessageType,
    TextDocumentSyncKind,
};

#[test]
fn integer_enums_encode_as_numbers() {
    assert_eq!(TextDocumentSyncKind::Full.code(), 1);
    assert_eq!(MessageType::Warning.code(), 2);
    assert_eq!(DiagnosticSeverity::Hint.code(), 4);
    assert_eq!(CompletionItemKind::TypeParameter.code(), 25);
}

#[test]
fn integer_enums_decode_from_numbers() {
    assert_eq!(DiagnosticSeverity::from_code(1), Some(DiagnosticSeverity::Error));
    assert_eq!(
        CompletionTriggerKind::from_code(2),
        Some(CompletionTriggerKind::TriggerCharacter)
    );
}

#[test]
fn invalid_discriminant_is_rejected() {
    assert_eq!(DiagnosticSeverity::from_code(99), None);
}

#[test]
fn every_code_round_trips() {
    for code in 0..=30u8 {
        if let Some(kind) = CompletionItemKind::from_code(code) {
            assert_eq!(kind.code(), code);
        }
    }
    assert_eq!(TextDocumentSyncKind::from_code(0), Some(TextDocumentSyncKind::NoSync));
    assert_eq!(CompletionItemKind::from_code(0), None);
    assert_eq!(CompletionItemKind::from_code(26), None);
}
