use ls_types::basic::{
    Command, Diagnostic, NumberOrString, OneOf, OptionalVersionedTextDocumentIdentifier, Position,
    Range, TextEdit,
};
use ls_types::code_action::{CodeAction, CodeActionOrCommand};
use ls_types::error_codes::{ErrorCode, LSP_RESERVED_ERROR_RANGE_END};
use ls_types::json::{JsonCodec, ObjectMap};
use ls_types::kinds::{DiagnosticSeverity, DiagnosticTag, SymbolKind, TextDocumentSaveReason};
use ls_types::pascal::{fmt_pascal_case, fmt_pascal_case_const};
use ls_types::protocol::{GotoDefinitionResponse, InitializeParams};
use ls_types::tags::{CodeActionKind, PositionEncodingKind, ResourceOperationKind};
use ls_types::uri::Uri;
use ls_types::workspace_edit::{
    CreateFile, DocumentChangeOperation, DocumentChanges, ResourceOp, TextDocumentEdit,
    WorkspaceEdit,
};
use ls_types::{DecodeError, Json};

fn to_value(j: &Json) -> serde_json::Value {
    match j {
        Json::Null => serde_json::Value::Null,
        Json::Bool(b) => serde_json::Value::Bool(*b),
        Json::Number(n) => serde_json::Value::from(*n),
        Json::Str(s) => serde_json::Value::String(s.clone()),
        Json::Array(items) => serde_json::Value::Array(items.iter().map(to_value).collect()),
        Json::Object(ms) => {
            let mut map = serde_json::Map::new();
            for (k, v) in ms {
                map.insert(k.clone(), to_value(v));
            }
            serde_json::Value::Object(map)
        }
    }
}

fn from_value(v: &serde_json::Value) -> Json {
    match v {
        serde_json::Value::Null => Json::Null,
        serde_json::Value::Bool(b) => Json::Bool(*b),
        serde_json::Value::Number(n) => Json::Number(n.as_i64().expect("an integer")),
        serde_json::Value::String(s) => Json::Str(s.clone()),
        serde_json::Value::Array(items) => Json::Array(items.iter().map(from_value).collect()),
        serde_json::Value::Object(map) => {
            Json::Object(map.iter().map(|(k, v)| (k.clone(), from_value(v))).collect())
        }
    }
}

fn parse(text: &str) -> Json {
    from_value(&serde_json::from_str::<serde_json::Value>(text).unwrap())
}

fn value(text: &str) -> serde_json::Value {
    serde_json::from_str(text).unwrap()
}

fn uri(text: &str) -> Uri {
    Uri::parse(text).unwrap()
}

fn re_encode<T: JsonCodec>(text: &str) -> serde_json::Value {
    to_value(&T::from_json(&parse(text)).unwrap().to_json())
}

#[test]
fn decode_encode_keeps_fixtures() {
    let initialize = r#"{"processId":42,"rootUri":"file:///work","capabilities":{"textDocument":{"publishDiagnostics":{"relatedInformation":true,"tagSupport":{"valueSet":[1,2]}},"codeAction":{"codeActionLiteralSupport":{"codeActionKind":{"valueSet":["quickfix","refactor"]}}}},"general":{"positionEncodings":["utf-16","utf-8"]}},"trace":"off","workspaceFolders":[{"uri":"file:///work","name":"work"}],"clientInfo":{"name":"editor","version":"1.0"},"workDoneToken":"t1"}"#;
    assert_eq!(re_encode::<InitializeParams>(initialize), value(initialize));
    let edit = r#"{"documentChanges":[{"kind":"create","uri":"file:///a.rs","options":{"overwrite":true}},{"textDocument":{"uri":"file:///b.rs","version":null},"edits":[{"range":{"start":{"line":0,"character":0},"end":{"line":0,"character":3}},"newText":"abc"},{"range":{"start":{"line":1,"character":0},"end":{"line":1,"character":0}},"newText":"x"}]}],"changeAnnotations":{"a1":{"label":"rename","needsConfirmation":false}}}"#;
    assert_eq!(re_encode::<WorkspaceEdit>(edit), value(edit));
    let diagnostic = r#"{"range":{"start":{"line":3,"character":4},"end":{"line":3,"character":9}},"severity":1,"code":"E0308","source":"rustc","message":"mismatched types","tags":[1],"data":{"fix":[1,"two",null]}}"#;
    assert_eq!(re_encode::<Diagnostic>(diagnostic), value(diagnostic));
    let goto = r#"[{"uri":"file:///a.rs","range":{"start":{"line":1,"character":2},"end":{"line":1,"character":5}}}]"#;
    assert_eq!(re_encode::<GotoDefinitionResponse>(goto), value(goto));
}

#[test]
fn encode_decode_keeps_values() {
    let range = Range::new(Position::new(1, 2), Position::new(3, 4));
    let diagnostic = Diagnostic::new(
        range,
        Some(DiagnosticSeverity::WARNING()),
        Some(NumberOrString::String("W1".to_string())),
        Some("lint".to_string()),
        "unused".to_string(),
        None,
        Some(vec![DiagnosticTag::UNNECESSARY()]),
    );
    assert_eq!(Diagnostic::from_json(&diagnostic.to_json()), Ok(diagnostic.clone()));
    let edit = WorkspaceEdit {
        changes: None,
        document_changes: Some(DocumentChanges::Operations(vec![
            DocumentChangeOperation::Op(ResourceOp::Create(CreateFile {
                uri: uri("file:///new.rs"),
                options: None,
                annotation_id: None,
            })),
            DocumentChangeOperation::Edit(TextDocumentEdit {
                text_document: OptionalVersionedTextDocumentIdentifier::new(uri("file:///new.rs"), 3),
                edits: vec![OneOf::Left(TextEdit::new(range, "fn main() {}".to_string()))],
            }),
        ])),
        change_annotations: None,
    };
    assert_eq!(WorkspaceEdit::from_json(&edit.to_json()), Ok(edit.clone()));
}

#[test]
fn unknown_members_are_ignored() {
    let plain = InitializeParams::from_json(&parse(r#"{"capabilities":{},"processId":1}"#)).unwrap();
    let extra = InitializeParams::from_json(&parse(
        r#"{"capabilities":{"futureFeature":{"x":1}},"processId":1,"somethingNew":[true]}"#,
    ))
    .unwrap();
    assert_eq!(plain, extra);
    let action = CodeAction::from_json(&parse(r#"{"title":"t","later":"x"}"#)).unwrap();
    assert_eq!(action, CodeAction { title: "t".to_string(), ..CodeAction::default() });
}

#[test]
fn absent_optionals_are_left_out() {
    let action = CodeAction { title: "fix".to_string(), ..CodeAction::default() };
    assert_eq!(to_value(&action.to_json()), value(r#"{"title":"fix"}"#));
    let command = Command::new("t".to_string(), "c".to_string(), None);
    assert_eq!(to_value(&command.to_json()), value(r#"{"title":"t","command":"c"}"#));
    assert_eq!(to_value(&WorkspaceEdit::default().to_json()), value("{}"));
    let params = InitializeParams::default();
    assert_eq!(
        to_value(&params.to_json()),
        value(r#"{"processId":null,"rootUri":null,"capabilities":{}}"#)
    );
}

#[test]
fn open_kinds_keep_any_text() {
    for text in ["quickfix", "refactor.extract.function", "my.own-kind", ""] {
        let k = CodeActionKind::from_json(&Json::Str(text.to_string())).unwrap();
        assert_eq!(k.as_str(), text);
        assert_eq!(k.to_json(), Json::Str(text.to_string()));
        let p = PositionEncodingKind::from_json(&Json::Str(text.to_string())).unwrap();
        assert_eq!(p.to_json(), Json::Str(text.to_string()));
    }
    assert_eq!(CodeActionKind::QUICKFIX().as_str(), "quickfix");
    assert_eq!(CodeActionKind::SOURCE_ORGANIZE_IMPORTS().as_str(), "source.organizeImports");
    assert_eq!(PositionEncodingKind::UTF16().as_str(), "utf-16");
    assert_eq!(CodeActionKind::from("x.y".to_string()).as_str(), "x.y");
}

#[test]
fn closed_enums_keep_any_integer() {
    for n in [-5i64, 0, 1, 26, 27, 99, i32::MAX as i64, i32::MIN as i64] {
        let k = SymbolKind::from_json(&Json::Number(n)).unwrap();
        assert_eq!(k.to_json(), Json::Number(n));
        let s = DiagnosticSeverity::from_json(&Json::Number(n)).unwrap();
        assert_eq!(s.to_json(), Json::Number(n));
    }
    assert_eq!(
        SymbolKind::from_json(&Json::Number(i32::MAX as i64 + 1)),
        Err(DecodeError::InvalidPrimitive)
    );
}

#[test]
fn closed_enum_names() {
    assert_eq!(DiagnosticSeverity::ERROR().name(), Some("ERROR"));
    assert_eq!(DiagnosticSeverity(9).name(), None);
    assert_eq!(SymbolKind::TYPE_PARAMETER().debug_text(), "TypeParameter");
    assert_eq!(TextDocumentSaveReason::AFTER_DELAY().debug_text(), "AfterDelay");
    assert_eq!(SymbolKind(99).debug_text(), "SymbolKind(99)");
    assert_eq!(DiagnosticSeverity(-3).debug_text(), "DiagnosticSeverity(-3)");
    assert_eq!(
        TextDocumentSaveReason::from_pascal_name("AfterDelay"),
        Some(TextDocumentSaveReason::AFTER_DELAY())
    );
    assert_eq!(TextDocumentSaveReason::from_pascal_name("AFTER_DELAY"), None);
    assert_eq!(SymbolKind::from_pascal_name("EnumMember"), Some(SymbolKind(22)));
}

#[test]
fn pascal_case_rendering() {
    assert_eq!(fmt_pascal_case_const("QUICK_FIX"), b"QuickFix".to_vec());
    assert_eq!(fmt_pascal_case_const("FILE"), b"File".to_vec());
    assert_eq!(fmt_pascal_case_const(""), Vec::<u8>::new());
    assert_eq!(fmt_pascal_case("TEXT_ONLY_TRANSACTIONAL"), "TextOnlyTransactional");
    assert_eq!(fmt_pascal_case("\u{c9}COLE_\u{c0}B"), "\u{c9}cole\u{c0}b");
    assert_eq!(fmt_pascal_case("__A__B_"), "AB");
}

#[test]
fn error_code_values() {
    assert_eq!(ErrorCode::SERVER_NOT_INITIALIZED().0, -32002);
    assert_eq!(ErrorCode::UNKNOWN_ERROR_CODE().0, -32001);
    assert_eq!(ErrorCode::LSP_RESERVED_ERROR_RANGE_START().0, -32899);
    assert_eq!(ErrorCode::REQUEST_FAILED().0, -32803);
    assert_eq!(ErrorCode::SERVER_CANCELLED().0, -32802);
    assert_eq!(ErrorCode::CONTENT_MODIFIED().0, -32801);
    assert_eq!(ErrorCode::REQUEST_CANCELLED().0, -32800);
    assert_eq!(LSP_RESERVED_ERROR_RANGE_END().0, -32800);
    assert_eq!(ErrorCode::REQUEST_CANCELLED().debug_text(), "RequestCancelled");
}

#[test]
fn decode_errors() {
    assert_eq!(Position::from_json(&parse("[1, 2]")), Err(DecodeError::WrongShape));
    assert_eq!(Position::from_json(&parse(r#"{"line": 1}"#)), Err(DecodeError::MissingField));
    assert_eq!(
        Position::from_json(&parse(r#"{"line": -1, "character": 0}"#)),
        Err(DecodeError::InvalidPrimitive)
    );
    assert_eq!(
        Position::from_json(&parse(r#"{"line": null, "character": 0}"#)),
        Err(DecodeError::WrongShape)
    );
    assert_eq!(
        ResourceOperationKind::from_json(&parse(r#""move""#)),
        Err(DecodeError::UnknownVariant)
    );
    assert_eq!(
        ResourceOp::from_json(&parse(r#"{"kind": "move", "uri": "file:///a"}"#)),
        Err(DecodeError::UnknownVariant)
    );
    assert_eq!(
        ResourceOp::from_json(&parse(r#"{"uri": "file:///a"}"#)),
        Err(DecodeError::MissingField)
    );
    assert_eq!(
        ls_types::basic::Location::from_json(&parse(
            r#"{"uri": "not a uri", "range": {"start": {"line": 0, "character": 0}, "end": {"line": 0, "character": 0}}}"#
        )),
        Err(DecodeError::InvalidPrimitive)
    );
}

#[test]
fn uri_text_is_kept() {
    let u = uri("HTTP://Example.COM/a%20b/");
    assert_eq!(u.as_str(), "HTTP://Example.COM/a%20b/");
    assert!(Uri::parse("no scheme here").is_err());
    assert!(Uri::parse("").is_err());
    assert_ne!(uri("file:///a"), uri("file:///a/"));
    assert!(uri("file:///a") < uri("file:///b"));
}

#[test]
fn union_conversions() {
    let c = Command::new("t".to_string(), "c".to_string(), None);
    assert_eq!(CodeActionOrCommand::from(c.clone()), CodeActionOrCommand::Command(c));
    let mut changes = ObjectMap::new();
    changes.insert(uri("file:///x"), vec![]);
    let e = WorkspaceEdit::new(changes.clone());
    assert_eq!(e.changes, Some(changes));
    assert_eq!(e.document_changes, None);
}
