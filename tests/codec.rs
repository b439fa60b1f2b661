use ls_types::basic::{
    Command, Diagnostic, Position, Range, LanguageString, MarkedString, NumberOrString, OneOf, WorkDoneProgressOptions,
};
use ls_types::capabilities::{PublishDiagnosticsClientCapabilities, TagSupport};
use ls_types::code_action::{CodeAction, CodeActionOrCommand};
use ls_types::commands::{ExecuteCommandParams, ExecuteCommandRegistrationOptions};
use ls_types::symbols::DocumentSymbol;
use ls_types::json::{JsonCodec, ObjectMap};
use ls_types::kinds::{DiagnosticTag, WatchKind};
use ls_types::protocol::InitializeParams;
use ls_types::tags::{CodeActionKind, ResourceOperationKind};
use ls_types::uri::Uri;
use ls_types::workspace_edit::WorkspaceEdit;
use ls_types::{DecodeError, Json};

fn to_value(j: &Json) -> serde_json::Value {
    match j {
        Json::Null => serde_json::Value::Null,
        Json::Bool(b) => serde_json::Value::Bool(*b),
        Json::Number(n) => serde_json::Value::from(*n),
        Json::Str(s) => serde_json::Value::String(s.clone()),
        Json::Array(items) => serde_json::Value::Array(items.iter().map(to_value).collect()),
        Json::Object(ms) => {
            let mut map = serde_json::Map::new();
            for (k, v) in ms {
                map.insert(k.clone(), to_value(v));
            }
            serde_json::Value::Object(map)
        }
    }
}

fn from_value(v: &serde_json::Value) -> Json {
    match v {
        serde_json::Value::Null => Json::Null,
        serde_json::Value::Bool(b) => Json::Bool(*b),
        serde_json::Value::Number(n) => Json::Number(n.as_i64().expect("an integer")),
        serde_json::Value::String(s) => Json::Str(s.clone()),
        serde_json::Value::Array(items) => Json::Array(items.iter().map(from_value).collect()),
        serde_json::Value::Object(map) => {
            Json::Object(map.iter().map(|(k, v)| (k.clone(), from_value(v))).collect())
        }
    }
}

fn parse(text: &str) -> Json {
    from_value(&serde_json::from_str::<serde_json::Value>(text).unwrap())
}

fn to_text(j: &Json) -> String {
    match j {
        Json::Null => "null".to_string(),
        Json::Bool(b) => b.to_string(),
        Json::Number(n) => n.to_string(),
        Json::Str(s) => serde_json::to_string(s).unwrap(),
        Json::Array(items) => format!(
            "[{}]",
            items.iter().map(to_text).collect::<Vec<_>>().join(",")
        ),
        Json::Object(ms) => format!(
            "{{{}}}",
            ms.iter()
                .map(|(k, v)| format!("{}:{}", serde_json::to_string(k).unwrap(), to_text(v)))
                .collect::<Vec<_>>()
                .join(",")
        ),
    }
}

fn test_serialization<T: JsonCodec + PartialEq + std::fmt::Debug>(value: &T, expected: &str) {
    let encoded = value.to_json();
    assert_eq!(to_text(&encoded), expected);
    assert_eq!(
        to_value(&encoded),
        serde_json::from_str::<serde_json::Value>(expected).unwrap()
    );
    let decoded = T::from_json(&parse(expected)).unwrap();
    assert_eq!(&decoded, value);
}

fn test_deserialization<T: JsonCodec + PartialEq + std::fmt::Debug>(text: &str, expected: &T) {
    let decoded = T::from_json(&parse(text)).unwrap();
    assert_eq!(&decoded, expected);
}

#[test]
fn one_of() {
    test_serialization(&OneOf::<bool, ()>::Left(true), r"true");
    test_serialization(&OneOf::<String, ()>::Left("abcd".into()), r#""abcd""#);
    test_serialization(
        &OneOf::<String, WorkDoneProgressOptions>::Right(WorkDoneProgressOptions {
            work_done_progress: Some(false),
        }),
        r#"{"workDoneProgress":false}"#,
    );
}

#[test]
fn number_or_string() {
    test_serialization(&NumberOrString::Number(123), r"123");
    test_serialization(&NumberOrString::String("abcd".into()), r#""abcd""#);
}

#[test]
fn marked_string() {
    test_serialization(&MarkedString::from_markdown("xxx".into()), r#""xxx""#);
    test_serialization(
        &MarkedString::from_language_code("lang".into(), "code".into()),
        r#"{"language":"lang","value":"code"}"#,
    );
}

#[test]
fn language_string() {
    test_serialization(
        &LanguageString {
            language: "LL".into(),
            value: "VV".into(),
        },
        r#"{"language":"LL","value":"VV"}"#,
    );
}

#[test]
fn workspace_edit() {
    test_serialization(
        &WorkspaceEdit {
            changes: Some(ObjectMap::new()),
            document_changes: None,
            ..Default::default()
        },
        r#"{"changes":{}}"#,
    );
    test_serialization(
        &WorkspaceEdit {
            changes: None,
            document_changes: None,
            ..Default::default()
        },
        r"{}",
    );
    test_serialization(
        &WorkspaceEdit {
            changes: Some({
                let mut changes = ObjectMap::new();
                changes.insert("file://test".parse::<Uri>().unwrap(), vec![]);
                changes
            }),
            document_changes: None,
            ..Default::default()
        },
        r#"{"changes":{"file://test":[]}}"#,
    );
}

#[test]
fn root_uri_can_be_missing() {
    InitializeParams::from_json(&parse(r#"{ "capabilities": {} }"#)).unwrap();
}

#[test]
fn test_watch_kind() {
    test_serialization(&WatchKind::Create(), "1");
    test_serialization(&WatchKind::Create().union(WatchKind::Change()), "3");
    test_serialization(
        &WatchKind::Create()
            .union(WatchKind::Change())
            .union(WatchKind::Delete()),
        "7",
    );
}

#[test]
fn test_resource_operation_kind() {
    test_serialization(
        &vec![
            ResourceOperationKind::Create,
            ResourceOperationKind::Rename,
            ResourceOperationKind::Delete,
        ],
        r#"["create","rename","delete"]"#,
    );
}

#[test]
fn test_code_action_response() {
    test_serialization(
        &vec![
            CodeActionOrCommand::Command(Command {
                title: "title".to_string(),
                command: "command".to_string(),
                arguments: None,
            }),
            CodeActionOrCommand::CodeAction(Box::new(CodeAction {
                title: "title".to_string(),
                kind: Some(CodeActionKind::QUICKFIX()),
                command: None,
                diagnostics: None,
                edit: None,
                is_preferred: None,
                ..CodeAction::default()
            })),
        ],
        r#"[{"title":"title","command":"command"},{"title":"title","kind":"quickfix"}]"#,
    );
}

#[test]
fn initialize_params_absent_fields() {
    let p = InitializeParams::from_json(&parse(r#"{ "capabilities": {} }"#)).unwrap();
    assert_eq!(p.process_id, None);
    assert_eq!(p.root_uri, None);
    assert_eq!(p.workspace_folders, None);
    let q = InitializeParams::from_json(&parse(r#"{ "capabilities": {}, "rootUri": null, "processId": 7 }"#)).unwrap();
    assert_eq!(q.root_uri, None);
    assert_eq!(q.process_id, Some(7));
}

#[test]
fn watch_kind_rejects_unknown_bits() {
    assert_eq!(WatchKind::from_json(&Json::Number(8)), Err(DecodeError::InvalidPrimitive));
    assert_eq!(WatchKind::from_json(&Json::Number(256)), Err(DecodeError::InvalidPrimitive));
    for n in 0..=255i64 {
        let r = WatchKind::from_json(&Json::Number(n));
        assert_eq!(r.is_ok(), n & !7 == 0);
        if let Ok(w) = r {
            assert_eq!(w.to_json(), Json::Number(n));
        }
    }
}

#[test]
fn tag_support_compat() {
    let t: PublishDiagnosticsClientCapabilities = PublishDiagnosticsClientCapabilities::from_json(&parse(r#"{"tagSupport": true}"#)).unwrap();
    assert_eq!(t.tag_support, Some(TagSupport { value_set: vec![] }));
    let f = PublishDiagnosticsClientCapabilities::from_json(&parse(r#"{"tagSupport": false}"#)).unwrap();
    assert_eq!(f.tag_support, None);
    test_deserialization(
        r#"{"tagSupport": {"valueSet": [1, 2]}}"#,
        &PublishDiagnosticsClientCapabilities {
            tag_support: Some(TagSupport {
                value_set: vec![DiagnosticTag::UNNECESSARY(), DiagnosticTag::DEPRECATED()],
            }),
            ..Default::default()
        },
    );
}

#[test]
fn test_add_fragment() {
    let mut uri = "https://www.example.com".parse::<Uri>().unwrap();
    uri.set_fragment(Some("L11")).unwrap();
    assert_eq!(uri.as_str(), "https://www.example.com#L11");
}

#[test]
fn fragment_replaced_or_refused() {
    let mut uri = "https://example.com/a?q=1#old".parse::<Uri>().unwrap();
    assert!(uri.set_fragment(Some("not a fragment")).is_err());
    assert_eq!(uri.as_str(), "https://example.com/a?q=1#old");
    uri.set_fragment(Some("new")).unwrap();
    assert_eq!(uri.as_str(), "https://example.com/a?q=1#new");
    uri.set_fragment(None).unwrap();
    assert_eq!(uri.as_str(), "https://example.com/a?q=1");
}

#[test]
fn null_payload_round_trips() {
    let action = CodeAction {
        title: "t".to_string(),
        data: Some(Json::Null),
        ..CodeAction::default()
    };
    test_serialization(&action, r#"{"title":"t","data":null}"#);
    let diagnostic = Diagnostic {
        data: Some(Json::Null),
        ..Diagnostic::new_simple(Range::new(Position::new(0, 0), Position::new(0, 1)), "m".to_string())
    };
    assert_eq!(Diagnostic::from_json(&diagnostic.to_json()), Ok(diagnostic));
}

#[test]
fn null_rejected_where_not_nullable() {
    assert_eq!(
        CodeAction::from_json(&parse(r#"{"title":"t","isPreferred":null}"#)),
        Err(DecodeError::WrongShape)
    );
    assert_eq!(
        CodeAction::from_json(&parse(r#"{"title":"t","kind":null}"#)),
        Err(DecodeError::WrongShape)
    );
    let p = InitializeParams::from_json(&parse(r#"{"capabilities":{},"rootUri":null,"processId":null}"#)).unwrap();
    assert_eq!(p.root_uri, None);
    assert_eq!(p.process_id, None);
}

#[test]
fn duplicate_map_keys_rejected() {
    let edits = Json::Array(vec![]);
    let doc = Json::Object(vec![(
        "changes".to_string(),
        Json::Object(vec![
            ("file:///a".to_string(), edits.clone()),
            ("file:///a".to_string(), edits),
        ]),
    )]);
    assert_eq!(WorkspaceEdit::from_json(&doc), Err(DecodeError::WrongShape));
}

#[test]
fn uri_components() {
    let u = "foo://user@example.com:8042/over/there?name=ferret#nose".parse::<Uri>().unwrap();
    assert_eq!(u.scheme(), "foo");
    assert_eq!(u.authority(), Some("user@example.com:8042".to_string()));
    assert_eq!(u.path(), "/over/there");
    assert_eq!(u.query(), Some("name=ferret".to_string()));
    assert_eq!(u.fragment(), Some("nose".to_string()));
    let m = "mailto:someone@example.com".parse::<Uri>().unwrap();
    assert_eq!(m.scheme(), "mailto");
    assert_eq!(m.authority(), None);
    assert_eq!(m.path(), "someone@example.com");
    assert_eq!(m.query(), None);
    assert_eq!(m.fragment(), None);
}

#[test]
fn map_insert_keeps_keys_distinct() {
    let mut m: ObjectMap<String, i32> = ObjectMap::new();
    m.insert("a".to_string(), 1);
    m.insert("b".to_string(), 2);
    m.insert("a".to_string(), 3);
    assert_eq!(m.entries(), &vec![("a".to_string(), 3), ("b".to_string(), 2)]);
    assert_eq!(to_text(&m.to_json()), r#"{"a":3,"b":2}"#);
}

#[test]
fn execute_command_codecs() {
    let p = ExecuteCommandParams::from_json(&parse(r#"{"command":"run"}"#)).unwrap();
    assert_eq!(p.command, "run");
    assert!(p.arguments.is_empty());
    assert_eq!(to_text(&p.to_json()), r#"{"command":"run","arguments":[]}"#);
    let q = ExecuteCommandParams::from_json(&parse(r#"{"command":"run","arguments":[1,"x"],"workDoneToken":7}"#)).unwrap();
    assert_eq!(to_text(&q.to_json()), r#"{"command":"run","arguments":[1,"x"],"workDoneToken":7}"#);
    let r = ExecuteCommandRegistrationOptions::from_json(&parse(r#"{"commands":["a","b"],"workDoneProgress":true}"#)).unwrap();
    assert_eq!(r.commands, vec!["a".to_string(), "b".to_string()]);
    assert_eq!(r.execute_command_options.commands, r.commands);
    assert_eq!(r.execute_command_options.work_done_progress_options.work_done_progress, Some(true));
    assert_eq!(ExecuteCommandRegistrationOptions::from_json(&r.to_json()), Ok(r));
}

#[test]
fn document_symbol_tree_round_trips() {
    let text = r#"{"name":"Outer","kind":5,"range":{"start":{"line":0,"character":0},"end":{"line":9,"character":1}},"selectionRange":{"start":{"line":0,"character":6},"end":{"line":0,"character":11}},"children":[{"name":"inner","detail":"fn()","kind":6,"tags":[1],"range":{"start":{"line":1,"character":4},"end":{"line":3,"character":5}},"selectionRange":{"start":{"line":1,"character":7},"end":{"line":1,"character":12}},"children":[]}]}"#;
    let s = DocumentSymbol::from_json(&parse(text)).unwrap();
    assert_eq!(s.name, "Outer");
    let children = s.children.as_ref().unwrap();
    assert_eq!(children.len(), 1);
    assert_eq!(children[0].detail, Some("fn()".to_string()));
    assert_eq!(to_text(&s.to_json()), text);
    assert_eq!(DocumentSymbol::from_json(&s.to_json()), Ok(s));
    assert_eq!(
        DocumentSymbol::from_json(&parse(r#"{"name":"x","kind":1,"range":{"start":{"line":0,"character":0},"end":{"line":0,"character":0}},"selectionRange":{"start":{"line":0,"character":0},"end":{"line":0,"character":0}},"children":null}"#)),
        Err(DecodeError::WrongShape)
    );
}
