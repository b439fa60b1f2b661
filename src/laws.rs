//! Laws of the codec, stated over the models and proved.

use vstd::prelude::*;
use crate::code_action::{CodeAction, CodeActionModel};
use crate::basic::{Command, CommandModel};
use crate::json::{member, DecodeError, JVal, JsonCodec};
use crate::pascal::pascal_chars;
use crate::kinds::{DiagnosticSeverity, SymbolKind, WatchKind, watch_bits_ok};
use crate::protocol::InitializeParams;
use crate::tags::{CodeActionKind, PositionEncodingKind};
use crate::workspace_edit::{WorkspaceEdit, WorkspaceEditModel};

verus! {

/// Decoding the encoding of any value that the type can hold gives that value back.
pub proof fn law_encode_decode<T: JsonCodec>(m: T::Model)
    requires
        T::valid(m),
    ensures
        T::decode(T::encode(m)) == Ok::<T::Model, DecodeError>(m),
{
    T::lemma_round_trip(m);
}

/// Decoding, encoding and decoding again gives what the first decoding gave,
/// for every document whose decoding is a value the type can hold.
pub proof fn law_decode_encode<T: JsonCodec>(j: JVal)
    requires
        T::decode(j) is Ok,
        T::valid(T::decode(j)->Ok_0),
    ensures
        T::decode(T::encode(T::decode(j)->Ok_0)) == T::decode(j),
{
    T::lemma_round_trip(T::decode(j)->Ok_0);
}

/// Adding a member with a name that the initialize parameters do not use
/// changes nothing about how an object decodes.
pub proof fn law_unknown_key_initialize_params(ms: Seq<(Seq<char>, JVal)>, k: Seq<char>, v: JVal)
    requires
        !InitializeParams::uses_key(k),
    ensures
        InitializeParams::decode(JVal::Obj(ms.push((k, v)))) == InitializeParams::decode(JVal::Obj(ms)),
{
    InitializeParams::lemma_unknown_key(ms, k, v);
    assert(ms.push((k, v)) =~= ms + member(k, v));
}

/// Adding a member with a name that a code action does not use changes nothing
/// about how an object decodes.
pub proof fn law_unknown_key_code_action(ms: Seq<(Seq<char>, JVal)>, k: Seq<char>, v: JVal)
    requires
        !CodeAction::uses_key(k),
    ensures
        CodeAction::decode(JVal::Obj(ms.push((k, v)))) == CodeAction::decode(JVal::Obj(ms)),
{
    CodeAction::lemma_unknown_key(ms, k, v);
    assert(ms.push((k, v)) =~= ms + member(k, v));
}

/// A code action whose optional members are all absent is written with its title only.
pub proof fn law_code_action_absent(title: Seq<char>)
    ensures
        CodeAction::encode(
            CodeActionModel {
                title,
                kind: None,
                diagnostics: None,
                edit: None,
                command: None,
                is_preferred: None,
                disabled: None,
                data: None,
            },
        ) == JVal::Obj(seq![("title"@, JVal::Str(title))]),
{
    let m = CodeActionModel {
        title,
        kind: None,
        diagnostics: None,
        edit: None,
        command: None,
        is_preferred: None,
        disabled: None,
        data: None,
    };
    assert(CodeAction::fields_json(m) =~= seq![("title"@, JVal::Str(title))]);
}

/// A code action whose payload is an explicit `null` keeps it: it is written
/// as `"data": null` and read back as a `null` payload, not as an absent one.
pub proof fn law_code_action_null_payload(title: Seq<char>)
    ensures
        ({
            let m = CodeActionModel {
                title,
                kind: None,
                diagnostics: None,
                edit: None,
                command: None,
                is_preferred: None,
                disabled: None,
                data: Some(JVal::Null),
            };
            CodeAction::decode(CodeAction::encode(m)) == Ok::<CodeActionModel, DecodeError>(m)
        }),
{
    let m = CodeActionModel {
        title,
        kind: None,
        diagnostics: None,
        edit: None,
        command: None,
        is_preferred: None,
        disabled: None,
        data: Some(JVal::Null),
    };
    CodeAction::lemma_round_trip(m);
}

/// A command without arguments is written with its title and command only.
pub proof fn law_command_absent(title: Seq<char>, command: Seq<char>)
    ensures
        Command::encode(CommandModel { title, command, arguments: None }) == JVal::Obj(
            seq![("title"@, JVal::Str(title)), ("command"@, JVal::Str(command))],
        ),
{
    let m = CommandModel { title, command, arguments: None };
    assert(Command::fields_json(m) =~= seq![("title"@, JVal::Str(title)), ("command"@, JVal::Str(command))]);
}

/// A workspace edit whose members are all absent is written as an empty object.
pub proof fn law_workspace_edit_absent()
    ensures
        WorkspaceEdit::encode(WorkspaceEditModel { changes: None, document_changes: None, change_annotations: None })
            == JVal::Obj(Seq::empty()),
{
    let m = WorkspaceEditModel { changes: None, document_changes: None, change_annotations: None };
    assert(WorkspaceEdit::fields_json(m) =~= Seq::empty());
}

/// An integer of a byte decodes as a watch kind exactly when it has no bits
/// outside `7`, and then it is written back as the same integer.
pub proof fn law_watch_kind_mask(n: int)
    requires
        0 <= n <= 255,
    ensures
        WatchKind::decode(JVal::Num(n)) is Ok <==> (n as u8) & !7u8 == 0,
        WatchKind::decode(JVal::Num(n)) matches Ok(b) ==> WatchKind::encode(b) == JVal::Num(n),
{
}

/// Every string decodes as a code action kind and is written back unchanged.
pub proof fn law_code_action_kind_kept(s: Seq<char>)
    ensures
        CodeActionKind::decode(JVal::Str(s)) matches Ok(k) && CodeActionKind::encode(k) == JVal::Str(s),
{
}

/// Every string decodes as a position encoding kind and is written back unchanged.
pub proof fn law_position_encoding_kind_kept(s: Seq<char>)
    ensures
        PositionEncodingKind::decode(JVal::Str(s)) matches Ok(k) && PositionEncodingKind::encode(k) == JVal::Str(
            s,
        ),
{
}

/// Every integer in range decodes as a symbol kind, known or not, and is written back unchanged.
pub proof fn law_symbol_kind_kept(n: int)
    requires
        i32::MIN <= n <= i32::MAX,
    ensures
        SymbolKind::decode(JVal::Num(n)) matches Ok(k) && SymbolKind::encode(k) == JVal::Num(n),
{
}

/// The error severity is named `ERROR`, which renders as `Error`.
pub proof fn law_error_severity_renders_error()
    ensures
        DiagnosticSeverity::name_of(1) == Some("ERROR"),
        pascal_chars("ERROR"@, 0, true) == "Error"@,
{
    reveal_strlit("ERROR");
    reveal_strlit("Error");
    reveal_with_fuel(pascal_chars, 6);
    assert(pascal_chars("ERROR"@, 0, true) =~= "Error"@);
}

/// Every integer in range decodes as a diagnostic severity, known or not, and is written back unchanged.
pub proof fn law_diagnostic_severity_kept(n: int)
    requires
        i32::MIN <= n <= i32::MAX,
    ensures
        DiagnosticSeverity::decode(JVal::Num(n)) matches Ok(k) && DiagnosticSeverity::encode(k) == JVal::Num(n),
{
}

} // verus!
