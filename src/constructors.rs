//! Constructors of the records that are most often built by hand.

use vstd::prelude::*;
use crate::basic::{
    Command, Diagnostic, DiagnosticRelatedInformation, LanguageString, Location, MarkedString,
    NumberOrString, OptionalVersionedTextDocumentIdentifier, Position, Range, TextDocumentIdentifier,
    TextDocumentItem, TextDocumentPositionParams, TextEdit, VersionedTextDocumentIdentifier,
};
use crate::json::{Json, ObjectMap};
use crate::kinds::{DiagnosticSeverity, DiagnosticTag, FileChangeType};
use crate::protocol::{FileEvent, PublishDiagnosticsParams};
use crate::uri::Uri;
use crate::workspace_edit::WorkspaceEdit;

verus! {

impl Position {
    pub fn new(line: u32, character: u32) -> (r: Position)
        ensures
            r.line == line,
            r.character == character,
    {
        Position { line, character }
    }
}

impl Range {
    pub fn new(start: Position, end: Position) -> (r: Range)
        ensures
            r.start == start,
            r.end == end,
    {
        Range { start, end }
    }
}

impl Location {
    pub fn new(uri: Uri, range: Range) -> (r: Location)
        ensures
            r.uri == uri,
            r.range == range,
    {
        Location { uri, range }
    }
}

impl TextEdit {
    pub fn new(range: Range, new_text: String) -> (r: TextEdit)
        ensures
            r.range == range,
            r.new_text == new_text,
    {
        TextEdit { range, new_text }
    }
}

impl Command {
    pub fn new(title: String, command: String, arguments: Option<Vec<Json>>) -> (r: Command)
        ensures
            r.title == title,
            r.command == command,
            r.arguments == arguments,
    {
        Command { title, command, arguments }
    }
}

impl Diagnostic {
    /// A diagnostic with the given parts; its code description and data are absent.
    pub fn new(
        range: Range,
        severity: Option<DiagnosticSeverity>,
        code: Option<NumberOrString>,
        source: Option<String>,
        message: String,
        related_information: Option<Vec<DiagnosticRelatedInformation>>,
        tags: Option<Vec<DiagnosticTag>>,
    ) -> (r: Diagnostic)
        ensures
            r.range == range,
            r.severity == severity,
            r.code == code,
            r.code_description is None,
            r.source == source,
            r.message == message,
            r.related_information == related_information,
            r.tags == tags,
            r.data is None,
    {
        Diagnostic {
            range,
            severity,
            code,
            code_description: None,
            source,
            message,
            related_information,
            tags,
            data: None,
        }
    }

    /// A diagnostic with a range and a message only.
    pub fn new_simple(range: Range, message: String) -> (r: Diagnostic)
        ensures
            r.range == range,
            r.message == message,
            r.severity is None,
            r.code is None,
            r.code_description is None,
            r.source is None,
            r.related_information is None,
            r.tags is None,
            r.data is None,
    {
        Diagnostic::new(range, None, None, None, message, None, None)
    }

    /// A diagnostic with a severity and a numeric code.
    pub fn new_with_code_number(
        range: Range,
        severity: DiagnosticSeverity,
        code_number: i32,
        source: Option<String>,
        message: String,
    ) -> (r: Diagnostic)
        ensures
            r.range == range,
            r.severity == Some(severity),
            r.code == Some(NumberOrString::Number(code_number)),
            r.code_description is None,
            r.source == source,
            r.message == message,
            r.related_information is None,
            r.tags is None,
            r.data is None,
    {
        let code = Some(NumberOrString::Number(code_number));
        Diagnostic::new(range, Some(severity), code, source, message, None, None)
    }
}

impl WorkspaceEdit {
    /// A workspace edit with the given changes and nothing else.
    pub fn new(changes: ObjectMap<Uri, Vec<TextEdit>>) -> (r: WorkspaceEdit)
        ensures
            r.changes == Some(changes),
            r.document_changes is None,
            r.change_annotations is None,
    {
        WorkspaceEdit { changes: Some(changes), document_changes: None, change_annotations: None }
    }
}

impl TextDocumentIdentifier {
    pub fn new(uri: Uri) -> (r: TextDocumentIdentifier)
        ensures
            r.uri == uri,
    {
        TextDocumentIdentifier { uri }
    }
}

impl TextDocumentItem {
    pub fn new(uri: Uri, language_id: String, version: i32, text: String) -> (r: TextDocumentItem)
        ensures
            r.uri == uri,
            r.language_id == language_id,
            r.version == version,
            r.text == text,
    {
        TextDocumentItem { uri, language_id, version, text }
    }
}

impl VersionedTextDocumentIdentifier {
    pub fn new(uri: Uri, version: i32) -> (r: VersionedTextDocumentIdentifier)
        ensures
            r.uri == uri,
            r.version == version,
    {
        VersionedTextDocumentIdentifier { uri, version }
    }
}

impl OptionalVersionedTextDocumentIdentifier {
    /// An identifier with a known version.
    pub fn new(uri: Uri, version: i32) -> (r: OptionalVersionedTextDocumentIdentifier)
        ensures
            r.uri == uri,
            r.version == Some(version),
    {
        OptionalVersionedTextDocumentIdentifier { uri, version: Some(version) }
    }
}

impl TextDocumentPositionParams {
    pub fn new(text_document: TextDocumentIdentifier, position: Position) -> (r: TextDocumentPositionParams)
        ensures
            r.text_document == text_document,
            r.position == position,
    {
        TextDocumentPositionParams { text_document, position }
    }
}

impl FileEvent {
    pub fn new(uri: Uri, typ: FileChangeType) -> (r: FileEvent)
        ensures
            r.uri == uri,
            r.typ == typ,
    {
        FileEvent { uri, typ }
    }
}

impl PublishDiagnosticsParams {
    pub fn new(uri: Uri, diagnostics: Vec<Diagnostic>, version: Option<i32>) -> (r: PublishDiagnosticsParams)
        ensures
            r.uri == uri,
            r.diagnostics == diagnostics,
            r.version == version,
    {
        PublishDiagnosticsParams { uri, diagnostics, version }
    }
}

impl MarkedString {
    /// Markdown text.
    pub fn from_markdown(markdown: String) -> (r: MarkedString)
        ensures
            r == MarkedString::String(markdown),
    {
        MarkedString::String(markdown)
    }

    /// A code block of the given language.
    pub fn from_language_code(language: String, code_block: String) -> (r: MarkedString)
        ensures
            r == MarkedString::LanguageString(LanguageString { language, value: code_block }),
    {
        MarkedString::LanguageString(LanguageString { language, value: code_block })
    }
}

} // verus!
