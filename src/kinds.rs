//! Integer-valued enumerations: named constants, unknown values kept.

use vstd::prelude::*;
use vstd::string::StringSliceAdditionalSpecFns;
use crate::json::{DecodeError, JVal, Json, JsonCodec};
use crate::pascal::{bytes_equal, decimal, fmt_pascal_case, fmt_pascal_case_const, pascal_case, pascal_chars, pascal_words, tuple_text};

verus! {

/// The severity of a diagnostic.
#[derive(Clone, Copy, Debug, PartialEq, Eq, PartialOrd, Ord, Hash, Structural)]
pub struct DiagnosticSeverity(pub i32);

impl DiagnosticSeverity {
    /// Reports an error.
    #[allow(non_snake_case)]
    pub fn ERROR() -> (r: DiagnosticSeverity)
        ensures
            r.0 == 1,
    {
        DiagnosticSeverity(1)
    }

    /// Reports a warning.
    #[allow(non_snake_case)]
    pub fn WARNING() -> (r: DiagnosticSeverity)
        ensures
            r.0 == 2,
    {
        DiagnosticSeverity(2)
    }

    /// Reports information.
    #[allow(non_snake_case)]
    pub fn INFORMATION() -> (r: DiagnosticSeverity)
        ensures
            r.0 == 3,
    {
        DiagnosticSeverity(3)
    }

    /// Reports a hint.
    #[allow(non_snake_case)]
    pub fn HINT() -> (r: DiagnosticSeverity)
        ensures
            r.0 == 4,
    {
        DiagnosticSeverity(4)
    }

    /// The name of the well-known constant with value `n`, if there is one.
    pub open spec fn name_of(n: i32) -> Option<&'static str> {
        if n == 1 {
            Some("ERROR")
        } else if n == 2 {
            Some("WARNING")
        } else if n == 3 {
            Some("INFORMATION")
        } else if n == 4 {
            Some("HINT")
        } else {
            None
        }
    }

    /// The name of the well-known constant with this value, if there is one.
    pub fn name(&self) -> (r: Option<&'static str>)
        ensures
            r == Self::name_of(self.0),
    {
        match self.0 {
            1 => Some("ERROR"),
            2 => Some("WARNING"),
            3 => Some("INFORMATION"),
            4 => Some("HINT"),
            _ => None,
        }
    }

    /// The rendering used in diagnostics: the constant's name in PascalCase,
    /// or `DiagnosticSeverity(n)` for a value without a name.
    pub fn debug_text(&self) -> (r: String)
        ensures
            match Self::name_of(self.0) {
                Some(s) => r@ == pascal_words(s@, 0, true) && r@ == pascal_chars(s@, 0, true),
                None => r@ == "DiagnosticSeverity"@ + seq!['('] + decimal(self.0 as int) + seq![')'],
            },
    {
        match self.0 {
            1 => {
                proof {
                    reveal_strlit("ERROR");
                }
                fmt_pascal_case("ERROR")
            },
            2 => {
                proof {
                    reveal_strlit("WARNING");
                }
                fmt_pascal_case("WARNING")
            },
            3 => {
                proof {
                    reveal_strlit("INFORMATION");
                }
                fmt_pascal_case("INFORMATION")
            },
            4 => {
                proof {
                    reveal_strlit("HINT");
                }
                fmt_pascal_case("HINT")
            },
            _ => tuple_text("DiagnosticSeverity", self.0),
        }
    }

    /// The value of the well-known constant whose name, in PascalCase, is `b`.
    pub open spec fn value_of_pascal(b: Seq<u8>) -> Option<i32> {
        if b == pascal_case("ERROR".spec_bytes()) {
            Some(1i32)
        } else if b == pascal_case("WARNING".spec_bytes()) {
            Some(2i32)
        } else if b == pascal_case("INFORMATION".spec_bytes()) {
            Some(3i32)
        } else if b == pascal_case("HINT".spec_bytes()) {
            Some(4i32)
        } else {
            None
        }
    }

    /// Reads the PascalCase rendering of a well-known constant's name (`Error`).
    pub fn from_pascal_name(value: &str) -> (r: Option<DiagnosticSeverity>)
        ensures
            match Self::value_of_pascal(value.spec_bytes()) {
                Some(n) => r == Some(DiagnosticSeverity(n)),
                None => r is None,
            },
    {
        let b = value.as_bytes();
        if bytes_equal(b, fmt_pascal_case_const("ERROR").as_slice()) {
            return Some(DiagnosticSeverity(1));
        }
        if bytes_equal(b, fmt_pascal_case_const("WARNING").as_slice()) {
            return Some(DiagnosticSeverity(2));
        }
        if bytes_equal(b, fmt_pascal_case_const("INFORMATION").as_slice()) {
            return Some(DiagnosticSeverity(3));
        }
        if bytes_equal(b, fmt_pascal_case_const("HINT").as_slice()) {
            return Some(DiagnosticSeverity(4));
        }
        None
    }
}

/// Written as the bare integer; every integer in range decodes, known or not.
impl JsonCodec for DiagnosticSeverity {
    type Model = DiagnosticSeverity;

    open spec fn model(&self) -> DiagnosticSeverity {
        *self
    }

    open spec fn encode(m: DiagnosticSeverity) -> JVal {
        JVal::Num(m.0 as int)
    }

    open spec fn decode(j: JVal) -> Result<DiagnosticSeverity, DecodeError> {
        match i32::decode(j) {
            Ok(n) => Ok(DiagnosticSeverity(n)),
            Err(e) => Err(e),
        }
    }

    open spec fn valid(m: DiagnosticSeverity) -> bool {
        true
    }

    fn to_json(&self) -> (r: Json) {
        self.0.to_json()
    }

    fn from_json(j: &Json) -> (r: Result<DiagnosticSeverity, DecodeError>) {
        match i32::from_json(j) {
            Ok(n) => Ok(DiagnosticSeverity(n)),
            Err(e) => Err(e),
        }
    }

    proof fn lemma_round_trip(m: DiagnosticSeverity) {
    }
}

/// An extra annotation of a diagnostic.
#[derive(Clone, Copy, Debug, PartialEq, Eq, Hash, Structural)]
pub struct DiagnosticTag(pub i32);

impl DiagnosticTag {
    /// Unused or unnecessary code.
    #[allow(non_snake_case)]
    pub fn UNNECESSARY() -> (r: DiagnosticTag)
        ensures
            r.0 == 1,
    {
        DiagnosticTag(1)
    }

    /// Deprecated or obsolete code.
    #[allow(non_snake_case)]
    pub fn DEPRECATED() -> (r: DiagnosticTag)
        ensures
            r.0 == 2,
    {
        DiagnosticTag(2)
    }

    /// The name of the well-known constant with value `n`, if there is one.
    pub open spec fn name_of(n: i32) -> Option<&'static str> {
        if n == 1 {
            Some("UNNECESSARY")
        } else if n == 2 {
            Some("DEPRECATED")
        } else {
            None
        }
    }

    /// The name of the well-known constant with this value, if there is one.
    pub fn name(&self) -> (r: Option<&'static str>)
        ensures
            r == Self::name_of(self.0),
    {
        match self.0 {
            1 => Some("UNNECESSARY"),
            2 => Some("DEPRECATED"),
            _ => None,
        }
    }

    /// The rendering used in diagnostics: the constant's name in PascalCase,
    /// or `DiagnosticTag(n)` for a value without a name.
    pub fn debug_text(&self) -> (r: String)
        ensures
            match Self::name_of(self.0) {
                Some(s) => r@ == pascal_words(s@, 0, true) && r@ == pascal_chars(s@, 0, true),
                None => r@ == "DiagnosticTag"@ + seq!['('] + decimal(self.0 as int) + seq![')'],
            },
    {
        match self.0 {
            1 => {
                proof {
                    reveal_strlit("UNNECESSARY");
                }
                fmt_pascal_case("UNNECESSARY")
            },
            2 => {
                proof {
                    reveal_strlit("DEPRECATED");
                }
                fmt_pascal_case("DEPRECATED")
            },
            _ => tuple_text("DiagnosticTag", self.0),
        }
    }

    /// The value of the well-known constant whose name, in PascalCase, is `b`.
    pub open spec fn value_of_pascal(b: Seq<u8>) -> Option<i32> {
        if b == pascal_case("UNNECESSARY".spec_bytes()) {
            Some(1i32)
        } else if b == pascal_case("DEPRECATED".spec_bytes()) {
            Some(2i32)
        } else {
            None
        }
    }

    /// Reads the PascalCase rendering of a well-known constant's name (`Unnecessary`).
    pub fn from_pascal_name(value: &str) -> (r: Option<DiagnosticTag>)
        ensures
            match Self::value_of_pascal(value.spec_bytes()) {
                Some(n) => r == Some(DiagnosticTag(n)),
                None => r is None,
            },
    {
        let b = value.as_bytes();
        if bytes_equal(b, fmt_pascal_case_const("UNNECESSARY").as_slice()) {
            return Some(DiagnosticTag(1));
        }
        if bytes_equal(b, fmt_pascal_case_const("DEPRECATED").as_slice()) {
            return Some(DiagnosticTag(2));
        }
        None
    }
}

/// Written as the bare integer; every integer in range decodes, known or not.
impl JsonCodec for DiagnosticTag {
    type Model = DiagnosticTag;

    open spec fn model(&self) -> DiagnosticTag {
        *self
    }

    open spec fn encode(m: DiagnosticTag) -> JVal {
        JVal::Num(m.0 as int)
    }

    open spec fn decode(j: JVal) -> Result<DiagnosticTag, DecodeError> {
        match i32::decode(j) {
            Ok(n) => Ok(DiagnosticTag(n)),
            Err(e) => Err(e),
        }
    }

    open spec fn valid(m: DiagnosticTag) -> bool {
        true
    }

    fn to_json(&self) -> (r: Json) {
        self.0.to_json()
    }

    fn from_json(j: &Json) -> (r: Result<DiagnosticTag, DecodeError>) {
        match i32::from_json(j) {
            Ok(n) => Ok(DiagnosticTag(n)),
            Err(e) => Err(e),
        }
    }

    proof fn lemma_round_trip(m: DiagnosticTag) {
    }
}

/// The reason why code actions were requested.
#[derive(Clone, Copy, Debug, PartialEq, Eq, Hash, Structural)]
pub struct CodeActionTriggerKind(pub i32);

impl CodeActionTriggerKind {
    /// Explicitly requested by the user or by an extension.
    #[allow(non_snake_case)]
    pub fn INVOKED() -> (r: CodeActionTriggerKind)
        ensures
            r.0 == 1,
    {
        CodeActionTriggerKind(1)
    }

    /// Requested automatically.
    #[allow(non_snake_case)]
    pub fn AUTOMATIC() -> (r: CodeActionTriggerKind)
        ensures
            r.0 == 2,
    {
        CodeActionTriggerKind(2)
    }

    /// The name of the well-known constant with value `n`, if there is one.
    pub open spec fn name_of(n: i32) -> Option<&'static str> {
        if n == 1 {
            Some("INVOKED")
        } else if n == 2 {
            Some("AUTOMATIC")
        } else {
            None
        }
    }

    /// The name of the well-known constant with this value, if there is one.
    pub fn name(&self) -> (r: Option<&'static str>)
        ensures
            r == Self::name_of(self.0),
    {
        match self.0 {
            1 => Some("INVOKED"),
            2 => Some("AUTOMATIC"),
            _ => None,
        }
    }

    /// The rendering used in diagnostics: the constant's name in PascalCase,
    /// or `CodeActionTriggerKind(n)` for a value without a name.
    pub fn debug_text(&self) -> (r: String)
        ensures
            match Self::name_of(self.0) {
                Some(s) => r@ == pascal_words(s@, 0, true) && r@ == pascal_chars(s@, 0, true),
                None => r@ == "CodeActionTriggerKind"@ + seq!['('] + decimal(self.0 as int) + seq![')'],
            },
    {
        match self.0 {
            1 => {
                proof {
                    reveal_strlit("INVOKED");
                }
                fmt_pascal_case("INVOKED")
            },
            2 => {
                proof {
                    reveal_strlit("AUTOMATIC");
                }
                fmt_pascal_case("AUTOMATIC")
            },
            _ => tuple_text("CodeActionTriggerKind", self.0),
        }
    }

    /// The value of the well-known constant whose name, in PascalCase, is `b`.
    pub open spec fn value_of_pascal(b: Seq<u8>) -> Option<i32> {
        if b == pascal_case("INVOKED".spec_bytes()) {
            Some(1i32)
        } else if b == pascal_case("AUTOMATIC".spec_bytes()) {
            Some(2i32)
        } else {
            None
        }
    }

    /// Reads the PascalCase rendering of a well-known constant's name (`Invoked`).
    pub fn from_pascal_name(value: &str) -> (r: Option<CodeActionTriggerKind>)
        ensures
            match Self::value_of_pascal(value.spec_bytes()) {
                Some(n) => r == Some(CodeActionTriggerKind(n)),
                None => r is None,
            },
    {
        let b = value.as_bytes();
        if bytes_equal(b, fmt_pascal_case_const("INVOKED").as_slice()) {
            return Some(CodeActionTriggerKind(1));
        }
        if bytes_equal(b, fmt_pascal_case_const("AUTOMATIC").as_slice()) {
            return Some(CodeActionTriggerKind(2));
        }
        None
    }
}

/// Written as the bare integer; every integer in range decodes, known or not.
impl JsonCodec for CodeActionTriggerKind {
    type Model = CodeActionTriggerKind;

    open spec fn model(&self) -> CodeActionTriggerKind {
        *self
    }

    open spec fn encode(m: CodeActionTriggerKind) -> JVal {
        JVal::Num(m.0 as int)
    }

    open spec fn decode(j: JVal) -> Result<CodeActionTriggerKind, DecodeError> {
        match i32::decode(j) {
            Ok(n) => Ok(CodeActionTriggerKind(n)),
            Err(e) => Err(e),
        }
    }

    open spec fn valid(m: CodeActionTriggerKind) -> bool {
        true
    }

    fn to_json(&self) -> (r: Json) {
        self.0.to_json()
    }

    fn from_json(j: &Json) -> (r: Result<CodeActionTriggerKind, DecodeError>) {
        match i32::from_json(j) {
            Ok(n) => Ok(CodeActionTriggerKind(n)),
            Err(e) => Err(e),
        }
    }

    proof fn lemma_round_trip(m: CodeActionTriggerKind) {
    }
}

/// A document highlight kind.
#[derive(Clone, Copy, Debug, PartialEq, Eq, Hash, Structural)]
pub struct DocumentHighlightKind(pub i32);

impl DocumentHighlightKind {
    /// A textual occurrence.
    #[allow(non_snake_case)]
    pub fn TEXT() -> (r: DocumentHighlightKind)
        ensures
            r.0 == 1,
    {
        DocumentHighlightKind(1)
    }

    /// Read-access of a symbol.
    #[allow(non_snake_case)]
    pub fn READ() -> (r: DocumentHighlightKind)
        ensures
            r.0 == 2,
    {
        DocumentHighlightKind(2)
    }

    /// Write-access of a symbol.
    #[allow(non_snake_case)]
    pub fn WRITE() -> (r: DocumentHighlightKind)
        ensures
            r.0 == 3,
    {
        DocumentHighlightKind(3)
    }

    /// The name of the well-known constant with value `n`, if there is one.
    pub open spec fn name_of(n: i32) -> Option<&'static str> {
        if n == 1 {
            Some("TEXT")
        } else if n == 2 {
            Some("READ")
        } else if n == 3 {
            Some("WRITE")
        } else {
            None
        }
    }

    /// The name of the well-known constant with this value, if there is one.
    pub fn name(&self) -> (r: Option<&'static str>)
        ensures
            r == Self::name_of(self.0),
    {
        match self.0 {
            1 => Some("TEXT"),
            2 => Some("READ"),
            3 => Some("WRITE"),
            _ => None,
        }
    }

    /// The rendering used in diagnostics: the constant's name in PascalCase,
    /// or `DocumentHighlightKind(n)` for a value without a name.
    pub fn debug_text(&self) -> (r: String)
        ensures
            match Self::name_of(self.0) {
                Some(s) => r@ == pascal_words(s@, 0, true) && r@ == pascal_chars(s@, 0, true),
                None => r@ == "DocumentHighlightKind"@ + seq!['('] + decimal(self.0 as int) + seq![')'],
            },
    {
        match self.0 {
            1 => {
                proof {
                    reveal_strlit("TEXT");
                }
                fmt_pascal_case("TEXT")
            },
            2 => {
                proof {
                    reveal_strlit("READ");
                }
                fmt_pascal_case("READ")
            },
            3 => {
                proof {
                    reveal_strlit("WRITE");
                }
                fmt_pascal_case("WRITE")
            },
            _ => tuple_text("DocumentHighlightKind", self.0),
        }
    }

    /// The value of the well-known constant whose name, in PascalCase, is `b`.
    pub open spec fn value_of_pascal(b: Seq<u8>) -> Option<i32> {
        if b == pascal_case("TEXT".spec_bytes()) {
            Some(1i32)
        } else if b == pascal_case("READ".spec_bytes()) {
            Some(2i32)
        } else if b == pascal_case("WRITE".spec_bytes()) {
            Some(3i32)
        } else {
            None
        }
    }

    /// Reads the PascalCase rendering of a well-known constant's name (`Text`).
    pub fn from_pascal_name(value: &str) -> (r: Option<DocumentHighlightKind>)
        ensures
            match Self::value_of_pascal(value.spec_bytes()) {
                Some(n) => r == Some(DocumentHighlightKind(n)),
                None => r is None,
            },
    {
        let b = value.as_bytes();
        if bytes_equal(b, fmt_pascal_case_const("TEXT").as_slice()) {
            return Some(DocumentHighlightKind(1));
        }
        if bytes_equal(b, fmt_pascal_case_const("READ").as_slice()) {
            return Some(DocumentHighlightKind(2));
        }
        if bytes_equal(b, fmt_pascal_case_const("WRITE").as_slice()) {
            return Some(DocumentHighlightKind(3));
        }
        None
    }
}

/// Written as the bare integer; every integer in range decodes, known or not.
impl JsonCodec for DocumentHighlightKind {
    type Model = DocumentHighlightKind;

    open spec fn model(&self) -> DocumentHighlightKind {
        *self
    }

    open spec fn encode(m: DocumentHighlightKind) -> JVal {
        JVal::Num(m.0 as int)
    }

    open spec fn decode(j: JVal) -> Result<DocumentHighlightKind, DecodeError> {
        match i32::decode(j) {
            Ok(n) => Ok(DocumentHighlightKind(n)),
            Err(e) => Err(e),
        }
    }

    open spec fn valid(m: DocumentHighlightKind) -> bool {
        true
    }

    fn to_json(&self) -> (r: Json) {
        self.0.to_json()
    }

    fn from_json(j: &Json) -> (r: Result<DocumentHighlightKind, DecodeError>) {
        match i32::from_json(j) {
            Ok(n) => Ok(DocumentHighlightKind(n)),
            Err(e) => Err(e),
        }
    }

    proof fn lemma_round_trip(m: DocumentHighlightKind) {
    }
}

/// How text documents are synced.
#[derive(Clone, Copy, Debug, PartialEq, Eq, Hash, Structural)]
pub struct TextDocumentSyncKind(pub i32);

impl TextDocumentSyncKind {
    /// Documents are not synced at all.
    #[allow(non_snake_case)]
    pub fn NONE() -> (r: TextDocumentSyncKind)
        ensures
            r.0 == 0,
    {
        TextDocumentSyncKind(0)
    }

    /// Documents are synced by sending their full content.
    #[allow(non_snake_case)]
    pub fn FULL() -> (r: TextDocumentSyncKind)
        ensures
            r.0 == 1,
    {
        TextDocumentSyncKind(1)
    }

    /// Documents are synced by sending incremental updates.
    #[allow(non_snake_case)]
    pub fn INCREMENTAL() -> (r: TextDocumentSyncKind)
        ensures
            r.0 == 2,
    {
        TextDocumentSyncKind(2)
    }

    /// The name of the well-known constant with value `n`, if there is one.
    pub open spec fn name_of(n: i32) -> Option<&'static str> {
        if n == 0 {
            Some("NONE")
        } else if n == 1 {
            Some("FULL")
        } else if n == 2 {
            Some("INCREMENTAL")
        } else {
            None
        }
    }

    /// The name of the well-known constant with this value, if there is one.
    pub fn name(&self) -> (r: Option<&'static str>)
        ensures
            r == Self::name_of(self.0),
    {
        match self.0 {
            0 => Some("NONE"),
            1 => Some("FULL"),
            2 => Some("INCREMENTAL"),
            _ => None,
        }
    }

    /// The rendering used in diagnostics: the constant's name in PascalCase,
    /// or `TextDocumentSyncKind(n)` for a value without a name.
    pub fn debug_text(&self) -> (r: String)
        ensures
            match Self::name_of(self.0) {
                Some(s) => r@ == pascal_words(s@, 0, true) && r@ == pascal_chars(s@, 0, true),
                None => r@ == "TextDocumentSyncKind"@ + seq!['('] + decimal(self.0 as int) + seq![')'],
            },
    {
        match self.0 {
            0 => {
                proof {
                    reveal_strlit("NONE");
                }
                fmt_pascal_case("NONE")
            },
            1 => {
                proof {
                    reveal_strlit("FULL");
                }
                fmt_pascal_case("FULL")
            },
            2 => {
                proof {
                    reveal_strlit("INCREMENTAL");
                }
                fmt_pascal_case("INCREMENTAL")
            },
            _ => tuple_text("TextDocumentSyncKind", self.0),
        }
    }

    /// The value of the well-known constant whose name, in PascalCase, is `b`.
    pub open spec fn value_of_pascal(b: Seq<u8>) -> Option<i32> {
        if b == pascal_case("NONE".spec_bytes()) {
            Some(0i32)
        } else if b == pascal_case("FULL".spec_bytes()) {
            Some(1i32)
        } else if b == pascal_case("INCREMENTAL".spec_bytes()) {
            Some(2i32)
        } else {
            None
        }
    }

    /// Reads the PascalCase rendering of a well-known constant's name (`None`).
    pub fn from_pascal_name(value: &str) -> (r: Option<TextDocumentSyncKind>)
        ensures
            match Self::value_of_pascal(value.spec_bytes()) {
                Some(n) => r == Some(TextDocumentSyncKind(n)),
                None => r is None,
            },
    {
        let b = value.as_bytes();
        if bytes_equal(b, fmt_pascal_case_const("NONE").as_slice()) {
            return Some(TextDocumentSyncKind(0));
        }
        if bytes_equal(b, fmt_pascal_case_const("FULL").as_slice()) {
            return Some(TextDocumentSyncKind(1));
        }
        if bytes_equal(b, fmt_pascal_case_const("INCREMENTAL").as_slice()) {
            return Some(TextDocumentSyncKind(2));
        }
        None
    }
}

/// Written as the bare integer; every integer in range decodes, known or not.
impl JsonCodec for TextDocumentSyncKind {
    type Model = TextDocumentSyncKind;

    open spec fn model(&self) -> TextDocumentSyncKind {
        *self
    }

    open spec fn encode(m: TextDocumentSyncKind) -> JVal {
        JVal::Num(m.0 as int)
    }

    open spec fn decode(j: JVal) -> Result<TextDocumentSyncKind, DecodeError> {
        match i32::decode(j) {
            Ok(n) => Ok(TextDocumentSyncKind(n)),
            Err(e) => Err(e),
        }
    }

    open spec fn valid(m: TextDocumentSyncKind) -> bool {
        true
    }

    fn to_json(&self) -> (r: Json) {
        self.0.to_json()
    }

    fn from_json(j: &Json) -> (r: Result<TextDocumentSyncKind, DecodeError>) {
        match i32::from_json(j) {
            Ok(n) => Ok(TextDocumentSyncKind(n)),
            Err(e) => Err(e),
        }
    }

    proof fn lemma_round_trip(m: TextDocumentSyncKind) {
    }
}

/// Why a text document is saved.
#[derive(Clone, Copy, Debug, PartialEq, Eq, Hash, Structural)]
pub struct TextDocumentSaveReason(pub i32);

impl TextDocumentSaveReason {
    /// Triggered by the user, or by an API.
    #[allow(non_snake_case)]
    pub fn MANUAL() -> (r: TextDocumentSaveReason)
        ensures
            r.0 == 1,
    {
        TextDocumentSaveReason(1)
    }

    /// Automatic, after a delay.
    #[allow(non_snake_case)]
    pub fn AFTER_DELAY() -> (r: TextDocumentSaveReason)
        ensures
            r.0 == 2,
    {
        TextDocumentSaveReason(2)
    }

    /// When the editor lost focus.
    #[allow(non_snake_case)]
    pub fn FOCUS_OUT() -> (r: TextDocumentSaveReason)
        ensures
            r.0 == 3,
    {
        TextDocumentSaveReason(3)
    }

    /// The name of the well-known constant with value `n`, if there is one.
    pub open spec fn name_of(n: i32) -> Option<&'static str> {
        if n == 1 {
            Some("MANUAL")
        } else if n == 2 {
            Some("AFTER_DELAY")
        } else if n == 3 {
            Some("FOCUS_OUT")
        } else {
            None
        }
    }

    /// The name of the well-known constant with this value, if there is one.
    pub fn name(&self) -> (r: Option<&'static str>)
        ensures
            r == Self::name_of(self.0),
    {
        match self.0 {
            1 => Some("MANUAL"),
            2 => Some("AFTER_DELAY"),
            3 => Some("FOCUS_OUT"),
            _ => None,
        }
    }

    /// The rendering used in diagnostics: the constant's name in PascalCase,
    /// or `TextDocumentSaveReason(n)` for a value without a name.
    pub fn debug_text(&self) -> (r: String)
        ensures
            match Self::name_of(self.0) {
                Some(s) => r@ == pascal_words(s@, 0, true) && r@ == pascal_chars(s@, 0, true),
                None => r@ == "TextDocumentSaveReason"@ + seq!['('] + decimal(self.0 as int) + seq![')'],
            },
    {
        match self.0 {
            1 => {
                proof {
                    reveal_strlit("MANUAL");
                }
                fmt_pascal_case("MANUAL")
            },
            2 => {
                proof {
                    reveal_strlit("AFTER_DELAY");
                }
                fmt_pascal_case("AFTER_DELAY")
            },
            3 => {
                proof {
                    reveal_strlit("FOCUS_OUT");
                }
                fmt_pascal_case("FOCUS_OUT")
            },
            _ => tuple_text("TextDocumentSaveReason", self.0),
        }
    }

    /// The value of the well-known constant whose name, in PascalCase, is `b`.
    pub open spec fn value_of_pascal(b: Seq<u8>) -> Option<i32> {
        if b == pascal_case("MANUAL".spec_bytes()) {
            Some(1i32)
        } else if b == pascal_case("AFTER_DELAY".spec_bytes()) {
            Some(2i32)
        } else if b == pascal_case("FOCUS_OUT".spec_bytes()) {
            Some(3i32)
        } else {
            None
        }
    }

    /// Reads the PascalCase rendering of a well-known constant's name (`Manual`).
    pub fn from_pascal_name(value: &str) -> (r: Option<TextDocumentSaveReason>)
        ensures
            match Self::value_of_pascal(value.spec_bytes()) {
                Some(n) => r == Some(TextDocumentSaveReason(n)),
                None => r is None,
            },
    {
        let b = value.as_bytes();
        if bytes_equal(b, fmt_pascal_case_const("MANUAL").as_slice()) {
            return Some(TextDocumentSaveReason(1));
        }
        if bytes_equal(b, fmt_pascal_case_const("AFTER_DELAY").as_slice()) {
            return Some(TextDocumentSaveReason(2));
        }
        if bytes_equal(b, fmt_pascal_case_const("FOCUS_OUT").as_slice()) {
            return Some(TextDocumentSaveReason(3));
        }
        None
    }
}

/// Written as the bare integer; every integer in range decodes, known or not.
impl JsonCodec for TextDocumentSaveReason {
    type Model = TextDocumentSaveReason;

    open spec fn model(&self) -> TextDocumentSaveReason {
        *self
    }

    open spec fn encode(m: TextDocumentSaveReason) -> JVal {
        JVal::Num(m.0 as int)
    }

    open spec fn decode(j: JVal) -> Result<TextDocumentSaveReason, DecodeError> {
        match i32::decode(j) {
            Ok(n) => Ok(TextDocumentSaveReason(n)),
            Err(e) => Err(e),
        }
    }

    open spec fn valid(m: TextDocumentSaveReason) -> bool {
        true
    }

    fn to_json(&self) -> (r: Json) {
        self.0.to_json()
    }

    fn from_json(j: &Json) -> (r: Result<TextDocumentSaveReason, DecodeError>) {
        match i32::from_json(j) {
            Ok(n) => Ok(TextDocumentSaveReason(n)),
            Err(e) => Err(e),
        }
    }

    proof fn lemma_round_trip(m: TextDocumentSaveReason) {
    }
}

/// The kind of a file event.
#[derive(Clone, Copy, Debug, PartialEq, Eq, Hash, Structural)]
pub struct FileChangeType(pub i32);

impl FileChangeType {
    /// The file got created.
    #[allow(non_snake_case)]
    pub fn CREATED() -> (r: FileChangeType)
        ensures
            r.0 == 1,
    {
        FileChangeType(1)
    }

    /// The file got changed.
    #[allow(non_snake_case)]
    pub fn CHANGED() -> (r: FileChangeType)
        ensures
            r.0 == 2,
    {
        FileChangeType(2)
    }

    /// The file got deleted.
    #[allow(non_snake_case)]
    pub fn DELETED() -> (r: FileChangeType)
        ensures
            r.0 == 3,
    {
        FileChangeType(3)
    }

    /// The name of the well-known constant with value `n`, if there is one.
    pub open spec fn name_of(n: i32) -> Option<&'static str> {
        if n == 1 {
            Some("CREATED")
        } else if n == 2 {
            Some("CHANGED")
        } else if n == 3 {
            Some("DELETED")
        } else {
            None
        }
    }

    /// The name of the well-known constant with this value, if there is one.
    pub fn name(&self) -> (r: Option<&'static str>)
        ensures
            r == Self::name_of(self.0),
    {
        match self.0 {
            1 => Some("CREATED"),
            2 => Some("CHANGED"),
            3 => Some("DELETED"),
            _ => None,
        }
    }

    /// The rendering used in diagnostics: the constant's name in PascalCase,
    /// or `FileChangeType(n)` for a value without a name.
    pub fn debug_text(&self) -> (r: String)
        ensures
            match Self::name_of(self.0) {
                Some(s) => r@ == pascal_words(s@, 0, true) && r@ == pascal_chars(s@, 0, true),
                None => r@ == "FileChangeType"@ + seq!['('] + decimal(self.0 as int) + seq![')'],
            },
    {
        match self.0 {
            1 => {
                proof {
                    reveal_strlit("CREATED");
                }
                fmt_pascal_case("CREATED")
            },
            2 => {
                proof {
                    reveal_strlit("CHANGED");
                }
                fmt_pascal_case("CHANGED")
            },
            3 => {
                proof {
                    reveal_strlit("DELETED");
                }
                fmt_pascal_case("DELETED")
            },
            _ => tuple_text("FileChangeType", self.0),
        }
    }

    /// The value of the well-known constant whose name, in PascalCase, is `b`.
    pub open spec fn value_of_pascal(b: Seq<u8>) -> Option<i32> {
        if b == pascal_case("CREATED".spec_bytes()) {
            Some(1i32)
        } else if b == pascal_case("CHANGED".spec_bytes()) {
            Some(2i32)
        } else if b == pascal_case("DELETED".spec_bytes()) {
            Some(3i32)
        } else {
            None
        }
    }

    /// Reads the PascalCase rendering of a well-known constant's name (`Created`).
    pub fn from_pascal_name(value: &str) -> (r: Option<FileChangeType>)
        ensures
            match Self::value_of_pascal(value.spec_bytes()) {
                Some(n) => r == Some(FileChangeType(n)),
                None => r is None,
            },
    {
        let b = value.as_bytes();
        if bytes_equal(b, fmt_pascal_case_const("CREATED").as_slice()) {
            return Some(FileChangeType(1));
        }
        if bytes_equal(b, fmt_pascal_case_const("CHANGED").as_slice()) {
            return Some(FileChangeType(2));
        }
        if bytes_equal(b, fmt_pascal_case_const("DELETED").as_slice()) {
            return Some(FileChangeType(3));
        }
        None
    }
}

/// Written as the bare integer; every integer in range decodes, known or not.
impl JsonCodec for FileChangeType {
    type Model = FileChangeType;

    open spec fn model(&self) -> FileChangeType {
        *self
    }

    open spec fn encode(m: FileChangeType) -> JVal {
        JVal::Num(m.0 as int)
    }

    open spec fn decode(j: JVal) -> Result<FileChangeType, DecodeError> {
        match i32::decode(j) {
            Ok(n) => Ok(FileChangeType(n)),
            Err(e) => Err(e),
        }
    }

    open spec fn valid(m: FileChangeType) -> bool {
        true
    }

    fn to_json(&self) -> (r: Json) {
        self.0.to_json()
    }

    fn from_json(j: &Json) -> (r: Result<FileChangeType, DecodeError>) {
        match i32::from_json(j) {
            Ok(n) => Ok(FileChangeType(n)),
            Err(e) => Err(e),
        }
    }

    proof fn lemma_round_trip(m: FileChangeType) {
    }
}

/// A symbol kind.
#[derive(Clone, Copy, Debug, PartialEq, Eq, Hash, Structural)]
pub struct SymbolKind(pub i32);

impl SymbolKind {
    #[allow(non_snake_case)]
    pub fn FILE() -> (r: SymbolKind)
        ensures
            r.0 == 1,
    {
        SymbolKind(1)
    }

    #[allow(non_snake_case)]
    pub fn MODULE() -> (r: SymbolKind)
        ensures
            r.0 == 2,
    {
        SymbolKind(2)
    }

    #[allow(non_snake_case)]
    pub fn NAMESPACE() -> (r: SymbolKind)
        ensures
            r.0 == 3,
    {
        SymbolKind(3)
    }

    #[allow(non_snake_case)]
    pub fn PACKAGE() -> (r: SymbolKind)
        ensures
            r.0 == 4,
    {
        SymbolKind(4)
    }

    #[allow(non_snake_case)]
    pub fn CLASS() -> (r: SymbolKind)
        ensures
            r.0 == 5,
    {
        SymbolKind(5)
    }

    #[allow(non_snake_case)]
    pub fn METHOD() -> (r: SymbolKind)
        ensures
            r.0 == 6,
    {
        SymbolKind(6)
    }

    #[allow(non_snake_case)]
    pub fn PROPERTY() -> (r: SymbolKind)
        ensures
            r.0 == 7,
    {
        SymbolKind(7)
    }

    #[allow(non_snake_case)]
    pub fn FIELD() -> (r: SymbolKind)
        ensures
            r.0 == 8,
    {
        SymbolKind(8)
    }

    #[allow(non_snake_case)]
    pub fn CONSTRUCTOR() -> (r: SymbolKind)
        ensures
            r.0 == 9,
    {
        SymbolKind(9)
    }

    #[allow(non_snake_case)]
    pub fn ENUM() -> (r: SymbolKind)
        ensures
            r.0 == 10,
    {
        SymbolKind(10)
    }

    #[allow(non_snake_case)]
    pub fn INTERFACE() -> (r: SymbolKind)
        ensures
            r.0 == 11,
    {
        SymbolKind(11)
    }

    #[allow(non_snake_case)]
    pub fn FUNCTION() -> (r: SymbolKind)
        ensures
            r.0 == 12,
    {
        SymbolKind(12)
    }

    #[allow(non_snake_case)]
    pub fn VARIABLE() -> (r: SymbolKind)
        ensures
            r.0 == 13,
    {
        SymbolKind(13)
    }

    #[allow(non_snake_case)]
    pub fn CONSTANT() -> (r: SymbolKind)
        ensures
            r.0 == 14,
    {
        SymbolKind(14)
    }

    #[allow(non_snake_case)]
    pub fn STRING() -> (r: SymbolKind)
        ensures
            r.0 == 15,
    {
        SymbolKind(15)
    }

    #[allow(non_snake_case)]
    pub fn NUMBER() -> (r: SymbolKind)
        ensures
            r.0 == 16,
    {
        SymbolKind(16)
    }

    #[allow(non_snake_case)]
    pub fn BOOLEAN() -> (r: SymbolKind)
        ensures
            r.0 == 17,
    {
        SymbolKind(17)
    }

    #[allow(non_snake_case)]
    pub fn ARRAY() -> (r: SymbolKind)
        ensures
            r.0 == 18,
    {
        SymbolKind(18)
    }

    #[allow(non_snake_case)]
    pub fn OBJECT() -> (r: SymbolKind)
        ensures
            r.0 == 19,
    {
        SymbolKind(19)
    }

    #[allow(non_snake_case)]
    pub fn KEY() -> (r: SymbolKind)
        ensures
            r.0 == 20,
    {
        SymbolKind(20)
    }

    #[allow(non_snake_case)]
    pub fn NULL() -> (r: SymbolKind)
        ensures
            r.0 == 21,
    {
        SymbolKind(21)
    }

    #[allow(non_snake_case)]
    pub fn ENUM_MEMBER() -> (r: SymbolKind)
        ensures
            r.0 == 22,
    {
        SymbolKind(22)
    }

    #[allow(non_snake_case)]
    pub fn STRUCT() -> (r: SymbolKind)
        ensures
            r.0 == 23,
    {
        SymbolKind(23)
    }

    #[allow(non_snake_case)]
    pub fn EVENT() -> (r: SymbolKind)
        ensures
            r.0 == 24,
    {
        SymbolKind(24)
    }

    #[allow(non_snake_case)]
    pub fn OPERATOR() -> (r: SymbolKind)
        ensures
            r.0 == 25,
    {
        SymbolKind(25)
    }

    #[allow(non_snake_case)]
    pub fn TYPE_PARAMETER() -> (r: SymbolKind)
        ensures
            r.0 == 26,
    {
        SymbolKind(26)
    }

    /// The name of the well-known constant with value `n`, if there is one.
    pub open spec fn name_of(n: i32) -> Option<&'static str> {
        if n == 1 {
            Some("FILE")
        } else if n == 2 {
            Some("MODULE")
        } else if n == 3 {
            Some("NAMESPACE")
        } else if n == 4 {
            Some("PACKAGE")
        } else if n == 5 {
            Some("CLASS")
        } else if n == 6 {
            Some("METHOD")
        } else if n == 7 {
            Some("PROPERTY")
        } else if n == 8 {
            Some("FIELD")
        } else if n == 9 {
            Some("CONSTRUCTOR")
        } else if n == 10 {
            Some("ENUM")
        } else if n == 11 {
            Some("INTERFACE")
        } else if n == 12 {
            Some("FUNCTION")
        } else if n == 13 {
            Some("VARIABLE")
        } else if n == 14 {
            Some("CONSTANT")
        } else if n == 15 {
            Some("STRING")
        } else if n == 16 {
            Some("NUMBER")
        } else if n == 17 {
            Some("BOOLEAN")
        } else if n == 18 {
            Some("ARRAY")
        } else if n == 19 {
            Some("OBJECT")
        } else if n == 20 {
            Some("KEY")
        } else if n == 21 {
            Some("NULL")
        } else if n == 22 {
            Some("ENUM_MEMBER")
        } else if n == 23 {
            Some("STRUCT")
        } else if n == 24 {
            Some("EVENT")
        } else if n == 25 {
            Some("OPERATOR")
        } else if n == 26 {
            Some("TYPE_PARAMETER")
        } else {
            None
        }
    }

    /// The name of the well-known constant with this value, if there is one.
    pub fn name(&self) -> (r: Option<&'static str>)
        ensures
            r == Self::name_of(self.0),
    {
        match self.0 {
            1 => Some("FILE"),
            2 => Some("MODULE"),
            3 => Some("NAMESPACE"),
            4 => Some("PACKAGE"),
            5 => Some("CLASS"),
            6 => Some("METHOD"),
            7 => Some("PROPERTY"),
            8 => Some("FIELD"),
            9 => Some("CONSTRUCTOR"),
            10 => Some("ENUM"),
            11 => Some("INTERFACE"),
            12 => Some("FUNCTION"),
            13 => Some("VARIABLE"),
            14 => Some("CONSTANT"),
            15 => Some("STRING"),
            16 => Some("NUMBER"),
            17 => Some("BOOLEAN"),
            18 => Some("ARRAY"),
            19 => Some("OBJECT"),
            20 => Some("KEY"),
            21 => Some("NULL"),
            22 => Some("ENUM_MEMBER"),
            23 => Some("STRUCT"),
            24 => Some("EVENT"),
            25 => Some("OPERATOR"),
            26 => Some("TYPE_PARAMETER"),
            _ => None,
        }
    }

    /// The rendering used in diagnostics: the constant's name in PascalCase,
    /// or `SymbolKind(n)` for a value without a name.
    pub fn debug_text(&self) -> (r: String)
        ensures
            match Self::name_of(self.0) {
                Some(s) => r@ == pascal_words(s@, 0, true) && r@ == pascal_chars(s@, 0, true),
                None => r@ == "SymbolKind"@ + seq!['('] + decimal(self.0 as int) + seq![')'],
            },
    {
        match self.0 {
            1 => {
                proof {
                    reveal_strlit("FILE");
                }
                fmt_pascal_case("FILE")
            },
            2 => {
                proof {
                    reveal_strlit("MODULE");
                }
                fmt_pascal_case("MODULE")
            },
            3 => {
                proof {
                    reveal_strlit("NAMESPACE");
                }
                fmt_pascal_case("NAMESPACE")
            },
            4 => {
                proof {
                    reveal_strlit("PACKAGE");
                }
                fmt_pascal_case("PACKAGE")
            },
            5 => {
                proof {
                    reveal_strlit("CLASS");
                }
                fmt_pascal_case("CLASS")
            },
            6 => {
                proof {
                    reveal_strlit("METHOD");
                }
                fmt_pascal_case("METHOD")
            },
            7 => {
                proof {
                    reveal_strlit("PROPERTY");
                }
                fmt_pascal_case("PROPERTY")
            },
            8 => {
                proof {
                    reveal_strlit("FIELD");
                }
                fmt_pascal_case("FIELD")
            },
            9 => {
                proof {
                    reveal_strlit("CONSTRUCTOR");
                }
                fmt_pascal_case("CONSTRUCTOR")
            },
            10 => {
                proof {
                    reveal_strlit("ENUM");
                }
                fmt_pascal_case("ENUM")
            },
            11 => {
                proof {
                    reveal_strlit("INTERFACE");
                }
                fmt_pascal_case("INTERFACE")
            },
            12 => {
                proof {
                    reveal_strlit("FUNCTION");
                }
                fmt_pascal_case("FUNCTION")
            },
            13 => {
                proof {
                    reveal_strlit("VARIABLE");
                }
                fmt_pascal_case("VARIABLE")
            },
            14 => {
                proof {
                    reveal_strlit("CONSTANT");
                }
                fmt_pascal_case("CONSTANT")
            },
            15 => {
                proof {
                    reveal_strlit("STRING");
                }
                fmt_pascal_case("STRING")
            },
            16 => {
                proof {
                    reveal_strlit("NUMBER");
                }
                fmt_pascal_case("NUMBER")
            },
            17 => {
                proof {
                    reveal_strlit("BOOLEAN");
                }
                fmt_pascal_case("BOOLEAN")
            },
            18 => {
                proof {
                    reveal_strlit("ARRAY");
                }
                fmt_pascal_case("ARRAY")
            },
            19 => {
                proof {
                    reveal_strlit("OBJECT");
                }
                fmt_pascal_case("OBJECT")
            },
            20 => {
                proof {
                    reveal_strlit("KEY");
                }
                fmt_pascal_case("KEY")
            },
            21 => {
                proof {
                    reveal_strlit("NULL");
                }
                fmt_pascal_case("NULL")
            },
            22 => {
                proof {
                    reveal_strlit("ENUM_MEMBER");
                }
                fmt_pascal_case("ENUM_MEMBER")
            },
            23 => {
                proof {
                    reveal_strlit("STRUCT");
                }
                fmt_pascal_case("STRUCT")
            },
            24 => {
                proof {
                    reveal_strlit("EVENT");
                }
                fmt_pascal_case("EVENT")
            },
            25 => {
                proof {
                    reveal_strlit("OPERATOR");
                }
                fmt_pascal_case("OPERATOR")
            },
            26 => {
                proof {
                    reveal_strlit("TYPE_PARAMETER");
                }
                fmt_pascal_case("TYPE_PARAMETER")
            },
            _ => tuple_text("SymbolKind", self.0),
        }
    }

    /// The value of the well-known constant whose name, in PascalCase, is `b`.
    pub open spec fn value_of_pascal(b: Seq<u8>) -> Option<i32> {
        if b == pascal_case("FILE".spec_bytes()) {
            Some(1i32)
        } else if b == pascal_case("MODULE".spec_bytes()) {
            Some(2i32)
        } else if b == pascal_case("NAMESPACE".spec_bytes()) {
            Some(3i32)
        } else if b == pascal_case("PACKAGE".spec_bytes()) {
            Some(4i32)
        } else if b == pascal_case("CLASS".spec_bytes()) {
            Some(5i32)
        } else if b == pascal_case("METHOD".spec_bytes()) {
            Some(6i32)
        } else if b == pascal_case("PROPERTY".spec_bytes()) {
            Some(7i32)
        } else if b == pascal_case("FIELD".spec_bytes()) {
            Some(8i32)
        } else if b == pascal_case("CONSTRUCTOR".spec_bytes()) {
            Some(9i32)
        } else if b == pascal_case("ENUM".spec_bytes()) {
            Some(10i32)
        } else if b == pascal_case("INTERFACE".spec_bytes()) {
            Some(11i32)
        } else if b == pascal_case("FUNCTION".spec_bytes()) {
            Some(12i32)
        } else if b == pascal_case("VARIABLE".spec_bytes()) {
            Some(13i32)
        } else if b == pascal_case("CONSTANT".spec_bytes()) {
            Some(14i32)
        } else if b == pascal_case("STRING".spec_bytes()) {
            Some(15i32)
        } else if b == pascal_case("NUMBER".spec_bytes()) {
            Some(16i32)
        } else if b == pascal_case("BOOLEAN".spec_bytes()) {
            Some(17i32)
        } else if b == pascal_case("ARRAY".spec_bytes()) {
            Some(18i32)
        } else if b == pascal_case("OBJECT".spec_bytes()) {
            Some(19i32)
        } else if b == pascal_case("KEY".spec_bytes()) {
            Some(20i32)
        } else if b == pascal_case("NULL".spec_bytes()) {
            Some(21i32)
        } else if b == pascal_case("ENUM_MEMBER".spec_bytes()) {
            Some(22i32)
        } else if b == pascal_case("STRUCT".spec_bytes()) {
            Some(23i32)
        } else if b == pascal_case("EVENT".spec_bytes()) {
            Some(24i32)
        } else if b == pascal_case("OPERATOR".spec_bytes()) {
            Some(25i32)
        } else if b == pascal_case("TYPE_PARAMETER".spec_bytes()) {
            Some(26i32)
        } else {
            None
        }
    }

    /// Reads the PascalCase rendering of a well-known constant's name (`File`).
    pub fn from_pascal_name(value: &str) -> (r: Option<SymbolKind>)
        ensures
            match Self::value_of_pascal(value.spec_bytes()) {
                Some(n) => r == Some(SymbolKind(n)),
                None => r is None,
            },
    {
        let b = value.as_bytes();
        if bytes_equal(b, fmt_pascal_case_const("FILE").as_slice()) {
            return Some(SymbolKind(1));
        }
        if bytes_equal(b, fmt_pascal_case_const("MODULE").as_slice()) {
            return Some(SymbolKind(2));
        }
        if bytes_equal(b, fmt_pascal_case_const("NAMESPACE").as_slice()) {
            return Some(SymbolKind(3));
        }
        if bytes_equal(b, fmt_pascal_case_const("PACKAGE").as_slice()) {
            return Some(SymbolKind(4));
        }
        if bytes_equal(b, fmt_pascal_case_const("CLASS").as_slice()) {
            return Some(SymbolKind(5));
        }
        if bytes_equal(b, fmt_pascal_case_const("METHOD").as_slice()) {
            return Some(SymbolKind(6));
        }
        if bytes_equal(b, fmt_pascal_case_const("PROPERTY").as_slice()) {
            return Some(SymbolKind(7));
        }
        if bytes_equal(b, fmt_pascal_case_const("FIELD").as_slice()) {
            return Some(SymbolKind(8));
        }
        if bytes_equal(b, fmt_pascal_case_const("CONSTRUCTOR").as_slice()) {
            return Some(SymbolKind(9));
        }
        if bytes_equal(b, fmt_pascal_case_const("ENUM").as_slice()) {
            return Some(SymbolKind(10));
        }
        if bytes_equal(b, fmt_pascal_case_const("INTERFACE").as_slice()) {
            return Some(SymbolKind(11));
        }
        if bytes_equal(b, fmt_pascal_case_const("FUNCTION").as_slice()) {
            return Some(SymbolKind(12));
        }
        if bytes_equal(b, fmt_pascal_case_const("VARIABLE").as_slice()) {
            return Some(SymbolKind(13));
        }
        if bytes_equal(b, fmt_pascal_case_const("CONSTANT").as_slice()) {
            return Some(SymbolKind(14));
        }
        if bytes_equal(b, fmt_pascal_case_const("STRING").as_slice()) {
            return Some(SymbolKind(15));
        }
        if bytes_equal(b, fmt_pascal_case_const("NUMBER").as_slice()) {
            return Some(SymbolKind(16));
        }
        if bytes_equal(b, fmt_pascal_case_const("BOOLEAN").as_slice()) {
            return Some(SymbolKind(17));
        }
        if bytes_equal(b, fmt_pascal_case_const("ARRAY").as_slice()) {
            return Some(SymbolKind(18));
        }
        if bytes_equal(b, fmt_pascal_case_const("OBJECT").as_slice()) {
            return Some(SymbolKind(19));
        }
        if bytes_equal(b, fmt_pascal_case_const("KEY").as_slice()) {
            return Some(SymbolKind(20));
        }
        if bytes_equal(b, fmt_pascal_case_const("NULL").as_slice()) {
            return Some(SymbolKind(21));
        }
        if bytes_equal(b, fmt_pascal_case_const("ENUM_MEMBER").as_slice()) {
            return Some(SymbolKind(22));
        }
        if bytes_equal(b, fmt_pascal_case_const("STRUCT").as_slice()) {
            return Some(SymbolKind(23));
        }
        if bytes_equal(b, fmt_pascal_case_const("EVENT").as_slice()) {
            return Some(SymbolKind(24));
        }
        if bytes_equal(b, fmt_pascal_case_const("OPERATOR").as_slice()) {
            return Some(SymbolKind(25));
        }
        if bytes_equal(b, fmt_pascal_case_const("TYPE_PARAMETER").as_slice()) {
            return Some(SymbolKind(26));
        }
        None
    }
}

/// Written as the bare integer; every integer in range decodes, known or not.
impl JsonCodec for SymbolKind {
    type Model = SymbolKind;

    open spec fn model(&self) -> SymbolKind {
        *self
    }

    open spec fn encode(m: SymbolKind) -> JVal {
        JVal::Num(m.0 as int)
    }

    open spec fn decode(j: JVal) -> Result<SymbolKind, DecodeError> {
        match i32::decode(j) {
            Ok(n) => Ok(SymbolKind(n)),
            Err(e) => Err(e),
        }
    }

    open spec fn valid(m: SymbolKind) -> bool {
        true
    }

    fn to_json(&self) -> (r: Json) {
        self.0.to_json()
    }

    fn from_json(j: &Json) -> (r: Result<SymbolKind, DecodeError>) {
        match i32::from_json(j) {
            Ok(n) => Ok(SymbolKind(n)),
            Err(e) => Err(e),
        }
    }

    proof fn lemma_round_trip(m: SymbolKind) {
    }
}

/// An extra annotation that tweaks the rendering of a symbol.
#[derive(Clone, Copy, Debug, PartialEq, Eq, Hash, Structural)]
pub struct SymbolTag(pub i32);

impl SymbolTag {
    /// Render a symbol as obsolete, usually using a strike-out.
    #[allow(non_snake_case)]
    pub fn DEPRECATED() -> (r: SymbolTag)
        ensures
            r.0 == 1,
    {
        SymbolTag(1)
    }

    /// The name of the well-known constant with value `n`, if there is one.
    pub open spec fn name_of(n: i32) -> Option<&'static str> {
        if n == 1 {
            Some("DEPRECATED")
        } else {
            None
        }
    }

    /// The name of the well-known constant with this value, if there is one.
    pub fn name(&self) -> (r: Option<&'static str>)
        ensures
            r == Self::name_of(self.0),
    {
        match self.0 {
            1 => Some("DEPRECATED"),
            _ => None,
        }
    }

    /// The rendering used in diagnostics: the constant's name in PascalCase,
    /// or `SymbolTag(n)` for a value without a name.
    pub fn debug_text(&self) -> (r: String)
        ensures
            match Self::name_of(self.0) {
                Some(s) => r@ == pascal_words(s@, 0, true) && r@ == pascal_chars(s@, 0, true),
                None => r@ == "SymbolTag"@ + seq!['('] + decimal(self.0 as int) + seq![')'],
            },
    {
        match self.0 {
            1 => {
                proof {
                    reveal_strlit("DEPRECATED");
                }
                fmt_pascal_case("DEPRECATED")
            },
            _ => tuple_text("SymbolTag", self.0),
        }
    }

    /// The value of the well-known constant whose name, in PascalCase, is `b`.
    pub open spec fn value_of_pascal(b: Seq<u8>) -> Option<i32> {
        if b == pascal_case("DEPRECATED".spec_bytes()) {
            Some(1i32)
        } else {
            None
        }
    }

    /// Reads the PascalCase rendering of a well-known constant's name (`Deprecated`).
    pub fn from_pascal_name(value: &str) -> (r: Option<SymbolTag>)
        ensures
            match Self::value_of_pascal(value.spec_bytes()) {
                Some(n) => r == Some(SymbolTag(n)),
                None => r is None,
            },
    {
        let b = value.as_bytes();
        if bytes_equal(b, fmt_pascal_case_const("DEPRECATED").as_slice()) {
            return Some(SymbolTag(1));
        }
        None
    }
}

/// Written as the bare integer; every integer in range decodes, known or not.
impl JsonCodec for SymbolTag {
    type Model = SymbolTag;

    open spec fn model(&self) -> SymbolTag {
        *self
    }

    open spec fn encode(m: SymbolTag) -> JVal {
        JVal::Num(m.0 as int)
    }

    open spec fn decode(j: JVal) -> Result<SymbolTag, DecodeError> {
        match i32::decode(j) {
            Ok(n) => Ok(SymbolTag(n)),
            Err(e) => Err(e),
        }
    }

    open spec fn valid(m: SymbolTag) -> bool {
        true
    }

    fn to_json(&self) -> (r: Json) {
        self.0.to_json()
    }

    fn from_json(j: &Json) -> (r: Result<SymbolTag, DecodeError>) {
        match i32::from_json(j) {
            Ok(n) => Ok(SymbolTag(n)),
            Err(e) => Err(e),
        }
    }

    proof fn lemma_round_trip(m: SymbolTag) {
    }
}

/// Which file events a watcher is interested in: a set of bits, `Create = 1`,
/// `Change = 2` and `Delete = 4`.
#[derive(Clone, Copy, Debug, PartialEq, Eq, Hash)]
pub struct WatchKind {
    bits: u8,
}

/// Whether a byte has no bits outside the three flags.
pub open spec fn watch_bits_ok(b: u8) -> bool {
    b & !7u8 == 0
}

impl WatchKind {
    /// The bits of the set.
    pub closed spec fn spec_bits(&self) -> u8 {
        self.bits
    }

    /// Interest in file creation.
    #[allow(non_snake_case)]
    pub fn Create() -> (r: WatchKind)
        ensures
            r.spec_bits() == 1,
    {
        WatchKind { bits: 1 }
    }

    /// Interest in file changes.
    #[allow(non_snake_case)]
    pub fn Change() -> (r: WatchKind)
        ensures
            r.spec_bits() == 2,
    {
        WatchKind { bits: 2 }
    }

    /// Interest in file deletion.
    #[allow(non_snake_case)]
    pub fn Delete() -> (r: WatchKind)
        ensures
            r.spec_bits() == 4,
    {
        WatchKind { bits: 4 }
    }

    /// The bits of the set.
    pub fn bits(&self) -> (r: u8)
        ensures
            r == self.spec_bits(),
    {
        self.bits
    }

    /// The set with the given bits; `None` when a bit lies outside the three flags.
    pub fn from_bits(b: u8) -> (r: Option<WatchKind>)
        ensures
            r is Some <==> watch_bits_ok(b),
            r matches Some(w) ==> w.spec_bits() == b,
    {
        if b & !7u8 == 0 {
            Some(WatchKind { bits: b })
        } else {
            None
        }
    }

    /// The union of two sets.
    pub fn union(self, other: WatchKind) -> (r: WatchKind)
        ensures
            r.spec_bits() == self.spec_bits() | other.spec_bits(),
    {
        WatchKind { bits: self.bits | other.bits }
    }

    /// Whether every flag of `other` is in the set.
    pub fn contains(self, other: WatchKind) -> (r: bool)
        ensures
            r == (self.spec_bits() & other.spec_bits() == other.spec_bits()),
    {
        self.bits & other.bits == other.bits
    }
}

impl Default for WatchKind {
    /// Interest in every kind of event: `Create | Change | Delete`.
    fn default() -> (r: WatchKind)
        ensures
            r.spec_bits() == 7,
    {
        WatchKind { bits: 7 }
    }
}

/// Written as the integer of its bits; an integer with bits outside the three
/// flags, or outside a byte, is rejected.
impl JsonCodec for WatchKind {
    type Model = u8;

    open spec fn model(&self) -> u8 {
        self.spec_bits()
    }

    open spec fn encode(m: u8) -> JVal {
        JVal::Num(m as int)
    }

    open spec fn decode(j: JVal) -> Result<u8, DecodeError> {
        match j {
            JVal::Num(n) => if 0 <= n <= 255 && watch_bits_ok(n as u8) {
                Ok(n as u8)
            } else {
                Err(DecodeError::InvalidPrimitive)
            },
            _ => Err(DecodeError::WrongShape),
        }
    }

    open spec fn valid(m: u8) -> bool {
        watch_bits_ok(m)
    }

    fn to_json(&self) -> (r: Json) {
        Json::Number(self.bits as i64)
    }

    fn from_json(j: &Json) -> (r: Result<WatchKind, DecodeError>) {
        match j {
            Json::Number(n) => if 0 <= *n && *n <= 255 {
                match WatchKind::from_bits(*n as u8) {
                    Some(w) => Ok(w),
                    None => Err(DecodeError::InvalidPrimitive),
                }
            } else {
                Err(DecodeError::InvalidPrimitive)
            },
            _ => Err(DecodeError::WrongShape),
        }
    }

    proof fn lemma_round_trip(m: u8) {
    }
}

} // verus!
