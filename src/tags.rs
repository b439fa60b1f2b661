//! String-valued kinds: open-ended ones that keep any text, and closed ones.

use vstd::prelude::*;
use crate::json::{string_is, DecodeError, JVal, Json, JsonCodec};

verus! {

/// The kind of a code action: an open-ended dotted string such as `refactor.extract`.
#[derive(Clone, Debug, PartialEq, Eq, PartialOrd, Hash)]
pub struct CodeActionKind(pub String);

impl View for CodeActionKind {
    type V = Seq<char>;

    open spec fn view(&self) -> Seq<char> {
        self.0@
    }
}

impl CodeActionKind {
    /// The empty kind.
    #[allow(non_snake_case)]
    pub fn EMPTY() -> (r: CodeActionKind)
        ensures
            r@ == ""@,
    {
        CodeActionKind::new("")
    }

    /// Base kind for quickfix actions.
    #[allow(non_snake_case)]
    pub fn QUICKFIX() -> (r: CodeActionKind)
        ensures
            r@ == "quickfix"@,
    {
        CodeActionKind::new("quickfix")
    }

    /// Base kind for refactoring actions.
    #[allow(non_snake_case)]
    pub fn REFACTOR() -> (r: CodeActionKind)
        ensures
            r@ == "refactor"@,
    {
        CodeActionKind::new("refactor")
    }

    /// Base kind for refactoring extraction actions.
    #[allow(non_snake_case)]
    pub fn REFACTOR_EXTRACT() -> (r: CodeActionKind)
        ensures
            r@ == "refactor.extract"@,
    {
        CodeActionKind::new("refactor.extract")
    }

    /// Base kind for refactoring inline actions.
    #[allow(non_snake_case)]
    pub fn REFACTOR_INLINE() -> (r: CodeActionKind)
        ensures
            r@ == "refactor.inline"@,
    {
        CodeActionKind::new("refactor.inline")
    }

    /// Base kind for refactoring rewrite actions.
    #[allow(non_snake_case)]
    pub fn REFACTOR_REWRITE() -> (r: CodeActionKind)
        ensures
            r@ == "refactor.rewrite"@,
    {
        CodeActionKind::new("refactor.rewrite")
    }

    /// Base kind for source actions, which apply to the entire file.
    #[allow(non_snake_case)]
    pub fn SOURCE() -> (r: CodeActionKind)
        ensures
            r@ == "source"@,
    {
        CodeActionKind::new("source")
    }

    /// Base kind for an organize imports source action.
    #[allow(non_snake_case)]
    pub fn SOURCE_ORGANIZE_IMPORTS() -> (r: CodeActionKind)
        ensures
            r@ == "source.organizeImports"@,
    {
        CodeActionKind::new("source.organizeImports")
    }

    /// Base kind for a 'fix all' source action.
    #[allow(non_snake_case)]
    pub fn SOURCE_FIX_ALL() -> (r: CodeActionKind)
        ensures
            r@ == "source.fixAll"@,
    {
        CodeActionKind::new("source.fixAll")
    }

    /// A kind with the given text, well-known or not.
    pub fn new(tag: &str) -> (r: CodeActionKind)
        ensures
            r@ == tag@,
    {
        CodeActionKind(tag.to_owned())
    }

    /// The text of the kind.
    pub fn as_str(&self) -> (r: &str)
        ensures
            r@ == self@,
    {
        self.0.as_str()
    }
}

impl From<String> for CodeActionKind {
    fn from(v: String) -> (r: CodeActionKind)
        ensures
            r@ == v@,
    {
        CodeActionKind(v)
    }
}

impl vstd::std_specs::convert::FromSpecImpl<String> for CodeActionKind {
    open spec fn obeys_from_spec() -> bool {
        true
    }

    open spec fn from_spec(v: String) -> CodeActionKind {
        CodeActionKind(v)
    }
}

/// Written as its text; every string decodes, well-known or not.
impl JsonCodec for CodeActionKind {
    type Model = Seq<char>;

    open spec fn model(&self) -> Seq<char> {
        self@
    }

    open spec fn encode(m: Seq<char>) -> JVal {
        JVal::Str(m)
    }

    open spec fn decode(j: JVal) -> Result<Seq<char>, DecodeError> {
        match j {
            JVal::Str(s) => Ok(s),
            _ => Err(DecodeError::WrongShape),
        }
    }

    open spec fn valid(m: Seq<char>) -> bool {
        true
    }

    fn to_json(&self) -> (r: Json) {
        Json::Str(self.0.clone())
    }

    fn from_json(j: &Json) -> (r: Result<CodeActionKind, DecodeError>) {
        match j {
            Json::Str(s) => Ok(CodeActionKind(s.clone())),
            _ => Err(DecodeError::WrongShape),
        }
    }

    proof fn lemma_round_trip(m: Seq<char>) {
    }
}

/// The unit in which character offsets of positions are counted; open-ended.
#[derive(Clone, Debug, PartialEq, Eq, PartialOrd, Hash)]
pub struct PositionEncodingKind(pub String);

impl View for PositionEncodingKind {
    type V = Seq<char>;

    open spec fn view(&self) -> Seq<char> {
        self.0@
    }
}

impl PositionEncodingKind {
    /// Character offsets count UTF-8 code units (bytes).
    #[allow(non_snake_case)]
    pub fn UTF8() -> (r: PositionEncodingKind)
        ensures
            r@ == "utf-8"@,
    {
        PositionEncodingKind::new("utf-8")
    }

    /// Character offsets count UTF-16 code units. The default.
    #[allow(non_snake_case)]
    pub fn UTF16() -> (r: PositionEncodingKind)
        ensures
            r@ == "utf-16"@,
    {
        PositionEncodingKind::new("utf-16")
    }

    /// Character offsets count UTF-32 code units (code points).
    #[allow(non_snake_case)]
    pub fn UTF32() -> (r: PositionEncodingKind)
        ensures
            r@ == "utf-32"@,
    {
        PositionEncodingKind::new("utf-32")
    }

    /// A kind with the given text, well-known or not.
    pub fn new(tag: &str) -> (r: PositionEncodingKind)
        ensures
            r@ == tag@,
    {
        PositionEncodingKind(tag.to_owned())
    }

    /// The text of the kind.
    pub fn as_str(&self) -> (r: &str)
        ensures
            r@ == self@,
    {
        self.0.as_str()
    }
}

impl From<String> for PositionEncodingKind {
    fn from(v: String) -> (r: PositionEncodingKind)
        ensures
            r@ == v@,
    {
        PositionEncodingKind(v)
    }
}

impl vstd::std_specs::convert::FromSpecImpl<String> for PositionEncodingKind {
    open spec fn obeys_from_spec() -> bool {
        true
    }

    open spec fn from_spec(v: String) -> PositionEncodingKind {
        PositionEncodingKind(v)
    }
}

/// Written as its text; every string decodes, well-known or not.
impl JsonCodec for PositionEncodingKind {
    type Model = Seq<char>;

    open spec fn model(&self) -> Seq<char> {
        self@
    }

    open spec fn encode(m: Seq<char>) -> JVal {
        JVal::Str(m)
    }

    open spec fn decode(j: JVal) -> Result<Seq<char>, DecodeError> {
        match j {
            JVal::Str(s) => Ok(s),
            _ => Err(DecodeError::WrongShape),
        }
    }

    open spec fn valid(m: Seq<char>) -> bool {
        true
    }

    fn to_json(&self) -> (r: Json) {
        Json::Str(self.0.clone())
    }

    fn from_json(j: &Json) -> (r: Result<PositionEncodingKind, DecodeError>) {
        match j {
            Json::Str(s) => Ok(PositionEncodingKind(s.clone())),
            _ => Err(DecodeError::WrongShape),
        }
    }

    proof fn lemma_round_trip(m: Seq<char>) {
    }
}

/// A kind of resource operation that a client supports in workspace edits.
#[derive(Clone, Copy, Debug, PartialEq, Eq, Hash, Structural)]
pub enum ResourceOperationKind {
    Create,
    Rename,
    Delete,
}

impl ResourceOperationKind {
    /// The text that stands for the variant on the wire.
    pub open spec fn tag(self) -> Seq<char> {
        match self {
            ResourceOperationKind::Create => "create"@,
            ResourceOperationKind::Rename => "rename"@,
            ResourceOperationKind::Delete => "delete"@,
        }
    }

    /// The variant that a text stands for.
    pub open spec fn from_tag(s: Seq<char>) -> Option<ResourceOperationKind> {
        if s == "create"@ {
            Some(ResourceOperationKind::Create)
        } else if s == "rename"@ {
            Some(ResourceOperationKind::Rename)
        } else if s == "delete"@ {
            Some(ResourceOperationKind::Delete)
        } else {
            None
        }
    }
}

/// Written as its tag; any other text is rejected.
impl JsonCodec for ResourceOperationKind {
    type Model = ResourceOperationKind;

    open spec fn model(&self) -> ResourceOperationKind {
        *self
    }

    open spec fn encode(m: ResourceOperationKind) -> JVal {
        JVal::Str(m.tag())
    }

    open spec fn decode(j: JVal) -> Result<ResourceOperationKind, DecodeError> {
        match j {
            JVal::Str(s) => match Self::from_tag(s) {
                Some(k) => Ok(k),
                None => Err(DecodeError::UnknownVariant),
            },
            _ => Err(DecodeError::WrongShape),
        }
    }

    open spec fn valid(m: ResourceOperationKind) -> bool {
        true
    }

    fn to_json(&self) -> (r: Json) {
        let t = match self {
            ResourceOperationKind::Create => "create",
            ResourceOperationKind::Rename => "rename",
            ResourceOperationKind::Delete => "delete",
        };
        Json::Str(t.to_owned())
    }

    fn from_json(j: &Json) -> (r: Result<ResourceOperationKind, DecodeError>) {
        match j {
            Json::Str(s) => {
                if string_is(s, "create") {
                    return Ok(ResourceOperationKind::Create);
                }
                if string_is(s, "rename") {
                    return Ok(ResourceOperationKind::Rename);
                }
                if string_is(s, "delete") {
                    return Ok(ResourceOperationKind::Delete);
                }
                Err(DecodeError::UnknownVariant)
            },
            _ => Err(DecodeError::WrongShape),
        }
    }

    proof fn lemma_round_trip(m: ResourceOperationKind) {
        reveal_strlit("create");
        reveal_strlit("rename");
        reveal_strlit("delete");
        assert("create"@.len() == 6);
        assert("rename"@.len() == 6);
        assert("delete"@.len() == 6);
        assert("create"@[0] != "rename"@[0]);
        assert("create"@[0] != "delete"@[0]);
        assert("rename"@[0] != "delete"@[0]);
    }
}

/// How a client handles the failure of a workspace edit.
#[derive(Clone, Copy, Debug, PartialEq, Eq, Hash, Structural)]
pub enum FailureHandlingKind {
    Abort,
    Transactional,
    TextOnlyTransactional,
    Undo,
}

impl FailureHandlingKind {
    /// The text that stands for the variant on the wire.
    pub open spec fn tag(self) -> Seq<char> {
        match self {
            FailureHandlingKind::Abort => "abort"@,
            FailureHandlingKind::Transactional => "transactional"@,
            FailureHandlingKind::TextOnlyTransactional => "textOnlyTransactional"@,
            FailureHandlingKind::Undo => "undo"@,
        }
    }

    /// The variant that a text stands for.
    pub open spec fn from_tag(s: Seq<char>) -> Option<FailureHandlingKind> {
        if s == "abort"@ {
            Some(FailureHandlingKind::Abort)
        } else if s == "transactional"@ {
            Some(FailureHandlingKind::Transactional)
        } else if s == "textOnlyTransactional"@ {
            Some(FailureHandlingKind::TextOnlyTransactional)
        } else if s == "undo"@ {
            Some(FailureHandlingKind::Undo)
        } else {
            None
        }
    }
}

/// Written as its tag; any other text is rejected.
impl JsonCodec for FailureHandlingKind {
    type Model = FailureHandlingKind;

    open spec fn model(&self) -> FailureHandlingKind {
        *self
    }

    open spec fn encode(m: FailureHandlingKind) -> JVal {
        JVal::Str(m.tag())
    }

    open spec fn decode(j: JVal) -> Result<FailureHandlingKind, DecodeError> {
        match j {
            JVal::Str(s) => match Self::from_tag(s) {
                Some(k) => Ok(k),
                None => Err(DecodeError::UnknownVariant),
            },
            _ => Err(DecodeError::WrongShape),
        }
    }

    open spec fn valid(m: FailureHandlingKind) -> bool {
        true
    }

    fn to_json(&self) -> (r: Json) {
        let t = match self {
            FailureHandlingKind::Abort => "abort",
            FailureHandlingKind::Transactional => "transactional",
            FailureHandlingKind::TextOnlyTransactional => "textOnlyTransactional",
            FailureHandlingKind::Undo => "undo",
        };
        Json::Str(t.to_owned())
    }

    fn from_json(j: &Json) -> (r: Result<FailureHandlingKind, DecodeError>) {
        match j {
            Json::Str(s) => {
                if string_is(s, "abort") {
                    return Ok(FailureHandlingKind::Abort);
                }
                if string_is(s, "transactional") {
                    return Ok(FailureHandlingKind::Transactional);
                }
                if string_is(s, "textOnlyTransactional") {
                    return Ok(FailureHandlingKind::TextOnlyTransactional);
                }
                if string_is(s, "undo") {
                    return Ok(FailureHandlingKind::Undo);
                }
                Err(DecodeError::UnknownVariant)
            },
            _ => Err(DecodeError::WrongShape),
        }
    }

    proof fn lemma_round_trip(m: FailureHandlingKind) {
        reveal_strlit("abort");
        reveal_strlit("transactional");
        reveal_strlit("textOnlyTransactional");
        reveal_strlit("undo");
        assert("abort"@.len() == 5);
        assert("transactional"@.len() == 13);
        assert("textOnlyTransactional"@.len() == 21);
        assert("undo"@.len() == 4);
    }
}

/// The level of verbosity with which the server logs its execution trace.
#[derive(Clone, Copy, Debug, PartialEq, Eq, Hash, Structural)]
pub enum TraceValue {
    Off,
    Messages,
    Verbose,
}

impl TraceValue {
    /// The text that stands for the variant on the wire.
    pub open spec fn tag(self) -> Seq<char> {
        match self {
            TraceValue::Off => "off"@,
            TraceValue::Messages => "messages"@,
            TraceValue::Verbose => "verbose"@,
        }
    }

    /// The variant that a text stands for.
    pub open spec fn from_tag(s: Seq<char>) -> Option<TraceValue> {
        if s == "off"@ {
            Some(TraceValue::Off)
        } else if s == "messages"@ {
            Some(TraceValue::Messages)
        } else if s == "verbose"@ {
            Some(TraceValue::Verbose)
        } else {
            None
        }
    }
}

/// Written as its tag; any other text is rejected.
impl JsonCodec for TraceValue {
    type Model = TraceValue;

    open spec fn model(&self) -> TraceValue {
        *self
    }

    open spec fn encode(m: TraceValue) -> JVal {
        JVal::Str(m.tag())
    }

    open spec fn decode(j: JVal) -> Result<TraceValue, DecodeError> {
        match j {
            JVal::Str(s) => match Self::from_tag(s) {
                Some(k) => Ok(k),
                None => Err(DecodeError::UnknownVariant),
            },
            _ => Err(DecodeError::WrongShape),
        }
    }

    open spec fn valid(m: TraceValue) -> bool {
        true
    }

    fn to_json(&self) -> (r: Json) {
        let t = match self {
            TraceValue::Off => "off",
            TraceValue::Messages => "messages",
            TraceValue::Verbose => "verbose",
        };
        Json::Str(t.to_owned())
    }

    fn from_json(j: &Json) -> (r: Result<TraceValue, DecodeError>) {
        match j {
            Json::Str(s) => {
                if string_is(s, "off") {
                    return Ok(TraceValue::Off);
                }
                if string_is(s, "messages") {
                    return Ok(TraceValue::Messages);
                }
                if string_is(s, "verbose") {
                    return Ok(TraceValue::Verbose);
                }
                Err(DecodeError::UnknownVariant)
            },
            _ => Err(DecodeError::WrongShape),
        }
    }

    proof fn lemma_round_trip(m: TraceValue) {
        reveal_strlit("off");
        reveal_strlit("messages");
        reveal_strlit("verbose");
        assert("off"@.len() == 3);
        assert("messages"@.len() == 8);
        assert("verbose"@.len() == 7);
    }
}

/// The format of a markup content: plain text or Markdown.
#[derive(Clone, Copy, Debug, PartialEq, Eq, Hash, Structural)]
pub enum MarkupKind {
    PlainText,
    Markdown,
}

impl MarkupKind {
    /// The text that stands for the variant on the wire.
    pub open spec fn tag(self) -> Seq<char> {
        match self {
            MarkupKind::PlainText => "plaintext"@,
            MarkupKind::Markdown => "markdown"@,
        }
    }

    /// The variant that a text stands for.
    pub open spec fn from_tag(s: Seq<char>) -> Option<MarkupKind> {
        if s == "plaintext"@ {
            Some(MarkupKind::PlainText)
        } else if s == "markdown"@ {
            Some(MarkupKind::Markdown)
        } else {
            None
        }
    }
}

/// Written as its tag; any other text is rejected.
impl JsonCodec for MarkupKind {
    type Model = MarkupKind;

    open spec fn model(&self) -> MarkupKind {
        *self
    }

    open spec fn encode(m: MarkupKind) -> JVal {
        JVal::Str(m.tag())
    }

    open spec fn decode(j: JVal) -> Result<MarkupKind, DecodeError> {
        match j {
            JVal::Str(s) => match Self::from_tag(s) {
                Some(k) => Ok(k),
                None => Err(DecodeError::UnknownVariant),
            },
            _ => Err(DecodeError::WrongShape),
        }
    }

    open spec fn valid(m: MarkupKind) -> bool {
        true
    }

    fn to_json(&self) -> (r: Json) {
        let t = match self {
            MarkupKind::PlainText => "plaintext",
            MarkupKind::Markdown => "markdown",
        };
        Json::Str(t.to_owned())
    }

    fn from_json(j: &Json) -> (r: Result<MarkupKind, DecodeError>) {
        match j {
            Json::Str(s) => {
                if string_is(s, "plaintext") {
                    return Ok(MarkupKind::PlainText);
                }
                if string_is(s, "markdown") {
                    return Ok(MarkupKind::Markdown);
                }
                Err(DecodeError::UnknownVariant)
            },
            _ => Err(DecodeError::WrongShape),
        }
    }

    proof fn lemma_round_trip(m: MarkupKind) {
        reveal_strlit("plaintext");
        reveal_strlit("markdown");
        assert("plaintext"@.len() == 9);
        assert("markdown"@.len() == 8);
    }
}

} // verus!
