//! Code actions: requests, results, options and client capabilities.

use vstd::prelude::*;
use vstd::seq_lib::lemma_concat_associative;
use crate::json::{group_lookup, lookup, member, members, new_object, nullable_field, opt_field, opt_member, opt_valid, push_member, push_opt, read_nullable, read_opt, read_req, req_field, DecodeError, JVal, Json, JsonCodec};
use crate::basic::{Command, CommandModel, Diagnostic, DiagnosticModel, PartialResultParams, PartialResultParamsModel, Range, TextDocumentIdentifier, TextDocumentIdentifierModel, WorkDoneProgressOptions, WorkDoneProgressParams, WorkDoneProgressParamsModel};
use crate::kinds::CodeActionTriggerKind;
use crate::tags::CodeActionKind;
use crate::workspace_edit::{WorkspaceEdit, WorkspaceEditModel};

verus! {

/// Options of the code action request.
#[derive(Clone, Debug, Default, PartialEq, Eq)]
pub struct CodeActionOptions {
    /// The code action kinds that this server may return.
    pub code_action_kinds: Option<Vec<CodeActionKind>>,
    pub work_done_progress_options: WorkDoneProgressOptions,
    /// Whether the server resolves additional information for a code action.
    pub resolve_provider: Option<bool>,
}

/// The mathematical value of a [`CodeActionOptions`].
pub struct CodeActionOptionsModel {
    pub code_action_kinds: Option<Seq<Seq<char>>>,
    pub work_done_progress_options: WorkDoneProgressOptions,
    pub resolve_provider: Option<bool>,
}

impl CodeActionOptions {
    /// The members that a value contributes to the object it is written in.
    pub open spec fn fields_json(m: CodeActionOptionsModel) -> Seq<(Seq<char>, JVal)> {
        opt_member::<Vec<CodeActionKind>>("codeActionKinds"@, m.code_action_kinds)
            + WorkDoneProgressOptions::fields_json(m.work_done_progress_options)
            + opt_member::<bool>("resolveProvider"@, m.resolve_provider)
    }

    /// Reads a value from the members of an object; other members are ignored.
    #[verifier::opaque]
    pub open spec fn fields_from(ms: Seq<(Seq<char>, JVal)>) -> Result<CodeActionOptionsModel, DecodeError> {
        match opt_field::<Vec<CodeActionKind>>(ms, "codeActionKinds"@) {
            Err(e) => Err(e),
            Ok(code_action_kinds) => {
                match WorkDoneProgressOptions::fields_from(ms) {
                    Err(e) => Err(e),
                    Ok(work_done_progress_options) => {
                        match opt_field::<bool>(ms, "resolveProvider"@) {
                            Err(e) => Err(e),
                            Ok(resolve_provider) => {
                                Ok(CodeActionOptionsModel { code_action_kinds, work_done_progress_options, resolve_provider })
                            },
                        }
                    },
                }
            },
        }
    }

    /// The models that values can have.
    pub open spec fn fields_valid(m: CodeActionOptionsModel) -> bool {
        &&& opt_valid::<Vec<CodeActionKind>>(m.code_action_kinds)
        &&& WorkDoneProgressOptions::fields_valid(m.work_done_progress_options)
        &&& opt_valid::<bool>(m.resolve_provider)
    }

    /// The members of a value, written between members of other names, read back as the value.
    pub proof fn lemma_fields_round_trip(m: CodeActionOptionsModel, pre: Seq<(Seq<char>, JVal)>, post: Seq<(Seq<char>, JVal)>)
        requires
            Self::fields_valid(m),
            forall|k: Seq<char>| Self::uses_key(k) ==> (#[trigger] lookup(pre, k)) is None,
            forall|k: Seq<char>| Self::uses_key(k) ==> (#[trigger] lookup(post, k)) is None,
        ensures
            Self::fields_from(pre + Self::fields_json(m) + post) == Ok::<CodeActionOptionsModel, DecodeError>(m),
    {
        broadcast use group_lookup;
        reveal(CodeActionOptions::fields_from);
        reveal_strlit("codeActionKinds");
        reveal_strlit("workDoneProgress");
        reveal_strlit("resolveProvider");
        assert("codeActionKinds"@.len() == 15);
        assert("workDoneProgress"@.len() == 16);
        assert("resolveProvider"@.len() == 15);
        assert("codeActionKinds"@[0] != "resolveProvider"@[0]);
        if let Some(x) = m.code_action_kinds {
            <Vec<CodeActionKind>>::lemma_round_trip(x);
        }
        let before = pre + opt_member::<Vec<CodeActionKind>>("codeActionKinds"@, m.code_action_kinds);
        let after = opt_member::<bool>("resolveProvider"@, m.resolve_provider) + post;
        WorkDoneProgressOptions::lemma_fields_round_trip(m.work_done_progress_options, before, after);
        assert(pre + Self::fields_json(m) + post =~= before + WorkDoneProgressOptions::fields_json(m.work_done_progress_options) + after);
        if let Some(x) = m.resolve_provider {
            bool::lemma_round_trip(x);
        }
    }

    /// Members with names that the type does not read change nothing.
    pub proof fn lemma_unknown_key(ms: Seq<(Seq<char>, JVal)>, k: Seq<char>, v: JVal)
        requires
            !Self::uses_key(k),
        ensures
            Self::fields_from(ms + member(k, v)) == Self::fields_from(ms),
    {
        broadcast use group_lookup;
        reveal(CodeActionOptions::fields_from);
        WorkDoneProgressOptions::lemma_unknown_key(ms, k, v);
    }

    /// The member names that the type reads.
    pub open spec fn uses_key(k: Seq<char>) -> bool {
        k == "codeActionKinds"@ || WorkDoneProgressOptions::uses_key(k) || k == "resolveProvider"@
    }

    /// Appends the members of the value to an object under construction.
    pub fn write_fields(&self, ms: &mut Vec<(String, Json)>)
        ensures
            members(Json::Object(*final(ms))@) == members(Json::Object(*old(ms))@) + Self::fields_json(self.model()),
    {
        let ghost start = members(Json::Object(*ms)@);
        let ghost m = self.model();
        push_opt(ms, "codeActionKinds", &self.code_action_kinds);
        self.work_done_progress_options.write_fields(ms);
        proof {
            lemma_concat_associative(start, opt_member::<Vec<CodeActionKind>>("codeActionKinds"@, m.code_action_kinds), WorkDoneProgressOptions::fields_json(m.work_done_progress_options));
        }
        push_opt(ms, "resolveProvider", &self.resolve_provider);
        proof {
            lemma_concat_associative(start, opt_member::<Vec<CodeActionKind>>("codeActionKinds"@, m.code_action_kinds) + WorkDoneProgressOptions::fields_json(m.work_done_progress_options), opt_member::<bool>("resolveProvider"@, m.resolve_provider));
        }
    }

    /// Reads a value from the members of an object.
    pub fn read_fields(ms: &Vec<(String, Json)>) -> (r: Result<Self, DecodeError>)
        ensures
            match r {
                Ok(v) => Self::fields_from(members(Json::Object(*ms)@)) == Ok::<CodeActionOptionsModel, DecodeError>(v.model()),
                Err(e) => Self::fields_from(members(Json::Object(*ms)@)) == Err::<CodeActionOptionsModel, DecodeError>(e),
            },
    {
        proof {
            reveal(CodeActionOptions::fields_from);
        }
        let code_action_kinds = match read_opt::<Vec<CodeActionKind>>(ms, "codeActionKinds") {
            Ok(v) => v,
            Err(e) => return Err(e),
        };
        let work_done_progress_options = match WorkDoneProgressOptions::read_fields(ms) {
            Ok(v) => v,
            Err(e) => return Err(e),
        };
        let resolve_provider = match read_opt::<bool>(ms, "resolveProvider") {
            Ok(v) => v,
            Err(e) => return Err(e),
        };
        Ok(CodeActionOptions { code_action_kinds, work_done_progress_options, resolve_provider })
    }
}

impl JsonCodec for CodeActionOptions {
    type Model = CodeActionOptionsModel;

    open spec fn model(&self) -> CodeActionOptionsModel {
        CodeActionOptionsModel {
            code_action_kinds: self.code_action_kinds.model(),
            work_done_progress_options: self.work_done_progress_options.model(),
            resolve_provider: self.resolve_provider.model(),
        }
    }

    open spec fn encode(m: CodeActionOptionsModel) -> JVal {
        JVal::Obj(Self::fields_json(m))
    }

    open spec fn decode(j: JVal) -> Result<CodeActionOptionsModel, DecodeError> {
        match j {
            JVal::Obj(ms) => Self::fields_from(ms),
            _ => Err(DecodeError::WrongShape),
        }
    }

    open spec fn valid(m: CodeActionOptionsModel) -> bool {
        Self::fields_valid(m)
    }

    fn to_json(&self) -> (r: Json) {
        let mut ms = new_object();
        self.write_fields(&mut ms);
        Json::Object(ms)
    }

    fn from_json(j: &Json) -> (r: Result<Self, DecodeError>) {
        match j {
            Json::Object(ms) => Self::read_fields(ms),
            _ => Err(DecodeError::WrongShape),
        }
    }

    proof fn lemma_round_trip(m: CodeActionOptionsModel) {
        Self::lemma_fields_round_trip(m, Seq::empty(), Seq::empty());
        assert(Seq::empty() + Self::fields_json(m) + Seq::empty() =~= Self::fields_json(m));
    }

}

/// How a server provides code actions.
#[derive(Clone, Debug, PartialEq, Eq)]
pub enum CodeActionProviderCapability {
    Simple(bool),
    Options(CodeActionOptions),
}

/// The mathematical value of a [`CodeActionProviderCapability`].
pub enum CodeActionProviderCapabilityModel {
    Simple(bool),
    Options(CodeActionOptionsModel),
}

/// Written as the variant's own encoding; decoding tries the variants in order.
impl JsonCodec for CodeActionProviderCapability {
    type Model = CodeActionProviderCapabilityModel;

    open spec fn model(&self) -> CodeActionProviderCapabilityModel {
        match self {
            CodeActionProviderCapability::Simple(x) => CodeActionProviderCapabilityModel::Simple(x.model()),
            CodeActionProviderCapability::Options(x) => CodeActionProviderCapabilityModel::Options(x.model()),
        }
    }

    open spec fn encode(m: CodeActionProviderCapabilityModel) -> JVal {
        match m {
            CodeActionProviderCapabilityModel::Simple(x) => bool::encode(x),
            CodeActionProviderCapabilityModel::Options(x) => CodeActionOptions::encode(x),
        }
    }

    open spec fn decode(j: JVal) -> Result<CodeActionProviderCapabilityModel, DecodeError> {
        match bool::decode(j) {
            Ok(x) => Ok(CodeActionProviderCapabilityModel::Simple(x)),
            Err(_) => {
                match CodeActionOptions::decode(j) {
                    Ok(x) => Ok(CodeActionProviderCapabilityModel::Options(x)),
                    Err(_) => {
                        Err(DecodeError::WrongShape)
                    },
                }
            },
        }
    }

    /// A variant is read back only where no earlier variant accepts its encoding.
    open spec fn valid(m: CodeActionProviderCapabilityModel) -> bool {
        match m {
            CodeActionProviderCapabilityModel::Simple(x) => bool::valid(x),
            CodeActionProviderCapabilityModel::Options(x) => CodeActionOptions::valid(x) && bool::decode(CodeActionOptions::encode(x)) is Err,
        }
    }

    fn to_json(&self) -> (r: Json) {
        match self {
            CodeActionProviderCapability::Simple(x) => x.to_json(),
            CodeActionProviderCapability::Options(x) => x.to_json(),
        }
    }

    fn from_json(j: &Json) -> (r: Result<CodeActionProviderCapability, DecodeError>) {
        if let Ok(x) = bool::from_json(j) {
            return Ok(CodeActionProviderCapability::Simple(x));
        }
        if let Ok(x) = CodeActionOptions::from_json(j) {
            return Ok(CodeActionProviderCapability::Options(x));
        }
        Err(DecodeError::WrongShape)
    }

    proof fn lemma_round_trip(m: CodeActionProviderCapabilityModel) {
        match m {
            CodeActionProviderCapabilityModel::Simple(x) => bool::lemma_round_trip(x),
            CodeActionProviderCapabilityModel::Options(x) => CodeActionOptions::lemma_round_trip(x),
        }
    }
}

/// Why a code action cannot currently be applied.
#[derive(Clone, Debug, Default, PartialEq, Eq)]
pub struct CodeActionDisabled {
    /// Human-readable description of why the code action is currently disabled.
    pub reason: String,
}

/// The mathematical value of a [`CodeActionDisabled`].
pub struct CodeActionDisabledModel {
    pub reason: Seq<char>,
}

impl CodeActionDisabled {
    /// The members that a value contributes to the object it is written in.
    pub open spec fn fields_json(m: CodeActionDisabledModel) -> Seq<(Seq<char>, JVal)> {
        member("reason"@, String::encode(m.reason))
    }

    /// Reads a value from the members of an object; other members are ignored.
    #[verifier::opaque]
    pub open spec fn fields_from(ms: Seq<(Seq<char>, JVal)>) -> Result<CodeActionDisabledModel, DecodeError> {
        match req_field::<String>(ms, "reason"@) {
            Err(e) => Err(e),
            Ok(reason) => {
                Ok(CodeActionDisabledModel { reason })
            },
        }
    }

    /// The models that values can have.
    pub open spec fn fields_valid(m: CodeActionDisabledModel) -> bool {
        &&& String::valid(m.reason)
    }

    /// The members of a value, written between members of other names, read back as the value.
    pub proof fn lemma_fields_round_trip(m: CodeActionDisabledModel, pre: Seq<(Seq<char>, JVal)>, post: Seq<(Seq<char>, JVal)>)
        requires
            Self::fields_valid(m),
            forall|k: Seq<char>| Self::uses_key(k) ==> (#[trigger] lookup(pre, k)) is None,
            forall|k: Seq<char>| Self::uses_key(k) ==> (#[trigger] lookup(post, k)) is None,
        ensures
            Self::fields_from(pre + Self::fields_json(m) + post) == Ok::<CodeActionDisabledModel, DecodeError>(m),
    {
        broadcast use group_lookup;
        reveal(CodeActionDisabled::fields_from);
        reveal_strlit("reason");
        assert("reason"@.len() == 6);
        String::lemma_round_trip(m.reason);
    }

    /// Members with names that the type does not read change nothing.
    pub proof fn lemma_unknown_key(ms: Seq<(Seq<char>, JVal)>, k: Seq<char>, v: JVal)
        requires
            !Self::uses_key(k),
        ensures
            Self::fields_from(ms + member(k, v)) == Self::fields_from(ms),
    {
        broadcast use group_lookup;
        reveal(CodeActionDisabled::fields_from);
    }

    /// The member names that the type reads.
    pub open spec fn uses_key(k: Seq<char>) -> bool {
        k == "reason"@
    }

    /// Appends the members of the value to an object under construction.
    pub fn write_fields(&self, ms: &mut Vec<(String, Json)>)
        ensures
            members(Json::Object(*final(ms))@) == members(Json::Object(*old(ms))@) + Self::fields_json(self.model()),
    {
        let ghost start = members(Json::Object(*ms)@);
        push_member(ms, "reason", self.reason.to_json());
        assert(members(Json::Object(*ms)@) =~= start + Self::fields_json(self.model()));
    }

    /// Reads a value from the members of an object.
    pub fn read_fields(ms: &Vec<(String, Json)>) -> (r: Result<Self, DecodeError>)
        ensures
            match r {
                Ok(v) => Self::fields_from(members(Json::Object(*ms)@)) == Ok::<CodeActionDisabledModel, DecodeError>(v.model()),
                Err(e) => Self::fields_from(members(Json::Object(*ms)@)) == Err::<CodeActionDisabledModel, DecodeError>(e),
            },
    {
        proof {
            reveal(CodeActionDisabled::fields_from);
        }
        let reason = match read_req::<String>(ms, "reason") {
            Ok(v) => v,
            Err(e) => return Err(e),
        };
        Ok(CodeActionDisabled { reason })
    }
}

impl JsonCodec for CodeActionDisabled {
    type Model = CodeActionDisabledModel;

    open spec fn model(&self) -> CodeActionDisabledModel {
        CodeActionDisabledModel {
            reason: self.reason.model(),
        }
    }

    open spec fn encode(m: CodeActionDisabledModel) -> JVal {
        JVal::Obj(Self::fields_json(m))
    }

    open spec fn decode(j: JVal) -> Result<CodeActionDisabledModel, DecodeError> {
        match j {
            JVal::Obj(ms) => Self::fields_from(ms),
            _ => Err(DecodeError::WrongShape),
        }
    }

    open spec fn valid(m: CodeActionDisabledModel) -> bool {
        Self::fields_valid(m)
    }

    fn to_json(&self) -> (r: Json) {
        let mut ms = new_object();
        self.write_fields(&mut ms);
        Json::Object(ms)
    }

    fn from_json(j: &Json) -> (r: Result<Self, DecodeError>) {
        match j {
            Json::Object(ms) => Self::read_fields(ms),
            _ => Err(DecodeError::WrongShape),
        }
    }

    proof fn lemma_round_trip(m: CodeActionDisabledModel) {
        Self::lemma_fields_round_trip(m, Seq::empty(), Seq::empty());
        assert(Seq::empty() + Self::fields_json(m) + Seq::empty() =~= Self::fields_json(m));
    }

}

/// The context in which a code action is requested.
#[derive(Clone, Debug, Default, PartialEq, Eq)]
pub struct CodeActionContext {
    /// The diagnostics at the range of the request.
    pub diagnostics: Vec<Diagnostic>,
    /// The kinds of actions to return; others are filtered out by the client.
    pub only: Option<Vec<CodeActionKind>>,
    /// Why code actions were requested.
    pub trigger_kind: Option<CodeActionTriggerKind>,
}

/// The mathematical value of a [`CodeActionContext`].
pub struct CodeActionContextModel {
    pub diagnostics: Seq<DiagnosticModel>,
    pub only: Option<Seq<Seq<char>>>,
    pub trigger_kind: Option<CodeActionTriggerKind>,
}

impl CodeActionContext {
    /// The members that a value contributes to the object it is written in.
    pub open spec fn fields_json(m: CodeActionContextModel) -> Seq<(Seq<char>, JVal)> {
        member("diagnostics"@, <Vec<Diagnostic>>::encode(m.diagnostics))
            + opt_member::<Vec<CodeActionKind>>("only"@, m.only)
            + opt_member::<CodeActionTriggerKind>("triggerKind"@, m.trigger_kind)
    }

    /// Reads a value from the members of an object; other members are ignored.
    #[verifier::opaque]
    pub open spec fn fields_from(ms: Seq<(Seq<char>, JVal)>) -> Result<CodeActionContextModel, DecodeError> {
        match req_field::<Vec<Diagnostic>>(ms, "diagnostics"@) {
            Err(e) => Err(e),
            Ok(diagnostics) => {
                match opt_field::<Vec<CodeActionKind>>(ms, "only"@) {
                    Err(e) => Err(e),
                    Ok(only) => {
                        match opt_field::<CodeActionTriggerKind>(ms, "triggerKind"@) {
                            Err(e) => Err(e),
                            Ok(trigger_kind) => {
                                Ok(CodeActionContextModel { diagnostics, only, trigger_kind })
                            },
                        }
                    },
                }
            },
        }
    }

    /// The models that values can have.
    pub open spec fn fields_valid(m: CodeActionContextModel) -> bool {
        &&& <Vec<Diagnostic>>::valid(m.diagnostics)
        &&& opt_valid::<Vec<CodeActionKind>>(m.only)
        &&& opt_valid::<CodeActionTriggerKind>(m.trigger_kind)
    }

    /// The members of a value, written between members of other names, read back as the value.
    pub proof fn lemma_fields_round_trip(m: CodeActionContextModel, pre: Seq<(Seq<char>, JVal)>, post: Seq<(Seq<char>, JVal)>)
        requires
            Self::fields_valid(m),
            forall|k: Seq<char>| Self::uses_key(k) ==> (#[trigger] lookup(pre, k)) is None,
            forall|k: Seq<char>| Self::uses_key(k) ==> (#[trigger] lookup(post, k)) is None,
        ensures
            Self::fields_from(pre + Self::fields_json(m) + post) == Ok::<CodeActionContextModel, DecodeError>(m),
    {
        broadcast use group_lookup;
        reveal(CodeActionContext::fields_from);
        reveal_strlit("diagnostics");
        reveal_strlit("only");
        reveal_strlit("triggerKind");
        assert("diagnostics"@.len() == 11);
        assert("only"@.len() == 4);
        assert("triggerKind"@.len() == 11);
        assert("diagnostics"@[0] != "triggerKind"@[0]);
        <Vec<Diagnostic>>::lemma_round_trip(m.diagnostics);
        if let Some(x) = m.only {
            <Vec<CodeActionKind>>::lemma_round_trip(x);
        }
        if let Some(x) = m.trigger_kind {
            CodeActionTriggerKind::lemma_round_trip(x);
        }
    }

    /// Members with names that the type does not read change nothing.
    pub proof fn lemma_unknown_key(ms: Seq<(Seq<char>, JVal)>, k: Seq<char>, v: JVal)
        requires
            !Self::uses_key(k),
        ensures
            Self::fields_from(ms + member(k, v)) == Self::fields_from(ms),
    {
        broadcast use group_lookup;
        reveal(CodeActionContext::fields_from);
    }

    /// The member names that the type reads.
    pub open spec fn uses_key(k: Seq<char>) -> bool {
        k == "diagnostics"@ || k == "only"@ || k == "triggerKind"@
    }

    /// Appends the members of the value to an object under construction.
    pub fn write_fields(&self, ms: &mut Vec<(String, Json)>)
        ensures
            members(Json::Object(*final(ms))@) == members(Json::Object(*old(ms))@) + Self::fields_json(self.model()),
    {
        let ghost start = members(Json::Object(*ms)@);
        let ghost m = self.model();
        push_member(ms, "diagnostics", self.diagnostics.to_json());
        push_opt(ms, "only", &self.only);
        proof {
            lemma_concat_associative(start, member("diagnostics"@, <Vec<Diagnostic>>::encode(m.diagnostics)), opt_member::<Vec<CodeActionKind>>("only"@, m.only));
        }
        push_opt(ms, "triggerKind", &self.trigger_kind);
        proof {
            lemma_concat_associative(start, member("diagnostics"@, <Vec<Diagnostic>>::encode(m.diagnostics)) + opt_member::<Vec<CodeActionKind>>("only"@, m.only), opt_member::<CodeActionTriggerKind>("triggerKind"@, m.trigger_kind));
        }
    }

    /// Reads a value from the members of an object.
    pub fn read_fields(ms: &Vec<(String, Json)>) -> (r: Result<Self, DecodeError>)
        ensures
            match r {
                Ok(v) => Self::fields_from(members(Json::Object(*ms)@)) == Ok::<CodeActionContextModel, DecodeError>(v.model()),
                Err(e) => Self::fields_from(members(Json::Object(*ms)@)) == Err::<CodeActionContextModel, DecodeError>(e),
            },
    {
        proof {
            reveal(CodeActionContext::fields_from);
        }
        let diagnostics = match read_req::<Vec<Diagnostic>>(ms, "diagnostics") {
            Ok(v) => v,
            Err(e) => return Err(e),
        };
        let only = match read_opt::<Vec<CodeActionKind>>(ms, "only") {
            Ok(v) => v,
            Err(e) => return Err(e),
        };
        let trigger_kind = match read_opt::<CodeActionTriggerKind>(ms, "triggerKind") {
            Ok(v) => v,
            Err(e) => return Err(e),
        };
        Ok(CodeActionContext { diagnostics, only, trigger_kind })
    }
}

impl JsonCodec for CodeActionContext {
    type Model = CodeActionContextModel;

    open spec fn model(&self) -> CodeActionContextModel {
        CodeActionContextModel {
            diagnostics: self.diagnostics.model(),
            only: self.only.model(),
            trigger_kind: self.trigger_kind.model(),
        }
    }

    open spec fn encode(m: CodeActionContextModel) -> JVal {
        JVal::Obj(Self::fields_json(m))
    }

    open spec fn decode(j: JVal) -> Result<CodeActionContextModel, DecodeError> {
        match j {
            JVal::Obj(ms) => Self::fields_from(ms),
            _ => Err(DecodeError::WrongShape),
        }
    }

    open spec fn valid(m: CodeActionContextModel) -> bool {
        Self::fields_valid(m)
    }

    fn to_json(&self) -> (r: Json) {
        let mut ms = new_object();
        self.write_fields(&mut ms);
        Json::Object(ms)
    }

    fn from_json(j: &Json) -> (r: Result<Self, DecodeError>) {
        match j {
            Json::Object(ms) => Self::read_fields(ms),
            _ => Err(DecodeError::WrongShape),
        }
    }

    proof fn lemma_round_trip(m: CodeActionContextModel) {
        Self::lemma_fields_round_trip(m, Seq::empty(), Seq::empty());
        assert(Seq::empty() + Self::fields_json(m) + Seq::empty() =~= Self::fields_json(m));
    }

}

/// Parameters of the `textDocument/codeAction` request.
#[derive(Clone, Debug, PartialEq, Eq)]
pub struct CodeActionParams {
    /// The document in which the command was invoked.
    pub text_document: TextDocumentIdentifier,
    /// The range for which the command was invoked.
    pub range: Range,
    /// Context carrying additional information.
    pub context: CodeActionContext,
    pub work_done_progress_params: WorkDoneProgressParams,
    pub partial_result_params: PartialResultParams,
}

/// The mathematical value of a [`CodeActionParams`].
pub struct CodeActionParamsModel {
    pub text_document: TextDocumentIdentifierModel,
    pub range: Range,
    pub context: CodeActionContextModel,
    pub work_done_progress_params: WorkDoneProgressParamsModel,
    pub partial_result_params: PartialResultParamsModel,
}

impl CodeActionParams {
    /// The members that a value contributes to the object it is written in.
    pub open spec fn fields_json(m: CodeActionParamsModel) -> Seq<(Seq<char>, JVal)> {
        member("textDocument"@, TextDocumentIdentifier::encode(m.text_document))
            + member("range"@, Range::encode(m.range))
            + member("context"@, CodeActionContext::encode(m.context))
            + WorkDoneProgressParams::fields_json(m.work_done_progress_params)
            + PartialResultParams::fields_json(m.partial_result_params)
    }

    /// Reads a value from the members of an object; other members are ignored.
    #[verifier::opaque]
    pub open spec fn fields_from(ms: Seq<(Seq<char>, JVal)>) -> Result<CodeActionParamsModel, DecodeError> {
        match req_field::<TextDocumentIdentifier>(ms, "textDocument"@) {
            Err(e) => Err(e),
            Ok(text_document) => {
                match req_field::<Range>(ms, "range"@) {
                    Err(e) => Err(e),
                    Ok(range) => {
                        match req_field::<CodeActionContext>(ms, "context"@) {
                            Err(e) => Err(e),
                            Ok(context) => {
                                match WorkDoneProgressParams::fields_from(ms) {
                                    Err(e) => Err(e),
                                    Ok(work_done_progress_params) => {
                                        match PartialResultParams::fields_from(ms) {
                                            Err(e) => Err(e),
                                            Ok(partial_result_params) => {
                                                Ok(CodeActionParamsModel { text_document, range, context, work_done_progress_params, partial_result_params })
                                            },
                                        }
                                    },
                                }
                            },
                        }
                    },
                }
            },
        }
    }

    /// The models that values can have.
    pub open spec fn fields_valid(m: CodeActionParamsModel) -> bool {
        &&& TextDocumentIdentifier::valid(m.text_document)
        &&& Range::valid(m.range)
        &&& CodeActionContext::valid(m.context)
        &&& WorkDoneProgressParams::fields_valid(m.work_done_progress_params)
        &&& PartialResultParams::fields_valid(m.partial_result_params)
    }

    /// The members of a value, written between members of other names, read back as the value.
    pub proof fn lemma_fields_round_trip(m: CodeActionParamsModel, pre: Seq<(Seq<char>, JVal)>, post: Seq<(Seq<char>, JVal)>)
        requires
            Self::fields_valid(m),
            forall|k: Seq<char>| Self::uses_key(k) ==> (#[trigger] lookup(pre, k)) is None,
            forall|k: Seq<char>| Self::uses_key(k) ==> (#[trigger] lookup(post, k)) is None,
        ensures
            Self::fields_from(pre + Self::fields_json(m) + post) == Ok::<CodeActionParamsModel, DecodeError>(m),
    {
        broadcast use group_lookup;
        reveal(CodeActionParams::fields_from);
        reveal_strlit("textDocument");
        reveal_strlit("range");
        reveal_strlit("context");
        reveal_strlit("workDoneToken");
        reveal_strlit("partialResultToken");
        assert("textDocument"@.len() == 12);
        assert("range"@.len() == 5);
        assert("context"@.len() == 7);
        assert("workDoneToken"@.len() == 13);
        assert("partialResultToken"@.len() == 18);
        TextDocumentIdentifier::lemma_round_trip(m.text_document);
        Range::lemma_round_trip(m.range);
        CodeActionContext::lemma_round_trip(m.context);
        let before = pre + member("textDocument"@, TextDocumentIdentifier::encode(m.text_document)) + member("range"@, Range::encode(m.range)) + member("context"@, CodeActionContext::encode(m.context));
        let after = PartialResultParams::fields_json(m.partial_result_params) + post;
        WorkDoneProgressParams::lemma_fields_round_trip(m.work_done_progress_params, before, after);
        assert(pre + Self::fields_json(m) + post =~= before + WorkDoneProgressParams::fields_json(m.work_done_progress_params) + after);
        let before = pre + member("textDocument"@, TextDocumentIdentifier::encode(m.text_document)) + member("range"@, Range::encode(m.range)) + member("context"@, CodeActionContext::encode(m.context)) + WorkDoneProgressParams::fields_json(m.work_done_progress_params);
        let after = post;
        PartialResultParams::lemma_fields_round_trip(m.partial_result_params, before, after);
        assert(pre + Self::fields_json(m) + post =~= before + PartialResultParams::fields_json(m.partial_result_params) + after);
    }

    /// Members with names that the type does not read change nothing.
    pub proof fn lemma_unknown_key(ms: Seq<(Seq<char>, JVal)>, k: Seq<char>, v: JVal)
        requires
            !Self::uses_key(k),
        ensures
            Self::fields_from(ms + member(k, v)) == Self::fields_from(ms),
    {
        broadcast use group_lookup;
        reveal(CodeActionParams::fields_from);
        WorkDoneProgressParams::lemma_unknown_key(ms, k, v);
        PartialResultParams::lemma_unknown_key(ms, k, v);
    }

    /// The member names that the type reads.
    pub open spec fn uses_key(k: Seq<char>) -> bool {
        k == "textDocument"@ || k == "range"@ || k == "context"@ || WorkDoneProgressParams::uses_key(k) || PartialResultParams::uses_key(k)
    }

    /// Appends the members of the value to an object under construction.
    pub fn write_fields(&self, ms: &mut Vec<(String, Json)>)
        ensures
            members(Json::Object(*final(ms))@) == members(Json::Object(*old(ms))@) + Self::fields_json(self.model()),
    {
        let ghost start = members(Json::Object(*ms)@);
        let ghost m = self.model();
        push_member(ms, "textDocument", self.text_document.to_json());
        push_member(ms, "range", self.range.to_json());
        proof {
            lemma_concat_associative(start, member("textDocument"@, TextDocumentIdentifier::encode(m.text_document)), member("range"@, Range::encode(m.range)));
        }
        push_member(ms, "context", self.context.to_json());
        proof {
            lemma_concat_associative(start, member("textDocument"@, TextDocumentIdentifier::encode(m.text_document)) + member("range"@, Range::encode(m.range)), member("context"@, CodeActionContext::encode(m.context)));
        }
        self.work_done_progress_params.write_fields(ms);
        proof {
            lemma_concat_associative(start, member("textDocument"@, TextDocumentIdentifier::encode(m.text_document)) + member("range"@, Range::encode(m.range)) + member("context"@, CodeActionContext::encode(m.context)), WorkDoneProgressParams::fields_json(m.work_done_progress_params));
        }
        self.partial_result_params.write_fields(ms);
        proof {
            lemma_concat_associative(start, member("textDocument"@, TextDocumentIdentifier::encode(m.text_document)) + member("range"@, Range::encode(m.range)) + member("context"@, CodeActionContext::encode(m.context)) + WorkDoneProgressParams::fields_json(m.work_done_progress_params), PartialResultParams::fields_json(m.partial_result_params));
        }
    }

    /// Reads a value from the members of an object.
    pub fn read_fields(ms: &Vec<(String, Json)>) -> (r: Result<Self, DecodeError>)
        ensures
            match r {
                Ok(v) => Self::fields_from(members(Json::Object(*ms)@)) == Ok::<CodeActionParamsModel, DecodeError>(v.model()),
                Err(e) => Self::fields_from(members(Json::Object(*ms)@)) == Err::<CodeActionParamsModel, DecodeError>(e),
            },
    {
        proof {
            reveal(CodeActionParams::fields_from);
        }
        let text_document = match read_req::<TextDocumentIdentifier>(ms, "textDocument") {
            Ok(v) => v,
            Err(e) => return Err(e),
        };
        let range = match read_req::<Range>(ms, "range") {
            Ok(v) => v,
            Err(e) => return Err(e),
        };
        let context = match read_req::<CodeActionContext>(ms, "context") {
            Ok(v) => v,
            Err(e) => return Err(e),
        };
        let work_done_progress_params = match WorkDoneProgressParams::read_fields(ms) {
            Ok(v) => v,
            Err(e) => return Err(e),
        };
        let partial_result_params = match PartialResultParams::read_fields(ms) {
            Ok(v) => v,
            Err(e) => return Err(e),
        };
        Ok(CodeActionParams { text_document, range, context, work_done_progress_params, partial_result_params })
    }
}

impl JsonCodec for CodeActionParams {
    type Model = CodeActionParamsModel;

    open spec fn model(&self) -> CodeActionParamsModel {
        CodeActionParamsModel {
            text_document: self.text_document.model(),
            range: self.range.model(),
            context: self.context.model(),
            work_done_progress_params: self.work_done_progress_params.model(),
            partial_result_params: self.partial_result_params.model(),
        }
    }

    open spec fn encode(m: CodeActionParamsModel) -> JVal {
        JVal::Obj(Self::fields_json(m))
    }

    open spec fn decode(j: JVal) -> Result<CodeActionParamsModel, DecodeError> {
        match j {
            JVal::Obj(ms) => Self::fields_from(ms),
            _ => Err(DecodeError::WrongShape),
        }
    }

    open spec fn valid(m: CodeActionParamsModel) -> bool {
        Self::fields_valid(m)
    }

    fn to_json(&self) -> (r: Json) {
        let mut ms = new_object();
        self.write_fields(&mut ms);
        Json::Object(ms)
    }

    fn from_json(j: &Json) -> (r: Result<Self, DecodeError>) {
        match j {
            Json::Object(ms) => Self::read_fields(ms),
            _ => Err(DecodeError::WrongShape),
        }
    }

    proof fn lemma_round_trip(m: CodeActionParamsModel) {
        Self::lemma_fields_round_trip(m, Seq::empty(), Seq::empty());
        assert(Seq::empty() + Self::fields_json(m) + Seq::empty() =~= Self::fields_json(m));
    }

}

/// A change that can be performed in code, such as a fix or a refactoring.
#[derive(Clone, Debug, Default, PartialEq, Eq)]
pub struct CodeAction {
    /// A short, human-readable title for this code action.
    pub title: String,
    /// The kind of the code action, used to filter code actions.
    pub kind: Option<CodeActionKind>,
    /// The diagnostics that this code action resolves.
    pub diagnostics: Option<Vec<Diagnostic>>,
    /// The workspace edit this code action performs.
    pub edit: Option<WorkspaceEdit>,
    /// A command this code action executes, after the edit.
    pub command: Option<Command>,
    /// Marks this as a preferred action.
    pub is_preferred: Option<bool>,
    /// Marks that the code action cannot currently be applied.
    pub disabled: Option<CodeActionDisabled>,
    /// Data preserved between a code action request and its resolve request.
    pub data: Option<Json>,
}

/// The mathematical value of a [`CodeAction`].
pub struct CodeActionModel {
    pub title: Seq<char>,
    pub kind: Option<Seq<char>>,
    pub diagnostics: Option<Seq<DiagnosticModel>>,
    pub edit: Option<WorkspaceEditModel>,
    pub command: Option<CommandModel>,
    pub is_preferred: Option<bool>,
    pub disabled: Option<CodeActionDisabledModel>,
    pub data: Option<JVal>,
}

impl CodeAction {
    /// The members that a value contributes to the object it is written in.
    pub open spec fn fields_json(m: CodeActionModel) -> Seq<(Seq<char>, JVal)> {
        member("title"@, String::encode(m.title))
            + opt_member::<CodeActionKind>("kind"@, m.kind)
            + opt_member::<Vec<Diagnostic>>("diagnostics"@, m.diagnostics)
            + opt_member::<WorkspaceEdit>("edit"@, m.edit)
            + opt_member::<Command>("command"@, m.command)
            + opt_member::<bool>("isPreferred"@, m.is_preferred)
            + opt_member::<CodeActionDisabled>("disabled"@, m.disabled)
            + opt_member::<Json>("data"@, m.data)
    }

    /// Reads a value from the members of an object; other members are ignored.
    #[verifier::opaque]
    pub open spec fn fields_from(ms: Seq<(Seq<char>, JVal)>) -> Result<CodeActionModel, DecodeError> {
        match req_field::<String>(ms, "title"@) {
            Err(e) => Err(e),
            Ok(title) => {
                match opt_field::<CodeActionKind>(ms, "kind"@) {
                    Err(e) => Err(e),
                    Ok(kind) => {
                        match opt_field::<Vec<Diagnostic>>(ms, "diagnostics"@) {
                            Err(e) => Err(e),
                            Ok(diagnostics) => {
                                match opt_field::<WorkspaceEdit>(ms, "edit"@) {
                                    Err(e) => Err(e),
                                    Ok(edit) => {
                                        match opt_field::<Command>(ms, "command"@) {
                                            Err(e) => Err(e),
                                            Ok(command) => {
                                                match opt_field::<bool>(ms, "isPreferred"@) {
                                                    Err(e) => Err(e),
                                                    Ok(is_preferred) => {
                                                        match opt_field::<CodeActionDisabled>(ms, "disabled"@) {
                                                            Err(e) => Err(e),
                                                            Ok(disabled) => {
                                                                match opt_field::<Json>(ms, "data"@) {
                                                                    Err(e) => Err(e),
                                                                    Ok(data) => {
                                                                        Ok(CodeActionModel { title, kind, diagnostics, edit, command, is_preferred, disabled, data })
                                                                    },
                                                                }
                                                            },
                                                        }
                                                    },
                                                }
                                            },
                                        }
                                    },
                                }
                            },
                        }
                    },
                }
            },
        }
    }

    /// The models that values can have.
    pub open spec fn fields_valid(m: CodeActionModel) -> bool {
        &&& String::valid(m.title)
        &&& opt_valid::<CodeActionKind>(m.kind)
        &&& opt_valid::<Vec<Diagnostic>>(m.diagnostics)
        &&& opt_valid::<WorkspaceEdit>(m.edit)
        &&& opt_valid::<Command>(m.command)
        &&& opt_valid::<bool>(m.is_preferred)
        &&& opt_valid::<CodeActionDisabled>(m.disabled)
        &&& opt_valid::<Json>(m.data)
    }

    /// The members of a value, written between members of other names, read back as the value.
    pub proof fn lemma_fields_round_trip(m: CodeActionModel, pre: Seq<(Seq<char>, JVal)>, post: Seq<(Seq<char>, JVal)>)
        requires
            Self::fields_valid(m),
            forall|k: Seq<char>| Self::uses_key(k) ==> (#[trigger] lookup(pre, k)) is None,
            forall|k: Seq<char>| Self::uses_key(k) ==> (#[trigger] lookup(post, k)) is None,
        ensures
            Self::fields_from(pre + Self::fields_json(m) + post) == Ok::<CodeActionModel, DecodeError>(m),
    {
        broadcast use group_lookup;
        reveal(CodeAction::fields_from);
        reveal_strlit("title");
        reveal_strlit("kind");
        reveal_strlit("diagnostics");
        reveal_strlit("edit");
        reveal_strlit("command");
        reveal_strlit("isPreferred");
        reveal_strlit("disabled");
        reveal_strlit("data");
        assert("title"@.len() == 5);
        assert("kind"@.len() == 4);
        assert("diagnostics"@.len() == 11);
        assert("edit"@.len() == 4);
        assert("command"@.len() == 7);
        assert("isPreferred"@.len() == 11);
        assert("disabled"@.len() == 8);
        assert("data"@.len() == 4);
        assert("kind"@[0] != "edit"@[0]);
        assert("kind"@[0] != "data"@[0]);
        assert("diagnostics"@[0] != "isPreferred"@[0]);
        assert("edit"@[0] != "data"@[0]);
        String::lemma_round_trip(m.title);
        if let Some(x) = m.kind {
            CodeActionKind::lemma_round_trip(x);
        }
        if let Some(x) = m.diagnostics {
            <Vec<Diagnostic>>::lemma_round_trip(x);
        }
        if let Some(x) = m.edit {
            WorkspaceEdit::lemma_round_trip(x);
        }
        if let Some(x) = m.command {
            Command::lemma_round_trip(x);
        }
        if let Some(x) = m.is_preferred {
            bool::lemma_round_trip(x);
        }
        if let Some(x) = m.disabled {
            CodeActionDisabled::lemma_round_trip(x);
        }
        if let Some(x) = m.data {
            Json::lemma_round_trip(x);
        }
    }

    /// Members with names that the type does not read change nothing.
    pub proof fn lemma_unknown_key(ms: Seq<(Seq<char>, JVal)>, k: Seq<char>, v: JVal)
        requires
            !Self::uses_key(k),
        ensures
            Self::fields_from(ms + member(k, v)) == Self::fields_from(ms),
    {
        broadcast use group_lookup;
        reveal(CodeAction::fields_from);
    }

    /// The member names that the type reads.
    pub open spec fn uses_key(k: Seq<char>) -> bool {
        k == "title"@ || k == "kind"@ || k == "diagnostics"@ || k == "edit"@ || k == "command"@ || k == "isPreferred"@ || k == "disabled"@ || k == "data"@
    }

    /// Appends the members of the value to an object under construction.
    pub fn write_fields(&self, ms: &mut Vec<(String, Json)>)
        ensures
            members(Json::Object(*final(ms))@) == members(Json::Object(*old(ms))@) + Self::fields_json(self.model()),
    {
        let ghost start = members(Json::Object(*ms)@);
        let ghost m = self.model();
        push_member(ms, "title", self.title.to_json());
        push_opt(ms, "kind", &self.kind);
        proof {
            lemma_concat_associative(start, member("title"@, String::encode(m.title)), opt_member::<CodeActionKind>("kind"@, m.kind));
        }
        push_opt(ms, "diagnostics", &self.diagnostics);
        proof {
            lemma_concat_associative(start, member("title"@, String::encode(m.title)) + opt_member::<CodeActionKind>("kind"@, m.kind), opt_member::<Vec<Diagnostic>>("diagnostics"@, m.diagnostics));
        }
        push_opt(ms, "edit", &self.edit);
        proof {
            lemma_concat_associative(start, member("title"@, String::encode(m.title)) + opt_member::<CodeActionKind>("kind"@, m.kind) + opt_member::<Vec<Diagnostic>>("diagnostics"@, m.diagnostics), opt_member::<WorkspaceEdit>("edit"@, m.edit));
        }
        push_opt(ms, "command", &self.command);
        proof {
            lemma_concat_associative(start, member("title"@, String::encode(m.title)) + opt_member::<CodeActionKind>("kind"@, m.kind) + opt_member::<Vec<Diagnostic>>("diagnostics"@, m.diagnostics) + opt_member::<WorkspaceEdit>("edit"@, m.edit), opt_member::<Command>("command"@, m.command));
        }
        push_opt(ms, "isPreferred", &self.is_preferred);
        proof {
            lemma_concat_associative(start, member("title"@, String::encode(m.title)) + opt_member::<CodeActionKind>("kind"@, m.kind) + opt_member::<Vec<Diagnostic>>("diagnostics"@, m.diagnostics) + opt_member::<WorkspaceEdit>("edit"@, m.edit) + opt_member::<Command>("command"@, m.command), opt_member::<bool>("isPreferred"@, m.is_preferred));
        }
        push_opt(ms, "disabled", &self.disabled);
        proof {
            lemma_concat_associative(start, member("title"@, String::encode(m.title)) + opt_member::<CodeActionKind>("kind"@, m.kind) + opt_member::<Vec<Diagnostic>>("diagnostics"@, m.diagnostics) + opt_member::<WorkspaceEdit>("edit"@, m.edit) + opt_member::<Command>("command"@, m.command) + opt_member::<bool>("isPreferred"@, m.is_preferred), opt_member::<CodeActionDisabled>("disabled"@, m.disabled));
        }
        push_opt(ms, "data", &self.data);
        proof {
            lemma_concat_associative(start, member("title"@, String::encode(m.title)) + opt_member::<CodeActionKind>("kind"@, m.kind) + opt_member::<Vec<Diagnostic>>("diagnostics"@, m.diagnostics) + opt_member::<WorkspaceEdit>("edit"@, m.edit) + opt_member::<Command>("command"@, m.command) + opt_member::<bool>("isPreferred"@, m.is_preferred) + opt_member::<CodeActionDisabled>("disabled"@, m.disabled), opt_member::<Json>("data"@, m.data));
        }
    }

    /// Reads a value from the members of an object.
    pub fn read_fields(ms: &Vec<(String, Json)>) -> (r: Result<Self, DecodeError>)
        ensures
            match r {
                Ok(v) => Self::fields_from(members(Json::Object(*ms)@)) == Ok::<CodeActionModel, DecodeError>(v.model()),
                Err(e) => Self::fields_from(members(Json::Object(*ms)@)) == Err::<CodeActionModel, DecodeError>(e),
            },
    {
        proof {
            reveal(CodeAction::fields_from);
        }
        let title = match read_req::<String>(ms, "title") {
            Ok(v) => v,
            Err(e) => return Err(e),
        };
        let kind = match read_opt::<CodeActionKind>(ms, "kind") {
            Ok(v) => v,
            Err(e) => return Err(e),
        };
        let diagnostics = match read_opt::<Vec<Diagnostic>>(ms, "diagnostics") {
            Ok(v) => v,
            Err(e) => return Err(e),
        };
        let edit = match read_opt::<WorkspaceEdit>(ms, "edit") {
            Ok(v) => v,
            Err(e) => return Err(e),
        };
        let command = match read_opt::<Command>(ms, "command") {
            Ok(v) => v,
            Err(e) => return Err(e),
        };
        let is_preferred = match read_opt::<bool>(ms, "isPreferred") {
            Ok(v) => v,
            Err(e) => return Err(e),
        };
        let disabled = match read_opt::<CodeActionDisabled>(ms, "disabled") {
            Ok(v) => v,
            Err(e) => return Err(e),
        };
        let data = match read_opt::<Json>(ms, "data") {
            Ok(v) => v,
            Err(e) => return Err(e),
        };
        Ok(CodeAction { title, kind, diagnostics, edit, command, is_preferred, disabled, data })
    }
}

impl JsonCodec for CodeAction {
    type Model = CodeActionModel;

    open spec fn model(&self) -> CodeActionModel {
        CodeActionModel {
            title: self.title.model(),
            kind: self.kind.model(),
            diagnostics: self.diagnostics.model(),
            edit: self.edit.model(),
            command: self.command.model(),
            is_preferred: self.is_preferred.model(),
            disabled: self.disabled.model(),
            data: self.data.model(),
        }
    }

    open spec fn encode(m: CodeActionModel) -> JVal {
        JVal::Obj(Self::fields_json(m))
    }

    open spec fn decode(j: JVal) -> Result<CodeActionModel, DecodeError> {
        match j {
            JVal::Obj(ms) => Self::fields_from(ms),
            _ => Err(DecodeError::WrongShape),
        }
    }

    open spec fn valid(m: CodeActionModel) -> bool {
        Self::fields_valid(m)
    }

    fn to_json(&self) -> (r: Json) {
        let mut ms = new_object();
        self.write_fields(&mut ms);
        Json::Object(ms)
    }

    fn from_json(j: &Json) -> (r: Result<Self, DecodeError>) {
        match j {
            Json::Object(ms) => Self::read_fields(ms),
            _ => Err(DecodeError::WrongShape),
        }
    }

    proof fn lemma_round_trip(m: CodeActionModel) {
        Self::lemma_fields_round_trip(m, Seq::empty(), Seq::empty());
        assert(Seq::empty() + Self::fields_json(m) + Seq::empty() =~= Self::fields_json(m));
    }

}

/// An element of a code action response: a bare command or a code action.
#[derive(Clone, Debug, PartialEq, Eq)]
pub enum CodeActionOrCommand {
    Command(Command),
    CodeAction(Box<CodeAction>),
}

/// The mathematical value of a [`CodeActionOrCommand`].
pub enum CodeActionOrCommandModel {
    Command(CommandModel),
    CodeAction(CodeActionModel),
}

/// Written as the variant's own encoding; decoding tries the variants in order.
impl JsonCodec for CodeActionOrCommand {
    type Model = CodeActionOrCommandModel;

    open spec fn model(&self) -> CodeActionOrCommandModel {
        match self {
            CodeActionOrCommand::Command(x) => CodeActionOrCommandModel::Command(x.model()),
            CodeActionOrCommand::CodeAction(x) => CodeActionOrCommandModel::CodeAction(x.model()),
        }
    }

    open spec fn encode(m: CodeActionOrCommandModel) -> JVal {
        match m {
            CodeActionOrCommandModel::Command(x) => Command::encode(x),
            CodeActionOrCommandModel::CodeAction(x) => <Box<CodeAction>>::encode(x),
        }
    }

    open spec fn decode(j: JVal) -> Result<CodeActionOrCommandModel, DecodeError> {
        match Command::decode(j) {
            Ok(x) => Ok(CodeActionOrCommandModel::Command(x)),
            Err(_) => {
                match <Box<CodeAction>>::decode(j) {
                    Ok(x) => Ok(CodeActionOrCommandModel::CodeAction(x)),
                    Err(_) => {
                        Err(DecodeError::WrongShape)
                    },
                }
            },
        }
    }

    /// A variant is read back only where no earlier variant accepts its encoding.
    open spec fn valid(m: CodeActionOrCommandModel) -> bool {
        match m {
            CodeActionOrCommandModel::Command(x) => Command::valid(x),
            CodeActionOrCommandModel::CodeAction(x) => <Box<CodeAction>>::valid(x) && Command::decode(<Box<CodeAction>>::encode(x)) is Err,
        }
    }

    fn to_json(&self) -> (r: Json) {
        match self {
            CodeActionOrCommand::Command(x) => x.to_json(),
            CodeActionOrCommand::CodeAction(x) => x.to_json(),
        }
    }

    fn from_json(j: &Json) -> (r: Result<CodeActionOrCommand, DecodeError>) {
        if let Ok(x) = Command::from_json(j) {
            return Ok(CodeActionOrCommand::Command(x));
        }
        if let Ok(x) = <Box<CodeAction>>::from_json(j) {
            return Ok(CodeActionOrCommand::CodeAction(x));
        }
        Err(DecodeError::WrongShape)
    }

    proof fn lemma_round_trip(m: CodeActionOrCommandModel) {
        match m {
            CodeActionOrCommandModel::Command(x) => Command::lemma_round_trip(x),
            CodeActionOrCommandModel::CodeAction(x) => <Box<CodeAction>>::lemma_round_trip(x),
        }
    }
}

} // verus!
