//! Requests and notifications: initialization, registration, document synchronization and navigation.

use vstd::prelude::*;
use vstd::seq_lib::lemma_concat_associative;
use crate::json::{group_lookup, lookup, member, members, new_object, nullable_field, opt_field, opt_member, opt_valid, push_member, push_opt, read_nullable, read_opt, read_req, req_field, DecodeError, JVal, Json, JsonCodec};
use crate::basic::{Diagnostic, DiagnosticModel, Either, Location, LocationLink, LocationLinkModel, LocationModel, OneOf, PartialResultParams, PartialResultParamsModel, Range, TextDocumentIdentifier, TextDocumentIdentifierModel, TextDocumentItem, TextDocumentItemModel, TextDocumentPositionParams, TextDocumentPositionParamsModel, VersionedTextDocumentIdentifier, VersionedTextDocumentIdentifierModel, WorkDoneProgressParams, WorkDoneProgressParamsModel, WorkspaceFolder, WorkspaceFolderModel};
use crate::capabilities::{ClientCapabilities, ClientCapabilitiesModel, DefinitionOptions, ExecuteCommandOptions, ExecuteCommandOptionsModel, ReferenceOptions, TextDocumentSyncCapability, TextDocumentSyncCapabilityModel, WorkspaceServerCapabilities, WorkspaceServerCapabilitiesModel};
use crate::code_action::{CodeActionProviderCapability, CodeActionProviderCapabilityModel};
use crate::kinds::{DocumentHighlightKind, FileChangeType, TextDocumentSaveReason, WatchKind};
use crate::tags::{PositionEncodingKind, TraceValue};
use crate::uri::Uri;

verus! {

/// Information about the client.
#[derive(Clone, Debug, PartialEq, Eq)]
pub struct ClientInfo {
    /// The name of the client as defined by the client.
    pub name: String,
    /// The client's version as defined by the client.
    pub version: Option<String>,
}

/// The mathematical value of a [`ClientInfo`].
pub struct ClientInfoModel {
    pub name: Seq<char>,
    pub version: Option<Seq<char>>,
}

impl ClientInfo {
    /// The members that a value contributes to the object it is written in.
    pub open spec fn fields_json(m: ClientInfoModel) -> Seq<(Seq<char>, JVal)> {
        member("name"@, String::encode(m.name))
            + opt_member::<String>("version"@, m.version)
    }

    /// Reads a value from the members of an object; other members are ignored.
    #[verifier::opaque]
    pub open spec fn fields_from(ms: Seq<(Seq<char>, JVal)>) -> Result<ClientInfoModel, DecodeError> {
        match req_field::<String>(ms, "name"@) {
            Err(e) => Err(e),
            Ok(name) => {
                match opt_field::<String>(ms, "version"@) {
                    Err(e) => Err(e),
                    Ok(version) => {
                        Ok(ClientInfoModel { name, version })
                    },
                }
            },
        }
    }

    /// The models that values can have.
    pub open spec fn fields_valid(m: ClientInfoModel) -> bool {
        &&& String::valid(m.name)
        &&& opt_valid::<String>(m.version)
    }

    /// The members of a value, written between members of other names, read back as the value.
    pub proof fn lemma_fields_round_trip(m: ClientInfoModel, pre: Seq<(Seq<char>, JVal)>, post: Seq<(Seq<char>, JVal)>)
        requires
            Self::fields_valid(m),
            forall|k: Seq<char>| Self::uses_key(k) ==> (#[trigger] lookup(pre, k)) is None,
            forall|k: Seq<char>| Self::uses_key(k) ==> (#[trigger] lookup(post, k)) is None,
        ensures
            Self::fields_from(pre + Self::fields_json(m) + post) == Ok::<ClientInfoModel, DecodeError>(m),
    {
        broadcast use group_lookup;
        reveal(ClientInfo::fields_from);
        reveal_strlit("name");
        reveal_strlit("version");
        assert("name"@.len() == 4);
        assert("version"@.len() == 7);
        String::lemma_round_trip(m.name);
        if let Some(x) = m.version {
            String::lemma_round_trip(x);
        }
    }

    /// Members with names that the type does not read change nothing.
    pub proof fn lemma_unknown_key(ms: Seq<(Seq<char>, JVal)>, k: Seq<char>, v: JVal)
        requires
            !Self::uses_key(k),
        ensures
            Self::fields_from(ms + member(k, v)) == Self::fields_from(ms),
    {
        broadcast use group_lookup;
        reveal(ClientInfo::fields_from);
    }

    /// The member names that the type reads.
    pub open spec fn uses_key(k: Seq<char>) -> bool {
        k == "name"@ || k == "version"@
    }

    /// Appends the members of the value to an object under construction.
    pub fn write_fields(&self, ms: &mut Vec<(String, Json)>)
        ensures
            members(Json::Object(*final(ms))@) == members(Json::Object(*old(ms))@) + Self::fields_json(self.model()),
    {
        let ghost start = members(Json::Object(*ms)@);
        let ghost m = self.model();
        push_member(ms, "name", self.name.to_json());
        push_opt(ms, "version", &self.version);
        proof {
            lemma_concat_associative(start, member("name"@, String::encode(m.name)), opt_member::<String>("version"@, m.version));
        }
    }

    /// Reads a value from the members of an object.
    pub fn read_fields(ms: &Vec<(String, Json)>) -> (r: Result<Self, DecodeError>)
        ensures
            match r {
                Ok(v) => Self::fields_from(members(Json::Object(*ms)@)) == Ok::<ClientInfoModel, DecodeError>(v.model()),
                Err(e) => Self::fields_from(members(Json::Object(*ms)@)) == Err::<ClientInfoModel, DecodeError>(e),
            },
    {
        proof {
            reveal(ClientInfo::fields_from);
        }
        let name = match read_req::<String>(ms, "name") {
            Ok(v) => v,
            Err(e) => return Err(e),
        };
        let version = match read_opt::<String>(ms, "version") {
            Ok(v) => v,
            Err(e) => return Err(e),
        };
        Ok(ClientInfo { name, version })
    }
}

impl JsonCodec for ClientInfo {
    type Model = ClientInfoModel;

    open spec fn model(&self) -> ClientInfoModel {
        ClientInfoModel {
            name: self.name.model(),
            version: self.version.model(),
        }
    }

    open spec fn encode(m: ClientInfoModel) -> JVal {
        JVal::Obj(Self::fields_json(m))
    }

    open spec fn decode(j: JVal) -> Result<ClientInfoModel, DecodeError> {
        match j {
            JVal::Obj(ms) => Self::fields_from(ms),
            _ => Err(DecodeError::WrongShape),
        }
    }

    open spec fn valid(m: ClientInfoModel) -> bool {
        Self::fields_valid(m)
    }

    fn to_json(&self) -> (r: Json) {
        let mut ms = new_object();
        self.write_fields(&mut ms);
        Json::Object(ms)
    }

    fn from_json(j: &Json) -> (r: Result<Self, DecodeError>) {
        match j {
            Json::Object(ms) => Self::read_fields(ms),
            _ => Err(DecodeError::WrongShape),
        }
    }

    proof fn lemma_round_trip(m: ClientInfoModel) {
        Self::lemma_fields_round_trip(m, Seq::empty(), Seq::empty());
        assert(Seq::empty() + Self::fields_json(m) + Seq::empty() =~= Self::fields_json(m));
    }

}

/// Information about the server.
#[derive(Clone, Debug, Default, PartialEq, Eq)]
pub struct ServerInfo {
    /// The name of the server as defined by the server.
    pub name: String,
    /// The server's version as defined by the server.
    pub version: Option<String>,
}

/// The mathematical value of a [`ServerInfo`].
pub struct ServerInfoModel {
    pub name: Seq<char>,
    pub version: Option<Seq<char>>,
}

impl ServerInfo {
    /// The members that a value contributes to the object it is written in.
    pub open spec fn fields_json(m: ServerInfoModel) -> Seq<(Seq<char>, JVal)> {
        member("name"@, String::encode(m.name))
            + opt_member::<String>("version"@, m.version)
    }

    /// Reads a value from the members of an object; other members are ignored.
    #[verifier::opaque]
    pub open spec fn fields_from(ms: Seq<(Seq<char>, JVal)>) -> Result<ServerInfoModel, DecodeError> {
        match req_field::<String>(ms, "name"@) {
            Err(e) => Err(e),
            Ok(name) => {
                match opt_field::<String>(ms, "version"@) {
                    Err(e) => Err(e),
                    Ok(version) => {
                        Ok(ServerInfoModel { name, version })
                    },
                }
            },
        }
    }

    /// The models that values can have.
    pub open spec fn fields_valid(m: ServerInfoModel) -> bool {
        &&& String::valid(m.name)
        &&& opt_valid::<String>(m.version)
    }

    /// The members of a value, written between members of other names, read back as the value.
    pub proof fn lemma_fields_round_trip(m: ServerInfoModel, pre: Seq<(Seq<char>, JVal)>, post: Seq<(Seq<char>, JVal)>)
        requires
            Self::fields_valid(m),
            forall|k: Seq<char>| Self::uses_key(k) ==> (#[trigger] lookup(pre, k)) is None,
            forall|k: Seq<char>| Self::uses_key(k) ==> (#[trigger] lookup(post, k)) is None,
        ensures
            Self::fields_from(pre + Self::fields_json(m) + post) == Ok::<ServerInfoModel, DecodeError>(m),
    {
        broadcast use group_lookup;
        reveal(ServerInfo::fields_from);
        reveal_strlit("name");
        reveal_strlit("version");
        assert("name"@.len() == 4);
        assert("version"@.len() == 7);
        String::lemma_round_trip(m.name);
        if let Some(x) = m.version {
            String::lemma_round_trip(x);
        }
    }

    /// Members with names that the type does not read change nothing.
    pub proof fn lemma_unknown_key(ms: Seq<(Seq<char>, JVal)>, k: Seq<char>, v: JVal)
        requires
            !Self::uses_key(k),
        ensures
            Self::fields_from(ms + member(k, v)) == Self::fields_from(ms),
    {
        broadcast use group_lookup;
        reveal(ServerInfo::fields_from);
    }

    /// The member names that the type reads.
    pub open spec fn uses_key(k: Seq<char>) -> bool {
        k == "name"@ || k == "version"@
    }

    /// Appends the members of the value to an object under construction.
    pub fn write_fields(&self, ms: &mut Vec<(String, Json)>)
        ensures
            members(Json::Object(*final(ms))@) == members(Json::Object(*old(ms))@) + Self::fields_json(self.model()),
    {
        let ghost start = members(Json::Object(*ms)@);
        let ghost m = self.model();
        push_member(ms, "name", self.name.to_json());
        push_opt(ms, "version", &self.version);
        proof {
            lemma_concat_associative(start, member("name"@, String::encode(m.name)), opt_member::<String>("version"@, m.version));
        }
    }

    /// Reads a value from the members of an object.
    pub fn read_fields(ms: &Vec<(String, Json)>) -> (r: Result<Self, DecodeError>)
        ensures
            match r {
                Ok(v) => Self::fields_from(members(Json::Object(*ms)@)) == Ok::<ServerInfoModel, DecodeError>(v.model()),
                Err(e) => Self::fields_from(members(Json::Object(*ms)@)) == Err::<ServerInfoModel, DecodeError>(e),
            },
    {
        proof {
            reveal(ServerInfo::fields_from);
        }
        let name = match read_req::<String>(ms, "name") {
            Ok(v) => v,
            Err(e) => return Err(e),
        };
        let version = match read_opt::<String>(ms, "version") {
            Ok(v) => v,
            Err(e) => return Err(e),
        };
        Ok(ServerInfo { name, version })
    }
}

impl JsonCodec for ServerInfo {
    type Model = ServerInfoModel;

    open spec fn model(&self) -> ServerInfoModel {
        ServerInfoModel {
            name: self.name.model(),
            version: self.version.model(),
        }
    }

    open spec fn encode(m: ServerInfoModel) -> JVal {
        JVal::Obj(Self::fields_json(m))
    }

    open spec fn decode(j: JVal) -> Result<ServerInfoModel, DecodeError> {
        match j {
            JVal::Obj(ms) => Self::fields_from(ms),
            _ => Err(DecodeError::WrongShape),
        }
    }

    open spec fn valid(m: ServerInfoModel) -> bool {
        Self::fields_valid(m)
    }

    fn to_json(&self) -> (r: Json) {
        let mut ms = new_object();
        self.write_fields(&mut ms);
        Json::Object(ms)
    }

    fn from_json(j: &Json) -> (r: Result<Self, DecodeError>) {
        match j {
            Json::Object(ms) => Self::read_fields(ms),
            _ => Err(DecodeError::WrongShape),
        }
    }

    proof fn lemma_round_trip(m: ServerInfoModel) {
        Self::lemma_fields_round_trip(m, Seq::empty(), Seq::empty());
        assert(Seq::empty() + Self::fields_json(m) + Seq::empty() =~= Self::fields_json(m));
    }

}

/// Parameters of the `initialize` request.
#[derive(Clone, Debug, Default, PartialEq, Eq)]
pub struct InitializeParams {
    /// The process id of the parent process that started the server; `null` when it has none.
    pub process_id: Option<u32>,
    /// The root path of the workspace. Deprecated in favour of `root_uri`.
    pub root_path: Option<String>,
    /// The root URI of the workspace; may be absent or `null`. Deprecated in favour of `workspace_folders`.
    pub root_uri: Option<Uri>,
    /// User-provided initialization options.
    pub initialization_options: Option<Json>,
    /// The capabilities provided by the client (editor or tool).
    pub capabilities: ClientCapabilities,
    /// The initial trace setting.
    pub trace: Option<TraceValue>,
    /// The workspace folders configured in the client when the server starts.
    pub workspace_folders: Option<Vec<WorkspaceFolder>>,
    /// Information about the client.
    pub client_info: Option<ClientInfo>,
    /// The locale the client is currently showing the user interface in.
    pub locale: Option<String>,
    pub work_done_progress_params: WorkDoneProgressParams,
}

/// The mathematical value of a [`InitializeParams`].
pub struct InitializeParamsModel {
    pub process_id: Option<u32>,
    pub root_path: Option<Seq<char>>,
    pub root_uri: Option<Seq<char>>,
    pub initialization_options: Option<JVal>,
    pub capabilities: ClientCapabilitiesModel,
    pub trace: Option<TraceValue>,
    pub workspace_folders: Option<Seq<WorkspaceFolderModel>>,
    pub client_info: Option<ClientInfoModel>,
    pub locale: Option<Seq<char>>,
    pub work_done_progress_params: WorkDoneProgressParamsModel,
}

impl InitializeParams {
    /// The members that a value contributes to the object it is written in.
    pub open spec fn fields_json(m: InitializeParamsModel) -> Seq<(Seq<char>, JVal)> {
        member("processId"@, <Option<u32>>::encode(m.process_id))
            + opt_member::<String>("rootPath"@, m.root_path)
            + member("rootUri"@, <Option<Uri>>::encode(m.root_uri))
            + opt_member::<Json>("initializationOptions"@, m.initialization_options)
            + member("capabilities"@, ClientCapabilities::encode(m.capabilities))
            + opt_member::<TraceValue>("trace"@, m.trace)
            + opt_member::<Vec<WorkspaceFolder>>("workspaceFolders"@, m.workspace_folders)
            + opt_member::<ClientInfo>("clientInfo"@, m.client_info)
            + opt_member::<String>("locale"@, m.locale)
            + WorkDoneProgressParams::fields_json(m.work_done_progress_params)
    }

    /// Reads a value from the members of an object; other members are ignored.
    #[verifier::opaque]
    pub open spec fn fields_from(ms: Seq<(Seq<char>, JVal)>) -> Result<InitializeParamsModel, DecodeError> {
        match nullable_field::<u32>(ms, "processId"@) {
            Err(e) => Err(e),
            Ok(process_id) => {
                match opt_field::<String>(ms, "rootPath"@) {
                    Err(e) => Err(e),
                    Ok(root_path) => {
                        match nullable_field::<Uri>(ms, "rootUri"@) {
                            Err(e) => Err(e),
                            Ok(root_uri) => {
                                match opt_field::<Json>(ms, "initializationOptions"@) {
                                    Err(e) => Err(e),
                                    Ok(initialization_options) => {
                                        match req_field::<ClientCapabilities>(ms, "capabilities"@) {
                                            Err(e) => Err(e),
                                            Ok(capabilities) => {
                                                match opt_field::<TraceValue>(ms, "trace"@) {
                                                    Err(e) => Err(e),
                                                    Ok(trace) => {
                                                        match opt_field::<Vec<WorkspaceFolder>>(ms, "workspaceFolders"@) {
                                                            Err(e) => Err(e),
                                                            Ok(workspace_folders) => {
                                                                match opt_field::<ClientInfo>(ms, "clientInfo"@) {
                                                                    Err(e) => Err(e),
                                                                    Ok(client_info) => {
                                                                        match opt_field::<String>(ms, "locale"@) {
                                                                            Err(e) => Err(e),
                                                                            Ok(locale) => {
                                                                                match WorkDoneProgressParams::fields_from(ms) {
                                                                                    Err(e) => Err(e),
                                                                                    Ok(work_done_progress_params) => {
                                                                                        Ok(InitializeParamsModel { process_id, root_path, root_uri, initialization_options, capabilities, trace, workspace_folders, client_info, locale, work_done_progress_params })
                                                                                    },
                                                                                }
                                                                            },
                                                                        }
                                                                    },
                                                                }
                                                            },
                                                        }
                                                    },
                                                }
                                            },
                                        }
                                    },
                                }
                            },
                        }
                    },
                }
            },
        }
    }

    /// The models that values can have.
    pub open spec fn fields_valid(m: InitializeParamsModel) -> bool {
        &&& <Option<u32>>::valid(m.process_id)
        &&& opt_valid::<String>(m.root_path)
        &&& <Option<Uri>>::valid(m.root_uri)
        &&& opt_valid::<Json>(m.initialization_options)
        &&& ClientCapabilities::valid(m.capabilities)
        &&& opt_valid::<TraceValue>(m.trace)
        &&& opt_valid::<Vec<WorkspaceFolder>>(m.workspace_folders)
        &&& opt_valid::<ClientInfo>(m.client_info)
        &&& opt_valid::<String>(m.locale)
        &&& WorkDoneProgressParams::fields_valid(m.work_done_progress_params)
    }

    #[verifier::spinoff_prover]
    #[verifier::rlimit(100)]
    /// The members of a value, written between members of other names, read back as the value.
    pub proof fn lemma_fields_round_trip(m: InitializeParamsModel, pre: Seq<(Seq<char>, JVal)>, post: Seq<(Seq<char>, JVal)>)
        requires
            Self::fields_valid(m),
            forall|k: Seq<char>| Self::uses_key(k) ==> (#[trigger] lookup(pre, k)) is None,
            forall|k: Seq<char>| Self::uses_key(k) ==> (#[trigger] lookup(post, k)) is None,
        ensures
            Self::fields_from(pre + Self::fields_json(m) + post) == Ok::<InitializeParamsModel, DecodeError>(m),
    {
        broadcast use group_lookup;
        reveal(InitializeParams::fields_from);
        reveal_strlit("processId");
        reveal_strlit("rootPath");
        reveal_strlit("rootUri");
        reveal_strlit("initializationOptions");
        reveal_strlit("capabilities");
        reveal_strlit("trace");
        reveal_strlit("workspaceFolders");
        reveal_strlit("clientInfo");
        reveal_strlit("locale");
        reveal_strlit("workDoneToken");
        assert("processId"@.len() == 9);
        assert("rootPath"@.len() == 8);
        assert("rootUri"@.len() == 7);
        assert("initializationOptions"@.len() == 21);
        assert("capabilities"@.len() == 12);
        assert("trace"@.len() == 5);
        assert("workspaceFolders"@.len() == 16);
        assert("clientInfo"@.len() == 10);
        assert("locale"@.len() == 6);
        assert("workDoneToken"@.len() == 13);
        <Option<u32>>::lemma_round_trip(m.process_id);
        if let Some(x) = m.root_path {
            String::lemma_round_trip(x);
        }
        <Option<Uri>>::lemma_round_trip(m.root_uri);
        if let Some(x) = m.initialization_options {
            Json::lemma_round_trip(x);
        }
        ClientCapabilities::lemma_round_trip(m.capabilities);
        if let Some(x) = m.trace {
            TraceValue::lemma_round_trip(x);
        }
        if let Some(x) = m.workspace_folders {
            <Vec<WorkspaceFolder>>::lemma_round_trip(x);
        }
        if let Some(x) = m.client_info {
            ClientInfo::lemma_round_trip(x);
        }
        if let Some(x) = m.locale {
            String::lemma_round_trip(x);
        }
        let before = pre + member("processId"@, <Option<u32>>::encode(m.process_id)) + opt_member::<String>("rootPath"@, m.root_path) + member("rootUri"@, <Option<Uri>>::encode(m.root_uri)) + opt_member::<Json>("initializationOptions"@, m.initialization_options) + member("capabilities"@, ClientCapabilities::encode(m.capabilities)) + opt_member::<TraceValue>("trace"@, m.trace) + opt_member::<Vec<WorkspaceFolder>>("workspaceFolders"@, m.workspace_folders) + opt_member::<ClientInfo>("clientInfo"@, m.client_info) + opt_member::<String>("locale"@, m.locale);
        let after = post;
        WorkDoneProgressParams::lemma_fields_round_trip(m.work_done_progress_params, before, after);
        assert(pre + Self::fields_json(m) + post =~= before + WorkDoneProgressParams::fields_json(m.work_done_progress_params) + after);
    }

    /// Members with names that the type does not read change nothing.
    #[verifier::spinoff_prover]
    #[verifier::rlimit(100)]
    pub proof fn lemma_unknown_key(ms: Seq<(Seq<char>, JVal)>, k: Seq<char>, v: JVal)
        requires
            !Self::uses_key(k),
        ensures
            Self::fields_from(ms + member(k, v)) == Self::fields_from(ms),
    {
        broadcast use group_lookup;
        reveal(InitializeParams::fields_from);
        WorkDoneProgressParams::lemma_unknown_key(ms, k, v);
    }

    /// The member names that the type reads.
    pub open spec fn uses_key(k: Seq<char>) -> bool {
        k == "processId"@ || k == "rootPath"@ || k == "rootUri"@ || k == "initializationOptions"@ || k == "capabilities"@ || k == "trace"@ || k == "workspaceFolders"@ || k == "clientInfo"@ || k == "locale"@ || WorkDoneProgressParams::uses_key(k)
    }

    /// Appends the members of the value to an object under construction.
    pub fn write_fields(&self, ms: &mut Vec<(String, Json)>)
        ensures
            members(Json::Object(*final(ms))@) == members(Json::Object(*old(ms))@) + Self::fields_json(self.model()),
    {
        let ghost start = members(Json::Object(*ms)@);
        let ghost m = self.model();
        push_member(ms, "processId", self.process_id.to_json());
        push_opt(ms, "rootPath", &self.root_path);
        proof {
            lemma_concat_associative(start, member("processId"@, <Option<u32>>::encode(m.process_id)), opt_member::<String>("rootPath"@, m.root_path));
        }
        push_member(ms, "rootUri", self.root_uri.to_json());
        proof {
            lemma_concat_associative(start, member("processId"@, <Option<u32>>::encode(m.process_id)) + opt_member::<String>("rootPath"@, m.root_path), member("rootUri"@, <Option<Uri>>::encode(m.root_uri)));
        }
        push_opt(ms, "initializationOptions", &self.initialization_options);
        proof {
            lemma_concat_associative(start, member("processId"@, <Option<u32>>::encode(m.process_id)) + opt_member::<String>("rootPath"@, m.root_path) + member("rootUri"@, <Option<Uri>>::encode(m.root_uri)), opt_member::<Json>("initializationOptions"@, m.initialization_options));
        }
        push_member(ms, "capabilities", self.capabilities.to_json());
        proof {
            lemma_concat_associative(start, member("processId"@, <Option<u32>>::encode(m.process_id)) + opt_member::<String>("rootPath"@, m.root_path) + member("rootUri"@, <Option<Uri>>::encode(m.root_uri)) + opt_member::<Json>("initializationOptions"@, m.initialization_options), member("capabilities"@, ClientCapabilities::encode(m.capabilities)));
        }
        push_opt(ms, "trace", &self.trace);
        proof {
            lemma_concat_associative(start, member("processId"@, <Option<u32>>::encode(m.process_id)) + opt_member::<String>("rootPath"@, m.root_path) + member("rootUri"@, <Option<Uri>>::encode(m.root_uri)) + opt_member::<Json>("initializationOptions"@, m.initialization_options) + member("capabilities"@, ClientCapabilities::encode(m.capabilities)), opt_member::<TraceValue>("trace"@, m.trace));
        }
        push_opt(ms, "workspaceFolders", &self.workspace_folders);
        proof {
            lemma_concat_associative(start, member("processId"@, <Option<u32>>::encode(m.process_id)) + opt_member::<String>("rootPath"@, m.root_path) + member("rootUri"@, <Option<Uri>>::encode(m.root_uri)) + opt_member::<Json>("initializationOptions"@, m.initialization_options) + member("capabilities"@, ClientCapabilities::encode(m.capabilities)) + opt_member::<TraceValue>("trace"@, m.trace), opt_member::<Vec<WorkspaceFolder>>("workspaceFolders"@, m.workspace_folders));
        }
        push_opt(ms, "clientInfo", &self.client_info);
        proof {
            lemma_concat_associative(start, member("processId"@, <Option<u32>>::encode(m.process_id)) + opt_member::<String>("rootPath"@, m.root_path) + member("rootUri"@, <Option<Uri>>::encode(m.root_uri)) + opt_member::<Json>("initializationOptions"@, m.initialization_options) + member("capabilities"@, ClientCapabilities::encode(m.capabilities)) + opt_member::<TraceValue>("trace"@, m.trace) + opt_member::<Vec<WorkspaceFolder>>("workspaceFolders"@, m.workspace_folders), opt_member::<ClientInfo>("clientInfo"@, m.client_info));
        }
        push_opt(ms, "locale", &self.locale);
        proof {
            lemma_concat_associative(start, member("processId"@, <Option<u32>>::encode(m.process_id)) + opt_member::<String>("rootPath"@, m.root_path) + member("rootUri"@, <Option<Uri>>::encode(m.root_uri)) + opt_member::<Json>("initializationOptions"@, m.initialization_options) + member("capabilities"@, ClientCapabilities::encode(m.capabilities)) + opt_member::<TraceValue>("trace"@, m.trace) + opt_member::<Vec<WorkspaceFolder>>("workspaceFolders"@, m.workspace_folders) + opt_member::<ClientInfo>("clientInfo"@, m.client_info), opt_member::<String>("locale"@, m.locale));
        }
        self.work_done_progress_params.write_fields(ms);
        proof {
            lemma_concat_associative(start, member("processId"@, <Option<u32>>::encode(m.process_id)) + opt_member::<String>("rootPath"@, m.root_path) + member("rootUri"@, <Option<Uri>>::encode(m.root_uri)) + opt_member::<Json>("initializationOptions"@, m.initialization_options) + member("capabilities"@, ClientCapabilities::encode(m.capabilities)) + opt_member::<TraceValue>("trace"@, m.trace) + opt_member::<Vec<WorkspaceFolder>>("workspaceFolders"@, m.workspace_folders) + opt_member::<ClientInfo>("clientInfo"@, m.client_info) + opt_member::<String>("locale"@, m.locale), WorkDoneProgressParams::fields_json(m.work_done_progress_params));
        }
    }

    /// Reads a value from the members of an object.
    pub fn read_fields(ms: &Vec<(String, Json)>) -> (r: Result<Self, DecodeError>)
        ensures
            match r {
                Ok(v) => Self::fields_from(members(Json::Object(*ms)@)) == Ok::<InitializeParamsModel, DecodeError>(v.model()),
                Err(e) => Self::fields_from(members(Json::Object(*ms)@)) == Err::<InitializeParamsModel, DecodeError>(e),
            },
    {
        proof {
            reveal(InitializeParams::fields_from);
        }
        let process_id = match read_nullable::<u32>(ms, "processId") {
            Ok(v) => v,
            Err(e) => return Err(e),
        };
        let root_path = match read_opt::<String>(ms, "rootPath") {
            Ok(v) => v,
            Err(e) => return Err(e),
        };
        let root_uri = match read_nullable::<Uri>(ms, "rootUri") {
            Ok(v) => v,
            Err(e) => return Err(e),
        };
        let initialization_options = match read_opt::<Json>(ms, "initializationOptions") {
            Ok(v) => v,
            Err(e) => return Err(e),
        };
        let capabilities = match read_req::<ClientCapabilities>(ms, "capabilities") {
            Ok(v) => v,
            Err(e) => return Err(e),
        };
        let trace = match read_opt::<TraceValue>(ms, "trace") {
            Ok(v) => v,
            Err(e) => return Err(e),
        };
        let workspace_folders = match read_opt::<Vec<WorkspaceFolder>>(ms, "workspaceFolders") {
            Ok(v) => v,
            Err(e) => return Err(e),
        };
        let client_info = match read_opt::<ClientInfo>(ms, "clientInfo") {
            Ok(v) => v,
            Err(e) => return Err(e),
        };
        let locale = match read_opt::<String>(ms, "locale") {
            Ok(v) => v,
            Err(e) => return Err(e),
        };
        let work_done_progress_params = match WorkDoneProgressParams::read_fields(ms) {
            Ok(v) => v,
            Err(e) => return Err(e),
        };
        Ok(InitializeParams { process_id, root_path, root_uri, initialization_options, capabilities, trace, workspace_folders, client_info, locale, work_done_progress_params })
    }
}

impl JsonCodec for InitializeParams {
    type Model = InitializeParamsModel;

    open spec fn model(&self) -> InitializeParamsModel {
        InitializeParamsModel {
            process_id: self.process_id.model(),
            root_path: self.root_path.model(),
            root_uri: self.root_uri.model(),
            initialization_options: self.initialization_options.model(),
            capabilities: self.capabilities.model(),
            trace: self.trace.model(),
            workspace_folders: self.workspace_folders.model(),
            client_info: self.client_info.model(),
            locale: self.locale.model(),
            work_done_progress_params: self.work_done_progress_params.model(),
        }
    }

    open spec fn encode(m: InitializeParamsModel) -> JVal {
        JVal::Obj(Self::fields_json(m))
    }

    open spec fn decode(j: JVal) -> Result<InitializeParamsModel, DecodeError> {
        match j {
            JVal::Obj(ms) => Self::fields_from(ms),
            _ => Err(DecodeError::WrongShape),
        }
    }

    open spec fn valid(m: InitializeParamsModel) -> bool {
        Self::fields_valid(m)
    }

    fn to_json(&self) -> (r: Json) {
        let mut ms = new_object();
        self.write_fields(&mut ms);
        Json::Object(ms)
    }

    fn from_json(j: &Json) -> (r: Result<Self, DecodeError>) {
        match j {
            Json::Object(ms) => Self::read_fields(ms),
            _ => Err(DecodeError::WrongShape),
        }
    }

    proof fn lemma_round_trip(m: InitializeParamsModel) {
        Self::lemma_fields_round_trip(m, Seq::empty(), Seq::empty());
        assert(Seq::empty() + Self::fields_json(m) + Seq::empty() =~= Self::fields_json(m));
    }

}

/// Parameters of the `initialized` notification: an empty object.
#[derive(Clone, Copy, Debug, PartialEq, Eq, Structural)]
pub struct InitializedParams {
}

impl InitializedParams {
    /// The members that a value contributes to the object it is written in.
    pub open spec fn fields_json(m: InitializedParams) -> Seq<(Seq<char>, JVal)> {
        Seq::empty()
    }

    /// Reads a value from the members of an object; other members are ignored.
    #[verifier::opaque]
    pub open spec fn fields_from(ms: Seq<(Seq<char>, JVal)>) -> Result<InitializedParams, DecodeError> {
        Ok(InitializedParams {})
    }

    /// The models that values can have.
    pub open spec fn fields_valid(m: InitializedParams) -> bool {
        true
    }

    /// The members of a value, written between members of other names, read back as the value.
    pub proof fn lemma_fields_round_trip(m: InitializedParams, pre: Seq<(Seq<char>, JVal)>, post: Seq<(Seq<char>, JVal)>)
        requires
            Self::fields_valid(m),
            forall|k: Seq<char>| Self::uses_key(k) ==> (#[trigger] lookup(pre, k)) is None,
            forall|k: Seq<char>| Self::uses_key(k) ==> (#[trigger] lookup(post, k)) is None,
        ensures
            Self::fields_from(pre + Self::fields_json(m) + post) == Ok::<InitializedParams, DecodeError>(m),
    {
        broadcast use group_lookup;
        reveal(InitializedParams::fields_from);
    }

    /// Members with names that the type does not read change nothing.
    pub proof fn lemma_unknown_key(ms: Seq<(Seq<char>, JVal)>, k: Seq<char>, v: JVal)
        requires
            !Self::uses_key(k),
        ensures
            Self::fields_from(ms + member(k, v)) == Self::fields_from(ms),
    {
        broadcast use group_lookup;
        reveal(InitializedParams::fields_from);
    }

    /// The member names that the type reads.
    pub open spec fn uses_key(k: Seq<char>) -> bool {
        false
    }

    /// Appends the members of the value to an object under construction.
    pub fn write_fields(&self, ms: &mut Vec<(String, Json)>)
        ensures
            members(Json::Object(*final(ms))@) == members(Json::Object(*old(ms))@) + Self::fields_json(self.model()),
    {
        let ghost start = members(Json::Object(*ms)@);
        assert(members(Json::Object(*ms)@) =~= start + Self::fields_json(self.model()));
    }

    /// Reads a value from the members of an object.
    pub fn read_fields(ms: &Vec<(String, Json)>) -> (r: Result<Self, DecodeError>)
        ensures
            match r {
                Ok(v) => Self::fields_from(members(Json::Object(*ms)@)) == Ok::<InitializedParams, DecodeError>(v.model()),
                Err(e) => Self::fields_from(members(Json::Object(*ms)@)) == Err::<InitializedParams, DecodeError>(e),
            },
    {
        proof {
            reveal(InitializedParams::fields_from);
        }
        Ok(InitializedParams {})
    }
}

impl JsonCodec for InitializedParams {
    type Model = InitializedParams;

    open spec fn model(&self) -> InitializedParams {
        *self
    }

    open spec fn encode(m: InitializedParams) -> JVal {
        JVal::Obj(Self::fields_json(m))
    }

    open spec fn decode(j: JVal) -> Result<InitializedParams, DecodeError> {
        match j {
            JVal::Obj(ms) => Self::fields_from(ms),
            _ => Err(DecodeError::WrongShape),
        }
    }

    open spec fn valid(m: InitializedParams) -> bool {
        Self::fields_valid(m)
    }

    fn to_json(&self) -> (r: Json) {
        let mut ms = new_object();
        self.write_fields(&mut ms);
        Json::Object(ms)
    }

    fn from_json(j: &Json) -> (r: Result<Self, DecodeError>) {
        match j {
            Json::Object(ms) => Self::read_fields(ms),
            _ => Err(DecodeError::WrongShape),
        }
    }

    proof fn lemma_round_trip(m: InitializedParams) {
        Self::lemma_fields_round_trip(m, Seq::empty(), Seq::empty());
        assert(Seq::empty() + Self::fields_json(m) + Seq::empty() =~= Self::fields_json(m));
    }

}

/// The capabilities a language server provides.
#[derive(Clone, Debug, Default, PartialEq, Eq)]
pub struct ServerCapabilities {
    /// The position encoding the server picked from those the client offered.
    pub position_encoding: Option<PositionEncodingKind>,
    /// How text documents are synced.
    pub text_document_sync: Option<TextDocumentSyncCapability>,
    pub definition_provider: Option<OneOf<bool, DefinitionOptions>>,
    pub references_provider: Option<OneOf<bool, ReferenceOptions>>,
    pub code_action_provider: Option<CodeActionProviderCapability>,
    pub execute_command_provider: Option<ExecuteCommandOptions>,
    /// Workspace-specific server capabilities.
    pub workspace: Option<WorkspaceServerCapabilities>,
    /// Experimental server capabilities.
    pub experimental: Option<Json>,
}

/// The mathematical value of a [`ServerCapabilities`].
pub struct ServerCapabilitiesModel {
    pub position_encoding: Option<Seq<char>>,
    pub text_document_sync: Option<TextDocumentSyncCapabilityModel>,
    pub definition_provider: Option<Either<bool, DefinitionOptions>>,
    pub references_provider: Option<Either<bool, ReferenceOptions>>,
    pub code_action_provider: Option<CodeActionProviderCapabilityModel>,
    pub execute_command_provider: Option<ExecuteCommandOptionsModel>,
    pub workspace: Option<WorkspaceServerCapabilitiesModel>,
    pub experimental: Option<JVal>,
}

impl ServerCapabilities {
    /// The members that a value contributes to the object it is written in.
    pub open spec fn fields_json(m: ServerCapabilitiesModel) -> Seq<(Seq<char>, JVal)> {
        opt_member::<PositionEncodingKind>("positionEncoding"@, m.position_encoding)
            + opt_member::<TextDocumentSyncCapability>("textDocumentSync"@, m.text_document_sync)
            + opt_member::<OneOf<bool, DefinitionOptions>>("definitionProvider"@, m.definition_provider)
            + opt_member::<OneOf<bool, ReferenceOptions>>("referencesProvider"@, m.references_provider)
            + opt_member::<CodeActionProviderCapability>("codeActionProvider"@, m.code_action_provider)
            + opt_member::<ExecuteCommandOptions>("executeCommandProvider"@, m.execute_command_provider)
            + opt_member::<WorkspaceServerCapabilities>("workspace"@, m.workspace)
            + opt_member::<Json>("experimental"@, m.experimental)
    }

    /// Reads a value from the members of an object; other members are ignored.
    #[verifier::opaque]
    pub open spec fn fields_from(ms: Seq<(Seq<char>, JVal)>) -> Result<ServerCapabilitiesModel, DecodeError> {
        match opt_field::<PositionEncodingKind>(ms, "positionEncoding"@) {
            Err(e) => Err(e),
            Ok(position_encoding) => {
                match opt_field::<TextDocumentSyncCapability>(ms, "textDocumentSync"@) {
                    Err(e) => Err(e),
                    Ok(text_document_sync) => {
                        match opt_field::<OneOf<bool, DefinitionOptions>>(ms, "definitionProvider"@) {
                            Err(e) => Err(e),
                            Ok(definition_provider) => {
                                match opt_field::<OneOf<bool, ReferenceOptions>>(ms, "referencesProvider"@) {
                                    Err(e) => Err(e),
                                    Ok(references_provider) => {
                                        match opt_field::<CodeActionProviderCapability>(ms, "codeActionProvider"@) {
                                            Err(e) => Err(e),
                                            Ok(code_action_provider) => {
                                                match opt_field::<ExecuteCommandOptions>(ms, "executeCommandProvider"@) {
                                                    Err(e) => Err(e),
                                                    Ok(execute_command_provider) => {
                                                        match opt_field::<WorkspaceServerCapabilities>(ms, "workspace"@) {
                                                            Err(e) => Err(e),
                                                            Ok(workspace) => {
                                                                match opt_field::<Json>(ms, "experimental"@) {
                                                                    Err(e) => Err(e),
                                                                    Ok(experimental) => {
                                                                        Ok(ServerCapabilitiesModel { position_encoding, text_document_sync, definition_provider, references_provider, code_action_provider, execute_command_provider, workspace, experimental })
                                                                    },
                                                                }
                                                            },
                                                        }
                                                    },
                                                }
                                            },
                                        }
                                    },
                                }
                            },
                        }
                    },
                }
            },
        }
    }

    /// The models that values can have.
    pub open spec fn fields_valid(m: ServerCapabilitiesModel) -> bool {
        &&& opt_valid::<PositionEncodingKind>(m.position_encoding)
        &&& opt_valid::<TextDocumentSyncCapability>(m.text_document_sync)
        &&& opt_valid::<OneOf<bool, DefinitionOptions>>(m.definition_provider)
        &&& opt_valid::<OneOf<bool, ReferenceOptions>>(m.references_provider)
        &&& opt_valid::<CodeActionProviderCapability>(m.code_action_provider)
        &&& opt_valid::<ExecuteCommandOptions>(m.execute_command_provider)
        &&& opt_valid::<WorkspaceServerCapabilities>(m.workspace)
        &&& opt_valid::<Json>(m.experimental)
    }

    /// The members of a value, written between members of other names, read back as the value.
    pub proof fn lemma_fields_round_trip(m: ServerCapabilitiesModel, pre: Seq<(Seq<char>, JVal)>, post: Seq<(Seq<char>, JVal)>)
        requires
            Self::fields_valid(m),
            forall|k: Seq<char>| Self::uses_key(k) ==> (#[trigger] lookup(pre, k)) is None,
            forall|k: Seq<char>| Self::uses_key(k) ==> (#[trigger] lookup(post, k)) is None,
        ensures
            Self::fields_from(pre + Self::fields_json(m) + post) == Ok::<ServerCapabilitiesModel, DecodeError>(m),
    {
        broadcast use group_lookup;
        reveal(ServerCapabilities::fields_from);
        reveal_strlit("positionEncoding");
        reveal_strlit("textDocumentSync");
        reveal_strlit("definitionProvider");
        reveal_strlit("referencesProvider");
        reveal_strlit("codeActionProvider");
        reveal_strlit("executeCommandProvider");
        reveal_strlit("workspace");
        reveal_strlit("experimental");
        assert("positionEncoding"@.len() == 16);
        assert("textDocumentSync"@.len() == 16);
        assert("definitionProvider"@.len() == 18);
        assert("referencesProvider"@.len() == 18);
        assert("codeActionProvider"@.len() == 18);
        assert("executeCommandProvider"@.len() == 22);
        assert("workspace"@.len() == 9);
        assert("experimental"@.len() == 12);
        assert("positionEncoding"@[0] != "textDocumentSync"@[0]);
        assert("definitionProvider"@[0] != "referencesProvider"@[0]);
        assert("definitionProvider"@[0] != "codeActionProvider"@[0]);
        assert("referencesProvider"@[0] != "codeActionProvider"@[0]);
        if let Some(x) = m.position_encoding {
            PositionEncodingKind::lemma_round_trip(x);
        }
        if let Some(x) = m.text_document_sync {
            TextDocumentSyncCapability::lemma_round_trip(x);
        }
        if let Some(x) = m.definition_provider {
            <OneOf<bool, DefinitionOptions>>::lemma_round_trip(x);
        }
        if let Some(x) = m.references_provider {
            <OneOf<bool, ReferenceOptions>>::lemma_round_trip(x);
        }
        if let Some(x) = m.code_action_provider {
            CodeActionProviderCapability::lemma_round_trip(x);
        }
        if let Some(x) = m.execute_command_provider {
            ExecuteCommandOptions::lemma_round_trip(x);
        }
        if let Some(x) = m.workspace {
            WorkspaceServerCapabilities::lemma_round_trip(x);
        }
        if let Some(x) = m.experimental {
            Json::lemma_round_trip(x);
        }
    }

    /// Members with names that the type does not read change nothing.
    pub proof fn lemma_unknown_key(ms: Seq<(Seq<char>, JVal)>, k: Seq<char>, v: JVal)
        requires
            !Self::uses_key(k),
        ensures
            Self::fields_from(ms + member(k, v)) == Self::fields_from(ms),
    {
        broadcast use group_lookup;
        reveal(ServerCapabilities::fields_from);
    }

    /// The member names that the type reads.
    pub open spec fn uses_key(k: Seq<char>) -> bool {
        k == "positionEncoding"@ || k == "textDocumentSync"@ || k == "definitionProvider"@ || k == "referencesProvider"@ || k == "codeActionProvider"@ || k == "executeCommandProvider"@ || k == "workspace"@ || k == "experimental"@
    }

    /// Appends the members of the value to an object under construction.
    pub fn write_fields(&self, ms: &mut Vec<(String, Json)>)
        ensures
            members(Json::Object(*final(ms))@) == members(Json::Object(*old(ms))@) + Self::fields_json(self.model()),
    {
        let ghost start = members(Json::Object(*ms)@);
        let ghost m = self.model();
        push_opt(ms, "positionEncoding", &self.position_encoding);
        push_opt(ms, "textDocumentSync", &self.text_document_sync);
        proof {
            lemma_concat_associative(start, opt_member::<PositionEncodingKind>("positionEncoding"@, m.position_encoding), opt_member::<TextDocumentSyncCapability>("textDocumentSync"@, m.text_document_sync));
        }
        push_opt(ms, "definitionProvider", &self.definition_provider);
        proof {
            lemma_concat_associative(start, opt_member::<PositionEncodingKind>("positionEncoding"@, m.position_encoding) + opt_member::<TextDocumentSyncCapability>("textDocumentSync"@, m.text_document_sync), opt_member::<OneOf<bool, DefinitionOptions>>("definitionProvider"@, m.definition_provider));
        }
        push_opt(ms, "referencesProvider", &self.references_provider);
        proof {
            lemma_concat_associative(start, opt_member::<PositionEncodingKind>("positionEncoding"@, m.position_encoding) + opt_member::<TextDocumentSyncCapability>("textDocumentSync"@, m.text_document_sync) + opt_member::<OneOf<bool, DefinitionOptions>>("definitionProvider"@, m.definition_provider), opt_member::<OneOf<bool, ReferenceOptions>>("referencesProvider"@, m.references_provider));
        }
        push_opt(ms, "codeActionProvider", &self.code_action_provider);
        proof {
            lemma_concat_associative(start, opt_member::<PositionEncodingKind>("positionEncoding"@, m.position_encoding) + opt_member::<TextDocumentSyncCapability>("textDocumentSync"@, m.text_document_sync) + opt_member::<OneOf<bool, DefinitionOptions>>("definitionProvider"@, m.definition_provider) + opt_member::<OneOf<bool, ReferenceOptions>>("referencesProvider"@, m.references_provider), opt_member::<CodeActionProviderCapability>("codeActionProvider"@, m.code_action_provider));
        }
        push_opt(ms, "executeCommandProvider", &self.execute_command_provider);
        proof {
            lemma_concat_associative(start, opt_member::<PositionEncodingKind>("positionEncoding"@, m.position_encoding) + opt_member::<TextDocumentSyncCapability>("textDocumentSync"@, m.text_document_sync) + opt_member::<OneOf<bool, DefinitionOptions>>("definitionProvider"@, m.definition_provider) + opt_member::<OneOf<bool, ReferenceOptions>>("referencesProvider"@, m.references_provider) + opt_member::<CodeActionProviderCapability>("codeActionProvider"@, m.code_action_provider), opt_member::<ExecuteCommandOptions>("executeCommandProvider"@, m.execute_command_provider));
        }
        push_opt(ms, "workspace", &self.workspace);
        proof {
            lemma_concat_associative(start, opt_member::<PositionEncodingKind>("positionEncoding"@, m.position_encoding) + opt_member::<TextDocumentSyncCapability>("textDocumentSync"@, m.text_document_sync) + opt_member::<OneOf<bool, DefinitionOptions>>("definitionProvider"@, m.definition_provider) + opt_member::<OneOf<bool, ReferenceOptions>>("referencesProvider"@, m.references_provider) + opt_member::<CodeActionProviderCapability>("codeActionProvider"@, m.code_action_provider) + opt_member::<ExecuteCommandOptions>("executeCommandProvider"@, m.execute_command_provider), opt_member::<WorkspaceServerCapabilities>("workspace"@, m.workspace));
        }
        push_opt(ms, "experimental", &self.experimental);
        proof {
            lemma_concat_associative(start, opt_member::<PositionEncodingKind>("positionEncoding"@, m.position_encoding) + opt_member::<TextDocumentSyncCapability>("textDocumentSync"@, m.text_document_sync) + opt_member::<OneOf<bool, DefinitionOptions>>("definitionProvider"@, m.definition_provider) + opt_member::<OneOf<bool, ReferenceOptions>>("referencesProvider"@, m.references_provider) + opt_member::<CodeActionProviderCapability>("codeActionProvider"@, m.code_action_provider) + opt_member::<ExecuteCommandOptions>("executeCommandProvider"@, m.execute_command_provider) + opt_member::<WorkspaceServerCapabilities>("workspace"@, m.workspace), opt_member::<Json>("experimental"@, m.experimental));
        }
    }

    /// Reads a value from the members of an object.
    pub fn read_fields(ms: &Vec<(String, Json)>) -> (r: Result<Self, DecodeError>)
        ensures
            match r {
                Ok(v) => Self::fields_from(members(Json::Object(*ms)@)) == Ok::<ServerCapabilitiesModel, DecodeError>(v.model()),
                Err(e) => Self::fields_from(members(Json::Object(*ms)@)) == Err::<ServerCapabilitiesModel, DecodeError>(e),
            },
    {
        proof {
            reveal(ServerCapabilities::fields_from);
        }
        let position_encoding = match read_opt::<PositionEncodingKind>(ms, "positionEncoding") {
            Ok(v) => v,
            Err(e) => return Err(e),
        };
        let text_document_sync = match read_opt::<TextDocumentSyncCapability>(ms, "textDocumentSync") {
            Ok(v) => v,
            Err(e) => return Err(e),
        };
        let definition_provider = match read_opt::<OneOf<bool, DefinitionOptions>>(ms, "definitionProvider") {
            Ok(v) => v,
            Err(e) => return Err(e),
        };
        let references_provider = match read_opt::<OneOf<bool, ReferenceOptions>>(ms, "referencesProvider") {
            Ok(v) => v,
            Err(e) => return Err(e),
        };
        let code_action_provider = match read_opt::<CodeActionProviderCapability>(ms, "codeActionProvider") {
            Ok(v) => v,
            Err(e) => return Err(e),
        };
        let execute_command_provider = match read_opt::<ExecuteCommandOptions>(ms, "executeCommandProvider") {
            Ok(v) => v,
            Err(e) => return Err(e),
        };
        let workspace = match read_opt::<WorkspaceServerCapabilities>(ms, "workspace") {
            Ok(v) => v,
            Err(e) => return Err(e),
        };
        let experimental = match read_opt::<Json>(ms, "experimental") {
            Ok(v) => v,
            Err(e) => return Err(e),
        };
        Ok(ServerCapabilities { position_encoding, text_document_sync, definition_provider, references_provider, code_action_provider, execute_command_provider, workspace, experimental })
    }
}

impl JsonCodec for ServerCapabilities {
    type Model = ServerCapabilitiesModel;

    open spec fn model(&self) -> ServerCapabilitiesModel {
        ServerCapabilitiesModel {
            position_encoding: self.position_encoding.model(),
            text_document_sync: self.text_document_sync.model(),
            definition_provider: self.definition_provider.model(),
            references_provider: self.references_provider.model(),
            code_action_provider: self.code_action_provider.model(),
            execute_command_provider: self.execute_command_provider.model(),
            workspace: self.workspace.model(),
            experimental: self.experimental.model(),
        }
    }

    open spec fn encode(m: ServerCapabilitiesModel) -> JVal {
        JVal::Obj(Self::fields_json(m))
    }

    open spec fn decode(j: JVal) -> Result<ServerCapabilitiesModel, DecodeError> {
        match j {
            JVal::Obj(ms) => Self::fields_from(ms),
            _ => Err(DecodeError::WrongShape),
        }
    }

    open spec fn valid(m: ServerCapabilitiesModel) -> bool {
        Self::fields_valid(m)
    }

    fn to_json(&self) -> (r: Json) {
        let mut ms = new_object();
        self.write_fields(&mut ms);
        Json::Object(ms)
    }

    fn from_json(j: &Json) -> (r: Result<Self, DecodeError>) {
        match j {
            Json::Object(ms) => Self::read_fields(ms),
            _ => Err(DecodeError::WrongShape),
        }
    }

    proof fn lemma_round_trip(m: ServerCapabilitiesModel) {
        Self::lemma_fields_round_trip(m, Seq::empty(), Seq::empty());
        assert(Seq::empty() + Self::fields_json(m) + Seq::empty() =~= Self::fields_json(m));
    }

}

/// The result of the `initialize` request.
#[derive(Clone, Debug, Default, PartialEq, Eq)]
pub struct InitializeResult {
    /// The capabilities the language server provides.
    pub capabilities: ServerCapabilities,
    /// Information about the server.
    pub server_info: Option<ServerInfo>,
}

/// The mathematical value of a [`InitializeResult`].
pub struct InitializeResultModel {
    pub capabilities: ServerCapabilitiesModel,
    pub server_info: Option<ServerInfoModel>,
}

impl InitializeResult {
    /// The members that a value contributes to the object it is written in.
    pub open spec fn fields_json(m: InitializeResultModel) -> Seq<(Seq<char>, JVal)> {
        member("capabilities"@, ServerCapabilities::encode(m.capabilities))
            + opt_member::<ServerInfo>("serverInfo"@, m.server_info)
    }

    /// Reads a value from the members of an object; other members are ignored.
    #[verifier::opaque]
    pub open spec fn fields_from(ms: Seq<(Seq<char>, JVal)>) -> Result<InitializeResultModel, DecodeError> {
        match req_field::<ServerCapabilities>(ms, "capabilities"@) {
            Err(e) => Err(e),
            Ok(capabilities) => {
                match opt_field::<ServerInfo>(ms, "serverInfo"@) {
                    Err(e) => Err(e),
                    Ok(server_info) => {
                        Ok(InitializeResultModel { capabilities, server_info })
                    },
                }
            },
        }
    }

    /// The models that values can have.
    pub open spec fn fields_valid(m: InitializeResultModel) -> bool {
        &&& ServerCapabilities::valid(m.capabilities)
        &&& opt_valid::<ServerInfo>(m.server_info)
    }

    /// The members of a value, written between members of other names, read back as the value.
    pub proof fn lemma_fields_round_trip(m: InitializeResultModel, pre: Seq<(Seq<char>, JVal)>, post: Seq<(Seq<char>, JVal)>)
        requires
            Self::fields_valid(m),
            forall|k: Seq<char>| Self::uses_key(k) ==> (#[trigger] lookup(pre, k)) is None,
            forall|k: Seq<char>| Self::uses_key(k) ==> (#[trigger] lookup(post, k)) is None,
        ensures
            Self::fields_from(pre + Self::fields_json(m) + post) == Ok::<InitializeResultModel, DecodeError>(m),
    {
        broadcast use group_lookup;
        reveal(InitializeResult::fields_from);
        reveal_strlit("capabilities");
        reveal_strlit("serverInfo");
        assert("capabilities"@.len() == 12);
        assert("serverInfo"@.len() == 10);
        ServerCapabilities::lemma_round_trip(m.capabilities);
        if let Some(x) = m.server_info {
            ServerInfo::lemma_round_trip(x);
        }
    }

    /// Members with names that the type does not read change nothing.
    pub proof fn lemma_unknown_key(ms: Seq<(Seq<char>, JVal)>, k: Seq<char>, v: JVal)
        requires
            !Self::uses_key(k),
        ensures
            Self::fields_from(ms + member(k, v)) == Self::fields_from(ms),
    {
        broadcast use group_lookup;
        reveal(InitializeResult::fields_from);
    }

    /// The member names that the type reads.
    pub open spec fn uses_key(k: Seq<char>) -> bool {
        k == "capabilities"@ || k == "serverInfo"@
    }

    /// Appends the members of the value to an object under construction.
    pub fn write_fields(&self, ms: &mut Vec<(String, Json)>)
        ensures
            members(Json::Object(*final(ms))@) == members(Json::Object(*old(ms))@) + Self::fields_json(self.model()),
    {
        let ghost start = members(Json::Object(*ms)@);
        let ghost m = self.model();
        push_member(ms, "capabilities", self.capabilities.to_json());
        push_opt(ms, "serverInfo", &self.server_info);
        proof {
            lemma_concat_associative(start, member("capabilities"@, ServerCapabilities::encode(m.capabilities)), opt_member::<ServerInfo>("serverInfo"@, m.server_info));
        }
    }

    /// Reads a value from the members of an object.
    pub fn read_fields(ms: &Vec<(String, Json)>) -> (r: Result<Self, DecodeError>)
        ensures
            match r {
                Ok(v) => Self::fields_from(members(Json::Object(*ms)@)) == Ok::<InitializeResultModel, DecodeError>(v.model()),
                Err(e) => Self::fields_from(members(Json::Object(*ms)@)) == Err::<InitializeResultModel, DecodeError>(e),
            },
    {
        proof {
            reveal(InitializeResult::fields_from);
        }
        let capabilities = match read_req::<ServerCapabilities>(ms, "capabilities") {
            Ok(v) => v,
            Err(e) => return Err(e),
        };
        let server_info = match read_opt::<ServerInfo>(ms, "serverInfo") {
            Ok(v) => v,
            Err(e) => return Err(e),
        };
        Ok(InitializeResult { capabilities, server_info })
    }
}

impl JsonCodec for InitializeResult {
    type Model = InitializeResultModel;

    open spec fn model(&self) -> InitializeResultModel {
        InitializeResultModel {
            capabilities: self.capabilities.model(),
            server_info: self.server_info.model(),
        }
    }

    open spec fn encode(m: InitializeResultModel) -> JVal {
        JVal::Obj(Self::fields_json(m))
    }

    open spec fn decode(j: JVal) -> Result<InitializeResultModel, DecodeError> {
        match j {
            JVal::Obj(ms) => Self::fields_from(ms),
            _ => Err(DecodeError::WrongShape),
        }
    }

    open spec fn valid(m: InitializeResultModel) -> bool {
        Self::fields_valid(m)
    }

    fn to_json(&self) -> (r: Json) {
        let mut ms = new_object();
        self.write_fields(&mut ms);
        Json::Object(ms)
    }

    fn from_json(j: &Json) -> (r: Result<Self, DecodeError>) {
        match j {
            Json::Object(ms) => Self::read_fields(ms),
            _ => Err(DecodeError::WrongShape),
        }
    }

    proof fn lemma_round_trip(m: InitializeResultModel) {
        Self::lemma_fields_round_trip(m, Seq::empty(), Seq::empty());
        assert(Seq::empty() + Self::fields_json(m) + Seq::empty() =~= Self::fields_json(m));
    }

}

/// The data of an error of the `initialize` request.
#[derive(Clone, Copy, Debug, Default, PartialEq, Eq, Structural)]
pub struct InitializeError {
    /// Whether the client retries the initialize request after the user acted on the error message.
    pub retry: bool,
}

impl InitializeError {
    /// The members that a value contributes to the object it is written in.
    pub open spec fn fields_json(m: InitializeError) -> Seq<(Seq<char>, JVal)> {
        member("retry"@, bool::encode(m.retry))
    }

    /// Reads a value from the members of an object; other members are ignored.
    #[verifier::opaque]
    pub open spec fn fields_from(ms: Seq<(Seq<char>, JVal)>) -> Result<InitializeError, DecodeError> {
        match req_field::<bool>(ms, "retry"@) {
            Err(e) => Err(e),
            Ok(retry) => {
                Ok(InitializeError { retry })
            },
        }
    }

    /// The models that values can have.
    pub open spec fn fields_valid(m: InitializeError) -> bool {
        &&& bool::valid(m.retry)
    }

    /// The members of a value, written between members of other names, read back as the value.
    pub proof fn lemma_fields_round_trip(m: InitializeError, pre: Seq<(Seq<char>, JVal)>, post: Seq<(Seq<char>, JVal)>)
        requires
            Self::fields_valid(m),
            forall|k: Seq<char>| Self::uses_key(k) ==> (#[trigger] lookup(pre, k)) is None,
            forall|k: Seq<char>| Self::uses_key(k) ==> (#[trigger] lookup(post, k)) is None,
        ensures
            Self::fields_from(pre + Self::fields_json(m) + post) == Ok::<InitializeError, DecodeError>(m),
    {
        broadcast use group_lookup;
        reveal(InitializeError::fields_from);
        reveal_strlit("retry");
        assert("retry"@.len() == 5);
        bool::lemma_round_trip(m.retry);
    }

    /// Members with names that the type does not read change nothing.
    pub proof fn lemma_unknown_key(ms: Seq<(Seq<char>, JVal)>, k: Seq<char>, v: JVal)
        requires
            !Self::uses_key(k),
        ensures
            Self::fields_from(ms + member(k, v)) == Self::fields_from(ms),
    {
        broadcast use group_lookup;
        reveal(InitializeError::fields_from);
    }

    /// The member names that the type reads.
    pub open spec fn uses_key(k: Seq<char>) -> bool {
        k == "retry"@
    }

    /// Appends the members of the value to an object under construction.
    pub fn write_fields(&self, ms: &mut Vec<(String, Json)>)
        ensures
            members(Json::Object(*final(ms))@) == members(Json::Object(*old(ms))@) + Self::fields_json(self.model()),
    {
        let ghost start = members(Json::Object(*ms)@);
        push_member(ms, "retry", self.retry.to_json());
        assert(members(Json::Object(*ms)@) =~= start + Self::fields_json(self.model()));
    }

    /// Reads a value from the members of an object.
    pub fn read_fields(ms: &Vec<(String, Json)>) -> (r: Result<Self, DecodeError>)
        ensures
            match r {
                Ok(v) => Self::fields_from(members(Json::Object(*ms)@)) == Ok::<InitializeError, DecodeError>(v.model()),
                Err(e) => Self::fields_from(members(Json::Object(*ms)@)) == Err::<InitializeError, DecodeError>(e),
            },
    {
        proof {
            reveal(InitializeError::fields_from);
        }
        let retry = match read_req::<bool>(ms, "retry") {
            Ok(v) => v,
            Err(e) => return Err(e),
        };
        Ok(InitializeError { retry })
    }
}

impl JsonCodec for InitializeError {
    type Model = InitializeError;

    open spec fn model(&self) -> InitializeError {
        *self
    }

    open spec fn encode(m: InitializeError) -> JVal {
        JVal::Obj(Self::fields_json(m))
    }

    open spec fn decode(j: JVal) -> Result<InitializeError, DecodeError> {
        match j {
            JVal::Obj(ms) => Self::fields_from(ms),
            _ => Err(DecodeError::WrongShape),
        }
    }

    open spec fn valid(m: InitializeError) -> bool {
        Self::fields_valid(m)
    }

    fn to_json(&self) -> (r: Json) {
        let mut ms = new_object();
        self.write_fields(&mut ms);
        Json::Object(ms)
    }

    fn from_json(j: &Json) -> (r: Result<Self, DecodeError>) {
        match j {
            Json::Object(ms) => Self::read_fields(ms),
            _ => Err(DecodeError::WrongShape),
        }
    }

    proof fn lemma_round_trip(m: InitializeError) {
        Self::lemma_fields_round_trip(m, Seq::empty(), Seq::empty());
        assert(Seq::empty() + Self::fields_json(m) + Seq::empty() =~= Self::fields_json(m));
    }

}

/// General parameters to register for a capability.
#[derive(Clone, Debug, PartialEq, Eq)]
pub struct Registration {
    /// The id used to register the request; it can be used to unregister it again.
    pub id: String,
    /// The method or capability to register for.
    pub method: String,
    /// Options necessary for the registration.
    pub register_options: Option<Json>,
}

/// The mathematical value of a [`Registration`].
pub struct RegistrationModel {
    pub id: Seq<char>,
    pub method: Seq<char>,
    pub register_options: Option<JVal>,
}

impl Registration {
    /// The members that a value contributes to the object it is written in.
    pub open spec fn fields_json(m: RegistrationModel) -> Seq<(Seq<char>, JVal)> {
        member("id"@, String::encode(m.id))
            + member("method"@, String::encode(m.method))
            + opt_member::<Json>("registerOptions"@, m.register_options)
    }

    /// Reads a value from the members of an object; other members are ignored.
    #[verifier::opaque]
    pub open spec fn fields_from(ms: Seq<(Seq<char>, JVal)>) -> Result<RegistrationModel, DecodeError> {
        match req_field::<String>(ms, "id"@) {
            Err(e) => Err(e),
            Ok(id) => {
                match req_field::<String>(ms, "method"@) {
                    Err(e) => Err(e),
                    Ok(method) => {
                        match opt_field::<Json>(ms, "registerOptions"@) {
                            Err(e) => Err(e),
                            Ok(register_options) => {
                                Ok(RegistrationModel { id, method, register_options })
                            },
                        }
                    },
                }
            },
        }
    }

    /// The models that values can have.
    pub open spec fn fields_valid(m: RegistrationModel) -> bool {
        &&& String::valid(m.id)
        &&& String::valid(m.method)
        &&& opt_valid::<Json>(m.register_options)
    }

    /// The members of a value, written between members of other names, read back as the value.
    pub proof fn lemma_fields_round_trip(m: RegistrationModel, pre: Seq<(Seq<char>, JVal)>, post: Seq<(Seq<char>, JVal)>)
        requires
            Self::fields_valid(m),
            forall|k: Seq<char>| Self::uses_key(k) ==> (#[trigger] lookup(pre, k)) is None,
            forall|k: Seq<char>| Self::uses_key(k) ==> (#[trigger] lookup(post, k)) is None,
        ensures
            Self::fields_from(pre + Self::fields_json(m) + post) == Ok::<RegistrationModel, DecodeError>(m),
    {
        broadcast use group_lookup;
        reveal(Registration::fields_from);
        reveal_strlit("id");
        reveal_strlit("method");
        reveal_strlit("registerOptions");
        assert("id"@.len() == 2);
        assert("method"@.len() == 6);
        assert("registerOptions"@.len() == 15);
        String::lemma_round_trip(m.id);
        String::lemma_round_trip(m.method);
        if let Some(x) = m.register_options {
            Json::lemma_round_trip(x);
        }
    }

    /// Members with names that the type does not read change nothing.
    pub proof fn lemma_unknown_key(ms: Seq<(Seq<char>, JVal)>, k: Seq<char>, v: JVal)
        requires
            !Self::uses_key(k),
        ensures
            Self::fields_from(ms + member(k, v)) == Self::fields_from(ms),
    {
        broadcast use group_lookup;
        reveal(Registration::fields_from);
    }

    /// The member names that the type reads.
    pub open spec fn uses_key(k: Seq<char>) -> bool {
        k == "id"@ || k == "method"@ || k == "registerOptions"@
    }

    /// Appends the members of the value to an object under construction.
    pub fn write_fields(&self, ms: &mut Vec<(String, Json)>)
        ensures
            members(Json::Object(*final(ms))@) == members(Json::Object(*old(ms))@) + Self::fields_json(self.model()),
    {
        let ghost start = members(Json::Object(*ms)@);
        let ghost m = self.model();
        push_member(ms, "id", self.id.to_json());
        push_member(ms, "method", self.method.to_json());
        proof {
            lemma_concat_associative(start, member("id"@, String::encode(m.id)), member("method"@, String::encode(m.method)));
        }
        push_opt(ms, "registerOptions", &self.register_options);
        proof {
            lemma_concat_associative(start, member("id"@, String::encode(m.id)) + member("method"@, String::encode(m.method)), opt_member::<Json>("registerOptions"@, m.register_options));
        }
    }

    /// Reads a value from the members of an object.
    pub fn read_fields(ms: &Vec<(String, Json)>) -> (r: Result<Self, DecodeError>)
        ensures
            match r {
                Ok(v) => Self::fields_from(members(Json::Object(*ms)@)) == Ok::<RegistrationModel, DecodeError>(v.model()),
                Err(e) => Self::fields_from(members(Json::Object(*ms)@)) == Err::<RegistrationModel, DecodeError>(e),
            },
    {
        proof {
            reveal(Registration::fields_from);
        }
        let id = match read_req::<String>(ms, "id") {
            Ok(v) => v,
            Err(e) => return Err(e),
        };
        let method = match read_req::<String>(ms, "method") {
            Ok(v) => v,
            Err(e) => return Err(e),
        };
        let register_options = match read_opt::<Json>(ms, "registerOptions") {
            Ok(v) => v,
            Err(e) => return Err(e),
        };
        Ok(Registration { id, method, register_options })
    }
}

impl JsonCodec for Registration {
    type Model = RegistrationModel;

    open spec fn model(&self) -> RegistrationModel {
        RegistrationModel {
            id: self.id.model(),
            method: self.method.model(),
            register_options: self.register_options.model(),
        }
    }

    open spec fn encode(m: RegistrationModel) -> JVal {
        JVal::Obj(Self::fields_json(m))
    }

    open spec fn decode(j: JVal) -> Result<RegistrationModel, DecodeError> {
        match j {
            JVal::Obj(ms) => Self::fields_from(ms),
            _ => Err(DecodeError::WrongShape),
        }
    }

    open spec fn valid(m: RegistrationModel) -> bool {
        Self::fields_valid(m)
    }

    fn to_json(&self) -> (r: Json) {
        let mut ms = new_object();
        self.write_fields(&mut ms);
        Json::Object(ms)
    }

    fn from_json(j: &Json) -> (r: Result<Self, DecodeError>) {
        match j {
            Json::Object(ms) => Self::read_fields(ms),
            _ => Err(DecodeError::WrongShape),
        }
    }

    proof fn lemma_round_trip(m: RegistrationModel) {
        Self::lemma_fields_round_trip(m, Seq::empty(), Seq::empty());
        assert(Seq::empty() + Self::fields_json(m) + Seq::empty() =~= Self::fields_json(m));
    }

}

/// Parameters of the `client/registerCapability` request.
#[derive(Clone, Debug, PartialEq, Eq)]
pub struct RegistrationParams {
    pub registrations: Vec<Registration>,
}

/// The mathematical value of a [`RegistrationParams`].
pub struct RegistrationParamsModel {
    pub registrations: Seq<RegistrationModel>,
}

impl RegistrationParams {
    /// The members that a value contributes to the object it is written in.
    pub open spec fn fields_json(m: RegistrationParamsModel) -> Seq<(Seq<char>, JVal)> {
        member("registrations"@, <Vec<Registration>>::encode(m.registrations))
    }

    /// Reads a value from the members of an object; other members are ignored.
    #[verifier::opaque]
    pub open spec fn fields_from(ms: Seq<(Seq<char>, JVal)>) -> Result<RegistrationParamsModel, DecodeError> {
        match req_field::<Vec<Registration>>(ms, "registrations"@) {
            Err(e) => Err(e),
            Ok(registrations) => {
                Ok(RegistrationParamsModel { registrations })
            },
        }
    }

    /// The models that values can have.
    pub open spec fn fields_valid(m: RegistrationParamsModel) -> bool {
        &&& <Vec<Registration>>::valid(m.registrations)
    }

    /// The members of a value, written between members of other names, read back as the value.
    pub proof fn lemma_fields_round_trip(m: RegistrationParamsModel, pre: Seq<(Seq<char>, JVal)>, post: Seq<(Seq<char>, JVal)>)
        requires
            Self::fields_valid(m),
            forall|k: Seq<char>| Self::uses_key(k) ==> (#[trigger] lookup(pre, k)) is None,
            forall|k: Seq<char>| Self::uses_key(k) ==> (#[trigger] lookup(post, k)) is None,
        ensures
            Self::fields_from(pre + Self::fields_json(m) + post) == Ok::<RegistrationParamsModel, DecodeError>(m),
    {
        broadcast use group_lookup;
        reveal(RegistrationParams::fields_from);
        reveal_strlit("registrations");
        assert("registrations"@.len() == 13);
        <Vec<Registration>>::lemma_round_trip(m.registrations);
    }

    /// Members with names that the type does not read change nothing.
    pub proof fn lemma_unknown_key(ms: Seq<(Seq<char>, JVal)>, k: Seq<char>, v: JVal)
        requires
            !Self::uses_key(k),
        ensures
            Self::fields_from(ms + member(k, v)) == Self::fields_from(ms),
    {
        broadcast use group_lookup;
        reveal(RegistrationParams::fields_from);
    }

    /// The member names that the type reads.
    pub open spec fn uses_key(k: Seq<char>) -> bool {
        k == "registrations"@
    }

    /// Appends the members of the value to an object under construction.
    pub fn write_fields(&self, ms: &mut Vec<(String, Json)>)
        ensures
            members(Json::Object(*final(ms))@) == members(Json::Object(*old(ms))@) + Self::fields_json(self.model()),
    {
        let ghost start = members(Json::Object(*ms)@);
        push_member(ms, "registrations", self.registrations.to_json());
        assert(members(Json::Object(*ms)@) =~= start + Self::fields_json(self.model()));
    }

    /// Reads a value from the members of an object.
    pub fn read_fields(ms: &Vec<(String, Json)>) -> (r: Result<Self, DecodeError>)
        ensures
            match r {
                Ok(v) => Self::fields_from(members(Json::Object(*ms)@)) == Ok::<RegistrationParamsModel, DecodeError>(v.model()),
                Err(e) => Self::fields_from(members(Json::Object(*ms)@)) == Err::<RegistrationParamsModel, DecodeError>(e),
            },
    {
        proof {
            reveal(RegistrationParams::fields_from);
        }
        let registrations = match read_req::<Vec<Registration>>(ms, "registrations") {
            Ok(v) => v,
            Err(e) => return Err(e),
        };
        Ok(RegistrationParams { registrations })
    }
}

impl JsonCodec for RegistrationParams {
    type Model = RegistrationParamsModel;

    open spec fn model(&self) -> RegistrationParamsModel {
        RegistrationParamsModel {
            registrations: self.registrations.model(),
        }
    }

    open spec fn encode(m: RegistrationParamsModel) -> JVal {
        JVal::Obj(Self::fields_json(m))
    }

    open spec fn decode(j: JVal) -> Result<RegistrationParamsModel, DecodeError> {
        match j {
            JVal::Obj(ms) => Self::fields_from(ms),
            _ => Err(DecodeError::WrongShape),
        }
    }

    open spec fn valid(m: RegistrationParamsModel) -> bool {
        Self::fields_valid(m)
    }

    fn to_json(&self) -> (r: Json) {
        let mut ms = new_object();
        self.write_fields(&mut ms);
        Json::Object(ms)
    }

    fn from_json(j: &Json) -> (r: Result<Self, DecodeError>) {
        match j {
            Json::Object(ms) => Self::read_fields(ms),
            _ => Err(DecodeError::WrongShape),
        }
    }

    proof fn lemma_round_trip(m: RegistrationParamsModel) {
        Self::lemma_fields_round_trip(m, Seq::empty(), Seq::empty());
        assert(Seq::empty() + Self::fields_json(m) + Seq::empty() =~= Self::fields_json(m));
    }

}

/// General parameters to unregister a capability.
#[derive(Clone, Debug, PartialEq, Eq)]
pub struct Unregistration {
    /// The id used to unregister the request or notification.
    pub id: String,
    /// The method or capability to unregister for.
    pub method: String,
}

/// The mathematical value of a [`Unregistration`].
pub struct UnregistrationModel {
    pub id: Seq<char>,
    pub method: Seq<char>,
}

impl Unregistration {
    /// The members that a value contributes to the object it is written in.
    pub open spec fn fields_json(m: UnregistrationModel) -> Seq<(Seq<char>, JVal)> {
        member("id"@, String::encode(m.id))
            + member("method"@, String::encode(m.method))
    }

    /// Reads a value from the members of an object; other members are ignored.
    #[verifier::opaque]
    pub open spec fn fields_from(ms: Seq<(Seq<char>, JVal)>) -> Result<UnregistrationModel, DecodeError> {
        match req_field::<String>(ms, "id"@) {
            Err(e) => Err(e),
            Ok(id) => {
                match req_field::<String>(ms, "method"@) {
                    Err(e) => Err(e),
                    Ok(method) => {
                        Ok(UnregistrationModel { id, method })
                    },
                }
            },
        }
    }

    /// The models that values can have.
    pub open spec fn fields_valid(m: UnregistrationModel) -> bool {
        &&& String::valid(m.id)
        &&& String::valid(m.method)
    }

    /// The members of a value, written between members of other names, read back as the value.
    pub proof fn lemma_fields_round_trip(m: UnregistrationModel, pre: Seq<(Seq<char>, JVal)>, post: Seq<(Seq<char>, JVal)>)
        requires
            Self::fields_valid(m),
            forall|k: Seq<char>| Self::uses_key(k) ==> (#[trigger] lookup(pre, k)) is None,
            forall|k: Seq<char>| Self::uses_key(k) ==> (#[trigger] lookup(post, k)) is None,
        ensures
            Self::fields_from(pre + Self::fields_json(m) + post) == Ok::<UnregistrationModel, DecodeError>(m),
    {
        broadcast use group_lookup;
        reveal(Unregistration::fields_from);
        reveal_strlit("id");
        reveal_strlit("method");
        assert("id"@.len() == 2);
        assert("method"@.len() == 6);
        String::lemma_round_trip(m.id);
        String::lemma_round_trip(m.method);
    }

    /// Members with names that the type does not read change nothing.
    pub proof fn lemma_unknown_key(ms: Seq<(Seq<char>, JVal)>, k: Seq<char>, v: JVal)
        requires
            !Self::uses_key(k),
        ensures
            Self::fields_from(ms + member(k, v)) == Self::fields_from(ms),
    {
        broadcast use group_lookup;
        reveal(Unregistration::fields_from);
    }

    /// The member names that the type reads.
    pub open spec fn uses_key(k: Seq<char>) -> bool {
        k == "id"@ || k == "method"@
    }

    /// Appends the members of the value to an object under construction.
    pub fn write_fields(&self, ms: &mut Vec<(String, Json)>)
        ensures
            members(Json::Object(*final(ms))@) == members(Json::Object(*old(ms))@) + Self::fields_json(self.model()),
    {
        let ghost start = members(Json::Object(*ms)@);
        let ghost m = self.model();
        push_member(ms, "id", self.id.to_json());
        push_member(ms, "method", self.method.to_json());
        proof {
            lemma_concat_associative(start, member("id"@, String::encode(m.id)), member("method"@, String::encode(m.method)));
        }
    }

    /// Reads a value from the members of an object.
    pub fn read_fields(ms: &Vec<(String, Json)>) -> (r: Result<Self, DecodeError>)
        ensures
            match r {
                Ok(v) => Self::fields_from(members(Json::Object(*ms)@)) == Ok::<UnregistrationModel, DecodeError>(v.model()),
                Err(e) => Self::fields_from(members(Json::Object(*ms)@)) == Err::<UnregistrationModel, DecodeError>(e),
            },
    {
        proof {
            reveal(Unregistration::fields_from);
        }
        let id = match read_req::<String>(ms, "id") {
            Ok(v) => v,
            Err(e) => return Err(e),
        };
        let method = match read_req::<String>(ms, "method") {
            Ok(v) => v,
            Err(e) => return Err(e),
        };
        Ok(Unregistration { id, method })
    }
}

impl JsonCodec for Unregistration {
    type Model = UnregistrationModel;

    open spec fn model(&self) -> UnregistrationModel {
        UnregistrationModel {
            id: self.id.model(),
            method: self.method.model(),
        }
    }

    open spec fn encode(m: UnregistrationModel) -> JVal {
        JVal::Obj(Self::fields_json(m))
    }

    open spec fn decode(j: JVal) -> Result<UnregistrationModel, DecodeError> {
        match j {
            JVal::Obj(ms) => Self::fields_from(ms),
            _ => Err(DecodeError::WrongShape),
        }
    }

    open spec fn valid(m: UnregistrationModel) -> bool {
        Self::fields_valid(m)
    }

    fn to_json(&self) -> (r: Json) {
        let mut ms = new_object();
        self.write_fields(&mut ms);
        Json::Object(ms)
    }

    fn from_json(j: &Json) -> (r: Result<Self, DecodeError>) {
        match j {
            Json::Object(ms) => Self::read_fields(ms),
            _ => Err(DecodeError::WrongShape),
        }
    }

    proof fn lemma_round_trip(m: UnregistrationModel) {
        Self::lemma_fields_round_trip(m, Seq::empty(), Seq::empty());
        assert(Seq::empty() + Self::fields_json(m) + Seq::empty() =~= Self::fields_json(m));
    }

}

/// Parameters of the `client/unregisterCapability` request.
#[derive(Clone, Debug, PartialEq, Eq)]
pub struct UnregistrationParams {
    /// The unregistrations; the misspelled member name is the one the protocol uses.
    pub unregisterations: Vec<Unregistration>,
}

/// The mathematical value of a [`UnregistrationParams`].
pub struct UnregistrationParamsModel {
    pub unregisterations: Seq<UnregistrationModel>,
}

impl UnregistrationParams {
    /// The members that a value contributes to the object it is written in.
    pub open spec fn fields_json(m: UnregistrationParamsModel) -> Seq<(Seq<char>, JVal)> {
        member("unregisterations"@, <Vec<Unregistration>>::encode(m.unregisterations))
    }

    /// Reads a value from the members of an object; other members are ignored.
    #[verifier::opaque]
    pub open spec fn fields_from(ms: Seq<(Seq<char>, JVal)>) -> Result<UnregistrationParamsModel, DecodeError> {
        match req_field::<Vec<Unregistration>>(ms, "unregisterations"@) {
            Err(e) => Err(e),
            Ok(unregisterations) => {
                Ok(UnregistrationParamsModel { unregisterations })
            },
        }
    }

    /// The models that values can have.
    pub open spec fn fields_valid(m: UnregistrationParamsModel) -> bool {
        &&& <Vec<Unregistration>>::valid(m.unregisterations)
    }

    /// The members of a value, written between members of other names, read back as the value.
    pub proof fn lemma_fields_round_trip(m: UnregistrationParamsModel, pre: Seq<(Seq<char>, JVal)>, post: Seq<(Seq<char>, JVal)>)
        requires
            Self::fields_valid(m),
            forall|k: Seq<char>| Self::uses_key(k) ==> (#[trigger] lookup(pre, k)) is None,
            forall|k: Seq<char>| Self::uses_key(k) ==> (#[trigger] lookup(post, k)) is None,
        ensures
            Self::fields_from(pre + Self::fields_json(m) + post) == Ok::<UnregistrationParamsModel, DecodeError>(m),
    {
        broadcast use group_lookup;
        reveal(UnregistrationParams::fields_from);
        reveal_strlit("unregisterations");
        assert("unregisterations"@.len() == 16);
        <Vec<Unregistration>>::lemma_round_trip(m.unregisterations);
    }

    /// Members with names that the type does not read change nothing.
    pub proof fn lemma_unknown_key(ms: Seq<(Seq<char>, JVal)>, k: Seq<char>, v: JVal)
        requires
            !Self::uses_key(k),
        ensures
            Self::fields_from(ms + member(k, v)) == Self::fields_from(ms),
    {
        broadcast use group_lookup;
        reveal(UnregistrationParams::fields_from);
    }

    /// The member names that the type reads.
    pub open spec fn uses_key(k: Seq<char>) -> bool {
        k == "unregisterations"@
    }

    /// Appends the members of the value to an object under construction.
    pub fn write_fields(&self, ms: &mut Vec<(String, Json)>)
        ensures
            members(Json::Object(*final(ms))@) == members(Json::Object(*old(ms))@) + Self::fields_json(self.model()),
    {
        let ghost start = members(Json::Object(*ms)@);
        push_member(ms, "unregisterations", self.unregisterations.to_json());
        assert(members(Json::Object(*ms)@) =~= start + Self::fields_json(self.model()));
    }

    /// Reads a value from the members of an object.
    pub fn read_fields(ms: &Vec<(String, Json)>) -> (r: Result<Self, DecodeError>)
        ensures
            match r {
                Ok(v) => Self::fields_from(members(Json::Object(*ms)@)) == Ok::<UnregistrationParamsModel, DecodeError>(v.model()),
                Err(e) => Self::fields_from(members(Json::Object(*ms)@)) == Err::<UnregistrationParamsModel, DecodeError>(e),
            },
    {
        proof {
            reveal(UnregistrationParams::fields_from);
        }
        let unregisterations = match read_req::<Vec<Unregistration>>(ms, "unregisterations") {
            Ok(v) => v,
            Err(e) => return Err(e),
        };
        Ok(UnregistrationParams { unregisterations })
    }
}

impl JsonCodec for UnregistrationParams {
    type Model = UnregistrationParamsModel;

    open spec fn model(&self) -> UnregistrationParamsModel {
        UnregistrationParamsModel {
            unregisterations: self.unregisterations.model(),
        }
    }

    open spec fn encode(m: UnregistrationParamsModel) -> JVal {
        JVal::Obj(Self::fields_json(m))
    }

    open spec fn decode(j: JVal) -> Result<UnregistrationParamsModel, DecodeError> {
        match j {
            JVal::Obj(ms) => Self::fields_from(ms),
            _ => Err(DecodeError::WrongShape),
        }
    }

    open spec fn valid(m: UnregistrationParamsModel) -> bool {
        Self::fields_valid(m)
    }

    fn to_json(&self) -> (r: Json) {
        let mut ms = new_object();
        self.write_fields(&mut ms);
        Json::Object(ms)
    }

    fn from_json(j: &Json) -> (r: Result<Self, DecodeError>) {
        match j {
            Json::Object(ms) => Self::read_fields(ms),
            _ => Err(DecodeError::WrongShape),
        }
    }

    proof fn lemma_round_trip(m: UnregistrationParamsModel) {
        Self::lemma_fields_round_trip(m, Seq::empty(), Seq::empty());
        assert(Seq::empty() + Self::fields_json(m) + Seq::empty() =~= Self::fields_json(m));
    }

}

/// Parameters of the `workspace/didChangeConfiguration` notification.
#[derive(Clone, Debug, PartialEq, Eq)]
pub struct DidChangeConfigurationParams {
    /// The actual changed settings.
    pub settings: Json,
}

/// The mathematical value of a [`DidChangeConfigurationParams`].
pub struct DidChangeConfigurationParamsModel {
    pub settings: JVal,
}

impl DidChangeConfigurationParams {
    /// The members that a value contributes to the object it is written in.
    pub open spec fn fields_json(m: DidChangeConfigurationParamsModel) -> Seq<(Seq<char>, JVal)> {
        member("settings"@, Json::encode(m.settings))
    }

    /// Reads a value from the members of an object; other members are ignored.
    #[verifier::opaque]
    pub open spec fn fields_from(ms: Seq<(Seq<char>, JVal)>) -> Result<DidChangeConfigurationParamsModel, DecodeError> {
        match req_field::<Json>(ms, "settings"@) {
            Err(e) => Err(e),
            Ok(settings) => {
                Ok(DidChangeConfigurationParamsModel { settings })
            },
        }
    }

    /// The models that values can have.
    pub open spec fn fields_valid(m: DidChangeConfigurationParamsModel) -> bool {
        &&& Json::valid(m.settings)
    }

    /// The members of a value, written between members of other names, read back as the value.
    pub proof fn lemma_fields_round_trip(m: DidChangeConfigurationParamsModel, pre: Seq<(Seq<char>, JVal)>, post: Seq<(Seq<char>, JVal)>)
        requires
            Self::fields_valid(m),
            forall|k: Seq<char>| Self::uses_key(k) ==> (#[trigger] lookup(pre, k)) is None,
            forall|k: Seq<char>| Self::uses_key(k) ==> (#[trigger] lookup(post, k)) is None,
        ensures
            Self::fields_from(pre + Self::fields_json(m) + post) == Ok::<DidChangeConfigurationParamsModel, DecodeError>(m),
    {
        broadcast use group_lookup;
        reveal(DidChangeConfigurationParams::fields_from);
        reveal_strlit("settings");
        assert("settings"@.len() == 8);
        Json::lemma_round_trip(m.settings);
    }

    /// Members with names that the type does not read change nothing.
    pub proof fn lemma_unknown_key(ms: Seq<(Seq<char>, JVal)>, k: Seq<char>, v: JVal)
        requires
            !Self::uses_key(k),
        ensures
            Self::fields_from(ms + member(k, v)) == Self::fields_from(ms),
    {
        broadcast use group_lookup;
        reveal(DidChangeConfigurationParams::fields_from);
    }

    /// The member names that the type reads.
    pub open spec fn uses_key(k: Seq<char>) -> bool {
        k == "settings"@
    }

    /// Appends the members of the value to an object under construction.
    pub fn write_fields(&self, ms: &mut Vec<(String, Json)>)
        ensures
            members(Json::Object(*final(ms))@) == members(Json::Object(*old(ms))@) + Self::fields_json(self.model()),
    {
        let ghost start = members(Json::Object(*ms)@);
        push_member(ms, "settings", self.settings.to_json());
        assert(members(Json::Object(*ms)@) =~= start + Self::fields_json(self.model()));
    }

    /// Reads a value from the members of an object.
    pub fn read_fields(ms: &Vec<(String, Json)>) -> (r: Result<Self, DecodeError>)
        ensures
            match r {
                Ok(v) => Self::fields_from(members(Json::Object(*ms)@)) == Ok::<DidChangeConfigurationParamsModel, DecodeError>(v.model()),
                Err(e) => Self::fields_from(members(Json::Object(*ms)@)) == Err::<DidChangeConfigurationParamsModel, DecodeError>(e),
            },
    {
        proof {
            reveal(DidChangeConfigurationParams::fields_from);
        }
        let settings = match read_req::<Json>(ms, "settings") {
            Ok(v) => v,
            Err(e) => return Err(e),
        };
        Ok(DidChangeConfigurationParams { settings })
    }
}

impl JsonCodec for DidChangeConfigurationParams {
    type Model = DidChangeConfigurationParamsModel;

    open spec fn model(&self) -> DidChangeConfigurationParamsModel {
        DidChangeConfigurationParamsModel {
            settings: self.settings.model(),
        }
    }

    open spec fn encode(m: DidChangeConfigurationParamsModel) -> JVal {
        JVal::Obj(Self::fields_json(m))
    }

    open spec fn decode(j: JVal) -> Result<DidChangeConfigurationParamsModel, DecodeError> {
        match j {
            JVal::Obj(ms) => Self::fields_from(ms),
            _ => Err(DecodeError::WrongShape),
        }
    }

    open spec fn valid(m: DidChangeConfigurationParamsModel) -> bool {
        Self::fields_valid(m)
    }

    fn to_json(&self) -> (r: Json) {
        let mut ms = new_object();
        self.write_fields(&mut ms);
        Json::Object(ms)
    }

    fn from_json(j: &Json) -> (r: Result<Self, DecodeError>) {
        match j {
            Json::Object(ms) => Self::read_fields(ms),
            _ => Err(DecodeError::WrongShape),
        }
    }

    proof fn lemma_round_trip(m: DidChangeConfigurationParamsModel) {
        Self::lemma_fields_round_trip(m, Seq::empty(), Seq::empty());
        assert(Seq::empty() + Self::fields_json(m) + Seq::empty() =~= Self::fields_json(m));
    }

}

/// Parameters of the `textDocument/didOpen` notification.
#[derive(Clone, Debug, PartialEq, Eq)]
pub struct DidOpenTextDocumentParams {
    /// The document that was opened.
    pub text_document: TextDocumentItem,
}

/// The mathematical value of a [`DidOpenTextDocumentParams`].
pub struct DidOpenTextDocumentParamsModel {
    pub text_document: TextDocumentItemModel,
}

impl DidOpenTextDocumentParams {
    /// The members that a value contributes to the object it is written in.
    pub open spec fn fields_json(m: DidOpenTextDocumentParamsModel) -> Seq<(Seq<char>, JVal)> {
        member("textDocument"@, TextDocumentItem::encode(m.text_document))
    }

    /// Reads a value from the members of an object; other members are ignored.
    #[verifier::opaque]
    pub open spec fn fields_from(ms: Seq<(Seq<char>, JVal)>) -> Result<DidOpenTextDocumentParamsModel, DecodeError> {
        match req_field::<TextDocumentItem>(ms, "textDocument"@) {
            Err(e) => Err(e),
            Ok(text_document) => {
                Ok(DidOpenTextDocumentParamsModel { text_document })
            },
        }
    }

    /// The models that values can have.
    pub open spec fn fields_valid(m: DidOpenTextDocumentParamsModel) -> bool {
        &&& TextDocumentItem::valid(m.text_document)
    }

    /// The members of a value, written between members of other names, read back as the value.
    pub proof fn lemma_fields_round_trip(m: DidOpenTextDocumentParamsModel, pre: Seq<(Seq<char>, JVal)>, post: Seq<(Seq<char>, JVal)>)
        requires
            Self::fields_valid(m),
            forall|k: Seq<char>| Self::uses_key(k) ==> (#[trigger] lookup(pre, k)) is None,
            forall|k: Seq<char>| Self::uses_key(k) ==> (#[trigger] lookup(post, k)) is None,
        ensures
            Self::fields_from(pre + Self::fields_json(m) + post) == Ok::<DidOpenTextDocumentParamsModel, DecodeError>(m),
    {
        broadcast use group_lookup;
        reveal(DidOpenTextDocumentParams::fields_from);
        reveal_strlit("textDocument");
        assert("textDocument"@.len() == 12);
        TextDocumentItem::lemma_round_trip(m.text_document);
    }

    /// Members with names that the type does not read change nothing.
    pub proof fn lemma_unknown_key(ms: Seq<(Seq<char>, JVal)>, k: Seq<char>, v: JVal)
        requires
            !Self::uses_key(k),
        ensures
            Self::fields_from(ms + member(k, v)) == Self::fields_from(ms),
    {
        broadcast use group_lookup;
        reveal(DidOpenTextDocumentParams::fields_from);
    }

    /// The member names that the type reads.
    pub open spec fn uses_key(k: Seq<char>) -> bool {
        k == "textDocument"@
    }

    /// Appends the members of the value to an object under construction.
    pub fn write_fields(&self, ms: &mut Vec<(String, Json)>)
        ensures
            members(Json::Object(*final(ms))@) == members(Json::Object(*old(ms))@) + Self::fields_json(self.model()),
    {
        let ghost start = members(Json::Object(*ms)@);
        push_member(ms, "textDocument", self.text_document.to_json());
        assert(members(Json::Object(*ms)@) =~= start + Self::fields_json(self.model()));
    }

    /// Reads a value from the members of an object.
    pub fn read_fields(ms: &Vec<(String, Json)>) -> (r: Result<Self, DecodeError>)
        ensures
            match r {
                Ok(v) => Self::fields_from(members(Json::Object(*ms)@)) == Ok::<DidOpenTextDocumentParamsModel, DecodeError>(v.model()),
                Err(e) => Self::fields_from(members(Json::Object(*ms)@)) == Err::<DidOpenTextDocumentParamsModel, DecodeError>(e),
            },
    {
        proof {
            reveal(DidOpenTextDocumentParams::fields_from);
        }
        let text_document = match read_req::<TextDocumentItem>(ms, "textDocument") {
            Ok(v) => v,
            Err(e) => return Err(e),
        };
        Ok(DidOpenTextDocumentParams { text_document })
    }
}

impl JsonCodec for DidOpenTextDocumentParams {
    type Model = DidOpenTextDocumentParamsModel;

    open spec fn model(&self) -> DidOpenTextDocumentParamsModel {
        DidOpenTextDocumentParamsModel {
            text_document: self.text_document.model(),
        }
    }

    open spec fn encode(m: DidOpenTextDocumentParamsModel) -> JVal {
        JVal::Obj(Self::fields_json(m))
    }

    open spec fn decode(j: JVal) -> Result<DidOpenTextDocumentParamsModel, DecodeError> {
        match j {
            JVal::Obj(ms) => Self::fields_from(ms),
            _ => Err(DecodeError::WrongShape),
        }
    }

    open spec fn valid(m: DidOpenTextDocumentParamsModel) -> bool {
        Self::fields_valid(m)
    }

    fn to_json(&self) -> (r: Json) {
        let mut ms = new_object();
        self.write_fields(&mut ms);
        Json::Object(ms)
    }

    fn from_json(j: &Json) -> (r: Result<Self, DecodeError>) {
        match j {
            Json::Object(ms) => Self::read_fields(ms),
            _ => Err(DecodeError::WrongShape),
        }
    }

    proof fn lemma_round_trip(m: DidOpenTextDocumentParamsModel) {
        Self::lemma_fields_round_trip(m, Seq::empty(), Seq::empty());
        assert(Seq::empty() + Self::fields_json(m) + Seq::empty() =~= Self::fields_json(m));
    }

}

/// An event describing a change to a text document.
#[derive(Clone, Debug, PartialEq, Eq)]
pub struct TextDocumentContentChangeEvent {
    /// The range of the document that changed; absent when the whole document is replaced.
    pub range: Option<Range>,
    /// The length of the range that got replaced. Deprecated.
    pub range_length: Option<u32>,
    /// The new text of the range, or of the whole document.
    pub text: String,
}

/// The mathematical value of a [`TextDocumentContentChangeEvent`].
pub struct TextDocumentContentChangeEventModel {
    pub range: Option<Range>,
    pub range_length: Option<u32>,
    pub text: Seq<char>,
}

impl TextDocumentContentChangeEvent {
    /// The members that a value contributes to the object it is written in.
    pub open spec fn fields_json(m: TextDocumentContentChangeEventModel) -> Seq<(Seq<char>, JVal)> {
        opt_member::<Range>("range"@, m.range)
            + opt_member::<u32>("rangeLength"@, m.range_length)
            + member("text"@, String::encode(m.text))
    }

    /// Reads a value from the members of an object; other members are ignored.
    #[verifier::opaque]
    pub open spec fn fields_from(ms: Seq<(Seq<char>, JVal)>) -> Result<TextDocumentContentChangeEventModel, DecodeError> {
        match opt_field::<Range>(ms, "range"@) {
            Err(e) => Err(e),
            Ok(range) => {
                match opt_field::<u32>(ms, "rangeLength"@) {
                    Err(e) => Err(e),
                    Ok(range_length) => {
                        match req_field::<String>(ms, "text"@) {
                            Err(e) => Err(e),
                            Ok(text) => {
                                Ok(TextDocumentContentChangeEventModel { range, range_length, text })
                            },
                        }
                    },
                }
            },
        }
    }

    /// The models that values can have.
    pub open spec fn fields_valid(m: TextDocumentContentChangeEventModel) -> bool {
        &&& opt_valid::<Range>(m.range)
        &&& opt_valid::<u32>(m.range_length)
        &&& String::valid(m.text)
    }

    /// The members of a value, written between members of other names, read back as the value.
    pub proof fn lemma_fields_round_trip(m: TextDocumentContentChangeEventModel, pre: Seq<(Seq<char>, JVal)>, post: Seq<(Seq<char>, JVal)>)
        requires
            Self::fields_valid(m),
            forall|k: Seq<char>| Self::uses_key(k) ==> (#[trigger] lookup(pre, k)) is None,
            forall|k: Seq<char>| Self::uses_key(k) ==> (#[trigger] lookup(post, k)) is None,
        ensures
            Self::fields_from(pre + Self::fields_json(m) + post) == Ok::<TextDocumentContentChangeEventModel, DecodeError>(m),
    {
        broadcast use group_lookup;
        reveal(TextDocumentContentChangeEvent::fields_from);
        reveal_strlit("range");
        reveal_strlit("rangeLength");
        reveal_strlit("text");
        assert("range"@.len() == 5);
        assert("rangeLength"@.len() == 11);
        assert("text"@.len() == 4);
        if let Some(x) = m.range {
            Range::lemma_round_trip(x);
        }
        if let Some(x) = m.range_length {
            u32::lemma_round_trip(x);
        }
        String::lemma_round_trip(m.text);
    }

    /// Members with names that the type does not read change nothing.
    pub proof fn lemma_unknown_key(ms: Seq<(Seq<char>, JVal)>, k: Seq<char>, v: JVal)
        requires
            !Self::uses_key(k),
        ensures
            Self::fields_from(ms + member(k, v)) == Self::fields_from(ms),
    {
        broadcast use group_lookup;
        reveal(TextDocumentContentChangeEvent::fields_from);
    }

    /// The member names that the type reads.
    pub open spec fn uses_key(k: Seq<char>) -> bool {
        k == "range"@ || k == "rangeLength"@ || k == "text"@
    }

    /// Appends the members of the value to an object under construction.
    pub fn write_fields(&self, ms: &mut Vec<(String, Json)>)
        ensures
            members(Json::Object(*final(ms))@) == members(Json::Object(*old(ms))@) + Self::fields_json(self.model()),
    {
        let ghost start = members(Json::Object(*ms)@);
        let ghost m = self.model();
        push_opt(ms, "range", &self.range);
        push_opt(ms, "rangeLength", &self.range_length);
        proof {
            lemma_concat_associative(start, opt_member::<Range>("range"@, m.range), opt_member::<u32>("rangeLength"@, m.range_length));
        }
        push_member(ms, "text", self.text.to_json());
        proof {
            lemma_concat_associative(start, opt_member::<Range>("range"@, m.range) + opt_member::<u32>("rangeLength"@, m.range_length), member("text"@, String::encode(m.text)));
        }
    }

    /// Reads a value from the members of an object.
    pub fn read_fields(ms: &Vec<(String, Json)>) -> (r: Result<Self, DecodeError>)
        ensures
            match r {
                Ok(v) => Self::fields_from(members(Json::Object(*ms)@)) == Ok::<TextDocumentContentChangeEventModel, DecodeError>(v.model()),
                Err(e) => Self::fields_from(members(Json::Object(*ms)@)) == Err::<TextDocumentContentChangeEventModel, DecodeError>(e),
            },
    {
        proof {
            reveal(TextDocumentContentChangeEvent::fields_from);
        }
        let range = match read_opt::<Range>(ms, "range") {
            Ok(v) => v,
            Err(e) => return Err(e),
        };
        let range_length = match read_opt::<u32>(ms, "rangeLength") {
            Ok(v) => v,
            Err(e) => return Err(e),
        };
        let text = match read_req::<String>(ms, "text") {
            Ok(v) => v,
            Err(e) => return Err(e),
        };
        Ok(TextDocumentContentChangeEvent { range, range_length, text })
    }
}

impl JsonCodec for TextDocumentContentChangeEvent {
    type Model = TextDocumentContentChangeEventModel;

    open spec fn model(&self) -> TextDocumentContentChangeEventModel {
        TextDocumentContentChangeEventModel {
            range: self.range.model(),
            range_length: self.range_length.model(),
            text: self.text.model(),
        }
    }

    open spec fn encode(m: TextDocumentContentChangeEventModel) -> JVal {
        JVal::Obj(Self::fields_json(m))
    }

    open spec fn decode(j: JVal) -> Result<TextDocumentContentChangeEventModel, DecodeError> {
        match j {
            JVal::Obj(ms) => Self::fields_from(ms),
            _ => Err(DecodeError::WrongShape),
        }
    }

    open spec fn valid(m: TextDocumentContentChangeEventModel) -> bool {
        Self::fields_valid(m)
    }

    fn to_json(&self) -> (r: Json) {
        let mut ms = new_object();
        self.write_fields(&mut ms);
        Json::Object(ms)
    }

    fn from_json(j: &Json) -> (r: Result<Self, DecodeError>) {
        match j {
            Json::Object(ms) => Self::read_fields(ms),
            _ => Err(DecodeError::WrongShape),
        }
    }

    proof fn lemma_round_trip(m: TextDocumentContentChangeEventModel) {
        Self::lemma_fields_round_trip(m, Seq::empty(), Seq::empty());
        assert(Seq::empty() + Self::fields_json(m) + Seq::empty() =~= Self::fields_json(m));
    }

}

/// Parameters of the `textDocument/didChange` notification.
#[derive(Clone, Debug, PartialEq, Eq)]
pub struct DidChangeTextDocumentParams {
    /// The document that did change, at the version after all changes.
    pub text_document: VersionedTextDocumentIdentifier,
    /// The content changes, in the order they were applied.
    pub content_changes: Vec<TextDocumentContentChangeEvent>,
}

/// The mathematical value of a [`DidChangeTextDocumentParams`].
pub struct DidChangeTextDocumentParamsModel {
    pub text_document: VersionedTextDocumentIdentifierModel,
    pub content_changes: Seq<TextDocumentContentChangeEventModel>,
}

impl DidChangeTextDocumentParams {
    /// The members that a value contributes to the object it is written in.
    pub open spec fn fields_json(m: DidChangeTextDocumentParamsModel) -> Seq<(Seq<char>, JVal)> {
        member("textDocument"@, VersionedTextDocumentIdentifier::encode(m.text_document))
            + member("contentChanges"@, <Vec<TextDocumentContentChangeEvent>>::encode(m.content_changes))
    }

    /// Reads a value from the members of an object; other members are ignored.
    #[verifier::opaque]
    pub open spec fn fields_from(ms: Seq<(Seq<char>, JVal)>) -> Result<DidChangeTextDocumentParamsModel, DecodeError> {
        match req_field::<VersionedTextDocumentIdentifier>(ms, "textDocument"@) {
            Err(e) => Err(e),
            Ok(text_document) => {
                match req_field::<Vec<TextDocumentContentChangeEvent>>(ms, "contentChanges"@) {
                    Err(e) => Err(e),
                    Ok(content_changes) => {
                        Ok(DidChangeTextDocumentParamsModel { text_document, content_changes })
                    },
                }
            },
        }
    }

    /// The models that values can have.
    pub open spec fn fields_valid(m: DidChangeTextDocumentParamsModel) -> bool {
        &&& VersionedTextDocumentIdentifier::valid(m.text_document)
        &&& <Vec<TextDocumentContentChangeEvent>>::valid(m.content_changes)
    }

    /// The members of a value, written between members of other names, read back as the value.
    pub proof fn lemma_fields_round_trip(m: DidChangeTextDocumentParamsModel, pre: Seq<(Seq<char>, JVal)>, post: Seq<(Seq<char>, JVal)>)
        requires
            Self::fields_valid(m),
            forall|k: Seq<char>| Self::uses_key(k) ==> (#[trigger] lookup(pre, k)) is None,
            forall|k: Seq<char>| Self::uses_key(k) ==> (#[trigger] lookup(post, k)) is None,
        ensures
            Self::fields_from(pre + Self::fields_json(m) + post) == Ok::<DidChangeTextDocumentParamsModel, DecodeError>(m),
    {
        broadcast use group_lookup;
        reveal(DidChangeTextDocumentParams::fields_from);
        reveal_strlit("textDocument");
        reveal_strlit("contentChanges");
        assert("textDocument"@.len() == 12);
        assert("contentChanges"@.len() == 14);
        VersionedTextDocumentIdentifier::lemma_round_trip(m.text_document);
        <Vec<TextDocumentContentChangeEvent>>::lemma_round_trip(m.content_changes);
    }

    /// Members with names that the type does not read change nothing.
    pub proof fn lemma_unknown_key(ms: Seq<(Seq<char>, JVal)>, k: Seq<char>, v: JVal)
        requires
            !Self::uses_key(k),
        ensures
            Self::fields_from(ms + member(k, v)) == Self::fields_from(ms),
    {
        broadcast use group_lookup;
        reveal(DidChangeTextDocumentParams::fields_from);
    }

    /// The member names that the type reads.
    pub open spec fn uses_key(k: Seq<char>) -> bool {
        k == "textDocument"@ || k == "contentChanges"@
    }

    /// Appends the members of the value to an object under construction.
    pub fn write_fields(&self, ms: &mut Vec<(String, Json)>)
        ensures
            members(Json::Object(*final(ms))@) == members(Json::Object(*old(ms))@) + Self::fields_json(self.model()),
    {
        let ghost start = members(Json::Object(*ms)@);
        let ghost m = self.model();
        push_member(ms, "textDocument", self.text_document.to_json());
        push_member(ms, "contentChanges", self.content_changes.to_json());
        proof {
            lemma_concat_associative(start, member("textDocument"@, VersionedTextDocumentIdentifier::encode(m.text_document)), member("contentChanges"@, <Vec<TextDocumentContentChangeEvent>>::encode(m.content_changes)));
        }
    }

    /// Reads a value from the members of an object.
    pub fn read_fields(ms: &Vec<(String, Json)>) -> (r: Result<Self, DecodeError>)
        ensures
            match r {
                Ok(v) => Self::fields_from(members(Json::Object(*ms)@)) == Ok::<DidChangeTextDocumentParamsModel, DecodeError>(v.model()),
                Err(e) => Self::fields_from(members(Json::Object(*ms)@)) == Err::<DidChangeTextDocumentParamsModel, DecodeError>(e),
            },
    {
        proof {
            reveal(DidChangeTextDocumentParams::fields_from);
        }
        let text_document = match read_req::<VersionedTextDocumentIdentifier>(ms, "textDocument") {
            Ok(v) => v,
            Err(e) => return Err(e),
        };
        let content_changes = match read_req::<Vec<TextDocumentContentChangeEvent>>(ms, "contentChanges") {
            Ok(v) => v,
            Err(e) => return Err(e),
        };
        Ok(DidChangeTextDocumentParams { text_document, content_changes })
    }
}

impl JsonCodec for DidChangeTextDocumentParams {
    type Model = DidChangeTextDocumentParamsModel;

    open spec fn model(&self) -> DidChangeTextDocumentParamsModel {
        DidChangeTextDocumentParamsModel {
            text_document: self.text_document.model(),
            content_changes: self.content_changes.model(),
        }
    }

    open spec fn encode(m: DidChangeTextDocumentParamsModel) -> JVal {
        JVal::Obj(Self::fields_json(m))
    }

    open spec fn decode(j: JVal) -> Result<DidChangeTextDocumentParamsModel, DecodeError> {
        match j {
            JVal::Obj(ms) => Self::fields_from(ms),
            _ => Err(DecodeError::WrongShape),
        }
    }

    open spec fn valid(m: DidChangeTextDocumentParamsModel) -> bool {
        Self::fields_valid(m)
    }

    fn to_json(&self) -> (r: Json) {
        let mut ms = new_object();
        self.write_fields(&mut ms);
        Json::Object(ms)
    }

    fn from_json(j: &Json) -> (r: Result<Self, DecodeError>) {
        match j {
            Json::Object(ms) => Self::read_fields(ms),
            _ => Err(DecodeError::WrongShape),
        }
    }

    proof fn lemma_round_trip(m: DidChangeTextDocumentParamsModel) {
        Self::lemma_fields_round_trip(m, Seq::empty(), Seq::empty());
        assert(Seq::empty() + Self::fields_json(m) + Seq::empty() =~= Self::fields_json(m));
    }

}

/// Parameters of the `textDocument/willSave` notification.
#[derive(Clone, Debug, PartialEq, Eq)]
pub struct WillSaveTextDocumentParams {
    /// The document that will be saved.
    pub text_document: TextDocumentIdentifier,
    /// The reason why the document is saved.
    pub reason: TextDocumentSaveReason,
}

/// The mathematical value of a [`WillSaveTextDocumentParams`].
pub struct WillSaveTextDocumentParamsModel {
    pub text_document: TextDocumentIdentifierModel,
    pub reason: TextDocumentSaveReason,
}

impl WillSaveTextDocumentParams {
    /// The members that a value contributes to the object it is written in.
    pub open spec fn fields_json(m: WillSaveTextDocumentParamsModel) -> Seq<(Seq<char>, JVal)> {
        member("textDocument"@, TextDocumentIdentifier::encode(m.text_document))
            + member("reason"@, TextDocumentSaveReason::encode(m.reason))
    }

    /// Reads a value from the members of an object; other members are ignored.
    #[verifier::opaque]
    pub open spec fn fields_from(ms: Seq<(Seq<char>, JVal)>) -> Result<WillSaveTextDocumentParamsModel, DecodeError> {
        match req_field::<TextDocumentIdentifier>(ms, "textDocument"@) {
            Err(e) => Err(e),
            Ok(text_document) => {
                match req_field::<TextDocumentSaveReason>(ms, "reason"@) {
                    Err(e) => Err(e),
                    Ok(reason) => {
                        Ok(WillSaveTextDocumentParamsModel { text_document, reason })
                    },
                }
            },
        }
    }

    /// The models that values can have.
    pub open spec fn fields_valid(m: WillSaveTextDocumentParamsModel) -> bool {
        &&& TextDocumentIdentifier::valid(m.text_document)
        &&& TextDocumentSaveReason::valid(m.reason)
    }

    /// The members of a value, written between members of other names, read back as the value.
    pub proof fn lemma_fields_round_trip(m: WillSaveTextDocumentParamsModel, pre: Seq<(Seq<char>, JVal)>, post: Seq<(Seq<char>, JVal)>)
        requires
            Self::fields_valid(m),
            forall|k: Seq<char>| Self::uses_key(k) ==> (#[trigger] lookup(pre, k)) is None,
            forall|k: Seq<char>| Self::uses_key(k) ==> (#[trigger] lookup(post, k)) is None,
        ensures
            Self::fields_from(pre + Self::fields_json(m) + post) == Ok::<WillSaveTextDocumentParamsModel, DecodeError>(m),
    {
        broadcast use group_lookup;
        reveal(WillSaveTextDocumentParams::fields_from);
        reveal_strlit("textDocument");
        reveal_strlit("reason");
        assert("textDocument"@.len() == 12);
        assert("reason"@.len() == 6);
        TextDocumentIdentifier::lemma_round_trip(m.text_document);
        TextDocumentSaveReason::lemma_round_trip(m.reason);
    }

    /// Members with names that the type does not read change nothing.
    pub proof fn lemma_unknown_key(ms: Seq<(Seq<char>, JVal)>, k: Seq<char>, v: JVal)
        requires
            !Self::uses_key(k),
        ensures
            Self::fields_from(ms + member(k, v)) == Self::fields_from(ms),
    {
        broadcast use group_lookup;
        reveal(WillSaveTextDocumentParams::fields_from);
    }

    /// The member names that the type reads.
    pub open spec fn uses_key(k: Seq<char>) -> bool {
        k == "textDocument"@ || k == "reason"@
    }

    /// Appends the members of the value to an object under construction.
    pub fn write_fields(&self, ms: &mut Vec<(String, Json)>)
        ensures
            members(Json::Object(*final(ms))@) == members(Json::Object(*old(ms))@) + Self::fields_json(self.model()),
    {
        let ghost start = members(Json::Object(*ms)@);
        let ghost m = self.model();
        push_member(ms, "textDocument", self.text_document.to_json());
        push_member(ms, "reason", self.reason.to_json());
        proof {
            lemma_concat_associative(start, member("textDocument"@, TextDocumentIdentifier::encode(m.text_document)), member("reason"@, TextDocumentSaveReason::encode(m.reason)));
        }
    }

    /// Reads a value from the members of an object.
    pub fn read_fields(ms: &Vec<(String, Json)>) -> (r: Result<Self, DecodeError>)
        ensures
            match r {
                Ok(v) => Self::fields_from(members(Json::Object(*ms)@)) == Ok::<WillSaveTextDocumentParamsModel, DecodeError>(v.model()),
                Err(e) => Self::fields_from(members(Json::Object(*ms)@)) == Err::<WillSaveTextDocumentParamsModel, DecodeError>(e),
            },
    {
        proof {
            reveal(WillSaveTextDocumentParams::fields_from);
        }
        let text_document = match read_req::<TextDocumentIdentifier>(ms, "textDocument") {
            Ok(v) => v,
            Err(e) => return Err(e),
        };
        let reason = match read_req::<TextDocumentSaveReason>(ms, "reason") {
            Ok(v) => v,
            Err(e) => return Err(e),
        };
        Ok(WillSaveTextDocumentParams { text_document, reason })
    }
}

impl JsonCodec for WillSaveTextDocumentParams {
    type Model = WillSaveTextDocumentParamsModel;

    open spec fn model(&self) -> WillSaveTextDocumentParamsModel {
        WillSaveTextDocumentParamsModel {
            text_document: self.text_document.model(),
            reason: self.reason.model(),
        }
    }

    open spec fn encode(m: WillSaveTextDocumentParamsModel) -> JVal {
        JVal::Obj(Self::fields_json(m))
    }

    open spec fn decode(j: JVal) -> Result<WillSaveTextDocumentParamsModel, DecodeError> {
        match j {
            JVal::Obj(ms) => Self::fields_from(ms),
            _ => Err(DecodeError::WrongShape),
        }
    }

    open spec fn valid(m: WillSaveTextDocumentParamsModel) -> bool {
        Self::fields_valid(m)
    }

    fn to_json(&self) -> (r: Json) {
        let mut ms = new_object();
        self.write_fields(&mut ms);
        Json::Object(ms)
    }

    fn from_json(j: &Json) -> (r: Result<Self, DecodeError>) {
        match j {
            Json::Object(ms) => Self::read_fields(ms),
            _ => Err(DecodeError::WrongShape),
        }
    }

    proof fn lemma_round_trip(m: WillSaveTextDocumentParamsModel) {
        Self::lemma_fields_round_trip(m, Seq::empty(), Seq::empty());
        assert(Seq::empty() + Self::fields_json(m) + Seq::empty() =~= Self::fields_json(m));
    }

}

/// Parameters of the `textDocument/didClose` notification.
#[derive(Clone, Debug, PartialEq, Eq)]
pub struct DidCloseTextDocumentParams {
    /// The document that was closed.
    pub text_document: TextDocumentIdentifier,
}

/// The mathematical value of a [`DidCloseTextDocumentParams`].
pub struct DidCloseTextDocumentParamsModel {
    pub text_document: TextDocumentIdentifierModel,
}

impl DidCloseTextDocumentParams {
    /// The members that a value contributes to the object it is written in.
    pub open spec fn fields_json(m: DidCloseTextDocumentParamsModel) -> Seq<(Seq<char>, JVal)> {
        member("textDocument"@, TextDocumentIdentifier::encode(m.text_document))
    }

    /// Reads a value from the members of an object; other members are ignored.
    #[verifier::opaque]
    pub open spec fn fields_from(ms: Seq<(Seq<char>, JVal)>) -> Result<DidCloseTextDocumentParamsModel, DecodeError> {
        match req_field::<TextDocumentIdentifier>(ms, "textDocument"@) {
            Err(e) => Err(e),
            Ok(text_document) => {
                Ok(DidCloseTextDocumentParamsModel { text_document })
            },
        }
    }

    /// The models that values can have.
    pub open spec fn fields_valid(m: DidCloseTextDocumentParamsModel) -> bool {
        &&& TextDocumentIdentifier::valid(m.text_document)
    }

    /// The members of a value, written between members of other names, read back as the value.
    pub proof fn lemma_fields_round_trip(m: DidCloseTextDocumentParamsModel, pre: Seq<(Seq<char>, JVal)>, post: Seq<(Seq<char>, JVal)>)
        requires
            Self::fields_valid(m),
            forall|k: Seq<char>| Self::uses_key(k) ==> (#[trigger] lookup(pre, k)) is None,
            forall|k: Seq<char>| Self::uses_key(k) ==> (#[trigger] lookup(post, k)) is None,
        ensures
            Self::fields_from(pre + Self::fields_json(m) + post) == Ok::<DidCloseTextDocumentParamsModel, DecodeError>(m),
    {
        broadcast use group_lookup;
        reveal(DidCloseTextDocumentParams::fields_from);
        reveal_strlit("textDocument");
        assert("textDocument"@.len() == 12);
        TextDocumentIdentifier::lemma_round_trip(m.text_document);
    }

    /// Members with names that the type does not read change nothing.
    pub proof fn lemma_unknown_key(ms: Seq<(Seq<char>, JVal)>, k: Seq<char>, v: JVal)
        requires
            !Self::uses_key(k),
        ensures
            Self::fields_from(ms + member(k, v)) == Self::fields_from(ms),
    {
        broadcast use group_lookup;
        reveal(DidCloseTextDocumentParams::fields_from);
    }

    /// The member names that the type reads.
    pub open spec fn uses_key(k: Seq<char>) -> bool {
        k == "textDocument"@
    }

    /// Appends the members of the value to an object under construction.
    pub fn write_fields(&self, ms: &mut Vec<(String, Json)>)
        ensures
            members(Json::Object(*final(ms))@) == members(Json::Object(*old(ms))@) + Self::fields_json(self.model()),
    {
        let ghost start = members(Json::Object(*ms)@);
        push_member(ms, "textDocument", self.text_document.to_json());
        assert(members(Json::Object(*ms)@) =~= start + Self::fields_json(self.model()));
    }

    /// Reads a value from the members of an object.
    pub fn read_fields(ms: &Vec<(String, Json)>) -> (r: Result<Self, DecodeError>)
        ensures
            match r {
                Ok(v) => Self::fields_from(members(Json::Object(*ms)@)) == Ok::<DidCloseTextDocumentParamsModel, DecodeError>(v.model()),
                Err(e) => Self::fields_from(members(Json::Object(*ms)@)) == Err::<DidCloseTextDocumentParamsModel, DecodeError>(e),
            },
    {
        proof {
            reveal(DidCloseTextDocumentParams::fields_from);
        }
        let text_document = match read_req::<TextDocumentIdentifier>(ms, "textDocument") {
            Ok(v) => v,
            Err(e) => return Err(e),
        };
        Ok(DidCloseTextDocumentParams { text_document })
    }
}

impl JsonCodec for DidCloseTextDocumentParams {
    type Model = DidCloseTextDocumentParamsModel;

    open spec fn model(&self) -> DidCloseTextDocumentParamsModel {
        DidCloseTextDocumentParamsModel {
            text_document: self.text_document.model(),
        }
    }

    open spec fn encode(m: DidCloseTextDocumentParamsModel) -> JVal {
        JVal::Obj(Self::fields_json(m))
    }

    open spec fn decode(j: JVal) -> Result<DidCloseTextDocumentParamsModel, DecodeError> {
        match j {
            JVal::Obj(ms) => Self::fields_from(ms),
            _ => Err(DecodeError::WrongShape),
        }
    }

    open spec fn valid(m: DidCloseTextDocumentParamsModel) -> bool {
        Self::fields_valid(m)
    }

    fn to_json(&self) -> (r: Json) {
        let mut ms = new_object();
        self.write_fields(&mut ms);
        Json::Object(ms)
    }

    fn from_json(j: &Json) -> (r: Result<Self, DecodeError>) {
        match j {
            Json::Object(ms) => Self::read_fields(ms),
            _ => Err(DecodeError::WrongShape),
        }
    }

    proof fn lemma_round_trip(m: DidCloseTextDocumentParamsModel) {
        Self::lemma_fields_round_trip(m, Seq::empty(), Seq::empty());
        assert(Seq::empty() + Self::fields_json(m) + Seq::empty() =~= Self::fields_json(m));
    }

}

/// Parameters of the `textDocument/didSave` notification.
#[derive(Clone, Debug, PartialEq, Eq)]
pub struct DidSaveTextDocumentParams {
    /// The document that was saved.
    pub text_document: TextDocumentIdentifier,
    /// The content when saved, where the client was asked to include it.
    pub text: Option<String>,
}

/// The mathematical value of a [`DidSaveTextDocumentParams`].
pub struct DidSaveTextDocumentParamsModel {
    pub text_document: TextDocumentIdentifierModel,
    pub text: Option<Seq<char>>,
}

impl DidSaveTextDocumentParams {
    /// The members that a value contributes to the object it is written in.
    pub open spec fn fields_json(m: DidSaveTextDocumentParamsModel) -> Seq<(Seq<char>, JVal)> {
        member("textDocument"@, TextDocumentIdentifier::encode(m.text_document))
            + opt_member::<String>("text"@, m.text)
    }

    /// Reads a value from the members of an object; other members are ignored.
    #[verifier::opaque]
    pub open spec fn fields_from(ms: Seq<(Seq<char>, JVal)>) -> Result<DidSaveTextDocumentParamsModel, DecodeError> {
        match req_field::<TextDocumentIdentifier>(ms, "textDocument"@) {
            Err(e) => Err(e),
            Ok(text_document) => {
                match opt_field::<String>(ms, "text"@) {
                    Err(e) => Err(e),
                    Ok(text) => {
                        Ok(DidSaveTextDocumentParamsModel { text_document, text })
                    },
                }
            },
        }
    }

    /// The models that values can have.
    pub open spec fn fields_valid(m: DidSaveTextDocumentParamsModel) -> bool {
        &&& TextDocumentIdentifier::valid(m.text_document)
        &&& opt_valid::<String>(m.text)
    }

    /// The members of a value, written between members of other names, read back as the value.
    pub proof fn lemma_fields_round_trip(m: DidSaveTextDocumentParamsModel, pre: Seq<(Seq<char>, JVal)>, post: Seq<(Seq<char>, JVal)>)
        requires
            Self::fields_valid(m),
            forall|k: Seq<char>| Self::uses_key(k) ==> (#[trigger] lookup(pre, k)) is None,
            forall|k: Seq<char>| Self::uses_key(k) ==> (#[trigger] lookup(post, k)) is None,
        ensures
            Self::fields_from(pre + Self::fields_json(m) + post) == Ok::<DidSaveTextDocumentParamsModel, DecodeError>(m),
    {
        broadcast use group_lookup;
        reveal(DidSaveTextDocumentParams::fields_from);
        reveal_strlit("textDocument");
        reveal_strlit("text");
        assert("textDocument"@.len() == 12);
        assert("text"@.len() == 4);
        TextDocumentIdentifier::lemma_round_trip(m.text_document);
        if let Some(x) = m.text {
            String::lemma_round_trip(x);
        }
    }

    /// Members with names that the type does not read change nothing.
    pub proof fn lemma_unknown_key(ms: Seq<(Seq<char>, JVal)>, k: Seq<char>, v: JVal)
        requires
            !Self::uses_key(k),
        ensures
            Self::fields_from(ms + member(k, v)) == Self::fields_from(ms),
    {
        broadcast use group_lookup;
        reveal(DidSaveTextDocumentParams::fields_from);
    }

    /// The member names that the type reads.
    pub open spec fn uses_key(k: Seq<char>) -> bool {
        k == "textDocument"@ || k == "text"@
    }

    /// Appends the members of the value to an object under construction.
    pub fn write_fields(&self, ms: &mut Vec<(String, Json)>)
        ensures
            members(Json::Object(*final(ms))@) == members(Json::Object(*old(ms))@) + Self::fields_json(self.model()),
    {
        let ghost start = members(Json::Object(*ms)@);
        let ghost m = self.model();
        push_member(ms, "textDocument", self.text_document.to_json());
        push_opt(ms, "text", &self.text);
        proof {
            lemma_concat_associative(start, member("textDocument"@, TextDocumentIdentifier::encode(m.text_document)), opt_member::<String>("text"@, m.text));
        }
    }

    /// Reads a value from the members of an object.
    pub fn read_fields(ms: &Vec<(String, Json)>) -> (r: Result<Self, DecodeError>)
        ensures
            match r {
                Ok(v) => Self::fields_from(members(Json::Object(*ms)@)) == Ok::<DidSaveTextDocumentParamsModel, DecodeError>(v.model()),
                Err(e) => Self::fields_from(members(Json::Object(*ms)@)) == Err::<DidSaveTextDocumentParamsModel, DecodeError>(e),
            },
    {
        proof {
            reveal(DidSaveTextDocumentParams::fields_from);
        }
        let text_document = match read_req::<TextDocumentIdentifier>(ms, "textDocument") {
            Ok(v) => v,
            Err(e) => return Err(e),
        };
        let text = match read_opt::<String>(ms, "text") {
            Ok(v) => v,
            Err(e) => return Err(e),
        };
        Ok(DidSaveTextDocumentParams { text_document, text })
    }
}

impl JsonCodec for DidSaveTextDocumentParams {
    type Model = DidSaveTextDocumentParamsModel;

    open spec fn model(&self) -> DidSaveTextDocumentParamsModel {
        DidSaveTextDocumentParamsModel {
            text_document: self.text_document.model(),
            text: self.text.model(),
        }
    }

    open spec fn encode(m: DidSaveTextDocumentParamsModel) -> JVal {
        JVal::Obj(Self::fields_json(m))
    }

    open spec fn decode(j: JVal) -> Result<DidSaveTextDocumentParamsModel, DecodeError> {
        match j {
            JVal::Obj(ms) => Self::fields_from(ms),
            _ => Err(DecodeError::WrongShape),
        }
    }

    open spec fn valid(m: DidSaveTextDocumentParamsModel) -> bool {
        Self::fields_valid(m)
    }

    fn to_json(&self) -> (r: Json) {
        let mut ms = new_object();
        self.write_fields(&mut ms);
        Json::Object(ms)
    }

    fn from_json(j: &Json) -> (r: Result<Self, DecodeError>) {
        match j {
            Json::Object(ms) => Self::read_fields(ms),
            _ => Err(DecodeError::WrongShape),
        }
    }

    proof fn lemma_round_trip(m: DidSaveTextDocumentParamsModel) {
        Self::lemma_fields_round_trip(m, Seq::empty(), Seq::empty());
        assert(Seq::empty() + Self::fields_json(m) + Seq::empty() =~= Self::fields_json(m));
    }

}

/// An event describing a file change.
#[derive(Clone, Debug, PartialEq, Eq, Hash)]
pub struct FileEvent {
    /// The file's URI.
    pub uri: Uri,
    /// The change type.
    pub typ: FileChangeType,
}

/// The mathematical value of a [`FileEvent`].
pub struct FileEventModel {
    pub uri: Seq<char>,
    pub typ: FileChangeType,
}

impl FileEvent {
    /// The members that a value contributes to the object it is written in.
    pub open spec fn fields_json(m: FileEventModel) -> Seq<(Seq<char>, JVal)> {
        member("uri"@, Uri::encode(m.uri))
            + member("type"@, FileChangeType::encode(m.typ))
    }

    /// Reads a value from the members of an object; other members are ignored.
    #[verifier::opaque]
    pub open spec fn fields_from(ms: Seq<(Seq<char>, JVal)>) -> Result<FileEventModel, DecodeError> {
        match req_field::<Uri>(ms, "uri"@) {
            Err(e) => Err(e),
            Ok(uri) => {
                match req_field::<FileChangeType>(ms, "type"@) {
                    Err(e) => Err(e),
                    Ok(typ) => {
                        Ok(FileEventModel { uri, typ })
                    },
                }
            },
        }
    }

    /// The models that values can have.
    pub open spec fn fields_valid(m: FileEventModel) -> bool {
        &&& Uri::valid(m.uri)
        &&& FileChangeType::valid(m.typ)
    }

    /// The members of a value, written between members of other names, read back as the value.
    pub proof fn lemma_fields_round_trip(m: FileEventModel, pre: Seq<(Seq<char>, JVal)>, post: Seq<(Seq<char>, JVal)>)
        requires
            Self::fields_valid(m),
            forall|k: Seq<char>| Self::uses_key(k) ==> (#[trigger] lookup(pre, k)) is None,
            forall|k: Seq<char>| Self::uses_key(k) ==> (#[trigger] lookup(post, k)) is None,
        ensures
            Self::fields_from(pre + Self::fields_json(m) + post) == Ok::<FileEventModel, DecodeError>(m),
    {
        broadcast use group_lookup;
        reveal(FileEvent::fields_from);
        reveal_strlit("uri");
        reveal_strlit("type");
        assert("uri"@.len() == 3);
        assert("type"@.len() == 4);
        Uri::lemma_round_trip(m.uri);
        FileChangeType::lemma_round_trip(m.typ);
    }

    /// Members with names that the type does not read change nothing.
    pub proof fn lemma_unknown_key(ms: Seq<(Seq<char>, JVal)>, k: Seq<char>, v: JVal)
        requires
            !Self::uses_key(k),
        ensures
            Self::fields_from(ms + member(k, v)) == Self::fields_from(ms),
    {
        broadcast use group_lookup;
        reveal(FileEvent::fields_from);
    }

    /// The member names that the type reads.
    pub open spec fn uses_key(k: Seq<char>) -> bool {
        k == "uri"@ || k == "type"@
    }

    /// Appends the members of the value to an object under construction.
    pub fn write_fields(&self, ms: &mut Vec<(String, Json)>)
        ensures
            members(Json::Object(*final(ms))@) == members(Json::Object(*old(ms))@) + Self::fields_json(self.model()),
    {
        let ghost start = members(Json::Object(*ms)@);
        let ghost m = self.model();
        push_member(ms, "uri", self.uri.to_json());
        push_member(ms, "type", self.typ.to_json());
        proof {
            lemma_concat_associative(start, member("uri"@, Uri::encode(m.uri)), member("type"@, FileChangeType::encode(m.typ)));
        }
    }

    /// Reads a value from the members of an object.
    pub fn read_fields(ms: &Vec<(String, Json)>) -> (r: Result<Self, DecodeError>)
        ensures
            match r {
                Ok(v) => Self::fields_from(members(Json::Object(*ms)@)) == Ok::<FileEventModel, DecodeError>(v.model()),
                Err(e) => Self::fields_from(members(Json::Object(*ms)@)) == Err::<FileEventModel, DecodeError>(e),
            },
    {
        proof {
            reveal(FileEvent::fields_from);
        }
        let uri = match read_req::<Uri>(ms, "uri") {
            Ok(v) => v,
            Err(e) => return Err(e),
        };
        let typ = match read_req::<FileChangeType>(ms, "type") {
            Ok(v) => v,
            Err(e) => return Err(e),
        };
        Ok(FileEvent { uri, typ })
    }
}

impl JsonCodec for FileEvent {
    type Model = FileEventModel;

    open spec fn model(&self) -> FileEventModel {
        FileEventModel {
            uri: self.uri.model(),
            typ: self.typ.model(),
        }
    }

    open spec fn encode(m: FileEventModel) -> JVal {
        JVal::Obj(Self::fields_json(m))
    }

    open spec fn decode(j: JVal) -> Result<FileEventModel, DecodeError> {
        match j {
            JVal::Obj(ms) => Self::fields_from(ms),
            _ => Err(DecodeError::WrongShape),
        }
    }

    open spec fn valid(m: FileEventModel) -> bool {
        Self::fields_valid(m)
    }

    fn to_json(&self) -> (r: Json) {
        let mut ms = new_object();
        self.write_fields(&mut ms);
        Json::Object(ms)
    }

    fn from_json(j: &Json) -> (r: Result<Self, DecodeError>) {
        match j {
            Json::Object(ms) => Self::read_fields(ms),
            _ => Err(DecodeError::WrongShape),
        }
    }

    proof fn lemma_round_trip(m: FileEventModel) {
        Self::lemma_fields_round_trip(m, Seq::empty(), Seq::empty());
        assert(Seq::empty() + Self::fields_json(m) + Seq::empty() =~= Self::fields_json(m));
    }

}

/// Parameters of the `workspace/didChangeWatchedFiles` notification.
#[derive(Clone, Debug, PartialEq, Eq)]
pub struct DidChangeWatchedFilesParams {
    /// The actual file events.
    pub changes: Vec<FileEvent>,
}

/// The mathematical value of a [`DidChangeWatchedFilesParams`].
pub struct DidChangeWatchedFilesParamsModel {
    pub changes: Seq<FileEventModel>,
}

impl DidChangeWatchedFilesParams {
    /// The members that a value contributes to the object it is written in.
    pub open spec fn fields_json(m: DidChangeWatchedFilesParamsModel) -> Seq<(Seq<char>, JVal)> {
        member("changes"@, <Vec<FileEvent>>::encode(m.changes))
    }

    /// Reads a value from the members of an object; other members are ignored.
    #[verifier::opaque]
    pub open spec fn fields_from(ms: Seq<(Seq<char>, JVal)>) -> Result<DidChangeWatchedFilesParamsModel, DecodeError> {
        match req_field::<Vec<FileEvent>>(ms, "changes"@) {
            Err(e) => Err(e),
            Ok(changes) => {
                Ok(DidChangeWatchedFilesParamsModel { changes })
            },
        }
    }

    /// The models that values can have.
    pub open spec fn fields_valid(m: DidChangeWatchedFilesParamsModel) -> bool {
        &&& <Vec<FileEvent>>::valid(m.changes)
    }

    /// The members of a value, written between members of other names, read back as the value.
    pub proof fn lemma_fields_round_trip(m: DidChangeWatchedFilesParamsModel, pre: Seq<(Seq<char>, JVal)>, post: Seq<(Seq<char>, JVal)>)
        requires
            Self::fields_valid(m),
            forall|k: Seq<char>| Self::uses_key(k) ==> (#[trigger] lookup(pre, k)) is None,
            forall|k: Seq<char>| Self::uses_key(k) ==> (#[trigger] lookup(post, k)) is None,
        ensures
            Self::fields_from(pre + Self::fields_json(m) + post) == Ok::<DidChangeWatchedFilesParamsModel, DecodeError>(m),
    {
        broadcast use group_lookup;
        reveal(DidChangeWatchedFilesParams::fields_from);
        reveal_strlit("changes");
        assert("changes"@.len() == 7);
        <Vec<FileEvent>>::lemma_round_trip(m.changes);
    }

    /// Members with names that the type does not read change nothing.
    pub proof fn lemma_unknown_key(ms: Seq<(Seq<char>, JVal)>, k: Seq<char>, v: JVal)
        requires
            !Self::uses_key(k),
        ensures
            Self::fields_from(ms + member(k, v)) == Self::fields_from(ms),
    {
        broadcast use group_lookup;
        reveal(DidChangeWatchedFilesParams::fields_from);
    }

    /// The member names that the type reads.
    pub open spec fn uses_key(k: Seq<char>) -> bool {
        k == "changes"@
    }

    /// Appends the members of the value to an object under construction.
    pub fn write_fields(&self, ms: &mut Vec<(String, Json)>)
        ensures
            members(Json::Object(*final(ms))@) == members(Json::Object(*old(ms))@) + Self::fields_json(self.model()),
    {
        let ghost start = members(Json::Object(*ms)@);
        push_member(ms, "changes", self.changes.to_json());
        assert(members(Json::Object(*ms)@) =~= start + Self::fields_json(self.model()));
    }

    /// Reads a value from the members of an object.
    pub fn read_fields(ms: &Vec<(String, Json)>) -> (r: Result<Self, DecodeError>)
        ensures
            match r {
                Ok(v) => Self::fields_from(members(Json::Object(*ms)@)) == Ok::<DidChangeWatchedFilesParamsModel, DecodeError>(v.model()),
                Err(e) => Self::fields_from(members(Json::Object(*ms)@)) == Err::<DidChangeWatchedFilesParamsModel, DecodeError>(e),
            },
    {
        proof {
            reveal(DidChangeWatchedFilesParams::fields_from);
        }
        let changes = match read_req::<Vec<FileEvent>>(ms, "changes") {
            Ok(v) => v,
            Err(e) => return Err(e),
        };
        Ok(DidChangeWatchedFilesParams { changes })
    }
}

impl JsonCodec for DidChangeWatchedFilesParams {
    type Model = DidChangeWatchedFilesParamsModel;

    open spec fn model(&self) -> DidChangeWatchedFilesParamsModel {
        DidChangeWatchedFilesParamsModel {
            changes: self.changes.model(),
        }
    }

    open spec fn encode(m: DidChangeWatchedFilesParamsModel) -> JVal {
        JVal::Obj(Self::fields_json(m))
    }

    open spec fn decode(j: JVal) -> Result<DidChangeWatchedFilesParamsModel, DecodeError> {
        match j {
            JVal::Obj(ms) => Self::fields_from(ms),
            _ => Err(DecodeError::WrongShape),
        }
    }

    open spec fn valid(m: DidChangeWatchedFilesParamsModel) -> bool {
        Self::fields_valid(m)
    }

    fn to_json(&self) -> (r: Json) {
        let mut ms = new_object();
        self.write_fields(&mut ms);
        Json::Object(ms)
    }

    fn from_json(j: &Json) -> (r: Result<Self, DecodeError>) {
        match j {
            Json::Object(ms) => Self::read_fields(ms),
            _ => Err(DecodeError::WrongShape),
        }
    }

    proof fn lemma_round_trip(m: DidChangeWatchedFilesParamsModel) {
        Self::lemma_fields_round_trip(m, Seq::empty(), Seq::empty());
        assert(Seq::empty() + Self::fields_json(m) + Seq::empty() =~= Self::fields_json(m));
    }

}

/// A glob pattern matched relative to a base URI or workspace folder.
#[derive(Clone, Debug, PartialEq, Eq)]
pub struct RelativePattern {
    /// A workspace folder or a base URI to which the pattern is matched relatively.
    pub base_uri: OneOf<WorkspaceFolder, Uri>,
    /// The actual glob pattern.
    pub pattern: String,
}

/// The mathematical value of a [`RelativePattern`].
pub struct RelativePatternModel {
    pub base_uri: Either<WorkspaceFolderModel, Seq<char>>,
    pub pattern: Seq<char>,
}

impl RelativePattern {
    /// The members that a value contributes to the object it is written in.
    pub open spec fn fields_json(m: RelativePatternModel) -> Seq<(Seq<char>, JVal)> {
        member("baseUri"@, <OneOf<WorkspaceFolder, Uri>>::encode(m.base_uri))
            + member("pattern"@, String::encode(m.pattern))
    }

    /// Reads a value from the members of an object; other members are ignored.
    #[verifier::opaque]
    pub open spec fn fields_from(ms: Seq<(Seq<char>, JVal)>) -> Result<RelativePatternModel, DecodeError> {
        match req_field::<OneOf<WorkspaceFolder, Uri>>(ms, "baseUri"@) {
            Err(e) => Err(e),
            Ok(base_uri) => {
                match req_field::<String>(ms, "pattern"@) {
                    Err(e) => Err(e),
                    Ok(pattern) => {
                        Ok(RelativePatternModel { base_uri, pattern })
                    },
                }
            },
        }
    }

    /// The models that values can have.
    pub open spec fn fields_valid(m: RelativePatternModel) -> bool {
        &&& <OneOf<WorkspaceFolder, Uri>>::valid(m.base_uri)
        &&& String::valid(m.pattern)
    }

    /// The members of a value, written between members of other names, read back as the value.
    pub proof fn lemma_fields_round_trip(m: RelativePatternModel, pre: Seq<(Seq<char>, JVal)>, post: Seq<(Seq<char>, JVal)>)
        requires
            Self::fields_valid(m),
            forall|k: Seq<char>| Self::uses_key(k) ==> (#[trigger] lookup(pre, k)) is None,
            forall|k: Seq<char>| Self::uses_key(k) ==> (#[trigger] lookup(post, k)) is None,
        ensures
            Self::fields_from(pre + Self::fields_json(m) + post) == Ok::<RelativePatternModel, DecodeError>(m),
    {
        broadcast use group_lookup;
        reveal(RelativePattern::fields_from);
        reveal_strlit("baseUri");
        reveal_strlit("pattern");
        assert("baseUri"@.len() == 7);
        assert("pattern"@.len() == 7);
        assert("baseUri"@[0] != "pattern"@[0]);
        <OneOf<WorkspaceFolder, Uri>>::lemma_round_trip(m.base_uri);
        String::lemma_round_trip(m.pattern);
    }

    /// Members with names that the type does not read change nothing.
    pub proof fn lemma_unknown_key(ms: Seq<(Seq<char>, JVal)>, k: Seq<char>, v: JVal)
        requires
            !Self::uses_key(k),
        ensures
            Self::fields_from(ms + member(k, v)) == Self::fields_from(ms),
    {
        broadcast use group_lookup;
        reveal(RelativePattern::fields_from);
    }

    /// The member names that the type reads.
    pub open spec fn uses_key(k: Seq<char>) -> bool {
        k == "baseUri"@ || k == "pattern"@
    }

    /// Appends the members of the value to an object under construction.
    pub fn write_fields(&self, ms: &mut Vec<(String, Json)>)
        ensures
            members(Json::Object(*final(ms))@) == members(Json::Object(*old(ms))@) + Self::fields_json(self.model()),
    {
        let ghost start = members(Json::Object(*ms)@);
        let ghost m = self.model();
        push_member(ms, "baseUri", self.base_uri.to_json());
        push_member(ms, "pattern", self.pattern.to_json());
        proof {
            lemma_concat_associative(start, member("baseUri"@, <OneOf<WorkspaceFolder, Uri>>::encode(m.base_uri)), member("pattern"@, String::encode(m.pattern)));
        }
    }

    /// Reads a value from the members of an object.
    pub fn read_fields(ms: &Vec<(String, Json)>) -> (r: Result<Self, DecodeError>)
        ensures
            match r {
                Ok(v) => Self::fields_from(members(Json::Object(*ms)@)) == Ok::<RelativePatternModel, DecodeError>(v.model()),
                Err(e) => Self::fields_from(members(Json::Object(*ms)@)) == Err::<RelativePatternModel, DecodeError>(e),
            },
    {
        proof {
            reveal(RelativePattern::fields_from);
        }
        let base_uri = match read_req::<OneOf<WorkspaceFolder, Uri>>(ms, "baseUri") {
            Ok(v) => v,
            Err(e) => return Err(e),
        };
        let pattern = match read_req::<String>(ms, "pattern") {
            Ok(v) => v,
            Err(e) => return Err(e),
        };
        Ok(RelativePattern { base_uri, pattern })
    }
}

impl JsonCodec for RelativePattern {
    type Model = RelativePatternModel;

    open spec fn model(&self) -> RelativePatternModel {
        RelativePatternModel {
            base_uri: self.base_uri.model(),
            pattern: self.pattern.model(),
        }
    }

    open spec fn encode(m: RelativePatternModel) -> JVal {
        JVal::Obj(Self::fields_json(m))
    }

    open spec fn decode(j: JVal) -> Result<RelativePatternModel, DecodeError> {
        match j {
            JVal::Obj(ms) => Self::fields_from(ms),
            _ => Err(DecodeError::WrongShape),
        }
    }

    open spec fn valid(m: RelativePatternModel) -> bool {
        Self::fields_valid(m)
    }

    fn to_json(&self) -> (r: Json) {
        let mut ms = new_object();
        self.write_fields(&mut ms);
        Json::Object(ms)
    }

    fn from_json(j: &Json) -> (r: Result<Self, DecodeError>) {
        match j {
            Json::Object(ms) => Self::read_fields(ms),
            _ => Err(DecodeError::WrongShape),
        }
    }

    proof fn lemma_round_trip(m: RelativePatternModel) {
        Self::lemma_fields_round_trip(m, Seq::empty(), Seq::empty());
        assert(Seq::empty() + Self::fields_json(m) + Seq::empty() =~= Self::fields_json(m));
    }

}

/// A glob pattern: a plain pattern string, or a relative pattern.
#[derive(Clone, Debug, PartialEq, Eq)]
pub enum GlobPattern {
    String(String),
    Relative(RelativePattern),
}

/// The mathematical value of a [`GlobPattern`].
pub enum GlobPatternModel {
    String(Seq<char>),
    Relative(RelativePatternModel),
}

/// Written as the variant's own encoding; decoding tries the variants in order.
impl JsonCodec for GlobPattern {
    type Model = GlobPatternModel;

    open spec fn model(&self) -> GlobPatternModel {
        match self {
            GlobPattern::String(x) => GlobPatternModel::String(x.model()),
            GlobPattern::Relative(x) => GlobPatternModel::Relative(x.model()),
        }
    }

    open spec fn encode(m: GlobPatternModel) -> JVal {
        match m {
            GlobPatternModel::String(x) => String::encode(x),
            GlobPatternModel::Relative(x) => RelativePattern::encode(x),
        }
    }

    open spec fn decode(j: JVal) -> Result<GlobPatternModel, DecodeError> {
        match String::decode(j) {
            Ok(x) => Ok(GlobPatternModel::String(x)),
            Err(_) => {
                match RelativePattern::decode(j) {
                    Ok(x) => Ok(GlobPatternModel::Relative(x)),
                    Err(_) => {
                        Err(DecodeError::WrongShape)
                    },
                }
            },
        }
    }

    /// A variant is read back only where no earlier variant accepts its encoding.
    open spec fn valid(m: GlobPatternModel) -> bool {
        match m {
            GlobPatternModel::String(x) => String::valid(x),
            GlobPatternModel::Relative(x) => RelativePattern::valid(x) && String::decode(RelativePattern::encode(x)) is Err,
        }
    }

    fn to_json(&self) -> (r: Json) {
        match self {
            GlobPattern::String(x) => x.to_json(),
            GlobPattern::Relative(x) => x.to_json(),
        }
    }

    fn from_json(j: &Json) -> (r: Result<GlobPattern, DecodeError>) {
        if let Ok(x) = String::from_json(j) {
            return Ok(GlobPattern::String(x));
        }
        if let Ok(x) = RelativePattern::from_json(j) {
            return Ok(GlobPattern::Relative(x));
        }
        Err(DecodeError::WrongShape)
    }

    proof fn lemma_round_trip(m: GlobPatternModel) {
        match m {
            GlobPatternModel::String(x) => String::lemma_round_trip(x),
            GlobPatternModel::Relative(x) => RelativePattern::lemma_round_trip(x),
        }
    }
}

/// A watcher of file system events.
#[derive(Clone, Debug, PartialEq, Eq)]
pub struct FileSystemWatcher {
    /// The glob pattern to watch.
    pub glob_pattern: GlobPattern,
    /// The kinds of events of interest; absent means all of them.
    pub kind: Option<WatchKind>,
}

/// The mathematical value of a [`FileSystemWatcher`].
pub struct FileSystemWatcherModel {
    pub glob_pattern: GlobPatternModel,
    pub kind: Option<u8>,
}

impl FileSystemWatcher {
    /// The members that a value contributes to the object it is written in.
    pub open spec fn fields_json(m: FileSystemWatcherModel) -> Seq<(Seq<char>, JVal)> {
        member("globPattern"@, GlobPattern::encode(m.glob_pattern))
            + opt_member::<WatchKind>("kind"@, m.kind)
    }

    /// Reads a value from the members of an object; other members are ignored.
    #[verifier::opaque]
    pub open spec fn fields_from(ms: Seq<(Seq<char>, JVal)>) -> Result<FileSystemWatcherModel, DecodeError> {
        match req_field::<GlobPattern>(ms, "globPattern"@) {
            Err(e) => Err(e),
            Ok(glob_pattern) => {
                match opt_field::<WatchKind>(ms, "kind"@) {
                    Err(e) => Err(e),
                    Ok(kind) => {
                        Ok(FileSystemWatcherModel { glob_pattern, kind })
                    },
                }
            },
        }
    }

    /// The models that values can have.
    pub open spec fn fields_valid(m: FileSystemWatcherModel) -> bool {
        &&& GlobPattern::valid(m.glob_pattern)
        &&& opt_valid::<WatchKind>(m.kind)
    }

    /// The members of a value, written between members of other names, read back as the value.
    pub proof fn lemma_fields_round_trip(m: FileSystemWatcherModel, pre: Seq<(Seq<char>, JVal)>, post: Seq<(Seq<char>, JVal)>)
        requires
            Self::fields_valid(m),
            forall|k: Seq<char>| Self::uses_key(k) ==> (#[trigger] lookup(pre, k)) is None,
            forall|k: Seq<char>| Self::uses_key(k) ==> (#[trigger] lookup(post, k)) is None,
        ensures
            Self::fields_from(pre + Self::fields_json(m) + post) == Ok::<FileSystemWatcherModel, DecodeError>(m),
    {
        broadcast use group_lookup;
        reveal(FileSystemWatcher::fields_from);
        reveal_strlit("globPattern");
        reveal_strlit("kind");
        assert("globPattern"@.len() == 11);
        assert("kind"@.len() == 4);
        GlobPattern::lemma_round_trip(m.glob_pattern);
        if let Some(x) = m.kind {
            WatchKind::lemma_round_trip(x);
        }
    }

    /// Members with names that the type does not read change nothing.
    pub proof fn lemma_unknown_key(ms: Seq<(Seq<char>, JVal)>, k: Seq<char>, v: JVal)
        requires
            !Self::uses_key(k),
        ensures
            Self::fields_from(ms + member(k, v)) == Self::fields_from(ms),
    {
        broadcast use group_lookup;
        reveal(FileSystemWatcher::fields_from);
    }

    /// The member names that the type reads.
    pub open spec fn uses_key(k: Seq<char>) -> bool {
        k == "globPattern"@ || k == "kind"@
    }

    /// Appends the members of the value to an object under construction.
    pub fn write_fields(&self, ms: &mut Vec<(String, Json)>)
        ensures
            members(Json::Object(*final(ms))@) == members(Json::Object(*old(ms))@) + Self::fields_json(self.model()),
    {
        let ghost start = members(Json::Object(*ms)@);
        let ghost m = self.model();
        push_member(ms, "globPattern", self.glob_pattern.to_json());
        push_opt(ms, "kind", &self.kind);
        proof {
            lemma_concat_associative(start, member("globPattern"@, GlobPattern::encode(m.glob_pattern)), opt_member::<WatchKind>("kind"@, m.kind));
        }
    }

    /// Reads a value from the members of an object.
    pub fn read_fields(ms: &Vec<(String, Json)>) -> (r: Result<Self, DecodeError>)
        ensures
            match r {
                Ok(v) => Self::fields_from(members(Json::Object(*ms)@)) == Ok::<FileSystemWatcherModel, DecodeError>(v.model()),
                Err(e) => Self::fields_from(members(Json::Object(*ms)@)) == Err::<FileSystemWatcherModel, DecodeError>(e),
            },
    {
        proof {
            reveal(FileSystemWatcher::fields_from);
        }
        let glob_pattern = match read_req::<GlobPattern>(ms, "globPattern") {
            Ok(v) => v,
            Err(e) => return Err(e),
        };
        let kind = match read_opt::<WatchKind>(ms, "kind") {
            Ok(v) => v,
            Err(e) => return Err(e),
        };
        Ok(FileSystemWatcher { glob_pattern, kind })
    }
}

impl JsonCodec for FileSystemWatcher {
    type Model = FileSystemWatcherModel;

    open spec fn model(&self) -> FileSystemWatcherModel {
        FileSystemWatcherModel {
            glob_pattern: self.glob_pattern.model(),
            kind: self.kind.model(),
        }
    }

    open spec fn encode(m: FileSystemWatcherModel) -> JVal {
        JVal::Obj(Self::fields_json(m))
    }

    open spec fn decode(j: JVal) -> Result<FileSystemWatcherModel, DecodeError> {
        match j {
            JVal::Obj(ms) => Self::fields_from(ms),
            _ => Err(DecodeError::WrongShape),
        }
    }

    open spec fn valid(m: FileSystemWatcherModel) -> bool {
        Self::fields_valid(m)
    }

    fn to_json(&self) -> (r: Json) {
        let mut ms = new_object();
        self.write_fields(&mut ms);
        Json::Object(ms)
    }

    fn from_json(j: &Json) -> (r: Result<Self, DecodeError>) {
        match j {
            Json::Object(ms) => Self::read_fields(ms),
            _ => Err(DecodeError::WrongShape),
        }
    }

    proof fn lemma_round_trip(m: FileSystemWatcherModel) {
        Self::lemma_fields_round_trip(m, Seq::empty(), Seq::empty());
        assert(Seq::empty() + Self::fields_json(m) + Seq::empty() =~= Self::fields_json(m));
    }

}

/// Registration options of the `workspace/didChangeWatchedFiles` notification.
#[derive(Clone, Debug, PartialEq, Eq)]
pub struct DidChangeWatchedFilesRegistrationOptions {
    /// The watchers to register.
    pub watchers: Vec<FileSystemWatcher>,
}

/// The mathematical value of a [`DidChangeWatchedFilesRegistrationOptions`].
pub struct DidChangeWatchedFilesRegistrationOptionsModel {
    pub watchers: Seq<FileSystemWatcherModel>,
}

impl DidChangeWatchedFilesRegistrationOptions {
    /// The members that a value contributes to the object it is written in.
    pub open spec fn fields_json(m: DidChangeWatchedFilesRegistrationOptionsModel) -> Seq<(Seq<char>, JVal)> {
        member("watchers"@, <Vec<FileSystemWatcher>>::encode(m.watchers))
    }

    /// Reads a value from the members of an object; other members are ignored.
    #[verifier::opaque]
    pub open spec fn fields_from(ms: Seq<(Seq<char>, JVal)>) -> Result<DidChangeWatchedFilesRegistrationOptionsModel, DecodeError> {
        match req_field::<Vec<FileSystemWatcher>>(ms, "watchers"@) {
            Err(e) => Err(e),
            Ok(watchers) => {
                Ok(DidChangeWatchedFilesRegistrationOptionsModel { watchers })
            },
        }
    }

    /// The models that values can have.
    pub open spec fn fields_valid(m: DidChangeWatchedFilesRegistrationOptionsModel) -> bool {
        &&& <Vec<FileSystemWatcher>>::valid(m.watchers)
    }

    /// The members of a value, written between members of other names, read back as the value.
    pub proof fn lemma_fields_round_trip(m: DidChangeWatchedFilesRegistrationOptionsModel, pre: Seq<(Seq<char>, JVal)>, post: Seq<(Seq<char>, JVal)>)
        requires
            Self::fields_valid(m),
            forall|k: Seq<char>| Self::uses_key(k) ==> (#[trigger] lookup(pre, k)) is None,
            forall|k: Seq<char>| Self::uses_key(k) ==> (#[trigger] lookup(post, k)) is None,
        ensures
            Self::fields_from(pre + Self::fields_json(m) + post) == Ok::<DidChangeWatchedFilesRegistrationOptionsModel, DecodeError>(m),
    {
        broadcast use group_lookup;
        reveal(DidChangeWatchedFilesRegistrationOptions::fields_from);
        reveal_strlit("watchers");
        assert("watchers"@.len() == 8);
        <Vec<FileSystemWatcher>>::lemma_round_trip(m.watchers);
    }

    /// Members with names that the type does not read change nothing.
    pub proof fn lemma_unknown_key(ms: Seq<(Seq<char>, JVal)>, k: Seq<char>, v: JVal)
        requires
            !Self::uses_key(k),
        ensures
            Self::fields_from(ms + member(k, v)) == Self::fields_from(ms),
    {
        broadcast use group_lookup;
        reveal(DidChangeWatchedFilesRegistrationOptions::fields_from);
    }

    /// The member names that the type reads.
    pub open spec fn uses_key(k: Seq<char>) -> bool {
        k == "watchers"@
    }

    /// Appends the members of the value to an object under construction.
    pub fn write_fields(&self, ms: &mut Vec<(String, Json)>)
        ensures
            members(Json::Object(*final(ms))@) == members(Json::Object(*old(ms))@) + Self::fields_json(self.model()),
    {
        let ghost start = members(Json::Object(*ms)@);
        push_member(ms, "watchers", self.watchers.to_json());
        assert(members(Json::Object(*ms)@) =~= start + Self::fields_json(self.model()));
    }

    /// Reads a value from the members of an object.
    pub fn read_fields(ms: &Vec<(String, Json)>) -> (r: Result<Self, DecodeError>)
        ensures
            match r {
                Ok(v) => Self::fields_from(members(Json::Object(*ms)@)) == Ok::<DidChangeWatchedFilesRegistrationOptionsModel, DecodeError>(v.model()),
                Err(e) => Self::fields_from(members(Json::Object(*ms)@)) == Err::<DidChangeWatchedFilesRegistrationOptionsModel, DecodeError>(e),
            },
    {
        proof {
            reveal(DidChangeWatchedFilesRegistrationOptions::fields_from);
        }
        let watchers = match read_req::<Vec<FileSystemWatcher>>(ms, "watchers") {
            Ok(v) => v,
            Err(e) => return Err(e),
        };
        Ok(DidChangeWatchedFilesRegistrationOptions { watchers })
    }
}

impl JsonCodec for DidChangeWatchedFilesRegistrationOptions {
    type Model = DidChangeWatchedFilesRegistrationOptionsModel;

    open spec fn model(&self) -> DidChangeWatchedFilesRegistrationOptionsModel {
        DidChangeWatchedFilesRegistrationOptionsModel {
            watchers: self.watchers.model(),
        }
    }

    open spec fn encode(m: DidChangeWatchedFilesRegistrationOptionsModel) -> JVal {
        JVal::Obj(Self::fields_json(m))
    }

    open spec fn decode(j: JVal) -> Result<DidChangeWatchedFilesRegistrationOptionsModel, DecodeError> {
        match j {
            JVal::Obj(ms) => Self::fields_from(ms),
            _ => Err(DecodeError::WrongShape),
        }
    }

    open spec fn valid(m: DidChangeWatchedFilesRegistrationOptionsModel) -> bool {
        Self::fields_valid(m)
    }

    fn to_json(&self) -> (r: Json) {
        let mut ms = new_object();
        self.write_fields(&mut ms);
        Json::Object(ms)
    }

    fn from_json(j: &Json) -> (r: Result<Self, DecodeError>) {
        match j {
            Json::Object(ms) => Self::read_fields(ms),
            _ => Err(DecodeError::WrongShape),
        }
    }

    proof fn lemma_round_trip(m: DidChangeWatchedFilesRegistrationOptionsModel) {
        Self::lemma_fields_round_trip(m, Seq::empty(), Seq::empty());
        assert(Seq::empty() + Self::fields_json(m) + Seq::empty() =~= Self::fields_json(m));
    }

}

/// Parameters of the `textDocument/publishDiagnostics` notification.
#[derive(Clone, Debug, PartialEq, Eq)]
pub struct PublishDiagnosticsParams {
    /// The URI for which diagnostic information is reported.
    pub uri: Uri,
    /// An array of diagnostic information items.
    pub diagnostics: Vec<Diagnostic>,
    /// The version number of the document the diagnostics are published for.
    pub version: Option<i32>,
}

/// The mathematical value of a [`PublishDiagnosticsParams`].
pub struct PublishDiagnosticsParamsModel {
    pub uri: Seq<char>,
    pub diagnostics: Seq<DiagnosticModel>,
    pub version: Option<i32>,
}

impl PublishDiagnosticsParams {
    /// The members that a value contributes to the object it is written in.
    pub open spec fn fields_json(m: PublishDiagnosticsParamsModel) -> Seq<(Seq<char>, JVal)> {
        member("uri"@, Uri::encode(m.uri))
            + member("diagnostics"@, <Vec<Diagnostic>>::encode(m.diagnostics))
            + opt_member::<i32>("version"@, m.version)
    }

    /// Reads a value from the members of an object; other members are ignored.
    #[verifier::opaque]
    pub open spec fn fields_from(ms: Seq<(Seq<char>, JVal)>) -> Result<PublishDiagnosticsParamsModel, DecodeError> {
        match req_field::<Uri>(ms, "uri"@) {
            Err(e) => Err(e),
            Ok(uri) => {
                match req_field::<Vec<Diagnostic>>(ms, "diagnostics"@) {
                    Err(e) => Err(e),
                    Ok(diagnostics) => {
                        match opt_field::<i32>(ms, "version"@) {
                            Err(e) => Err(e),
                            Ok(version) => {
                                Ok(PublishDiagnosticsParamsModel { uri, diagnostics, version })
                            },
                        }
                    },
                }
            },
        }
    }

    /// The models that values can have.
    pub open spec fn fields_valid(m: PublishDiagnosticsParamsModel) -> bool {
        &&& Uri::valid(m.uri)
        &&& <Vec<Diagnostic>>::valid(m.diagnostics)
        &&& opt_valid::<i32>(m.version)
    }

    /// The members of a value, written between members of other names, read back as the value.
    pub proof fn lemma_fields_round_trip(m: PublishDiagnosticsParamsModel, pre: Seq<(Seq<char>, JVal)>, post: Seq<(Seq<char>, JVal)>)
        requires
            Self::fields_valid(m),
            forall|k: Seq<char>| Self::uses_key(k) ==> (#[trigger] lookup(pre, k)) is None,
            forall|k: Seq<char>| Self::uses_key(k) ==> (#[trigger] lookup(post, k)) is None,
        ensures
            Self::fields_from(pre + Self::fields_json(m) + post) == Ok::<PublishDiagnosticsParamsModel, DecodeError>(m),
    {
        broadcast use group_lookup;
        reveal(PublishDiagnosticsParams::fields_from);
        reveal_strlit("uri");
        reveal_strlit("diagnostics");
        reveal_strlit("version");
        assert("uri"@.len() == 3);
        assert("diagnostics"@.len() == 11);
        assert("version"@.len() == 7);
        Uri::lemma_round_trip(m.uri);
        <Vec<Diagnostic>>::lemma_round_trip(m.diagnostics);
        if let Some(x) = m.version {
            i32::lemma_round_trip(x);
        }
    }

    /// Members with names that the type does not read change nothing.
    pub proof fn lemma_unknown_key(ms: Seq<(Seq<char>, JVal)>, k: Seq<char>, v: JVal)
        requires
            !Self::uses_key(k),
        ensures
            Self::fields_from(ms + member(k, v)) == Self::fields_from(ms),
    {
        broadcast use group_lookup;
        reveal(PublishDiagnosticsParams::fields_from);
    }

    /// The member names that the type reads.
    pub open spec fn uses_key(k: Seq<char>) -> bool {
        k == "uri"@ || k == "diagnostics"@ || k == "version"@
    }

    /// Appends the members of the value to an object under construction.
    pub fn write_fields(&self, ms: &mut Vec<(String, Json)>)
        ensures
            members(Json::Object(*final(ms))@) == members(Json::Object(*old(ms))@) + Self::fields_json(self.model()),
    {
        let ghost start = members(Json::Object(*ms)@);
        let ghost m = self.model();
        push_member(ms, "uri", self.uri.to_json());
        push_member(ms, "diagnostics", self.diagnostics.to_json());
        proof {
            lemma_concat_associative(start, member("uri"@, Uri::encode(m.uri)), member("diagnostics"@, <Vec<Diagnostic>>::encode(m.diagnostics)));
        }
        push_opt(ms, "version", &self.version);
        proof {
            lemma_concat_associative(start, member("uri"@, Uri::encode(m.uri)) + member("diagnostics"@, <Vec<Diagnostic>>::encode(m.diagnostics)), opt_member::<i32>("version"@, m.version));
        }
    }

    /// Reads a value from the members of an object.
    pub fn read_fields(ms: &Vec<(String, Json)>) -> (r: Result<Self, DecodeError>)
        ensures
            match r {
                Ok(v) => Self::fields_from(members(Json::Object(*ms)@)) == Ok::<PublishDiagnosticsParamsModel, DecodeError>(v.model()),
                Err(e) => Self::fields_from(members(Json::Object(*ms)@)) == Err::<PublishDiagnosticsParamsModel, DecodeError>(e),
            },
    {
        proof {
            reveal(PublishDiagnosticsParams::fields_from);
        }
        let uri = match read_req::<Uri>(ms, "uri") {
            Ok(v) => v,
            Err(e) => return Err(e),
        };
        let diagnostics = match read_req::<Vec<Diagnostic>>(ms, "diagnostics") {
            Ok(v) => v,
            Err(e) => return Err(e),
        };
        let version = match read_opt::<i32>(ms, "version") {
            Ok(v) => v,
            Err(e) => return Err(e),
        };
        Ok(PublishDiagnosticsParams { uri, diagnostics, version })
    }
}

impl JsonCodec for PublishDiagnosticsParams {
    type Model = PublishDiagnosticsParamsModel;

    open spec fn model(&self) -> PublishDiagnosticsParamsModel {
        PublishDiagnosticsParamsModel {
            uri: self.uri.model(),
            diagnostics: self.diagnostics.model(),
            version: self.version.model(),
        }
    }

    open spec fn encode(m: PublishDiagnosticsParamsModel) -> JVal {
        JVal::Obj(Self::fields_json(m))
    }

    open spec fn decode(j: JVal) -> Result<PublishDiagnosticsParamsModel, DecodeError> {
        match j {
            JVal::Obj(ms) => Self::fields_from(ms),
            _ => Err(DecodeError::WrongShape),
        }
    }

    open spec fn valid(m: PublishDiagnosticsParamsModel) -> bool {
        Self::fields_valid(m)
    }

    fn to_json(&self) -> (r: Json) {
        let mut ms = new_object();
        self.write_fields(&mut ms);
        Json::Object(ms)
    }

    fn from_json(j: &Json) -> (r: Result<Self, DecodeError>) {
        match j {
            Json::Object(ms) => Self::read_fields(ms),
            _ => Err(DecodeError::WrongShape),
        }
    }

    proof fn lemma_round_trip(m: PublishDiagnosticsParamsModel) {
        Self::lemma_fields_round_trip(m, Seq::empty(), Seq::empty());
        assert(Seq::empty() + Self::fields_json(m) + Seq::empty() =~= Self::fields_json(m));
    }

}

/// Parameters of the `textDocument/definition` request.
#[derive(Clone, Debug, PartialEq, Eq)]
pub struct GotoDefinitionParams {
    pub text_document_position_params: TextDocumentPositionParams,
    pub work_done_progress_params: WorkDoneProgressParams,
    pub partial_result_params: PartialResultParams,
}

/// The mathematical value of a [`GotoDefinitionParams`].
pub struct GotoDefinitionParamsModel {
    pub text_document_position_params: TextDocumentPositionParamsModel,
    pub work_done_progress_params: WorkDoneProgressParamsModel,
    pub partial_result_params: PartialResultParamsModel,
}

impl GotoDefinitionParams {
    /// The members that a value contributes to the object it is written in.
    pub open spec fn fields_json(m: GotoDefinitionParamsModel) -> Seq<(Seq<char>, JVal)> {
        TextDocumentPositionParams::fields_json(m.text_document_position_params)
            + WorkDoneProgressParams::fields_json(m.work_done_progress_params)
            + PartialResultParams::fields_json(m.partial_result_params)
    }

    /// Reads a value from the members of an object; other members are ignored.
    #[verifier::opaque]
    pub open spec fn fields_from(ms: Seq<(Seq<char>, JVal)>) -> Result<GotoDefinitionParamsModel, DecodeError> {
        match TextDocumentPositionParams::fields_from(ms) {
            Err(e) => Err(e),
            Ok(text_document_position_params) => {
                match WorkDoneProgressParams::fields_from(ms) {
                    Err(e) => Err(e),
                    Ok(work_done_progress_params) => {
                        match PartialResultParams::fields_from(ms) {
                            Err(e) => Err(e),
                            Ok(partial_result_params) => {
                                Ok(GotoDefinitionParamsModel { text_document_position_params, work_done_progress_params, partial_result_params })
                            },
                        }
                    },
                }
            },
        }
    }

    /// The models that values can have.
    pub open spec fn fields_valid(m: GotoDefinitionParamsModel) -> bool {
        &&& TextDocumentPositionParams::fields_valid(m.text_document_position_params)
        &&& WorkDoneProgressParams::fields_valid(m.work_done_progress_params)
        &&& PartialResultParams::fields_valid(m.partial_result_params)
    }

    /// The members of a value, written between members of other names, read back as the value.
    pub proof fn lemma_fields_round_trip(m: GotoDefinitionParamsModel, pre: Seq<(Seq<char>, JVal)>, post: Seq<(Seq<char>, JVal)>)
        requires
            Self::fields_valid(m),
            forall|k: Seq<char>| Self::uses_key(k) ==> (#[trigger] lookup(pre, k)) is None,
            forall|k: Seq<char>| Self::uses_key(k) ==> (#[trigger] lookup(post, k)) is None,
        ensures
            Self::fields_from(pre + Self::fields_json(m) + post) == Ok::<GotoDefinitionParamsModel, DecodeError>(m),
    {
        broadcast use group_lookup;
        reveal(GotoDefinitionParams::fields_from);
        reveal_strlit("textDocument");
        reveal_strlit("position");
        reveal_strlit("workDoneToken");
        reveal_strlit("partialResultToken");
        assert("textDocument"@.len() == 12);
        assert("position"@.len() == 8);
        assert("workDoneToken"@.len() == 13);
        assert("partialResultToken"@.len() == 18);
        let before = pre;
        let after = WorkDoneProgressParams::fields_json(m.work_done_progress_params) + PartialResultParams::fields_json(m.partial_result_params) + post;
        TextDocumentPositionParams::lemma_fields_round_trip(m.text_document_position_params, before, after);
        assert(pre + Self::fields_json(m) + post =~= before + TextDocumentPositionParams::fields_json(m.text_document_position_params) + after);
        let before = pre + TextDocumentPositionParams::fields_json(m.text_document_position_params);
        let after = PartialResultParams::fields_json(m.partial_result_params) + post;
        WorkDoneProgressParams::lemma_fields_round_trip(m.work_done_progress_params, before, after);
        assert(pre + Self::fields_json(m) + post =~= before + WorkDoneProgressParams::fields_json(m.work_done_progress_params) + after);
        let before = pre + TextDocumentPositionParams::fields_json(m.text_document_position_params) + WorkDoneProgressParams::fields_json(m.work_done_progress_params);
        let after = post;
        PartialResultParams::lemma_fields_round_trip(m.partial_result_params, before, after);
        assert(pre + Self::fields_json(m) + post =~= before + PartialResultParams::fields_json(m.partial_result_params) + after);
    }

    /// Members with names that the type does not read change nothing.
    pub proof fn lemma_unknown_key(ms: Seq<(Seq<char>, JVal)>, k: Seq<char>, v: JVal)
        requires
            !Self::uses_key(k),
        ensures
            Self::fields_from(ms + member(k, v)) == Self::fields_from(ms),
    {
        broadcast use group_lookup;
        reveal(GotoDefinitionParams::fields_from);
        TextDocumentPositionParams::lemma_unknown_key(ms, k, v);
        WorkDoneProgressParams::lemma_unknown_key(ms, k, v);
        PartialResultParams::lemma_unknown_key(ms, k, v);
    }

    /// The member names that the type reads.
    pub open spec fn uses_key(k: Seq<char>) -> bool {
        TextDocumentPositionParams::uses_key(k) || WorkDoneProgressParams::uses_key(k) || PartialResultParams::uses_key(k)
    }

    /// Appends the members of the value to an object under construction.
    pub fn write_fields(&self, ms: &mut Vec<(String, Json)>)
        ensures
            members(Json::Object(*final(ms))@) == members(Json::Object(*old(ms))@) + Self::fields_json(self.model()),
    {
        let ghost start = members(Json::Object(*ms)@);
        let ghost m = self.model();
        self.text_document_position_params.write_fields(ms);
        self.work_done_progress_params.write_fields(ms);
        proof {
            lemma_concat_associative(start, TextDocumentPositionParams::fields_json(m.text_document_position_params), WorkDoneProgressParams::fields_json(m.work_done_progress_params));
        }
        self.partial_result_params.write_fields(ms);
        proof {
            lemma_concat_associative(start, TextDocumentPositionParams::fields_json(m.text_document_position_params) + WorkDoneProgressParams::fields_json(m.work_done_progress_params), PartialResultParams::fields_json(m.partial_result_params));
        }
    }

    /// Reads a value from the members of an object.
    pub fn read_fields(ms: &Vec<(String, Json)>) -> (r: Result<Self, DecodeError>)
        ensures
            match r {
                Ok(v) => Self::fields_from(members(Json::Object(*ms)@)) == Ok::<GotoDefinitionParamsModel, DecodeError>(v.model()),
                Err(e) => Self::fields_from(members(Json::Object(*ms)@)) == Err::<GotoDefinitionParamsModel, DecodeError>(e),
            },
    {
        proof {
            reveal(GotoDefinitionParams::fields_from);
        }
        let text_document_position_params = match TextDocumentPositionParams::read_fields(ms) {
            Ok(v) => v,
            Err(e) => return Err(e),
        };
        let work_done_progress_params = match WorkDoneProgressParams::read_fields(ms) {
            Ok(v) => v,
            Err(e) => return Err(e),
        };
        let partial_result_params = match PartialResultParams::read_fields(ms) {
            Ok(v) => v,
            Err(e) => return Err(e),
        };
        Ok(GotoDefinitionParams { text_document_position_params, work_done_progress_params, partial_result_params })
    }
}

impl JsonCodec for GotoDefinitionParams {
    type Model = GotoDefinitionParamsModel;

    open spec fn model(&self) -> GotoDefinitionParamsModel {
        GotoDefinitionParamsModel {
            text_document_position_params: self.text_document_position_params.model(),
            work_done_progress_params: self.work_done_progress_params.model(),
            partial_result_params: self.partial_result_params.model(),
        }
    }

    open spec fn encode(m: GotoDefinitionParamsModel) -> JVal {
        JVal::Obj(Self::fields_json(m))
    }

    open spec fn decode(j: JVal) -> Result<GotoDefinitionParamsModel, DecodeError> {
        match j {
            JVal::Obj(ms) => Self::fields_from(ms),
            _ => Err(DecodeError::WrongShape),
        }
    }

    open spec fn valid(m: GotoDefinitionParamsModel) -> bool {
        Self::fields_valid(m)
    }

    fn to_json(&self) -> (r: Json) {
        let mut ms = new_object();
        self.write_fields(&mut ms);
        Json::Object(ms)
    }

    fn from_json(j: &Json) -> (r: Result<Self, DecodeError>) {
        match j {
            Json::Object(ms) => Self::read_fields(ms),
            _ => Err(DecodeError::WrongShape),
        }
    }

    proof fn lemma_round_trip(m: GotoDefinitionParamsModel) {
        Self::lemma_fields_round_trip(m, Seq::empty(), Seq::empty());
        assert(Seq::empty() + Self::fields_json(m) + Seq::empty() =~= Self::fields_json(m));
    }

}

/// The result of a go-to request: one location, several, or location links.
#[derive(Clone, Debug, PartialEq, Eq)]
pub enum GotoDefinitionResponse {
    Scalar(Location),
    Array(Vec<Location>),
    Link(Vec<LocationLink>),
}

/// The mathematical value of a [`GotoDefinitionResponse`].
pub enum GotoDefinitionResponseModel {
    Scalar(LocationModel),
    Array(Seq<LocationModel>),
    Link(Seq<LocationLinkModel>),
}

/// Written as the variant's own encoding; decoding tries the variants in order.
impl JsonCodec for GotoDefinitionResponse {
    type Model = GotoDefinitionResponseModel;

    open spec fn model(&self) -> GotoDefinitionResponseModel {
        match self {
            GotoDefinitionResponse::Scalar(x) => GotoDefinitionResponseModel::Scalar(x.model()),
            GotoDefinitionResponse::Array(x) => GotoDefinitionResponseModel::Array(x.model()),
            GotoDefinitionResponse::Link(x) => GotoDefinitionResponseModel::Link(x.model()),
        }
    }

    open spec fn encode(m: GotoDefinitionResponseModel) -> JVal {
        match m {
            GotoDefinitionResponseModel::Scalar(x) => Location::encode(x),
            GotoDefinitionResponseModel::Array(x) => <Vec<Location>>::encode(x),
            GotoDefinitionResponseModel::Link(x) => <Vec<LocationLink>>::encode(x),
        }
    }

    open spec fn decode(j: JVal) -> Result<GotoDefinitionResponseModel, DecodeError> {
        match Location::decode(j) {
            Ok(x) => Ok(GotoDefinitionResponseModel::Scalar(x)),
            Err(_) => {
                match <Vec<Location>>::decode(j) {
                    Ok(x) => Ok(GotoDefinitionResponseModel::Array(x)),
                    Err(_) => {
                        match <Vec<LocationLink>>::decode(j) {
                            Ok(x) => Ok(GotoDefinitionResponseModel::Link(x)),
                            Err(_) => {
                                Err(DecodeError::WrongShape)
                            },
                        }
                    },
                }
            },
        }
    }

    /// A variant is read back only where no earlier variant accepts its encoding.
    open spec fn valid(m: GotoDefinitionResponseModel) -> bool {
        match m {
            GotoDefinitionResponseModel::Scalar(x) => Location::valid(x),
            GotoDefinitionResponseModel::Array(x) => <Vec<Location>>::valid(x) && Location::decode(<Vec<Location>>::encode(x)) is Err,
            GotoDefinitionResponseModel::Link(x) => <Vec<LocationLink>>::valid(x) && Location::decode(<Vec<LocationLink>>::encode(x)) is Err && <Vec<Location>>::decode(<Vec<LocationLink>>::encode(x)) is Err,
        }
    }

    fn to_json(&self) -> (r: Json) {
        match self {
            GotoDefinitionResponse::Scalar(x) => x.to_json(),
            GotoDefinitionResponse::Array(x) => x.to_json(),
            GotoDefinitionResponse::Link(x) => x.to_json(),
        }
    }

    fn from_json(j: &Json) -> (r: Result<GotoDefinitionResponse, DecodeError>) {
        if let Ok(x) = Location::from_json(j) {
            return Ok(GotoDefinitionResponse::Scalar(x));
        }
        if let Ok(x) = <Vec<Location>>::from_json(j) {
            return Ok(GotoDefinitionResponse::Array(x));
        }
        if let Ok(x) = <Vec<LocationLink>>::from_json(j) {
            return Ok(GotoDefinitionResponse::Link(x));
        }
        Err(DecodeError::WrongShape)
    }

    proof fn lemma_round_trip(m: GotoDefinitionResponseModel) {
        match m {
            GotoDefinitionResponseModel::Scalar(x) => Location::lemma_round_trip(x),
            GotoDefinitionResponseModel::Array(x) => <Vec<Location>>::lemma_round_trip(x),
            GotoDefinitionResponseModel::Link(x) => <Vec<LocationLink>>::lemma_round_trip(x),
        }
    }
}

/// The context of a find-references request.
#[derive(Clone, Copy, Debug, PartialEq, Eq, Structural)]
pub struct ReferenceContext {
    /// Include the declaration of the current symbol.
    pub include_declaration: bool,
}

impl ReferenceContext {
    /// The members that a value contributes to the object it is written in.
    pub open spec fn fields_json(m: ReferenceContext) -> Seq<(Seq<char>, JVal)> {
        member("includeDeclaration"@, bool::encode(m.include_declaration))
    }

    /// Reads a value from the members of an object; other members are ignored.
    #[verifier::opaque]
    pub open spec fn fields_from(ms: Seq<(Seq<char>, JVal)>) -> Result<ReferenceContext, DecodeError> {
        match req_field::<bool>(ms, "includeDeclaration"@) {
            Err(e) => Err(e),
            Ok(include_declaration) => {
                Ok(ReferenceContext { include_declaration })
            },
        }
    }

    /// The models that values can have.
    pub open spec fn fields_valid(m: ReferenceContext) -> bool {
        &&& bool::valid(m.include_declaration)
    }

    /// The members of a value, written between members of other names, read back as the value.
    pub proof fn lemma_fields_round_trip(m: ReferenceContext, pre: Seq<(Seq<char>, JVal)>, post: Seq<(Seq<char>, JVal)>)
        requires
            Self::fields_valid(m),
            forall|k: Seq<char>| Self::uses_key(k) ==> (#[trigger] lookup(pre, k)) is None,
            forall|k: Seq<char>| Self::uses_key(k) ==> (#[trigger] lookup(post, k)) is None,
        ensures
            Self::fields_from(pre + Self::fields_json(m) + post) == Ok::<ReferenceContext, DecodeError>(m),
    {
        broadcast use group_lookup;
        reveal(ReferenceContext::fields_from);
        reveal_strlit("includeDeclaration");
        assert("includeDeclaration"@.len() == 18);
        bool::lemma_round_trip(m.include_declaration);
    }

    /// Members with names that the type does not read change nothing.
    pub proof fn lemma_unknown_key(ms: Seq<(Seq<char>, JVal)>, k: Seq<char>, v: JVal)
        requires
            !Self::uses_key(k),
        ensures
            Self::fields_from(ms + member(k, v)) == Self::fields_from(ms),
    {
        broadcast use group_lookup;
        reveal(ReferenceContext::fields_from);
    }

    /// The member names that the type reads.
    pub open spec fn uses_key(k: Seq<char>) -> bool {
        k == "includeDeclaration"@
    }

    /// Appends the members of the value to an object under construction.
    pub fn write_fields(&self, ms: &mut Vec<(String, Json)>)
        ensures
            members(Json::Object(*final(ms))@) == members(Json::Object(*old(ms))@) + Self::fields_json(self.model()),
    {
        let ghost start = members(Json::Object(*ms)@);
        push_member(ms, "includeDeclaration", self.include_declaration.to_json());
        assert(members(Json::Object(*ms)@) =~= start + Self::fields_json(self.model()));
    }

    /// Reads a value from the members of an object.
    pub fn read_fields(ms: &Vec<(String, Json)>) -> (r: Result<Self, DecodeError>)
        ensures
            match r {
                Ok(v) => Self::fields_from(members(Json::Object(*ms)@)) == Ok::<ReferenceContext, DecodeError>(v.model()),
                Err(e) => Self::fields_from(members(Json::Object(*ms)@)) == Err::<ReferenceContext, DecodeError>(e),
            },
    {
        proof {
            reveal(ReferenceContext::fields_from);
        }
        let include_declaration = match read_req::<bool>(ms, "includeDeclaration") {
            Ok(v) => v,
            Err(e) => return Err(e),
        };
        Ok(ReferenceContext { include_declaration })
    }
}

impl JsonCodec for ReferenceContext {
    type Model = ReferenceContext;

    open spec fn model(&self) -> ReferenceContext {
        *self
    }

    open spec fn encode(m: ReferenceContext) -> JVal {
        JVal::Obj(Self::fields_json(m))
    }

    open spec fn decode(j: JVal) -> Result<ReferenceContext, DecodeError> {
        match j {
            JVal::Obj(ms) => Self::fields_from(ms),
            _ => Err(DecodeError::WrongShape),
        }
    }

    open spec fn valid(m: ReferenceContext) -> bool {
        Self::fields_valid(m)
    }

    fn to_json(&self) -> (r: Json) {
        let mut ms = new_object();
        self.write_fields(&mut ms);
        Json::Object(ms)
    }

    fn from_json(j: &Json) -> (r: Result<Self, DecodeError>) {
        match j {
            Json::Object(ms) => Self::read_fields(ms),
            _ => Err(DecodeError::WrongShape),
        }
    }

    proof fn lemma_round_trip(m: ReferenceContext) {
        Self::lemma_fields_round_trip(m, Seq::empty(), Seq::empty());
        assert(Seq::empty() + Self::fields_json(m) + Seq::empty() =~= Self::fields_json(m));
    }

}

/// Parameters of the `textDocument/references` request.
#[derive(Clone, Debug, PartialEq, Eq)]
pub struct ReferenceParams {
    pub text_document_position: TextDocumentPositionParams,
    pub work_done_progress_params: WorkDoneProgressParams,
    pub partial_result_params: PartialResultParams,
    pub context: ReferenceContext,
}

/// The mathematical value of a [`ReferenceParams`].
pub struct ReferenceParamsModel {
    pub text_document_position: TextDocumentPositionParamsModel,
    pub work_done_progress_params: WorkDoneProgressParamsModel,
    pub partial_result_params: PartialResultParamsModel,
    pub context: ReferenceContext,
}

impl ReferenceParams {
    /// The members that a value contributes to the object it is written in.
    pub open spec fn fields_json(m: ReferenceParamsModel) -> Seq<(Seq<char>, JVal)> {
        TextDocumentPositionParams::fields_json(m.text_document_position)
            + WorkDoneProgressParams::fields_json(m.work_done_progress_params)
            + PartialResultParams::fields_json(m.partial_result_params)
            + member("context"@, ReferenceContext::encode(m.context))
    }

    /// Reads a value from the members of an object; other members are ignored.
    #[verifier::opaque]
    pub open spec fn fields_from(ms: Seq<(Seq<char>, JVal)>) -> Result<ReferenceParamsModel, DecodeError> {
        match TextDocumentPositionParams::fields_from(ms) {
            Err(e) => Err(e),
            Ok(text_document_position) => {
                match WorkDoneProgressParams::fields_from(ms) {
                    Err(e) => Err(e),
                    Ok(work_done_progress_params) => {
                        match PartialResultParams::fields_from(ms) {
                            Err(e) => Err(e),
                            Ok(partial_result_params) => {
                                match req_field::<ReferenceContext>(ms, "context"@) {
                                    Err(e) => Err(e),
                                    Ok(context) => {
                                        Ok(ReferenceParamsModel { text_document_position, work_done_progress_params, partial_result_params, context })
                                    },
                                }
                            },
                        }
                    },
                }
            },
        }
    }

    /// The models that values can have.
    pub open spec fn fields_valid(m: ReferenceParamsModel) -> bool {
        &&& TextDocumentPositionParams::fields_valid(m.text_document_position)
        &&& WorkDoneProgressParams::fields_valid(m.work_done_progress_params)
        &&& PartialResultParams::fields_valid(m.partial_result_params)
        &&& ReferenceContext::valid(m.context)
    }

    /// The members of a value, written between members of other names, read back as the value.
    pub proof fn lemma_fields_round_trip(m: ReferenceParamsModel, pre: Seq<(Seq<char>, JVal)>, post: Seq<(Seq<char>, JVal)>)
        requires
            Self::fields_valid(m),
            forall|k: Seq<char>| Self::uses_key(k) ==> (#[trigger] lookup(pre, k)) is None,
            forall|k: Seq<char>| Self::uses_key(k) ==> (#[trigger] lookup(post, k)) is None,
        ensures
            Self::fields_from(pre + Self::fields_json(m) + post) == Ok::<ReferenceParamsModel, DecodeError>(m),
    {
        broadcast use group_lookup;
        reveal(ReferenceParams::fields_from);
        reveal_strlit("textDocument");
        reveal_strlit("position");
        reveal_strlit("workDoneToken");
        reveal_strlit("partialResultToken");
        reveal_strlit("context");
        assert("textDocument"@.len() == 12);
        assert("position"@.len() == 8);
        assert("workDoneToken"@.len() == 13);
        assert("partialResultToken"@.len() == 18);
        assert("context"@.len() == 7);
        let before = pre;
        let after = WorkDoneProgressParams::fields_json(m.work_done_progress_params) + PartialResultParams::fields_json(m.partial_result_params) + member("context"@, ReferenceContext::encode(m.context)) + post;
        TextDocumentPositionParams::lemma_fields_round_trip(m.text_document_position, before, after);
        assert(pre + Self::fields_json(m) + post =~= before + TextDocumentPositionParams::fields_json(m.text_document_position) + after);
        let before = pre + TextDocumentPositionParams::fields_json(m.text_document_position);
        let after = PartialResultParams::fields_json(m.partial_result_params) + member("context"@, ReferenceContext::encode(m.context)) + post;
        WorkDoneProgressParams::lemma_fields_round_trip(m.work_done_progress_params, before, after);
        assert(pre + Self::fields_json(m) + post =~= before + WorkDoneProgressParams::fields_json(m.work_done_progress_params) + after);
        let before = pre + TextDocumentPositionParams::fields_json(m.text_document_position) + WorkDoneProgressParams::fields_json(m.work_done_progress_params);
        let after = member("context"@, ReferenceContext::encode(m.context)) + post;
        PartialResultParams::lemma_fields_round_trip(m.partial_result_params, before, after);
        assert(pre + Self::fields_json(m) + post =~= before + PartialResultParams::fields_json(m.partial_result_params) + after);
        ReferenceContext::lemma_round_trip(m.context);
    }

    /// Members with names that the type does not read change nothing.
    pub proof fn lemma_unknown_key(ms: Seq<(Seq<char>, JVal)>, k: Seq<char>, v: JVal)
        requires
            !Self::uses_key(k),
        ensures
            Self::fields_from(ms + member(k, v)) == Self::fields_from(ms),
    {
        broadcast use group_lookup;
        reveal(ReferenceParams::fields_from);
        TextDocumentPositionParams::lemma_unknown_key(ms, k, v);
        WorkDoneProgressParams::lemma_unknown_key(ms, k, v);
        PartialResultParams::lemma_unknown_key(ms, k, v);
    }

    /// The member names that the type reads.
    pub open spec fn uses_key(k: Seq<char>) -> bool {
        TextDocumentPositionParams::uses_key(k) || WorkDoneProgressParams::uses_key(k) || PartialResultParams::uses_key(k) || k == "context"@
    }

    /// Appends the members of the value to an object under construction.
    pub fn write_fields(&self, ms: &mut Vec<(String, Json)>)
        ensures
            members(Json::Object(*final(ms))@) == members(Json::Object(*old(ms))@) + Self::fields_json(self.model()),
    {
        let ghost start = members(Json::Object(*ms)@);
        let ghost m = self.model();
        self.text_document_position.write_fields(ms);
        self.work_done_progress_params.write_fields(ms);
        proof {
            lemma_concat_associative(start, TextDocumentPositionParams::fields_json(m.text_document_position), WorkDoneProgressParams::fields_json(m.work_done_progress_params));
        }
        self.partial_result_params.write_fields(ms);
        proof {
            lemma_concat_associative(start, TextDocumentPositionParams::fields_json(m.text_document_position) + WorkDoneProgressParams::fields_json(m.work_done_progress_params), PartialResultParams::fields_json(m.partial_result_params));
        }
        push_member(ms, "context", self.context.to_json());
        proof {
            lemma_concat_associative(start, TextDocumentPositionParams::fields_json(m.text_document_position) + WorkDoneProgressParams::fields_json(m.work_done_progress_params) + PartialResultParams::fields_json(m.partial_result_params), member("context"@, ReferenceContext::encode(m.context)));
        }
    }

    /// Reads a value from the members of an object.
    pub fn read_fields(ms: &Vec<(String, Json)>) -> (r: Result<Self, DecodeError>)
        ensures
            match r {
                Ok(v) => Self::fields_from(members(Json::Object(*ms)@)) == Ok::<ReferenceParamsModel, DecodeError>(v.model()),
                Err(e) => Self::fields_from(members(Json::Object(*ms)@)) == Err::<ReferenceParamsModel, DecodeError>(e),
            },
    {
        proof {
            reveal(ReferenceParams::fields_from);
        }
        let text_document_position = match TextDocumentPositionParams::read_fields(ms) {
            Ok(v) => v,
            Err(e) => return Err(e),
        };
        let work_done_progress_params = match WorkDoneProgressParams::read_fields(ms) {
            Ok(v) => v,
            Err(e) => return Err(e),
        };
        let partial_result_params = match PartialResultParams::read_fields(ms) {
            Ok(v) => v,
            Err(e) => return Err(e),
        };
        let context = match read_req::<ReferenceContext>(ms, "context") {
            Ok(v) => v,
            Err(e) => return Err(e),
        };
        Ok(ReferenceParams { text_document_position, work_done_progress_params, partial_result_params, context })
    }
}

impl JsonCodec for ReferenceParams {
    type Model = ReferenceParamsModel;

    open spec fn model(&self) -> ReferenceParamsModel {
        ReferenceParamsModel {
            text_document_position: self.text_document_position.model(),
            work_done_progress_params: self.work_done_progress_params.model(),
            partial_result_params: self.partial_result_params.model(),
            context: self.context.model(),
        }
    }

    open spec fn encode(m: ReferenceParamsModel) -> JVal {
        JVal::Obj(Self::fields_json(m))
    }

    open spec fn decode(j: JVal) -> Result<ReferenceParamsModel, DecodeError> {
        match j {
            JVal::Obj(ms) => Self::fields_from(ms),
            _ => Err(DecodeError::WrongShape),
        }
    }

    open spec fn valid(m: ReferenceParamsModel) -> bool {
        Self::fields_valid(m)
    }

    fn to_json(&self) -> (r: Json) {
        let mut ms = new_object();
        self.write_fields(&mut ms);
        Json::Object(ms)
    }

    fn from_json(j: &Json) -> (r: Result<Self, DecodeError>) {
        match j {
            Json::Object(ms) => Self::read_fields(ms),
            _ => Err(DecodeError::WrongShape),
        }
    }

    proof fn lemma_round_trip(m: ReferenceParamsModel) {
        Self::lemma_fields_round_trip(m, Seq::empty(), Seq::empty());
        assert(Seq::empty() + Self::fields_json(m) + Seq::empty() =~= Self::fields_json(m));
    }

}

/// Parameters of the `textDocument/documentHighlight` request.
#[derive(Clone, Debug, PartialEq, Eq)]
pub struct DocumentHighlightParams {
    pub text_document_position_params: TextDocumentPositionParams,
    pub work_done_progress_params: WorkDoneProgressParams,
    pub partial_result_params: PartialResultParams,
}

/// The mathematical value of a [`DocumentHighlightParams`].
pub struct DocumentHighlightParamsModel {
    pub text_document_position_params: TextDocumentPositionParamsModel,
    pub work_done_progress_params: WorkDoneProgressParamsModel,
    pub partial_result_params: PartialResultParamsModel,
}

impl DocumentHighlightParams {
    /// The members that a value contributes to the object it is written in.
    pub open spec fn fields_json(m: DocumentHighlightParamsModel) -> Seq<(Seq<char>, JVal)> {
        TextDocumentPositionParams::fields_json(m.text_document_position_params)
            + WorkDoneProgressParams::fields_json(m.work_done_progress_params)
            + PartialResultParams::fields_json(m.partial_result_params)
    }

    /// Reads a value from the members of an object; other members are ignored.
    #[verifier::opaque]
    pub open spec fn fields_from(ms: Seq<(Seq<char>, JVal)>) -> Result<DocumentHighlightParamsModel, DecodeError> {
        match TextDocumentPositionParams::fields_from(ms) {
            Err(e) => Err(e),
            Ok(text_document_position_params) => {
                match WorkDoneProgressParams::fields_from(ms) {
                    Err(e) => Err(e),
                    Ok(work_done_progress_params) => {
                        match PartialResultParams::fields_from(ms) {
                            Err(e) => Err(e),
                            Ok(partial_result_params) => {
                                Ok(DocumentHighlightParamsModel { text_document_position_params, work_done_progress_params, partial_result_params })
                            },
                        }
                    },
                }
            },
        }
    }

    /// The models that values can have.
    pub open spec fn fields_valid(m: DocumentHighlightParamsModel) -> bool {
        &&& TextDocumentPositionParams::fields_valid(m.text_document_position_params)
        &&& WorkDoneProgressParams::fields_valid(m.work_done_progress_params)
        &&& PartialResultParams::fields_valid(m.partial_result_params)
    }

    /// The members of a value, written between members of other names, read back as the value.
    pub proof fn lemma_fields_round_trip(m: DocumentHighlightParamsModel, pre: Seq<(Seq<char>, JVal)>, post: Seq<(Seq<char>, JVal)>)
        requires
            Self::fields_valid(m),
            forall|k: Seq<char>| Self::uses_key(k) ==> (#[trigger] lookup(pre, k)) is None,
            forall|k: Seq<char>| Self::uses_key(k) ==> (#[trigger] lookup(post, k)) is None,
        ensures
            Self::fields_from(pre + Self::fields_json(m) + post) == Ok::<DocumentHighlightParamsModel, DecodeError>(m),
    {
        broadcast use group_lookup;
        reveal(DocumentHighlightParams::fields_from);
        reveal_strlit("textDocument");
        reveal_strlit("position");
        reveal_strlit("workDoneToken");
        reveal_strlit("partialResultToken");
        assert("textDocument"@.len() == 12);
        assert("position"@.len() == 8);
        assert("workDoneToken"@.len() == 13);
        assert("partialResultToken"@.len() == 18);
        let before = pre;
        let after = WorkDoneProgressParams::fields_json(m.work_done_progress_params) + PartialResultParams::fields_json(m.partial_result_params) + post;
        TextDocumentPositionParams::lemma_fields_round_trip(m.text_document_position_params, before, after);
        assert(pre + Self::fields_json(m) + post =~= before + TextDocumentPositionParams::fields_json(m.text_document_position_params) + after);
        let before = pre + TextDocumentPositionParams::fields_json(m.text_document_position_params);
        let after = PartialResultParams::fields_json(m.partial_result_params) + post;
        WorkDoneProgressParams::lemma_fields_round_trip(m.work_done_progress_params, before, after);
        assert(pre + Self::fields_json(m) + post =~= before + WorkDoneProgressParams::fields_json(m.work_done_progress_params) + after);
        let before = pre + TextDocumentPositionParams::fields_json(m.text_document_position_params) + WorkDoneProgressParams::fields_json(m.work_done_progress_params);
        let after = post;
        PartialResultParams::lemma_fields_round_trip(m.partial_result_params, before, after);
        assert(pre + Self::fields_json(m) + post =~= before + PartialResultParams::fields_json(m.partial_result_params) + after);
    }

    /// Members with names that the type does not read change nothing.
    pub proof fn lemma_unknown_key(ms: Seq<(Seq<char>, JVal)>, k: Seq<char>, v: JVal)
        requires
            !Self::uses_key(k),
        ensures
            Self::fields_from(ms + member(k, v)) == Self::fields_from(ms),
    {
        broadcast use group_lookup;
        reveal(DocumentHighlightParams::fields_from);
        TextDocumentPositionParams::lemma_unknown_key(ms, k, v);
        WorkDoneProgressParams::lemma_unknown_key(ms, k, v);
        PartialResultParams::lemma_unknown_key(ms, k, v);
    }

    /// The member names that the type reads.
    pub open spec fn uses_key(k: Seq<char>) -> bool {
        TextDocumentPositionParams::uses_key(k) || WorkDoneProgressParams::uses_key(k) || PartialResultParams::uses_key(k)
    }

    /// Appends the members of the value to an object under construction.
    pub fn write_fields(&self, ms: &mut Vec<(String, Json)>)
        ensures
            members(Json::Object(*final(ms))@) == members(Json::Object(*old(ms))@) + Self::fields_json(self.model()),
    {
        let ghost start = members(Json::Object(*ms)@);
        let ghost m = self.model();
        self.text_document_position_params.write_fields(ms);
        self.work_done_progress_params.write_fields(ms);
        proof {
            lemma_concat_associative(start, TextDocumentPositionParams::fields_json(m.text_document_position_params), WorkDoneProgressParams::fields_json(m.work_done_progress_params));
        }
        self.partial_result_params.write_fields(ms);
        proof {
            lemma_concat_associative(start, TextDocumentPositionParams::fields_json(m.text_document_position_params) + WorkDoneProgressParams::fields_json(m.work_done_progress_params), PartialResultParams::fields_json(m.partial_result_params));
        }
    }

    /// Reads a value from the members of an object.
    pub fn read_fields(ms: &Vec<(String, Json)>) -> (r: Result<Self, DecodeError>)
        ensures
            match r {
                Ok(v) => Self::fields_from(members(Json::Object(*ms)@)) == Ok::<DocumentHighlightParamsModel, DecodeError>(v.model()),
                Err(e) => Self::fields_from(members(Json::Object(*ms)@)) == Err::<DocumentHighlightParamsModel, DecodeError>(e),
            },
    {
        proof {
            reveal(DocumentHighlightParams::fields_from);
        }
        let text_document_position_params = match TextDocumentPositionParams::read_fields(ms) {
            Ok(v) => v,
            Err(e) => return Err(e),
        };
        let work_done_progress_params = match WorkDoneProgressParams::read_fields(ms) {
            Ok(v) => v,
            Err(e) => return Err(e),
        };
        let partial_result_params = match PartialResultParams::read_fields(ms) {
            Ok(v) => v,
            Err(e) => return Err(e),
        };
        Ok(DocumentHighlightParams { text_document_position_params, work_done_progress_params, partial_result_params })
    }
}

impl JsonCodec for DocumentHighlightParams {
    type Model = DocumentHighlightParamsModel;

    open spec fn model(&self) -> DocumentHighlightParamsModel {
        DocumentHighlightParamsModel {
            text_document_position_params: self.text_document_position_params.model(),
            work_done_progress_params: self.work_done_progress_params.model(),
            partial_result_params: self.partial_result_params.model(),
        }
    }

    open spec fn encode(m: DocumentHighlightParamsModel) -> JVal {
        JVal::Obj(Self::fields_json(m))
    }

    open spec fn decode(j: JVal) -> Result<DocumentHighlightParamsModel, DecodeError> {
        match j {
            JVal::Obj(ms) => Self::fields_from(ms),
            _ => Err(DecodeError::WrongShape),
        }
    }

    open spec fn valid(m: DocumentHighlightParamsModel) -> bool {
        Self::fields_valid(m)
    }

    fn to_json(&self) -> (r: Json) {
        let mut ms = new_object();
        self.write_fields(&mut ms);
        Json::Object(ms)
    }

    fn from_json(j: &Json) -> (r: Result<Self, DecodeError>) {
        match j {
            Json::Object(ms) => Self::read_fields(ms),
            _ => Err(DecodeError::WrongShape),
        }
    }

    proof fn lemma_round_trip(m: DocumentHighlightParamsModel) {
        Self::lemma_fields_round_trip(m, Seq::empty(), Seq::empty());
        assert(Seq::empty() + Self::fields_json(m) + Seq::empty() =~= Self::fields_json(m));
    }

}

/// A range inside a text document which deserves special attention.
#[derive(Clone, Debug, PartialEq, Eq, Structural)]
pub struct DocumentHighlight {
    /// The range this highlight applies to.
    pub range: Range,
    /// The highlight kind; text when absent.
    pub kind: Option<DocumentHighlightKind>,
}

impl DocumentHighlight {
    /// The members that a value contributes to the object it is written in.
    pub open spec fn fields_json(m: DocumentHighlight) -> Seq<(Seq<char>, JVal)> {
        member("range"@, Range::encode(m.range))
            + opt_member::<DocumentHighlightKind>("kind"@, m.kind)
    }

    /// Reads a value from the members of an object; other members are ignored.
    #[verifier::opaque]
    pub open spec fn fields_from(ms: Seq<(Seq<char>, JVal)>) -> Result<DocumentHighlight, DecodeError> {
        match req_field::<Range>(ms, "range"@) {
            Err(e) => Err(e),
            Ok(range) => {
                match opt_field::<DocumentHighlightKind>(ms, "kind"@) {
                    Err(e) => Err(e),
                    Ok(kind) => {
                        Ok(DocumentHighlight { range, kind })
                    },
                }
            },
        }
    }

    /// The models that values can have.
    pub open spec fn fields_valid(m: DocumentHighlight) -> bool {
        &&& Range::valid(m.range)
        &&& opt_valid::<DocumentHighlightKind>(m.kind)
    }

    /// The members of a value, written between members of other names, read back as the value.
    pub proof fn lemma_fields_round_trip(m: DocumentHighlight, pre: Seq<(Seq<char>, JVal)>, post: Seq<(Seq<char>, JVal)>)
        requires
            Self::fields_valid(m),
            forall|k: Seq<char>| Self::uses_key(k) ==> (#[trigger] lookup(pre, k)) is None,
            forall|k: Seq<char>| Self::uses_key(k) ==> (#[trigger] lookup(post, k)) is None,
        ensures
            Self::fields_from(pre + Self::fields_json(m) + post) == Ok::<DocumentHighlight, DecodeError>(m),
    {
        broadcast use group_lookup;
        reveal(DocumentHighlight::fields_from);
        reveal_strlit("range");
        reveal_strlit("kind");
        assert("range"@.len() == 5);
        assert("kind"@.len() == 4);
        Range::lemma_round_trip(m.range);
        if let Some(x) = m.kind {
            DocumentHighlightKind::lemma_round_trip(x);
        }
    }

    /// Members with names that the type does not read change nothing.
    pub proof fn lemma_unknown_key(ms: Seq<(Seq<char>, JVal)>, k: Seq<char>, v: JVal)
        requires
            !Self::uses_key(k),
        ensures
            Self::fields_from(ms + member(k, v)) == Self::fields_from(ms),
    {
        broadcast use group_lookup;
        reveal(DocumentHighlight::fields_from);
    }

    /// The member names that the type reads.
    pub open spec fn uses_key(k: Seq<char>) -> bool {
        k == "range"@ || k == "kind"@
    }

    /// Appends the members of the value to an object under construction.
    pub fn write_fields(&self, ms: &mut Vec<(String, Json)>)
        ensures
            members(Json::Object(*final(ms))@) == members(Json::Object(*old(ms))@) + Self::fields_json(self.model()),
    {
        let ghost start = members(Json::Object(*ms)@);
        let ghost m = self.model();
        push_member(ms, "range", self.range.to_json());
        push_opt(ms, "kind", &self.kind);
        proof {
            lemma_concat_associative(start, member("range"@, Range::encode(m.range)), opt_member::<DocumentHighlightKind>("kind"@, m.kind));
        }
    }

    /// Reads a value from the members of an object.
    pub fn read_fields(ms: &Vec<(String, Json)>) -> (r: Result<Self, DecodeError>)
        ensures
            match r {
                Ok(v) => Self::fields_from(members(Json::Object(*ms)@)) == Ok::<DocumentHighlight, DecodeError>(v.model()),
                Err(e) => Self::fields_from(members(Json::Object(*ms)@)) == Err::<DocumentHighlight, DecodeError>(e),
            },
    {
        proof {
            reveal(DocumentHighlight::fields_from);
        }
        let range = match read_req::<Range>(ms, "range") {
            Ok(v) => v,
            Err(e) => return Err(e),
        };
        let kind = match read_opt::<DocumentHighlightKind>(ms, "kind") {
            Ok(v) => v,
            Err(e) => return Err(e),
        };
        Ok(DocumentHighlight { range, kind })
    }
}

impl JsonCodec for DocumentHighlight {
    type Model = DocumentHighlight;

    open spec fn model(&self) -> DocumentHighlight {
        *self
    }

    open spec fn encode(m: DocumentHighlight) -> JVal {
        JVal::Obj(Self::fields_json(m))
    }

    open spec fn decode(j: JVal) -> Result<DocumentHighlight, DecodeError> {
        match j {
            JVal::Obj(ms) => Self::fields_from(ms),
            _ => Err(DecodeError::WrongShape),
        }
    }

    open spec fn valid(m: DocumentHighlight) -> bool {
        Self::fields_valid(m)
    }

    fn to_json(&self) -> (r: Json) {
        let mut ms = new_object();
        self.write_fields(&mut ms);
        Json::Object(ms)
    }

    fn from_json(j: &Json) -> (r: Result<Self, DecodeError>) {
        match j {
            Json::Object(ms) => Self::read_fields(ms),
            _ => Err(DecodeError::WrongShape),
        }
    }

    proof fn lemma_round_trip(m: DocumentHighlight) {
        Self::lemma_fields_round_trip(m, Seq::empty(), Seq::empty());
        assert(Seq::empty() + Self::fields_json(m) + Seq::empty() =~= Self::fields_json(m));
    }

}

} // verus!
