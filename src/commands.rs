//! Parameters and registration options of the execute-command request.

use vstd::prelude::*;
use vstd::seq_lib::lemma_concat_associative;
use crate::json::{default_field, group_lookup, lookup, member, members, new_object, nullable_field, opt_field, opt_member, opt_valid, push_member, push_opt, read_default, read_nullable, read_opt, read_req, req_field, DecodeError, JVal, Json, JsonCodec};
use crate::basic::{WorkDoneProgressOptions, WorkDoneProgressParams, WorkDoneProgressParamsModel};
use crate::capabilities::{ExecuteCommandOptions, ExecuteCommandOptionsModel};

verus! {

/// Parameters of the `workspace/executeCommand` request.
#[derive(Clone, Debug, Default, PartialEq, Eq)]
pub struct ExecuteCommandParams {
    /// The identifier of the actual command handler.
    pub command: String,
    /// Arguments that the command should be invoked with; empty when absent.
    pub arguments: Vec<Json>,
    pub work_done_progress_params: WorkDoneProgressParams,
}

/// The mathematical value of a [`ExecuteCommandParams`].
pub struct ExecuteCommandParamsModel {
    pub command: Seq<char>,
    pub arguments: Seq<JVal>,
    pub work_done_progress_params: WorkDoneProgressParamsModel,
}

impl ExecuteCommandParams {
    /// The members that a value contributes to the object it is written in.
    pub open spec fn fields_json(m: ExecuteCommandParamsModel) -> Seq<(Seq<char>, JVal)> {
        member("command"@, String::encode(m.command))
            + member("arguments"@, <Vec<Json>>::encode(m.arguments))
            + WorkDoneProgressParams::fields_json(m.work_done_progress_params)
    }

    /// Reads a value from the members of an object; other members are ignored.
    #[verifier::opaque]
    pub open spec fn fields_from(ms: Seq<(Seq<char>, JVal)>) -> Result<ExecuteCommandParamsModel, DecodeError> {
        match req_field::<String>(ms, "command"@) {
            Err(e) => Err(e),
            Ok(command) => {
                match default_field::<Json>(ms, "arguments"@) {
                    Err(e) => Err(e),
                    Ok(arguments) => {
                        match WorkDoneProgressParams::fields_from(ms) {
                            Err(e) => Err(e),
                            Ok(work_done_progress_params) => {
                                Ok(ExecuteCommandParamsModel { command, arguments, work_done_progress_params })
                            },
                        }
                    },
                }
            },
        }
    }

    /// The models that values can have.
    pub open spec fn fields_valid(m: ExecuteCommandParamsModel) -> bool {
        &&& String::valid(m.command)
        &&& <Vec<Json>>::valid(m.arguments)
        &&& WorkDoneProgressParams::fields_valid(m.work_done_progress_params)
    }

    /// The members of a value, written between members of other names, read back as the value.
    pub proof fn lemma_fields_round_trip(m: ExecuteCommandParamsModel, pre: Seq<(Seq<char>, JVal)>, post: Seq<(Seq<char>, JVal)>)
        requires
            Self::fields_valid(m),
            forall|k: Seq<char>| Self::uses_key(k) ==> (#[trigger] lookup(pre, k)) is None,
            forall|k: Seq<char>| Self::uses_key(k) ==> (#[trigger] lookup(post, k)) is None,
        ensures
            Self::fields_from(pre + Self::fields_json(m) + post) == Ok::<ExecuteCommandParamsModel, DecodeError>(m),
    {
        broadcast use group_lookup;
        reveal(ExecuteCommandParams::fields_from);
        reveal_strlit("command");
        reveal_strlit("arguments");
        reveal_strlit("workDoneToken");
        assert("command"@.len() == 7);
        assert("arguments"@.len() == 9);
        assert("workDoneToken"@.len() == 13);
        String::lemma_round_trip(m.command);
        <Vec<Json>>::lemma_round_trip(m.arguments);
        let before = pre + member("command"@, String::encode(m.command)) + member("arguments"@, <Vec<Json>>::encode(m.arguments));
        let after = post;
        WorkDoneProgressParams::lemma_fields_round_trip(m.work_done_progress_params, before, after);
        assert(pre + Self::fields_json(m) + post =~= before + WorkDoneProgressParams::fields_json(m.work_done_progress_params) + after);
    }

    /// Members with names that the type does not read change nothing.
    pub proof fn lemma_unknown_key(ms: Seq<(Seq<char>, JVal)>, k: Seq<char>, v: JVal)
        requires
            !Self::uses_key(k),
        ensures
            Self::fields_from(ms + member(k, v)) == Self::fields_from(ms),
    {
        broadcast use group_lookup;
        reveal(ExecuteCommandParams::fields_from);
        WorkDoneProgressParams::lemma_unknown_key(ms, k, v);
    }

    /// The member names that the type reads.
    pub open spec fn uses_key(k: Seq<char>) -> bool {
        k == "command"@ || k == "arguments"@ || WorkDoneProgressParams::uses_key(k)
    }

    /// Appends the members of the value to an object under construction.
    pub fn write_fields(&self, ms: &mut Vec<(String, Json)>)
        ensures
            members(Json::Object(*final(ms))@) == members(Json::Object(*old(ms))@) + Self::fields_json(self.model()),
    {
        let ghost start = members(Json::Object(*ms)@);
        let ghost m = self.model();
        push_member(ms, "command", self.command.to_json());
        push_member(ms, "arguments", self.arguments.to_json());
        proof {
            lemma_concat_associative(start, member("command"@, String::encode(m.command)), member("arguments"@, <Vec<Json>>::encode(m.arguments)));
        }
        self.work_done_progress_params.write_fields(ms);
        proof {
            lemma_concat_associative(start, member("command"@, String::encode(m.command)) + member("arguments"@, <Vec<Json>>::encode(m.arguments)), WorkDoneProgressParams::fields_json(m.work_done_progress_params));
        }
    }

    /// Reads a value from the members of an object.
    pub fn read_fields(ms: &Vec<(String, Json)>) -> (r: Result<Self, DecodeError>)
        ensures
            match r {
                Ok(v) => Self::fields_from(members(Json::Object(*ms)@)) == Ok::<ExecuteCommandParamsModel, DecodeError>(v.model()),
                Err(e) => Self::fields_from(members(Json::Object(*ms)@)) == Err::<ExecuteCommandParamsModel, DecodeError>(e),
            },
    {
        proof {
            reveal(ExecuteCommandParams::fields_from);
        }
        let command = match read_req::<String>(ms, "command") {
            Ok(v) => v,
            Err(e) => return Err(e),
        };
        let arguments = match read_default::<Json>(ms, "arguments") {
            Ok(v) => v,
            Err(e) => return Err(e),
        };
        let work_done_progress_params = match WorkDoneProgressParams::read_fields(ms) {
            Ok(v) => v,
            Err(e) => return Err(e),
        };
        Ok(ExecuteCommandParams { command, arguments, work_done_progress_params })
    }
}

impl JsonCodec for ExecuteCommandParams {
    type Model = ExecuteCommandParamsModel;

    open spec fn model(&self) -> ExecuteCommandParamsModel {
        ExecuteCommandParamsModel {
            command: self.command.model(),
            arguments: self.arguments.model(),
            work_done_progress_params: self.work_done_progress_params.model(),
        }
    }

    open spec fn encode(m: ExecuteCommandParamsModel) -> JVal {
        JVal::Obj(Self::fields_json(m))
    }

    open spec fn decode(j: JVal) -> Result<ExecuteCommandParamsModel, DecodeError> {
        match j {
            JVal::Obj(ms) => Self::fields_from(ms),
            _ => Err(DecodeError::WrongShape),
        }
    }

    open spec fn valid(m: ExecuteCommandParamsModel) -> bool {
        Self::fields_valid(m)
    }

    fn to_json(&self) -> (r: Json) {
        let mut ms = new_object();
        self.write_fields(&mut ms);
        Json::Object(ms)
    }

    fn from_json(j: &Json) -> (r: Result<Self, DecodeError>) {
        match j {
            Json::Object(ms) => Self::read_fields(ms),
            _ => Err(DecodeError::WrongShape),
        }
    }

    proof fn lemma_round_trip(m: ExecuteCommandParamsModel) {
        Self::lemma_fields_round_trip(m, Seq::empty(), Seq::empty());
        assert(Seq::empty() + Self::fields_json(m) + Seq::empty() =~= Self::fields_json(m));
    }

}

/// Registration options of the execute-command request. The command list is
/// written twice, as its own member and as the one of the inlined options.
#[derive(Clone, Debug, PartialEq, Eq)]
pub struct ExecuteCommandRegistrationOptions {
    /// The commands to be executed on the server.
    pub commands: Vec<String>,
    pub execute_command_options: ExecuteCommandOptions,
}

/// The mathematical value of an [`ExecuteCommandRegistrationOptions`].
pub struct ExecuteCommandRegistrationOptionsModel {
    pub commands: Seq<Seq<char>>,
    pub execute_command_options: ExecuteCommandOptionsModel,
}

impl ExecuteCommandRegistrationOptions {
    /// The members that a value contributes to the object it is written in.
    pub open spec fn fields_json(m: ExecuteCommandRegistrationOptionsModel) -> Seq<(Seq<char>, JVal)> {
        member("commands"@, <Vec<String>>::encode(m.commands)) + ExecuteCommandOptions::fields_json(
            m.execute_command_options,
        )
    }

    /// Reads a value from the members of an object. Both command lists are read
    /// from the first `commands` member.
    #[verifier::opaque]
    pub open spec fn fields_from(ms: Seq<(Seq<char>, JVal)>) -> Result<ExecuteCommandRegistrationOptionsModel, DecodeError> {
        match req_field::<Vec<String>>(ms, "commands"@) {
            Err(e) => Err(e),
            Ok(commands) => match ExecuteCommandOptions::fields_from(ms) {
                Err(e) => Err(e),
                Ok(execute_command_options) => Ok(
                    ExecuteCommandRegistrationOptionsModel { commands, execute_command_options },
                ),
            },
        }
    }

    /// The models that values can have: both command lists are the same, as a
    /// reader sees only the first.
    pub open spec fn fields_valid(m: ExecuteCommandRegistrationOptionsModel) -> bool {
        &&& ExecuteCommandOptions::fields_valid(m.execute_command_options)
        &&& m.commands == m.execute_command_options.commands
    }

    /// The member names that the type reads.
    pub open spec fn uses_key(k: Seq<char>) -> bool {
        k == "commands"@ || ExecuteCommandOptions::uses_key(k)
    }

    /// The members of a value, written between members of other names, read back as the value.
    pub proof fn lemma_fields_round_trip(
        m: ExecuteCommandRegistrationOptionsModel,
        pre: Seq<(Seq<char>, JVal)>,
        post: Seq<(Seq<char>, JVal)>,
    )
        requires
            Self::fields_valid(m),
            forall|k: Seq<char>| Self::uses_key(k) ==> (#[trigger] lookup(pre, k)) is None,
            forall|k: Seq<char>| Self::uses_key(k) ==> (#[trigger] lookup(post, k)) is None,
        ensures
            Self::fields_from(pre + Self::fields_json(m) + post) == Ok::<ExecuteCommandRegistrationOptionsModel, DecodeError>(m),
    {
        broadcast use group_lookup;
        reveal(ExecuteCommandRegistrationOptions::fields_from);
        reveal(ExecuteCommandOptions::fields_from);
        reveal(WorkDoneProgressOptions::fields_from);
        reveal_strlit("commands");
        reveal_strlit("workDoneProgress");
        assert("commands"@.len() == 8);
        assert("workDoneProgress"@.len() == 16);
        <Vec<String>>::lemma_round_trip(m.commands);
        if let Some(x) = m.execute_command_options.work_done_progress_options.work_done_progress {
            bool::lemma_round_trip(x);
        }
    }

    /// Members with names that the type does not read change nothing.
    pub proof fn lemma_unknown_key(ms: Seq<(Seq<char>, JVal)>, k: Seq<char>, v: JVal)
        requires
            !Self::uses_key(k),
        ensures
            Self::fields_from(ms + member(k, v)) == Self::fields_from(ms),
    {
        broadcast use group_lookup;
        reveal(ExecuteCommandRegistrationOptions::fields_from);
        ExecuteCommandOptions::lemma_unknown_key(ms, k, v);
    }

    /// Appends the members of the value to an object under construction.
    pub fn write_fields(&self, ms: &mut Vec<(String, Json)>)
        ensures
            members(Json::Object(*final(ms))@) == members(Json::Object(*old(ms))@) + Self::fields_json(self.model()),
    {
        let ghost start = members(Json::Object(*ms)@);
        let ghost m = self.model();
        push_member(ms, "commands", self.commands.to_json());
        self.execute_command_options.write_fields(ms);
        proof {
            lemma_concat_associative(
                start,
                member("commands"@, <Vec<String>>::encode(m.commands)),
                ExecuteCommandOptions::fields_json(m.execute_command_options),
            );
        }
    }

    /// Reads a value from the members of an object.
    pub fn read_fields(ms: &Vec<(String, Json)>) -> (r: Result<Self, DecodeError>)
        ensures
            match r {
                Ok(v) => Self::fields_from(members(Json::Object(*ms)@)) == Ok::<ExecuteCommandRegistrationOptionsModel, DecodeError>(v.model()),
                Err(e) => Self::fields_from(members(Json::Object(*ms)@)) == Err::<ExecuteCommandRegistrationOptionsModel, DecodeError>(e),
            },
    {
        proof {
            reveal(ExecuteCommandRegistrationOptions::fields_from);
        }
        let commands = match read_req::<Vec<String>>(ms, "commands") {
            Ok(v) => v,
            Err(e) => return Err(e),
        };
        let execute_command_options = match ExecuteCommandOptions::read_fields(ms) {
            Ok(v) => v,
            Err(e) => return Err(e),
        };
        Ok(ExecuteCommandRegistrationOptions { commands, execute_command_options })
    }
}

impl JsonCodec for ExecuteCommandRegistrationOptions {
    type Model = ExecuteCommandRegistrationOptionsModel;

    open spec fn model(&self) -> ExecuteCommandRegistrationOptionsModel {
        ExecuteCommandRegistrationOptionsModel {
            commands: self.commands.model(),
            execute_command_options: self.execute_command_options.model(),
        }
    }

    open spec fn encode(m: ExecuteCommandRegistrationOptionsModel) -> JVal {
        JVal::Obj(Self::fields_json(m))
    }

    open spec fn decode(j: JVal) -> Result<ExecuteCommandRegistrationOptionsModel, DecodeError> {
        match j {
            JVal::Obj(ms) => Self::fields_from(ms),
            _ => Err(DecodeError::WrongShape),
        }
    }

    open spec fn valid(m: ExecuteCommandRegistrationOptionsModel) -> bool {
        Self::fields_valid(m)
    }

    fn to_json(&self) -> (r: Json) {
        let mut ms = new_object();
        self.write_fields(&mut ms);
        Json::Object(ms)
    }

    fn from_json(j: &Json) -> (r: Result<Self, DecodeError>) {
        match j {
            Json::Object(ms) => Self::read_fields(ms),
            _ => Err(DecodeError::WrongShape),
        }
    }

    proof fn lemma_round_trip(m: ExecuteCommandRegistrationOptionsModel) {
        Self::lemma_fields_round_trip(m, Seq::empty(), Seq::empty());
        assert(Seq::empty() + Self::fields_json(m) + Seq::empty() =~= Self::fields_json(m));
    }
}

} // verus!
