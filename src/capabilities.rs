//! Client and server capabilities, provider options and registration options.

use vstd::prelude::*;
use vstd::seq_lib::lemma_concat_associative;
use crate::json::{get_member, group_lookup, lookup, member, members, new_object, nullable_field, opt_field, opt_member, opt_model, opt_valid, push_member, push_opt, read_nullable, read_opt, read_req, req_field, DecodeError, JVal, Json, JsonCodec};
use crate::basic::{DocumentFilter, DocumentFilterModel, Either, OneOf, PartialResultParams, PartialResultParamsModel, TextDocumentPositionParams, TextDocumentPositionParamsModel, WorkDoneProgressOptions, WorkDoneProgressParams, WorkDoneProgressParamsModel};
use crate::kinds::{DiagnosticTag, SymbolKind, TextDocumentSyncKind};
use crate::protocol::Registration;
use crate::tags::{FailureHandlingKind, PositionEncodingKind, ResourceOperationKind};

verus! {

/// The tag values that a client supports.
#[derive(Clone, Debug, Default, PartialEq, Eq)]
pub struct TagSupport<T> {
    /// The tags supported by the client.
    pub value_set: Vec<T>,
}

/// Written as `{"valueSet": [...]}`.
impl<T: JsonCodec> JsonCodec for TagSupport<T> {
    type Model = Seq<T::Model>;

    open spec fn model(&self) -> Seq<T::Model> {
        self.value_set.model()
    }

    open spec fn encode(m: Seq<T::Model>) -> JVal {
        JVal::Obj(member("valueSet"@, <Vec<T>>::encode(m)))
    }

    open spec fn decode(j: JVal) -> Result<Seq<T::Model>, DecodeError> {
        match j {
            JVal::Obj(ms) => req_field::<Vec<T>>(ms, "valueSet"@),
            _ => Err(DecodeError::WrongShape),
        }
    }

    open spec fn valid(m: Seq<T::Model>) -> bool {
        <Vec<T>>::valid(m)
    }

    fn to_json(&self) -> (r: Json) {
        let mut ms = new_object();
        push_member(&mut ms, "valueSet", self.value_set.to_json());
        Json::Object(ms)
    }

    fn from_json(j: &Json) -> (r: Result<TagSupport<T>, DecodeError>) {
        match j {
            Json::Object(ms) => match read_req::<Vec<T>>(ms, "valueSet") {
                Ok(v) => Ok(TagSupport { value_set: v }),
                Err(e) => Err(e),
            },
            _ => Err(DecodeError::WrongShape),
        }
    }

    proof fn lemma_round_trip(m: Seq<T::Model>) {
        broadcast use group_lookup;
        <Vec<T>>::lemma_round_trip(m);
    }
}

/// Reads a tag-support member the way older peers write it too: absent, `null`
/// and `false` give none, `true` gives an empty set, anything else is read as
/// the set itself.
pub open spec fn compat_tag_field<T: JsonCodec>(ms: Seq<(Seq<char>, JVal)>, k: Seq<char>) -> Result<
    Option<Seq<T::Model>>,
    DecodeError,
> {
    match lookup(ms, k) {
        None => Ok(None),
        Some(JVal::Null) => Ok(None),
        Some(JVal::Bool(false)) => Ok(None),
        Some(JVal::Bool(true)) => Ok(Some(Seq::empty())),
        Some(v) => match TagSupport::<T>::decode(v) {
            Ok(t) => Ok(Some(t)),
            Err(e) => Err(e),
        },
    }
}

/// Decodes a tag-support member, accepting the boolean form of older peers.
pub fn read_compat_tag<T: JsonCodec>(ms: &Vec<(String, Json)>, key: &str) -> (r: Result<
    Option<TagSupport<T>>,
    DecodeError,
>)
    ensures
        match r {
            Ok(v) => compat_tag_field::<T>(members(Json::Object(*ms)@), key@) == Ok::<
                Option<Seq<T::Model>>,
                DecodeError,
            >(opt_model(v)),
            Err(e) => compat_tag_field::<T>(members(Json::Object(*ms)@), key@) == Err::<
                Option<Seq<T::Model>>,
                DecodeError,
            >(e),
        },
{
    match get_member(ms, key) {
        None => Ok(None),
        Some(Json::Null) => Ok(None),
        Some(Json::Bool(false)) => Ok(None),
        Some(Json::Bool(true)) => {
            let t = TagSupport { value_set: Vec::new() };
            assert(t.model() =~= Seq::<T::Model>::empty());
            Ok(Some(t))
        },
        Some(v) => match TagSupport::<T>::from_json(v) {
            Ok(t) => Ok(Some(t)),
            Err(e) => Err(e),
        },
    }
}

/// Whether a feature supports dynamic registration.
#[derive(Clone, Copy, Debug, Default, PartialEq, Eq, Structural)]
pub struct DynamicRegistrationClientCapabilities {
    /// Whether the feature supports dynamic registration.
    pub dynamic_registration: Option<bool>,
}

impl DynamicRegistrationClientCapabilities {
    /// The members that a value contributes to the object it is written in.
    pub open spec fn fields_json(m: DynamicRegistrationClientCapabilities) -> Seq<(Seq<char>, JVal)> {
        opt_member::<bool>("dynamicRegistration"@, m.dynamic_registration)
    }

    /// Reads a value from the members of an object; other members are ignored.
    #[verifier::opaque]
    pub open spec fn fields_from(ms: Seq<(Seq<char>, JVal)>) -> Result<DynamicRegistrationClientCapabilities, DecodeError> {
        match opt_field::<bool>(ms, "dynamicRegistration"@) {
            Err(e) => Err(e),
            Ok(dynamic_registration) => {
                Ok(DynamicRegistrationClientCapabilities { dynamic_registration })
            },
        }
    }

    /// The models that values can have.
    pub open spec fn fields_valid(m: DynamicRegistrationClientCapabilities) -> bool {
        &&& opt_valid::<bool>(m.dynamic_registration)
    }

    /// The members of a value, written between members of other names, read back as the value.
    pub proof fn lemma_fields_round_trip(m: DynamicRegistrationClientCapabilities, pre: Seq<(Seq<char>, JVal)>, post: Seq<(Seq<char>, JVal)>)
        requires
            Self::fields_valid(m),
            forall|k: Seq<char>| Self::uses_key(k) ==> (#[trigger] lookup(pre, k)) is None,
            forall|k: Seq<char>| Self::uses_key(k) ==> (#[trigger] lookup(post, k)) is None,
        ensures
            Self::fields_from(pre + Self::fields_json(m) + post) == Ok::<DynamicRegistrationClientCapabilities, DecodeError>(m),
    {
        broadcast use group_lookup;
        reveal(DynamicRegistrationClientCapabilities::fields_from);
        reveal_strlit("dynamicRegistration");
        assert("dynamicRegistration"@.len() == 19);
        if let Some(x) = m.dynamic_registration {
            bool::lemma_round_trip(x);
        }
    }

    /// Members with names that the type does not read change nothing.
    pub proof fn lemma_unknown_key(ms: Seq<(Seq<char>, JVal)>, k: Seq<char>, v: JVal)
        requires
            !Self::uses_key(k),
        ensures
            Self::fields_from(ms + member(k, v)) == Self::fields_from(ms),
    {
        broadcast use group_lookup;
        reveal(DynamicRegistrationClientCapabilities::fields_from);
    }

    /// The member names that the type reads.
    pub open spec fn uses_key(k: Seq<char>) -> bool {
        k == "dynamicRegistration"@
    }

    /// Appends the members of the value to an object under construction.
    pub fn write_fields(&self, ms: &mut Vec<(String, Json)>)
        ensures
            members(Json::Object(*final(ms))@) == members(Json::Object(*old(ms))@) + Self::fields_json(self.model()),
    {
        let ghost start = members(Json::Object(*ms)@);
        push_opt(ms, "dynamicRegistration", &self.dynamic_registration);
        assert(members(Json::Object(*ms)@) =~= start + Self::fields_json(self.model()));
    }

    /// Reads a value from the members of an object.
    pub fn read_fields(ms: &Vec<(String, Json)>) -> (r: Result<Self, DecodeError>)
        ensures
            match r {
                Ok(v) => Self::fields_from(members(Json::Object(*ms)@)) == Ok::<DynamicRegistrationClientCapabilities, DecodeError>(v.model()),
                Err(e) => Self::fields_from(members(Json::Object(*ms)@)) == Err::<DynamicRegistrationClientCapabilities, DecodeError>(e),
            },
    {
        proof {
            reveal(DynamicRegistrationClientCapabilities::fields_from);
        }
        let dynamic_registration = match read_opt::<bool>(ms, "dynamicRegistration") {
            Ok(v) => v,
            Err(e) => return Err(e),
        };
        Ok(DynamicRegistrationClientCapabilities { dynamic_registration })
    }
}

impl JsonCodec for DynamicRegistrationClientCapabilities {
    type Model = DynamicRegistrationClientCapabilities;

    open spec fn model(&self) -> DynamicRegistrationClientCapabilities {
        *self
    }

    open spec fn encode(m: DynamicRegistrationClientCapabilities) -> JVal {
        JVal::Obj(Self::fields_json(m))
    }

    open spec fn decode(j: JVal) -> Result<DynamicRegistrationClientCapabilities, DecodeError> {
        match j {
            JVal::Obj(ms) => Self::fields_from(ms),
            _ => Err(DecodeError::WrongShape),
        }
    }

    open spec fn valid(m: DynamicRegistrationClientCapabilities) -> bool {
        Self::fields_valid(m)
    }

    fn to_json(&self) -> (r: Json) {
        let mut ms = new_object();
        self.write_fields(&mut ms);
        Json::Object(ms)
    }

    fn from_json(j: &Json) -> (r: Result<Self, DecodeError>) {
        match j {
            Json::Object(ms) => Self::read_fields(ms),
            _ => Err(DecodeError::WrongShape),
        }
    }

    proof fn lemma_round_trip(m: DynamicRegistrationClientCapabilities) {
        Self::lemma_fields_round_trip(m, Seq::empty(), Seq::empty());
        assert(Seq::empty() + Self::fields_json(m) + Seq::empty() =~= Self::fields_json(m));
    }

}

/// Client capabilities of the go-to requests.
#[derive(Clone, Copy, Debug, Default, PartialEq, Eq, Structural)]
pub struct GotoCapability {
    pub dynamic_registration: Option<bool>,
    /// Whether the client supports links as results.
    pub link_support: Option<bool>,
}

impl GotoCapability {
    /// The members that a value contributes to the object it is written in.
    pub open spec fn fields_json(m: GotoCapability) -> Seq<(Seq<char>, JVal)> {
        opt_member::<bool>("dynamicRegistration"@, m.dynamic_registration)
            + opt_member::<bool>("linkSupport"@, m.link_support)
    }

    /// Reads a value from the members of an object; other members are ignored.
    #[verifier::opaque]
    pub open spec fn fields_from(ms: Seq<(Seq<char>, JVal)>) -> Result<GotoCapability, DecodeError> {
        match opt_field::<bool>(ms, "dynamicRegistration"@) {
            Err(e) => Err(e),
            Ok(dynamic_registration) => {
                match opt_field::<bool>(ms, "linkSupport"@) {
                    Err(e) => Err(e),
                    Ok(link_support) => {
                        Ok(GotoCapability { dynamic_registration, link_support })
                    },
                }
            },
        }
    }

    /// The models that values can have.
    pub open spec fn fields_valid(m: GotoCapability) -> bool {
        &&& opt_valid::<bool>(m.dynamic_registration)
        &&& opt_valid::<bool>(m.link_support)
    }

    /// The members of a value, written between members of other names, read back as the value.
    pub proof fn lemma_fields_round_trip(m: GotoCapability, pre: Seq<(Seq<char>, JVal)>, post: Seq<(Seq<char>, JVal)>)
        requires
            Self::fields_valid(m),
            forall|k: Seq<char>| Self::uses_key(k) ==> (#[trigger] lookup(pre, k)) is None,
            forall|k: Seq<char>| Self::uses_key(k) ==> (#[trigger] lookup(post, k)) is None,
        ensures
            Self::fields_from(pre + Self::fields_json(m) + post) == Ok::<GotoCapability, DecodeError>(m),
    {
        broadcast use group_lookup;
        reveal(GotoCapability::fields_from);
        reveal_strlit("dynamicRegistration");
        reveal_strlit("linkSupport");
        assert("dynamicRegistration"@.len() == 19);
        assert("linkSupport"@.len() == 11);
        if let Some(x) = m.dynamic_registration {
            bool::lemma_round_trip(x);
        }
        if let Some(x) = m.link_support {
            bool::lemma_round_trip(x);
        }
    }

    /// Members with names that the type does not read change nothing.
    pub proof fn lemma_unknown_key(ms: Seq<(Seq<char>, JVal)>, k: Seq<char>, v: JVal)
        requires
            !Self::uses_key(k),
        ensures
            Self::fields_from(ms + member(k, v)) == Self::fields_from(ms),
    {
        broadcast use group_lookup;
        reveal(GotoCapability::fields_from);
    }

    /// The member names that the type reads.
    pub open spec fn uses_key(k: Seq<char>) -> bool {
        k == "dynamicRegistration"@ || k == "linkSupport"@
    }

    /// Appends the members of the value to an object under construction.
    pub fn write_fields(&self, ms: &mut Vec<(String, Json)>)
        ensures
            members(Json::Object(*final(ms))@) == members(Json::Object(*old(ms))@) + Self::fields_json(self.model()),
    {
        let ghost start = members(Json::Object(*ms)@);
        let ghost m = self.model();
        push_opt(ms, "dynamicRegistration", &self.dynamic_registration);
        push_opt(ms, "linkSupport", &self.link_support);
        proof {
            lemma_concat_associative(start, opt_member::<bool>("dynamicRegistration"@, m.dynamic_registration), opt_member::<bool>("linkSupport"@, m.link_support));
        }
    }

    /// Reads a value from the members of an object.
    pub fn read_fields(ms: &Vec<(String, Json)>) -> (r: Result<Self, DecodeError>)
        ensures
            match r {
                Ok(v) => Self::fields_from(members(Json::Object(*ms)@)) == Ok::<GotoCapability, DecodeError>(v.model()),
                Err(e) => Self::fields_from(members(Json::Object(*ms)@)) == Err::<GotoCapability, DecodeError>(e),
            },
    {
        proof {
            reveal(GotoCapability::fields_from);
        }
        let dynamic_registration = match read_opt::<bool>(ms, "dynamicRegistration") {
            Ok(v) => v,
            Err(e) => return Err(e),
        };
        let link_support = match read_opt::<bool>(ms, "linkSupport") {
            Ok(v) => v,
            Err(e) => return Err(e),
        };
        Ok(GotoCapability { dynamic_registration, link_support })
    }
}

impl JsonCodec for GotoCapability {
    type Model = GotoCapability;

    open spec fn model(&self) -> GotoCapability {
        *self
    }

    open spec fn encode(m: GotoCapability) -> JVal {
        JVal::Obj(Self::fields_json(m))
    }

    open spec fn decode(j: JVal) -> Result<GotoCapability, DecodeError> {
        match j {
            JVal::Obj(ms) => Self::fields_from(ms),
            _ => Err(DecodeError::WrongShape),
        }
    }

    open spec fn valid(m: GotoCapability) -> bool {
        Self::fields_valid(m)
    }

    fn to_json(&self) -> (r: Json) {
        let mut ms = new_object();
        self.write_fields(&mut ms);
        Json::Object(ms)
    }

    fn from_json(j: &Json) -> (r: Result<Self, DecodeError>) {
        match j {
            Json::Object(ms) => Self::read_fields(ms),
            _ => Err(DecodeError::WrongShape),
        }
    }

    proof fn lemma_round_trip(m: GotoCapability) {
        Self::lemma_fields_round_trip(m, Seq::empty(), Seq::empty());
        assert(Seq::empty() + Self::fields_json(m) + Seq::empty() =~= Self::fields_json(m));
    }

}

/// Whether the client groups edits with equal labels into tree nodes.
#[derive(Clone, Copy, Debug, Default, PartialEq, Eq, Structural)]
pub struct ChangeAnnotationWorkspaceEditClientCapabilities {
    pub groups_on_label: Option<bool>,
}

impl ChangeAnnotationWorkspaceEditClientCapabilities {
    /// The members that a value contributes to the object it is written in.
    pub open spec fn fields_json(m: ChangeAnnotationWorkspaceEditClientCapabilities) -> Seq<(Seq<char>, JVal)> {
        opt_member::<bool>("groupsOnLabel"@, m.groups_on_label)
    }

    /// Reads a value from the members of an object; other members are ignored.
    #[verifier::opaque]
    pub open spec fn fields_from(ms: Seq<(Seq<char>, JVal)>) -> Result<ChangeAnnotationWorkspaceEditClientCapabilities, DecodeError> {
        match opt_field::<bool>(ms, "groupsOnLabel"@) {
            Err(e) => Err(e),
            Ok(groups_on_label) => {
                Ok(ChangeAnnotationWorkspaceEditClientCapabilities { groups_on_label })
            },
        }
    }

    /// The models that values can have.
    pub open spec fn fields_valid(m: ChangeAnnotationWorkspaceEditClientCapabilities) -> bool {
        &&& opt_valid::<bool>(m.groups_on_label)
    }

    /// The members of a value, written between members of other names, read back as the value.
    pub proof fn lemma_fields_round_trip(m: ChangeAnnotationWorkspaceEditClientCapabilities, pre: Seq<(Seq<char>, JVal)>, post: Seq<(Seq<char>, JVal)>)
        requires
            Self::fields_valid(m),
            forall|k: Seq<char>| Self::uses_key(k) ==> (#[trigger] lookup(pre, k)) is None,
            forall|k: Seq<char>| Self::uses_key(k) ==> (#[trigger] lookup(post, k)) is None,
        ensures
            Self::fields_from(pre + Self::fields_json(m) + post) == Ok::<ChangeAnnotationWorkspaceEditClientCapabilities, DecodeError>(m),
    {
        broadcast use group_lookup;
        reveal(ChangeAnnotationWorkspaceEditClientCapabilities::fields_from);
        reveal_strlit("groupsOnLabel");
        assert("groupsOnLabel"@.len() == 13);
        if let Some(x) = m.groups_on_label {
            bool::lemma_round_trip(x);
        }
    }

    /// Members with names that the type does not read change nothing.
    pub proof fn lemma_unknown_key(ms: Seq<(Seq<char>, JVal)>, k: Seq<char>, v: JVal)
        requires
            !Self::uses_key(k),
        ensures
            Self::fields_from(ms + member(k, v)) == Self::fields_from(ms),
    {
        broadcast use group_lookup;
        reveal(ChangeAnnotationWorkspaceEditClientCapabilities::fields_from);
    }

    /// The member names that the type reads.
    pub open spec fn uses_key(k: Seq<char>) -> bool {
        k == "groupsOnLabel"@
    }

    /// Appends the members of the value to an object under construction.
    pub fn write_fields(&self, ms: &mut Vec<(String, Json)>)
        ensures
            members(Json::Object(*final(ms))@) == members(Json::Object(*old(ms))@) + Self::fields_json(self.model()),
    {
        let ghost start = members(Json::Object(*ms)@);
        push_opt(ms, "groupsOnLabel", &self.groups_on_label);
        assert(members(Json::Object(*ms)@) =~= start + Self::fields_json(self.model()));
    }

    /// Reads a value from the members of an object.
    pub fn read_fields(ms: &Vec<(String, Json)>) -> (r: Result<Self, DecodeError>)
        ensures
            match r {
                Ok(v) => Self::fields_from(members(Json::Object(*ms)@)) == Ok::<ChangeAnnotationWorkspaceEditClientCapabilities, DecodeError>(v.model()),
                Err(e) => Self::fields_from(members(Json::Object(*ms)@)) == Err::<ChangeAnnotationWorkspaceEditClientCapabilities, DecodeError>(e),
            },
    {
        proof {
            reveal(ChangeAnnotationWorkspaceEditClientCapabilities::fields_from);
        }
        let groups_on_label = match read_opt::<bool>(ms, "groupsOnLabel") {
            Ok(v) => v,
            Err(e) => return Err(e),
        };
        Ok(ChangeAnnotationWorkspaceEditClientCapabilities { groups_on_label })
    }
}

impl JsonCodec for ChangeAnnotationWorkspaceEditClientCapabilities {
    type Model = ChangeAnnotationWorkspaceEditClientCapabilities;

    open spec fn model(&self) -> ChangeAnnotationWorkspaceEditClientCapabilities {
        *self
    }

    open spec fn encode(m: ChangeAnnotationWorkspaceEditClientCapabilities) -> JVal {
        JVal::Obj(Self::fields_json(m))
    }

    open spec fn decode(j: JVal) -> Result<ChangeAnnotationWorkspaceEditClientCapabilities, DecodeError> {
        match j {
            JVal::Obj(ms) => Self::fields_from(ms),
            _ => Err(DecodeError::WrongShape),
        }
    }

    open spec fn valid(m: ChangeAnnotationWorkspaceEditClientCapabilities) -> bool {
        Self::fields_valid(m)
    }

    fn to_json(&self) -> (r: Json) {
        let mut ms = new_object();
        self.write_fields(&mut ms);
        Json::Object(ms)
    }

    fn from_json(j: &Json) -> (r: Result<Self, DecodeError>) {
        match j {
            Json::Object(ms) => Self::read_fields(ms),
            _ => Err(DecodeError::WrongShape),
        }
    }

    proof fn lemma_round_trip(m: ChangeAnnotationWorkspaceEditClientCapabilities) {
        Self::lemma_fields_round_trip(m, Seq::empty(), Seq::empty());
        assert(Seq::empty() + Self::fields_json(m) + Seq::empty() =~= Self::fields_json(m));
    }

}

/// Client capabilities of workspace edits.
#[derive(Clone, Debug, Default, PartialEq, Eq)]
pub struct WorkspaceEditClientCapabilities {
    /// Whether the client supports versioned document changes.
    pub document_changes: Option<bool>,
    /// The resource operations the client supports.
    pub resource_operations: Option<Vec<ResourceOperationKind>>,
    /// How the client handles a failing workspace edit.
    pub failure_handling: Option<FailureHandlingKind>,
    pub normalizes_line_endings: Option<bool>,
    pub change_annotation_support: Option<ChangeAnnotationWorkspaceEditClientCapabilities>,
}

/// The mathematical value of a [`WorkspaceEditClientCapabilities`].
pub struct WorkspaceEditClientCapabilitiesModel {
    pub document_changes: Option<bool>,
    pub resource_operations: Option<Seq<ResourceOperationKind>>,
    pub failure_handling: Option<FailureHandlingKind>,
    pub normalizes_line_endings: Option<bool>,
    pub change_annotation_support: Option<ChangeAnnotationWorkspaceEditClientCapabilities>,
}

impl WorkspaceEditClientCapabilities {
    /// The members that a value contributes to the object it is written in.
    pub open spec fn fields_json(m: WorkspaceEditClientCapabilitiesModel) -> Seq<(Seq<char>, JVal)> {
        opt_member::<bool>("documentChanges"@, m.document_changes)
            + opt_member::<Vec<ResourceOperationKind>>("resourceOperations"@, m.resource_operations)
            + opt_member::<FailureHandlingKind>("failureHandling"@, m.failure_handling)
            + opt_member::<bool>("normalizesLineEndings"@, m.normalizes_line_endings)
            + opt_member::<ChangeAnnotationWorkspaceEditClientCapabilities>("changeAnnotationSupport"@, m.change_annotation_support)
    }

    /// Reads a value from the members of an object; other members are ignored.
    #[verifier::opaque]
    pub open spec fn fields_from(ms: Seq<(Seq<char>, JVal)>) -> Result<WorkspaceEditClientCapabilitiesModel, DecodeError> {
        match opt_field::<bool>(ms, "documentChanges"@) {
            Err(e) => Err(e),
            Ok(document_changes) => {
                match opt_field::<Vec<ResourceOperationKind>>(ms, "resourceOperations"@) {
                    Err(e) => Err(e),
                    Ok(resource_operations) => {
                        match opt_field::<FailureHandlingKind>(ms, "failureHandling"@) {
                            Err(e) => Err(e),
                            Ok(failure_handling) => {
                                match opt_field::<bool>(ms, "normalizesLineEndings"@) {
                                    Err(e) => Err(e),
                                    Ok(normalizes_line_endings) => {
                                        match opt_field::<ChangeAnnotationWorkspaceEditClientCapabilities>(ms, "changeAnnotationSupport"@) {
                                            Err(e) => Err(e),
                                            Ok(change_annotation_support) => {
                                                Ok(WorkspaceEditClientCapabilitiesModel { document_changes, resource_operations, failure_handling, normalizes_line_endings, change_annotation_support })
                                            },
                                        }
                                    },
                                }
                            },
                        }
                    },
                }
            },
        }
    }

    /// The models that values can have.
    pub open spec fn fields_valid(m: WorkspaceEditClientCapabilitiesModel) -> bool {
        &&& opt_valid::<bool>(m.document_changes)
        &&& opt_valid::<Vec<ResourceOperationKind>>(m.resource_operations)
        &&& opt_valid::<FailureHandlingKind>(m.failure_handling)
        &&& opt_valid::<bool>(m.normalizes_line_endings)
        &&& opt_valid::<ChangeAnnotationWorkspaceEditClientCapabilities>(m.change_annotation_support)
    }

    /// The members of a value, written between members of other names, read back as the value.
    pub proof fn lemma_fields_round_trip(m: WorkspaceEditClientCapabilitiesModel, pre: Seq<(Seq<char>, JVal)>, post: Seq<(Seq<char>, JVal)>)
        requires
            Self::fields_valid(m),
            forall|k: Seq<char>| Self::uses_key(k) ==> (#[trigger] lookup(pre, k)) is None,
            forall|k: Seq<char>| Self::uses_key(k) ==> (#[trigger] lookup(post, k)) is None,
        ensures
            Self::fields_from(pre + Self::fields_json(m) + post) == Ok::<WorkspaceEditClientCapabilitiesModel, DecodeError>(m),
    {
        broadcast use group_lookup;
        reveal(WorkspaceEditClientCapabilities::fields_from);
        reveal_strlit("documentChanges");
        reveal_strlit("resourceOperations");
        reveal_strlit("failureHandling");
        reveal_strlit("normalizesLineEndings");
        reveal_strlit("changeAnnotationSupport");
        assert("documentChanges"@.len() == 15);
        assert("resourceOperations"@.len() == 18);
        assert("failureHandling"@.len() == 15);
        assert("normalizesLineEndings"@.len() == 21);
        assert("changeAnnotationSupport"@.len() == 23);
        assert("documentChanges"@[0] != "failureHandling"@[0]);
        if let Some(x) = m.document_changes {
            bool::lemma_round_trip(x);
        }
        if let Some(x) = m.resource_operations {
            <Vec<ResourceOperationKind>>::lemma_round_trip(x);
        }
        if let Some(x) = m.failure_handling {
            FailureHandlingKind::lemma_round_trip(x);
        }
        if let Some(x) = m.normalizes_line_endings {
            bool::lemma_round_trip(x);
        }
        if let Some(x) = m.change_annotation_support {
            ChangeAnnotationWorkspaceEditClientCapabilities::lemma_round_trip(x);
        }
    }

    /// Members with names that the type does not read change nothing.
    pub proof fn lemma_unknown_key(ms: Seq<(Seq<char>, JVal)>, k: Seq<char>, v: JVal)
        requires
            !Self::uses_key(k),
        ensures
            Self::fields_from(ms + member(k, v)) == Self::fields_from(ms),
    {
        broadcast use group_lookup;
        reveal(WorkspaceEditClientCapabilities::fields_from);
    }

    /// The member names that the type reads.
    pub open spec fn uses_key(k: Seq<char>) -> bool {
        k == "documentChanges"@ || k == "resourceOperations"@ || k == "failureHandling"@ || k == "normalizesLineEndings"@ || k == "changeAnnotationSupport"@
    }

    /// Appends the members of the value to an object under construction.
    pub fn write_fields(&self, ms: &mut Vec<(String, Json)>)
        ensures
            members(Json::Object(*final(ms))@) == members(Json::Object(*old(ms))@) + Self::fields_json(self.model()),
    {
        let ghost start = members(Json::Object(*ms)@);
        let ghost m = self.model();
        push_opt(ms, "documentChanges", &self.document_changes);
        push_opt(ms, "resourceOperations", &self.resource_operations);
        proof {
            lemma_concat_associative(start, opt_member::<bool>("documentChanges"@, m.document_changes), opt_member::<Vec<ResourceOperationKind>>("resourceOperations"@, m.resource_operations));
        }
        push_opt(ms, "failureHandling", &self.failure_handling);
        proof {
            lemma_concat_associative(start, opt_member::<bool>("documentChanges"@, m.document_changes) + opt_member::<Vec<ResourceOperationKind>>("resourceOperations"@, m.resource_operations), opt_member::<FailureHandlingKind>("failureHandling"@, m.failure_handling));
        }
        push_opt(ms, "normalizesLineEndings", &self.normalizes_line_endings);
        proof {
            lemma_concat_associative(start, opt_member::<bool>("documentChanges"@, m.document_changes) + opt_member::<Vec<ResourceOperationKind>>("resourceOperations"@, m.resource_operations) + opt_member::<FailureHandlingKind>("failureHandling"@, m.failure_handling), opt_member::<bool>("normalizesLineEndings"@, m.normalizes_line_endings));
        }
        push_opt(ms, "changeAnnotationSupport", &self.change_annotation_support);
        proof {
            lemma_concat_associative(start, opt_member::<bool>("documentChanges"@, m.document_changes) + opt_member::<Vec<ResourceOperationKind>>("resourceOperations"@, m.resource_operations) + opt_member::<FailureHandlingKind>("failureHandling"@, m.failure_handling) + opt_member::<bool>("normalizesLineEndings"@, m.normalizes_line_endings), opt_member::<ChangeAnnotationWorkspaceEditClientCapabilities>("changeAnnotationSupport"@, m.change_annotation_support));
        }
    }

    /// Reads a value from the members of an object.
    pub fn read_fields(ms: &Vec<(String, Json)>) -> (r: Result<Self, DecodeError>)
        ensures
            match r {
                Ok(v) => Self::fields_from(members(Json::Object(*ms)@)) == Ok::<WorkspaceEditClientCapabilitiesModel, DecodeError>(v.model()),
                Err(e) => Self::fields_from(members(Json::Object(*ms)@)) == Err::<WorkspaceEditClientCapabilitiesModel, DecodeError>(e),
            },
    {
        proof {
            reveal(WorkspaceEditClientCapabilities::fields_from);
        }
        let document_changes = match read_opt::<bool>(ms, "documentChanges") {
            Ok(v) => v,
            Err(e) => return Err(e),
        };
        let resource_operations = match read_opt::<Vec<ResourceOperationKind>>(ms, "resourceOperations") {
            Ok(v) => v,
            Err(e) => return Err(e),
        };
        let failure_handling = match read_opt::<FailureHandlingKind>(ms, "failureHandling") {
            Ok(v) => v,
            Err(e) => return Err(e),
        };
        let normalizes_line_endings = match read_opt::<bool>(ms, "normalizesLineEndings") {
            Ok(v) => v,
            Err(e) => return Err(e),
        };
        let change_annotation_support = match read_opt::<ChangeAnnotationWorkspaceEditClientCapabilities>(ms, "changeAnnotationSupport") {
            Ok(v) => v,
            Err(e) => return Err(e),
        };
        Ok(WorkspaceEditClientCapabilities { document_changes, resource_operations, failure_handling, normalizes_line_endings, change_annotation_support })
    }
}

impl JsonCodec for WorkspaceEditClientCapabilities {
    type Model = WorkspaceEditClientCapabilitiesModel;

    open spec fn model(&self) -> WorkspaceEditClientCapabilitiesModel {
        WorkspaceEditClientCapabilitiesModel {
            document_changes: self.document_changes.model(),
            resource_operations: self.resource_operations.model(),
            failure_handling: self.failure_handling.model(),
            normalizes_line_endings: self.normalizes_line_endings.model(),
            change_annotation_support: self.change_annotation_support.model(),
        }
    }

    open spec fn encode(m: WorkspaceEditClientCapabilitiesModel) -> JVal {
        JVal::Obj(Self::fields_json(m))
    }

    open spec fn decode(j: JVal) -> Result<WorkspaceEditClientCapabilitiesModel, DecodeError> {
        match j {
            JVal::Obj(ms) => Self::fields_from(ms),
            _ => Err(DecodeError::WrongShape),
        }
    }

    open spec fn valid(m: WorkspaceEditClientCapabilitiesModel) -> bool {
        Self::fields_valid(m)
    }

    fn to_json(&self) -> (r: Json) {
        let mut ms = new_object();
        self.write_fields(&mut ms);
        Json::Object(ms)
    }

    fn from_json(j: &Json) -> (r: Result<Self, DecodeError>) {
        match j {
            Json::Object(ms) => Self::read_fields(ms),
            _ => Err(DecodeError::WrongShape),
        }
    }

    proof fn lemma_round_trip(m: WorkspaceEditClientCapabilitiesModel) {
        Self::lemma_fields_round_trip(m, Seq::empty(), Seq::empty());
        assert(Seq::empty() + Self::fields_json(m) + Seq::empty() =~= Self::fields_json(m));
    }

}

/// The symbol kinds that a client supports.
#[derive(Clone, Debug, Default, PartialEq, Eq)]
pub struct SymbolKindCapability {
    /// The symbol kind values the client supports, written as `null` when absent.
    pub value_set: Option<Vec<SymbolKind>>,
}

/// The mathematical value of a [`SymbolKindCapability`].
pub struct SymbolKindCapabilityModel {
    pub value_set: Option<Seq<SymbolKind>>,
}

impl SymbolKindCapability {
    /// The members that a value contributes to the object it is written in.
    pub open spec fn fields_json(m: SymbolKindCapabilityModel) -> Seq<(Seq<char>, JVal)> {
        member("valueSet"@, <Option<Vec<SymbolKind>>>::encode(m.value_set))
    }

    /// Reads a value from the members of an object; other members are ignored.
    #[verifier::opaque]
    pub open spec fn fields_from(ms: Seq<(Seq<char>, JVal)>) -> Result<SymbolKindCapabilityModel, DecodeError> {
        match nullable_field::<Vec<SymbolKind>>(ms, "valueSet"@) {
            Err(e) => Err(e),
            Ok(value_set) => {
                Ok(SymbolKindCapabilityModel { value_set })
            },
        }
    }

    /// The models that values can have.
    pub open spec fn fields_valid(m: SymbolKindCapabilityModel) -> bool {
        &&& <Option<Vec<SymbolKind>>>::valid(m.value_set)
    }

    /// The members of a value, written between members of other names, read back as the value.
    pub proof fn lemma_fields_round_trip(m: SymbolKindCapabilityModel, pre: Seq<(Seq<char>, JVal)>, post: Seq<(Seq<char>, JVal)>)
        requires
            Self::fields_valid(m),
            forall|k: Seq<char>| Self::uses_key(k) ==> (#[trigger] lookup(pre, k)) is None,
            forall|k: Seq<char>| Self::uses_key(k) ==> (#[trigger] lookup(post, k)) is None,
        ensures
            Self::fields_from(pre + Self::fields_json(m) + post) == Ok::<SymbolKindCapabilityModel, DecodeError>(m),
    {
        broadcast use group_lookup;
        reveal(SymbolKindCapability::fields_from);
        reveal_strlit("valueSet");
        assert("valueSet"@.len() == 8);
        <Option<Vec<SymbolKind>>>::lemma_round_trip(m.value_set);
    }

    /// Members with names that the type does not read change nothing.
    pub proof fn lemma_unknown_key(ms: Seq<(Seq<char>, JVal)>, k: Seq<char>, v: JVal)
        requires
            !Self::uses_key(k),
        ensures
            Self::fields_from(ms + member(k, v)) == Self::fields_from(ms),
    {
        broadcast use group_lookup;
        reveal(SymbolKindCapability::fields_from);
    }

    /// The member names that the type reads.
    pub open spec fn uses_key(k: Seq<char>) -> bool {
        k == "valueSet"@
    }

    /// Appends the members of the value to an object under construction.
    pub fn write_fields(&self, ms: &mut Vec<(String, Json)>)
        ensures
            members(Json::Object(*final(ms))@) == members(Json::Object(*old(ms))@) + Self::fields_json(self.model()),
    {
        let ghost start = members(Json::Object(*ms)@);
        push_member(ms, "valueSet", self.value_set.to_json());
        assert(members(Json::Object(*ms)@) =~= start + Self::fields_json(self.model()));
    }

    /// Reads a value from the members of an object.
    pub fn read_fields(ms: &Vec<(String, Json)>) -> (r: Result<Self, DecodeError>)
        ensures
            match r {
                Ok(v) => Self::fields_from(members(Json::Object(*ms)@)) == Ok::<SymbolKindCapabilityModel, DecodeError>(v.model()),
                Err(e) => Self::fields_from(members(Json::Object(*ms)@)) == Err::<SymbolKindCapabilityModel, DecodeError>(e),
            },
    {
        proof {
            reveal(SymbolKindCapability::fields_from);
        }
        let value_set = match read_nullable::<Vec<SymbolKind>>(ms, "valueSet") {
            Ok(v) => v,
            Err(e) => return Err(e),
        };
        Ok(SymbolKindCapability { value_set })
    }
}

impl JsonCodec for SymbolKindCapability {
    type Model = SymbolKindCapabilityModel;

    open spec fn model(&self) -> SymbolKindCapabilityModel {
        SymbolKindCapabilityModel {
            value_set: self.value_set.model(),
        }
    }

    open spec fn encode(m: SymbolKindCapabilityModel) -> JVal {
        JVal::Obj(Self::fields_json(m))
    }

    open spec fn decode(j: JVal) -> Result<SymbolKindCapabilityModel, DecodeError> {
        match j {
            JVal::Obj(ms) => Self::fields_from(ms),
            _ => Err(DecodeError::WrongShape),
        }
    }

    open spec fn valid(m: SymbolKindCapabilityModel) -> bool {
        Self::fields_valid(m)
    }

    fn to_json(&self) -> (r: Json) {
        let mut ms = new_object();
        self.write_fields(&mut ms);
        Json::Object(ms)
    }

    fn from_json(j: &Json) -> (r: Result<Self, DecodeError>) {
        match j {
            Json::Object(ms) => Self::read_fields(ms),
            _ => Err(DecodeError::WrongShape),
        }
    }

    proof fn lemma_round_trip(m: SymbolKindCapabilityModel) {
        Self::lemma_fields_round_trip(m, Seq::empty(), Seq::empty());
        assert(Seq::empty() + Self::fields_json(m) + Seq::empty() =~= Self::fields_json(m));
    }

}

/// Client capabilities of the watched-files notification.
#[derive(Clone, Copy, Debug, Default, PartialEq, Eq, Structural)]
pub struct DidChangeWatchedFilesClientCapabilities {
    pub dynamic_registration: Option<bool>,
    pub relative_pattern_support: Option<bool>,
}

impl DidChangeWatchedFilesClientCapabilities {
    /// The members that a value contributes to the object it is written in.
    pub open spec fn fields_json(m: DidChangeWatchedFilesClientCapabilities) -> Seq<(Seq<char>, JVal)> {
        opt_member::<bool>("dynamicRegistration"@, m.dynamic_registration)
            + opt_member::<bool>("relativePatternSupport"@, m.relative_pattern_support)
    }

    /// Reads a value from the members of an object; other members are ignored.
    #[verifier::opaque]
    pub open spec fn fields_from(ms: Seq<(Seq<char>, JVal)>) -> Result<DidChangeWatchedFilesClientCapabilities, DecodeError> {
        match opt_field::<bool>(ms, "dynamicRegistration"@) {
            Err(e) => Err(e),
            Ok(dynamic_registration) => {
                match opt_field::<bool>(ms, "relativePatternSupport"@) {
                    Err(e) => Err(e),
                    Ok(relative_pattern_support) => {
                        Ok(DidChangeWatchedFilesClientCapabilities { dynamic_registration, relative_pattern_support })
                    },
                }
            },
        }
    }

    /// The models that values can have.
    pub open spec fn fields_valid(m: DidChangeWatchedFilesClientCapabilities) -> bool {
        &&& opt_valid::<bool>(m.dynamic_registration)
        &&& opt_valid::<bool>(m.relative_pattern_support)
    }

    /// The members of a value, written between members of other names, read back as the value.
    pub proof fn lemma_fields_round_trip(m: DidChangeWatchedFilesClientCapabilities, pre: Seq<(Seq<char>, JVal)>, post: Seq<(Seq<char>, JVal)>)
        requires
            Self::fields_valid(m),
            forall|k: Seq<char>| Self::uses_key(k) ==> (#[trigger] lookup(pre, k)) is None,
            forall|k: Seq<char>| Self::uses_key(k) ==> (#[trigger] lookup(post, k)) is None,
        ensures
            Self::fields_from(pre + Self::fields_json(m) + post) == Ok::<DidChangeWatchedFilesClientCapabilities, DecodeError>(m),
    {
        broadcast use group_lookup;
        reveal(DidChangeWatchedFilesClientCapabilities::fields_from);
        reveal_strlit("dynamicRegistration");
        reveal_strlit("relativePatternSupport");
        assert("dynamicRegistration"@.len() == 19);
        assert("relativePatternSupport"@.len() == 22);
        if let Some(x) = m.dynamic_registration {
            bool::lemma_round_trip(x);
        }
        if let Some(x) = m.relative_pattern_support {
            bool::lemma_round_trip(x);
        }
    }

    /// Members with names that the type does not read change nothing.
    pub proof fn lemma_unknown_key(ms: Seq<(Seq<char>, JVal)>, k: Seq<char>, v: JVal)
        requires
            !Self::uses_key(k),
        ensures
            Self::fields_from(ms + member(k, v)) == Self::fields_from(ms),
    {
        broadcast use group_lookup;
        reveal(DidChangeWatchedFilesClientCapabilities::fields_from);
    }

    /// The member names that the type reads.
    pub open spec fn uses_key(k: Seq<char>) -> bool {
        k == "dynamicRegistration"@ || k == "relativePatternSupport"@
    }

    /// Appends the members of the value to an object under construction.
    pub fn write_fields(&self, ms: &mut Vec<(String, Json)>)
        ensures
            members(Json::Object(*final(ms))@) == members(Json::Object(*old(ms))@) + Self::fields_json(self.model()),
    {
        let ghost start = members(Json::Object(*ms)@);
        let ghost m = self.model();
        push_opt(ms, "dynamicRegistration", &self.dynamic_registration);
        push_opt(ms, "relativePatternSupport", &self.relative_pattern_support);
        proof {
            lemma_concat_associative(start, opt_member::<bool>("dynamicRegistration"@, m.dynamic_registration), opt_member::<bool>("relativePatternSupport"@, m.relative_pattern_support));
        }
    }

    /// Reads a value from the members of an object.
    pub fn read_fields(ms: &Vec<(String, Json)>) -> (r: Result<Self, DecodeError>)
        ensures
            match r {
                Ok(v) => Self::fields_from(members(Json::Object(*ms)@)) == Ok::<DidChangeWatchedFilesClientCapabilities, DecodeError>(v.model()),
                Err(e) => Self::fields_from(members(Json::Object(*ms)@)) == Err::<DidChangeWatchedFilesClientCapabilities, DecodeError>(e),
            },
    {
        proof {
            reveal(DidChangeWatchedFilesClientCapabilities::fields_from);
        }
        let dynamic_registration = match read_opt::<bool>(ms, "dynamicRegistration") {
            Ok(v) => v,
            Err(e) => return Err(e),
        };
        let relative_pattern_support = match read_opt::<bool>(ms, "relativePatternSupport") {
            Ok(v) => v,
            Err(e) => return Err(e),
        };
        Ok(DidChangeWatchedFilesClientCapabilities { dynamic_registration, relative_pattern_support })
    }
}

impl JsonCodec for DidChangeWatchedFilesClientCapabilities {
    type Model = DidChangeWatchedFilesClientCapabilities;

    open spec fn model(&self) -> DidChangeWatchedFilesClientCapabilities {
        *self
    }

    open spec fn encode(m: DidChangeWatchedFilesClientCapabilities) -> JVal {
        JVal::Obj(Self::fields_json(m))
    }

    open spec fn decode(j: JVal) -> Result<DidChangeWatchedFilesClientCapabilities, DecodeError> {
        match j {
            JVal::Obj(ms) => Self::fields_from(ms),
            _ => Err(DecodeError::WrongShape),
        }
    }

    open spec fn valid(m: DidChangeWatchedFilesClientCapabilities) -> bool {
        Self::fields_valid(m)
    }

    fn to_json(&self) -> (r: Json) {
        let mut ms = new_object();
        self.write_fields(&mut ms);
        Json::Object(ms)
    }

    fn from_json(j: &Json) -> (r: Result<Self, DecodeError>) {
        match j {
            Json::Object(ms) => Self::read_fields(ms),
            _ => Err(DecodeError::WrongShape),
        }
    }

    proof fn lemma_round_trip(m: DidChangeWatchedFilesClientCapabilities) {
        Self::lemma_fields_round_trip(m, Seq::empty(), Seq::empty());
        assert(Seq::empty() + Self::fields_json(m) + Seq::empty() =~= Self::fields_json(m));
    }

}

/// Workspace-specific client capabilities.
#[derive(Clone, Debug, Default, PartialEq, Eq)]
pub struct WorkspaceClientCapabilities {
    pub apply_edit: Option<bool>,
    pub workspace_edit: Option<WorkspaceEditClientCapabilities>,
    pub did_change_configuration: Option<DynamicRegistrationClientCapabilities>,
    pub did_change_watched_files: Option<DidChangeWatchedFilesClientCapabilities>,
    pub execute_command: Option<DynamicRegistrationClientCapabilities>,
    pub workspace_folders: Option<bool>,
    pub configuration: Option<bool>,
}

/// The mathematical value of a [`WorkspaceClientCapabilities`].
pub struct WorkspaceClientCapabilitiesModel {
    pub apply_edit: Option<bool>,
    pub workspace_edit: Option<WorkspaceEditClientCapabilitiesModel>,
    pub did_change_configuration: Option<DynamicRegistrationClientCapabilities>,
    pub did_change_watched_files: Option<DidChangeWatchedFilesClientCapabilities>,
    pub execute_command: Option<DynamicRegistrationClientCapabilities>,
    pub workspace_folders: Option<bool>,
    pub configuration: Option<bool>,
}

impl WorkspaceClientCapabilities {
    /// The members that a value contributes to the object it is written in.
    pub open spec fn fields_json(m: WorkspaceClientCapabilitiesModel) -> Seq<(Seq<char>, JVal)> {
        opt_member::<bool>("applyEdit"@, m.apply_edit)
            + opt_member::<WorkspaceEditClientCapabilities>("workspaceEdit"@, m.workspace_edit)
            + opt_member::<DynamicRegistrationClientCapabilities>("didChangeConfiguration"@, m.did_change_configuration)
            + opt_member::<DidChangeWatchedFilesClientCapabilities>("didChangeWatchedFiles"@, m.did_change_watched_files)
            + opt_member::<DynamicRegistrationClientCapabilities>("executeCommand"@, m.execute_command)
            + opt_member::<bool>("workspaceFolders"@, m.workspace_folders)
            + opt_member::<bool>("configuration"@, m.configuration)
    }

    /// Reads a value from the members of an object; other members are ignored.
    #[verifier::opaque]
    pub open spec fn fields_from(ms: Seq<(Seq<char>, JVal)>) -> Result<WorkspaceClientCapabilitiesModel, DecodeError> {
        match opt_field::<bool>(ms, "applyEdit"@) {
            Err(e) => Err(e),
            Ok(apply_edit) => {
                match opt_field::<WorkspaceEditClientCapabilities>(ms, "workspaceEdit"@) {
                    Err(e) => Err(e),
                    Ok(workspace_edit) => {
                        match opt_field::<DynamicRegistrationClientCapabilities>(ms, "didChangeConfiguration"@) {
                            Err(e) => Err(e),
                            Ok(did_change_configuration) => {
                                match opt_field::<DidChangeWatchedFilesClientCapabilities>(ms, "didChangeWatchedFiles"@) {
                                    Err(e) => Err(e),
                                    Ok(did_change_watched_files) => {
                                        match opt_field::<DynamicRegistrationClientCapabilities>(ms, "executeCommand"@) {
                                            Err(e) => Err(e),
                                            Ok(execute_command) => {
                                                match opt_field::<bool>(ms, "workspaceFolders"@) {
                                                    Err(e) => Err(e),
                                                    Ok(workspace_folders) => {
                                                        match opt_field::<bool>(ms, "configuration"@) {
                                                            Err(e) => Err(e),
                                                            Ok(configuration) => {
                                                                Ok(WorkspaceClientCapabilitiesModel { apply_edit, workspace_edit, did_change_configuration, did_change_watched_files, execute_command, workspace_folders, configuration })
                                                            },
                                                        }
                                                    },
                                                }
                                            },
                                        }
                                    },
                                }
                            },
                        }
                    },
                }
            },
        }
    }

    /// The models that values can have.
    pub open spec fn fields_valid(m: WorkspaceClientCapabilitiesModel) -> bool {
        &&& opt_valid::<bool>(m.apply_edit)
        &&& opt_valid::<WorkspaceEditClientCapabilities>(m.workspace_edit)
        &&& opt_valid::<DynamicRegistrationClientCapabilities>(m.did_change_configuration)
        &&& opt_valid::<DidChangeWatchedFilesClientCapabilities>(m.did_change_watched_files)
        &&& opt_valid::<DynamicRegistrationClientCapabilities>(m.execute_command)
        &&& opt_valid::<bool>(m.workspace_folders)
        &&& opt_valid::<bool>(m.configuration)
    }

    /// The members of a value, written between members of other names, read back as the value.
    pub proof fn lemma_fields_round_trip(m: WorkspaceClientCapabilitiesModel, pre: Seq<(Seq<char>, JVal)>, post: Seq<(Seq<char>, JVal)>)
        requires
            Self::fields_valid(m),
            forall|k: Seq<char>| Self::uses_key(k) ==> (#[trigger] lookup(pre, k)) is None,
            forall|k: Seq<char>| Self::uses_key(k) ==> (#[trigger] lookup(post, k)) is None,
        ensures
            Self::fields_from(pre + Self::fields_json(m) + post) == Ok::<WorkspaceClientCapabilitiesModel, DecodeError>(m),
    {
        broadcast use group_lookup;
        reveal(WorkspaceClientCapabilities::fields_from);
        reveal_strlit("applyEdit");
        reveal_strlit("workspaceEdit");
        reveal_strlit("didChangeConfiguration");
        reveal_strlit("didChangeWatchedFiles");
        reveal_strlit("executeCommand");
        reveal_strlit("workspaceFolders");
        reveal_strlit("configuration");
        assert("applyEdit"@.len() == 9);
        assert("workspaceEdit"@.len() == 13);
        assert("didChangeConfiguration"@.len() == 22);
        assert("didChangeWatchedFiles"@.len() == 21);
        assert("executeCommand"@.len() == 14);
        assert("workspaceFolders"@.len() == 16);
        assert("configuration"@.len() == 13);
        assert("workspaceEdit"@[0] != "configuration"@[0]);
        if let Some(x) = m.apply_edit {
            bool::lemma_round_trip(x);
        }
        if let Some(x) = m.workspace_edit {
            WorkspaceEditClientCapabilities::lemma_round_trip(x);
        }
        if let Some(x) = m.did_change_configuration {
            DynamicRegistrationClientCapabilities::lemma_round_trip(x);
        }
        if let Some(x) = m.did_change_watched_files {
            DidChangeWatchedFilesClientCapabilities::lemma_round_trip(x);
        }
        if let Some(x) = m.execute_command {
            DynamicRegistrationClientCapabilities::lemma_round_trip(x);
        }
        if let Some(x) = m.workspace_folders {
            bool::lemma_round_trip(x);
        }
        if let Some(x) = m.configuration {
            bool::lemma_round_trip(x);
        }
    }

    /// Members with names that the type does not read change nothing.
    pub proof fn lemma_unknown_key(ms: Seq<(Seq<char>, JVal)>, k: Seq<char>, v: JVal)
        requires
            !Self::uses_key(k),
        ensures
            Self::fields_from(ms + member(k, v)) == Self::fields_from(ms),
    {
        broadcast use group_lookup;
        reveal(WorkspaceClientCapabilities::fields_from);
    }

    /// The member names that the type reads.
    pub open spec fn uses_key(k: Seq<char>) -> bool {
        k == "applyEdit"@ || k == "workspaceEdit"@ || k == "didChangeConfiguration"@ || k == "didChangeWatchedFiles"@ || k == "executeCommand"@ || k == "workspaceFolders"@ || k == "configuration"@
    }

    /// Appends the members of the value to an object under construction.
    pub fn write_fields(&self, ms: &mut Vec<(String, Json)>)
        ensures
            members(Json::Object(*final(ms))@) == members(Json::Object(*old(ms))@) + Self::fields_json(self.model()),
    {
        let ghost start = members(Json::Object(*ms)@);
        let ghost m = self.model();
        push_opt(ms, "applyEdit", &self.apply_edit);
        push_opt(ms, "workspaceEdit", &self.workspace_edit);
        proof {
            lemma_concat_associative(start, opt_member::<bool>("applyEdit"@, m.apply_edit), opt_member::<WorkspaceEditClientCapabilities>("workspaceEdit"@, m.workspace_edit));
        }
        push_opt(ms, "didChangeConfiguration", &self.did_change_configuration);
        proof {
            lemma_concat_associative(start, opt_member::<bool>("applyEdit"@, m.apply_edit) + opt_member::<WorkspaceEditClientCapabilities>("workspaceEdit"@, m.workspace_edit), opt_member::<DynamicRegistrationClientCapabilities>("didChangeConfiguration"@, m.did_change_configuration));
        }
        push_opt(ms, "didChangeWatchedFiles", &self.did_change_watched_files);
        proof {
            lemma_concat_associative(start, opt_member::<bool>("applyEdit"@, m.apply_edit) + opt_member::<WorkspaceEditClientCapabilities>("workspaceEdit"@, m.workspace_edit) + opt_member::<DynamicRegistrationClientCapabilities>("didChangeConfiguration"@, m.did_change_configuration), opt_member::<DidChangeWatchedFilesClientCapabilities>("didChangeWatchedFiles"@, m.did_change_watched_files));
        }
        push_opt(ms, "executeCommand", &self.execute_command);
        proof {
            lemma_concat_associative(start, opt_member::<bool>("applyEdit"@, m.apply_edit) + opt_member::<WorkspaceEditClientCapabilities>("workspaceEdit"@, m.workspace_edit) + opt_member::<DynamicRegistrationClientCapabilities>("didChangeConfiguration"@, m.did_change_configuration) + opt_member::<DidChangeWatchedFilesClientCapabilities>("didChangeWatchedFiles"@, m.did_change_watched_files), opt_member::<DynamicRegistrationClientCapabilities>("executeCommand"@, m.execute_command));
        }
        push_opt(ms, "workspaceFolders", &self.workspace_folders);
        proof {
            lemma_concat_associative(start, opt_member::<bool>("applyEdit"@, m.apply_edit) + opt_member::<WorkspaceEditClientCapabilities>("workspaceEdit"@, m.workspace_edit) + opt_member::<DynamicRegistrationClientCapabilities>("didChangeConfiguration"@, m.did_change_configuration) + opt_member::<DidChangeWatchedFilesClientCapabilities>("didChangeWatchedFiles"@, m.did_change_watched_files) + opt_member::<DynamicRegistrationClientCapabilities>("executeCommand"@, m.execute_command), opt_member::<bool>("workspaceFolders"@, m.workspace_folders));
        }
        push_opt(ms, "configuration", &self.configuration);
        proof {
            lemma_concat_associative(start, opt_member::<bool>("applyEdit"@, m.apply_edit) + opt_member::<WorkspaceEditClientCapabilities>("workspaceEdit"@, m.workspace_edit) + opt_member::<DynamicRegistrationClientCapabilities>("didChangeConfiguration"@, m.did_change_configuration) + opt_member::<DidChangeWatchedFilesClientCapabilities>("didChangeWatchedFiles"@, m.did_change_watched_files) + opt_member::<DynamicRegistrationClientCapabilities>("executeCommand"@, m.execute_command) + opt_member::<bool>("workspaceFolders"@, m.workspace_folders), opt_member::<bool>("configuration"@, m.configuration));
        }
    }

    /// Reads a value from the members of an object.
    pub fn read_fields(ms: &Vec<(String, Json)>) -> (r: Result<Self, DecodeError>)
        ensures
            match r {
                Ok(v) => Self::fields_from(members(Json::Object(*ms)@)) == Ok::<WorkspaceClientCapabilitiesModel, DecodeError>(v.model()),
                Err(e) => Self::fields_from(members(Json::Object(*ms)@)) == Err::<WorkspaceClientCapabilitiesModel, DecodeError>(e),
            },
    {
        proof {
            reveal(WorkspaceClientCapabilities::fields_from);
        }
        let apply_edit = match read_opt::<bool>(ms, "applyEdit") {
            Ok(v) => v,
            Err(e) => return Err(e),
        };
        let workspace_edit = match read_opt::<WorkspaceEditClientCapabilities>(ms, "workspaceEdit") {
            Ok(v) => v,
            Err(e) => return Err(e),
        };
        let did_change_configuration = match read_opt::<DynamicRegistrationClientCapabilities>(ms, "didChangeConfiguration") {
            Ok(v) => v,
            Err(e) => return Err(e),
        };
        let did_change_watched_files = match read_opt::<DidChangeWatchedFilesClientCapabilities>(ms, "didChangeWatchedFiles") {
            Ok(v) => v,
            Err(e) => return Err(e),
        };
        let execute_command = match read_opt::<DynamicRegistrationClientCapabilities>(ms, "executeCommand") {
            Ok(v) => v,
            Err(e) => return Err(e),
        };
        let workspace_folders = match read_opt::<bool>(ms, "workspaceFolders") {
            Ok(v) => v,
            Err(e) => return Err(e),
        };
        let configuration = match read_opt::<bool>(ms, "configuration") {
            Ok(v) => v,
            Err(e) => return Err(e),
        };
        Ok(WorkspaceClientCapabilities { apply_edit, workspace_edit, did_change_configuration, did_change_watched_files, execute_command, workspace_folders, configuration })
    }
}

impl JsonCodec for WorkspaceClientCapabilities {
    type Model = WorkspaceClientCapabilitiesModel;

    open spec fn model(&self) -> WorkspaceClientCapabilitiesModel {
        WorkspaceClientCapabilitiesModel {
            apply_edit: self.apply_edit.model(),
            workspace_edit: self.workspace_edit.model(),
            did_change_configuration: self.did_change_configuration.model(),
            did_change_watched_files: self.did_change_watched_files.model(),
            execute_command: self.execute_command.model(),
            workspace_folders: self.workspace_folders.model(),
            configuration: self.configuration.model(),
        }
    }

    open spec fn encode(m: WorkspaceClientCapabilitiesModel) -> JVal {
        JVal::Obj(Self::fields_json(m))
    }

    open spec fn decode(j: JVal) -> Result<WorkspaceClientCapabilitiesModel, DecodeError> {
        match j {
            JVal::Obj(ms) => Self::fields_from(ms),
            _ => Err(DecodeError::WrongShape),
        }
    }

    open spec fn valid(m: WorkspaceClientCapabilitiesModel) -> bool {
        Self::fields_valid(m)
    }

    fn to_json(&self) -> (r: Json) {
        let mut ms = new_object();
        self.write_fields(&mut ms);
        Json::Object(ms)
    }

    fn from_json(j: &Json) -> (r: Result<Self, DecodeError>) {
        match j {
            Json::Object(ms) => Self::read_fields(ms),
            _ => Err(DecodeError::WrongShape),
        }
    }

    proof fn lemma_round_trip(m: WorkspaceClientCapabilitiesModel) {
        Self::lemma_fields_round_trip(m, Seq::empty(), Seq::empty());
        assert(Seq::empty() + Self::fields_json(m) + Seq::empty() =~= Self::fields_json(m));
    }

}

/// Client capabilities of text document synchronization.
#[derive(Clone, Copy, Debug, Default, PartialEq, Eq, Structural)]
pub struct TextDocumentSyncClientCapabilities {
    pub dynamic_registration: Option<bool>,
    pub will_save: Option<bool>,
    pub will_save_wait_until: Option<bool>,
    pub did_save: Option<bool>,
}

impl TextDocumentSyncClientCapabilities {
    /// The members that a value contributes to the object it is written in.
    pub open spec fn fields_json(m: TextDocumentSyncClientCapabilities) -> Seq<(Seq<char>, JVal)> {
        opt_member::<bool>("dynamicRegistration"@, m.dynamic_registration)
            + opt_member::<bool>("willSave"@, m.will_save)
            + opt_member::<bool>("willSaveWaitUntil"@, m.will_save_wait_until)
            + opt_member::<bool>("didSave"@, m.did_save)
    }

    /// Reads a value from the members of an object; other members are ignored.
    #[verifier::opaque]
    pub open spec fn fields_from(ms: Seq<(Seq<char>, JVal)>) -> Result<TextDocumentSyncClientCapabilities, DecodeError> {
        match opt_field::<bool>(ms, "dynamicRegistration"@) {
            Err(e) => Err(e),
            Ok(dynamic_registration) => {
                match opt_field::<bool>(ms, "willSave"@) {
                    Err(e) => Err(e),
                    Ok(will_save) => {
                        match opt_field::<bool>(ms, "willSaveWaitUntil"@) {
                            Err(e) => Err(e),
                            Ok(will_save_wait_until) => {
                                match opt_field::<bool>(ms, "didSave"@) {
                                    Err(e) => Err(e),
                                    Ok(did_save) => {
                                        Ok(TextDocumentSyncClientCapabilities { dynamic_registration, will_save, will_save_wait_until, did_save })
                                    },
                                }
                            },
                        }
                    },
                }
            },
        }
    }

    /// The models that values can have.
    pub open spec fn fields_valid(m: TextDocumentSyncClientCapabilities) -> bool {
        &&& opt_valid::<bool>(m.dynamic_registration)
        &&& opt_valid::<bool>(m.will_save)
        &&& opt_valid::<bool>(m.will_save_wait_until)
        &&& opt_valid::<bool>(m.did_save)
    }

    /// The members of a value, written between members of other names, read back as the value.
    pub proof fn lemma_fields_round_trip(m: TextDocumentSyncClientCapabilities, pre: Seq<(Seq<char>, JVal)>, post: Seq<(Seq<char>, JVal)>)
        requires
            Self::fields_valid(m),
            forall|k: Seq<char>| Self::uses_key(k) ==> (#[trigger] lookup(pre, k)) is None,
            forall|k: Seq<char>| Self::uses_key(k) ==> (#[trigger] lookup(post, k)) is None,
        ensures
            Self::fields_from(pre + Self::fields_json(m) + post) == Ok::<TextDocumentSyncClientCapabilities, DecodeError>(m),
    {
        broadcast use group_lookup;
        reveal(TextDocumentSyncClientCapabilities::fields_from);
        reveal_strlit("dynamicRegistration");
        reveal_strlit("willSave");
        reveal_strlit("willSaveWaitUntil");
        reveal_strlit("didSave");
        assert("dynamicRegistration"@.len() == 19);
        assert("willSave"@.len() == 8);
        assert("willSaveWaitUntil"@.len() == 17);
        assert("didSave"@.len() == 7);
        if let Some(x) = m.dynamic_registration {
            bool::lemma_round_trip(x);
        }
        if let Some(x) = m.will_save {
            bool::lemma_round_trip(x);
        }
        if let Some(x) = m.will_save_wait_until {
            bool::lemma_round_trip(x);
        }
        if let Some(x) = m.did_save {
            bool::lemma_round_trip(x);
        }
    }

    /// Members with names that the type does not read change nothing.
    pub proof fn lemma_unknown_key(ms: Seq<(Seq<char>, JVal)>, k: Seq<char>, v: JVal)
        requires
            !Self::uses_key(k),
        ensures
            Self::fields_from(ms + member(k, v)) == Self::fields_from(ms),
    {
        broadcast use group_lookup;
        reveal(TextDocumentSyncClientCapabilities::fields_from);
    }

    /// The member names that the type reads.
    pub open spec fn uses_key(k: Seq<char>) -> bool {
        k == "dynamicRegistration"@ || k == "willSave"@ || k == "willSaveWaitUntil"@ || k == "didSave"@
    }

    /// Appends the members of the value to an object under construction.
    pub fn write_fields(&self, ms: &mut Vec<(String, Json)>)
        ensures
            members(Json::Object(*final(ms))@) == members(Json::Object(*old(ms))@) + Self::fields_json(self.model()),
    {
        let ghost start = members(Json::Object(*ms)@);
        let ghost m = self.model();
        push_opt(ms, "dynamicRegistration", &self.dynamic_registration);
        push_opt(ms, "willSave", &self.will_save);
        proof {
            lemma_concat_associative(start, opt_member::<bool>("dynamicRegistration"@, m.dynamic_registration), opt_member::<bool>("willSave"@, m.will_save));
        }
        push_opt(ms, "willSaveWaitUntil", &self.will_save_wait_until);
        proof {
            lemma_concat_associative(start, opt_member::<bool>("dynamicRegistration"@, m.dynamic_registration) + opt_member::<bool>("willSave"@, m.will_save), opt_member::<bool>("willSaveWaitUntil"@, m.will_save_wait_until));
        }
        push_opt(ms, "didSave", &self.did_save);
        proof {
            lemma_concat_associative(start, opt_member::<bool>("dynamicRegistration"@, m.dynamic_registration) + opt_member::<bool>("willSave"@, m.will_save) + opt_member::<bool>("willSaveWaitUntil"@, m.will_save_wait_until), opt_member::<bool>("didSave"@, m.did_save));
        }
    }

    /// Reads a value from the members of an object.
    pub fn read_fields(ms: &Vec<(String, Json)>) -> (r: Result<Self, DecodeError>)
        ensures
            match r {
                Ok(v) => Self::fields_from(members(Json::Object(*ms)@)) == Ok::<TextDocumentSyncClientCapabilities, DecodeError>(v.model()),
                Err(e) => Self::fields_from(members(Json::Object(*ms)@)) == Err::<TextDocumentSyncClientCapabilities, DecodeError>(e),
            },
    {
        proof {
            reveal(TextDocumentSyncClientCapabilities::fields_from);
        }
        let dynamic_registration = match read_opt::<bool>(ms, "dynamicRegistration") {
            Ok(v) => v,
            Err(e) => return Err(e),
        };
        let will_save = match read_opt::<bool>(ms, "willSave") {
            Ok(v) => v,
            Err(e) => return Err(e),
        };
        let will_save_wait_until = match read_opt::<bool>(ms, "willSaveWaitUntil") {
            Ok(v) => v,
            Err(e) => return Err(e),
        };
        let did_save = match read_opt::<bool>(ms, "didSave") {
            Ok(v) => v,
            Err(e) => return Err(e),
        };
        Ok(TextDocumentSyncClientCapabilities { dynamic_registration, will_save, will_save_wait_until, did_save })
    }
}

impl JsonCodec for TextDocumentSyncClientCapabilities {
    type Model = TextDocumentSyncClientCapabilities;

    open spec fn model(&self) -> TextDocumentSyncClientCapabilities {
        *self
    }

    open spec fn encode(m: TextDocumentSyncClientCapabilities) -> JVal {
        JVal::Obj(Self::fields_json(m))
    }

    open spec fn decode(j: JVal) -> Result<TextDocumentSyncClientCapabilities, DecodeError> {
        match j {
            JVal::Obj(ms) => Self::fields_from(ms),
            _ => Err(DecodeError::WrongShape),
        }
    }

    open spec fn valid(m: TextDocumentSyncClientCapabilities) -> bool {
        Self::fields_valid(m)
    }

    fn to_json(&self) -> (r: Json) {
        let mut ms = new_object();
        self.write_fields(&mut ms);
        Json::Object(ms)
    }

    fn from_json(j: &Json) -> (r: Result<Self, DecodeError>) {
        match j {
            Json::Object(ms) => Self::read_fields(ms),
            _ => Err(DecodeError::WrongShape),
        }
    }

    proof fn lemma_round_trip(m: TextDocumentSyncClientCapabilities) {
        Self::lemma_fields_round_trip(m, Seq::empty(), Seq::empty());
        assert(Seq::empty() + Self::fields_json(m) + Seq::empty() =~= Self::fields_json(m));
    }

}

/// Client capabilities of the publish-diagnostics notification.
#[derive(Clone, Debug, Default, PartialEq, Eq)]
pub struct PublishDiagnosticsClientCapabilities {
    pub related_information: Option<bool>,
    /// The diagnostic tags the client supports; older peers send a bare boolean.
    pub tag_support: Option<TagSupport<DiagnosticTag>>,
    pub version_support: Option<bool>,
    pub code_description_support: Option<bool>,
    pub data_support: Option<bool>,
}

/// The mathematical value of a [`PublishDiagnosticsClientCapabilities`].
pub struct PublishDiagnosticsClientCapabilitiesModel {
    pub related_information: Option<bool>,
    pub tag_support: Option<Seq<DiagnosticTag>>,
    pub version_support: Option<bool>,
    pub code_description_support: Option<bool>,
    pub data_support: Option<bool>,
}

impl PublishDiagnosticsClientCapabilities {
    /// The members that a value contributes to the object it is written in.
    pub open spec fn fields_json(m: PublishDiagnosticsClientCapabilitiesModel) -> Seq<(Seq<char>, JVal)> {
        opt_member::<bool>("relatedInformation"@, m.related_information)
            + opt_member::<TagSupport<DiagnosticTag>>("tagSupport"@, m.tag_support)
            + opt_member::<bool>("versionSupport"@, m.version_support)
            + opt_member::<bool>("codeDescriptionSupport"@, m.code_description_support)
            + opt_member::<bool>("dataSupport"@, m.data_support)
    }

    /// Reads a value from the members of an object; other members are ignored.
    #[verifier::opaque]
    pub open spec fn fields_from(ms: Seq<(Seq<char>, JVal)>) -> Result<PublishDiagnosticsClientCapabilitiesModel, DecodeError> {
        match opt_field::<bool>(ms, "relatedInformation"@) {
            Err(e) => Err(e),
            Ok(related_information) => {
                match compat_tag_field::<DiagnosticTag>(ms, "tagSupport"@) {
                    Err(e) => Err(e),
                    Ok(tag_support) => {
                        match opt_field::<bool>(ms, "versionSupport"@) {
                            Err(e) => Err(e),
                            Ok(version_support) => {
                                match opt_field::<bool>(ms, "codeDescriptionSupport"@) {
                                    Err(e) => Err(e),
                                    Ok(code_description_support) => {
                                        match opt_field::<bool>(ms, "dataSupport"@) {
                                            Err(e) => Err(e),
                                            Ok(data_support) => {
                                                Ok(PublishDiagnosticsClientCapabilitiesModel { related_information, tag_support, version_support, code_description_support, data_support })
                                            },
                                        }
                                    },
                                }
                            },
                        }
                    },
                }
            },
        }
    }

    /// The models that values can have.
    pub open spec fn fields_valid(m: PublishDiagnosticsClientCapabilitiesModel) -> bool {
        &&& opt_valid::<bool>(m.related_information)
        &&& opt_valid::<TagSupport<DiagnosticTag>>(m.tag_support)
        &&& opt_valid::<bool>(m.version_support)
        &&& opt_valid::<bool>(m.code_description_support)
        &&& opt_valid::<bool>(m.data_support)
    }

    /// The members of a value, written between members of other names, read back as the value.
    pub proof fn lemma_fields_round_trip(m: PublishDiagnosticsClientCapabilitiesModel, pre: Seq<(Seq<char>, JVal)>, post: Seq<(Seq<char>, JVal)>)
        requires
            Self::fields_valid(m),
            forall|k: Seq<char>| Self::uses_key(k) ==> (#[trigger] lookup(pre, k)) is None,
            forall|k: Seq<char>| Self::uses_key(k) ==> (#[trigger] lookup(post, k)) is None,
        ensures
            Self::fields_from(pre + Self::fields_json(m) + post) == Ok::<PublishDiagnosticsClientCapabilitiesModel, DecodeError>(m),
    {
        broadcast use group_lookup;
        reveal(PublishDiagnosticsClientCapabilities::fields_from);
        reveal_strlit("relatedInformation");
        reveal_strlit("tagSupport");
        reveal_strlit("versionSupport");
        reveal_strlit("codeDescriptionSupport");
        reveal_strlit("dataSupport");
        assert("relatedInformation"@.len() == 18);
        assert("tagSupport"@.len() == 10);
        assert("versionSupport"@.len() == 14);
        assert("codeDescriptionSupport"@.len() == 22);
        assert("dataSupport"@.len() == 11);
        if let Some(x) = m.related_information {
            bool::lemma_round_trip(x);
        }
        if let Some(x) = m.tag_support {
            <TagSupport<DiagnosticTag>>::lemma_round_trip(x);
        }
        if let Some(x) = m.version_support {
            bool::lemma_round_trip(x);
        }
        if let Some(x) = m.code_description_support {
            bool::lemma_round_trip(x);
        }
        if let Some(x) = m.data_support {
            bool::lemma_round_trip(x);
        }
    }

    /// Members with names that the type does not read change nothing.
    pub proof fn lemma_unknown_key(ms: Seq<(Seq<char>, JVal)>, k: Seq<char>, v: JVal)
        requires
            !Self::uses_key(k),
        ensures
            Self::fields_from(ms + member(k, v)) == Self::fields_from(ms),
    {
        broadcast use group_lookup;
        reveal(PublishDiagnosticsClientCapabilities::fields_from);
    }

    /// The member names that the type reads.
    pub open spec fn uses_key(k: Seq<char>) -> bool {
        k == "relatedInformation"@ || k == "tagSupport"@ || k == "versionSupport"@ || k == "codeDescriptionSupport"@ || k == "dataSupport"@
    }

    /// Appends the members of the value to an object under construction.
    pub fn write_fields(&self, ms: &mut Vec<(String, Json)>)
        ensures
            members(Json::Object(*final(ms))@) == members(Json::Object(*old(ms))@) + Self::fields_json(self.model()),
    {
        let ghost start = members(Json::Object(*ms)@);
        let ghost m = self.model();
        push_opt(ms, "relatedInformation", &self.related_information);
        push_opt(ms, "tagSupport", &self.tag_support);
        proof {
            lemma_concat_associative(start, opt_member::<bool>("relatedInformation"@, m.related_information), opt_member::<TagSupport<DiagnosticTag>>("tagSupport"@, m.tag_support));
        }
        push_opt(ms, "versionSupport", &self.version_support);
        proof {
            lemma_concat_associative(start, opt_member::<bool>("relatedInformation"@, m.related_information) + opt_member::<TagSupport<DiagnosticTag>>("tagSupport"@, m.tag_support), opt_member::<bool>("versionSupport"@, m.version_support));
        }
        push_opt(ms, "codeDescriptionSupport", &self.code_description_support);
        proof {
            lemma_concat_associative(start, opt_member::<bool>("relatedInformation"@, m.related_information) + opt_member::<TagSupport<DiagnosticTag>>("tagSupport"@, m.tag_support) + opt_member::<bool>("versionSupport"@, m.version_support), opt_member::<bool>("codeDescriptionSupport"@, m.code_description_support));
        }
        push_opt(ms, "dataSupport", &self.data_support);
        proof {
            lemma_concat_associative(start, opt_member::<bool>("relatedInformation"@, m.related_information) + opt_member::<TagSupport<DiagnosticTag>>("tagSupport"@, m.tag_support) + opt_member::<bool>("versionSupport"@, m.version_support) + opt_member::<bool>("codeDescriptionSupport"@, m.code_description_support), opt_member::<bool>("dataSupport"@, m.data_support));
        }
    }

    /// Reads a value from the members of an object.
    pub fn read_fields(ms: &Vec<(String, Json)>) -> (r: Result<Self, DecodeError>)
        ensures
            match r {
                Ok(v) => Self::fields_from(members(Json::Object(*ms)@)) == Ok::<PublishDiagnosticsClientCapabilitiesModel, DecodeError>(v.model()),
                Err(e) => Self::fields_from(members(Json::Object(*ms)@)) == Err::<PublishDiagnosticsClientCapabilitiesModel, DecodeError>(e),
            },
    {
        proof {
            reveal(PublishDiagnosticsClientCapabilities::fields_from);
        }
        let related_information = match read_opt::<bool>(ms, "relatedInformation") {
            Ok(v) => v,
            Err(e) => return Err(e),
        };
        let tag_support = match read_compat_tag::<DiagnosticTag>(ms, "tagSupport") {
            Ok(v) => v,
            Err(e) => return Err(e),
        };
        let version_support = match read_opt::<bool>(ms, "versionSupport") {
            Ok(v) => v,
            Err(e) => return Err(e),
        };
        let code_description_support = match read_opt::<bool>(ms, "codeDescriptionSupport") {
            Ok(v) => v,
            Err(e) => return Err(e),
        };
        let data_support = match read_opt::<bool>(ms, "dataSupport") {
            Ok(v) => v,
            Err(e) => return Err(e),
        };
        Ok(PublishDiagnosticsClientCapabilities { related_information, tag_support, version_support, code_description_support, data_support })
    }
}

impl JsonCodec for PublishDiagnosticsClientCapabilities {
    type Model = PublishDiagnosticsClientCapabilitiesModel;

    open spec fn model(&self) -> PublishDiagnosticsClientCapabilitiesModel {
        PublishDiagnosticsClientCapabilitiesModel {
            related_information: self.related_information.model(),
            tag_support: self.tag_support.model(),
            version_support: self.version_support.model(),
            code_description_support: self.code_description_support.model(),
            data_support: self.data_support.model(),
        }
    }

    open spec fn encode(m: PublishDiagnosticsClientCapabilitiesModel) -> JVal {
        JVal::Obj(Self::fields_json(m))
    }

    open spec fn decode(j: JVal) -> Result<PublishDiagnosticsClientCapabilitiesModel, DecodeError> {
        match j {
            JVal::Obj(ms) => Self::fields_from(ms),
            _ => Err(DecodeError::WrongShape),
        }
    }

    open spec fn valid(m: PublishDiagnosticsClientCapabilitiesModel) -> bool {
        Self::fields_valid(m)
    }

    fn to_json(&self) -> (r: Json) {
        let mut ms = new_object();
        self.write_fields(&mut ms);
        Json::Object(ms)
    }

    fn from_json(j: &Json) -> (r: Result<Self, DecodeError>) {
        match j {
            Json::Object(ms) => Self::read_fields(ms),
            _ => Err(DecodeError::WrongShape),
        }
    }

    proof fn lemma_round_trip(m: PublishDiagnosticsClientCapabilitiesModel) {
        Self::lemma_fields_round_trip(m, Seq::empty(), Seq::empty());
        assert(Seq::empty() + Self::fields_json(m) + Seq::empty() =~= Self::fields_json(m));
    }

}

/// The code action kinds a client supports.
#[derive(Clone, Debug, Default, PartialEq, Eq)]
pub struct CodeActionKindLiteralSupport {
    /// The code action kind values the client supports.
    pub value_set: Vec<String>,
}

/// The mathematical value of a [`CodeActionKindLiteralSupport`].
pub struct CodeActionKindLiteralSupportModel {
    pub value_set: Seq<Seq<char>>,
}

impl CodeActionKindLiteralSupport {
    /// The members that a value contributes to the object it is written in.
    pub open spec fn fields_json(m: CodeActionKindLiteralSupportModel) -> Seq<(Seq<char>, JVal)> {
        member("valueSet"@, <Vec<String>>::encode(m.value_set))
    }

    /// Reads a value from the members of an object; other members are ignored.
    #[verifier::opaque]
    pub open spec fn fields_from(ms: Seq<(Seq<char>, JVal)>) -> Result<CodeActionKindLiteralSupportModel, DecodeError> {
        match req_field::<Vec<String>>(ms, "valueSet"@) {
            Err(e) => Err(e),
            Ok(value_set) => {
                Ok(CodeActionKindLiteralSupportModel { value_set })
            },
        }
    }

    /// The models that values can have.
    pub open spec fn fields_valid(m: CodeActionKindLiteralSupportModel) -> bool {
        &&& <Vec<String>>::valid(m.value_set)
    }

    /// The members of a value, written between members of other names, read back as the value.
    pub proof fn lemma_fields_round_trip(m: CodeActionKindLiteralSupportModel, pre: Seq<(Seq<char>, JVal)>, post: Seq<(Seq<char>, JVal)>)
        requires
            Self::fields_valid(m),
            forall|k: Seq<char>| Self::uses_key(k) ==> (#[trigger] lookup(pre, k)) is None,
            forall|k: Seq<char>| Self::uses_key(k) ==> (#[trigger] lookup(post, k)) is None,
        ensures
            Self::fields_from(pre + Self::fields_json(m) + post) == Ok::<CodeActionKindLiteralSupportModel, DecodeError>(m),
    {
        broadcast use group_lookup;
        reveal(CodeActionKindLiteralSupport::fields_from);
        reveal_strlit("valueSet");
        assert("valueSet"@.len() == 8);
        <Vec<String>>::lemma_round_trip(m.value_set);
    }

    /// Members with names that the type does not read change nothing.
    pub proof fn lemma_unknown_key(ms: Seq<(Seq<char>, JVal)>, k: Seq<char>, v: JVal)
        requires
            !Self::uses_key(k),
        ensures
            Self::fields_from(ms + member(k, v)) == Self::fields_from(ms),
    {
        broadcast use group_lookup;
        reveal(CodeActionKindLiteralSupport::fields_from);
    }

    /// The member names that the type reads.
    pub open spec fn uses_key(k: Seq<char>) -> bool {
        k == "valueSet"@
    }

    /// Appends the members of the value to an object under construction.
    pub fn write_fields(&self, ms: &mut Vec<(String, Json)>)
        ensures
            members(Json::Object(*final(ms))@) == members(Json::Object(*old(ms))@) + Self::fields_json(self.model()),
    {
        let ghost start = members(Json::Object(*ms)@);
        push_member(ms, "valueSet", self.value_set.to_json());
        assert(members(Json::Object(*ms)@) =~= start + Self::fields_json(self.model()));
    }

    /// Reads a value from the members of an object.
    pub fn read_fields(ms: &Vec<(String, Json)>) -> (r: Result<Self, DecodeError>)
        ensures
            match r {
                Ok(v) => Self::fields_from(members(Json::Object(*ms)@)) == Ok::<CodeActionKindLiteralSupportModel, DecodeError>(v.model()),
                Err(e) => Self::fields_from(members(Json::Object(*ms)@)) == Err::<CodeActionKindLiteralSupportModel, DecodeError>(e),
            },
    {
        proof {
            reveal(CodeActionKindLiteralSupport::fields_from);
        }
        let value_set = match read_req::<Vec<String>>(ms, "valueSet") {
            Ok(v) => v,
            Err(e) => return Err(e),
        };
        Ok(CodeActionKindLiteralSupport { value_set })
    }
}

impl JsonCodec for CodeActionKindLiteralSupport {
    type Model = CodeActionKindLiteralSupportModel;

    open spec fn model(&self) -> CodeActionKindLiteralSupportModel {
        CodeActionKindLiteralSupportModel {
            value_set: self.value_set.model(),
        }
    }

    open spec fn encode(m: CodeActionKindLiteralSupportModel) -> JVal {
        JVal::Obj(Self::fields_json(m))
    }

    open spec fn decode(j: JVal) -> Result<CodeActionKindLiteralSupportModel, DecodeError> {
        match j {
            JVal::Obj(ms) => Self::fields_from(ms),
            _ => Err(DecodeError::WrongShape),
        }
    }

    open spec fn valid(m: CodeActionKindLiteralSupportModel) -> bool {
        Self::fields_valid(m)
    }

    fn to_json(&self) -> (r: Json) {
        let mut ms = new_object();
        self.write_fields(&mut ms);
        Json::Object(ms)
    }

    fn from_json(j: &Json) -> (r: Result<Self, DecodeError>) {
        match j {
            Json::Object(ms) => Self::read_fields(ms),
            _ => Err(DecodeError::WrongShape),
        }
    }

    proof fn lemma_round_trip(m: CodeActionKindLiteralSupportModel) {
        Self::lemma_fields_round_trip(m, Seq::empty(), Seq::empty());
        assert(Seq::empty() + Self::fields_json(m) + Seq::empty() =~= Self::fields_json(m));
    }

}

/// The client supports code action literals as results of the code action request.
#[derive(Clone, Debug, Default, PartialEq, Eq)]
pub struct CodeActionLiteralSupport {
    pub code_action_kind: CodeActionKindLiteralSupport,
}

/// The mathematical value of a [`CodeActionLiteralSupport`].
pub struct CodeActionLiteralSupportModel {
    pub code_action_kind: CodeActionKindLiteralSupportModel,
}

impl CodeActionLiteralSupport {
    /// The members that a value contributes to the object it is written in.
    pub open spec fn fields_json(m: CodeActionLiteralSupportModel) -> Seq<(Seq<char>, JVal)> {
        member("codeActionKind"@, CodeActionKindLiteralSupport::encode(m.code_action_kind))
    }

    /// Reads a value from the members of an object; other members are ignored.
    #[verifier::opaque]
    pub open spec fn fields_from(ms: Seq<(Seq<char>, JVal)>) -> Result<CodeActionLiteralSupportModel, DecodeError> {
        match req_field::<CodeActionKindLiteralSupport>(ms, "codeActionKind"@) {
            Err(e) => Err(e),
            Ok(code_action_kind) => {
                Ok(CodeActionLiteralSupportModel { code_action_kind })
            },
        }
    }

    /// The models that values can have.
    pub open spec fn fields_valid(m: CodeActionLiteralSupportModel) -> bool {
        &&& CodeActionKindLiteralSupport::valid(m.code_action_kind)
    }

    /// The members of a value, written between members of other names, read back as the value.
    pub proof fn lemma_fields_round_trip(m: CodeActionLiteralSupportModel, pre: Seq<(Seq<char>, JVal)>, post: Seq<(Seq<char>, JVal)>)
        requires
            Self::fields_valid(m),
            forall|k: Seq<char>| Self::uses_key(k) ==> (#[trigger] lookup(pre, k)) is None,
            forall|k: Seq<char>| Self::uses_key(k) ==> (#[trigger] lookup(post, k)) is None,
        ensures
            Self::fields_from(pre + Self::fields_json(m) + post) == Ok::<CodeActionLiteralSupportModel, DecodeError>(m),
    {
        broadcast use group_lookup;
        reveal(CodeActionLiteralSupport::fields_from);
        reveal_strlit("codeActionKind");
        assert("codeActionKind"@.len() == 14);
        CodeActionKindLiteralSupport::lemma_round_trip(m.code_action_kind);
    }

    /// Members with names that the type does not read change nothing.
    pub proof fn lemma_unknown_key(ms: Seq<(Seq<char>, JVal)>, k: Seq<char>, v: JVal)
        requires
            !Self::uses_key(k),
        ensures
            Self::fields_from(ms + member(k, v)) == Self::fields_from(ms),
    {
        broadcast use group_lookup;
        reveal(CodeActionLiteralSupport::fields_from);
    }

    /// The member names that the type reads.
    pub open spec fn uses_key(k: Seq<char>) -> bool {
        k == "codeActionKind"@
    }

    /// Appends the members of the value to an object under construction.
    pub fn write_fields(&self, ms: &mut Vec<(String, Json)>)
        ensures
            members(Json::Object(*final(ms))@) == members(Json::Object(*old(ms))@) + Self::fields_json(self.model()),
    {
        let ghost start = members(Json::Object(*ms)@);
        push_member(ms, "codeActionKind", self.code_action_kind.to_json());
        assert(members(Json::Object(*ms)@) =~= start + Self::fields_json(self.model()));
    }

    /// Reads a value from the members of an object.
    pub fn read_fields(ms: &Vec<(String, Json)>) -> (r: Result<Self, DecodeError>)
        ensures
            match r {
                Ok(v) => Self::fields_from(members(Json::Object(*ms)@)) == Ok::<CodeActionLiteralSupportModel, DecodeError>(v.model()),
                Err(e) => Self::fields_from(members(Json::Object(*ms)@)) == Err::<CodeActionLiteralSupportModel, DecodeError>(e),
            },
    {
        proof {
            reveal(CodeActionLiteralSupport::fields_from);
        }
        let code_action_kind = match read_req::<CodeActionKindLiteralSupport>(ms, "codeActionKind") {
            Ok(v) => v,
            Err(e) => return Err(e),
        };
        Ok(CodeActionLiteralSupport { code_action_kind })
    }
}

impl JsonCodec for CodeActionLiteralSupport {
    type Model = CodeActionLiteralSupportModel;

    open spec fn model(&self) -> CodeActionLiteralSupportModel {
        CodeActionLiteralSupportModel {
            code_action_kind: self.code_action_kind.model(),
        }
    }

    open spec fn encode(m: CodeActionLiteralSupportModel) -> JVal {
        JVal::Obj(Self::fields_json(m))
    }

    open spec fn decode(j: JVal) -> Result<CodeActionLiteralSupportModel, DecodeError> {
        match j {
            JVal::Obj(ms) => Self::fields_from(ms),
            _ => Err(DecodeError::WrongShape),
        }
    }

    open spec fn valid(m: CodeActionLiteralSupportModel) -> bool {
        Self::fields_valid(m)
    }

    fn to_json(&self) -> (r: Json) {
        let mut ms = new_object();
        self.write_fields(&mut ms);
        Json::Object(ms)
    }

    fn from_json(j: &Json) -> (r: Result<Self, DecodeError>) {
        match j {
            Json::Object(ms) => Self::read_fields(ms),
            _ => Err(DecodeError::WrongShape),
        }
    }

    proof fn lemma_round_trip(m: CodeActionLiteralSupportModel) {
        Self::lemma_fields_round_trip(m, Seq::empty(), Seq::empty());
        assert(Seq::empty() + Self::fields_json(m) + Seq::empty() =~= Self::fields_json(m));
    }

}

/// The code action properties a client can resolve lazily.
#[derive(Clone, Debug, Default, PartialEq, Eq)]
pub struct CodeActionCapabilityResolveSupport {
    /// The properties that a client can resolve lazily.
    pub properties: Vec<String>,
}

/// The mathematical value of a [`CodeActionCapabilityResolveSupport`].
pub struct CodeActionCapabilityResolveSupportModel {
    pub properties: Seq<Seq<char>>,
}

impl CodeActionCapabilityResolveSupport {
    /// The members that a value contributes to the object it is written in.
    pub open spec fn fields_json(m: CodeActionCapabilityResolveSupportModel) -> Seq<(Seq<char>, JVal)> {
        member("properties"@, <Vec<String>>::encode(m.properties))
    }

    /// Reads a value from the members of an object; other members are ignored.
    #[verifier::opaque]
    pub open spec fn fields_from(ms: Seq<(Seq<char>, JVal)>) -> Result<CodeActionCapabilityResolveSupportModel, DecodeError> {
        match req_field::<Vec<String>>(ms, "properties"@) {
            Err(e) => Err(e),
            Ok(properties) => {
                Ok(CodeActionCapabilityResolveSupportModel { properties })
            },
        }
    }

    /// The models that values can have.
    pub open spec fn fields_valid(m: CodeActionCapabilityResolveSupportModel) -> bool {
        &&& <Vec<String>>::valid(m.properties)
    }

    /// The members of a value, written between members of other names, read back as the value.
    pub proof fn lemma_fields_round_trip(m: CodeActionCapabilityResolveSupportModel, pre: Seq<(Seq<char>, JVal)>, post: Seq<(Seq<char>, JVal)>)
        requires
            Self::fields_valid(m),
            forall|k: Seq<char>| Self::uses_key(k) ==> (#[trigger] lookup(pre, k)) is None,
            forall|k: Seq<char>| Self::uses_key(k) ==> (#[trigger] lookup(post, k)) is None,
        ensures
            Self::fields_from(pre + Self::fields_json(m) + post) == Ok::<CodeActionCapabilityResolveSupportModel, DecodeError>(m),
    {
        broadcast use group_lookup;
        reveal(CodeActionCapabilityResolveSupport::fields_from);
        reveal_strlit("properties");
        assert("properties"@.len() == 10);
        <Vec<String>>::lemma_round_trip(m.properties);
    }

    /// Members with names that the type does not read change nothing.
    pub proof fn lemma_unknown_key(ms: Seq<(Seq<char>, JVal)>, k: Seq<char>, v: JVal)
        requires
            !Self::uses_key(k),
        ensures
            Self::fields_from(ms + member(k, v)) == Self::fields_from(ms),
    {
        broadcast use group_lookup;
        reveal(CodeActionCapabilityResolveSupport::fields_from);
    }

    /// The member names that the type reads.
    pub open spec fn uses_key(k: Seq<char>) -> bool {
        k == "properties"@
    }

    /// Appends the members of the value to an object under construction.
    pub fn write_fields(&self, ms: &mut Vec<(String, Json)>)
        ensures
            members(Json::Object(*final(ms))@) == members(Json::Object(*old(ms))@) + Self::fields_json(self.model()),
    {
        let ghost start = members(Json::Object(*ms)@);
        push_member(ms, "properties", self.properties.to_json());
        assert(members(Json::Object(*ms)@) =~= start + Self::fields_json(self.model()));
    }

    /// Reads a value from the members of an object.
    pub fn read_fields(ms: &Vec<(String, Json)>) -> (r: Result<Self, DecodeError>)
        ensures
            match r {
                Ok(v) => Self::fields_from(members(Json::Object(*ms)@)) == Ok::<CodeActionCapabilityResolveSupportModel, DecodeError>(v.model()),
                Err(e) => Self::fields_from(members(Json::Object(*ms)@)) == Err::<CodeActionCapabilityResolveSupportModel, DecodeError>(e),
            },
    {
        proof {
            reveal(CodeActionCapabilityResolveSupport::fields_from);
        }
        let properties = match read_req::<Vec<String>>(ms, "properties") {
            Ok(v) => v,
            Err(e) => return Err(e),
        };
        Ok(CodeActionCapabilityResolveSupport { properties })
    }
}

impl JsonCodec for CodeActionCapabilityResolveSupport {
    type Model = CodeActionCapabilityResolveSupportModel;

    open spec fn model(&self) -> CodeActionCapabilityResolveSupportModel {
        CodeActionCapabilityResolveSupportModel {
            properties: self.properties.model(),
        }
    }

    open spec fn encode(m: CodeActionCapabilityResolveSupportModel) -> JVal {
        JVal::Obj(Self::fields_json(m))
    }

    open spec fn decode(j: JVal) -> Result<CodeActionCapabilityResolveSupportModel, DecodeError> {
        match j {
            JVal::Obj(ms) => Self::fields_from(ms),
            _ => Err(DecodeError::WrongShape),
        }
    }

    open spec fn valid(m: CodeActionCapabilityResolveSupportModel) -> bool {
        Self::fields_valid(m)
    }

    fn to_json(&self) -> (r: Json) {
        let mut ms = new_object();
        self.write_fields(&mut ms);
        Json::Object(ms)
    }

    fn from_json(j: &Json) -> (r: Result<Self, DecodeError>) {
        match j {
            Json::Object(ms) => Self::read_fields(ms),
            _ => Err(DecodeError::WrongShape),
        }
    }

    proof fn lemma_round_trip(m: CodeActionCapabilityResolveSupportModel) {
        Self::lemma_fields_round_trip(m, Seq::empty(), Seq::empty());
        assert(Seq::empty() + Self::fields_json(m) + Seq::empty() =~= Self::fields_json(m));
    }

}

/// Client capabilities of the code action request.
#[derive(Clone, Debug, Default, PartialEq, Eq)]
pub struct CodeActionClientCapabilities {
    pub dynamic_registration: Option<bool>,
    pub code_action_literal_support: Option<CodeActionLiteralSupport>,
    pub is_preferred_support: Option<bool>,
    pub disabled_support: Option<bool>,
    pub data_support: Option<bool>,
    pub resolve_support: Option<CodeActionCapabilityResolveSupport>,
    pub honors_change_annotations: Option<bool>,
}

/// The mathematical value of a [`CodeActionClientCapabilities`].
pub struct CodeActionClientCapabilitiesModel {
    pub dynamic_registration: Option<bool>,
    pub code_action_literal_support: Option<CodeActionLiteralSupportModel>,
    pub is_preferred_support: Option<bool>,
    pub disabled_support: Option<bool>,
    pub data_support: Option<bool>,
    pub resolve_support: Option<CodeActionCapabilityResolveSupportModel>,
    pub honors_change_annotations: Option<bool>,
}

impl CodeActionClientCapabilities {
    /// The members that a value contributes to the object it is written in.
    pub open spec fn fields_json(m: CodeActionClientCapabilitiesModel) -> Seq<(Seq<char>, JVal)> {
        opt_member::<bool>("dynamicRegistration"@, m.dynamic_registration)
            + opt_member::<CodeActionLiteralSupport>("codeActionLiteralSupport"@, m.code_action_literal_support)
            + opt_member::<bool>("isPreferredSupport"@, m.is_preferred_support)
            + opt_member::<bool>("disabledSupport"@, m.disabled_support)
            + opt_member::<bool>("dataSupport"@, m.data_support)
            + opt_member::<CodeActionCapabilityResolveSupport>("resolveSupport"@, m.resolve_support)
            + opt_member::<bool>("honorsChangeAnnotations"@, m.honors_change_annotations)
    }

    /// Reads a value from the members of an object; other members are ignored.
    #[verifier::opaque]
    pub open spec fn fields_from(ms: Seq<(Seq<char>, JVal)>) -> Result<CodeActionClientCapabilitiesModel, DecodeError> {
        match opt_field::<bool>(ms, "dynamicRegistration"@) {
            Err(e) => Err(e),
            Ok(dynamic_registration) => {
                match opt_field::<CodeActionLiteralSupport>(ms, "codeActionLiteralSupport"@) {
                    Err(e) => Err(e),
                    Ok(code_action_literal_support) => {
                        match opt_field::<bool>(ms, "isPreferredSupport"@) {
                            Err(e) => Err(e),
                            Ok(is_preferred_support) => {
                                match opt_field::<bool>(ms, "disabledSupport"@) {
                                    Err(e) => Err(e),
                                    Ok(disabled_support) => {
                                        match opt_field::<bool>(ms, "dataSupport"@) {
                                            Err(e) => Err(e),
                                            Ok(data_support) => {
                                                match opt_field::<CodeActionCapabilityResolveSupport>(ms, "resolveSupport"@) {
                                                    Err(e) => Err(e),
                                                    Ok(resolve_support) => {
                                                        match opt_field::<bool>(ms, "honorsChangeAnnotations"@) {
                                                            Err(e) => Err(e),
                                                            Ok(honors_change_annotations) => {
                                                                Ok(CodeActionClientCapabilitiesModel { dynamic_registration, code_action_literal_support, is_preferred_support, disabled_support, data_support, resolve_support, honors_change_annotations })
                                                            },
                                                        }
                                                    },
                                                }
                                            },
                                        }
                                    },
                                }
                            },
                        }
                    },
                }
            },
        }
    }

    /// The models that values can have.
    pub open spec fn fields_valid(m: CodeActionClientCapabilitiesModel) -> bool {
        &&& opt_valid::<bool>(m.dynamic_registration)
        &&& opt_valid::<CodeActionLiteralSupport>(m.code_action_literal_support)
        &&& opt_valid::<bool>(m.is_preferred_support)
        &&& opt_valid::<bool>(m.disabled_support)
        &&& opt_valid::<bool>(m.data_support)
        &&& opt_valid::<CodeActionCapabilityResolveSupport>(m.resolve_support)
        &&& opt_valid::<bool>(m.honors_change_annotations)
    }

    /// The members of a value, written between members of other names, read back as the value.
    pub proof fn lemma_fields_round_trip(m: CodeActionClientCapabilitiesModel, pre: Seq<(Seq<char>, JVal)>, post: Seq<(Seq<char>, JVal)>)
        requires
            Self::fields_valid(m),
            forall|k: Seq<char>| Self::uses_key(k) ==> (#[trigger] lookup(pre, k)) is None,
            forall|k: Seq<char>| Self::uses_key(k) ==> (#[trigger] lookup(post, k)) is None,
        ensures
            Self::fields_from(pre + Self::fields_json(m) + post) == Ok::<CodeActionClientCapabilitiesModel, DecodeError>(m),
    {
        broadcast use group_lookup;
        reveal(CodeActionClientCapabilities::fields_from);
        reveal_strlit("dynamicRegistration");
        reveal_strlit("codeActionLiteralSupport");
        reveal_strlit("isPreferredSupport");
        reveal_strlit("disabledSupport");
        reveal_strlit("dataSupport");
        reveal_strlit("resolveSupport");
        reveal_strlit("honorsChangeAnnotations");
        assert("dynamicRegistration"@.len() == 19);
        assert("codeActionLiteralSupport"@.len() == 24);
        assert("isPreferredSupport"@.len() == 18);
        assert("disabledSupport"@.len() == 15);
        assert("dataSupport"@.len() == 11);
        assert("resolveSupport"@.len() == 14);
        assert("honorsChangeAnnotations"@.len() == 23);
        if let Some(x) = m.dynamic_registration {
            bool::lemma_round_trip(x);
        }
        if let Some(x) = m.code_action_literal_support {
            CodeActionLiteralSupport::lemma_round_trip(x);
        }
        if let Some(x) = m.is_preferred_support {
            bool::lemma_round_trip(x);
        }
        if let Some(x) = m.disabled_support {
            bool::lemma_round_trip(x);
        }
        if let Some(x) = m.data_support {
            bool::lemma_round_trip(x);
        }
        if let Some(x) = m.resolve_support {
            CodeActionCapabilityResolveSupport::lemma_round_trip(x);
        }
        if let Some(x) = m.honors_change_annotations {
            bool::lemma_round_trip(x);
        }
    }

    /// Members with names that the type does not read change nothing.
    pub proof fn lemma_unknown_key(ms: Seq<(Seq<char>, JVal)>, k: Seq<char>, v: JVal)
        requires
            !Self::uses_key(k),
        ensures
            Self::fields_from(ms + member(k, v)) == Self::fields_from(ms),
    {
        broadcast use group_lookup;
        reveal(CodeActionClientCapabilities::fields_from);
    }

    /// The member names that the type reads.
    pub open spec fn uses_key(k: Seq<char>) -> bool {
        k == "dynamicRegistration"@ || k == "codeActionLiteralSupport"@ || k == "isPreferredSupport"@ || k == "disabledSupport"@ || k == "dataSupport"@ || k == "resolveSupport"@ || k == "honorsChangeAnnotations"@
    }

    /// Appends the members of the value to an object under construction.
    pub fn write_fields(&self, ms: &mut Vec<(String, Json)>)
        ensures
            members(Json::Object(*final(ms))@) == members(Json::Object(*old(ms))@) + Self::fields_json(self.model()),
    {
        let ghost start = members(Json::Object(*ms)@);
        let ghost m = self.model();
        push_opt(ms, "dynamicRegistration", &self.dynamic_registration);
        push_opt(ms, "codeActionLiteralSupport", &self.code_action_literal_support);
        proof {
            lemma_concat_associative(start, opt_member::<bool>("dynamicRegistration"@, m.dynamic_registration), opt_member::<CodeActionLiteralSupport>("codeActionLiteralSupport"@, m.code_action_literal_support));
        }
        push_opt(ms, "isPreferredSupport", &self.is_preferred_support);
        proof {
            lemma_concat_associative(start, opt_member::<bool>("dynamicRegistration"@, m.dynamic_registration) + opt_member::<CodeActionLiteralSupport>("codeActionLiteralSupport"@, m.code_action_literal_support), opt_member::<bool>("isPreferredSupport"@, m.is_preferred_support));
        }
        push_opt(ms, "disabledSupport", &self.disabled_support);
        proof {
            lemma_concat_associative(start, opt_member::<bool>("dynamicRegistration"@, m.dynamic_registration) + opt_member::<CodeActionLiteralSupport>("codeActionLiteralSupport"@, m.code_action_literal_support) + opt_member::<bool>("isPreferredSupport"@, m.is_preferred_support), opt_member::<bool>("disabledSupport"@, m.disabled_support));
        }
        push_opt(ms, "dataSupport", &self.data_support);
        proof {
            lemma_concat_associative(start, opt_member::<bool>("dynamicRegistration"@, m.dynamic_registration) + opt_member::<CodeActionLiteralSupport>("codeActionLiteralSupport"@, m.code_action_literal_support) + opt_member::<bool>("isPreferredSupport"@, m.is_preferred_support) + opt_member::<bool>("disabledSupport"@, m.disabled_support), opt_member::<bool>("dataSupport"@, m.data_support));
        }
        push_opt(ms, "resolveSupport", &self.resolve_support);
        proof {
            lemma_concat_associative(start, opt_member::<bool>("dynamicRegistration"@, m.dynamic_registration) + opt_member::<CodeActionLiteralSupport>("codeActionLiteralSupport"@, m.code_action_literal_support) + opt_member::<bool>("isPreferredSupport"@, m.is_preferred_support) + opt_member::<bool>("disabledSupport"@, m.disabled_support) + opt_member::<bool>("dataSupport"@, m.data_support), opt_member::<CodeActionCapabilityResolveSupport>("resolveSupport"@, m.resolve_support));
        }
        push_opt(ms, "honorsChangeAnnotations", &self.honors_change_annotations);
        proof {
            lemma_concat_associative(start, opt_member::<bool>("dynamicRegistration"@, m.dynamic_registration) + opt_member::<CodeActionLiteralSupport>("codeActionLiteralSupport"@, m.code_action_literal_support) + opt_member::<bool>("isPreferredSupport"@, m.is_preferred_support) + opt_member::<bool>("disabledSupport"@, m.disabled_support) + opt_member::<bool>("dataSupport"@, m.data_support) + opt_member::<CodeActionCapabilityResolveSupport>("resolveSupport"@, m.resolve_support), opt_member::<bool>("honorsChangeAnnotations"@, m.honors_change_annotations));
        }
    }

    /// Reads a value from the members of an object.
    pub fn read_fields(ms: &Vec<(String, Json)>) -> (r: Result<Self, DecodeError>)
        ensures
            match r {
                Ok(v) => Self::fields_from(members(Json::Object(*ms)@)) == Ok::<CodeActionClientCapabilitiesModel, DecodeError>(v.model()),
                Err(e) => Self::fields_from(members(Json::Object(*ms)@)) == Err::<CodeActionClientCapabilitiesModel, DecodeError>(e),
            },
    {
        proof {
            reveal(CodeActionClientCapabilities::fields_from);
        }
        let dynamic_registration = match read_opt::<bool>(ms, "dynamicRegistration") {
            Ok(v) => v,
            Err(e) => return Err(e),
        };
        let code_action_literal_support = match read_opt::<CodeActionLiteralSupport>(ms, "codeActionLiteralSupport") {
            Ok(v) => v,
            Err(e) => return Err(e),
        };
        let is_preferred_support = match read_opt::<bool>(ms, "isPreferredSupport") {
            Ok(v) => v,
            Err(e) => return Err(e),
        };
        let disabled_support = match read_opt::<bool>(ms, "disabledSupport") {
            Ok(v) => v,
            Err(e) => return Err(e),
        };
        let data_support = match read_opt::<bool>(ms, "dataSupport") {
            Ok(v) => v,
            Err(e) => return Err(e),
        };
        let resolve_support = match read_opt::<CodeActionCapabilityResolveSupport>(ms, "resolveSupport") {
            Ok(v) => v,
            Err(e) => return Err(e),
        };
        let honors_change_annotations = match read_opt::<bool>(ms, "honorsChangeAnnotations") {
            Ok(v) => v,
            Err(e) => return Err(e),
        };
        Ok(CodeActionClientCapabilities { dynamic_registration, code_action_literal_support, is_preferred_support, disabled_support, data_support, resolve_support, honors_change_annotations })
    }
}

impl JsonCodec for CodeActionClientCapabilities {
    type Model = CodeActionClientCapabilitiesModel;

    open spec fn model(&self) -> CodeActionClientCapabilitiesModel {
        CodeActionClientCapabilitiesModel {
            dynamic_registration: self.dynamic_registration.model(),
            code_action_literal_support: self.code_action_literal_support.model(),
            is_preferred_support: self.is_preferred_support.model(),
            disabled_support: self.disabled_support.model(),
            data_support: self.data_support.model(),
            resolve_support: self.resolve_support.model(),
            honors_change_annotations: self.honors_change_annotations.model(),
        }
    }

    open spec fn encode(m: CodeActionClientCapabilitiesModel) -> JVal {
        JVal::Obj(Self::fields_json(m))
    }

    open spec fn decode(j: JVal) -> Result<CodeActionClientCapabilitiesModel, DecodeError> {
        match j {
            JVal::Obj(ms) => Self::fields_from(ms),
            _ => Err(DecodeError::WrongShape),
        }
    }

    open spec fn valid(m: CodeActionClientCapabilitiesModel) -> bool {
        Self::fields_valid(m)
    }

    fn to_json(&self) -> (r: Json) {
        let mut ms = new_object();
        self.write_fields(&mut ms);
        Json::Object(ms)
    }

    fn from_json(j: &Json) -> (r: Result<Self, DecodeError>) {
        match j {
            Json::Object(ms) => Self::read_fields(ms),
            _ => Err(DecodeError::WrongShape),
        }
    }

    proof fn lemma_round_trip(m: CodeActionClientCapabilitiesModel) {
        Self::lemma_fields_round_trip(m, Seq::empty(), Seq::empty());
        assert(Seq::empty() + Self::fields_json(m) + Seq::empty() =~= Self::fields_json(m));
    }

}

/// Text-document-specific client capabilities.
#[derive(Clone, Debug, Default, PartialEq, Eq)]
pub struct TextDocumentClientCapabilities {
    pub synchronization: Option<TextDocumentSyncClientCapabilities>,
    pub references: Option<DynamicRegistrationClientCapabilities>,
    pub document_highlight: Option<DynamicRegistrationClientCapabilities>,
    pub declaration: Option<GotoCapability>,
    pub definition: Option<GotoCapability>,
    pub type_definition: Option<GotoCapability>,
    pub implementation: Option<GotoCapability>,
    pub code_action: Option<CodeActionClientCapabilities>,
    pub publish_diagnostics: Option<PublishDiagnosticsClientCapabilities>,
}

/// The mathematical value of a [`TextDocumentClientCapabilities`].
pub struct TextDocumentClientCapabilitiesModel {
    pub synchronization: Option<TextDocumentSyncClientCapabilities>,
    pub references: Option<DynamicRegistrationClientCapabilities>,
    pub document_highlight: Option<DynamicRegistrationClientCapabilities>,
    pub declaration: Option<GotoCapability>,
    pub definition: Option<GotoCapability>,
    pub type_definition: Option<GotoCapability>,
    pub implementation: Option<GotoCapability>,
    pub code_action: Option<CodeActionClientCapabilitiesModel>,
    pub publish_diagnostics: Option<PublishDiagnosticsClientCapabilitiesModel>,
}

impl TextDocumentClientCapabilities {
    /// The members that a value contributes to the object it is written in.
    pub open spec fn fields_json(m: TextDocumentClientCapabilitiesModel) -> Seq<(Seq<char>, JVal)> {
        opt_member::<TextDocumentSyncClientCapabilities>("synchronization"@, m.synchronization)
            + opt_member::<DynamicRegistrationClientCapabilities>("references"@, m.references)
            + opt_member::<DynamicRegistrationClientCapabilities>("documentHighlight"@, m.document_highlight)
            + opt_member::<GotoCapability>("declaration"@, m.declaration)
            + opt_member::<GotoCapability>("definition"@, m.definition)
            + opt_member::<GotoCapability>("typeDefinition"@, m.type_definition)
            + opt_member::<GotoCapability>("implementation"@, m.implementation)
            + opt_member::<CodeActionClientCapabilities>("codeAction"@, m.code_action)
            + opt_member::<PublishDiagnosticsClientCapabilities>("publishDiagnostics"@, m.publish_diagnostics)
    }

    /// Reads a value from the members of an object; other members are ignored.
    #[verifier::opaque]
    pub open spec fn fields_from(ms: Seq<(Seq<char>, JVal)>) -> Result<TextDocumentClientCapabilitiesModel, DecodeError> {
        match opt_field::<TextDocumentSyncClientCapabilities>(ms, "synchronization"@) {
            Err(e) => Err(e),
            Ok(synchronization) => {
                match opt_field::<DynamicRegistrationClientCapabilities>(ms, "references"@) {
                    Err(e) => Err(e),
                    Ok(references) => {
                        match opt_field::<DynamicRegistrationClientCapabilities>(ms, "documentHighlight"@) {
                            Err(e) => Err(e),
                            Ok(document_highlight) => {
                                match opt_field::<GotoCapability>(ms, "declaration"@) {
                                    Err(e) => Err(e),
                                    Ok(declaration) => {
                                        match opt_field::<GotoCapability>(ms, "definition"@) {
                                            Err(e) => Err(e),
                                            Ok(definition) => {
                                                match opt_field::<GotoCapability>(ms, "typeDefinition"@) {
                                                    Err(e) => Err(e),
                                                    Ok(type_definition) => {
                                                        match opt_field::<GotoCapability>(ms, "implementation"@) {
                                                            Err(e) => Err(e),
                                                            Ok(implementation) => {
                                                                match opt_field::<CodeActionClientCapabilities>(ms, "codeAction"@) {
                                                                    Err(e) => Err(e),
                                                                    Ok(code_action) => {
                                                                        match opt_field::<PublishDiagnosticsClientCapabilities>(ms, "publishDiagnostics"@) {
                                                                            Err(e) => Err(e),
                                                                            Ok(publish_diagnostics) => {
                                                                                Ok(TextDocumentClientCapabilitiesModel { synchronization, references, document_highlight, declaration, definition, type_definition, implementation, code_action, publish_diagnostics })
                                                                            },
                                                                        }
                                                                    },
                                                                }
                                                            },
                                                        }
                                                    },
                                                }
                                            },
                                        }
                                    },
                                }
                            },
                        }
                    },
                }
            },
        }
    }

    /// The models that values can have.
    pub open spec fn fields_valid(m: TextDocumentClientCapabilitiesModel) -> bool {
        &&& opt_valid::<TextDocumentSyncClientCapabilities>(m.synchronization)
        &&& opt_valid::<DynamicRegistrationClientCapabilities>(m.references)
        &&& opt_valid::<DynamicRegistrationClientCapabilities>(m.document_highlight)
        &&& opt_valid::<GotoCapability>(m.declaration)
        &&& opt_valid::<GotoCapability>(m.definition)
        &&& opt_valid::<GotoCapability>(m.type_definition)
        &&& opt_valid::<GotoCapability>(m.implementation)
        &&& opt_valid::<CodeActionClientCapabilities>(m.code_action)
        &&& opt_valid::<PublishDiagnosticsClientCapabilities>(m.publish_diagnostics)
    }

    #[verifier::spinoff_prover]
    #[verifier::rlimit(100)]
    /// The members of a value, written between members of other names, read back as the value.
    pub proof fn lemma_fields_round_trip(m: TextDocumentClientCapabilitiesModel, pre: Seq<(Seq<char>, JVal)>, post: Seq<(Seq<char>, JVal)>)
        requires
            Self::fields_valid(m),
            forall|k: Seq<char>| Self::uses_key(k) ==> (#[trigger] lookup(pre, k)) is None,
            forall|k: Seq<char>| Self::uses_key(k) ==> (#[trigger] lookup(post, k)) is None,
        ensures
            Self::fields_from(pre + Self::fields_json(m) + post) == Ok::<TextDocumentClientCapabilitiesModel, DecodeError>(m),
    {
        broadcast use group_lookup;
        reveal(TextDocumentClientCapabilities::fields_from);
        reveal_strlit("synchronization");
        reveal_strlit("references");
        reveal_strlit("documentHighlight");
        reveal_strlit("declaration");
        reveal_strlit("definition");
        reveal_strlit("typeDefinition");
        reveal_strlit("implementation");
        reveal_strlit("codeAction");
        reveal_strlit("publishDiagnostics");
        assert("synchronization"@.len() == 15);
        assert("references"@.len() == 10);
        assert("documentHighlight"@.len() == 17);
        assert("declaration"@.len() == 11);
        assert("definition"@.len() == 10);
        assert("typeDefinition"@.len() == 14);
        assert("implementation"@.len() == 14);
        assert("codeAction"@.len() == 10);
        assert("publishDiagnostics"@.len() == 18);
        assert("references"@[0] != "definition"@[0]);
        assert("references"@[0] != "codeAction"@[0]);
        assert("definition"@[0] != "codeAction"@[0]);
        assert("typeDefinition"@[0] != "implementation"@[0]);
        if let Some(x) = m.synchronization {
            TextDocumentSyncClientCapabilities::lemma_round_trip(x);
        }
        if let Some(x) = m.references {
            DynamicRegistrationClientCapabilities::lemma_round_trip(x);
        }
        if let Some(x) = m.document_highlight {
            DynamicRegistrationClientCapabilities::lemma_round_trip(x);
        }
        if let Some(x) = m.declaration {
            GotoCapability::lemma_round_trip(x);
        }
        if let Some(x) = m.definition {
            GotoCapability::lemma_round_trip(x);
        }
        if let Some(x) = m.type_definition {
            GotoCapability::lemma_round_trip(x);
        }
        if let Some(x) = m.implementation {
            GotoCapability::lemma_round_trip(x);
        }
        if let Some(x) = m.code_action {
            CodeActionClientCapabilities::lemma_round_trip(x);
        }
        if let Some(x) = m.publish_diagnostics {
            PublishDiagnosticsClientCapabilities::lemma_round_trip(x);
        }
    }

    /// Members with names that the type does not read change nothing.
    #[verifier::spinoff_prover]
    #[verifier::rlimit(100)]
    pub proof fn lemma_unknown_key(ms: Seq<(Seq<char>, JVal)>, k: Seq<char>, v: JVal)
        requires
            !Self::uses_key(k),
        ensures
            Self::fields_from(ms + member(k, v)) == Self::fields_from(ms),
    {
        broadcast use group_lookup;
        reveal(TextDocumentClientCapabilities::fields_from);
    }

    /// The member names that the type reads.
    pub open spec fn uses_key(k: Seq<char>) -> bool {
        k == "synchronization"@ || k == "references"@ || k == "documentHighlight"@ || k == "declaration"@ || k == "definition"@ || k == "typeDefinition"@ || k == "implementation"@ || k == "codeAction"@ || k == "publishDiagnostics"@
    }

    /// Appends the members of the value to an object under construction.
    pub fn write_fields(&self, ms: &mut Vec<(String, Json)>)
        ensures
            members(Json::Object(*final(ms))@) == members(Json::Object(*old(ms))@) + Self::fields_json(self.model()),
    {
        let ghost start = members(Json::Object(*ms)@);
        let ghost m = self.model();
        push_opt(ms, "synchronization", &self.synchronization);
        push_opt(ms, "references", &self.references);
        proof {
            lemma_concat_associative(start, opt_member::<TextDocumentSyncClientCapabilities>("synchronization"@, m.synchronization), opt_member::<DynamicRegistrationClientCapabilities>("references"@, m.references));
        }
        push_opt(ms, "documentHighlight", &self.document_highlight);
        proof {
            lemma_concat_associative(start, opt_member::<TextDocumentSyncClientCapabilities>("synchronization"@, m.synchronization) + opt_member::<DynamicRegistrationClientCapabilities>("references"@, m.references), opt_member::<DynamicRegistrationClientCapabilities>("documentHighlight"@, m.document_highlight));
        }
        push_opt(ms, "declaration", &self.declaration);
        proof {
            lemma_concat_associative(start, opt_member::<TextDocumentSyncClientCapabilities>("synchronization"@, m.synchronization) + opt_member::<DynamicRegistrationClientCapabilities>("references"@, m.references) + opt_member::<DynamicRegistrationClientCapabilities>("documentHighlight"@, m.document_highlight), opt_member::<GotoCapability>("declaration"@, m.declaration));
        }
        push_opt(ms, "definition", &self.definition);
        proof {
            lemma_concat_associative(start, opt_member::<TextDocumentSyncClientCapabilities>("synchronization"@, m.synchronization) + opt_member::<DynamicRegistrationClientCapabilities>("references"@, m.references) + opt_member::<DynamicRegistrationClientCapabilities>("documentHighlight"@, m.document_highlight) + opt_member::<GotoCapability>("declaration"@, m.declaration), opt_member::<GotoCapability>("definition"@, m.definition));
        }
        push_opt(ms, "typeDefinition", &self.type_definition);
        proof {
            lemma_concat_associative(start, opt_member::<TextDocumentSyncClientCapabilities>("synchronization"@, m.synchronization) + opt_member::<DynamicRegistrationClientCapabilities>("references"@, m.references) + opt_member::<DynamicRegistrationClientCapabilities>("documentHighlight"@, m.document_highlight) + opt_member::<GotoCapability>("declaration"@, m.declaration) + opt_member::<GotoCapability>("definition"@, m.definition), opt_member::<GotoCapability>("typeDefinition"@, m.type_definition));
        }
        push_opt(ms, "implementation", &self.implementation);
        proof {
            lemma_concat_associative(start, opt_member::<TextDocumentSyncClientCapabilities>("synchronization"@, m.synchronization) + opt_member::<DynamicRegistrationClientCapabilities>("references"@, m.references) + opt_member::<DynamicRegistrationClientCapabilities>("documentHighlight"@, m.document_highlight) + opt_member::<GotoCapability>("declaration"@, m.declaration) + opt_member::<GotoCapability>("definition"@, m.definition) + opt_member::<GotoCapability>("typeDefinition"@, m.type_definition), opt_member::<GotoCapability>("implementation"@, m.implementation));
        }
        push_opt(ms, "codeAction", &self.code_action);
        proof {
            lemma_concat_associative(start, opt_member::<TextDocumentSyncClientCapabilities>("synchronization"@, m.synchronization) + opt_member::<DynamicRegistrationClientCapabilities>("references"@, m.references) + opt_member::<DynamicRegistrationClientCapabilities>("documentHighlight"@, m.document_highlight) + opt_member::<GotoCapability>("declaration"@, m.declaration) + opt_member::<GotoCapability>("definition"@, m.definition) + opt_member::<GotoCapability>("typeDefinition"@, m.type_definition) + opt_member::<GotoCapability>("implementation"@, m.implementation), opt_member::<CodeActionClientCapabilities>("codeAction"@, m.code_action));
        }
        push_opt(ms, "publishDiagnostics", &self.publish_diagnostics);
        proof {
            lemma_concat_associative(start, opt_member::<TextDocumentSyncClientCapabilities>("synchronization"@, m.synchronization) + opt_member::<DynamicRegistrationClientCapabilities>("references"@, m.references) + opt_member::<DynamicRegistrationClientCapabilities>("documentHighlight"@, m.document_highlight) + opt_member::<GotoCapability>("declaration"@, m.declaration) + opt_member::<GotoCapability>("definition"@, m.definition) + opt_member::<GotoCapability>("typeDefinition"@, m.type_definition) + opt_member::<GotoCapability>("implementation"@, m.implementation) + opt_member::<CodeActionClientCapabilities>("codeAction"@, m.code_action), opt_member::<PublishDiagnosticsClientCapabilities>("publishDiagnostics"@, m.publish_diagnostics));
        }
    }

    /// Reads a value from the members of an object.
    pub fn read_fields(ms: &Vec<(String, Json)>) -> (r: Result<Self, DecodeError>)
        ensures
            match r {
                Ok(v) => Self::fields_from(members(Json::Object(*ms)@)) == Ok::<TextDocumentClientCapabilitiesModel, DecodeError>(v.model()),
                Err(e) => Self::fields_from(members(Json::Object(*ms)@)) == Err::<TextDocumentClientCapabilitiesModel, DecodeError>(e),
            },
    {
        proof {
            reveal(TextDocumentClientCapabilities::fields_from);
        }
        let synchronization = match read_opt::<TextDocumentSyncClientCapabilities>(ms, "synchronization") {
            Ok(v) => v,
            Err(e) => return Err(e),
        };
        let references = match read_opt::<DynamicRegistrationClientCapabilities>(ms, "references") {
            Ok(v) => v,
            Err(e) => return Err(e),
        };
        let document_highlight = match read_opt::<DynamicRegistrationClientCapabilities>(ms, "documentHighlight") {
            Ok(v) => v,
            Err(e) => return Err(e),
        };
        let declaration = match read_opt::<GotoCapability>(ms, "declaration") {
            Ok(v) => v,
            Err(e) => return Err(e),
        };
        let definition = match read_opt::<GotoCapability>(ms, "definition") {
            Ok(v) => v,
            Err(e) => return Err(e),
        };
        let type_definition = match read_opt::<GotoCapability>(ms, "typeDefinition") {
            Ok(v) => v,
            Err(e) => return Err(e),
        };
        let implementation = match read_opt::<GotoCapability>(ms, "implementation") {
            Ok(v) => v,
            Err(e) => return Err(e),
        };
        let code_action = match read_opt::<CodeActionClientCapabilities>(ms, "codeAction") {
            Ok(v) => v,
            Err(e) => return Err(e),
        };
        let publish_diagnostics = match read_opt::<PublishDiagnosticsClientCapabilities>(ms, "publishDiagnostics") {
            Ok(v) => v,
            Err(e) => return Err(e),
        };
        Ok(TextDocumentClientCapabilities { synchronization, references, document_highlight, declaration, definition, type_definition, implementation, code_action, publish_diagnostics })
    }
}

impl JsonCodec for TextDocumentClientCapabilities {
    type Model = TextDocumentClientCapabilitiesModel;

    open spec fn model(&self) -> TextDocumentClientCapabilitiesModel {
        TextDocumentClientCapabilitiesModel {
            synchronization: self.synchronization.model(),
            references: self.references.model(),
            document_highlight: self.document_highlight.model(),
            declaration: self.declaration.model(),
            definition: self.definition.model(),
            type_definition: self.type_definition.model(),
            implementation: self.implementation.model(),
            code_action: self.code_action.model(),
            publish_diagnostics: self.publish_diagnostics.model(),
        }
    }

    open spec fn encode(m: TextDocumentClientCapabilitiesModel) -> JVal {
        JVal::Obj(Self::fields_json(m))
    }

    open spec fn decode(j: JVal) -> Result<TextDocumentClientCapabilitiesModel, DecodeError> {
        match j {
            JVal::Obj(ms) => Self::fields_from(ms),
            _ => Err(DecodeError::WrongShape),
        }
    }

    open spec fn valid(m: TextDocumentClientCapabilitiesModel) -> bool {
        Self::fields_valid(m)
    }

    fn to_json(&self) -> (r: Json) {
        let mut ms = new_object();
        self.write_fields(&mut ms);
        Json::Object(ms)
    }

    fn from_json(j: &Json) -> (r: Result<Self, DecodeError>) {
        match j {
            Json::Object(ms) => Self::read_fields(ms),
            _ => Err(DecodeError::WrongShape),
        }
    }

    proof fn lemma_round_trip(m: TextDocumentClientCapabilitiesModel) {
        Self::lemma_fields_round_trip(m, Seq::empty(), Seq::empty());
        assert(Seq::empty() + Self::fields_json(m) + Seq::empty() =~= Self::fields_json(m));
    }

}

/// How a client handles stale requests.
#[derive(Clone, Debug, Default, PartialEq, Eq)]
pub struct StaleRequestSupportClientCapabilities {
    pub cancel: bool,
    pub retry_on_content_modified: Vec<String>,
}

/// The mathematical value of a [`StaleRequestSupportClientCapabilities`].
pub struct StaleRequestSupportClientCapabilitiesModel {
    pub cancel: bool,
    pub retry_on_content_modified: Seq<Seq<char>>,
}

impl StaleRequestSupportClientCapabilities {
    /// The members that a value contributes to the object it is written in.
    pub open spec fn fields_json(m: StaleRequestSupportClientCapabilitiesModel) -> Seq<(Seq<char>, JVal)> {
        member("cancel"@, bool::encode(m.cancel))
            + member("retryOnContentModified"@, <Vec<String>>::encode(m.retry_on_content_modified))
    }

    /// Reads a value from the members of an object; other members are ignored.
    #[verifier::opaque]
    pub open spec fn fields_from(ms: Seq<(Seq<char>, JVal)>) -> Result<StaleRequestSupportClientCapabilitiesModel, DecodeError> {
        match req_field::<bool>(ms, "cancel"@) {
            Err(e) => Err(e),
            Ok(cancel) => {
                match req_field::<Vec<String>>(ms, "retryOnContentModified"@) {
                    Err(e) => Err(e),
                    Ok(retry_on_content_modified) => {
                        Ok(StaleRequestSupportClientCapabilitiesModel { cancel, retry_on_content_modified })
                    },
                }
            },
        }
    }

    /// The models that values can have.
    pub open spec fn fields_valid(m: StaleRequestSupportClientCapabilitiesModel) -> bool {
        &&& bool::valid(m.cancel)
        &&& <Vec<String>>::valid(m.retry_on_content_modified)
    }

    /// The members of a value, written between members of other names, read back as the value.
    pub proof fn lemma_fields_round_trip(m: StaleRequestSupportClientCapabilitiesModel, pre: Seq<(Seq<char>, JVal)>, post: Seq<(Seq<char>, JVal)>)
        requires
            Self::fields_valid(m),
            forall|k: Seq<char>| Self::uses_key(k) ==> (#[trigger] lookup(pre, k)) is None,
            forall|k: Seq<char>| Self::uses_key(k) ==> (#[trigger] lookup(post, k)) is None,
        ensures
            Self::fields_from(pre + Self::fields_json(m) + post) == Ok::<StaleRequestSupportClientCapabilitiesModel, DecodeError>(m),
    {
        broadcast use group_lookup;
        reveal(StaleRequestSupportClientCapabilities::fields_from);
        reveal_strlit("cancel");
        reveal_strlit("retryOnContentModified");
        assert("cancel"@.len() == 6);
        assert("retryOnContentModified"@.len() == 22);
        bool::lemma_round_trip(m.cancel);
        <Vec<String>>::lemma_round_trip(m.retry_on_content_modified);
    }

    /// Members with names that the type does not read change nothing.
    pub proof fn lemma_unknown_key(ms: Seq<(Seq<char>, JVal)>, k: Seq<char>, v: JVal)
        requires
            !Self::uses_key(k),
        ensures
            Self::fields_from(ms + member(k, v)) == Self::fields_from(ms),
    {
        broadcast use group_lookup;
        reveal(StaleRequestSupportClientCapabilities::fields_from);
    }

    /// The member names that the type reads.
    pub open spec fn uses_key(k: Seq<char>) -> bool {
        k == "cancel"@ || k == "retryOnContentModified"@
    }

    /// Appends the members of the value to an object under construction.
    pub fn write_fields(&self, ms: &mut Vec<(String, Json)>)
        ensures
            members(Json::Object(*final(ms))@) == members(Json::Object(*old(ms))@) + Self::fields_json(self.model()),
    {
        let ghost start = members(Json::Object(*ms)@);
        let ghost m = self.model();
        push_member(ms, "cancel", self.cancel.to_json());
        push_member(ms, "retryOnContentModified", self.retry_on_content_modified.to_json());
        proof {
            lemma_concat_associative(start, member("cancel"@, bool::encode(m.cancel)), member("retryOnContentModified"@, <Vec<String>>::encode(m.retry_on_content_modified)));
        }
    }

    /// Reads a value from the members of an object.
    pub fn read_fields(ms: &Vec<(String, Json)>) -> (r: Result<Self, DecodeError>)
        ensures
            match r {
                Ok(v) => Self::fields_from(members(Json::Object(*ms)@)) == Ok::<StaleRequestSupportClientCapabilitiesModel, DecodeError>(v.model()),
                Err(e) => Self::fields_from(members(Json::Object(*ms)@)) == Err::<StaleRequestSupportClientCapabilitiesModel, DecodeError>(e),
            },
    {
        proof {
            reveal(StaleRequestSupportClientCapabilities::fields_from);
        }
        let cancel = match read_req::<bool>(ms, "cancel") {
            Ok(v) => v,
            Err(e) => return Err(e),
        };
        let retry_on_content_modified = match read_req::<Vec<String>>(ms, "retryOnContentModified") {
            Ok(v) => v,
            Err(e) => return Err(e),
        };
        Ok(StaleRequestSupportClientCapabilities { cancel, retry_on_content_modified })
    }
}

impl JsonCodec for StaleRequestSupportClientCapabilities {
    type Model = StaleRequestSupportClientCapabilitiesModel;

    open spec fn model(&self) -> StaleRequestSupportClientCapabilitiesModel {
        StaleRequestSupportClientCapabilitiesModel {
            cancel: self.cancel.model(),
            retry_on_content_modified: self.retry_on_content_modified.model(),
        }
    }

    open spec fn encode(m: StaleRequestSupportClientCapabilitiesModel) -> JVal {
        JVal::Obj(Self::fields_json(m))
    }

    open spec fn decode(j: JVal) -> Result<StaleRequestSupportClientCapabilitiesModel, DecodeError> {
        match j {
            JVal::Obj(ms) => Self::fields_from(ms),
            _ => Err(DecodeError::WrongShape),
        }
    }

    open spec fn valid(m: StaleRequestSupportClientCapabilitiesModel) -> bool {
        Self::fields_valid(m)
    }

    fn to_json(&self) -> (r: Json) {
        let mut ms = new_object();
        self.write_fields(&mut ms);
        Json::Object(ms)
    }

    fn from_json(j: &Json) -> (r: Result<Self, DecodeError>) {
        match j {
            Json::Object(ms) => Self::read_fields(ms),
            _ => Err(DecodeError::WrongShape),
        }
    }

    proof fn lemma_round_trip(m: StaleRequestSupportClientCapabilitiesModel) {
        Self::lemma_fields_round_trip(m, Seq::empty(), Seq::empty());
        assert(Seq::empty() + Self::fields_json(m) + Seq::empty() =~= Self::fields_json(m));
    }

}

/// The regular expression engine a client uses.
#[derive(Clone, Debug, Default, PartialEq, Eq)]
pub struct RegularExpressionsClientCapabilities {
    pub engine: String,
    pub version: Option<String>,
}

/// The mathematical value of a [`RegularExpressionsClientCapabilities`].
pub struct RegularExpressionsClientCapabilitiesModel {
    pub engine: Seq<char>,
    pub version: Option<Seq<char>>,
}

impl RegularExpressionsClientCapabilities {
    /// The members that a value contributes to the object it is written in.
    pub open spec fn fields_json(m: RegularExpressionsClientCapabilitiesModel) -> Seq<(Seq<char>, JVal)> {
        member("engine"@, String::encode(m.engine))
            + opt_member::<String>("version"@, m.version)
    }

    /// Reads a value from the members of an object; other members are ignored.
    #[verifier::opaque]
    pub open spec fn fields_from(ms: Seq<(Seq<char>, JVal)>) -> Result<RegularExpressionsClientCapabilitiesModel, DecodeError> {
        match req_field::<String>(ms, "engine"@) {
            Err(e) => Err(e),
            Ok(engine) => {
                match opt_field::<String>(ms, "version"@) {
                    Err(e) => Err(e),
                    Ok(version) => {
                        Ok(RegularExpressionsClientCapabilitiesModel { engine, version })
                    },
                }
            },
        }
    }

    /// The models that values can have.
    pub open spec fn fields_valid(m: RegularExpressionsClientCapabilitiesModel) -> bool {
        &&& String::valid(m.engine)
        &&& opt_valid::<String>(m.version)
    }

    /// The members of a value, written between members of other names, read back as the value.
    pub proof fn lemma_fields_round_trip(m: RegularExpressionsClientCapabilitiesModel, pre: Seq<(Seq<char>, JVal)>, post: Seq<(Seq<char>, JVal)>)
        requires
            Self::fields_valid(m),
            forall|k: Seq<char>| Self::uses_key(k) ==> (#[trigger] lookup(pre, k)) is None,
            forall|k: Seq<char>| Self::uses_key(k) ==> (#[trigger] lookup(post, k)) is None,
        ensures
            Self::fields_from(pre + Self::fields_json(m) + post) == Ok::<RegularExpressionsClientCapabilitiesModel, DecodeError>(m),
    {
        broadcast use group_lookup;
        reveal(RegularExpressionsClientCapabilities::fields_from);
        reveal_strlit("engine");
        reveal_strlit("version");
        assert("engine"@.len() == 6);
        assert("version"@.len() == 7);
        String::lemma_round_trip(m.engine);
        if let Some(x) = m.version {
            String::lemma_round_trip(x);
        }
    }

    /// Members with names that the type does not read change nothing.
    pub proof fn lemma_unknown_key(ms: Seq<(Seq<char>, JVal)>, k: Seq<char>, v: JVal)
        requires
            !Self::uses_key(k),
        ensures
            Self::fields_from(ms + member(k, v)) == Self::fields_from(ms),
    {
        broadcast use group_lookup;
        reveal(RegularExpressionsClientCapabilities::fields_from);
    }

    /// The member names that the type reads.
    pub open spec fn uses_key(k: Seq<char>) -> bool {
        k == "engine"@ || k == "version"@
    }

    /// Appends the members of the value to an object under construction.
    pub fn write_fields(&self, ms: &mut Vec<(String, Json)>)
        ensures
            members(Json::Object(*final(ms))@) == members(Json::Object(*old(ms))@) + Self::fields_json(self.model()),
    {
        let ghost start = members(Json::Object(*ms)@);
        let ghost m = self.model();
        push_member(ms, "engine", self.engine.to_json());
        push_opt(ms, "version", &self.version);
        proof {
            lemma_concat_associative(start, member("engine"@, String::encode(m.engine)), opt_member::<String>("version"@, m.version));
        }
    }

    /// Reads a value from the members of an object.
    pub fn read_fields(ms: &Vec<(String, Json)>) -> (r: Result<Self, DecodeError>)
        ensures
            match r {
                Ok(v) => Self::fields_from(members(Json::Object(*ms)@)) == Ok::<RegularExpressionsClientCapabilitiesModel, DecodeError>(v.model()),
                Err(e) => Self::fields_from(members(Json::Object(*ms)@)) == Err::<RegularExpressionsClientCapabilitiesModel, DecodeError>(e),
            },
    {
        proof {
            reveal(RegularExpressionsClientCapabilities::fields_from);
        }
        let engine = match read_req::<String>(ms, "engine") {
            Ok(v) => v,
            Err(e) => return Err(e),
        };
        let version = match read_opt::<String>(ms, "version") {
            Ok(v) => v,
            Err(e) => return Err(e),
        };
        Ok(RegularExpressionsClientCapabilities { engine, version })
    }
}

impl JsonCodec for RegularExpressionsClientCapabilities {
    type Model = RegularExpressionsClientCapabilitiesModel;

    open spec fn model(&self) -> RegularExpressionsClientCapabilitiesModel {
        RegularExpressionsClientCapabilitiesModel {
            engine: self.engine.model(),
            version: self.version.model(),
        }
    }

    open spec fn encode(m: RegularExpressionsClientCapabilitiesModel) -> JVal {
        JVal::Obj(Self::fields_json(m))
    }

    open spec fn decode(j: JVal) -> Result<RegularExpressionsClientCapabilitiesModel, DecodeError> {
        match j {
            JVal::Obj(ms) => Self::fields_from(ms),
            _ => Err(DecodeError::WrongShape),
        }
    }

    open spec fn valid(m: RegularExpressionsClientCapabilitiesModel) -> bool {
        Self::fields_valid(m)
    }

    fn to_json(&self) -> (r: Json) {
        let mut ms = new_object();
        self.write_fields(&mut ms);
        Json::Object(ms)
    }

    fn from_json(j: &Json) -> (r: Result<Self, DecodeError>) {
        match j {
            Json::Object(ms) => Self::read_fields(ms),
            _ => Err(DecodeError::WrongShape),
        }
    }

    proof fn lemma_round_trip(m: RegularExpressionsClientCapabilitiesModel) {
        Self::lemma_fields_round_trip(m, Seq::empty(), Seq::empty());
        assert(Seq::empty() + Self::fields_json(m) + Seq::empty() =~= Self::fields_json(m));
    }

}

/// The Markdown parser a client uses.
#[derive(Clone, Debug, Default, PartialEq, Eq)]
pub struct MarkdownClientCapabilities {
    pub parser: String,
    pub version: Option<String>,
    pub allowed_tags: Option<Vec<String>>,
}

/// The mathematical value of a [`MarkdownClientCapabilities`].
pub struct MarkdownClientCapabilitiesModel {
    pub parser: Seq<char>,
    pub version: Option<Seq<char>>,
    pub allowed_tags: Option<Seq<Seq<char>>>,
}

impl MarkdownClientCapabilities {
    /// The members that a value contributes to the object it is written in.
    pub open spec fn fields_json(m: MarkdownClientCapabilitiesModel) -> Seq<(Seq<char>, JVal)> {
        member("parser"@, String::encode(m.parser))
            + opt_member::<String>("version"@, m.version)
            + opt_member::<Vec<String>>("allowedTags"@, m.allowed_tags)
    }

    /// Reads a value from the members of an object; other members are ignored.
    #[verifier::opaque]
    pub open spec fn fields_from(ms: Seq<(Seq<char>, JVal)>) -> Result<MarkdownClientCapabilitiesModel, DecodeError> {
        match req_field::<String>(ms, "parser"@) {
            Err(e) => Err(e),
            Ok(parser) => {
                match opt_field::<String>(ms, "version"@) {
                    Err(e) => Err(e),
                    Ok(version) => {
                        match opt_field::<Vec<String>>(ms, "allowedTags"@) {
                            Err(e) => Err(e),
                            Ok(allowed_tags) => {
                                Ok(MarkdownClientCapabilitiesModel { parser, version, allowed_tags })
                            },
                        }
                    },
                }
            },
        }
    }

    /// The models that values can have.
    pub open spec fn fields_valid(m: MarkdownClientCapabilitiesModel) -> bool {
        &&& String::valid(m.parser)
        &&& opt_valid::<String>(m.version)
        &&& opt_valid::<Vec<String>>(m.allowed_tags)
    }

    /// The members of a value, written between members of other names, read back as the value.
    pub proof fn lemma_fields_round_trip(m: MarkdownClientCapabilitiesModel, pre: Seq<(Seq<char>, JVal)>, post: Seq<(Seq<char>, JVal)>)
        requires
            Self::fields_valid(m),
            forall|k: Seq<char>| Self::uses_key(k) ==> (#[trigger] lookup(pre, k)) is None,
            forall|k: Seq<char>| Self::uses_key(k) ==> (#[trigger] lookup(post, k)) is None,
        ensures
            Self::fields_from(pre + Self::fields_json(m) + post) == Ok::<MarkdownClientCapabilitiesModel, DecodeError>(m),
    {
        broadcast use group_lookup;
        reveal(MarkdownClientCapabilities::fields_from);
        reveal_strlit("parser");
        reveal_strlit("version");
        reveal_strlit("allowedTags");
        assert("parser"@.len() == 6);
        assert("version"@.len() == 7);
        assert("allowedTags"@.len() == 11);
        String::lemma_round_trip(m.parser);
        if let Some(x) = m.version {
            String::lemma_round_trip(x);
        }
        if let Some(x) = m.allowed_tags {
            <Vec<String>>::lemma_round_trip(x);
        }
    }

    /// Members with names that the type does not read change nothing.
    pub proof fn lemma_unknown_key(ms: Seq<(Seq<char>, JVal)>, k: Seq<char>, v: JVal)
        requires
            !Self::uses_key(k),
        ensures
            Self::fields_from(ms + member(k, v)) == Self::fields_from(ms),
    {
        broadcast use group_lookup;
        reveal(MarkdownClientCapabilities::fields_from);
    }

    /// The member names that the type reads.
    pub open spec fn uses_key(k: Seq<char>) -> bool {
        k == "parser"@ || k == "version"@ || k == "allowedTags"@
    }

    /// Appends the members of the value to an object under construction.
    pub fn write_fields(&self, ms: &mut Vec<(String, Json)>)
        ensures
            members(Json::Object(*final(ms))@) == members(Json::Object(*old(ms))@) + Self::fields_json(self.model()),
    {
        let ghost start = members(Json::Object(*ms)@);
        let ghost m = self.model();
        push_member(ms, "parser", self.parser.to_json());
        push_opt(ms, "version", &self.version);
        proof {
            lemma_concat_associative(start, member("parser"@, String::encode(m.parser)), opt_member::<String>("version"@, m.version));
        }
        push_opt(ms, "allowedTags", &self.allowed_tags);
        proof {
            lemma_concat_associative(start, member("parser"@, String::encode(m.parser)) + opt_member::<String>("version"@, m.version), opt_member::<Vec<String>>("allowedTags"@, m.allowed_tags));
        }
    }

    /// Reads a value from the members of an object.
    pub fn read_fields(ms: &Vec<(String, Json)>) -> (r: Result<Self, DecodeError>)
        ensures
            match r {
                Ok(v) => Self::fields_from(members(Json::Object(*ms)@)) == Ok::<MarkdownClientCapabilitiesModel, DecodeError>(v.model()),
                Err(e) => Self::fields_from(members(Json::Object(*ms)@)) == Err::<MarkdownClientCapabilitiesModel, DecodeError>(e),
            },
    {
        proof {
            reveal(MarkdownClientCapabilities::fields_from);
        }
        let parser = match read_req::<String>(ms, "parser") {
            Ok(v) => v,
            Err(e) => return Err(e),
        };
        let version = match read_opt::<String>(ms, "version") {
            Ok(v) => v,
            Err(e) => return Err(e),
        };
        let allowed_tags = match read_opt::<Vec<String>>(ms, "allowedTags") {
            Ok(v) => v,
            Err(e) => return Err(e),
        };
        Ok(MarkdownClientCapabilities { parser, version, allowed_tags })
    }
}

impl JsonCodec for MarkdownClientCapabilities {
    type Model = MarkdownClientCapabilitiesModel;

    open spec fn model(&self) -> MarkdownClientCapabilitiesModel {
        MarkdownClientCapabilitiesModel {
            parser: self.parser.model(),
            version: self.version.model(),
            allowed_tags: self.allowed_tags.model(),
        }
    }

    open spec fn encode(m: MarkdownClientCapabilitiesModel) -> JVal {
        JVal::Obj(Self::fields_json(m))
    }

    open spec fn decode(j: JVal) -> Result<MarkdownClientCapabilitiesModel, DecodeError> {
        match j {
            JVal::Obj(ms) => Self::fields_from(ms),
            _ => Err(DecodeError::WrongShape),
        }
    }

    open spec fn valid(m: MarkdownClientCapabilitiesModel) -> bool {
        Self::fields_valid(m)
    }

    fn to_json(&self) -> (r: Json) {
        let mut ms = new_object();
        self.write_fields(&mut ms);
        Json::Object(ms)
    }

    fn from_json(j: &Json) -> (r: Result<Self, DecodeError>) {
        match j {
            Json::Object(ms) => Self::read_fields(ms),
            _ => Err(DecodeError::WrongShape),
        }
    }

    proof fn lemma_round_trip(m: MarkdownClientCapabilitiesModel) {
        Self::lemma_fields_round_trip(m, Seq::empty(), Seq::empty());
        assert(Seq::empty() + Self::fields_json(m) + Seq::empty() =~= Self::fields_json(m));
    }

}

/// General client capabilities.
#[derive(Clone, Debug, Default, PartialEq, Eq)]
pub struct GeneralClientCapabilities {
    pub regular_expressions: Option<RegularExpressionsClientCapabilities>,
    pub markdown: Option<MarkdownClientCapabilities>,
    pub stale_request_support: Option<StaleRequestSupportClientCapabilities>,
    /// The position encodings the client supports, in order of preference.
    pub position_encodings: Option<Vec<PositionEncodingKind>>,
}

/// The mathematical value of a [`GeneralClientCapabilities`].
pub struct GeneralClientCapabilitiesModel {
    pub regular_expressions: Option<RegularExpressionsClientCapabilitiesModel>,
    pub markdown: Option<MarkdownClientCapabilitiesModel>,
    pub stale_request_support: Option<StaleRequestSupportClientCapabilitiesModel>,
    pub position_encodings: Option<Seq<Seq<char>>>,
}

impl GeneralClientCapabilities {
    /// The members that a value contributes to the object it is written in.
    pub open spec fn fields_json(m: GeneralClientCapabilitiesModel) -> Seq<(Seq<char>, JVal)> {
        opt_member::<RegularExpressionsClientCapabilities>("regularExpressions"@, m.regular_expressions)
            + opt_member::<MarkdownClientCapabilities>("markdown"@, m.markdown)
            + opt_member::<StaleRequestSupportClientCapabilities>("staleRequestSupport"@, m.stale_request_support)
            + opt_member::<Vec<PositionEncodingKind>>("positionEncodings"@, m.position_encodings)
    }

    /// Reads a value from the members of an object; other members are ignored.
    #[verifier::opaque]
    pub open spec fn fields_from(ms: Seq<(Seq<char>, JVal)>) -> Result<GeneralClientCapabilitiesModel, DecodeError> {
        match opt_field::<RegularExpressionsClientCapabilities>(ms, "regularExpressions"@) {
            Err(e) => Err(e),
            Ok(regular_expressions) => {
                match opt_field::<MarkdownClientCapabilities>(ms, "markdown"@) {
                    Err(e) => Err(e),
                    Ok(markdown) => {
                        match opt_field::<StaleRequestSupportClientCapabilities>(ms, "staleRequestSupport"@) {
                            Err(e) => Err(e),
                            Ok(stale_request_support) => {
                                match opt_field::<Vec<PositionEncodingKind>>(ms, "positionEncodings"@) {
                                    Err(e) => Err(e),
                                    Ok(position_encodings) => {
                                        Ok(GeneralClientCapabilitiesModel { regular_expressions, markdown, stale_request_support, position_encodings })
                                    },
                                }
                            },
                        }
                    },
                }
            },
        }
    }

    /// The models that values can have.
    pub open spec fn fields_valid(m: GeneralClientCapabilitiesModel) -> bool {
        &&& opt_valid::<RegularExpressionsClientCapabilities>(m.regular_expressions)
        &&& opt_valid::<MarkdownClientCapabilities>(m.markdown)
        &&& opt_valid::<StaleRequestSupportClientCapabilities>(m.stale_request_support)
        &&& opt_valid::<Vec<PositionEncodingKind>>(m.position_encodings)
    }

    /// The members of a value, written between members of other names, read back as the value.
    pub proof fn lemma_fields_round_trip(m: GeneralClientCapabilitiesModel, pre: Seq<(Seq<char>, JVal)>, post: Seq<(Seq<char>, JVal)>)
        requires
            Self::fields_valid(m),
            forall|k: Seq<char>| Self::uses_key(k) ==> (#[trigger] lookup(pre, k)) is None,
            forall|k: Seq<char>| Self::uses_key(k) ==> (#[trigger] lookup(post, k)) is None,
        ensures
            Self::fields_from(pre + Self::fields_json(m) + post) == Ok::<GeneralClientCapabilitiesModel, DecodeError>(m),
    {
        broadcast use group_lookup;
        reveal(GeneralClientCapabilities::fields_from);
        reveal_strlit("regularExpressions");
        reveal_strlit("markdown");
        reveal_strlit("staleRequestSupport");
        reveal_strlit("positionEncodings");
        assert("regularExpressions"@.len() == 18);
        assert("markdown"@.len() == 8);
        assert("staleRequestSupport"@.len() == 19);
        assert("positionEncodings"@.len() == 17);
        if let Some(x) = m.regular_expressions {
            RegularExpressionsClientCapabilities::lemma_round_trip(x);
        }
        if let Some(x) = m.markdown {
            MarkdownClientCapabilities::lemma_round_trip(x);
        }
        if let Some(x) = m.stale_request_support {
            StaleRequestSupportClientCapabilities::lemma_round_trip(x);
        }
        if let Some(x) = m.position_encodings {
            <Vec<PositionEncodingKind>>::lemma_round_trip(x);
        }
    }

    /// Members with names that the type does not read change nothing.
    pub proof fn lemma_unknown_key(ms: Seq<(Seq<char>, JVal)>, k: Seq<char>, v: JVal)
        requires
            !Self::uses_key(k),
        ensures
            Self::fields_from(ms + member(k, v)) == Self::fields_from(ms),
    {
        broadcast use group_lookup;
        reveal(GeneralClientCapabilities::fields_from);
    }

    /// The member names that the type reads.
    pub open spec fn uses_key(k: Seq<char>) -> bool {
        k == "regularExpressions"@ || k == "markdown"@ || k == "staleRequestSupport"@ || k == "positionEncodings"@
    }

    /// Appends the members of the value to an object under construction.
    pub fn write_fields(&self, ms: &mut Vec<(String, Json)>)
        ensures
            members(Json::Object(*final(ms))@) == members(Json::Object(*old(ms))@) + Self::fields_json(self.model()),
    {
        let ghost start = members(Json::Object(*ms)@);
        let ghost m = self.model();
        push_opt(ms, "regularExpressions", &self.regular_expressions);
        push_opt(ms, "markdown", &self.markdown);
        proof {
            lemma_concat_associative(start, opt_member::<RegularExpressionsClientCapabilities>("regularExpressions"@, m.regular_expressions), opt_member::<MarkdownClientCapabilities>("markdown"@, m.markdown));
        }
        push_opt(ms, "staleRequestSupport", &self.stale_request_support);
        proof {
            lemma_concat_associative(start, opt_member::<RegularExpressionsClientCapabilities>("regularExpressions"@, m.regular_expressions) + opt_member::<MarkdownClientCapabilities>("markdown"@, m.markdown), opt_member::<StaleRequestSupportClientCapabilities>("staleRequestSupport"@, m.stale_request_support));
        }
        push_opt(ms, "positionEncodings", &self.position_encodings);
        proof {
            lemma_concat_associative(start, opt_member::<RegularExpressionsClientCapabilities>("regularExpressions"@, m.regular_expressions) + opt_member::<MarkdownClientCapabilities>("markdown"@, m.markdown) + opt_member::<StaleRequestSupportClientCapabilities>("staleRequestSupport"@, m.stale_request_support), opt_member::<Vec<PositionEncodingKind>>("positionEncodings"@, m.position_encodings));
        }
    }

    /// Reads a value from the members of an object.
    pub fn read_fields(ms: &Vec<(String, Json)>) -> (r: Result<Self, DecodeError>)
        ensures
            match r {
                Ok(v) => Self::fields_from(members(Json::Object(*ms)@)) == Ok::<GeneralClientCapabilitiesModel, DecodeError>(v.model()),
                Err(e) => Self::fields_from(members(Json::Object(*ms)@)) == Err::<GeneralClientCapabilitiesModel, DecodeError>(e),
            },
    {
        proof {
            reveal(GeneralClientCapabilities::fields_from);
        }
        let regular_expressions = match read_opt::<RegularExpressionsClientCapabilities>(ms, "regularExpressions") {
            Ok(v) => v,
            Err(e) => return Err(e),
        };
        let markdown = match read_opt::<MarkdownClientCapabilities>(ms, "markdown") {
            Ok(v) => v,
            Err(e) => return Err(e),
        };
        let stale_request_support = match read_opt::<StaleRequestSupportClientCapabilities>(ms, "staleRequestSupport") {
            Ok(v) => v,
            Err(e) => return Err(e),
        };
        let position_encodings = match read_opt::<Vec<PositionEncodingKind>>(ms, "positionEncodings") {
            Ok(v) => v,
            Err(e) => return Err(e),
        };
        Ok(GeneralClientCapabilities { regular_expressions, markdown, stale_request_support, position_encodings })
    }
}

impl JsonCodec for GeneralClientCapabilities {
    type Model = GeneralClientCapabilitiesModel;

    open spec fn model(&self) -> GeneralClientCapabilitiesModel {
        GeneralClientCapabilitiesModel {
            regular_expressions: self.regular_expressions.model(),
            markdown: self.markdown.model(),
            stale_request_support: self.stale_request_support.model(),
            position_encodings: self.position_encodings.model(),
        }
    }

    open spec fn encode(m: GeneralClientCapabilitiesModel) -> JVal {
        JVal::Obj(Self::fields_json(m))
    }

    open spec fn decode(j: JVal) -> Result<GeneralClientCapabilitiesModel, DecodeError> {
        match j {
            JVal::Obj(ms) => Self::fields_from(ms),
            _ => Err(DecodeError::WrongShape),
        }
    }

    open spec fn valid(m: GeneralClientCapabilitiesModel) -> bool {
        Self::fields_valid(m)
    }

    fn to_json(&self) -> (r: Json) {
        let mut ms = new_object();
        self.write_fields(&mut ms);
        Json::Object(ms)
    }

    fn from_json(j: &Json) -> (r: Result<Self, DecodeError>) {
        match j {
            Json::Object(ms) => Self::read_fields(ms),
            _ => Err(DecodeError::WrongShape),
        }
    }

    proof fn lemma_round_trip(m: GeneralClientCapabilitiesModel) {
        Self::lemma_fields_round_trip(m, Seq::empty(), Seq::empty());
        assert(Seq::empty() + Self::fields_json(m) + Seq::empty() =~= Self::fields_json(m));
    }

}

/// The capabilities a client announces in the initialize request.
#[derive(Clone, Debug, Default, PartialEq, Eq)]
pub struct ClientCapabilities {
    pub workspace: Option<WorkspaceClientCapabilities>,
    pub text_document: Option<TextDocumentClientCapabilities>,
    pub general: Option<GeneralClientCapabilities>,
    pub experimental: Option<Json>,
}

/// The mathematical value of a [`ClientCapabilities`].
pub struct ClientCapabilitiesModel {
    pub workspace: Option<WorkspaceClientCapabilitiesModel>,
    pub text_document: Option<TextDocumentClientCapabilitiesModel>,
    pub general: Option<GeneralClientCapabilitiesModel>,
    pub experimental: Option<JVal>,
}

impl ClientCapabilities {
    /// The members that a value contributes to the object it is written in.
    pub open spec fn fields_json(m: ClientCapabilitiesModel) -> Seq<(Seq<char>, JVal)> {
        opt_member::<WorkspaceClientCapabilities>("workspace"@, m.workspace)
            + opt_member::<TextDocumentClientCapabilities>("textDocument"@, m.text_document)
            + opt_member::<GeneralClientCapabilities>("general"@, m.general)
            + opt_member::<Json>("experimental"@, m.experimental)
    }

    /// Reads a value from the members of an object; other members are ignored.
    #[verifier::opaque]
    pub open spec fn fields_from(ms: Seq<(Seq<char>, JVal)>) -> Result<ClientCapabilitiesModel, DecodeError> {
        match opt_field::<WorkspaceClientCapabilities>(ms, "workspace"@) {
            Err(e) => Err(e),
            Ok(workspace) => {
                match opt_field::<TextDocumentClientCapabilities>(ms, "textDocument"@) {
                    Err(e) => Err(e),
                    Ok(text_document) => {
                        match opt_field::<GeneralClientCapabilities>(ms, "general"@) {
                            Err(e) => Err(e),
                            Ok(general) => {
                                match opt_field::<Json>(ms, "experimental"@) {
                                    Err(e) => Err(e),
                                    Ok(experimental) => {
                                        Ok(ClientCapabilitiesModel { workspace, text_document, general, experimental })
                                    },
                                }
                            },
                        }
                    },
                }
            },
        }
    }

    /// The models that values can have.
    pub open spec fn fields_valid(m: ClientCapabilitiesModel) -> bool {
        &&& opt_valid::<WorkspaceClientCapabilities>(m.workspace)
        &&& opt_valid::<TextDocumentClientCapabilities>(m.text_document)
        &&& opt_valid::<GeneralClientCapabilities>(m.general)
        &&& opt_valid::<Json>(m.experimental)
    }

    /// The members of a value, written between members of other names, read back as the value.
    pub proof fn lemma_fields_round_trip(m: ClientCapabilitiesModel, pre: Seq<(Seq<char>, JVal)>, post: Seq<(Seq<char>, JVal)>)
        requires
            Self::fields_valid(m),
            forall|k: Seq<char>| Self::uses_key(k) ==> (#[trigger] lookup(pre, k)) is None,
            forall|k: Seq<char>| Self::uses_key(k) ==> (#[trigger] lookup(post, k)) is None,
        ensures
            Self::fields_from(pre + Self::fields_json(m) + post) == Ok::<ClientCapabilitiesModel, DecodeError>(m),
    {
        broadcast use group_lookup;
        reveal(ClientCapabilities::fields_from);
        reveal_strlit("workspace");
        reveal_strlit("textDocument");
        reveal_strlit("general");
        reveal_strlit("experimental");
        assert("workspace"@.len() == 9);
        assert("textDocument"@.len() == 12);
        assert("general"@.len() == 7);
        assert("experimental"@.len() == 12);
        assert("textDocument"@[0] != "experimental"@[0]);
        if let Some(x) = m.workspace {
            WorkspaceClientCapabilities::lemma_round_trip(x);
        }
        if let Some(x) = m.text_document {
            TextDocumentClientCapabilities::lemma_round_trip(x);
        }
        if let Some(x) = m.general {
            GeneralClientCapabilities::lemma_round_trip(x);
        }
        if let Some(x) = m.experimental {
            Json::lemma_round_trip(x);
        }
    }

    /// Members with names that the type does not read change nothing.
    pub proof fn lemma_unknown_key(ms: Seq<(Seq<char>, JVal)>, k: Seq<char>, v: JVal)
        requires
            !Self::uses_key(k),
        ensures
            Self::fields_from(ms + member(k, v)) == Self::fields_from(ms),
    {
        broadcast use group_lookup;
        reveal(ClientCapabilities::fields_from);
    }

    /// The member names that the type reads.
    pub open spec fn uses_key(k: Seq<char>) -> bool {
        k == "workspace"@ || k == "textDocument"@ || k == "general"@ || k == "experimental"@
    }

    /// Appends the members of the value to an object under construction.
    pub fn write_fields(&self, ms: &mut Vec<(String, Json)>)
        ensures
            members(Json::Object(*final(ms))@) == members(Json::Object(*old(ms))@) + Self::fields_json(self.model()),
    {
        let ghost start = members(Json::Object(*ms)@);
        let ghost m = self.model();
        push_opt(ms, "workspace", &self.workspace);
        push_opt(ms, "textDocument", &self.text_document);
        proof {
            lemma_concat_associative(start, opt_member::<WorkspaceClientCapabilities>("workspace"@, m.workspace), opt_member::<TextDocumentClientCapabilities>("textDocument"@, m.text_document));
        }
        push_opt(ms, "general", &self.general);
        proof {
            lemma_concat_associative(start, opt_member::<WorkspaceClientCapabilities>("workspace"@, m.workspace) + opt_member::<TextDocumentClientCapabilities>("textDocument"@, m.text_document), opt_member::<GeneralClientCapabilities>("general"@, m.general));
        }
        push_opt(ms, "experimental", &self.experimental);
        proof {
            lemma_concat_associative(start, opt_member::<WorkspaceClientCapabilities>("workspace"@, m.workspace) + opt_member::<TextDocumentClientCapabilities>("textDocument"@, m.text_document) + opt_member::<GeneralClientCapabilities>("general"@, m.general), opt_member::<Json>("experimental"@, m.experimental));
        }
    }

    /// Reads a value from the members of an object.
    pub fn read_fields(ms: &Vec<(String, Json)>) -> (r: Result<Self, DecodeError>)
        ensures
            match r {
                Ok(v) => Self::fields_from(members(Json::Object(*ms)@)) == Ok::<ClientCapabilitiesModel, DecodeError>(v.model()),
                Err(e) => Self::fields_from(members(Json::Object(*ms)@)) == Err::<ClientCapabilitiesModel, DecodeError>(e),
            },
    {
        proof {
            reveal(ClientCapabilities::fields_from);
        }
        let workspace = match read_opt::<WorkspaceClientCapabilities>(ms, "workspace") {
            Ok(v) => v,
            Err(e) => return Err(e),
        };
        let text_document = match read_opt::<TextDocumentClientCapabilities>(ms, "textDocument") {
            Ok(v) => v,
            Err(e) => return Err(e),
        };
        let general = match read_opt::<GeneralClientCapabilities>(ms, "general") {
            Ok(v) => v,
            Err(e) => return Err(e),
        };
        let experimental = match read_opt::<Json>(ms, "experimental") {
            Ok(v) => v,
            Err(e) => return Err(e),
        };
        Ok(ClientCapabilities { workspace, text_document, general, experimental })
    }
}

impl JsonCodec for ClientCapabilities {
    type Model = ClientCapabilitiesModel;

    open spec fn model(&self) -> ClientCapabilitiesModel {
        ClientCapabilitiesModel {
            workspace: self.workspace.model(),
            text_document: self.text_document.model(),
            general: self.general.model(),
            experimental: self.experimental.model(),
        }
    }

    open spec fn encode(m: ClientCapabilitiesModel) -> JVal {
        JVal::Obj(Self::fields_json(m))
    }

    open spec fn decode(j: JVal) -> Result<ClientCapabilitiesModel, DecodeError> {
        match j {
            JVal::Obj(ms) => Self::fields_from(ms),
            _ => Err(DecodeError::WrongShape),
        }
    }

    open spec fn valid(m: ClientCapabilitiesModel) -> bool {
        Self::fields_valid(m)
    }

    fn to_json(&self) -> (r: Json) {
        let mut ms = new_object();
        self.write_fields(&mut ms);
        Json::Object(ms)
    }

    fn from_json(j: &Json) -> (r: Result<Self, DecodeError>) {
        match j {
            Json::Object(ms) => Self::read_fields(ms),
            _ => Err(DecodeError::WrongShape),
        }
    }

    proof fn lemma_round_trip(m: ClientCapabilitiesModel) {
        Self::lemma_fields_round_trip(m, Seq::empty(), Seq::empty());
        assert(Seq::empty() + Self::fields_json(m) + Seq::empty() =~= Self::fields_json(m));
    }

}

/// Options for a feature registered statically, with an id for a later unregistration.
#[derive(Clone, Debug, Default, PartialEq, Eq)]
pub struct StaticRegistrationOptions {
    /// The id to register the request with.
    pub id: Option<String>,
}

/// The mathematical value of a [`StaticRegistrationOptions`].
pub struct StaticRegistrationOptionsModel {
    pub id: Option<Seq<char>>,
}

impl StaticRegistrationOptions {
    /// The members that a value contributes to the object it is written in.
    pub open spec fn fields_json(m: StaticRegistrationOptionsModel) -> Seq<(Seq<char>, JVal)> {
        opt_member::<String>("id"@, m.id)
    }

    /// Reads a value from the members of an object; other members are ignored.
    #[verifier::opaque]
    pub open spec fn fields_from(ms: Seq<(Seq<char>, JVal)>) -> Result<StaticRegistrationOptionsModel, DecodeError> {
        match opt_field::<String>(ms, "id"@) {
            Err(e) => Err(e),
            Ok(id) => {
                Ok(StaticRegistrationOptionsModel { id })
            },
        }
    }

    /// The models that values can have.
    pub open spec fn fields_valid(m: StaticRegistrationOptionsModel) -> bool {
        &&& opt_valid::<String>(m.id)
    }

    /// The members of a value, written between members of other names, read back as the value.
    pub proof fn lemma_fields_round_trip(m: StaticRegistrationOptionsModel, pre: Seq<(Seq<char>, JVal)>, post: Seq<(Seq<char>, JVal)>)
        requires
            Self::fields_valid(m),
            forall|k: Seq<char>| Self::uses_key(k) ==> (#[trigger] lookup(pre, k)) is None,
            forall|k: Seq<char>| Self::uses_key(k) ==> (#[trigger] lookup(post, k)) is None,
        ensures
            Self::fields_from(pre + Self::fields_json(m) + post) == Ok::<StaticRegistrationOptionsModel, DecodeError>(m),
    {
        broadcast use group_lookup;
        reveal(StaticRegistrationOptions::fields_from);
        reveal_strlit("id");
        assert("id"@.len() == 2);
        if let Some(x) = m.id {
            String::lemma_round_trip(x);
        }
    }

    /// Members with names that the type does not read change nothing.
    pub proof fn lemma_unknown_key(ms: Seq<(Seq<char>, JVal)>, k: Seq<char>, v: JVal)
        requires
            !Self::uses_key(k),
        ensures
            Self::fields_from(ms + member(k, v)) == Self::fields_from(ms),
    {
        broadcast use group_lookup;
        reveal(StaticRegistrationOptions::fields_from);
    }

    /// The member names that the type reads.
    pub open spec fn uses_key(k: Seq<char>) -> bool {
        k == "id"@
    }

    /// Appends the members of the value to an object under construction.
    pub fn write_fields(&self, ms: &mut Vec<(String, Json)>)
        ensures
            members(Json::Object(*final(ms))@) == members(Json::Object(*old(ms))@) + Self::fields_json(self.model()),
    {
        let ghost start = members(Json::Object(*ms)@);
        push_opt(ms, "id", &self.id);
        assert(members(Json::Object(*ms)@) =~= start + Self::fields_json(self.model()));
    }

    /// Reads a value from the members of an object.
    pub fn read_fields(ms: &Vec<(String, Json)>) -> (r: Result<Self, DecodeError>)
        ensures
            match r {
                Ok(v) => Self::fields_from(members(Json::Object(*ms)@)) == Ok::<StaticRegistrationOptionsModel, DecodeError>(v.model()),
                Err(e) => Self::fields_from(members(Json::Object(*ms)@)) == Err::<StaticRegistrationOptionsModel, DecodeError>(e),
            },
    {
        proof {
            reveal(StaticRegistrationOptions::fields_from);
        }
        let id = match read_opt::<String>(ms, "id") {
            Ok(v) => v,
            Err(e) => return Err(e),
        };
        Ok(StaticRegistrationOptions { id })
    }
}

impl JsonCodec for StaticRegistrationOptions {
    type Model = StaticRegistrationOptionsModel;

    open spec fn model(&self) -> StaticRegistrationOptionsModel {
        StaticRegistrationOptionsModel {
            id: self.id.model(),
        }
    }

    open spec fn encode(m: StaticRegistrationOptionsModel) -> JVal {
        JVal::Obj(Self::fields_json(m))
    }

    open spec fn decode(j: JVal) -> Result<StaticRegistrationOptionsModel, DecodeError> {
        match j {
            JVal::Obj(ms) => Self::fields_from(ms),
            _ => Err(DecodeError::WrongShape),
        }
    }

    open spec fn valid(m: StaticRegistrationOptionsModel) -> bool {
        Self::fields_valid(m)
    }

    fn to_json(&self) -> (r: Json) {
        let mut ms = new_object();
        self.write_fields(&mut ms);
        Json::Object(ms)
    }

    fn from_json(j: &Json) -> (r: Result<Self, DecodeError>) {
        match j {
            Json::Object(ms) => Self::read_fields(ms),
            _ => Err(DecodeError::WrongShape),
        }
    }

    proof fn lemma_round_trip(m: StaticRegistrationOptionsModel) {
        Self::lemma_fields_round_trip(m, Seq::empty(), Seq::empty());
        assert(Seq::empty() + Self::fields_json(m) + Seq::empty() =~= Self::fields_json(m));
    }

}

/// General text document registration options.
#[derive(Clone, Debug, Default, PartialEq, Eq)]
pub struct TextDocumentRegistrationOptions {
    /// The documents to register for; `null` means the client's selection.
    pub document_selector: Option<Vec<DocumentFilter>>,
}

/// The mathematical value of a [`TextDocumentRegistrationOptions`].
pub struct TextDocumentRegistrationOptionsModel {
    pub document_selector: Option<Seq<DocumentFilterModel>>,
}

impl TextDocumentRegistrationOptions {
    /// The members that a value contributes to the object it is written in.
    pub open spec fn fields_json(m: TextDocumentRegistrationOptionsModel) -> Seq<(Seq<char>, JVal)> {
        member("documentSelector"@, <Option<Vec<DocumentFilter>>>::encode(m.document_selector))
    }

    /// Reads a value from the members of an object; other members are ignored.
    #[verifier::opaque]
    pub open spec fn fields_from(ms: Seq<(Seq<char>, JVal)>) -> Result<TextDocumentRegistrationOptionsModel, DecodeError> {
        match nullable_field::<Vec<DocumentFilter>>(ms, "documentSelector"@) {
            Err(e) => Err(e),
            Ok(document_selector) => {
                Ok(TextDocumentRegistrationOptionsModel { document_selector })
            },
        }
    }

    /// The models that values can have.
    pub open spec fn fields_valid(m: TextDocumentRegistrationOptionsModel) -> bool {
        &&& <Option<Vec<DocumentFilter>>>::valid(m.document_selector)
    }

    /// The members of a value, written between members of other names, read back as the value.
    pub proof fn lemma_fields_round_trip(m: TextDocumentRegistrationOptionsModel, pre: Seq<(Seq<char>, JVal)>, post: Seq<(Seq<char>, JVal)>)
        requires
            Self::fields_valid(m),
            forall|k: Seq<char>| Self::uses_key(k) ==> (#[trigger] lookup(pre, k)) is None,
            forall|k: Seq<char>| Self::uses_key(k) ==> (#[trigger] lookup(post, k)) is None,
        ensures
            Self::fields_from(pre + Self::fields_json(m) + post) == Ok::<TextDocumentRegistrationOptionsModel, DecodeError>(m),
    {
        broadcast use group_lookup;
        reveal(TextDocumentRegistrationOptions::fields_from);
        reveal_strlit("documentSelector");
        assert("documentSelector"@.len() == 16);
        <Option<Vec<DocumentFilter>>>::lemma_round_trip(m.document_selector);
    }

    /// Members with names that the type does not read change nothing.
    pub proof fn lemma_unknown_key(ms: Seq<(Seq<char>, JVal)>, k: Seq<char>, v: JVal)
        requires
            !Self::uses_key(k),
        ensures
            Self::fields_from(ms + member(k, v)) == Self::fields_from(ms),
    {
        broadcast use group_lookup;
        reveal(TextDocumentRegistrationOptions::fields_from);
    }

    /// The member names that the type reads.
    pub open spec fn uses_key(k: Seq<char>) -> bool {
        k == "documentSelector"@
    }

    /// Appends the members of the value to an object under construction.
    pub fn write_fields(&self, ms: &mut Vec<(String, Json)>)
        ensures
            members(Json::Object(*final(ms))@) == members(Json::Object(*old(ms))@) + Self::fields_json(self.model()),
    {
        let ghost start = members(Json::Object(*ms)@);
        push_member(ms, "documentSelector", self.document_selector.to_json());
        assert(members(Json::Object(*ms)@) =~= start + Self::fields_json(self.model()));
    }

    /// Reads a value from the members of an object.
    pub fn read_fields(ms: &Vec<(String, Json)>) -> (r: Result<Self, DecodeError>)
        ensures
            match r {
                Ok(v) => Self::fields_from(members(Json::Object(*ms)@)) == Ok::<TextDocumentRegistrationOptionsModel, DecodeError>(v.model()),
                Err(e) => Self::fields_from(members(Json::Object(*ms)@)) == Err::<TextDocumentRegistrationOptionsModel, DecodeError>(e),
            },
    {
        proof {
            reveal(TextDocumentRegistrationOptions::fields_from);
        }
        let document_selector = match read_nullable::<Vec<DocumentFilter>>(ms, "documentSelector") {
            Ok(v) => v,
            Err(e) => return Err(e),
        };
        Ok(TextDocumentRegistrationOptions { document_selector })
    }
}

impl JsonCodec for TextDocumentRegistrationOptions {
    type Model = TextDocumentRegistrationOptionsModel;

    open spec fn model(&self) -> TextDocumentRegistrationOptionsModel {
        TextDocumentRegistrationOptionsModel {
            document_selector: self.document_selector.model(),
        }
    }

    open spec fn encode(m: TextDocumentRegistrationOptionsModel) -> JVal {
        JVal::Obj(Self::fields_json(m))
    }

    open spec fn decode(j: JVal) -> Result<TextDocumentRegistrationOptionsModel, DecodeError> {
        match j {
            JVal::Obj(ms) => Self::fields_from(ms),
            _ => Err(DecodeError::WrongShape),
        }
    }

    open spec fn valid(m: TextDocumentRegistrationOptionsModel) -> bool {
        Self::fields_valid(m)
    }

    fn to_json(&self) -> (r: Json) {
        let mut ms = new_object();
        self.write_fields(&mut ms);
        Json::Object(ms)
    }

    fn from_json(j: &Json) -> (r: Result<Self, DecodeError>) {
        match j {
            Json::Object(ms) => Self::read_fields(ms),
            _ => Err(DecodeError::WrongShape),
        }
    }

    proof fn lemma_round_trip(m: TextDocumentRegistrationOptionsModel) {
        Self::lemma_fields_round_trip(m, Seq::empty(), Seq::empty());
        assert(Seq::empty() + Self::fields_json(m) + Seq::empty() =~= Self::fields_json(m));
    }

}

/// Text document registration options with an id.
#[derive(Clone, Debug, PartialEq, Eq)]
pub struct StaticTextDocumentRegistrationOptions {
    pub document_selector: Option<Vec<DocumentFilter>>,
    pub id: Option<String>,
}

/// The mathematical value of a [`StaticTextDocumentRegistrationOptions`].
pub struct StaticTextDocumentRegistrationOptionsModel {
    pub document_selector: Option<Seq<DocumentFilterModel>>,
    pub id: Option<Seq<char>>,
}

impl StaticTextDocumentRegistrationOptions {
    /// The members that a value contributes to the object it is written in.
    pub open spec fn fields_json(m: StaticTextDocumentRegistrationOptionsModel) -> Seq<(Seq<char>, JVal)> {
        member("documentSelector"@, <Option<Vec<DocumentFilter>>>::encode(m.document_selector))
            + opt_member::<String>("id"@, m.id)
    }

    /// Reads a value from the members of an object; other members are ignored.
    #[verifier::opaque]
    pub open spec fn fields_from(ms: Seq<(Seq<char>, JVal)>) -> Result<StaticTextDocumentRegistrationOptionsModel, DecodeError> {
        match nullable_field::<Vec<DocumentFilter>>(ms, "documentSelector"@) {
            Err(e) => Err(e),
            Ok(document_selector) => {
                match opt_field::<String>(ms, "id"@) {
                    Err(e) => Err(e),
                    Ok(id) => {
                        Ok(StaticTextDocumentRegistrationOptionsModel { document_selector, id })
                    },
                }
            },
        }
    }

    /// The models that values can have.
    pub open spec fn fields_valid(m: StaticTextDocumentRegistrationOptionsModel) -> bool {
        &&& <Option<Vec<DocumentFilter>>>::valid(m.document_selector)
        &&& opt_valid::<String>(m.id)
    }

    /// The members of a value, written between members of other names, read back as the value.
    pub proof fn lemma_fields_round_trip(m: StaticTextDocumentRegistrationOptionsModel, pre: Seq<(Seq<char>, JVal)>, post: Seq<(Seq<char>, JVal)>)
        requires
            Self::fields_valid(m),
            forall|k: Seq<char>| Self::uses_key(k) ==> (#[trigger] lookup(pre, k)) is None,
            forall|k: Seq<char>| Self::uses_key(k) ==> (#[trigger] lookup(post, k)) is None,
        ensures
            Self::fields_from(pre + Self::fields_json(m) + post) == Ok::<StaticTextDocumentRegistrationOptionsModel, DecodeError>(m),
    {
        broadcast use group_lookup;
        reveal(StaticTextDocumentRegistrationOptions::fields_from);
        reveal_strlit("documentSelector");
        reveal_strlit("id");
        assert("documentSelector"@.len() == 16);
        assert("id"@.len() == 2);
        <Option<Vec<DocumentFilter>>>::lemma_round_trip(m.document_selector);
        if let Some(x) = m.id {
            String::lemma_round_trip(x);
        }
    }

    /// Members with names that the type does not read change nothing.
    pub proof fn lemma_unknown_key(ms: Seq<(Seq<char>, JVal)>, k: Seq<char>, v: JVal)
        requires
            !Self::uses_key(k),
        ensures
            Self::fields_from(ms + member(k, v)) == Self::fields_from(ms),
    {
        broadcast use group_lookup;
        reveal(StaticTextDocumentRegistrationOptions::fields_from);
    }

    /// The member names that the type reads.
    pub open spec fn uses_key(k: Seq<char>) -> bool {
        k == "documentSelector"@ || k == "id"@
    }

    /// Appends the members of the value to an object under construction.
    pub fn write_fields(&self, ms: &mut Vec<(String, Json)>)
        ensures
            members(Json::Object(*final(ms))@) == members(Json::Object(*old(ms))@) + Self::fields_json(self.model()),
    {
        let ghost start = members(Json::Object(*ms)@);
        let ghost m = self.model();
        push_member(ms, "documentSelector", self.document_selector.to_json());
        push_opt(ms, "id", &self.id);
        proof {
            lemma_concat_associative(start, member("documentSelector"@, <Option<Vec<DocumentFilter>>>::encode(m.document_selector)), opt_member::<String>("id"@, m.id));
        }
    }

    /// Reads a value from the members of an object.
    pub fn read_fields(ms: &Vec<(String, Json)>) -> (r: Result<Self, DecodeError>)
        ensures
            match r {
                Ok(v) => Self::fields_from(members(Json::Object(*ms)@)) == Ok::<StaticTextDocumentRegistrationOptionsModel, DecodeError>(v.model()),
                Err(e) => Self::fields_from(members(Json::Object(*ms)@)) == Err::<StaticTextDocumentRegistrationOptionsModel, DecodeError>(e),
            },
    {
        proof {
            reveal(StaticTextDocumentRegistrationOptions::fields_from);
        }
        let document_selector = match read_nullable::<Vec<DocumentFilter>>(ms, "documentSelector") {
            Ok(v) => v,
            Err(e) => return Err(e),
        };
        let id = match read_opt::<String>(ms, "id") {
            Ok(v) => v,
            Err(e) => return Err(e),
        };
        Ok(StaticTextDocumentRegistrationOptions { document_selector, id })
    }
}

impl JsonCodec for StaticTextDocumentRegistrationOptions {
    type Model = StaticTextDocumentRegistrationOptionsModel;

    open spec fn model(&self) -> StaticTextDocumentRegistrationOptionsModel {
        StaticTextDocumentRegistrationOptionsModel {
            document_selector: self.document_selector.model(),
            id: self.id.model(),
        }
    }

    open spec fn encode(m: StaticTextDocumentRegistrationOptionsModel) -> JVal {
        JVal::Obj(Self::fields_json(m))
    }

    open spec fn decode(j: JVal) -> Result<StaticTextDocumentRegistrationOptionsModel, DecodeError> {
        match j {
            JVal::Obj(ms) => Self::fields_from(ms),
            _ => Err(DecodeError::WrongShape),
        }
    }

    open spec fn valid(m: StaticTextDocumentRegistrationOptionsModel) -> bool {
        Self::fields_valid(m)
    }

    fn to_json(&self) -> (r: Json) {
        let mut ms = new_object();
        self.write_fields(&mut ms);
        Json::Object(ms)
    }

    fn from_json(j: &Json) -> (r: Result<Self, DecodeError>) {
        match j {
            Json::Object(ms) => Self::read_fields(ms),
            _ => Err(DecodeError::WrongShape),
        }
    }

    proof fn lemma_round_trip(m: StaticTextDocumentRegistrationOptionsModel) {
        Self::lemma_fields_round_trip(m, Seq::empty(), Seq::empty());
        assert(Seq::empty() + Self::fields_json(m) + Seq::empty() =~= Self::fields_json(m));
    }

}

/// Options of the declaration request.
#[derive(Clone, Debug, PartialEq, Eq, Structural)]
pub struct DeclarationOptions {
    pub work_done_progress_options: WorkDoneProgressOptions,
}

impl DeclarationOptions {
    /// The members that a value contributes to the object it is written in.
    pub open spec fn fields_json(m: DeclarationOptions) -> Seq<(Seq<char>, JVal)> {
        WorkDoneProgressOptions::fields_json(m.work_done_progress_options)
    }

    /// Reads a value from the members of an object; other members are ignored.
    #[verifier::opaque]
    pub open spec fn fields_from(ms: Seq<(Seq<char>, JVal)>) -> Result<DeclarationOptions, DecodeError> {
        match WorkDoneProgressOptions::fields_from(ms) {
            Err(e) => Err(e),
            Ok(work_done_progress_options) => {
                Ok(DeclarationOptions { work_done_progress_options })
            },
        }
    }

    /// The models that values can have.
    pub open spec fn fields_valid(m: DeclarationOptions) -> bool {
        &&& WorkDoneProgressOptions::fields_valid(m.work_done_progress_options)
    }

    /// The members of a value, written between members of other names, read back as the value.
    pub proof fn lemma_fields_round_trip(m: DeclarationOptions, pre: Seq<(Seq<char>, JVal)>, post: Seq<(Seq<char>, JVal)>)
        requires
            Self::fields_valid(m),
            forall|k: Seq<char>| Self::uses_key(k) ==> (#[trigger] lookup(pre, k)) is None,
            forall|k: Seq<char>| Self::uses_key(k) ==> (#[trigger] lookup(post, k)) is None,
        ensures
            Self::fields_from(pre + Self::fields_json(m) + post) == Ok::<DeclarationOptions, DecodeError>(m),
    {
        broadcast use group_lookup;
        reveal(DeclarationOptions::fields_from);
        reveal_strlit("workDoneProgress");
        assert("workDoneProgress"@.len() == 16);
        let before = pre;
        let after = post;
        WorkDoneProgressOptions::lemma_fields_round_trip(m.work_done_progress_options, before, after);
        assert(pre + Self::fields_json(m) + post =~= before + WorkDoneProgressOptions::fields_json(m.work_done_progress_options) + after);
    }

    /// Members with names that the type does not read change nothing.
    pub proof fn lemma_unknown_key(ms: Seq<(Seq<char>, JVal)>, k: Seq<char>, v: JVal)
        requires
            !Self::uses_key(k),
        ensures
            Self::fields_from(ms + member(k, v)) == Self::fields_from(ms),
    {
        broadcast use group_lookup;
        reveal(DeclarationOptions::fields_from);
        WorkDoneProgressOptions::lemma_unknown_key(ms, k, v);
    }

    /// The member names that the type reads.
    pub open spec fn uses_key(k: Seq<char>) -> bool {
        WorkDoneProgressOptions::uses_key(k)
    }

    /// Appends the members of the value to an object under construction.
    pub fn write_fields(&self, ms: &mut Vec<(String, Json)>)
        ensures
            members(Json::Object(*final(ms))@) == members(Json::Object(*old(ms))@) + Self::fields_json(self.model()),
    {
        let ghost start = members(Json::Object(*ms)@);
        self.work_done_progress_options.write_fields(ms);
        assert(members(Json::Object(*ms)@) =~= start + Self::fields_json(self.model()));
    }

    /// Reads a value from the members of an object.
    pub fn read_fields(ms: &Vec<(String, Json)>) -> (r: Result<Self, DecodeError>)
        ensures
            match r {
                Ok(v) => Self::fields_from(members(Json::Object(*ms)@)) == Ok::<DeclarationOptions, DecodeError>(v.model()),
                Err(e) => Self::fields_from(members(Json::Object(*ms)@)) == Err::<DeclarationOptions, DecodeError>(e),
            },
    {
        proof {
            reveal(DeclarationOptions::fields_from);
        }
        let work_done_progress_options = match WorkDoneProgressOptions::read_fields(ms) {
            Ok(v) => v,
            Err(e) => return Err(e),
        };
        Ok(DeclarationOptions { work_done_progress_options })
    }
}

impl JsonCodec for DeclarationOptions {
    type Model = DeclarationOptions;

    open spec fn model(&self) -> DeclarationOptions {
        *self
    }

    open spec fn encode(m: DeclarationOptions) -> JVal {
        JVal::Obj(Self::fields_json(m))
    }

    open spec fn decode(j: JVal) -> Result<DeclarationOptions, DecodeError> {
        match j {
            JVal::Obj(ms) => Self::fields_from(ms),
            _ => Err(DecodeError::WrongShape),
        }
    }

    open spec fn valid(m: DeclarationOptions) -> bool {
        Self::fields_valid(m)
    }

    fn to_json(&self) -> (r: Json) {
        let mut ms = new_object();
        self.write_fields(&mut ms);
        Json::Object(ms)
    }

    fn from_json(j: &Json) -> (r: Result<Self, DecodeError>) {
        match j {
            Json::Object(ms) => Self::read_fields(ms),
            _ => Err(DecodeError::WrongShape),
        }
    }

    proof fn lemma_round_trip(m: DeclarationOptions) {
        Self::lemma_fields_round_trip(m, Seq::empty(), Seq::empty());
        assert(Seq::empty() + Self::fields_json(m) + Seq::empty() =~= Self::fields_json(m));
    }

}

/// Registration options of the declaration request.
#[derive(Clone, Debug, PartialEq, Eq)]
pub struct DeclarationRegistrationOptions {
    pub declaration_options: DeclarationOptions,
    pub text_document_registration_options: TextDocumentRegistrationOptions,
    pub static_registration_options: StaticRegistrationOptions,
}

/// The mathematical value of a [`DeclarationRegistrationOptions`].
pub struct DeclarationRegistrationOptionsModel {
    pub declaration_options: DeclarationOptions,
    pub text_document_registration_options: TextDocumentRegistrationOptionsModel,
    pub static_registration_options: StaticRegistrationOptionsModel,
}

impl DeclarationRegistrationOptions {
    /// The members that a value contributes to the object it is written in.
    pub open spec fn fields_json(m: DeclarationRegistrationOptionsModel) -> Seq<(Seq<char>, JVal)> {
        DeclarationOptions::fields_json(m.declaration_options)
            + TextDocumentRegistrationOptions::fields_json(m.text_document_registration_options)
            + StaticRegistrationOptions::fields_json(m.static_registration_options)
    }

    /// Reads a value from the members of an object; other members are ignored.
    #[verifier::opaque]
    pub open spec fn fields_from(ms: Seq<(Seq<char>, JVal)>) -> Result<DeclarationRegistrationOptionsModel, DecodeError> {
        match DeclarationOptions::fields_from(ms) {
            Err(e) => Err(e),
            Ok(declaration_options) => {
                match TextDocumentRegistrationOptions::fields_from(ms) {
                    Err(e) => Err(e),
                    Ok(text_document_registration_options) => {
                        match StaticRegistrationOptions::fields_from(ms) {
                            Err(e) => Err(e),
                            Ok(static_registration_options) => {
                                Ok(DeclarationRegistrationOptionsModel { declaration_options, text_document_registration_options, static_registration_options })
                            },
                        }
                    },
                }
            },
        }
    }

    /// The models that values can have.
    pub open spec fn fields_valid(m: DeclarationRegistrationOptionsModel) -> bool {
        &&& DeclarationOptions::fields_valid(m.declaration_options)
        &&& TextDocumentRegistrationOptions::fields_valid(m.text_document_registration_options)
        &&& StaticRegistrationOptions::fields_valid(m.static_registration_options)
    }

    /// The members of a value, written between members of other names, read back as the value.
    pub proof fn lemma_fields_round_trip(m: DeclarationRegistrationOptionsModel, pre: Seq<(Seq<char>, JVal)>, post: Seq<(Seq<char>, JVal)>)
        requires
            Self::fields_valid(m),
            forall|k: Seq<char>| Self::uses_key(k) ==> (#[trigger] lookup(pre, k)) is None,
            forall|k: Seq<char>| Self::uses_key(k) ==> (#[trigger] lookup(post, k)) is None,
        ensures
            Self::fields_from(pre + Self::fields_json(m) + post) == Ok::<DeclarationRegistrationOptionsModel, DecodeError>(m),
    {
        broadcast use group_lookup;
        reveal(DeclarationRegistrationOptions::fields_from);
        reveal_strlit("workDoneProgress");
        reveal_strlit("documentSelector");
        reveal_strlit("id");
        assert("workDoneProgress"@.len() == 16);
        assert("documentSelector"@.len() == 16);
        assert("id"@.len() == 2);
        assert("workDoneProgress"@[0] != "documentSelector"@[0]);
        let before = pre;
        let after = TextDocumentRegistrationOptions::fields_json(m.text_document_registration_options) + StaticRegistrationOptions::fields_json(m.static_registration_options) + post;
        DeclarationOptions::lemma_fields_round_trip(m.declaration_options, before, after);
        assert(pre + Self::fields_json(m) + post =~= before + DeclarationOptions::fields_json(m.declaration_options) + after);
        let before = pre + DeclarationOptions::fields_json(m.declaration_options);
        let after = StaticRegistrationOptions::fields_json(m.static_registration_options) + post;
        TextDocumentRegistrationOptions::lemma_fields_round_trip(m.text_document_registration_options, before, after);
        assert(pre + Self::fields_json(m) + post =~= before + TextDocumentRegistrationOptions::fields_json(m.text_document_registration_options) + after);
        let before = pre + DeclarationOptions::fields_json(m.declaration_options) + TextDocumentRegistrationOptions::fields_json(m.text_document_registration_options);
        let after = post;
        StaticRegistrationOptions::lemma_fields_round_trip(m.static_registration_options, before, after);
        assert(pre + Self::fields_json(m) + post =~= before + StaticRegistrationOptions::fields_json(m.static_registration_options) + after);
    }

    /// Members with names that the type does not read change nothing.
    pub proof fn lemma_unknown_key(ms: Seq<(Seq<char>, JVal)>, k: Seq<char>, v: JVal)
        requires
            !Self::uses_key(k),
        ensures
            Self::fields_from(ms + member(k, v)) == Self::fields_from(ms),
    {
        broadcast use group_lookup;
        reveal(DeclarationRegistrationOptions::fields_from);
        DeclarationOptions::lemma_unknown_key(ms, k, v);
        TextDocumentRegistrationOptions::lemma_unknown_key(ms, k, v);
        StaticRegistrationOptions::lemma_unknown_key(ms, k, v);
    }

    /// The member names that the type reads.
    pub open spec fn uses_key(k: Seq<char>) -> bool {
        DeclarationOptions::uses_key(k) || TextDocumentRegistrationOptions::uses_key(k) || StaticRegistrationOptions::uses_key(k)
    }

    /// Appends the members of the value to an object under construction.
    pub fn write_fields(&self, ms: &mut Vec<(String, Json)>)
        ensures
            members(Json::Object(*final(ms))@) == members(Json::Object(*old(ms))@) + Self::fields_json(self.model()),
    {
        let ghost start = members(Json::Object(*ms)@);
        let ghost m = self.model();
        self.declaration_options.write_fields(ms);
        self.text_document_registration_options.write_fields(ms);
        proof {
            lemma_concat_associative(start, DeclarationOptions::fields_json(m.declaration_options), TextDocumentRegistrationOptions::fields_json(m.text_document_registration_options));
        }
        self.static_registration_options.write_fields(ms);
        proof {
            lemma_concat_associative(start, DeclarationOptions::fields_json(m.declaration_options) + TextDocumentRegistrationOptions::fields_json(m.text_document_registration_options), StaticRegistrationOptions::fields_json(m.static_registration_options));
        }
    }

    /// Reads a value from the members of an object.
    pub fn read_fields(ms: &Vec<(String, Json)>) -> (r: Result<Self, DecodeError>)
        ensures
            match r {
                Ok(v) => Self::fields_from(members(Json::Object(*ms)@)) == Ok::<DeclarationRegistrationOptionsModel, DecodeError>(v.model()),
                Err(e) => Self::fields_from(members(Json::Object(*ms)@)) == Err::<DeclarationRegistrationOptionsModel, DecodeError>(e),
            },
    {
        proof {
            reveal(DeclarationRegistrationOptions::fields_from);
        }
        let declaration_options = match DeclarationOptions::read_fields(ms) {
            Ok(v) => v,
            Err(e) => return Err(e),
        };
        let text_document_registration_options = match TextDocumentRegistrationOptions::read_fields(ms) {
            Ok(v) => v,
            Err(e) => return Err(e),
        };
        let static_registration_options = match StaticRegistrationOptions::read_fields(ms) {
            Ok(v) => v,
            Err(e) => return Err(e),
        };
        Ok(DeclarationRegistrationOptions { declaration_options, text_document_registration_options, static_registration_options })
    }
}

impl JsonCodec for DeclarationRegistrationOptions {
    type Model = DeclarationRegistrationOptionsModel;

    open spec fn model(&self) -> DeclarationRegistrationOptionsModel {
        DeclarationRegistrationOptionsModel {
            declaration_options: self.declaration_options.model(),
            text_document_registration_options: self.text_document_registration_options.model(),
            static_registration_options: self.static_registration_options.model(),
        }
    }

    open spec fn encode(m: DeclarationRegistrationOptionsModel) -> JVal {
        JVal::Obj(Self::fields_json(m))
    }

    open spec fn decode(j: JVal) -> Result<DeclarationRegistrationOptionsModel, DecodeError> {
        match j {
            JVal::Obj(ms) => Self::fields_from(ms),
            _ => Err(DecodeError::WrongShape),
        }
    }

    open spec fn valid(m: DeclarationRegistrationOptionsModel) -> bool {
        Self::fields_valid(m)
    }

    fn to_json(&self) -> (r: Json) {
        let mut ms = new_object();
        self.write_fields(&mut ms);
        Json::Object(ms)
    }

    fn from_json(j: &Json) -> (r: Result<Self, DecodeError>) {
        match j {
            Json::Object(ms) => Self::read_fields(ms),
            _ => Err(DecodeError::WrongShape),
        }
    }

    proof fn lemma_round_trip(m: DeclarationRegistrationOptionsModel) {
        Self::lemma_fields_round_trip(m, Seq::empty(), Seq::empty());
        assert(Seq::empty() + Self::fields_json(m) + Seq::empty() =~= Self::fields_json(m));
    }

}

/// How a server provides declarations.
#[derive(Clone, Debug, PartialEq, Eq)]
pub enum DeclarationCapability {
    Simple(bool),
    RegistrationOptions(DeclarationRegistrationOptions),
    Options(DeclarationOptions),
}

/// The mathematical value of a [`DeclarationCapability`].
pub enum DeclarationCapabilityModel {
    Simple(bool),
    RegistrationOptions(DeclarationRegistrationOptionsModel),
    Options(DeclarationOptions),
}

/// Written as the variant's own encoding; decoding tries the variants in order.
impl JsonCodec for DeclarationCapability {
    type Model = DeclarationCapabilityModel;

    open spec fn model(&self) -> DeclarationCapabilityModel {
        match self {
            DeclarationCapability::Simple(x) => DeclarationCapabilityModel::Simple(x.model()),
            DeclarationCapability::RegistrationOptions(x) => DeclarationCapabilityModel::RegistrationOptions(x.model()),
            DeclarationCapability::Options(x) => DeclarationCapabilityModel::Options(x.model()),
        }
    }

    open spec fn encode(m: DeclarationCapabilityModel) -> JVal {
        match m {
            DeclarationCapabilityModel::Simple(x) => bool::encode(x),
            DeclarationCapabilityModel::RegistrationOptions(x) => DeclarationRegistrationOptions::encode(x),
            DeclarationCapabilityModel::Options(x) => DeclarationOptions::encode(x),
        }
    }

    open spec fn decode(j: JVal) -> Result<DeclarationCapabilityModel, DecodeError> {
        match bool::decode(j) {
            Ok(x) => Ok(DeclarationCapabilityModel::Simple(x)),
            Err(_) => {
                match DeclarationRegistrationOptions::decode(j) {
                    Ok(x) => Ok(DeclarationCapabilityModel::RegistrationOptions(x)),
                    Err(_) => {
                        match DeclarationOptions::decode(j) {
                            Ok(x) => Ok(DeclarationCapabilityModel::Options(x)),
                            Err(_) => {
                                Err(DecodeError::WrongShape)
                            },
                        }
                    },
                }
            },
        }
    }

    /// A variant is read back only where no earlier variant accepts its encoding.
    open spec fn valid(m: DeclarationCapabilityModel) -> bool {
        match m {
            DeclarationCapabilityModel::Simple(x) => bool::valid(x),
            DeclarationCapabilityModel::RegistrationOptions(x) => DeclarationRegistrationOptions::valid(x) && bool::decode(DeclarationRegistrationOptions::encode(x)) is Err,
            DeclarationCapabilityModel::Options(x) => DeclarationOptions::valid(x) && bool::decode(DeclarationOptions::encode(x)) is Err && DeclarationRegistrationOptions::decode(DeclarationOptions::encode(x)) is Err,
        }
    }

    fn to_json(&self) -> (r: Json) {
        match self {
            DeclarationCapability::Simple(x) => x.to_json(),
            DeclarationCapability::RegistrationOptions(x) => x.to_json(),
            DeclarationCapability::Options(x) => x.to_json(),
        }
    }

    fn from_json(j: &Json) -> (r: Result<DeclarationCapability, DecodeError>) {
        if let Ok(x) = bool::from_json(j) {
            return Ok(DeclarationCapability::Simple(x));
        }
        if let Ok(x) = DeclarationRegistrationOptions::from_json(j) {
            return Ok(DeclarationCapability::RegistrationOptions(x));
        }
        if let Ok(x) = DeclarationOptions::from_json(j) {
            return Ok(DeclarationCapability::Options(x));
        }
        Err(DecodeError::WrongShape)
    }

    proof fn lemma_round_trip(m: DeclarationCapabilityModel) {
        match m {
            DeclarationCapabilityModel::Simple(x) => bool::lemma_round_trip(x),
            DeclarationCapabilityModel::RegistrationOptions(x) => DeclarationRegistrationOptions::lemma_round_trip(x),
            DeclarationCapabilityModel::Options(x) => DeclarationOptions::lemma_round_trip(x),
        }
    }
}

/// Options of the document formatting request.
#[derive(Clone, Debug, Default, PartialEq, Eq, Structural)]
pub struct DocumentFormattingOptions {
    pub work_done_progress_options: WorkDoneProgressOptions,
}

impl DocumentFormattingOptions {
    /// The members that a value contributes to the object it is written in.
    pub open spec fn fields_json(m: DocumentFormattingOptions) -> Seq<(Seq<char>, JVal)> {
        WorkDoneProgressOptions::fields_json(m.work_done_progress_options)
    }

    /// Reads a value from the members of an object; other members are ignored.
    #[verifier::opaque]
    pub open spec fn fields_from(ms: Seq<(Seq<char>, JVal)>) -> Result<DocumentFormattingOptions, DecodeError> {
        match WorkDoneProgressOptions::fields_from(ms) {
            Err(e) => Err(e),
            Ok(work_done_progress_options) => {
                Ok(DocumentFormattingOptions { work_done_progress_options })
            },
        }
    }

    /// The models that values can have.
    pub open spec fn fields_valid(m: DocumentFormattingOptions) -> bool {
        &&& WorkDoneProgressOptions::fields_valid(m.work_done_progress_options)
    }

    /// The members of a value, written between members of other names, read back as the value.
    pub proof fn lemma_fields_round_trip(m: DocumentFormattingOptions, pre: Seq<(Seq<char>, JVal)>, post: Seq<(Seq<char>, JVal)>)
        requires
            Self::fields_valid(m),
            forall|k: Seq<char>| Self::uses_key(k) ==> (#[trigger] lookup(pre, k)) is None,
            forall|k: Seq<char>| Self::uses_key(k) ==> (#[trigger] lookup(post, k)) is None,
        ensures
            Self::fields_from(pre + Self::fields_json(m) + post) == Ok::<DocumentFormattingOptions, DecodeError>(m),
    {
        broadcast use group_lookup;
        reveal(DocumentFormattingOptions::fields_from);
        reveal_strlit("workDoneProgress");
        assert("workDoneProgress"@.len() == 16);
        let before = pre;
        let after = post;
        WorkDoneProgressOptions::lemma_fields_round_trip(m.work_done_progress_options, before, after);
        assert(pre + Self::fields_json(m) + post =~= before + WorkDoneProgressOptions::fields_json(m.work_done_progress_options) + after);
    }

    /// Members with names that the type does not read change nothing.
    pub proof fn lemma_unknown_key(ms: Seq<(Seq<char>, JVal)>, k: Seq<char>, v: JVal)
        requires
            !Self::uses_key(k),
        ensures
            Self::fields_from(ms + member(k, v)) == Self::fields_from(ms),
    {
        broadcast use group_lookup;
        reveal(DocumentFormattingOptions::fields_from);
        WorkDoneProgressOptions::lemma_unknown_key(ms, k, v);
    }

    /// The member names that the type reads.
    pub open spec fn uses_key(k: Seq<char>) -> bool {
        WorkDoneProgressOptions::uses_key(k)
    }

    /// Appends the members of the value to an object under construction.
    pub fn write_fields(&self, ms: &mut Vec<(String, Json)>)
        ensures
            members(Json::Object(*final(ms))@) == members(Json::Object(*old(ms))@) + Self::fields_json(self.model()),
    {
        let ghost start = members(Json::Object(*ms)@);
        self.work_done_progress_options.write_fields(ms);
        assert(members(Json::Object(*ms)@) =~= start + Self::fields_json(self.model()));
    }

    /// Reads a value from the members of an object.
    pub fn read_fields(ms: &Vec<(String, Json)>) -> (r: Result<Self, DecodeError>)
        ensures
            match r {
                Ok(v) => Self::fields_from(members(Json::Object(*ms)@)) == Ok::<DocumentFormattingOptions, DecodeError>(v.model()),
                Err(e) => Self::fields_from(members(Json::Object(*ms)@)) == Err::<DocumentFormattingOptions, DecodeError>(e),
            },
    {
        proof {
            reveal(DocumentFormattingOptions::fields_from);
        }
        let work_done_progress_options = match WorkDoneProgressOptions::read_fields(ms) {
            Ok(v) => v,
            Err(e) => return Err(e),
        };
        Ok(DocumentFormattingOptions { work_done_progress_options })
    }
}

impl JsonCodec for DocumentFormattingOptions {
    type Model = DocumentFormattingOptions;

    open spec fn model(&self) -> DocumentFormattingOptions {
        *self
    }

    open spec fn encode(m: DocumentFormattingOptions) -> JVal {
        JVal::Obj(Self::fields_json(m))
    }

    open spec fn decode(j: JVal) -> Result<DocumentFormattingOptions, DecodeError> {
        match j {
            JVal::Obj(ms) => Self::fields_from(ms),
            _ => Err(DecodeError::WrongShape),
        }
    }

    open spec fn valid(m: DocumentFormattingOptions) -> bool {
        Self::fields_valid(m)
    }

    fn to_json(&self) -> (r: Json) {
        let mut ms = new_object();
        self.write_fields(&mut ms);
        Json::Object(ms)
    }

    fn from_json(j: &Json) -> (r: Result<Self, DecodeError>) {
        match j {
            Json::Object(ms) => Self::read_fields(ms),
            _ => Err(DecodeError::WrongShape),
        }
    }

    proof fn lemma_round_trip(m: DocumentFormattingOptions) {
        Self::lemma_fields_round_trip(m, Seq::empty(), Seq::empty());
        assert(Seq::empty() + Self::fields_json(m) + Seq::empty() =~= Self::fields_json(m));
    }

}

/// Options of the range formatting request.
#[derive(Clone, Debug, Default, PartialEq, Eq, Structural)]
pub struct DocumentRangeFormattingOptions {
    pub work_done_progress_options: WorkDoneProgressOptions,
}

impl DocumentRangeFormattingOptions {
    /// The members that a value contributes to the object it is written in.
    pub open spec fn fields_json(m: DocumentRangeFormattingOptions) -> Seq<(Seq<char>, JVal)> {
        WorkDoneProgressOptions::fields_json(m.work_done_progress_options)
    }

    /// Reads a value from the members of an object; other members are ignored.
    #[verifier::opaque]
    pub open spec fn fields_from(ms: Seq<(Seq<char>, JVal)>) -> Result<DocumentRangeFormattingOptions, DecodeError> {
        match WorkDoneProgressOptions::fields_from(ms) {
            Err(e) => Err(e),
            Ok(work_done_progress_options) => {
                Ok(DocumentRangeFormattingOptions { work_done_progress_options })
            },
        }
    }

    /// The models that values can have.
    pub open spec fn fields_valid(m: DocumentRangeFormattingOptions) -> bool {
        &&& WorkDoneProgressOptions::fields_valid(m.work_done_progress_options)
    }

    /// The members of a value, written between members of other names, read back as the value.
    pub proof fn lemma_fields_round_trip(m: DocumentRangeFormattingOptions, pre: Seq<(Seq<char>, JVal)>, post: Seq<(Seq<char>, JVal)>)
        requires
            Self::fields_valid(m),
            forall|k: Seq<char>| Self::uses_key(k) ==> (#[trigger] lookup(pre, k)) is None,
            forall|k: Seq<char>| Self::uses_key(k) ==> (#[trigger] lookup(post, k)) is None,
        ensures
            Self::fields_from(pre + Self::fields_json(m) + post) == Ok::<DocumentRangeFormattingOptions, DecodeError>(m),
    {
        broadcast use group_lookup;
        reveal(DocumentRangeFormattingOptions::fields_from);
        reveal_strlit("workDoneProgress");
        assert("workDoneProgress"@.len() == 16);
        let before = pre;
        let after = post;
        WorkDoneProgressOptions::lemma_fields_round_trip(m.work_done_progress_options, before, after);
        assert(pre + Self::fields_json(m) + post =~= before + WorkDoneProgressOptions::fields_json(m.work_done_progress_options) + after);
    }

    /// Members with names that the type does not read change nothing.
    pub proof fn lemma_unknown_key(ms: Seq<(Seq<char>, JVal)>, k: Seq<char>, v: JVal)
        requires
            !Self::uses_key(k),
        ensures
            Self::fields_from(ms + member(k, v)) == Self::fields_from(ms),
    {
        broadcast use group_lookup;
        reveal(DocumentRangeFormattingOptions::fields_from);
        WorkDoneProgressOptions::lemma_unknown_key(ms, k, v);
    }

    /// The member names that the type reads.
    pub open spec fn uses_key(k: Seq<char>) -> bool {
        WorkDoneProgressOptions::uses_key(k)
    }

    /// Appends the members of the value to an object under construction.
    pub fn write_fields(&self, ms: &mut Vec<(String, Json)>)
        ensures
            members(Json::Object(*final(ms))@) == members(Json::Object(*old(ms))@) + Self::fields_json(self.model()),
    {
        let ghost start = members(Json::Object(*ms)@);
        self.work_done_progress_options.write_fields(ms);
        assert(members(Json::Object(*ms)@) =~= start + Self::fields_json(self.model()));
    }

    /// Reads a value from the members of an object.
    pub fn read_fields(ms: &Vec<(String, Json)>) -> (r: Result<Self, DecodeError>)
        ensures
            match r {
                Ok(v) => Self::fields_from(members(Json::Object(*ms)@)) == Ok::<DocumentRangeFormattingOptions, DecodeError>(v.model()),
                Err(e) => Self::fields_from(members(Json::Object(*ms)@)) == Err::<DocumentRangeFormattingOptions, DecodeError>(e),
            },
    {
        proof {
            reveal(DocumentRangeFormattingOptions::fields_from);
        }
        let work_done_progress_options = match WorkDoneProgressOptions::read_fields(ms) {
            Ok(v) => v,
            Err(e) => return Err(e),
        };
        Ok(DocumentRangeFormattingOptions { work_done_progress_options })
    }
}

impl JsonCodec for DocumentRangeFormattingOptions {
    type Model = DocumentRangeFormattingOptions;

    open spec fn model(&self) -> DocumentRangeFormattingOptions {
        *self
    }

    open spec fn encode(m: DocumentRangeFormattingOptions) -> JVal {
        JVal::Obj(Self::fields_json(m))
    }

    open spec fn decode(j: JVal) -> Result<DocumentRangeFormattingOptions, DecodeError> {
        match j {
            JVal::Obj(ms) => Self::fields_from(ms),
            _ => Err(DecodeError::WrongShape),
        }
    }

    open spec fn valid(m: DocumentRangeFormattingOptions) -> bool {
        Self::fields_valid(m)
    }

    fn to_json(&self) -> (r: Json) {
        let mut ms = new_object();
        self.write_fields(&mut ms);
        Json::Object(ms)
    }

    fn from_json(j: &Json) -> (r: Result<Self, DecodeError>) {
        match j {
            Json::Object(ms) => Self::read_fields(ms),
            _ => Err(DecodeError::WrongShape),
        }
    }

    proof fn lemma_round_trip(m: DocumentRangeFormattingOptions) {
        Self::lemma_fields_round_trip(m, Seq::empty(), Seq::empty());
        assert(Seq::empty() + Self::fields_json(m) + Seq::empty() =~= Self::fields_json(m));
    }

}

/// Options of the go-to-definition request.
#[derive(Clone, Debug, Default, PartialEq, Eq, Structural)]
pub struct DefinitionOptions {
    pub work_done_progress_options: WorkDoneProgressOptions,
}

impl DefinitionOptions {
    /// The members that a value contributes to the object it is written in.
    pub open spec fn fields_json(m: DefinitionOptions) -> Seq<(Seq<char>, JVal)> {
        WorkDoneProgressOptions::fields_json(m.work_done_progress_options)
    }

    /// Reads a value from the members of an object; other members are ignored.
    #[verifier::opaque]
    pub open spec fn fields_from(ms: Seq<(Seq<char>, JVal)>) -> Result<DefinitionOptions, DecodeError> {
        match WorkDoneProgressOptions::fields_from(ms) {
            Err(e) => Err(e),
            Ok(work_done_progress_options) => {
                Ok(DefinitionOptions { work_done_progress_options })
            },
        }
    }

    /// The models that values can have.
    pub open spec fn fields_valid(m: DefinitionOptions) -> bool {
        &&& WorkDoneProgressOptions::fields_valid(m.work_done_progress_options)
    }

    /// The members of a value, written between members of other names, read back as the value.
    pub proof fn lemma_fields_round_trip(m: DefinitionOptions, pre: Seq<(Seq<char>, JVal)>, post: Seq<(Seq<char>, JVal)>)
        requires
            Self::fields_valid(m),
            forall|k: Seq<char>| Self::uses_key(k) ==> (#[trigger] lookup(pre, k)) is None,
            forall|k: Seq<char>| Self::uses_key(k) ==> (#[trigger] lookup(post, k)) is None,
        ensures
            Self::fields_from(pre + Self::fields_json(m) + post) == Ok::<DefinitionOptions, DecodeError>(m),
    {
        broadcast use group_lookup;
        reveal(DefinitionOptions::fields_from);
        reveal_strlit("workDoneProgress");
        assert("workDoneProgress"@.len() == 16);
        let before = pre;
        let after = post;
        WorkDoneProgressOptions::lemma_fields_round_trip(m.work_done_progress_options, before, after);
        assert(pre + Self::fields_json(m) + post =~= before + WorkDoneProgressOptions::fields_json(m.work_done_progress_options) + after);
    }

    /// Members with names that the type does not read change nothing.
    pub proof fn lemma_unknown_key(ms: Seq<(Seq<char>, JVal)>, k: Seq<char>, v: JVal)
        requires
            !Self::uses_key(k),
        ensures
            Self::fields_from(ms + member(k, v)) == Self::fields_from(ms),
    {
        broadcast use group_lookup;
        reveal(DefinitionOptions::fields_from);
        WorkDoneProgressOptions::lemma_unknown_key(ms, k, v);
    }

    /// The member names that the type reads.
    pub open spec fn uses_key(k: Seq<char>) -> bool {
        WorkDoneProgressOptions::uses_key(k)
    }

    /// Appends the members of the value to an object under construction.
    pub fn write_fields(&self, ms: &mut Vec<(String, Json)>)
        ensures
            members(Json::Object(*final(ms))@) == members(Json::Object(*old(ms))@) + Self::fields_json(self.model()),
    {
        let ghost start = members(Json::Object(*ms)@);
        self.work_done_progress_options.write_fields(ms);
        assert(members(Json::Object(*ms)@) =~= start + Self::fields_json(self.model()));
    }

    /// Reads a value from the members of an object.
    pub fn read_fields(ms: &Vec<(String, Json)>) -> (r: Result<Self, DecodeError>)
        ensures
            match r {
                Ok(v) => Self::fields_from(members(Json::Object(*ms)@)) == Ok::<DefinitionOptions, DecodeError>(v.model()),
                Err(e) => Self::fields_from(members(Json::Object(*ms)@)) == Err::<DefinitionOptions, DecodeError>(e),
            },
    {
        proof {
            reveal(DefinitionOptions::fields_from);
        }
        let work_done_progress_options = match WorkDoneProgressOptions::read_fields(ms) {
            Ok(v) => v,
            Err(e) => return Err(e),
        };
        Ok(DefinitionOptions { work_done_progress_options })
    }
}

impl JsonCodec for DefinitionOptions {
    type Model = DefinitionOptions;

    open spec fn model(&self) -> DefinitionOptions {
        *self
    }

    open spec fn encode(m: DefinitionOptions) -> JVal {
        JVal::Obj(Self::fields_json(m))
    }

    open spec fn decode(j: JVal) -> Result<DefinitionOptions, DecodeError> {
        match j {
            JVal::Obj(ms) => Self::fields_from(ms),
            _ => Err(DecodeError::WrongShape),
        }
    }

    open spec fn valid(m: DefinitionOptions) -> bool {
        Self::fields_valid(m)
    }

    fn to_json(&self) -> (r: Json) {
        let mut ms = new_object();
        self.write_fields(&mut ms);
        Json::Object(ms)
    }

    fn from_json(j: &Json) -> (r: Result<Self, DecodeError>) {
        match j {
            Json::Object(ms) => Self::read_fields(ms),
            _ => Err(DecodeError::WrongShape),
        }
    }

    proof fn lemma_round_trip(m: DefinitionOptions) {
        Self::lemma_fields_round_trip(m, Seq::empty(), Seq::empty());
        assert(Seq::empty() + Self::fields_json(m) + Seq::empty() =~= Self::fields_json(m));
    }

}

/// Options of the find-references request.
#[derive(Clone, Debug, Default, PartialEq, Eq, Structural)]
pub struct ReferenceOptions {
    pub work_done_progress_options: WorkDoneProgressOptions,
}

impl ReferenceOptions {
    /// The members that a value contributes to the object it is written in.
    pub open spec fn fields_json(m: ReferenceOptions) -> Seq<(Seq<char>, JVal)> {
        WorkDoneProgressOptions::fields_json(m.work_done_progress_options)
    }

    /// Reads a value from the members of an object; other members are ignored.
    #[verifier::opaque]
    pub open spec fn fields_from(ms: Seq<(Seq<char>, JVal)>) -> Result<ReferenceOptions, DecodeError> {
        match WorkDoneProgressOptions::fields_from(ms) {
            Err(e) => Err(e),
            Ok(work_done_progress_options) => {
                Ok(ReferenceOptions { work_done_progress_options })
            },
        }
    }

    /// The models that values can have.
    pub open spec fn fields_valid(m: ReferenceOptions) -> bool {
        &&& WorkDoneProgressOptions::fields_valid(m.work_done_progress_options)
    }

    /// The members of a value, written between members of other names, read back as the value.
    pub proof fn lemma_fields_round_trip(m: ReferenceOptions, pre: Seq<(Seq<char>, JVal)>, post: Seq<(Seq<char>, JVal)>)
        requires
            Self::fields_valid(m),
            forall|k: Seq<char>| Self::uses_key(k) ==> (#[trigger] lookup(pre, k)) is None,
            forall|k: Seq<char>| Self::uses_key(k) ==> (#[trigger] lookup(post, k)) is None,
        ensures
            Self::fields_from(pre + Self::fields_json(m) + post) == Ok::<ReferenceOptions, DecodeError>(m),
    {
        broadcast use group_lookup;
        reveal(ReferenceOptions::fields_from);
        reveal_strlit("workDoneProgress");
        assert("workDoneProgress"@.len() == 16);
        let before = pre;
        let after = post;
        WorkDoneProgressOptions::lemma_fields_round_trip(m.work_done_progress_options, before, after);
        assert(pre + Self::fields_json(m) + post =~= before + WorkDoneProgressOptions::fields_json(m.work_done_progress_options) + after);
    }

    /// Members with names that the type does not read change nothing.
    pub proof fn lemma_unknown_key(ms: Seq<(Seq<char>, JVal)>, k: Seq<char>, v: JVal)
        requires
            !Self::uses_key(k),
        ensures
            Self::fields_from(ms + member(k, v)) == Self::fields_from(ms),
    {
        broadcast use group_lookup;
        reveal(ReferenceOptions::fields_from);
        WorkDoneProgressOptions::lemma_unknown_key(ms, k, v);
    }

    /// The member names that the type reads.
    pub open spec fn uses_key(k: Seq<char>) -> bool {
        WorkDoneProgressOptions::uses_key(k)
    }

    /// Appends the members of the value to an object under construction.
    pub fn write_fields(&self, ms: &mut Vec<(String, Json)>)
        ensures
            members(Json::Object(*final(ms))@) == members(Json::Object(*old(ms))@) + Self::fields_json(self.model()),
    {
        let ghost start = members(Json::Object(*ms)@);
        self.work_done_progress_options.write_fields(ms);
        assert(members(Json::Object(*ms)@) =~= start + Self::fields_json(self.model()));
    }

    /// Reads a value from the members of an object.
    pub fn read_fields(ms: &Vec<(String, Json)>) -> (r: Result<Self, DecodeError>)
        ensures
            match r {
                Ok(v) => Self::fields_from(members(Json::Object(*ms)@)) == Ok::<ReferenceOptions, DecodeError>(v.model()),
                Err(e) => Self::fields_from(members(Json::Object(*ms)@)) == Err::<ReferenceOptions, DecodeError>(e),
            },
    {
        proof {
            reveal(ReferenceOptions::fields_from);
        }
        let work_done_progress_options = match WorkDoneProgressOptions::read_fields(ms) {
            Ok(v) => v,
            Err(e) => return Err(e),
        };
        Ok(ReferenceOptions { work_done_progress_options })
    }
}

impl JsonCodec for ReferenceOptions {
    type Model = ReferenceOptions;

    open spec fn model(&self) -> ReferenceOptions {
        *self
    }

    open spec fn encode(m: ReferenceOptions) -> JVal {
        JVal::Obj(Self::fields_json(m))
    }

    open spec fn decode(j: JVal) -> Result<ReferenceOptions, DecodeError> {
        match j {
            JVal::Obj(ms) => Self::fields_from(ms),
            _ => Err(DecodeError::WrongShape),
        }
    }

    open spec fn valid(m: ReferenceOptions) -> bool {
        Self::fields_valid(m)
    }

    fn to_json(&self) -> (r: Json) {
        let mut ms = new_object();
        self.write_fields(&mut ms);
        Json::Object(ms)
    }

    fn from_json(j: &Json) -> (r: Result<Self, DecodeError>) {
        match j {
            Json::Object(ms) => Self::read_fields(ms),
            _ => Err(DecodeError::WrongShape),
        }
    }

    proof fn lemma_round_trip(m: ReferenceOptions) {
        Self::lemma_fields_round_trip(m, Seq::empty(), Seq::empty());
        assert(Seq::empty() + Self::fields_json(m) + Seq::empty() =~= Self::fields_json(m));
    }

}

/// Options of the document highlight request.
#[derive(Clone, Debug, Default, PartialEq, Eq, Structural)]
pub struct DocumentHighlightOptions {
    pub work_done_progress_options: WorkDoneProgressOptions,
}

impl DocumentHighlightOptions {
    /// The members that a value contributes to the object it is written in.
    pub open spec fn fields_json(m: DocumentHighlightOptions) -> Seq<(Seq<char>, JVal)> {
        WorkDoneProgressOptions::fields_json(m.work_done_progress_options)
    }

    /// Reads a value from the members of an object; other members are ignored.
    #[verifier::opaque]
    pub open spec fn fields_from(ms: Seq<(Seq<char>, JVal)>) -> Result<DocumentHighlightOptions, DecodeError> {
        match WorkDoneProgressOptions::fields_from(ms) {
            Err(e) => Err(e),
            Ok(work_done_progress_options) => {
                Ok(DocumentHighlightOptions { work_done_progress_options })
            },
        }
    }

    /// The models that values can have.
    pub open spec fn fields_valid(m: DocumentHighlightOptions) -> bool {
        &&& WorkDoneProgressOptions::fields_valid(m.work_done_progress_options)
    }

    /// The members of a value, written between members of other names, read back as the value.
    pub proof fn lemma_fields_round_trip(m: DocumentHighlightOptions, pre: Seq<(Seq<char>, JVal)>, post: Seq<(Seq<char>, JVal)>)
        requires
            Self::fields_valid(m),
            forall|k: Seq<char>| Self::uses_key(k) ==> (#[trigger] lookup(pre, k)) is None,
            forall|k: Seq<char>| Self::uses_key(k) ==> (#[trigger] lookup(post, k)) is None,
        ensures
            Self::fields_from(pre + Self::fields_json(m) + post) == Ok::<DocumentHighlightOptions, DecodeError>(m),
    {
        broadcast use group_lookup;
        reveal(DocumentHighlightOptions::fields_from);
        reveal_strlit("workDoneProgress");
        assert("workDoneProgress"@.len() == 16);
        let before = pre;
        let after = post;
        WorkDoneProgressOptions::lemma_fields_round_trip(m.work_done_progress_options, before, after);
        assert(pre + Self::fields_json(m) + post =~= before + WorkDoneProgressOptions::fields_json(m.work_done_progress_options) + after);
    }

    /// Members with names that the type does not read change nothing.
    pub proof fn lemma_unknown_key(ms: Seq<(Seq<char>, JVal)>, k: Seq<char>, v: JVal)
        requires
            !Self::uses_key(k),
        ensures
            Self::fields_from(ms + member(k, v)) == Self::fields_from(ms),
    {
        broadcast use group_lookup;
        reveal(DocumentHighlightOptions::fields_from);
        WorkDoneProgressOptions::lemma_unknown_key(ms, k, v);
    }

    /// The member names that the type reads.
    pub open spec fn uses_key(k: Seq<char>) -> bool {
        WorkDoneProgressOptions::uses_key(k)
    }

    /// Appends the members of the value to an object under construction.
    pub fn write_fields(&self, ms: &mut Vec<(String, Json)>)
        ensures
            members(Json::Object(*final(ms))@) == members(Json::Object(*old(ms))@) + Self::fields_json(self.model()),
    {
        let ghost start = members(Json::Object(*ms)@);
        self.work_done_progress_options.write_fields(ms);
        assert(members(Json::Object(*ms)@) =~= start + Self::fields_json(self.model()));
    }

    /// Reads a value from the members of an object.
    pub fn read_fields(ms: &Vec<(String, Json)>) -> (r: Result<Self, DecodeError>)
        ensures
            match r {
                Ok(v) => Self::fields_from(members(Json::Object(*ms)@)) == Ok::<DocumentHighlightOptions, DecodeError>(v.model()),
                Err(e) => Self::fields_from(members(Json::Object(*ms)@)) == Err::<DocumentHighlightOptions, DecodeError>(e),
            },
    {
        proof {
            reveal(DocumentHighlightOptions::fields_from);
        }
        let work_done_progress_options = match WorkDoneProgressOptions::read_fields(ms) {
            Ok(v) => v,
            Err(e) => return Err(e),
        };
        Ok(DocumentHighlightOptions { work_done_progress_options })
    }
}

impl JsonCodec for DocumentHighlightOptions {
    type Model = DocumentHighlightOptions;

    open spec fn model(&self) -> DocumentHighlightOptions {
        *self
    }

    open spec fn encode(m: DocumentHighlightOptions) -> JVal {
        JVal::Obj(Self::fields_json(m))
    }

    open spec fn decode(j: JVal) -> Result<DocumentHighlightOptions, DecodeError> {
        match j {
            JVal::Obj(ms) => Self::fields_from(ms),
            _ => Err(DecodeError::WrongShape),
        }
    }

    open spec fn valid(m: DocumentHighlightOptions) -> bool {
        Self::fields_valid(m)
    }

    fn to_json(&self) -> (r: Json) {
        let mut ms = new_object();
        self.write_fields(&mut ms);
        Json::Object(ms)
    }

    fn from_json(j: &Json) -> (r: Result<Self, DecodeError>) {
        match j {
            Json::Object(ms) => Self::read_fields(ms),
            _ => Err(DecodeError::WrongShape),
        }
    }

    proof fn lemma_round_trip(m: DocumentHighlightOptions) {
        Self::lemma_fields_round_trip(m, Seq::empty(), Seq::empty());
        assert(Seq::empty() + Self::fields_json(m) + Seq::empty() =~= Self::fields_json(m));
    }

}

/// Options of the document symbol request.
#[derive(Clone, Debug, PartialEq, Eq)]
pub struct DocumentSymbolOptions {
    /// A human-readable string shown when several outlines are shown for one document.
    pub label: Option<String>,
    pub work_done_progress_options: WorkDoneProgressOptions,
}

/// The mathematical value of a [`DocumentSymbolOptions`].
pub struct DocumentSymbolOptionsModel {
    pub label: Option<Seq<char>>,
    pub work_done_progress_options: WorkDoneProgressOptions,
}

impl DocumentSymbolOptions {
    /// The members that a value contributes to the object it is written in.
    pub open spec fn fields_json(m: DocumentSymbolOptionsModel) -> Seq<(Seq<char>, JVal)> {
        opt_member::<String>("label"@, m.label)
            + WorkDoneProgressOptions::fields_json(m.work_done_progress_options)
    }

    /// Reads a value from the members of an object; other members are ignored.
    #[verifier::opaque]
    pub open spec fn fields_from(ms: Seq<(Seq<char>, JVal)>) -> Result<DocumentSymbolOptionsModel, DecodeError> {
        match opt_field::<String>(ms, "label"@) {
            Err(e) => Err(e),
            Ok(label) => {
                match WorkDoneProgressOptions::fields_from(ms) {
                    Err(e) => Err(e),
                    Ok(work_done_progress_options) => {
                        Ok(DocumentSymbolOptionsModel { label, work_done_progress_options })
                    },
                }
            },
        }
    }

    /// The models that values can have.
    pub open spec fn fields_valid(m: DocumentSymbolOptionsModel) -> bool {
        &&& opt_valid::<String>(m.label)
        &&& WorkDoneProgressOptions::fields_valid(m.work_done_progress_options)
    }

    /// The members of a value, written between members of other names, read back as the value.
    pub proof fn lemma_fields_round_trip(m: DocumentSymbolOptionsModel, pre: Seq<(Seq<char>, JVal)>, post: Seq<(Seq<char>, JVal)>)
        requires
            Self::fields_valid(m),
            forall|k: Seq<char>| Self::uses_key(k) ==> (#[trigger] lookup(pre, k)) is None,
            forall|k: Seq<char>| Self::uses_key(k) ==> (#[trigger] lookup(post, k)) is None,
        ensures
            Self::fields_from(pre + Self::fields_json(m) + post) == Ok::<DocumentSymbolOptionsModel, DecodeError>(m),
    {
        broadcast use group_lookup;
        reveal(DocumentSymbolOptions::fields_from);
        reveal_strlit("label");
        reveal_strlit("workDoneProgress");
        assert("label"@.len() == 5);
        assert("workDoneProgress"@.len() == 16);
        if let Some(x) = m.label {
            String::lemma_round_trip(x);
        }
        let before = pre + opt_member::<String>("label"@, m.label);
        let after = post;
        WorkDoneProgressOptions::lemma_fields_round_trip(m.work_done_progress_options, before, after);
        assert(pre + Self::fields_json(m) + post =~= before + WorkDoneProgressOptions::fields_json(m.work_done_progress_options) + after);
    }

    /// Members with names that the type does not read change nothing.
    pub proof fn lemma_unknown_key(ms: Seq<(Seq<char>, JVal)>, k: Seq<char>, v: JVal)
        requires
            !Self::uses_key(k),
        ensures
            Self::fields_from(ms + member(k, v)) == Self::fields_from(ms),
    {
        broadcast use group_lookup;
        reveal(DocumentSymbolOptions::fields_from);
        WorkDoneProgressOptions::lemma_unknown_key(ms, k, v);
    }

    /// The member names that the type reads.
    pub open spec fn uses_key(k: Seq<char>) -> bool {
        k == "label"@ || WorkDoneProgressOptions::uses_key(k)
    }

    /// Appends the members of the value to an object under construction.
    pub fn write_fields(&self, ms: &mut Vec<(String, Json)>)
        ensures
            members(Json::Object(*final(ms))@) == members(Json::Object(*old(ms))@) + Self::fields_json(self.model()),
    {
        let ghost start = members(Json::Object(*ms)@);
        let ghost m = self.model();
        push_opt(ms, "label", &self.label);
        self.work_done_progress_options.write_fields(ms);
        proof {
            lemma_concat_associative(start, opt_member::<String>("label"@, m.label), WorkDoneProgressOptions::fields_json(m.work_done_progress_options));
        }
    }

    /// Reads a value from the members of an object.
    pub fn read_fields(ms: &Vec<(String, Json)>) -> (r: Result<Self, DecodeError>)
        ensures
            match r {
                Ok(v) => Self::fields_from(members(Json::Object(*ms)@)) == Ok::<DocumentSymbolOptionsModel, DecodeError>(v.model()),
                Err(e) => Self::fields_from(members(Json::Object(*ms)@)) == Err::<DocumentSymbolOptionsModel, DecodeError>(e),
            },
    {
        proof {
            reveal(DocumentSymbolOptions::fields_from);
        }
        let label = match read_opt::<String>(ms, "label") {
            Ok(v) => v,
            Err(e) => return Err(e),
        };
        let work_done_progress_options = match WorkDoneProgressOptions::read_fields(ms) {
            Ok(v) => v,
            Err(e) => return Err(e),
        };
        Ok(DocumentSymbolOptions { label, work_done_progress_options })
    }
}

impl JsonCodec for DocumentSymbolOptions {
    type Model = DocumentSymbolOptionsModel;

    open spec fn model(&self) -> DocumentSymbolOptionsModel {
        DocumentSymbolOptionsModel {
            label: self.label.model(),
            work_done_progress_options: self.work_done_progress_options.model(),
        }
    }

    open spec fn encode(m: DocumentSymbolOptionsModel) -> JVal {
        JVal::Obj(Self::fields_json(m))
    }

    open spec fn decode(j: JVal) -> Result<DocumentSymbolOptionsModel, DecodeError> {
        match j {
            JVal::Obj(ms) => Self::fields_from(ms),
            _ => Err(DecodeError::WrongShape),
        }
    }

    open spec fn valid(m: DocumentSymbolOptionsModel) -> bool {
        Self::fields_valid(m)
    }

    fn to_json(&self) -> (r: Json) {
        let mut ms = new_object();
        self.write_fields(&mut ms);
        Json::Object(ms)
    }

    fn from_json(j: &Json) -> (r: Result<Self, DecodeError>) {
        match j {
            Json::Object(ms) => Self::read_fields(ms),
            _ => Err(DecodeError::WrongShape),
        }
    }

    proof fn lemma_round_trip(m: DocumentSymbolOptionsModel) {
        Self::lemma_fields_round_trip(m, Seq::empty(), Seq::empty());
        assert(Seq::empty() + Self::fields_json(m) + Seq::empty() =~= Self::fields_json(m));
    }

}

/// Registration options of the document symbol request.
#[derive(Clone, Debug, PartialEq, Eq)]
pub struct DocumentSymbolRegistrationOptions {
    pub text_document_registration_options: TextDocumentRegistrationOptions,
    pub document_symbol_options: DocumentSymbolOptions,
}

/// The mathematical value of a [`DocumentSymbolRegistrationOptions`].
pub struct DocumentSymbolRegistrationOptionsModel {
    pub text_document_registration_options: TextDocumentRegistrationOptionsModel,
    pub document_symbol_options: DocumentSymbolOptionsModel,
}

impl DocumentSymbolRegistrationOptions {
    /// The members that a value contributes to the object it is written in.
    pub open spec fn fields_json(m: DocumentSymbolRegistrationOptionsModel) -> Seq<(Seq<char>, JVal)> {
        TextDocumentRegistrationOptions::fields_json(m.text_document_registration_options)
            + DocumentSymbolOptions::fields_json(m.document_symbol_options)
    }

    /// Reads a value from the members of an object; other members are ignored.
    #[verifier::opaque]
    pub open spec fn fields_from(ms: Seq<(Seq<char>, JVal)>) -> Result<DocumentSymbolRegistrationOptionsModel, DecodeError> {
        match TextDocumentRegistrationOptions::fields_from(ms) {
            Err(e) => Err(e),
            Ok(text_document_registration_options) => {
                match DocumentSymbolOptions::fields_from(ms) {
                    Err(e) => Err(e),
                    Ok(document_symbol_options) => {
                        Ok(DocumentSymbolRegistrationOptionsModel { text_document_registration_options, document_symbol_options })
                    },
                }
            },
        }
    }

    /// The models that values can have.
    pub open spec fn fields_valid(m: DocumentSymbolRegistrationOptionsModel) -> bool {
        &&& TextDocumentRegistrationOptions::fields_valid(m.text_document_registration_options)
        &&& DocumentSymbolOptions::fields_valid(m.document_symbol_options)
    }

    /// The members of a value, written between members of other names, read back as the value.
    pub proof fn lemma_fields_round_trip(m: DocumentSymbolRegistrationOptionsModel, pre: Seq<(Seq<char>, JVal)>, post: Seq<(Seq<char>, JVal)>)
        requires
            Self::fields_valid(m),
            forall|k: Seq<char>| Self::uses_key(k) ==> (#[trigger] lookup(pre, k)) is None,
            forall|k: Seq<char>| Self::uses_key(k) ==> (#[trigger] lookup(post, k)) is None,
        ensures
            Self::fields_from(pre + Self::fields_json(m) + post) == Ok::<DocumentSymbolRegistrationOptionsModel, DecodeError>(m),
    {
        broadcast use group_lookup;
        reveal(DocumentSymbolRegistrationOptions::fields_from);
        reveal_strlit("documentSelector");
        reveal_strlit("label");
        reveal_strlit("workDoneProgress");
        assert("documentSelector"@.len() == 16);
        assert("label"@.len() == 5);
        assert("workDoneProgress"@.len() == 16);
        assert("documentSelector"@[0] != "workDoneProgress"@[0]);
        let before = pre;
        let after = DocumentSymbolOptions::fields_json(m.document_symbol_options) + post;
        TextDocumentRegistrationOptions::lemma_fields_round_trip(m.text_document_registration_options, before, after);
        assert(pre + Self::fields_json(m) + post =~= before + TextDocumentRegistrationOptions::fields_json(m.text_document_registration_options) + after);
        let before = pre + TextDocumentRegistrationOptions::fields_json(m.text_document_registration_options);
        let after = post;
        DocumentSymbolOptions::lemma_fields_round_trip(m.document_symbol_options, before, after);
        assert(pre + Self::fields_json(m) + post =~= before + DocumentSymbolOptions::fields_json(m.document_symbol_options) + after);
    }

    /// Members with names that the type does not read change nothing.
    pub proof fn lemma_unknown_key(ms: Seq<(Seq<char>, JVal)>, k: Seq<char>, v: JVal)
        requires
            !Self::uses_key(k),
        ensures
            Self::fields_from(ms + member(k, v)) == Self::fields_from(ms),
    {
        broadcast use group_lookup;
        reveal(DocumentSymbolRegistrationOptions::fields_from);
        TextDocumentRegistrationOptions::lemma_unknown_key(ms, k, v);
        DocumentSymbolOptions::lemma_unknown_key(ms, k, v);
    }

    /// The member names that the type reads.
    pub open spec fn uses_key(k: Seq<char>) -> bool {
        TextDocumentRegistrationOptions::uses_key(k) || DocumentSymbolOptions::uses_key(k)
    }

    /// Appends the members of the value to an object under construction.
    pub fn write_fields(&self, ms: &mut Vec<(String, Json)>)
        ensures
            members(Json::Object(*final(ms))@) == members(Json::Object(*old(ms))@) + Self::fields_json(self.model()),
    {
        let ghost start = members(Json::Object(*ms)@);
        let ghost m = self.model();
        self.text_document_registration_options.write_fields(ms);
        self.document_symbol_options.write_fields(ms);
        proof {
            lemma_concat_associative(start, TextDocumentRegistrationOptions::fields_json(m.text_document_registration_options), DocumentSymbolOptions::fields_json(m.document_symbol_options));
        }
    }

    /// Reads a value from the members of an object.
    pub fn read_fields(ms: &Vec<(String, Json)>) -> (r: Result<Self, DecodeError>)
        ensures
            match r {
                Ok(v) => Self::fields_from(members(Json::Object(*ms)@)) == Ok::<DocumentSymbolRegistrationOptionsModel, DecodeError>(v.model()),
                Err(e) => Self::fields_from(members(Json::Object(*ms)@)) == Err::<DocumentSymbolRegistrationOptionsModel, DecodeError>(e),
            },
    {
        proof {
            reveal(DocumentSymbolRegistrationOptions::fields_from);
        }
        let text_document_registration_options = match TextDocumentRegistrationOptions::read_fields(ms) {
            Ok(v) => v,
            Err(e) => return Err(e),
        };
        let document_symbol_options = match DocumentSymbolOptions::read_fields(ms) {
            Ok(v) => v,
            Err(e) => return Err(e),
        };
        Ok(DocumentSymbolRegistrationOptions { text_document_registration_options, document_symbol_options })
    }
}

impl JsonCodec for DocumentSymbolRegistrationOptions {
    type Model = DocumentSymbolRegistrationOptionsModel;

    open spec fn model(&self) -> DocumentSymbolRegistrationOptionsModel {
        DocumentSymbolRegistrationOptionsModel {
            text_document_registration_options: self.text_document_registration_options.model(),
            document_symbol_options: self.document_symbol_options.model(),
        }
    }

    open spec fn encode(m: DocumentSymbolRegistrationOptionsModel) -> JVal {
        JVal::Obj(Self::fields_json(m))
    }

    open spec fn decode(j: JVal) -> Result<DocumentSymbolRegistrationOptionsModel, DecodeError> {
        match j {
            JVal::Obj(ms) => Self::fields_from(ms),
            _ => Err(DecodeError::WrongShape),
        }
    }

    open spec fn valid(m: DocumentSymbolRegistrationOptionsModel) -> bool {
        Self::fields_valid(m)
    }

    fn to_json(&self) -> (r: Json) {
        let mut ms = new_object();
        self.write_fields(&mut ms);
        Json::Object(ms)
    }

    fn from_json(j: &Json) -> (r: Result<Self, DecodeError>) {
        match j {
            Json::Object(ms) => Self::read_fields(ms),
            _ => Err(DecodeError::WrongShape),
        }
    }

    proof fn lemma_round_trip(m: DocumentSymbolRegistrationOptionsModel) {
        Self::lemma_fields_round_trip(m, Seq::empty(), Seq::empty());
        assert(Seq::empty() + Self::fields_json(m) + Seq::empty() =~= Self::fields_json(m));
    }

}

/// Options of the workspace symbol request.
#[derive(Clone, Debug, PartialEq, Eq, Structural)]
pub struct WorkspaceSymbolOptions {
    pub work_done_progress_options: WorkDoneProgressOptions,
    pub resolve_provider: Option<bool>,
}

impl WorkspaceSymbolOptions {
    /// The members that a value contributes to the object it is written in.
    pub open spec fn fields_json(m: WorkspaceSymbolOptions) -> Seq<(Seq<char>, JVal)> {
        WorkDoneProgressOptions::fields_json(m.work_done_progress_options)
            + opt_member::<bool>("resolveProvider"@, m.resolve_provider)
    }

    /// Reads a value from the members of an object; other members are ignored.
    #[verifier::opaque]
    pub open spec fn fields_from(ms: Seq<(Seq<char>, JVal)>) -> Result<WorkspaceSymbolOptions, DecodeError> {
        match WorkDoneProgressOptions::fields_from(ms) {
            Err(e) => Err(e),
            Ok(work_done_progress_options) => {
                match opt_field::<bool>(ms, "resolveProvider"@) {
                    Err(e) => Err(e),
                    Ok(resolve_provider) => {
                        Ok(WorkspaceSymbolOptions { work_done_progress_options, resolve_provider })
                    },
                }
            },
        }
    }

    /// The models that values can have.
    pub open spec fn fields_valid(m: WorkspaceSymbolOptions) -> bool {
        &&& WorkDoneProgressOptions::fields_valid(m.work_done_progress_options)
        &&& opt_valid::<bool>(m.resolve_provider)
    }

    /// The members of a value, written between members of other names, read back as the value.
    pub proof fn lemma_fields_round_trip(m: WorkspaceSymbolOptions, pre: Seq<(Seq<char>, JVal)>, post: Seq<(Seq<char>, JVal)>)
        requires
            Self::fields_valid(m),
            forall|k: Seq<char>| Self::uses_key(k) ==> (#[trigger] lookup(pre, k)) is None,
            forall|k: Seq<char>| Self::uses_key(k) ==> (#[trigger] lookup(post, k)) is None,
        ensures
            Self::fields_from(pre + Self::fields_json(m) + post) == Ok::<WorkspaceSymbolOptions, DecodeError>(m),
    {
        broadcast use group_lookup;
        reveal(WorkspaceSymbolOptions::fields_from);
        reveal_strlit("workDoneProgress");
        reveal_strlit("resolveProvider");
        assert("workDoneProgress"@.len() == 16);
        assert("resolveProvider"@.len() == 15);
        let before = pre;
        let after = opt_member::<bool>("resolveProvider"@, m.resolve_provider) + post;
        WorkDoneProgressOptions::lemma_fields_round_trip(m.work_done_progress_options, before, after);
        assert(pre + Self::fields_json(m) + post =~= before + WorkDoneProgressOptions::fields_json(m.work_done_progress_options) + after);
        if let Some(x) = m.resolve_provider {
            bool::lemma_round_trip(x);
        }
    }

    /// Members with names that the type does not read change nothing.
    pub proof fn lemma_unknown_key(ms: Seq<(Seq<char>, JVal)>, k: Seq<char>, v: JVal)
        requires
            !Self::uses_key(k),
        ensures
            Self::fields_from(ms + member(k, v)) == Self::fields_from(ms),
    {
        broadcast use group_lookup;
        reveal(WorkspaceSymbolOptions::fields_from);
        WorkDoneProgressOptions::lemma_unknown_key(ms, k, v);
    }

    /// The member names that the type reads.
    pub open spec fn uses_key(k: Seq<char>) -> bool {
        WorkDoneProgressOptions::uses_key(k) || k == "resolveProvider"@
    }

    /// Appends the members of the value to an object under construction.
    pub fn write_fields(&self, ms: &mut Vec<(String, Json)>)
        ensures
            members(Json::Object(*final(ms))@) == members(Json::Object(*old(ms))@) + Self::fields_json(self.model()),
    {
        let ghost start = members(Json::Object(*ms)@);
        let ghost m = self.model();
        self.work_done_progress_options.write_fields(ms);
        push_opt(ms, "resolveProvider", &self.resolve_provider);
        proof {
            lemma_concat_associative(start, WorkDoneProgressOptions::fields_json(m.work_done_progress_options), opt_member::<bool>("resolveProvider"@, m.resolve_provider));
        }
    }

    /// Reads a value from the members of an object.
    pub fn read_fields(ms: &Vec<(String, Json)>) -> (r: Result<Self, DecodeError>)
        ensures
            match r {
                Ok(v) => Self::fields_from(members(Json::Object(*ms)@)) == Ok::<WorkspaceSymbolOptions, DecodeError>(v.model()),
                Err(e) => Self::fields_from(members(Json::Object(*ms)@)) == Err::<WorkspaceSymbolOptions, DecodeError>(e),
            },
    {
        proof {
            reveal(WorkspaceSymbolOptions::fields_from);
        }
        let work_done_progress_options = match WorkDoneProgressOptions::read_fields(ms) {
            Ok(v) => v,
            Err(e) => return Err(e),
        };
        let resolve_provider = match read_opt::<bool>(ms, "resolveProvider") {
            Ok(v) => v,
            Err(e) => return Err(e),
        };
        Ok(WorkspaceSymbolOptions { work_done_progress_options, resolve_provider })
    }
}

impl JsonCodec for WorkspaceSymbolOptions {
    type Model = WorkspaceSymbolOptions;

    open spec fn model(&self) -> WorkspaceSymbolOptions {
        *self
    }

    open spec fn encode(m: WorkspaceSymbolOptions) -> JVal {
        JVal::Obj(Self::fields_json(m))
    }

    open spec fn decode(j: JVal) -> Result<WorkspaceSymbolOptions, DecodeError> {
        match j {
            JVal::Obj(ms) => Self::fields_from(ms),
            _ => Err(DecodeError::WrongShape),
        }
    }

    open spec fn valid(m: WorkspaceSymbolOptions) -> bool {
        Self::fields_valid(m)
    }

    fn to_json(&self) -> (r: Json) {
        let mut ms = new_object();
        self.write_fields(&mut ms);
        Json::Object(ms)
    }

    fn from_json(j: &Json) -> (r: Result<Self, DecodeError>) {
        match j {
            Json::Object(ms) => Self::read_fields(ms),
            _ => Err(DecodeError::WrongShape),
        }
    }

    proof fn lemma_round_trip(m: WorkspaceSymbolOptions) {
        Self::lemma_fields_round_trip(m, Seq::empty(), Seq::empty());
        assert(Seq::empty() + Self::fields_json(m) + Seq::empty() =~= Self::fields_json(m));
    }

}

/// Options that only carry the work-done progress flag.
#[derive(Clone, Debug, PartialEq, Eq, Structural)]
pub struct GenericOptions {
    pub work_done_progress_options: WorkDoneProgressOptions,
}

impl GenericOptions {
    /// The members that a value contributes to the object it is written in.
    pub open spec fn fields_json(m: GenericOptions) -> Seq<(Seq<char>, JVal)> {
        WorkDoneProgressOptions::fields_json(m.work_done_progress_options)
    }

    /// Reads a value from the members of an object; other members are ignored.
    #[verifier::opaque]
    pub open spec fn fields_from(ms: Seq<(Seq<char>, JVal)>) -> Result<GenericOptions, DecodeError> {
        match WorkDoneProgressOptions::fields_from(ms) {
            Err(e) => Err(e),
            Ok(work_done_progress_options) => {
                Ok(GenericOptions { work_done_progress_options })
            },
        }
    }

    /// The models that values can have.
    pub open spec fn fields_valid(m: GenericOptions) -> bool {
        &&& WorkDoneProgressOptions::fields_valid(m.work_done_progress_options)
    }

    /// The members of a value, written between members of other names, read back as the value.
    pub proof fn lemma_fields_round_trip(m: GenericOptions, pre: Seq<(Seq<char>, JVal)>, post: Seq<(Seq<char>, JVal)>)
        requires
            Self::fields_valid(m),
            forall|k: Seq<char>| Self::uses_key(k) ==> (#[trigger] lookup(pre, k)) is None,
            forall|k: Seq<char>| Self::uses_key(k) ==> (#[trigger] lookup(post, k)) is None,
        ensures
            Self::fields_from(pre + Self::fields_json(m) + post) == Ok::<GenericOptions, DecodeError>(m),
    {
        broadcast use group_lookup;
        reveal(GenericOptions::fields_from);
        reveal_strlit("workDoneProgress");
        assert("workDoneProgress"@.len() == 16);
        let before = pre;
        let after = post;
        WorkDoneProgressOptions::lemma_fields_round_trip(m.work_done_progress_options, before, after);
        assert(pre + Self::fields_json(m) + post =~= before + WorkDoneProgressOptions::fields_json(m.work_done_progress_options) + after);
    }

    /// Members with names that the type does not read change nothing.
    pub proof fn lemma_unknown_key(ms: Seq<(Seq<char>, JVal)>, k: Seq<char>, v: JVal)
        requires
            !Self::uses_key(k),
        ensures
            Self::fields_from(ms + member(k, v)) == Self::fields_from(ms),
    {
        broadcast use group_lookup;
        reveal(GenericOptions::fields_from);
        WorkDoneProgressOptions::lemma_unknown_key(ms, k, v);
    }

    /// The member names that the type reads.
    pub open spec fn uses_key(k: Seq<char>) -> bool {
        WorkDoneProgressOptions::uses_key(k)
    }

    /// Appends the members of the value to an object under construction.
    pub fn write_fields(&self, ms: &mut Vec<(String, Json)>)
        ensures
            members(Json::Object(*final(ms))@) == members(Json::Object(*old(ms))@) + Self::fields_json(self.model()),
    {
        let ghost start = members(Json::Object(*ms)@);
        self.work_done_progress_options.write_fields(ms);
        assert(members(Json::Object(*ms)@) =~= start + Self::fields_json(self.model()));
    }

    /// Reads a value from the members of an object.
    pub fn read_fields(ms: &Vec<(String, Json)>) -> (r: Result<Self, DecodeError>)
        ensures
            match r {
                Ok(v) => Self::fields_from(members(Json::Object(*ms)@)) == Ok::<GenericOptions, DecodeError>(v.model()),
                Err(e) => Self::fields_from(members(Json::Object(*ms)@)) == Err::<GenericOptions, DecodeError>(e),
            },
    {
        proof {
            reveal(GenericOptions::fields_from);
        }
        let work_done_progress_options = match WorkDoneProgressOptions::read_fields(ms) {
            Ok(v) => v,
            Err(e) => return Err(e),
        };
        Ok(GenericOptions { work_done_progress_options })
    }
}

impl JsonCodec for GenericOptions {
    type Model = GenericOptions;

    open spec fn model(&self) -> GenericOptions {
        *self
    }

    open spec fn encode(m: GenericOptions) -> JVal {
        JVal::Obj(Self::fields_json(m))
    }

    open spec fn decode(j: JVal) -> Result<GenericOptions, DecodeError> {
        match j {
            JVal::Obj(ms) => Self::fields_from(ms),
            _ => Err(DecodeError::WrongShape),
        }
    }

    open spec fn valid(m: GenericOptions) -> bool {
        Self::fields_valid(m)
    }

    fn to_json(&self) -> (r: Json) {
        let mut ms = new_object();
        self.write_fields(&mut ms);
        Json::Object(ms)
    }

    fn from_json(j: &Json) -> (r: Result<Self, DecodeError>) {
        match j {
            Json::Object(ms) => Self::read_fields(ms),
            _ => Err(DecodeError::WrongShape),
        }
    }

    proof fn lemma_round_trip(m: GenericOptions) {
        Self::lemma_fields_round_trip(m, Seq::empty(), Seq::empty());
        assert(Seq::empty() + Self::fields_json(m) + Seq::empty() =~= Self::fields_json(m));
    }

}

/// Registration options made of the general parts only.
#[derive(Clone, Debug, PartialEq, Eq)]
pub struct GenericRegistrationOptions {
    pub text_document_registration_options: TextDocumentRegistrationOptions,
    pub options: GenericOptions,
    pub static_registration_options: StaticRegistrationOptions,
}

/// The mathematical value of a [`GenericRegistrationOptions`].
pub struct GenericRegistrationOptionsModel {
    pub text_document_registration_options: TextDocumentRegistrationOptionsModel,
    pub options: GenericOptions,
    pub static_registration_options: StaticRegistrationOptionsModel,
}

impl GenericRegistrationOptions {
    /// The members that a value contributes to the object it is written in.
    pub open spec fn fields_json(m: GenericRegistrationOptionsModel) -> Seq<(Seq<char>, JVal)> {
        TextDocumentRegistrationOptions::fields_json(m.text_document_registration_options)
            + GenericOptions::fields_json(m.options)
            + StaticRegistrationOptions::fields_json(m.static_registration_options)
    }

    /// Reads a value from the members of an object; other members are ignored.
    #[verifier::opaque]
    pub open spec fn fields_from(ms: Seq<(Seq<char>, JVal)>) -> Result<GenericRegistrationOptionsModel, DecodeError> {
        match TextDocumentRegistrationOptions::fields_from(ms) {
            Err(e) => Err(e),
            Ok(text_document_registration_options) => {
                match GenericOptions::fields_from(ms) {
                    Err(e) => Err(e),
                    Ok(options) => {
                        match StaticRegistrationOptions::fields_from(ms) {
                            Err(e) => Err(e),
                            Ok(static_registration_options) => {
                                Ok(GenericRegistrationOptionsModel { text_document_registration_options, options, static_registration_options })
                            },
                        }
                    },
                }
            },
        }
    }

    /// The models that values can have.
    pub open spec fn fields_valid(m: GenericRegistrationOptionsModel) -> bool {
        &&& TextDocumentRegistrationOptions::fields_valid(m.text_document_registration_options)
        &&& GenericOptions::fields_valid(m.options)
        &&& StaticRegistrationOptions::fields_valid(m.static_registration_options)
    }

    /// The members of a value, written between members of other names, read back as the value.
    pub proof fn lemma_fields_round_trip(m: GenericRegistrationOptionsModel, pre: Seq<(Seq<char>, JVal)>, post: Seq<(Seq<char>, JVal)>)
        requires
            Self::fields_valid(m),
            forall|k: Seq<char>| Self::uses_key(k) ==> (#[trigger] lookup(pre, k)) is None,
            forall|k: Seq<char>| Self::uses_key(k) ==> (#[trigger] lookup(post, k)) is None,
        ensures
            Self::fields_from(pre + Self::fields_json(m) + post) == Ok::<GenericRegistrationOptionsModel, DecodeError>(m),
    {
        broadcast use group_lookup;
        reveal(GenericRegistrationOptions::fields_from);
        reveal_strlit("documentSelector");
        reveal_strlit("workDoneProgress");
        reveal_strlit("id");
        assert("documentSelector"@.len() == 16);
        assert("workDoneProgress"@.len() == 16);
        assert("id"@.len() == 2);
        assert("documentSelector"@[0] != "workDoneProgress"@[0]);
        let before = pre;
        let after = GenericOptions::fields_json(m.options) + StaticRegistrationOptions::fields_json(m.static_registration_options) + post;
        TextDocumentRegistrationOptions::lemma_fields_round_trip(m.text_document_registration_options, before, after);
        assert(pre + Self::fields_json(m) + post =~= before + TextDocumentRegistrationOptions::fields_json(m.text_document_registration_options) + after);
        let before = pre + TextDocumentRegistrationOptions::fields_json(m.text_document_registration_options);
        let after = StaticRegistrationOptions::fields_json(m.static_registration_options) + post;
        GenericOptions::lemma_fields_round_trip(m.options, before, after);
        assert(pre + Self::fields_json(m) + post =~= before + GenericOptions::fields_json(m.options) + after);
        let before = pre + TextDocumentRegistrationOptions::fields_json(m.text_document_registration_options) + GenericOptions::fields_json(m.options);
        let after = post;
        StaticRegistrationOptions::lemma_fields_round_trip(m.static_registration_options, before, after);
        assert(pre + Self::fields_json(m) + post =~= before + StaticRegistrationOptions::fields_json(m.static_registration_options) + after);
    }

    /// Members with names that the type does not read change nothing.
    pub proof fn lemma_unknown_key(ms: Seq<(Seq<char>, JVal)>, k: Seq<char>, v: JVal)
        requires
            !Self::uses_key(k),
        ensures
            Self::fields_from(ms + member(k, v)) == Self::fields_from(ms),
    {
        broadcast use group_lookup;
        reveal(GenericRegistrationOptions::fields_from);
        TextDocumentRegistrationOptions::lemma_unknown_key(ms, k, v);
        GenericOptions::lemma_unknown_key(ms, k, v);
        StaticRegistrationOptions::lemma_unknown_key(ms, k, v);
    }

    /// The member names that the type reads.
    pub open spec fn uses_key(k: Seq<char>) -> bool {
        TextDocumentRegistrationOptions::uses_key(k) || GenericOptions::uses_key(k) || StaticRegistrationOptions::uses_key(k)
    }

    /// Appends the members of the value to an object under construction.
    pub fn write_fields(&self, ms: &mut Vec<(String, Json)>)
        ensures
            members(Json::Object(*final(ms))@) == members(Json::Object(*old(ms))@) + Self::fields_json(self.model()),
    {
        let ghost start = members(Json::Object(*ms)@);
        let ghost m = self.model();
        self.text_document_registration_options.write_fields(ms);
        self.options.write_fields(ms);
        proof {
            lemma_concat_associative(start, TextDocumentRegistrationOptions::fields_json(m.text_document_registration_options), GenericOptions::fields_json(m.options));
        }
        self.static_registration_options.write_fields(ms);
        proof {
            lemma_concat_associative(start, TextDocumentRegistrationOptions::fields_json(m.text_document_registration_options) + GenericOptions::fields_json(m.options), StaticRegistrationOptions::fields_json(m.static_registration_options));
        }
    }

    /// Reads a value from the members of an object.
    pub fn read_fields(ms: &Vec<(String, Json)>) -> (r: Result<Self, DecodeError>)
        ensures
            match r {
                Ok(v) => Self::fields_from(members(Json::Object(*ms)@)) == Ok::<GenericRegistrationOptionsModel, DecodeError>(v.model()),
                Err(e) => Self::fields_from(members(Json::Object(*ms)@)) == Err::<GenericRegistrationOptionsModel, DecodeError>(e),
            },
    {
        proof {
            reveal(GenericRegistrationOptions::fields_from);
        }
        let text_document_registration_options = match TextDocumentRegistrationOptions::read_fields(ms) {
            Ok(v) => v,
            Err(e) => return Err(e),
        };
        let options = match GenericOptions::read_fields(ms) {
            Ok(v) => v,
            Err(e) => return Err(e),
        };
        let static_registration_options = match StaticRegistrationOptions::read_fields(ms) {
            Ok(v) => v,
            Err(e) => return Err(e),
        };
        Ok(GenericRegistrationOptions { text_document_registration_options, options, static_registration_options })
    }
}

impl JsonCodec for GenericRegistrationOptions {
    type Model = GenericRegistrationOptionsModel;

    open spec fn model(&self) -> GenericRegistrationOptionsModel {
        GenericRegistrationOptionsModel {
            text_document_registration_options: self.text_document_registration_options.model(),
            options: self.options.model(),
            static_registration_options: self.static_registration_options.model(),
        }
    }

    open spec fn encode(m: GenericRegistrationOptionsModel) -> JVal {
        JVal::Obj(Self::fields_json(m))
    }

    open spec fn decode(j: JVal) -> Result<GenericRegistrationOptionsModel, DecodeError> {
        match j {
            JVal::Obj(ms) => Self::fields_from(ms),
            _ => Err(DecodeError::WrongShape),
        }
    }

    open spec fn valid(m: GenericRegistrationOptionsModel) -> bool {
        Self::fields_valid(m)
    }

    fn to_json(&self) -> (r: Json) {
        let mut ms = new_object();
        self.write_fields(&mut ms);
        Json::Object(ms)
    }

    fn from_json(j: &Json) -> (r: Result<Self, DecodeError>) {
        match j {
            Json::Object(ms) => Self::read_fields(ms),
            _ => Err(DecodeError::WrongShape),
        }
    }

    proof fn lemma_round_trip(m: GenericRegistrationOptionsModel) {
        Self::lemma_fields_round_trip(m, Seq::empty(), Seq::empty());
        assert(Seq::empty() + Self::fields_json(m) + Seq::empty() =~= Self::fields_json(m));
    }

}

/// Parameters made of a document position and the progress tokens.
#[derive(Clone, Debug, PartialEq, Eq)]
pub struct GenericParams {
    pub text_document_position_params: TextDocumentPositionParams,
    pub work_done_progress_params: WorkDoneProgressParams,
    pub partial_result_params: PartialResultParams,
}

/// The mathematical value of a [`GenericParams`].
pub struct GenericParamsModel {
    pub text_document_position_params: TextDocumentPositionParamsModel,
    pub work_done_progress_params: WorkDoneProgressParamsModel,
    pub partial_result_params: PartialResultParamsModel,
}

impl GenericParams {
    /// The members that a value contributes to the object it is written in.
    pub open spec fn fields_json(m: GenericParamsModel) -> Seq<(Seq<char>, JVal)> {
        TextDocumentPositionParams::fields_json(m.text_document_position_params)
            + WorkDoneProgressParams::fields_json(m.work_done_progress_params)
            + PartialResultParams::fields_json(m.partial_result_params)
    }

    /// Reads a value from the members of an object; other members are ignored.
    #[verifier::opaque]
    pub open spec fn fields_from(ms: Seq<(Seq<char>, JVal)>) -> Result<GenericParamsModel, DecodeError> {
        match TextDocumentPositionParams::fields_from(ms) {
            Err(e) => Err(e),
            Ok(text_document_position_params) => {
                match WorkDoneProgressParams::fields_from(ms) {
                    Err(e) => Err(e),
                    Ok(work_done_progress_params) => {
                        match PartialResultParams::fields_from(ms) {
                            Err(e) => Err(e),
                            Ok(partial_result_params) => {
                                Ok(GenericParamsModel { text_document_position_params, work_done_progress_params, partial_result_params })
                            },
                        }
                    },
                }
            },
        }
    }

    /// The models that values can have.
    pub open spec fn fields_valid(m: GenericParamsModel) -> bool {
        &&& TextDocumentPositionParams::fields_valid(m.text_document_position_params)
        &&& WorkDoneProgressParams::fields_valid(m.work_done_progress_params)
        &&& PartialResultParams::fields_valid(m.partial_result_params)
    }

    /// The members of a value, written between members of other names, read back as the value.
    pub proof fn lemma_fields_round_trip(m: GenericParamsModel, pre: Seq<(Seq<char>, JVal)>, post: Seq<(Seq<char>, JVal)>)
        requires
            Self::fields_valid(m),
            forall|k: Seq<char>| Self::uses_key(k) ==> (#[trigger] lookup(pre, k)) is None,
            forall|k: Seq<char>| Self::uses_key(k) ==> (#[trigger] lookup(post, k)) is None,
        ensures
            Self::fields_from(pre + Self::fields_json(m) + post) == Ok::<GenericParamsModel, DecodeError>(m),
    {
        broadcast use group_lookup;
        reveal(GenericParams::fields_from);
        reveal_strlit("textDocument");
        reveal_strlit("position");
        reveal_strlit("workDoneToken");
        reveal_strlit("partialResultToken");
        assert("textDocument"@.len() == 12);
        assert("position"@.len() == 8);
        assert("workDoneToken"@.len() == 13);
        assert("partialResultToken"@.len() == 18);
        let before = pre;
        let after = WorkDoneProgressParams::fields_json(m.work_done_progress_params) + PartialResultParams::fields_json(m.partial_result_params) + post;
        TextDocumentPositionParams::lemma_fields_round_trip(m.text_document_position_params, before, after);
        assert(pre + Self::fields_json(m) + post =~= before + TextDocumentPositionParams::fields_json(m.text_document_position_params) + after);
        let before = pre + TextDocumentPositionParams::fields_json(m.text_document_position_params);
        let after = PartialResultParams::fields_json(m.partial_result_params) + post;
        WorkDoneProgressParams::lemma_fields_round_trip(m.work_done_progress_params, before, after);
        assert(pre + Self::fields_json(m) + post =~= before + WorkDoneProgressParams::fields_json(m.work_done_progress_params) + after);
        let before = pre + TextDocumentPositionParams::fields_json(m.text_document_position_params) + WorkDoneProgressParams::fields_json(m.work_done_progress_params);
        let after = post;
        PartialResultParams::lemma_fields_round_trip(m.partial_result_params, before, after);
        assert(pre + Self::fields_json(m) + post =~= before + PartialResultParams::fields_json(m.partial_result_params) + after);
    }

    /// Members with names that the type does not read change nothing.
    pub proof fn lemma_unknown_key(ms: Seq<(Seq<char>, JVal)>, k: Seq<char>, v: JVal)
        requires
            !Self::uses_key(k),
        ensures
            Self::fields_from(ms + member(k, v)) == Self::fields_from(ms),
    {
        broadcast use group_lookup;
        reveal(GenericParams::fields_from);
        TextDocumentPositionParams::lemma_unknown_key(ms, k, v);
        WorkDoneProgressParams::lemma_unknown_key(ms, k, v);
        PartialResultParams::lemma_unknown_key(ms, k, v);
    }

    /// The member names that the type reads.
    pub open spec fn uses_key(k: Seq<char>) -> bool {
        TextDocumentPositionParams::uses_key(k) || WorkDoneProgressParams::uses_key(k) || PartialResultParams::uses_key(k)
    }

    /// Appends the members of the value to an object under construction.
    pub fn write_fields(&self, ms: &mut Vec<(String, Json)>)
        ensures
            members(Json::Object(*final(ms))@) == members(Json::Object(*old(ms))@) + Self::fields_json(self.model()),
    {
        let ghost start = members(Json::Object(*ms)@);
        let ghost m = self.model();
        self.text_document_position_params.write_fields(ms);
        self.work_done_progress_params.write_fields(ms);
        proof {
            lemma_concat_associative(start, TextDocumentPositionParams::fields_json(m.text_document_position_params), WorkDoneProgressParams::fields_json(m.work_done_progress_params));
        }
        self.partial_result_params.write_fields(ms);
        proof {
            lemma_concat_associative(start, TextDocumentPositionParams::fields_json(m.text_document_position_params) + WorkDoneProgressParams::fields_json(m.work_done_progress_params), PartialResultParams::fields_json(m.partial_result_params));
        }
    }

    /// Reads a value from the members of an object.
    pub fn read_fields(ms: &Vec<(String, Json)>) -> (r: Result<Self, DecodeError>)
        ensures
            match r {
                Ok(v) => Self::fields_from(members(Json::Object(*ms)@)) == Ok::<GenericParamsModel, DecodeError>(v.model()),
                Err(e) => Self::fields_from(members(Json::Object(*ms)@)) == Err::<GenericParamsModel, DecodeError>(e),
            },
    {
        proof {
            reveal(GenericParams::fields_from);
        }
        let text_document_position_params = match TextDocumentPositionParams::read_fields(ms) {
            Ok(v) => v,
            Err(e) => return Err(e),
        };
        let work_done_progress_params = match WorkDoneProgressParams::read_fields(ms) {
            Ok(v) => v,
            Err(e) => return Err(e),
        };
        let partial_result_params = match PartialResultParams::read_fields(ms) {
            Ok(v) => v,
            Err(e) => return Err(e),
        };
        Ok(GenericParams { text_document_position_params, work_done_progress_params, partial_result_params })
    }
}

impl JsonCodec for GenericParams {
    type Model = GenericParamsModel;

    open spec fn model(&self) -> GenericParamsModel {
        GenericParamsModel {
            text_document_position_params: self.text_document_position_params.model(),
            work_done_progress_params: self.work_done_progress_params.model(),
            partial_result_params: self.partial_result_params.model(),
        }
    }

    open spec fn encode(m: GenericParamsModel) -> JVal {
        JVal::Obj(Self::fields_json(m))
    }

    open spec fn decode(j: JVal) -> Result<GenericParamsModel, DecodeError> {
        match j {
            JVal::Obj(ms) => Self::fields_from(ms),
            _ => Err(DecodeError::WrongShape),
        }
    }

    open spec fn valid(m: GenericParamsModel) -> bool {
        Self::fields_valid(m)
    }

    fn to_json(&self) -> (r: Json) {
        let mut ms = new_object();
        self.write_fields(&mut ms);
        Json::Object(ms)
    }

    fn from_json(j: &Json) -> (r: Result<Self, DecodeError>) {
        match j {
            Json::Object(ms) => Self::read_fields(ms),
            _ => Err(DecodeError::WrongShape),
        }
    }

    proof fn lemma_round_trip(m: GenericParamsModel) {
        Self::lemma_fields_round_trip(m, Seq::empty(), Seq::empty());
        assert(Seq::empty() + Self::fields_json(m) + Seq::empty() =~= Self::fields_json(m));
    }

}

/// Options of the execute-command request.
#[derive(Clone, Debug, Default, PartialEq, Eq)]
pub struct ExecuteCommandOptions {
    /// The commands to be executed on the server.
    pub commands: Vec<String>,
    pub work_done_progress_options: WorkDoneProgressOptions,
}

/// The mathematical value of a [`ExecuteCommandOptions`].
pub struct ExecuteCommandOptionsModel {
    pub commands: Seq<Seq<char>>,
    pub work_done_progress_options: WorkDoneProgressOptions,
}

impl ExecuteCommandOptions {
    /// The members that a value contributes to the object it is written in.
    pub open spec fn fields_json(m: ExecuteCommandOptionsModel) -> Seq<(Seq<char>, JVal)> {
        member("commands"@, <Vec<String>>::encode(m.commands))
            + WorkDoneProgressOptions::fields_json(m.work_done_progress_options)
    }

    /// Reads a value from the members of an object; other members are ignored.
    #[verifier::opaque]
    pub open spec fn fields_from(ms: Seq<(Seq<char>, JVal)>) -> Result<ExecuteCommandOptionsModel, DecodeError> {
        match req_field::<Vec<String>>(ms, "commands"@) {
            Err(e) => Err(e),
            Ok(commands) => {
                match WorkDoneProgressOptions::fields_from(ms) {
                    Err(e) => Err(e),
                    Ok(work_done_progress_options) => {
                        Ok(ExecuteCommandOptionsModel { commands, work_done_progress_options })
                    },
                }
            },
        }
    }

    /// The models that values can have.
    pub open spec fn fields_valid(m: ExecuteCommandOptionsModel) -> bool {
        &&& <Vec<String>>::valid(m.commands)
        &&& WorkDoneProgressOptions::fields_valid(m.work_done_progress_options)
    }

    /// The members of a value, written between members of other names, read back as the value.
    pub proof fn lemma_fields_round_trip(m: ExecuteCommandOptionsModel, pre: Seq<(Seq<char>, JVal)>, post: Seq<(Seq<char>, JVal)>)
        requires
            Self::fields_valid(m),
            forall|k: Seq<char>| Self::uses_key(k) ==> (#[trigger] lookup(pre, k)) is None,
            forall|k: Seq<char>| Self::uses_key(k) ==> (#[trigger] lookup(post, k)) is None,
        ensures
            Self::fields_from(pre + Self::fields_json(m) + post) == Ok::<ExecuteCommandOptionsModel, DecodeError>(m),
    {
        broadcast use group_lookup;
        reveal(ExecuteCommandOptions::fields_from);
        reveal_strlit("commands");
        reveal_strlit("workDoneProgress");
        assert("commands"@.len() == 8);
        assert("workDoneProgress"@.len() == 16);
        <Vec<String>>::lemma_round_trip(m.commands);
        let before = pre + member("commands"@, <Vec<String>>::encode(m.commands));
        let after = post;
        WorkDoneProgressOptions::lemma_fields_round_trip(m.work_done_progress_options, before, after);
        assert(pre + Self::fields_json(m) + post =~= before + WorkDoneProgressOptions::fields_json(m.work_done_progress_options) + after);
    }

    /// Members with names that the type does not read change nothing.
    pub proof fn lemma_unknown_key(ms: Seq<(Seq<char>, JVal)>, k: Seq<char>, v: JVal)
        requires
            !Self::uses_key(k),
        ensures
            Self::fields_from(ms + member(k, v)) == Self::fields_from(ms),
    {
        broadcast use group_lookup;
        reveal(ExecuteCommandOptions::fields_from);
        WorkDoneProgressOptions::lemma_unknown_key(ms, k, v);
    }

    /// The member names that the type reads.
    pub open spec fn uses_key(k: Seq<char>) -> bool {
        k == "commands"@ || WorkDoneProgressOptions::uses_key(k)
    }

    /// Appends the members of the value to an object under construction.
    pub fn write_fields(&self, ms: &mut Vec<(String, Json)>)
        ensures
            members(Json::Object(*final(ms))@) == members(Json::Object(*old(ms))@) + Self::fields_json(self.model()),
    {
        let ghost start = members(Json::Object(*ms)@);
        let ghost m = self.model();
        push_member(ms, "commands", self.commands.to_json());
        self.work_done_progress_options.write_fields(ms);
        proof {
            lemma_concat_associative(start, member("commands"@, <Vec<String>>::encode(m.commands)), WorkDoneProgressOptions::fields_json(m.work_done_progress_options));
        }
    }

    /// Reads a value from the members of an object.
    pub fn read_fields(ms: &Vec<(String, Json)>) -> (r: Result<Self, DecodeError>)
        ensures
            match r {
                Ok(v) => Self::fields_from(members(Json::Object(*ms)@)) == Ok::<ExecuteCommandOptionsModel, DecodeError>(v.model()),
                Err(e) => Self::fields_from(members(Json::Object(*ms)@)) == Err::<ExecuteCommandOptionsModel, DecodeError>(e),
            },
    {
        proof {
            reveal(ExecuteCommandOptions::fields_from);
        }
        let commands = match read_req::<Vec<String>>(ms, "commands") {
            Ok(v) => v,
            Err(e) => return Err(e),
        };
        let work_done_progress_options = match WorkDoneProgressOptions::read_fields(ms) {
            Ok(v) => v,
            Err(e) => return Err(e),
        };
        Ok(ExecuteCommandOptions { commands, work_done_progress_options })
    }
}

impl JsonCodec for ExecuteCommandOptions {
    type Model = ExecuteCommandOptionsModel;

    open spec fn model(&self) -> ExecuteCommandOptionsModel {
        ExecuteCommandOptionsModel {
            commands: self.commands.model(),
            work_done_progress_options: self.work_done_progress_options.model(),
        }
    }

    open spec fn encode(m: ExecuteCommandOptionsModel) -> JVal {
        JVal::Obj(Self::fields_json(m))
    }

    open spec fn decode(j: JVal) -> Result<ExecuteCommandOptionsModel, DecodeError> {
        match j {
            JVal::Obj(ms) => Self::fields_from(ms),
            _ => Err(DecodeError::WrongShape),
        }
    }

    open spec fn valid(m: ExecuteCommandOptionsModel) -> bool {
        Self::fields_valid(m)
    }

    fn to_json(&self) -> (r: Json) {
        let mut ms = new_object();
        self.write_fields(&mut ms);
        Json::Object(ms)
    }

    fn from_json(j: &Json) -> (r: Result<Self, DecodeError>) {
        match j {
            Json::Object(ms) => Self::read_fields(ms),
            _ => Err(DecodeError::WrongShape),
        }
    }

    proof fn lemma_round_trip(m: ExecuteCommandOptionsModel) {
        Self::lemma_fields_round_trip(m, Seq::empty(), Seq::empty());
        assert(Seq::empty() + Self::fields_json(m) + Seq::empty() =~= Self::fields_json(m));
    }

}

/// Save options.
#[derive(Clone, Debug, Default, PartialEq, Eq, Structural)]
pub struct SaveOptions {
    /// Whether the client is supposed to include the content on save.
    pub include_text: Option<bool>,
}

impl SaveOptions {
    /// The members that a value contributes to the object it is written in.
    pub open spec fn fields_json(m: SaveOptions) -> Seq<(Seq<char>, JVal)> {
        opt_member::<bool>("includeText"@, m.include_text)
    }

    /// Reads a value from the members of an object; other members are ignored.
    #[verifier::opaque]
    pub open spec fn fields_from(ms: Seq<(Seq<char>, JVal)>) -> Result<SaveOptions, DecodeError> {
        match opt_field::<bool>(ms, "includeText"@) {
            Err(e) => Err(e),
            Ok(include_text) => {
                Ok(SaveOptions { include_text })
            },
        }
    }

    /// The models that values can have.
    pub open spec fn fields_valid(m: SaveOptions) -> bool {
        &&& opt_valid::<bool>(m.include_text)
    }

    /// The members of a value, written between members of other names, read back as the value.
    pub proof fn lemma_fields_round_trip(m: SaveOptions, pre: Seq<(Seq<char>, JVal)>, post: Seq<(Seq<char>, JVal)>)
        requires
            Self::fields_valid(m),
            forall|k: Seq<char>| Self::uses_key(k) ==> (#[trigger] lookup(pre, k)) is None,
            forall|k: Seq<char>| Self::uses_key(k) ==> (#[trigger] lookup(post, k)) is None,
        ensures
            Self::fields_from(pre + Self::fields_json(m) + post) == Ok::<SaveOptions, DecodeError>(m),
    {
        broadcast use group_lookup;
        reveal(SaveOptions::fields_from);
        reveal_strlit("includeText");
        assert("includeText"@.len() == 11);
        if let Some(x) = m.include_text {
            bool::lemma_round_trip(x);
        }
    }

    /// Members with names that the type does not read change nothing.
    pub proof fn lemma_unknown_key(ms: Seq<(Seq<char>, JVal)>, k: Seq<char>, v: JVal)
        requires
            !Self::uses_key(k),
        ensures
            Self::fields_from(ms + member(k, v)) == Self::fields_from(ms),
    {
        broadcast use group_lookup;
        reveal(SaveOptions::fields_from);
    }

    /// The member names that the type reads.
    pub open spec fn uses_key(k: Seq<char>) -> bool {
        k == "includeText"@
    }

    /// Appends the members of the value to an object under construction.
    pub fn write_fields(&self, ms: &mut Vec<(String, Json)>)
        ensures
            members(Json::Object(*final(ms))@) == members(Json::Object(*old(ms))@) + Self::fields_json(self.model()),
    {
        let ghost start = members(Json::Object(*ms)@);
        push_opt(ms, "includeText", &self.include_text);
        assert(members(Json::Object(*ms)@) =~= start + Self::fields_json(self.model()));
    }

    /// Reads a value from the members of an object.
    pub fn read_fields(ms: &Vec<(String, Json)>) -> (r: Result<Self, DecodeError>)
        ensures
            match r {
                Ok(v) => Self::fields_from(members(Json::Object(*ms)@)) == Ok::<SaveOptions, DecodeError>(v.model()),
                Err(e) => Self::fields_from(members(Json::Object(*ms)@)) == Err::<SaveOptions, DecodeError>(e),
            },
    {
        proof {
            reveal(SaveOptions::fields_from);
        }
        let include_text = match read_opt::<bool>(ms, "includeText") {
            Ok(v) => v,
            Err(e) => return Err(e),
        };
        Ok(SaveOptions { include_text })
    }
}

impl JsonCodec for SaveOptions {
    type Model = SaveOptions;

    open spec fn model(&self) -> SaveOptions {
        *self
    }

    open spec fn encode(m: SaveOptions) -> JVal {
        JVal::Obj(Self::fields_json(m))
    }

    open spec fn decode(j: JVal) -> Result<SaveOptions, DecodeError> {
        match j {
            JVal::Obj(ms) => Self::fields_from(ms),
            _ => Err(DecodeError::WrongShape),
        }
    }

    open spec fn valid(m: SaveOptions) -> bool {
        Self::fields_valid(m)
    }

    fn to_json(&self) -> (r: Json) {
        let mut ms = new_object();
        self.write_fields(&mut ms);
        Json::Object(ms)
    }

    fn from_json(j: &Json) -> (r: Result<Self, DecodeError>) {
        match j {
            Json::Object(ms) => Self::read_fields(ms),
            _ => Err(DecodeError::WrongShape),
        }
    }

    proof fn lemma_round_trip(m: SaveOptions) {
        Self::lemma_fields_round_trip(m, Seq::empty(), Seq::empty());
        assert(Seq::empty() + Self::fields_json(m) + Seq::empty() =~= Self::fields_json(m));
    }

}

/// Whether save notifications are sent, or the options for them.
#[derive(Clone, Debug, PartialEq, Eq)]
pub enum TextDocumentSyncSaveOptions {
    Supported(bool),
    SaveOptions(SaveOptions),
}

/// The mathematical value of a [`TextDocumentSyncSaveOptions`].
pub enum TextDocumentSyncSaveOptionsModel {
    Supported(bool),
    SaveOptions(SaveOptions),
}

/// Written as the variant's own encoding; decoding tries the variants in order.
impl JsonCodec for TextDocumentSyncSaveOptions {
    type Model = TextDocumentSyncSaveOptionsModel;

    open spec fn model(&self) -> TextDocumentSyncSaveOptionsModel {
        match self {
            TextDocumentSyncSaveOptions::Supported(x) => TextDocumentSyncSaveOptionsModel::Supported(x.model()),
            TextDocumentSyncSaveOptions::SaveOptions(x) => TextDocumentSyncSaveOptionsModel::SaveOptions(x.model()),
        }
    }

    open spec fn encode(m: TextDocumentSyncSaveOptionsModel) -> JVal {
        match m {
            TextDocumentSyncSaveOptionsModel::Supported(x) => bool::encode(x),
            TextDocumentSyncSaveOptionsModel::SaveOptions(x) => SaveOptions::encode(x),
        }
    }

    open spec fn decode(j: JVal) -> Result<TextDocumentSyncSaveOptionsModel, DecodeError> {
        match bool::decode(j) {
            Ok(x) => Ok(TextDocumentSyncSaveOptionsModel::Supported(x)),
            Err(_) => {
                match SaveOptions::decode(j) {
                    Ok(x) => Ok(TextDocumentSyncSaveOptionsModel::SaveOptions(x)),
                    Err(_) => {
                        Err(DecodeError::WrongShape)
                    },
                }
            },
        }
    }

    /// A variant is read back only where no earlier variant accepts its encoding.
    open spec fn valid(m: TextDocumentSyncSaveOptionsModel) -> bool {
        match m {
            TextDocumentSyncSaveOptionsModel::Supported(x) => bool::valid(x),
            TextDocumentSyncSaveOptionsModel::SaveOptions(x) => SaveOptions::valid(x) && bool::decode(SaveOptions::encode(x)) is Err,
        }
    }

    fn to_json(&self) -> (r: Json) {
        match self {
            TextDocumentSyncSaveOptions::Supported(x) => x.to_json(),
            TextDocumentSyncSaveOptions::SaveOptions(x) => x.to_json(),
        }
    }

    fn from_json(j: &Json) -> (r: Result<TextDocumentSyncSaveOptions, DecodeError>) {
        if let Ok(x) = bool::from_json(j) {
            return Ok(TextDocumentSyncSaveOptions::Supported(x));
        }
        if let Ok(x) = SaveOptions::from_json(j) {
            return Ok(TextDocumentSyncSaveOptions::SaveOptions(x));
        }
        Err(DecodeError::WrongShape)
    }

    proof fn lemma_round_trip(m: TextDocumentSyncSaveOptionsModel) {
        match m {
            TextDocumentSyncSaveOptionsModel::Supported(x) => bool::lemma_round_trip(x),
            TextDocumentSyncSaveOptionsModel::SaveOptions(x) => SaveOptions::lemma_round_trip(x),
        }
    }
}

/// How text documents are synced with the server.
#[derive(Clone, Debug, Default, PartialEq, Eq)]
pub struct TextDocumentSyncOptions {
    /// Whether open and close notifications are sent to the server.
    pub open_close: Option<bool>,
    /// How change notifications are sent to the server.
    pub change: Option<TextDocumentSyncKind>,
    pub will_save: Option<bool>,
    pub will_save_wait_until: Option<bool>,
    pub save: Option<TextDocumentSyncSaveOptions>,
}

/// The mathematical value of a [`TextDocumentSyncOptions`].
pub struct TextDocumentSyncOptionsModel {
    pub open_close: Option<bool>,
    pub change: Option<TextDocumentSyncKind>,
    pub will_save: Option<bool>,
    pub will_save_wait_until: Option<bool>,
    pub save: Option<TextDocumentSyncSaveOptionsModel>,
}

impl TextDocumentSyncOptions {
    /// The members that a value contributes to the object it is written in.
    pub open spec fn fields_json(m: TextDocumentSyncOptionsModel) -> Seq<(Seq<char>, JVal)> {
        opt_member::<bool>("openClose"@, m.open_close)
            + opt_member::<TextDocumentSyncKind>("change"@, m.change)
            + opt_member::<bool>("willSave"@, m.will_save)
            + opt_member::<bool>("willSaveWaitUntil"@, m.will_save_wait_until)
            + opt_member::<TextDocumentSyncSaveOptions>("save"@, m.save)
    }

    /// Reads a value from the members of an object; other members are ignored.
    #[verifier::opaque]
    pub open spec fn fields_from(ms: Seq<(Seq<char>, JVal)>) -> Result<TextDocumentSyncOptionsModel, DecodeError> {
        match opt_field::<bool>(ms, "openClose"@) {
            Err(e) => Err(e),
            Ok(open_close) => {
                match opt_field::<TextDocumentSyncKind>(ms, "change"@) {
                    Err(e) => Err(e),
                    Ok(change) => {
                        match opt_field::<bool>(ms, "willSave"@) {
                            Err(e) => Err(e),
                            Ok(will_save) => {
                                match opt_field::<bool>(ms, "willSaveWaitUntil"@) {
                                    Err(e) => Err(e),
                                    Ok(will_save_wait_until) => {
                                        match opt_field::<TextDocumentSyncSaveOptions>(ms, "save"@) {
                                            Err(e) => Err(e),
                                            Ok(save) => {
                                                Ok(TextDocumentSyncOptionsModel { open_close, change, will_save, will_save_wait_until, save })
                                            },
                                        }
                                    },
                                }
                            },
                        }
                    },
                }
            },
        }
    }

    /// The models that values can have.
    pub open spec fn fields_valid(m: TextDocumentSyncOptionsModel) -> bool {
        &&& opt_valid::<bool>(m.open_close)
        &&& opt_valid::<TextDocumentSyncKind>(m.change)
        &&& opt_valid::<bool>(m.will_save)
        &&& opt_valid::<bool>(m.will_save_wait_until)
        &&& opt_valid::<TextDocumentSyncSaveOptions>(m.save)
    }

    /// The members of a value, written between members of other names, read back as the value.
    pub proof fn lemma_fields_round_trip(m: TextDocumentSyncOptionsModel, pre: Seq<(Seq<char>, JVal)>, post: Seq<(Seq<char>, JVal)>)
        requires
            Self::fields_valid(m),
            forall|k: Seq<char>| Self::uses_key(k) ==> (#[trigger] lookup(pre, k)) is None,
            forall|k: Seq<char>| Self::uses_key(k) ==> (#[trigger] lookup(post, k)) is None,
        ensures
            Self::fields_from(pre + Self::fields_json(m) + post) == Ok::<TextDocumentSyncOptionsModel, DecodeError>(m),
    {
        broadcast use group_lookup;
        reveal(TextDocumentSyncOptions::fields_from);
        reveal_strlit("openClose");
        reveal_strlit("change");
        reveal_strlit("willSave");
        reveal_strlit("willSaveWaitUntil");
        reveal_strlit("save");
        assert("openClose"@.len() == 9);
        assert("change"@.len() == 6);
        assert("willSave"@.len() == 8);
        assert("willSaveWaitUntil"@.len() == 17);
        assert("save"@.len() == 4);
        if let Some(x) = m.open_close {
            bool::lemma_round_trip(x);
        }
        if let Some(x) = m.change {
            TextDocumentSyncKind::lemma_round_trip(x);
        }
        if let Some(x) = m.will_save {
            bool::lemma_round_trip(x);
        }
        if let Some(x) = m.will_save_wait_until {
            bool::lemma_round_trip(x);
        }
        if let Some(x) = m.save {
            TextDocumentSyncSaveOptions::lemma_round_trip(x);
        }
    }

    /// Members with names that the type does not read change nothing.
    pub proof fn lemma_unknown_key(ms: Seq<(Seq<char>, JVal)>, k: Seq<char>, v: JVal)
        requires
            !Self::uses_key(k),
        ensures
            Self::fields_from(ms + member(k, v)) == Self::fields_from(ms),
    {
        broadcast use group_lookup;
        reveal(TextDocumentSyncOptions::fields_from);
    }

    /// The member names that the type reads.
    pub open spec fn uses_key(k: Seq<char>) -> bool {
        k == "openClose"@ || k == "change"@ || k == "willSave"@ || k == "willSaveWaitUntil"@ || k == "save"@
    }

    /// Appends the members of the value to an object under construction.
    pub fn write_fields(&self, ms: &mut Vec<(String, Json)>)
        ensures
            members(Json::Object(*final(ms))@) == members(Json::Object(*old(ms))@) + Self::fields_json(self.model()),
    {
        let ghost start = members(Json::Object(*ms)@);
        let ghost m = self.model();
        push_opt(ms, "openClose", &self.open_close);
        push_opt(ms, "change", &self.change);
        proof {
            lemma_concat_associative(start, opt_member::<bool>("openClose"@, m.open_close), opt_member::<TextDocumentSyncKind>("change"@, m.change));
        }
        push_opt(ms, "willSave", &self.will_save);
        proof {
            lemma_concat_associative(start, opt_member::<bool>("openClose"@, m.open_close) + opt_member::<TextDocumentSyncKind>("change"@, m.change), opt_member::<bool>("willSave"@, m.will_save));
        }
        push_opt(ms, "willSaveWaitUntil", &self.will_save_wait_until);
        proof {
            lemma_concat_associative(start, opt_member::<bool>("openClose"@, m.open_close) + opt_member::<TextDocumentSyncKind>("change"@, m.change) + opt_member::<bool>("willSave"@, m.will_save), opt_member::<bool>("willSaveWaitUntil"@, m.will_save_wait_until));
        }
        push_opt(ms, "save", &self.save);
        proof {
            lemma_concat_associative(start, opt_member::<bool>("openClose"@, m.open_close) + opt_member::<TextDocumentSyncKind>("change"@, m.change) + opt_member::<bool>("willSave"@, m.will_save) + opt_member::<bool>("willSaveWaitUntil"@, m.will_save_wait_until), opt_member::<TextDocumentSyncSaveOptions>("save"@, m.save));
        }
    }

    /// Reads a value from the members of an object.
    pub fn read_fields(ms: &Vec<(String, Json)>) -> (r: Result<Self, DecodeError>)
        ensures
            match r {
                Ok(v) => Self::fields_from(members(Json::Object(*ms)@)) == Ok::<TextDocumentSyncOptionsModel, DecodeError>(v.model()),
                Err(e) => Self::fields_from(members(Json::Object(*ms)@)) == Err::<TextDocumentSyncOptionsModel, DecodeError>(e),
            },
    {
        proof {
            reveal(TextDocumentSyncOptions::fields_from);
        }
        let open_close = match read_opt::<bool>(ms, "openClose") {
            Ok(v) => v,
            Err(e) => return Err(e),
        };
        let change = match read_opt::<TextDocumentSyncKind>(ms, "change") {
            Ok(v) => v,
            Err(e) => return Err(e),
        };
        let will_save = match read_opt::<bool>(ms, "willSave") {
            Ok(v) => v,
            Err(e) => return Err(e),
        };
        let will_save_wait_until = match read_opt::<bool>(ms, "willSaveWaitUntil") {
            Ok(v) => v,
            Err(e) => return Err(e),
        };
        let save = match read_opt::<TextDocumentSyncSaveOptions>(ms, "save") {
            Ok(v) => v,
            Err(e) => return Err(e),
        };
        Ok(TextDocumentSyncOptions { open_close, change, will_save, will_save_wait_until, save })
    }
}

impl JsonCodec for TextDocumentSyncOptions {
    type Model = TextDocumentSyncOptionsModel;

    open spec fn model(&self) -> TextDocumentSyncOptionsModel {
        TextDocumentSyncOptionsModel {
            open_close: self.open_close.model(),
            change: self.change.model(),
            will_save: self.will_save.model(),
            will_save_wait_until: self.will_save_wait_until.model(),
            save: self.save.model(),
        }
    }

    open spec fn encode(m: TextDocumentSyncOptionsModel) -> JVal {
        JVal::Obj(Self::fields_json(m))
    }

    open spec fn decode(j: JVal) -> Result<TextDocumentSyncOptionsModel, DecodeError> {
        match j {
            JVal::Obj(ms) => Self::fields_from(ms),
            _ => Err(DecodeError::WrongShape),
        }
    }

    open spec fn valid(m: TextDocumentSyncOptionsModel) -> bool {
        Self::fields_valid(m)
    }

    fn to_json(&self) -> (r: Json) {
        let mut ms = new_object();
        self.write_fields(&mut ms);
        Json::Object(ms)
    }

    fn from_json(j: &Json) -> (r: Result<Self, DecodeError>) {
        match j {
            Json::Object(ms) => Self::read_fields(ms),
            _ => Err(DecodeError::WrongShape),
        }
    }

    proof fn lemma_round_trip(m: TextDocumentSyncOptionsModel) {
        Self::lemma_fields_round_trip(m, Seq::empty(), Seq::empty());
        assert(Seq::empty() + Self::fields_json(m) + Seq::empty() =~= Self::fields_json(m));
    }

}

/// Text document synchronization: a sync kind, or detailed options.
#[derive(Clone, Debug, PartialEq, Eq)]
pub enum TextDocumentSyncCapability {
    Kind(TextDocumentSyncKind),
    Options(TextDocumentSyncOptions),
}

/// The mathematical value of a [`TextDocumentSyncCapability`].
pub enum TextDocumentSyncCapabilityModel {
    Kind(TextDocumentSyncKind),
    Options(TextDocumentSyncOptionsModel),
}

/// Written as the variant's own encoding; decoding tries the variants in order.
impl JsonCodec for TextDocumentSyncCapability {
    type Model = TextDocumentSyncCapabilityModel;

    open spec fn model(&self) -> TextDocumentSyncCapabilityModel {
        match self {
            TextDocumentSyncCapability::Kind(x) => TextDocumentSyncCapabilityModel::Kind(x.model()),
            TextDocumentSyncCapability::Options(x) => TextDocumentSyncCapabilityModel::Options(x.model()),
        }
    }

    open spec fn encode(m: TextDocumentSyncCapabilityModel) -> JVal {
        match m {
            TextDocumentSyncCapabilityModel::Kind(x) => TextDocumentSyncKind::encode(x),
            TextDocumentSyncCapabilityModel::Options(x) => TextDocumentSyncOptions::encode(x),
        }
    }

    open spec fn decode(j: JVal) -> Result<TextDocumentSyncCapabilityModel, DecodeError> {
        match TextDocumentSyncKind::decode(j) {
            Ok(x) => Ok(TextDocumentSyncCapabilityModel::Kind(x)),
            Err(_) => {
                match TextDocumentSyncOptions::decode(j) {
                    Ok(x) => Ok(TextDocumentSyncCapabilityModel::Options(x)),
                    Err(_) => {
                        Err(DecodeError::WrongShape)
                    },
                }
            },
        }
    }

    /// A variant is read back only where no earlier variant accepts its encoding.
    open spec fn valid(m: TextDocumentSyncCapabilityModel) -> bool {
        match m {
            TextDocumentSyncCapabilityModel::Kind(x) => TextDocumentSyncKind::valid(x),
            TextDocumentSyncCapabilityModel::Options(x) => TextDocumentSyncOptions::valid(x) && TextDocumentSyncKind::decode(TextDocumentSyncOptions::encode(x)) is Err,
        }
    }

    fn to_json(&self) -> (r: Json) {
        match self {
            TextDocumentSyncCapability::Kind(x) => x.to_json(),
            TextDocumentSyncCapability::Options(x) => x.to_json(),
        }
    }

    fn from_json(j: &Json) -> (r: Result<TextDocumentSyncCapability, DecodeError>) {
        if let Ok(x) = TextDocumentSyncKind::from_json(j) {
            return Ok(TextDocumentSyncCapability::Kind(x));
        }
        if let Ok(x) = TextDocumentSyncOptions::from_json(j) {
            return Ok(TextDocumentSyncCapability::Options(x));
        }
        Err(DecodeError::WrongShape)
    }

    proof fn lemma_round_trip(m: TextDocumentSyncCapabilityModel) {
        match m {
            TextDocumentSyncCapabilityModel::Kind(x) => TextDocumentSyncKind::lemma_round_trip(x),
            TextDocumentSyncCapabilityModel::Options(x) => TextDocumentSyncOptions::lemma_round_trip(x),
        }
    }
}

/// How a server provides go-to-implementation.
#[derive(Clone, Debug, PartialEq, Eq)]
pub enum ImplementationProviderCapability {
    Simple(bool),
    Options(StaticTextDocumentRegistrationOptions),
}

/// The mathematical value of a [`ImplementationProviderCapability`].
pub enum ImplementationProviderCapabilityModel {
    Simple(bool),
    Options(StaticTextDocumentRegistrationOptionsModel),
}

/// Written as the variant's own encoding; decoding tries the variants in order.
impl JsonCodec for ImplementationProviderCapability {
    type Model = ImplementationProviderCapabilityModel;

    open spec fn model(&self) -> ImplementationProviderCapabilityModel {
        match self {
            ImplementationProviderCapability::Simple(x) => ImplementationProviderCapabilityModel::Simple(x.model()),
            ImplementationProviderCapability::Options(x) => ImplementationProviderCapabilityModel::Options(x.model()),
        }
    }

    open spec fn encode(m: ImplementationProviderCapabilityModel) -> JVal {
        match m {
            ImplementationProviderCapabilityModel::Simple(x) => bool::encode(x),
            ImplementationProviderCapabilityModel::Options(x) => StaticTextDocumentRegistrationOptions::encode(x),
        }
    }

    open spec fn decode(j: JVal) -> Result<ImplementationProviderCapabilityModel, DecodeError> {
        match bool::decode(j) {
            Ok(x) => Ok(ImplementationProviderCapabilityModel::Simple(x)),
            Err(_) => {
                match StaticTextDocumentRegistrationOptions::decode(j) {
                    Ok(x) => Ok(ImplementationProviderCapabilityModel::Options(x)),
                    Err(_) => {
                        Err(DecodeError::WrongShape)
                    },
                }
            },
        }
    }

    /// A variant is read back only where no earlier variant accepts its encoding.
    open spec fn valid(m: ImplementationProviderCapabilityModel) -> bool {
        match m {
            ImplementationProviderCapabilityModel::Simple(x) => bool::valid(x),
            ImplementationProviderCapabilityModel::Options(x) => StaticTextDocumentRegistrationOptions::valid(x) && bool::decode(StaticTextDocumentRegistrationOptions::encode(x)) is Err,
        }
    }

    fn to_json(&self) -> (r: Json) {
        match self {
            ImplementationProviderCapability::Simple(x) => x.to_json(),
            ImplementationProviderCapability::Options(x) => x.to_json(),
        }
    }

    fn from_json(j: &Json) -> (r: Result<ImplementationProviderCapability, DecodeError>) {
        if let Ok(x) = bool::from_json(j) {
            return Ok(ImplementationProviderCapability::Simple(x));
        }
        if let Ok(x) = StaticTextDocumentRegistrationOptions::from_json(j) {
            return Ok(ImplementationProviderCapability::Options(x));
        }
        Err(DecodeError::WrongShape)
    }

    proof fn lemma_round_trip(m: ImplementationProviderCapabilityModel) {
        match m {
            ImplementationProviderCapabilityModel::Simple(x) => bool::lemma_round_trip(x),
            ImplementationProviderCapabilityModel::Options(x) => StaticTextDocumentRegistrationOptions::lemma_round_trip(x),
        }
    }
}

/// How a server provides go-to-type-definition.
#[derive(Clone, Debug, PartialEq, Eq)]
pub enum TypeDefinitionProviderCapability {
    Simple(bool),
    Options(StaticTextDocumentRegistrationOptions),
}

/// The mathematical value of a [`TypeDefinitionProviderCapability`].
pub enum TypeDefinitionProviderCapabilityModel {
    Simple(bool),
    Options(StaticTextDocumentRegistrationOptionsModel),
}

/// Written as the variant's own encoding; decoding tries the variants in order.
impl JsonCodec for TypeDefinitionProviderCapability {
    type Model = TypeDefinitionProviderCapabilityModel;

    open spec fn model(&self) -> TypeDefinitionProviderCapabilityModel {
        match self {
            TypeDefinitionProviderCapability::Simple(x) => TypeDefinitionProviderCapabilityModel::Simple(x.model()),
            TypeDefinitionProviderCapability::Options(x) => TypeDefinitionProviderCapabilityModel::Options(x.model()),
        }
    }

    open spec fn encode(m: TypeDefinitionProviderCapabilityModel) -> JVal {
        match m {
            TypeDefinitionProviderCapabilityModel::Simple(x) => bool::encode(x),
            TypeDefinitionProviderCapabilityModel::Options(x) => StaticTextDocumentRegistrationOptions::encode(x),
        }
    }

    open spec fn decode(j: JVal) -> Result<TypeDefinitionProviderCapabilityModel, DecodeError> {
        match bool::decode(j) {
            Ok(x) => Ok(TypeDefinitionProviderCapabilityModel::Simple(x)),
            Err(_) => {
                match StaticTextDocumentRegistrationOptions::decode(j) {
                    Ok(x) => Ok(TypeDefinitionProviderCapabilityModel::Options(x)),
                    Err(_) => {
                        Err(DecodeError::WrongShape)
                    },
                }
            },
        }
    }

    /// A variant is read back only where no earlier variant accepts its encoding.
    open spec fn valid(m: TypeDefinitionProviderCapabilityModel) -> bool {
        match m {
            TypeDefinitionProviderCapabilityModel::Simple(x) => bool::valid(x),
            TypeDefinitionProviderCapabilityModel::Options(x) => StaticTextDocumentRegistrationOptions::valid(x) && bool::decode(StaticTextDocumentRegistrationOptions::encode(x)) is Err,
        }
    }

    fn to_json(&self) -> (r: Json) {
        match self {
            TypeDefinitionProviderCapability::Simple(x) => x.to_json(),
            TypeDefinitionProviderCapability::Options(x) => x.to_json(),
        }
    }

    fn from_json(j: &Json) -> (r: Result<TypeDefinitionProviderCapability, DecodeError>) {
        if let Ok(x) = bool::from_json(j) {
            return Ok(TypeDefinitionProviderCapability::Simple(x));
        }
        if let Ok(x) = StaticTextDocumentRegistrationOptions::from_json(j) {
            return Ok(TypeDefinitionProviderCapability::Options(x));
        }
        Err(DecodeError::WrongShape)
    }

    proof fn lemma_round_trip(m: TypeDefinitionProviderCapabilityModel) {
        match m {
            TypeDefinitionProviderCapabilityModel::Simple(x) => bool::lemma_round_trip(x),
            TypeDefinitionProviderCapabilityModel::Options(x) => StaticTextDocumentRegistrationOptions::lemma_round_trip(x),
        }
    }
}

/// Workspace folder support of a server.
#[derive(Clone, Debug, Default, PartialEq, Eq)]
pub struct WorkspaceFoldersServerCapabilities {
    /// Whether the server supports workspace folders.
    pub supported: Option<bool>,
    /// Whether the server wants folder change notifications, or the registration id for them.
    pub change_notifications: Option<OneOf<String, bool>>,
}

/// The mathematical value of a [`WorkspaceFoldersServerCapabilities`].
pub struct WorkspaceFoldersServerCapabilitiesModel {
    pub supported: Option<bool>,
    pub change_notifications: Option<Either<Seq<char>, bool>>,
}

impl WorkspaceFoldersServerCapabilities {
    /// The members that a value contributes to the object it is written in.
    pub open spec fn fields_json(m: WorkspaceFoldersServerCapabilitiesModel) -> Seq<(Seq<char>, JVal)> {
        opt_member::<bool>("supported"@, m.supported)
            + opt_member::<OneOf<String, bool>>("changeNotifications"@, m.change_notifications)
    }

    /// Reads a value from the members of an object; other members are ignored.
    #[verifier::opaque]
    pub open spec fn fields_from(ms: Seq<(Seq<char>, JVal)>) -> Result<WorkspaceFoldersServerCapabilitiesModel, DecodeError> {
        match opt_field::<bool>(ms, "supported"@) {
            Err(e) => Err(e),
            Ok(supported) => {
                match opt_field::<OneOf<String, bool>>(ms, "changeNotifications"@) {
                    Err(e) => Err(e),
                    Ok(change_notifications) => {
                        Ok(WorkspaceFoldersServerCapabilitiesModel { supported, change_notifications })
                    },
                }
            },
        }
    }

    /// The models that values can have.
    pub open spec fn fields_valid(m: WorkspaceFoldersServerCapabilitiesModel) -> bool {
        &&& opt_valid::<bool>(m.supported)
        &&& opt_valid::<OneOf<String, bool>>(m.change_notifications)
    }

    /// The members of a value, written between members of other names, read back as the value.
    pub proof fn lemma_fields_round_trip(m: WorkspaceFoldersServerCapabilitiesModel, pre: Seq<(Seq<char>, JVal)>, post: Seq<(Seq<char>, JVal)>)
        requires
            Self::fields_valid(m),
            forall|k: Seq<char>| Self::uses_key(k) ==> (#[trigger] lookup(pre, k)) is None,
            forall|k: Seq<char>| Self::uses_key(k) ==> (#[trigger] lookup(post, k)) is None,
        ensures
            Self::fields_from(pre + Self::fields_json(m) + post) == Ok::<WorkspaceFoldersServerCapabilitiesModel, DecodeError>(m),
    {
        broadcast use group_lookup;
        reveal(WorkspaceFoldersServerCapabilities::fields_from);
        reveal_strlit("supported");
        reveal_strlit("changeNotifications");
        assert("supported"@.len() == 9);
        assert("changeNotifications"@.len() == 19);
        if let Some(x) = m.supported {
            bool::lemma_round_trip(x);
        }
        if let Some(x) = m.change_notifications {
            <OneOf<String, bool>>::lemma_round_trip(x);
        }
    }

    /// Members with names that the type does not read change nothing.
    pub proof fn lemma_unknown_key(ms: Seq<(Seq<char>, JVal)>, k: Seq<char>, v: JVal)
        requires
            !Self::uses_key(k),
        ensures
            Self::fields_from(ms + member(k, v)) == Self::fields_from(ms),
    {
        broadcast use group_lookup;
        reveal(WorkspaceFoldersServerCapabilities::fields_from);
    }

    /// The member names that the type reads.
    pub open spec fn uses_key(k: Seq<char>) -> bool {
        k == "supported"@ || k == "changeNotifications"@
    }

    /// Appends the members of the value to an object under construction.
    pub fn write_fields(&self, ms: &mut Vec<(String, Json)>)
        ensures
            members(Json::Object(*final(ms))@) == members(Json::Object(*old(ms))@) + Self::fields_json(self.model()),
    {
        let ghost start = members(Json::Object(*ms)@);
        let ghost m = self.model();
        push_opt(ms, "supported", &self.supported);
        push_opt(ms, "changeNotifications", &self.change_notifications);
        proof {
            lemma_concat_associative(start, opt_member::<bool>("supported"@, m.supported), opt_member::<OneOf<String, bool>>("changeNotifications"@, m.change_notifications));
        }
    }

    /// Reads a value from the members of an object.
    pub fn read_fields(ms: &Vec<(String, Json)>) -> (r: Result<Self, DecodeError>)
        ensures
            match r {
                Ok(v) => Self::fields_from(members(Json::Object(*ms)@)) == Ok::<WorkspaceFoldersServerCapabilitiesModel, DecodeError>(v.model()),
                Err(e) => Self::fields_from(members(Json::Object(*ms)@)) == Err::<WorkspaceFoldersServerCapabilitiesModel, DecodeError>(e),
            },
    {
        proof {
            reveal(WorkspaceFoldersServerCapabilities::fields_from);
        }
        let supported = match read_opt::<bool>(ms, "supported") {
            Ok(v) => v,
            Err(e) => return Err(e),
        };
        let change_notifications = match read_opt::<OneOf<String, bool>>(ms, "changeNotifications") {
            Ok(v) => v,
            Err(e) => return Err(e),
        };
        Ok(WorkspaceFoldersServerCapabilities { supported, change_notifications })
    }
}

impl JsonCodec for WorkspaceFoldersServerCapabilities {
    type Model = WorkspaceFoldersServerCapabilitiesModel;

    open spec fn model(&self) -> WorkspaceFoldersServerCapabilitiesModel {
        WorkspaceFoldersServerCapabilitiesModel {
            supported: self.supported.model(),
            change_notifications: self.change_notifications.model(),
        }
    }

    open spec fn encode(m: WorkspaceFoldersServerCapabilitiesModel) -> JVal {
        JVal::Obj(Self::fields_json(m))
    }

    open spec fn decode(j: JVal) -> Result<WorkspaceFoldersServerCapabilitiesModel, DecodeError> {
        match j {
            JVal::Obj(ms) => Self::fields_from(ms),
            _ => Err(DecodeError::WrongShape),
        }
    }

    open spec fn valid(m: WorkspaceFoldersServerCapabilitiesModel) -> bool {
        Self::fields_valid(m)
    }

    fn to_json(&self) -> (r: Json) {
        let mut ms = new_object();
        self.write_fields(&mut ms);
        Json::Object(ms)
    }

    fn from_json(j: &Json) -> (r: Result<Self, DecodeError>) {
        match j {
            Json::Object(ms) => Self::read_fields(ms),
            _ => Err(DecodeError::WrongShape),
        }
    }

    proof fn lemma_round_trip(m: WorkspaceFoldersServerCapabilitiesModel) {
        Self::lemma_fields_round_trip(m, Seq::empty(), Seq::empty());
        assert(Seq::empty() + Self::fields_json(m) + Seq::empty() =~= Self::fields_json(m));
    }

}

/// Workspace-specific server capabilities.
#[derive(Clone, Debug, Default, PartialEq, Eq)]
pub struct WorkspaceServerCapabilities {
    pub workspace_folders: Option<WorkspaceFoldersServerCapabilities>,
}

/// The mathematical value of a [`WorkspaceServerCapabilities`].
pub struct WorkspaceServerCapabilitiesModel {
    pub workspace_folders: Option<WorkspaceFoldersServerCapabilitiesModel>,
}

impl WorkspaceServerCapabilities {
    /// The members that a value contributes to the object it is written in.
    pub open spec fn fields_json(m: WorkspaceServerCapabilitiesModel) -> Seq<(Seq<char>, JVal)> {
        opt_member::<WorkspaceFoldersServerCapabilities>("workspaceFolders"@, m.workspace_folders)
    }

    /// Reads a value from the members of an object; other members are ignored.
    #[verifier::opaque]
    pub open spec fn fields_from(ms: Seq<(Seq<char>, JVal)>) -> Result<WorkspaceServerCapabilitiesModel, DecodeError> {
        match opt_field::<WorkspaceFoldersServerCapabilities>(ms, "workspaceFolders"@) {
            Err(e) => Err(e),
            Ok(workspace_folders) => {
                Ok(WorkspaceServerCapabilitiesModel { workspace_folders })
            },
        }
    }

    /// The models that values can have.
    pub open spec fn fields_valid(m: WorkspaceServerCapabilitiesModel) -> bool {
        &&& opt_valid::<WorkspaceFoldersServerCapabilities>(m.workspace_folders)
    }

    /// The members of a value, written between members of other names, read back as the value.
    pub proof fn lemma_fields_round_trip(m: WorkspaceServerCapabilitiesModel, pre: Seq<(Seq<char>, JVal)>, post: Seq<(Seq<char>, JVal)>)
        requires
            Self::fields_valid(m),
            forall|k: Seq<char>| Self::uses_key(k) ==> (#[trigger] lookup(pre, k)) is None,
            forall|k: Seq<char>| Self::uses_key(k) ==> (#[trigger] lookup(post, k)) is None,
        ensures
            Self::fields_from(pre + Self::fields_json(m) + post) == Ok::<WorkspaceServerCapabilitiesModel, DecodeError>(m),
    {
        broadcast use group_lookup;
        reveal(WorkspaceServerCapabilities::fields_from);
        reveal_strlit("workspaceFolders");
        assert("workspaceFolders"@.len() == 16);
        if let Some(x) = m.workspace_folders {
            WorkspaceFoldersServerCapabilities::lemma_round_trip(x);
        }
    }

    /// Members with names that the type does not read change nothing.
    pub proof fn lemma_unknown_key(ms: Seq<(Seq<char>, JVal)>, k: Seq<char>, v: JVal)
        requires
            !Self::uses_key(k),
        ensures
            Self::fields_from(ms + member(k, v)) == Self::fields_from(ms),
    {
        broadcast use group_lookup;
        reveal(WorkspaceServerCapabilities::fields_from);
    }

    /// The member names that the type reads.
    pub open spec fn uses_key(k: Seq<char>) -> bool {
        k == "workspaceFolders"@
    }

    /// Appends the members of the value to an object under construction.
    pub fn write_fields(&self, ms: &mut Vec<(String, Json)>)
        ensures
            members(Json::Object(*final(ms))@) == members(Json::Object(*old(ms))@) + Self::fields_json(self.model()),
    {
        let ghost start = members(Json::Object(*ms)@);
        push_opt(ms, "workspaceFolders", &self.workspace_folders);
        assert(members(Json::Object(*ms)@) =~= start + Self::fields_json(self.model()));
    }

    /// Reads a value from the members of an object.
    pub fn read_fields(ms: &Vec<(String, Json)>) -> (r: Result<Self, DecodeError>)
        ensures
            match r {
                Ok(v) => Self::fields_from(members(Json::Object(*ms)@)) == Ok::<WorkspaceServerCapabilitiesModel, DecodeError>(v.model()),
                Err(e) => Self::fields_from(members(Json::Object(*ms)@)) == Err::<WorkspaceServerCapabilitiesModel, DecodeError>(e),
            },
    {
        proof {
            reveal(WorkspaceServerCapabilities::fields_from);
        }
        let workspace_folders = match read_opt::<WorkspaceFoldersServerCapabilities>(ms, "workspaceFolders") {
            Ok(v) => v,
            Err(e) => return Err(e),
        };
        Ok(WorkspaceServerCapabilities { workspace_folders })
    }
}

impl JsonCodec for WorkspaceServerCapabilities {
    type Model = WorkspaceServerCapabilitiesModel;

    open spec fn model(&self) -> WorkspaceServerCapabilitiesModel {
        WorkspaceServerCapabilitiesModel {
            workspace_folders: self.workspace_folders.model(),
        }
    }

    open spec fn encode(m: WorkspaceServerCapabilitiesModel) -> JVal {
        JVal::Obj(Self::fields_json(m))
    }

    open spec fn decode(j: JVal) -> Result<WorkspaceServerCapabilitiesModel, DecodeError> {
        match j {
            JVal::Obj(ms) => Self::fields_from(ms),
            _ => Err(DecodeError::WrongShape),
        }
    }

    open spec fn valid(m: WorkspaceServerCapabilitiesModel) -> bool {
        Self::fields_valid(m)
    }

    fn to_json(&self) -> (r: Json) {
        let mut ms = new_object();
        self.write_fields(&mut ms);
        Json::Object(ms)
    }

    fn from_json(j: &Json) -> (r: Result<Self, DecodeError>) {
        match j {
            Json::Object(ms) => Self::read_fields(ms),
            _ => Err(DecodeError::WrongShape),
        }
    }

    proof fn lemma_round_trip(m: WorkspaceServerCapabilitiesModel) {
        Self::lemma_fields_round_trip(m, Seq::empty(), Seq::empty());
        assert(Seq::empty() + Self::fields_json(m) + Seq::empty() =~= Self::fields_json(m));
    }

}

/// Registration options of the did-change notification.
#[derive(Clone, Debug, PartialEq, Eq)]
pub struct TextDocumentChangeRegistrationOptions {
    pub document_selector: Option<Vec<DocumentFilter>>,
    pub sync_kind: TextDocumentSyncKind,
}

/// The mathematical value of a [`TextDocumentChangeRegistrationOptions`].
pub struct TextDocumentChangeRegistrationOptionsModel {
    pub document_selector: Option<Seq<DocumentFilterModel>>,
    pub sync_kind: TextDocumentSyncKind,
}

impl TextDocumentChangeRegistrationOptions {
    /// The members that a value contributes to the object it is written in.
    pub open spec fn fields_json(m: TextDocumentChangeRegistrationOptionsModel) -> Seq<(Seq<char>, JVal)> {
        member("documentSelector"@, <Option<Vec<DocumentFilter>>>::encode(m.document_selector))
            + member("syncKind"@, TextDocumentSyncKind::encode(m.sync_kind))
    }

    /// Reads a value from the members of an object; other members are ignored.
    #[verifier::opaque]
    pub open spec fn fields_from(ms: Seq<(Seq<char>, JVal)>) -> Result<TextDocumentChangeRegistrationOptionsModel, DecodeError> {
        match nullable_field::<Vec<DocumentFilter>>(ms, "documentSelector"@) {
            Err(e) => Err(e),
            Ok(document_selector) => {
                match req_field::<TextDocumentSyncKind>(ms, "syncKind"@) {
                    Err(e) => Err(e),
                    Ok(sync_kind) => {
                        Ok(TextDocumentChangeRegistrationOptionsModel { document_selector, sync_kind })
                    },
                }
            },
        }
    }

    /// The models that values can have.
    pub open spec fn fields_valid(m: TextDocumentChangeRegistrationOptionsModel) -> bool {
        &&& <Option<Vec<DocumentFilter>>>::valid(m.document_selector)
        &&& TextDocumentSyncKind::valid(m.sync_kind)
    }

    /// The members of a value, written between members of other names, read back as the value.
    pub proof fn lemma_fields_round_trip(m: TextDocumentChangeRegistrationOptionsModel, pre: Seq<(Seq<char>, JVal)>, post: Seq<(Seq<char>, JVal)>)
        requires
            Self::fields_valid(m),
            forall|k: Seq<char>| Self::uses_key(k) ==> (#[trigger] lookup(pre, k)) is None,
            forall|k: Seq<char>| Self::uses_key(k) ==> (#[trigger] lookup(post, k)) is None,
        ensures
            Self::fields_from(pre + Self::fields_json(m) + post) == Ok::<TextDocumentChangeRegistrationOptionsModel, DecodeError>(m),
    {
        broadcast use group_lookup;
        reveal(TextDocumentChangeRegistrationOptions::fields_from);
        reveal_strlit("documentSelector");
        reveal_strlit("syncKind");
        assert("documentSelector"@.len() == 16);
        assert("syncKind"@.len() == 8);
        <Option<Vec<DocumentFilter>>>::lemma_round_trip(m.document_selector);
        TextDocumentSyncKind::lemma_round_trip(m.sync_kind);
    }

    /// Members with names that the type does not read change nothing.
    pub proof fn lemma_unknown_key(ms: Seq<(Seq<char>, JVal)>, k: Seq<char>, v: JVal)
        requires
            !Self::uses_key(k),
        ensures
            Self::fields_from(ms + member(k, v)) == Self::fields_from(ms),
    {
        broadcast use group_lookup;
        reveal(TextDocumentChangeRegistrationOptions::fields_from);
    }

    /// The member names that the type reads.
    pub open spec fn uses_key(k: Seq<char>) -> bool {
        k == "documentSelector"@ || k == "syncKind"@
    }

    /// Appends the members of the value to an object under construction.
    pub fn write_fields(&self, ms: &mut Vec<(String, Json)>)
        ensures
            members(Json::Object(*final(ms))@) == members(Json::Object(*old(ms))@) + Self::fields_json(self.model()),
    {
        let ghost start = members(Json::Object(*ms)@);
        let ghost m = self.model();
        push_member(ms, "documentSelector", self.document_selector.to_json());
        push_member(ms, "syncKind", self.sync_kind.to_json());
        proof {
            lemma_concat_associative(start, member("documentSelector"@, <Option<Vec<DocumentFilter>>>::encode(m.document_selector)), member("syncKind"@, TextDocumentSyncKind::encode(m.sync_kind)));
        }
    }

    /// Reads a value from the members of an object.
    pub fn read_fields(ms: &Vec<(String, Json)>) -> (r: Result<Self, DecodeError>)
        ensures
            match r {
                Ok(v) => Self::fields_from(members(Json::Object(*ms)@)) == Ok::<TextDocumentChangeRegistrationOptionsModel, DecodeError>(v.model()),
                Err(e) => Self::fields_from(members(Json::Object(*ms)@)) == Err::<TextDocumentChangeRegistrationOptionsModel, DecodeError>(e),
            },
    {
        proof {
            reveal(TextDocumentChangeRegistrationOptions::fields_from);
        }
        let document_selector = match read_nullable::<Vec<DocumentFilter>>(ms, "documentSelector") {
            Ok(v) => v,
            Err(e) => return Err(e),
        };
        let sync_kind = match read_req::<TextDocumentSyncKind>(ms, "syncKind") {
            Ok(v) => v,
            Err(e) => return Err(e),
        };
        Ok(TextDocumentChangeRegistrationOptions { document_selector, sync_kind })
    }
}

impl JsonCodec for TextDocumentChangeRegistrationOptions {
    type Model = TextDocumentChangeRegistrationOptionsModel;

    open spec fn model(&self) -> TextDocumentChangeRegistrationOptionsModel {
        TextDocumentChangeRegistrationOptionsModel {
            document_selector: self.document_selector.model(),
            sync_kind: self.sync_kind.model(),
        }
    }

    open spec fn encode(m: TextDocumentChangeRegistrationOptionsModel) -> JVal {
        JVal::Obj(Self::fields_json(m))
    }

    open spec fn decode(j: JVal) -> Result<TextDocumentChangeRegistrationOptionsModel, DecodeError> {
        match j {
            JVal::Obj(ms) => Self::fields_from(ms),
            _ => Err(DecodeError::WrongShape),
        }
    }

    open spec fn valid(m: TextDocumentChangeRegistrationOptionsModel) -> bool {
        Self::fields_valid(m)
    }

    fn to_json(&self) -> (r: Json) {
        let mut ms = new_object();
        self.write_fields(&mut ms);
        Json::Object(ms)
    }

    fn from_json(j: &Json) -> (r: Result<Self, DecodeError>) {
        match j {
            Json::Object(ms) => Self::read_fields(ms),
            _ => Err(DecodeError::WrongShape),
        }
    }

    proof fn lemma_round_trip(m: TextDocumentChangeRegistrationOptionsModel) {
        Self::lemma_fields_round_trip(m, Seq::empty(), Seq::empty());
        assert(Seq::empty() + Self::fields_json(m) + Seq::empty() =~= Self::fields_json(m));
    }

}

/// Registration options of the did-save notification.
#[derive(Clone, Debug, PartialEq, Eq)]
pub struct TextDocumentSaveRegistrationOptions {
    pub include_text: Option<bool>,
    pub text_document_registration_options: TextDocumentRegistrationOptions,
}

/// The mathematical value of a [`TextDocumentSaveRegistrationOptions`].
pub struct TextDocumentSaveRegistrationOptionsModel {
    pub include_text: Option<bool>,
    pub text_document_registration_options: TextDocumentRegistrationOptionsModel,
}

impl TextDocumentSaveRegistrationOptions {
    /// The members that a value contributes to the object it is written in.
    pub open spec fn fields_json(m: TextDocumentSaveRegistrationOptionsModel) -> Seq<(Seq<char>, JVal)> {
        opt_member::<bool>("includeText"@, m.include_text)
            + TextDocumentRegistrationOptions::fields_json(m.text_document_registration_options)
    }

    /// Reads a value from the members of an object; other members are ignored.
    #[verifier::opaque]
    pub open spec fn fields_from(ms: Seq<(Seq<char>, JVal)>) -> Result<TextDocumentSaveRegistrationOptionsModel, DecodeError> {
        match opt_field::<bool>(ms, "includeText"@) {
            Err(e) => Err(e),
            Ok(include_text) => {
                match TextDocumentRegistrationOptions::fields_from(ms) {
                    Err(e) => Err(e),
                    Ok(text_document_registration_options) => {
                        Ok(TextDocumentSaveRegistrationOptionsModel { include_text, text_document_registration_options })
                    },
                }
            },
        }
    }

    /// The models that values can have.
    pub open spec fn fields_valid(m: TextDocumentSaveRegistrationOptionsModel) -> bool {
        &&& opt_valid::<bool>(m.include_text)
        &&& TextDocumentRegistrationOptions::fields_valid(m.text_document_registration_options)
    }

    /// The members of a value, written between members of other names, read back as the value.
    pub proof fn lemma_fields_round_trip(m: TextDocumentSaveRegistrationOptionsModel, pre: Seq<(Seq<char>, JVal)>, post: Seq<(Seq<char>, JVal)>)
        requires
            Self::fields_valid(m),
            forall|k: Seq<char>| Self::uses_key(k) ==> (#[trigger] lookup(pre, k)) is None,
            forall|k: Seq<char>| Self::uses_key(k) ==> (#[trigger] lookup(post, k)) is None,
        ensures
            Self::fields_from(pre + Self::fields_json(m) + post) == Ok::<TextDocumentSaveRegistrationOptionsModel, DecodeError>(m),
    {
        broadcast use group_lookup;
        reveal(TextDocumentSaveRegistrationOptions::fields_from);
        reveal_strlit("includeText");
        reveal_strlit("documentSelector");
        assert("includeText"@.len() == 11);
        assert("documentSelector"@.len() == 16);
        if let Some(x) = m.include_text {
            bool::lemma_round_trip(x);
        }
        let before = pre + opt_member::<bool>("includeText"@, m.include_text);
        let after = post;
        TextDocumentRegistrationOptions::lemma_fields_round_trip(m.text_document_registration_options, before, after);
        assert(pre + Self::fields_json(m) + post =~= before + TextDocumentRegistrationOptions::fields_json(m.text_document_registration_options) + after);
    }

    /// Members with names that the type does not read change nothing.
    pub proof fn lemma_unknown_key(ms: Seq<(Seq<char>, JVal)>, k: Seq<char>, v: JVal)
        requires
            !Self::uses_key(k),
        ensures
            Self::fields_from(ms + member(k, v)) == Self::fields_from(ms),
    {
        broadcast use group_lookup;
        reveal(TextDocumentSaveRegistrationOptions::fields_from);
        TextDocumentRegistrationOptions::lemma_unknown_key(ms, k, v);
    }

    /// The member names that the type reads.
    pub open spec fn uses_key(k: Seq<char>) -> bool {
        k == "includeText"@ || TextDocumentRegistrationOptions::uses_key(k)
    }

    /// Appends the members of the value to an object under construction.
    pub fn write_fields(&self, ms: &mut Vec<(String, Json)>)
        ensures
            members(Json::Object(*final(ms))@) == members(Json::Object(*old(ms))@) + Self::fields_json(self.model()),
    {
        let ghost start = members(Json::Object(*ms)@);
        let ghost m = self.model();
        push_opt(ms, "includeText", &self.include_text);
        self.text_document_registration_options.write_fields(ms);
        proof {
            lemma_concat_associative(start, opt_member::<bool>("includeText"@, m.include_text), TextDocumentRegistrationOptions::fields_json(m.text_document_registration_options));
        }
    }

    /// Reads a value from the members of an object.
    pub fn read_fields(ms: &Vec<(String, Json)>) -> (r: Result<Self, DecodeError>)
        ensures
            match r {
                Ok(v) => Self::fields_from(members(Json::Object(*ms)@)) == Ok::<TextDocumentSaveRegistrationOptionsModel, DecodeError>(v.model()),
                Err(e) => Self::fields_from(members(Json::Object(*ms)@)) == Err::<TextDocumentSaveRegistrationOptionsModel, DecodeError>(e),
            },
    {
        proof {
            reveal(TextDocumentSaveRegistrationOptions::fields_from);
        }
        let include_text = match read_opt::<bool>(ms, "includeText") {
            Ok(v) => v,
            Err(e) => return Err(e),
        };
        let text_document_registration_options = match TextDocumentRegistrationOptions::read_fields(ms) {
            Ok(v) => v,
            Err(e) => return Err(e),
        };
        Ok(TextDocumentSaveRegistrationOptions { include_text, text_document_registration_options })
    }
}

impl JsonCodec for TextDocumentSaveRegistrationOptions {
    type Model = TextDocumentSaveRegistrationOptionsModel;

    open spec fn model(&self) -> TextDocumentSaveRegistrationOptionsModel {
        TextDocumentSaveRegistrationOptionsModel {
            include_text: self.include_text.model(),
            text_document_registration_options: self.text_document_registration_options.model(),
        }
    }

    open spec fn encode(m: TextDocumentSaveRegistrationOptionsModel) -> JVal {
        JVal::Obj(Self::fields_json(m))
    }

    open spec fn decode(j: JVal) -> Result<TextDocumentSaveRegistrationOptionsModel, DecodeError> {
        match j {
            JVal::Obj(ms) => Self::fields_from(ms),
            _ => Err(DecodeError::WrongShape),
        }
    }

    open spec fn valid(m: TextDocumentSaveRegistrationOptionsModel) -> bool {
        Self::fields_valid(m)
    }

    fn to_json(&self) -> (r: Json) {
        let mut ms = new_object();
        self.write_fields(&mut ms);
        Json::Object(ms)
    }

    fn from_json(j: &Json) -> (r: Result<Self, DecodeError>) {
        match j {
            Json::Object(ms) => Self::read_fields(ms),
            _ => Err(DecodeError::WrongShape),
        }
    }

    proof fn lemma_round_trip(m: TextDocumentSaveRegistrationOptionsModel) {
        Self::lemma_fields_round_trip(m, Seq::empty(), Seq::empty());
        assert(Seq::empty() + Self::fields_json(m) + Seq::empty() =~= Self::fields_json(m));
    }

}

} // verus!
