//! Workspace edits: text edits, resource operations and change annotations.

use vstd::prelude::*;
use vstd::seq_lib::lemma_concat_associative;
use crate::json::{get_member, group_lookup, lookup, member, members, new_object, nullable_field, opt_field, opt_member, opt_valid, push_member, push_opt, read_nullable, read_opt, read_req, req_field, string_is, DecodeError, JVal, Json, JsonCodec, ObjectMap};
use crate::basic::{AnnotatedTextEdit, AnnotatedTextEditModel, Either, OneOf, OptionalVersionedTextDocumentIdentifier, OptionalVersionedTextDocumentIdentifierModel, TextEdit, TextEditModel};
use crate::uri::Uri;

verus! {

/// Additional information that describes document changes.
#[derive(Clone, Debug, PartialEq, Eq)]
pub struct ChangeAnnotation {
    /// A human-readable string describing the change, rendered prominently in the user interface.
    pub label: String,
    /// Whether the user should confirm the change before it is applied.
    pub needs_confirmation: Option<bool>,
    /// A human-readable string rendered less prominently than the label.
    pub description: Option<String>,
}

/// The mathematical value of a [`ChangeAnnotation`].
pub struct ChangeAnnotationModel {
    pub label: Seq<char>,
    pub needs_confirmation: Option<bool>,
    pub description: Option<Seq<char>>,
}

impl ChangeAnnotation {
    /// The members that a value contributes to the object it is written in.
    pub open spec fn fields_json(m: ChangeAnnotationModel) -> Seq<(Seq<char>, JVal)> {
        member("label"@, String::encode(m.label))
            + opt_member::<bool>("needsConfirmation"@, m.needs_confirmation)
            + opt_member::<String>("description"@, m.description)
    }

    /// Reads a value from the members of an object; other members are ignored.
    #[verifier::opaque]
    pub open spec fn fields_from(ms: Seq<(Seq<char>, JVal)>) -> Result<ChangeAnnotationModel, DecodeError> {
        match req_field::<String>(ms, "label"@) {
            Err(e) => Err(e),
            Ok(label) => {
                match opt_field::<bool>(ms, "needsConfirmation"@) {
                    Err(e) => Err(e),
                    Ok(needs_confirmation) => {
                        match opt_field::<String>(ms, "description"@) {
                            Err(e) => Err(e),
                            Ok(description) => {
                                Ok(ChangeAnnotationModel { label, needs_confirmation, description })
                            },
                        }
                    },
                }
            },
        }
    }

    /// The models that values can have.
    pub open spec fn fields_valid(m: ChangeAnnotationModel) -> bool {
        &&& String::valid(m.label)
        &&& opt_valid::<bool>(m.needs_confirmation)
        &&& opt_valid::<String>(m.description)
    }

    /// The members of a value, written between members of other names, read back as the value.
    pub proof fn lemma_fields_round_trip(m: ChangeAnnotationModel, pre: Seq<(Seq<char>, JVal)>, post: Seq<(Seq<char>, JVal)>)
        requires
            Self::fields_valid(m),
            forall|k: Seq<char>| Self::uses_key(k) ==> (#[trigger] lookup(pre, k)) is None,
            forall|k: Seq<char>| Self::uses_key(k) ==> (#[trigger] lookup(post, k)) is None,
        ensures
            Self::fields_from(pre + Self::fields_json(m) + post) == Ok::<ChangeAnnotationModel, DecodeError>(m),
    {
        broadcast use group_lookup;
        reveal(ChangeAnnotation::fields_from);
        reveal_strlit("label");
        reveal_strlit("needsConfirmation");
        reveal_strlit("description");
        assert("label"@.len() == 5);
        assert("needsConfirmation"@.len() == 17);
        assert("description"@.len() == 11);
        String::lemma_round_trip(m.label);
        if let Some(x) = m.needs_confirmation {
            bool::lemma_round_trip(x);
        }
        if let Some(x) = m.description {
            String::lemma_round_trip(x);
        }
    }

    /// Members with names that the type does not read change nothing.
    pub proof fn lemma_unknown_key(ms: Seq<(Seq<char>, JVal)>, k: Seq<char>, v: JVal)
        requires
            !Self::uses_key(k),
        ensures
            Self::fields_from(ms + member(k, v)) == Self::fields_from(ms),
    {
        broadcast use group_lookup;
        reveal(ChangeAnnotation::fields_from);
    }

    /// The member names that the type reads.
    pub open spec fn uses_key(k: Seq<char>) -> bool {
        k == "label"@ || k == "needsConfirmation"@ || k == "description"@
    }

    /// Appends the members of the value to an object under construction.
    pub fn write_fields(&self, ms: &mut Vec<(String, Json)>)
        ensures
            members(Json::Object(*final(ms))@) == members(Json::Object(*old(ms))@) + Self::fields_json(self.model()),
    {
        let ghost start = members(Json::Object(*ms)@);
        let ghost m = self.model();
        push_member(ms, "label", self.label.to_json());
        push_opt(ms, "needsConfirmation", &self.needs_confirmation);
        proof {
            lemma_concat_associative(start, member("label"@, String::encode(m.label)), opt_member::<bool>("needsConfirmation"@, m.needs_confirmation));
        }
        push_opt(ms, "description", &self.description);
        proof {
            lemma_concat_associative(start, member("label"@, String::encode(m.label)) + opt_member::<bool>("needsConfirmation"@, m.needs_confirmation), opt_member::<String>("description"@, m.description));
        }
    }

    /// Reads a value from the members of an object.
    pub fn read_fields(ms: &Vec<(String, Json)>) -> (r: Result<Self, DecodeError>)
        ensures
            match r {
                Ok(v) => Self::fields_from(members(Json::Object(*ms)@)) == Ok::<ChangeAnnotationModel, DecodeError>(v.model()),
                Err(e) => Self::fields_from(members(Json::Object(*ms)@)) == Err::<ChangeAnnotationModel, DecodeError>(e),
            },
    {
        proof {
            reveal(ChangeAnnotation::fields_from);
        }
        let label = match read_req::<String>(ms, "label") {
            Ok(v) => v,
            Err(e) => return Err(e),
        };
        let needs_confirmation = match read_opt::<bool>(ms, "needsConfirmation") {
            Ok(v) => v,
            Err(e) => return Err(e),
        };
        let description = match read_opt::<String>(ms, "description") {
            Ok(v) => v,
            Err(e) => return Err(e),
        };
        Ok(ChangeAnnotation { label, needs_confirmation, description })
    }
}

impl JsonCodec for ChangeAnnotation {
    type Model = ChangeAnnotationModel;

    open spec fn model(&self) -> ChangeAnnotationModel {
        ChangeAnnotationModel {
            label: self.label.model(),
            needs_confirmation: self.needs_confirmation.model(),
            description: self.description.model(),
        }
    }

    open spec fn encode(m: ChangeAnnotationModel) -> JVal {
        JVal::Obj(Self::fields_json(m))
    }

    open spec fn decode(j: JVal) -> Result<ChangeAnnotationModel, DecodeError> {
        match j {
            JVal::Obj(ms) => Self::fields_from(ms),
            _ => Err(DecodeError::WrongShape),
        }
    }

    open spec fn valid(m: ChangeAnnotationModel) -> bool {
        Self::fields_valid(m)
    }

    fn to_json(&self) -> (r: Json) {
        let mut ms = new_object();
        self.write_fields(&mut ms);
        Json::Object(ms)
    }

    fn from_json(j: &Json) -> (r: Result<Self, DecodeError>) {
        match j {
            Json::Object(ms) => Self::read_fields(ms),
            _ => Err(DecodeError::WrongShape),
        }
    }

    proof fn lemma_round_trip(m: ChangeAnnotationModel) {
        Self::lemma_fields_round_trip(m, Seq::empty(), Seq::empty());
        assert(Seq::empty() + Self::fields_json(m) + Seq::empty() =~= Self::fields_json(m));
    }

}

/// Options to create a file.
#[derive(Clone, Debug, PartialEq, Eq, Structural)]
pub struct CreateFileOptions {
    pub overwrite: Option<bool>,
    pub ignore_if_exists: Option<bool>,
}

impl CreateFileOptions {
    /// The members that a value contributes to the object it is written in.
    pub open spec fn fields_json(m: CreateFileOptions) -> Seq<(Seq<char>, JVal)> {
        opt_member::<bool>("overwrite"@, m.overwrite)
            + opt_member::<bool>("ignoreIfExists"@, m.ignore_if_exists)
    }

    /// Reads a value from the members of an object; other members are ignored.
    #[verifier::opaque]
    pub open spec fn fields_from(ms: Seq<(Seq<char>, JVal)>) -> Result<CreateFileOptions, DecodeError> {
        match opt_field::<bool>(ms, "overwrite"@) {
            Err(e) => Err(e),
            Ok(overwrite) => {
                match opt_field::<bool>(ms, "ignoreIfExists"@) {
                    Err(e) => Err(e),
                    Ok(ignore_if_exists) => {
                        Ok(CreateFileOptions { overwrite, ignore_if_exists })
                    },
                }
            },
        }
    }

    /// The models that values can have.
    pub open spec fn fields_valid(m: CreateFileOptions) -> bool {
        &&& opt_valid::<bool>(m.overwrite)
        &&& opt_valid::<bool>(m.ignore_if_exists)
    }

    /// The members of a value, written between members of other names, read back as the value.
    pub proof fn lemma_fields_round_trip(m: CreateFileOptions, pre: Seq<(Seq<char>, JVal)>, post: Seq<(Seq<char>, JVal)>)
        requires
            Self::fields_valid(m),
            forall|k: Seq<char>| Self::uses_key(k) ==> (#[trigger] lookup(pre, k)) is None,
            forall|k: Seq<char>| Self::uses_key(k) ==> (#[trigger] lookup(post, k)) is None,
        ensures
            Self::fields_from(pre + Self::fields_json(m) + post) == Ok::<CreateFileOptions, DecodeError>(m),
    {
        broadcast use group_lookup;
        reveal(CreateFileOptions::fields_from);
        reveal_strlit("overwrite");
        reveal_strlit("ignoreIfExists");
        assert("overwrite"@.len() == 9);
        assert("ignoreIfExists"@.len() == 14);
        if let Some(x) = m.overwrite {
            bool::lemma_round_trip(x);
        }
        if let Some(x) = m.ignore_if_exists {
            bool::lemma_round_trip(x);
        }
    }

    /// Members with names that the type does not read change nothing.
    pub proof fn lemma_unknown_key(ms: Seq<(Seq<char>, JVal)>, k: Seq<char>, v: JVal)
        requires
            !Self::uses_key(k),
        ensures
            Self::fields_from(ms + member(k, v)) == Self::fields_from(ms),
    {
        broadcast use group_lookup;
        reveal(CreateFileOptions::fields_from);
    }

    /// The member names that the type reads.
    pub open spec fn uses_key(k: Seq<char>) -> bool {
        k == "overwrite"@ || k == "ignoreIfExists"@
    }

    /// Appends the members of the value to an object under construction.
    pub fn write_fields(&self, ms: &mut Vec<(String, Json)>)
        ensures
            members(Json::Object(*final(ms))@) == members(Json::Object(*old(ms))@) + Self::fields_json(self.model()),
    {
        let ghost start = members(Json::Object(*ms)@);
        let ghost m = self.model();
        push_opt(ms, "overwrite", &self.overwrite);
        push_opt(ms, "ignoreIfExists", &self.ignore_if_exists);
        proof {
            lemma_concat_associative(start, opt_member::<bool>("overwrite"@, m.overwrite), opt_member::<bool>("ignoreIfExists"@, m.ignore_if_exists));
        }
    }

    /// Reads a value from the members of an object.
    pub fn read_fields(ms: &Vec<(String, Json)>) -> (r: Result<Self, DecodeError>)
        ensures
            match r {
                Ok(v) => Self::fields_from(members(Json::Object(*ms)@)) == Ok::<CreateFileOptions, DecodeError>(v.model()),
                Err(e) => Self::fields_from(members(Json::Object(*ms)@)) == Err::<CreateFileOptions, DecodeError>(e),
            },
    {
        proof {
            reveal(CreateFileOptions::fields_from);
        }
        let overwrite = match read_opt::<bool>(ms, "overwrite") {
            Ok(v) => v,
            Err(e) => return Err(e),
        };
        let ignore_if_exists = match read_opt::<bool>(ms, "ignoreIfExists") {
            Ok(v) => v,
            Err(e) => return Err(e),
        };
        Ok(CreateFileOptions { overwrite, ignore_if_exists })
    }
}

impl JsonCodec for CreateFileOptions {
    type Model = CreateFileOptions;

    open spec fn model(&self) -> CreateFileOptions {
        *self
    }

    open spec fn encode(m: CreateFileOptions) -> JVal {
        JVal::Obj(Self::fields_json(m))
    }

    open spec fn decode(j: JVal) -> Result<CreateFileOptions, DecodeError> {
        match j {
            JVal::Obj(ms) => Self::fields_from(ms),
            _ => Err(DecodeError::WrongShape),
        }
    }

    open spec fn valid(m: CreateFileOptions) -> bool {
        Self::fields_valid(m)
    }

    fn to_json(&self) -> (r: Json) {
        let mut ms = new_object();
        self.write_fields(&mut ms);
        Json::Object(ms)
    }

    fn from_json(j: &Json) -> (r: Result<Self, DecodeError>) {
        match j {
            Json::Object(ms) => Self::read_fields(ms),
            _ => Err(DecodeError::WrongShape),
        }
    }

    proof fn lemma_round_trip(m: CreateFileOptions) {
        Self::lemma_fields_round_trip(m, Seq::empty(), Seq::empty());
        assert(Seq::empty() + Self::fields_json(m) + Seq::empty() =~= Self::fields_json(m));
    }

}

/// An operation to create a file.
#[derive(Clone, Debug, PartialEq, Eq)]
pub struct CreateFile {
    /// The resource to create.
    pub uri: Uri,
    /// Additional options.
    pub options: Option<CreateFileOptions>,
    /// An optional annotation identifier describing the operation.
    pub annotation_id: Option<String>,
}

/// The mathematical value of a [`CreateFile`].
pub struct CreateFileModel {
    pub uri: Seq<char>,
    pub options: Option<CreateFileOptions>,
    pub annotation_id: Option<Seq<char>>,
}

impl CreateFile {
    /// The members that a value contributes to the object it is written in.
    pub open spec fn fields_json(m: CreateFileModel) -> Seq<(Seq<char>, JVal)> {
        member("uri"@, Uri::encode(m.uri))
            + opt_member::<CreateFileOptions>("options"@, m.options)
            + opt_member::<String>("annotationId"@, m.annotation_id)
    }

    /// Reads a value from the members of an object; other members are ignored.
    #[verifier::opaque]
    pub open spec fn fields_from(ms: Seq<(Seq<char>, JVal)>) -> Result<CreateFileModel, DecodeError> {
        match req_field::<Uri>(ms, "uri"@) {
            Err(e) => Err(e),
            Ok(uri) => {
                match opt_field::<CreateFileOptions>(ms, "options"@) {
                    Err(e) => Err(e),
                    Ok(options) => {
                        match opt_field::<String>(ms, "annotationId"@) {
                            Err(e) => Err(e),
                            Ok(annotation_id) => {
                                Ok(CreateFileModel { uri, options, annotation_id })
                            },
                        }
                    },
                }
            },
        }
    }

    /// The models that values can have.
    pub open spec fn fields_valid(m: CreateFileModel) -> bool {
        &&& Uri::valid(m.uri)
        &&& opt_valid::<CreateFileOptions>(m.options)
        &&& opt_valid::<String>(m.annotation_id)
    }

    /// The members of a value, written between members of other names, read back as the value.
    pub proof fn lemma_fields_round_trip(m: CreateFileModel, pre: Seq<(Seq<char>, JVal)>, post: Seq<(Seq<char>, JVal)>)
        requires
            Self::fields_valid(m),
            forall|k: Seq<char>| Self::uses_key(k) ==> (#[trigger] lookup(pre, k)) is None,
            forall|k: Seq<char>| Self::uses_key(k) ==> (#[trigger] lookup(post, k)) is None,
        ensures
            Self::fields_from(pre + Self::fields_json(m) + post) == Ok::<CreateFileModel, DecodeError>(m),
    {
        broadcast use group_lookup;
        reveal(CreateFile::fields_from);
        reveal_strlit("uri");
        reveal_strlit("options");
        reveal_strlit("annotationId");
        assert("uri"@.len() == 3);
        assert("options"@.len() == 7);
        assert("annotationId"@.len() == 12);
        Uri::lemma_round_trip(m.uri);
        if let Some(x) = m.options {
            CreateFileOptions::lemma_round_trip(x);
        }
        if let Some(x) = m.annotation_id {
            String::lemma_round_trip(x);
        }
    }

    /// Members with names that the type does not read change nothing.
    pub proof fn lemma_unknown_key(ms: Seq<(Seq<char>, JVal)>, k: Seq<char>, v: JVal)
        requires
            !Self::uses_key(k),
        ensures
            Self::fields_from(ms + member(k, v)) == Self::fields_from(ms),
    {
        broadcast use group_lookup;
        reveal(CreateFile::fields_from);
    }

    /// The member names that the type reads.
    pub open spec fn uses_key(k: Seq<char>) -> bool {
        k == "uri"@ || k == "options"@ || k == "annotationId"@
    }

    /// Appends the members of the value to an object under construction.
    pub fn write_fields(&self, ms: &mut Vec<(String, Json)>)
        ensures
            members(Json::Object(*final(ms))@) == members(Json::Object(*old(ms))@) + Self::fields_json(self.model()),
    {
        let ghost start = members(Json::Object(*ms)@);
        let ghost m = self.model();
        push_member(ms, "uri", self.uri.to_json());
        push_opt(ms, "options", &self.options);
        proof {
            lemma_concat_associative(start, member("uri"@, Uri::encode(m.uri)), opt_member::<CreateFileOptions>("options"@, m.options));
        }
        push_opt(ms, "annotationId", &self.annotation_id);
        proof {
            lemma_concat_associative(start, member("uri"@, Uri::encode(m.uri)) + opt_member::<CreateFileOptions>("options"@, m.options), opt_member::<String>("annotationId"@, m.annotation_id));
        }
    }

    /// Reads a value from the members of an object.
    pub fn read_fields(ms: &Vec<(String, Json)>) -> (r: Result<Self, DecodeError>)
        ensures
            match r {
                Ok(v) => Self::fields_from(members(Json::Object(*ms)@)) == Ok::<CreateFileModel, DecodeError>(v.model()),
                Err(e) => Self::fields_from(members(Json::Object(*ms)@)) == Err::<CreateFileModel, DecodeError>(e),
            },
    {
        proof {
            reveal(CreateFile::fields_from);
        }
        let uri = match read_req::<Uri>(ms, "uri") {
            Ok(v) => v,
            Err(e) => return Err(e),
        };
        let options = match read_opt::<CreateFileOptions>(ms, "options") {
            Ok(v) => v,
            Err(e) => return Err(e),
        };
        let annotation_id = match read_opt::<String>(ms, "annotationId") {
            Ok(v) => v,
            Err(e) => return Err(e),
        };
        Ok(CreateFile { uri, options, annotation_id })
    }
}

impl JsonCodec for CreateFile {
    type Model = CreateFileModel;

    open spec fn model(&self) -> CreateFileModel {
        CreateFileModel {
            uri: self.uri.model(),
            options: self.options.model(),
            annotation_id: self.annotation_id.model(),
        }
    }

    open spec fn encode(m: CreateFileModel) -> JVal {
        JVal::Obj(Self::fields_json(m))
    }

    open spec fn decode(j: JVal) -> Result<CreateFileModel, DecodeError> {
        match j {
            JVal::Obj(ms) => Self::fields_from(ms),
            _ => Err(DecodeError::WrongShape),
        }
    }

    open spec fn valid(m: CreateFileModel) -> bool {
        Self::fields_valid(m)
    }

    fn to_json(&self) -> (r: Json) {
        let mut ms = new_object();
        self.write_fields(&mut ms);
        Json::Object(ms)
    }

    fn from_json(j: &Json) -> (r: Result<Self, DecodeError>) {
        match j {
            Json::Object(ms) => Self::read_fields(ms),
            _ => Err(DecodeError::WrongShape),
        }
    }

    proof fn lemma_round_trip(m: CreateFileModel) {
        Self::lemma_fields_round_trip(m, Seq::empty(), Seq::empty());
        assert(Seq::empty() + Self::fields_json(m) + Seq::empty() =~= Self::fields_json(m));
    }

}

/// Options to rename a file.
#[derive(Clone, Debug, PartialEq, Eq, Structural)]
pub struct RenameFileOptions {
    pub overwrite: Option<bool>,
    pub ignore_if_exists: Option<bool>,
}

impl RenameFileOptions {
    /// The members that a value contributes to the object it is written in.
    pub open spec fn fields_json(m: RenameFileOptions) -> Seq<(Seq<char>, JVal)> {
        opt_member::<bool>("overwrite"@, m.overwrite)
            + opt_member::<bool>("ignoreIfExists"@, m.ignore_if_exists)
    }

    /// Reads a value from the members of an object; other members are ignored.
    #[verifier::opaque]
    pub open spec fn fields_from(ms: Seq<(Seq<char>, JVal)>) -> Result<RenameFileOptions, DecodeError> {
        match opt_field::<bool>(ms, "overwrite"@) {
            Err(e) => Err(e),
            Ok(overwrite) => {
                match opt_field::<bool>(ms, "ignoreIfExists"@) {
                    Err(e) => Err(e),
                    Ok(ignore_if_exists) => {
                        Ok(RenameFileOptions { overwrite, ignore_if_exists })
                    },
                }
            },
        }
    }

    /// The models that values can have.
    pub open spec fn fields_valid(m: RenameFileOptions) -> bool {
        &&& opt_valid::<bool>(m.overwrite)
        &&& opt_valid::<bool>(m.ignore_if_exists)
    }

    /// The members of a value, written between members of other names, read back as the value.
    pub proof fn lemma_fields_round_trip(m: RenameFileOptions, pre: Seq<(Seq<char>, JVal)>, post: Seq<(Seq<char>, JVal)>)
        requires
            Self::fields_valid(m),
            forall|k: Seq<char>| Self::uses_key(k) ==> (#[trigger] lookup(pre, k)) is None,
            forall|k: Seq<char>| Self::uses_key(k) ==> (#[trigger] lookup(post, k)) is None,
        ensures
            Self::fields_from(pre + Self::fields_json(m) + post) == Ok::<RenameFileOptions, DecodeError>(m),
    {
        broadcast use group_lookup;
        reveal(RenameFileOptions::fields_from);
        reveal_strlit("overwrite");
        reveal_strlit("ignoreIfExists");
        assert("overwrite"@.len() == 9);
        assert("ignoreIfExists"@.len() == 14);
        if let Some(x) = m.overwrite {
            bool::lemma_round_trip(x);
        }
        if let Some(x) = m.ignore_if_exists {
            bool::lemma_round_trip(x);
        }
    }

    /// Members with names that the type does not read change nothing.
    pub proof fn lemma_unknown_key(ms: Seq<(Seq<char>, JVal)>, k: Seq<char>, v: JVal)
        requires
            !Self::uses_key(k),
        ensures
            Self::fields_from(ms + member(k, v)) == Self::fields_from(ms),
    {
        broadcast use group_lookup;
        reveal(RenameFileOptions::fields_from);
    }

    /// The member names that the type reads.
    pub open spec fn uses_key(k: Seq<char>) -> bool {
        k == "overwrite"@ || k == "ignoreIfExists"@
    }

    /// Appends the members of the value to an object under construction.
    pub fn write_fields(&self, ms: &mut Vec<(String, Json)>)
        ensures
            members(Json::Object(*final(ms))@) == members(Json::Object(*old(ms))@) + Self::fields_json(self.model()),
    {
        let ghost start = members(Json::Object(*ms)@);
        let ghost m = self.model();
        push_opt(ms, "overwrite", &self.overwrite);
        push_opt(ms, "ignoreIfExists", &self.ignore_if_exists);
        proof {
            lemma_concat_associative(start, opt_member::<bool>("overwrite"@, m.overwrite), opt_member::<bool>("ignoreIfExists"@, m.ignore_if_exists));
        }
    }

    /// Reads a value from the members of an object.
    pub fn read_fields(ms: &Vec<(String, Json)>) -> (r: Result<Self, DecodeError>)
        ensures
            match r {
                Ok(v) => Self::fields_from(members(Json::Object(*ms)@)) == Ok::<RenameFileOptions, DecodeError>(v.model()),
                Err(e) => Self::fields_from(members(Json::Object(*ms)@)) == Err::<RenameFileOptions, DecodeError>(e),
            },
    {
        proof {
            reveal(RenameFileOptions::fields_from);
        }
        let overwrite = match read_opt::<bool>(ms, "overwrite") {
            Ok(v) => v,
            Err(e) => return Err(e),
        };
        let ignore_if_exists = match read_opt::<bool>(ms, "ignoreIfExists") {
            Ok(v) => v,
            Err(e) => return Err(e),
        };
        Ok(RenameFileOptions { overwrite, ignore_if_exists })
    }
}

impl JsonCodec for RenameFileOptions {
    type Model = RenameFileOptions;

    open spec fn model(&self) -> RenameFileOptions {
        *self
    }

    open spec fn encode(m: RenameFileOptions) -> JVal {
        JVal::Obj(Self::fields_json(m))
    }

    open spec fn decode(j: JVal) -> Result<RenameFileOptions, DecodeError> {
        match j {
            JVal::Obj(ms) => Self::fields_from(ms),
            _ => Err(DecodeError::WrongShape),
        }
    }

    open spec fn valid(m: RenameFileOptions) -> bool {
        Self::fields_valid(m)
    }

    fn to_json(&self) -> (r: Json) {
        let mut ms = new_object();
        self.write_fields(&mut ms);
        Json::Object(ms)
    }

    fn from_json(j: &Json) -> (r: Result<Self, DecodeError>) {
        match j {
            Json::Object(ms) => Self::read_fields(ms),
            _ => Err(DecodeError::WrongShape),
        }
    }

    proof fn lemma_round_trip(m: RenameFileOptions) {
        Self::lemma_fields_round_trip(m, Seq::empty(), Seq::empty());
        assert(Seq::empty() + Self::fields_json(m) + Seq::empty() =~= Self::fields_json(m));
    }

}

/// An operation to rename a file.
#[derive(Clone, Debug, PartialEq, Eq)]
pub struct RenameFile {
    /// The old (existing) location.
    pub old_uri: Uri,
    /// The new location.
    pub new_uri: Uri,
    /// Rename options.
    pub options: Option<RenameFileOptions>,
    /// An optional annotation identifier describing the operation.
    pub annotation_id: Option<String>,
}

/// The mathematical value of a [`RenameFile`].
pub struct RenameFileModel {
    pub old_uri: Seq<char>,
    pub new_uri: Seq<char>,
    pub options: Option<RenameFileOptions>,
    pub annotation_id: Option<Seq<char>>,
}

impl RenameFile {
    /// The members that a value contributes to the object it is written in.
    pub open spec fn fields_json(m: RenameFileModel) -> Seq<(Seq<char>, JVal)> {
        member("oldUri"@, Uri::encode(m.old_uri))
            + member("newUri"@, Uri::encode(m.new_uri))
            + opt_member::<RenameFileOptions>("options"@, m.options)
            + opt_member::<String>("annotationId"@, m.annotation_id)
    }

    /// Reads a value from the members of an object; other members are ignored.
    #[verifier::opaque]
    pub open spec fn fields_from(ms: Seq<(Seq<char>, JVal)>) -> Result<RenameFileModel, DecodeError> {
        match req_field::<Uri>(ms, "oldUri"@) {
            Err(e) => Err(e),
            Ok(old_uri) => {
                match req_field::<Uri>(ms, "newUri"@) {
                    Err(e) => Err(e),
                    Ok(new_uri) => {
                        match opt_field::<RenameFileOptions>(ms, "options"@) {
                            Err(e) => Err(e),
                            Ok(options) => {
                                match opt_field::<String>(ms, "annotationId"@) {
                                    Err(e) => Err(e),
                                    Ok(annotation_id) => {
                                        Ok(RenameFileModel { old_uri, new_uri, options, annotation_id })
                                    },
                                }
                            },
                        }
                    },
                }
            },
        }
    }

    /// The models that values can have.
    pub open spec fn fields_valid(m: RenameFileModel) -> bool {
        &&& Uri::valid(m.old_uri)
        &&& Uri::valid(m.new_uri)
        &&& opt_valid::<RenameFileOptions>(m.options)
        &&& opt_valid::<String>(m.annotation_id)
    }

    /// The members of a value, written between members of other names, read back as the value.
    pub proof fn lemma_fields_round_trip(m: RenameFileModel, pre: Seq<(Seq<char>, JVal)>, post: Seq<(Seq<char>, JVal)>)
        requires
            Self::fields_valid(m),
            forall|k: Seq<char>| Self::uses_key(k) ==> (#[trigger] lookup(pre, k)) is None,
            forall|k: Seq<char>| Self::uses_key(k) ==> (#[trigger] lookup(post, k)) is None,
        ensures
            Self::fields_from(pre + Self::fields_json(m) + post) == Ok::<RenameFileModel, DecodeError>(m),
    {
        broadcast use group_lookup;
        reveal(RenameFile::fields_from);
        reveal_strlit("oldUri");
        reveal_strlit("newUri");
        reveal_strlit("options");
        reveal_strlit("annotationId");
        assert("oldUri"@.len() == 6);
        assert("newUri"@.len() == 6);
        assert("options"@.len() == 7);
        assert("annotationId"@.len() == 12);
        assert("oldUri"@[0] != "newUri"@[0]);
        Uri::lemma_round_trip(m.old_uri);
        Uri::lemma_round_trip(m.new_uri);
        if let Some(x) = m.options {
            RenameFileOptions::lemma_round_trip(x);
        }
        if let Some(x) = m.annotation_id {
            String::lemma_round_trip(x);
        }
    }

    /// Members with names that the type does not read change nothing.
    pub proof fn lemma_unknown_key(ms: Seq<(Seq<char>, JVal)>, k: Seq<char>, v: JVal)
        requires
            !Self::uses_key(k),
        ensures
            Self::fields_from(ms + member(k, v)) == Self::fields_from(ms),
    {
        broadcast use group_lookup;
        reveal(RenameFile::fields_from);
    }

    /// The member names that the type reads.
    pub open spec fn uses_key(k: Seq<char>) -> bool {
        k == "oldUri"@ || k == "newUri"@ || k == "options"@ || k == "annotationId"@
    }

    /// Appends the members of the value to an object under construction.
    pub fn write_fields(&self, ms: &mut Vec<(String, Json)>)
        ensures
            members(Json::Object(*final(ms))@) == members(Json::Object(*old(ms))@) + Self::fields_json(self.model()),
    {
        let ghost start = members(Json::Object(*ms)@);
        let ghost m = self.model();
        push_member(ms, "oldUri", self.old_uri.to_json());
        push_member(ms, "newUri", self.new_uri.to_json());
        proof {
            lemma_concat_associative(start, member("oldUri"@, Uri::encode(m.old_uri)), member("newUri"@, Uri::encode(m.new_uri)));
        }
        push_opt(ms, "options", &self.options);
        proof {
            lemma_concat_associative(start, member("oldUri"@, Uri::encode(m.old_uri)) + member("newUri"@, Uri::encode(m.new_uri)), opt_member::<RenameFileOptions>("options"@, m.options));
        }
        push_opt(ms, "annotationId", &self.annotation_id);
        proof {
            lemma_concat_associative(start, member("oldUri"@, Uri::encode(m.old_uri)) + member("newUri"@, Uri::encode(m.new_uri)) + opt_member::<RenameFileOptions>("options"@, m.options), opt_member::<String>("annotationId"@, m.annotation_id));
        }
    }

    /// Reads a value from the members of an object.
    pub fn read_fields(ms: &Vec<(String, Json)>) -> (r: Result<Self, DecodeError>)
        ensures
            match r {
                Ok(v) => Self::fields_from(members(Json::Object(*ms)@)) == Ok::<RenameFileModel, DecodeError>(v.model()),
                Err(e) => Self::fields_from(members(Json::Object(*ms)@)) == Err::<RenameFileModel, DecodeError>(e),
            },
    {
        proof {
            reveal(RenameFile::fields_from);
        }
        let old_uri = match read_req::<Uri>(ms, "oldUri") {
            Ok(v) => v,
            Err(e) => return Err(e),
        };
        let new_uri = match read_req::<Uri>(ms, "newUri") {
            Ok(v) => v,
            Err(e) => return Err(e),
        };
        let options = match read_opt::<RenameFileOptions>(ms, "options") {
            Ok(v) => v,
            Err(e) => return Err(e),
        };
        let annotation_id = match read_opt::<String>(ms, "annotationId") {
            Ok(v) => v,
            Err(e) => return Err(e),
        };
        Ok(RenameFile { old_uri, new_uri, options, annotation_id })
    }
}

impl JsonCodec for RenameFile {
    type Model = RenameFileModel;

    open spec fn model(&self) -> RenameFileModel {
        RenameFileModel {
            old_uri: self.old_uri.model(),
            new_uri: self.new_uri.model(),
            options: self.options.model(),
            annotation_id: self.annotation_id.model(),
        }
    }

    open spec fn encode(m: RenameFileModel) -> JVal {
        JVal::Obj(Self::fields_json(m))
    }

    open spec fn decode(j: JVal) -> Result<RenameFileModel, DecodeError> {
        match j {
            JVal::Obj(ms) => Self::fields_from(ms),
            _ => Err(DecodeError::WrongShape),
        }
    }

    open spec fn valid(m: RenameFileModel) -> bool {
        Self::fields_valid(m)
    }

    fn to_json(&self) -> (r: Json) {
        let mut ms = new_object();
        self.write_fields(&mut ms);
        Json::Object(ms)
    }

    fn from_json(j: &Json) -> (r: Result<Self, DecodeError>) {
        match j {
            Json::Object(ms) => Self::read_fields(ms),
            _ => Err(DecodeError::WrongShape),
        }
    }

    proof fn lemma_round_trip(m: RenameFileModel) {
        Self::lemma_fields_round_trip(m, Seq::empty(), Seq::empty());
        assert(Seq::empty() + Self::fields_json(m) + Seq::empty() =~= Self::fields_json(m));
    }

}

/// Options to delete a file.
#[derive(Clone, Debug, PartialEq, Eq)]
pub struct DeleteFileOptions {
    pub recursive: Option<bool>,
    pub ignore_if_not_exists: Option<bool>,
    pub annotation_id: Option<String>,
}

/// The mathematical value of a [`DeleteFileOptions`].
pub struct DeleteFileOptionsModel {
    pub recursive: Option<bool>,
    pub ignore_if_not_exists: Option<bool>,
    pub annotation_id: Option<Seq<char>>,
}

impl DeleteFileOptions {
    /// The members that a value contributes to the object it is written in.
    pub open spec fn fields_json(m: DeleteFileOptionsModel) -> Seq<(Seq<char>, JVal)> {
        opt_member::<bool>("recursive"@, m.recursive)
            + opt_member::<bool>("ignoreIfNotExists"@, m.ignore_if_not_exists)
            + opt_member::<String>("annotationId"@, m.annotation_id)
    }

    /// Reads a value from the members of an object; other members are ignored.
    #[verifier::opaque]
    pub open spec fn fields_from(ms: Seq<(Seq<char>, JVal)>) -> Result<DeleteFileOptionsModel, DecodeError> {
        match opt_field::<bool>(ms, "recursive"@) {
            Err(e) => Err(e),
            Ok(recursive) => {
                match opt_field::<bool>(ms, "ignoreIfNotExists"@) {
                    Err(e) => Err(e),
                    Ok(ignore_if_not_exists) => {
                        match opt_field::<String>(ms, "annotationId"@) {
                            Err(e) => Err(e),
                            Ok(annotation_id) => {
                                Ok(DeleteFileOptionsModel { recursive, ignore_if_not_exists, annotation_id })
                            },
                        }
                    },
                }
            },
        }
    }

    /// The models that values can have.
    pub open spec fn fields_valid(m: DeleteFileOptionsModel) -> bool {
        &&& opt_valid::<bool>(m.recursive)
        &&& opt_valid::<bool>(m.ignore_if_not_exists)
        &&& opt_valid::<String>(m.annotation_id)
    }

    /// The members of a value, written between members of other names, read back as the value.
    pub proof fn lemma_fields_round_trip(m: DeleteFileOptionsModel, pre: Seq<(Seq<char>, JVal)>, post: Seq<(Seq<char>, JVal)>)
        requires
            Self::fields_valid(m),
            forall|k: Seq<char>| Self::uses_key(k) ==> (#[trigger] lookup(pre, k)) is None,
            forall|k: Seq<char>| Self::uses_key(k) ==> (#[trigger] lookup(post, k)) is None,
        ensures
            Self::fields_from(pre + Self::fields_json(m) + post) == Ok::<DeleteFileOptionsModel, DecodeError>(m),
    {
        broadcast use group_lookup;
        reveal(DeleteFileOptions::fields_from);
        reveal_strlit("recursive");
        reveal_strlit("ignoreIfNotExists");
        reveal_strlit("annotationId");
        assert("recursive"@.len() == 9);
        assert("ignoreIfNotExists"@.len() == 17);
        assert("annotationId"@.len() == 12);
        if let Some(x) = m.recursive {
            bool::lemma_round_trip(x);
        }
        if let Some(x) = m.ignore_if_not_exists {
            bool::lemma_round_trip(x);
        }
        if let Some(x) = m.annotation_id {
            String::lemma_round_trip(x);
        }
    }

    /// Members with names that the type does not read change nothing.
    pub proof fn lemma_unknown_key(ms: Seq<(Seq<char>, JVal)>, k: Seq<char>, v: JVal)
        requires
            !Self::uses_key(k),
        ensures
            Self::fields_from(ms + member(k, v)) == Self::fields_from(ms),
    {
        broadcast use group_lookup;
        reveal(DeleteFileOptions::fields_from);
    }

    /// The member names that the type reads.
    pub open spec fn uses_key(k: Seq<char>) -> bool {
        k == "recursive"@ || k == "ignoreIfNotExists"@ || k == "annotationId"@
    }

    /// Appends the members of the value to an object under construction.
    pub fn write_fields(&self, ms: &mut Vec<(String, Json)>)
        ensures
            members(Json::Object(*final(ms))@) == members(Json::Object(*old(ms))@) + Self::fields_json(self.model()),
    {
        let ghost start = members(Json::Object(*ms)@);
        let ghost m = self.model();
        push_opt(ms, "recursive", &self.recursive);
        push_opt(ms, "ignoreIfNotExists", &self.ignore_if_not_exists);
        proof {
            lemma_concat_associative(start, opt_member::<bool>("recursive"@, m.recursive), opt_member::<bool>("ignoreIfNotExists"@, m.ignore_if_not_exists));
        }
        push_opt(ms, "annotationId", &self.annotation_id);
        proof {
            lemma_concat_associative(start, opt_member::<bool>("recursive"@, m.recursive) + opt_member::<bool>("ignoreIfNotExists"@, m.ignore_if_not_exists), opt_member::<String>("annotationId"@, m.annotation_id));
        }
    }

    /// Reads a value from the members of an object.
    pub fn read_fields(ms: &Vec<(String, Json)>) -> (r: Result<Self, DecodeError>)
        ensures
            match r {
                Ok(v) => Self::fields_from(members(Json::Object(*ms)@)) == Ok::<DeleteFileOptionsModel, DecodeError>(v.model()),
                Err(e) => Self::fields_from(members(Json::Object(*ms)@)) == Err::<DeleteFileOptionsModel, DecodeError>(e),
            },
    {
        proof {
            reveal(DeleteFileOptions::fields_from);
        }
        let recursive = match read_opt::<bool>(ms, "recursive") {
            Ok(v) => v,
            Err(e) => return Err(e),
        };
        let ignore_if_not_exists = match read_opt::<bool>(ms, "ignoreIfNotExists") {
            Ok(v) => v,
            Err(e) => return Err(e),
        };
        let annotation_id = match read_opt::<String>(ms, "annotationId") {
            Ok(v) => v,
            Err(e) => return Err(e),
        };
        Ok(DeleteFileOptions { recursive, ignore_if_not_exists, annotation_id })
    }
}

impl JsonCodec for DeleteFileOptions {
    type Model = DeleteFileOptionsModel;

    open spec fn model(&self) -> DeleteFileOptionsModel {
        DeleteFileOptionsModel {
            recursive: self.recursive.model(),
            ignore_if_not_exists: self.ignore_if_not_exists.model(),
            annotation_id: self.annotation_id.model(),
        }
    }

    open spec fn encode(m: DeleteFileOptionsModel) -> JVal {
        JVal::Obj(Self::fields_json(m))
    }

    open spec fn decode(j: JVal) -> Result<DeleteFileOptionsModel, DecodeError> {
        match j {
            JVal::Obj(ms) => Self::fields_from(ms),
            _ => Err(DecodeError::WrongShape),
        }
    }

    open spec fn valid(m: DeleteFileOptionsModel) -> bool {
        Self::fields_valid(m)
    }

    fn to_json(&self) -> (r: Json) {
        let mut ms = new_object();
        self.write_fields(&mut ms);
        Json::Object(ms)
    }

    fn from_json(j: &Json) -> (r: Result<Self, DecodeError>) {
        match j {
            Json::Object(ms) => Self::read_fields(ms),
            _ => Err(DecodeError::WrongShape),
        }
    }

    proof fn lemma_round_trip(m: DeleteFileOptionsModel) {
        Self::lemma_fields_round_trip(m, Seq::empty(), Seq::empty());
        assert(Seq::empty() + Self::fields_json(m) + Seq::empty() =~= Self::fields_json(m));
    }

}

/// An operation to delete a file.
#[derive(Clone, Debug, PartialEq, Eq)]
pub struct DeleteFile {
    /// The file to delete.
    pub uri: Uri,
    /// Delete options.
    pub options: Option<DeleteFileOptions>,
}

/// The mathematical value of a [`DeleteFile`].
pub struct DeleteFileModel {
    pub uri: Seq<char>,
    pub options: Option<DeleteFileOptionsModel>,
}

impl DeleteFile {
    /// The members that a value contributes to the object it is written in.
    pub open spec fn fields_json(m: DeleteFileModel) -> Seq<(Seq<char>, JVal)> {
        member("uri"@, Uri::encode(m.uri))
            + opt_member::<DeleteFileOptions>("options"@, m.options)
    }

    /// Reads a value from the members of an object; other members are ignored.
    #[verifier::opaque]
    pub open spec fn fields_from(ms: Seq<(Seq<char>, JVal)>) -> Result<DeleteFileModel, DecodeError> {
        match req_field::<Uri>(ms, "uri"@) {
            Err(e) => Err(e),
            Ok(uri) => {
                match opt_field::<DeleteFileOptions>(ms, "options"@) {
                    Err(e) => Err(e),
                    Ok(options) => {
                        Ok(DeleteFileModel { uri, options })
                    },
                }
            },
        }
    }

    /// The models that values can have.
    pub open spec fn fields_valid(m: DeleteFileModel) -> bool {
        &&& Uri::valid(m.uri)
        &&& opt_valid::<DeleteFileOptions>(m.options)
    }

    /// The members of a value, written between members of other names, read back as the value.
    pub proof fn lemma_fields_round_trip(m: DeleteFileModel, pre: Seq<(Seq<char>, JVal)>, post: Seq<(Seq<char>, JVal)>)
        requires
            Self::fields_valid(m),
            forall|k: Seq<char>| Self::uses_key(k) ==> (#[trigger] lookup(pre, k)) is None,
            forall|k: Seq<char>| Self::uses_key(k) ==> (#[trigger] lookup(post, k)) is None,
        ensures
            Self::fields_from(pre + Self::fields_json(m) + post) == Ok::<DeleteFileModel, DecodeError>(m),
    {
        broadcast use group_lookup;
        reveal(DeleteFile::fields_from);
        reveal_strlit("uri");
        reveal_strlit("options");
        assert("uri"@.len() == 3);
        assert("options"@.len() == 7);
        Uri::lemma_round_trip(m.uri);
        if let Some(x) = m.options {
            DeleteFileOptions::lemma_round_trip(x);
        }
    }

    /// Members with names that the type does not read change nothing.
    pub proof fn lemma_unknown_key(ms: Seq<(Seq<char>, JVal)>, k: Seq<char>, v: JVal)
        requires
            !Self::uses_key(k),
        ensures
            Self::fields_from(ms + member(k, v)) == Self::fields_from(ms),
    {
        broadcast use group_lookup;
        reveal(DeleteFile::fields_from);
    }

    /// The member names that the type reads.
    pub open spec fn uses_key(k: Seq<char>) -> bool {
        k == "uri"@ || k == "options"@
    }

    /// Appends the members of the value to an object under construction.
    pub fn write_fields(&self, ms: &mut Vec<(String, Json)>)
        ensures
            members(Json::Object(*final(ms))@) == members(Json::Object(*old(ms))@) + Self::fields_json(self.model()),
    {
        let ghost start = members(Json::Object(*ms)@);
        let ghost m = self.model();
        push_member(ms, "uri", self.uri.to_json());
        push_opt(ms, "options", &self.options);
        proof {
            lemma_concat_associative(start, member("uri"@, Uri::encode(m.uri)), opt_member::<DeleteFileOptions>("options"@, m.options));
        }
    }

    /// Reads a value from the members of an object.
    pub fn read_fields(ms: &Vec<(String, Json)>) -> (r: Result<Self, DecodeError>)
        ensures
            match r {
                Ok(v) => Self::fields_from(members(Json::Object(*ms)@)) == Ok::<DeleteFileModel, DecodeError>(v.model()),
                Err(e) => Self::fields_from(members(Json::Object(*ms)@)) == Err::<DeleteFileModel, DecodeError>(e),
            },
    {
        proof {
            reveal(DeleteFile::fields_from);
        }
        let uri = match read_req::<Uri>(ms, "uri") {
            Ok(v) => v,
            Err(e) => return Err(e),
        };
        let options = match read_opt::<DeleteFileOptions>(ms, "options") {
            Ok(v) => v,
            Err(e) => return Err(e),
        };
        Ok(DeleteFile { uri, options })
    }
}

impl JsonCodec for DeleteFile {
    type Model = DeleteFileModel;

    open spec fn model(&self) -> DeleteFileModel {
        DeleteFileModel {
            uri: self.uri.model(),
            options: self.options.model(),
        }
    }

    open spec fn encode(m: DeleteFileModel) -> JVal {
        JVal::Obj(Self::fields_json(m))
    }

    open spec fn decode(j: JVal) -> Result<DeleteFileModel, DecodeError> {
        match j {
            JVal::Obj(ms) => Self::fields_from(ms),
            _ => Err(DecodeError::WrongShape),
        }
    }

    open spec fn valid(m: DeleteFileModel) -> bool {
        Self::fields_valid(m)
    }

    fn to_json(&self) -> (r: Json) {
        let mut ms = new_object();
        self.write_fields(&mut ms);
        Json::Object(ms)
    }

    fn from_json(j: &Json) -> (r: Result<Self, DecodeError>) {
        match j {
            Json::Object(ms) => Self::read_fields(ms),
            _ => Err(DecodeError::WrongShape),
        }
    }

    proof fn lemma_round_trip(m: DeleteFileModel) {
        Self::lemma_fields_round_trip(m, Seq::empty(), Seq::empty());
        assert(Seq::empty() + Self::fields_json(m) + Seq::empty() =~= Self::fields_json(m));
    }

}

/// A resource operation, tagged by its `kind` member (`create`, `rename` or `delete`).
#[derive(Clone, Debug, PartialEq, Eq)]
pub enum ResourceOp {
    Create(CreateFile),
    Rename(RenameFile),
    Delete(DeleteFile),
}

/// The mathematical value of a [`ResourceOp`].
pub enum ResourceOpModel {
    Create(CreateFileModel),
    Rename(RenameFileModel),
    Delete(DeleteFileModel),
}

impl JsonCodec for ResourceOp {
    type Model = ResourceOpModel;

    open spec fn model(&self) -> ResourceOpModel {
        match self {
            ResourceOp::Create(c) => ResourceOpModel::Create(c.model()),
            ResourceOp::Rename(r) => ResourceOpModel::Rename(r.model()),
            ResourceOp::Delete(d) => ResourceOpModel::Delete(d.model()),
        }
    }

    open spec fn encode(m: ResourceOpModel) -> JVal {
        match m {
            ResourceOpModel::Create(c) => JVal::Obj(member("kind"@, JVal::Str("create"@)) + CreateFile::fields_json(c)),
            ResourceOpModel::Rename(r) => JVal::Obj(member("kind"@, JVal::Str("rename"@)) + RenameFile::fields_json(r)),
            ResourceOpModel::Delete(d) => JVal::Obj(member("kind"@, JVal::Str("delete"@)) + DeleteFile::fields_json(d)),
        }
    }

    open spec fn decode(j: JVal) -> Result<ResourceOpModel, DecodeError> {
        match j {
            JVal::Obj(ms) => match lookup(ms, "kind"@) {
                None => Err(DecodeError::MissingField),
                Some(JVal::Str(t)) => if t == "create"@ {
                    match CreateFile::fields_from(ms) {
                        Ok(c) => Ok(ResourceOpModel::Create(c)),
                        Err(e) => Err(e),
                    }
                } else if t == "rename"@ {
                    match RenameFile::fields_from(ms) {
                        Ok(r) => Ok(ResourceOpModel::Rename(r)),
                        Err(e) => Err(e),
                    }
                } else if t == "delete"@ {
                    match DeleteFile::fields_from(ms) {
                        Ok(d) => Ok(ResourceOpModel::Delete(d)),
                        Err(e) => Err(e),
                    }
                } else {
                    Err(DecodeError::UnknownVariant)
                },
                Some(_) => Err(DecodeError::WrongShape),
            },
            _ => Err(DecodeError::WrongShape),
        }
    }

    open spec fn valid(m: ResourceOpModel) -> bool {
        match m {
            ResourceOpModel::Create(c) => CreateFile::fields_valid(c),
            ResourceOpModel::Rename(r) => RenameFile::fields_valid(r),
            ResourceOpModel::Delete(d) => DeleteFile::fields_valid(d),
        }
    }

    fn to_json(&self) -> (r: Json) {
        let mut ms = new_object();
        match self {
            ResourceOp::Create(c) => {
                push_member(&mut ms, "kind", Json::Str("create".to_owned()));
                c.write_fields(&mut ms);
            },
            ResourceOp::Rename(r) => {
                push_member(&mut ms, "kind", Json::Str("rename".to_owned()));
                r.write_fields(&mut ms);
            },
            ResourceOp::Delete(d) => {
                push_member(&mut ms, "kind", Json::Str("delete".to_owned()));
                d.write_fields(&mut ms);
            },
        }
        Json::Object(ms)
    }

    fn from_json(j: &Json) -> (r: Result<ResourceOp, DecodeError>) {
        match j {
            Json::Object(ms) => match get_member(ms, "kind") {
                None => Err(DecodeError::MissingField),
                Some(Json::Str(t)) => {
                    if string_is(t, "create") {
                        match CreateFile::read_fields(ms) {
                            Ok(c) => Ok(ResourceOp::Create(c)),
                            Err(e) => Err(e),
                        }
                    } else if string_is(t, "rename") {
                        match RenameFile::read_fields(ms) {
                            Ok(r) => Ok(ResourceOp::Rename(r)),
                            Err(e) => Err(e),
                        }
                    } else if string_is(t, "delete") {
                        match DeleteFile::read_fields(ms) {
                            Ok(d) => Ok(ResourceOp::Delete(d)),
                            Err(e) => Err(e),
                        }
                    } else {
                        Err(DecodeError::UnknownVariant)
                    }
                },
                Some(_) => Err(DecodeError::WrongShape),
            },
            _ => Err(DecodeError::WrongShape),
        }
    }

    proof fn lemma_round_trip(m: ResourceOpModel) {
        broadcast use group_lookup;
        reveal_strlit("kind");
        reveal_strlit("create");
        reveal_strlit("rename");
        reveal_strlit("delete");
        reveal_strlit("uri");
        reveal_strlit("oldUri");
        reveal_strlit("newUri");
        reveal_strlit("options");
        reveal_strlit("annotationId");
        assert("kind"@.len() == 4);
        assert("uri"@.len() == 3);
        assert("oldUri"@.len() == 6);
        assert("newUri"@.len() == 6);
        assert("options"@.len() == 7);
        assert("annotationId"@.len() == 12);
        assert("create"@[0] != "rename"@[0]);
        assert("create"@[0] != "delete"@[0]);
        assert("rename"@[0] != "delete"@[0]);
        let e = Seq::<(Seq<char>, JVal)>::empty();
        match m {
            ResourceOpModel::Create(c) => {
                let pre = member("kind"@, JVal::Str("create"@));
                CreateFile::lemma_fields_round_trip(c, pre, e);
                assert(pre + CreateFile::fields_json(c) + e =~= pre + CreateFile::fields_json(c));
            },
            ResourceOpModel::Rename(r) => {
                let pre = member("kind"@, JVal::Str("rename"@));
                RenameFile::lemma_fields_round_trip(r, pre, e);
                assert(pre + RenameFile::fields_json(r) + e =~= pre + RenameFile::fields_json(r));
            },
            ResourceOpModel::Delete(d) => {
                let pre = member("kind"@, JVal::Str("delete"@));
                DeleteFile::lemma_fields_round_trip(d, pre, e);
                assert(pre + DeleteFile::fields_json(d) + e =~= pre + DeleteFile::fields_json(d));
            },
        }
    }
}

/// Textual changes on a single text document, at a given version.
#[derive(Clone, Debug, PartialEq, Eq)]
pub struct TextDocumentEdit {
    /// The text document to change.
    pub text_document: OptionalVersionedTextDocumentIdentifier,
    /// The edits to be applied.
    pub edits: Vec<OneOf<TextEdit, AnnotatedTextEdit>>,
}

/// The mathematical value of a [`TextDocumentEdit`].
pub struct TextDocumentEditModel {
    pub text_document: OptionalVersionedTextDocumentIdentifierModel,
    pub edits: Seq<Either<TextEditModel, AnnotatedTextEditModel>>,
}

impl TextDocumentEdit {
    /// The members that a value contributes to the object it is written in.
    pub open spec fn fields_json(m: TextDocumentEditModel) -> Seq<(Seq<char>, JVal)> {
        member("textDocument"@, OptionalVersionedTextDocumentIdentifier::encode(m.text_document))
            + member("edits"@, <Vec<OneOf<TextEdit, AnnotatedTextEdit>>>::encode(m.edits))
    }

    /// Reads a value from the members of an object; other members are ignored.
    #[verifier::opaque]
    pub open spec fn fields_from(ms: Seq<(Seq<char>, JVal)>) -> Result<TextDocumentEditModel, DecodeError> {
        match req_field::<OptionalVersionedTextDocumentIdentifier>(ms, "textDocument"@) {
            Err(e) => Err(e),
            Ok(text_document) => {
                match req_field::<Vec<OneOf<TextEdit, AnnotatedTextEdit>>>(ms, "edits"@) {
                    Err(e) => Err(e),
                    Ok(edits) => {
                        Ok(TextDocumentEditModel { text_document, edits })
                    },
                }
            },
        }
    }

    /// The models that values can have.
    pub open spec fn fields_valid(m: TextDocumentEditModel) -> bool {
        &&& OptionalVersionedTextDocumentIdentifier::valid(m.text_document)
        &&& <Vec<OneOf<TextEdit, AnnotatedTextEdit>>>::valid(m.edits)
    }

    /// The members of a value, written between members of other names, read back as the value.
    pub proof fn lemma_fields_round_trip(m: TextDocumentEditModel, pre: Seq<(Seq<char>, JVal)>, post: Seq<(Seq<char>, JVal)>)
        requires
            Self::fields_valid(m),
            forall|k: Seq<char>| Self::uses_key(k) ==> (#[trigger] lookup(pre, k)) is None,
            forall|k: Seq<char>| Self::uses_key(k) ==> (#[trigger] lookup(post, k)) is None,
        ensures
            Self::fields_from(pre + Self::fields_json(m) + post) == Ok::<TextDocumentEditModel, DecodeError>(m),
    {
        broadcast use group_lookup;
        reveal(TextDocumentEdit::fields_from);
        reveal_strlit("textDocument");
        reveal_strlit("edits");
        assert("textDocument"@.len() == 12);
        assert("edits"@.len() == 5);
        OptionalVersionedTextDocumentIdentifier::lemma_round_trip(m.text_document);
        <Vec<OneOf<TextEdit, AnnotatedTextEdit>>>::lemma_round_trip(m.edits);
    }

    /// Members with names that the type does not read change nothing.
    pub proof fn lemma_unknown_key(ms: Seq<(Seq<char>, JVal)>, k: Seq<char>, v: JVal)
        requires
            !Self::uses_key(k),
        ensures
            Self::fields_from(ms + member(k, v)) == Self::fields_from(ms),
    {
        broadcast use group_lookup;
        reveal(TextDocumentEdit::fields_from);
    }

    /// The member names that the type reads.
    pub open spec fn uses_key(k: Seq<char>) -> bool {
        k == "textDocument"@ || k == "edits"@
    }

    /// Appends the members of the value to an object under construction.
    pub fn write_fields(&self, ms: &mut Vec<(String, Json)>)
        ensures
            members(Json::Object(*final(ms))@) == members(Json::Object(*old(ms))@) + Self::fields_json(self.model()),
    {
        let ghost start = members(Json::Object(*ms)@);
        let ghost m = self.model();
        push_member(ms, "textDocument", self.text_document.to_json());
        push_member(ms, "edits", self.edits.to_json());
        proof {
            lemma_concat_associative(start, member("textDocument"@, OptionalVersionedTextDocumentIdentifier::encode(m.text_document)), member("edits"@, <Vec<OneOf<TextEdit, AnnotatedTextEdit>>>::encode(m.edits)));
        }
    }

    /// Reads a value from the members of an object.
    pub fn read_fields(ms: &Vec<(String, Json)>) -> (r: Result<Self, DecodeError>)
        ensures
            match r {
                Ok(v) => Self::fields_from(members(Json::Object(*ms)@)) == Ok::<TextDocumentEditModel, DecodeError>(v.model()),
                Err(e) => Self::fields_from(members(Json::Object(*ms)@)) == Err::<TextDocumentEditModel, DecodeError>(e),
            },
    {
        proof {
            reveal(TextDocumentEdit::fields_from);
        }
        let text_document = match read_req::<OptionalVersionedTextDocumentIdentifier>(ms, "textDocument") {
            Ok(v) => v,
            Err(e) => return Err(e),
        };
        let edits = match read_req::<Vec<OneOf<TextEdit, AnnotatedTextEdit>>>(ms, "edits") {
            Ok(v) => v,
            Err(e) => return Err(e),
        };
        Ok(TextDocumentEdit { text_document, edits })
    }
}

impl JsonCodec for TextDocumentEdit {
    type Model = TextDocumentEditModel;

    open spec fn model(&self) -> TextDocumentEditModel {
        TextDocumentEditModel {
            text_document: self.text_document.model(),
            edits: self.edits.model(),
        }
    }

    open spec fn encode(m: TextDocumentEditModel) -> JVal {
        JVal::Obj(Self::fields_json(m))
    }

    open spec fn decode(j: JVal) -> Result<TextDocumentEditModel, DecodeError> {
        match j {
            JVal::Obj(ms) => Self::fields_from(ms),
            _ => Err(DecodeError::WrongShape),
        }
    }

    open spec fn valid(m: TextDocumentEditModel) -> bool {
        Self::fields_valid(m)
    }

    fn to_json(&self) -> (r: Json) {
        let mut ms = new_object();
        self.write_fields(&mut ms);
        Json::Object(ms)
    }

    fn from_json(j: &Json) -> (r: Result<Self, DecodeError>) {
        match j {
            Json::Object(ms) => Self::read_fields(ms),
            _ => Err(DecodeError::WrongShape),
        }
    }

    proof fn lemma_round_trip(m: TextDocumentEditModel) {
        Self::lemma_fields_round_trip(m, Seq::empty(), Seq::empty());
        assert(Seq::empty() + Self::fields_json(m) + Seq::empty() =~= Self::fields_json(m));
    }

}

/// A document change: a resource operation or a text document edit.
#[derive(Clone, Debug, PartialEq, Eq)]
pub enum DocumentChangeOperation {
    Op(ResourceOp),
    Edit(TextDocumentEdit),
}

/// The mathematical value of a [`DocumentChangeOperation`].
pub enum DocumentChangeOperationModel {
    Op(ResourceOpModel),
    Edit(TextDocumentEditModel),
}

/// Written as the variant's own encoding; decoding tries the variants in order.
impl JsonCodec for DocumentChangeOperation {
    type Model = DocumentChangeOperationModel;

    open spec fn model(&self) -> DocumentChangeOperationModel {
        match self {
            DocumentChangeOperation::Op(x) => DocumentChangeOperationModel::Op(x.model()),
            DocumentChangeOperation::Edit(x) => DocumentChangeOperationModel::Edit(x.model()),
        }
    }

    open spec fn encode(m: DocumentChangeOperationModel) -> JVal {
        match m {
            DocumentChangeOperationModel::Op(x) => ResourceOp::encode(x),
            DocumentChangeOperationModel::Edit(x) => TextDocumentEdit::encode(x),
        }
    }

    open spec fn decode(j: JVal) -> Result<DocumentChangeOperationModel, DecodeError> {
        match ResourceOp::decode(j) {
            Ok(x) => Ok(DocumentChangeOperationModel::Op(x)),
            Err(_) => {
                match TextDocumentEdit::decode(j) {
                    Ok(x) => Ok(DocumentChangeOperationModel::Edit(x)),
                    Err(_) => {
                        Err(DecodeError::WrongShape)
                    },
                }
            },
        }
    }

    /// A variant is read back only where no earlier variant accepts its encoding.
    open spec fn valid(m: DocumentChangeOperationModel) -> bool {
        match m {
            DocumentChangeOperationModel::Op(x) => ResourceOp::valid(x),
            DocumentChangeOperationModel::Edit(x) => TextDocumentEdit::valid(x) && ResourceOp::decode(TextDocumentEdit::encode(x)) is Err,
        }
    }

    fn to_json(&self) -> (r: Json) {
        match self {
            DocumentChangeOperation::Op(x) => x.to_json(),
            DocumentChangeOperation::Edit(x) => x.to_json(),
        }
    }

    fn from_json(j: &Json) -> (r: Result<DocumentChangeOperation, DecodeError>) {
        if let Ok(x) = ResourceOp::from_json(j) {
            return Ok(DocumentChangeOperation::Op(x));
        }
        if let Ok(x) = TextDocumentEdit::from_json(j) {
            return Ok(DocumentChangeOperation::Edit(x));
        }
        Err(DecodeError::WrongShape)
    }

    proof fn lemma_round_trip(m: DocumentChangeOperationModel) {
        match m {
            DocumentChangeOperationModel::Op(x) => ResourceOp::lemma_round_trip(x),
            DocumentChangeOperationModel::Edit(x) => TextDocumentEdit::lemma_round_trip(x),
        }
    }
}

/// The document changes of a workspace edit: only text edits, or edits mixed with resource operations.
#[derive(Clone, Debug, PartialEq, Eq)]
pub enum DocumentChanges {
    Edits(Vec<TextDocumentEdit>),
    Operations(Vec<DocumentChangeOperation>),
}

/// The mathematical value of a [`DocumentChanges`].
pub enum DocumentChangesModel {
    Edits(Seq<TextDocumentEditModel>),
    Operations(Seq<DocumentChangeOperationModel>),
}

/// Written as the variant's own encoding; decoding tries the variants in order.
impl JsonCodec for DocumentChanges {
    type Model = DocumentChangesModel;

    open spec fn model(&self) -> DocumentChangesModel {
        match self {
            DocumentChanges::Edits(x) => DocumentChangesModel::Edits(x.model()),
            DocumentChanges::Operations(x) => DocumentChangesModel::Operations(x.model()),
        }
    }

    open spec fn encode(m: DocumentChangesModel) -> JVal {
        match m {
            DocumentChangesModel::Edits(x) => <Vec<TextDocumentEdit>>::encode(x),
            DocumentChangesModel::Operations(x) => <Vec<DocumentChangeOperation>>::encode(x),
        }
    }

    open spec fn decode(j: JVal) -> Result<DocumentChangesModel, DecodeError> {
        match <Vec<TextDocumentEdit>>::decode(j) {
            Ok(x) => Ok(DocumentChangesModel::Edits(x)),
            Err(_) => {
                match <Vec<DocumentChangeOperation>>::decode(j) {
                    Ok(x) => Ok(DocumentChangesModel::Operations(x)),
                    Err(_) => {
                        Err(DecodeError::WrongShape)
                    },
                }
            },
        }
    }

    /// A variant is read back only where no earlier variant accepts its encoding.
    open spec fn valid(m: DocumentChangesModel) -> bool {
        match m {
            DocumentChangesModel::Edits(x) => <Vec<TextDocumentEdit>>::valid(x),
            DocumentChangesModel::Operations(x) => <Vec<DocumentChangeOperation>>::valid(x) && <Vec<TextDocumentEdit>>::decode(<Vec<DocumentChangeOperation>>::encode(x)) is Err,
        }
    }

    fn to_json(&self) -> (r: Json) {
        match self {
            DocumentChanges::Edits(x) => x.to_json(),
            DocumentChanges::Operations(x) => x.to_json(),
        }
    }

    fn from_json(j: &Json) -> (r: Result<DocumentChanges, DecodeError>) {
        if let Ok(x) = <Vec<TextDocumentEdit>>::from_json(j) {
            return Ok(DocumentChanges::Edits(x));
        }
        if let Ok(x) = <Vec<DocumentChangeOperation>>::from_json(j) {
            return Ok(DocumentChanges::Operations(x));
        }
        Err(DecodeError::WrongShape)
    }

    proof fn lemma_round_trip(m: DocumentChangesModel) {
        match m {
            DocumentChangesModel::Edits(x) => <Vec<TextDocumentEdit>>::lemma_round_trip(x),
            DocumentChangesModel::Operations(x) => <Vec<DocumentChangeOperation>>::lemma_round_trip(x),
        }
    }
}

/// Changes to many resources managed in the workspace.
#[derive(Clone, Debug, Default, PartialEq, Eq)]
pub struct WorkspaceEdit {
    /// Changes to existing resources, keyed by document URI.
    pub changes: Option<ObjectMap<Uri, Vec<TextEdit>>>,
    /// Versioned document changes, and resource operations where the client supports them.
    pub document_changes: Option<DocumentChanges>,
    /// Change annotations, keyed by their identifier.
    pub change_annotations: Option<ObjectMap<String, ChangeAnnotation>>,
}

/// The mathematical value of a [`WorkspaceEdit`].
pub struct WorkspaceEditModel {
    pub changes: Option<Seq<(Seq<char>, Seq<TextEditModel>)>>,
    pub document_changes: Option<DocumentChangesModel>,
    pub change_annotations: Option<Seq<(Seq<char>, ChangeAnnotationModel)>>,
}

impl WorkspaceEdit {
    /// The members that a value contributes to the object it is written in.
    pub open spec fn fields_json(m: WorkspaceEditModel) -> Seq<(Seq<char>, JVal)> {
        opt_member::<ObjectMap<Uri, Vec<TextEdit>>>("changes"@, m.changes)
            + opt_member::<DocumentChanges>("documentChanges"@, m.document_changes)
            + opt_member::<ObjectMap<String, ChangeAnnotation>>("changeAnnotations"@, m.change_annotations)
    }

    /// Reads a value from the members of an object; other members are ignored.
    #[verifier::opaque]
    pub open spec fn fields_from(ms: Seq<(Seq<char>, JVal)>) -> Result<WorkspaceEditModel, DecodeError> {
        match opt_field::<ObjectMap<Uri, Vec<TextEdit>>>(ms, "changes"@) {
            Err(e) => Err(e),
            Ok(changes) => {
                match opt_field::<DocumentChanges>(ms, "documentChanges"@) {
                    Err(e) => Err(e),
                    Ok(document_changes) => {
                        match opt_field::<ObjectMap<String, ChangeAnnotation>>(ms, "changeAnnotations"@) {
                            Err(e) => Err(e),
                            Ok(change_annotations) => {
                                Ok(WorkspaceEditModel { changes, document_changes, change_annotations })
                            },
                        }
                    },
                }
            },
        }
    }

    /// The models that values can have.
    pub open spec fn fields_valid(m: WorkspaceEditModel) -> bool {
        &&& opt_valid::<ObjectMap<Uri, Vec<TextEdit>>>(m.changes)
        &&& opt_valid::<DocumentChanges>(m.document_changes)
        &&& opt_valid::<ObjectMap<String, ChangeAnnotation>>(m.change_annotations)
    }

    /// The members of a value, written between members of other names, read back as the value.
    pub proof fn lemma_fields_round_trip(m: WorkspaceEditModel, pre: Seq<(Seq<char>, JVal)>, post: Seq<(Seq<char>, JVal)>)
        requires
            Self::fields_valid(m),
            forall|k: Seq<char>| Self::uses_key(k) ==> (#[trigger] lookup(pre, k)) is None,
            forall|k: Seq<char>| Self::uses_key(k) ==> (#[trigger] lookup(post, k)) is None,
        ensures
            Self::fields_from(pre + Self::fields_json(m) + post) == Ok::<WorkspaceEditModel, DecodeError>(m),
    {
        broadcast use group_lookup;
        reveal(WorkspaceEdit::fields_from);
        reveal_strlit("changes");
        reveal_strlit("documentChanges");
        reveal_strlit("changeAnnotations");
        assert("changes"@.len() == 7);
        assert("documentChanges"@.len() == 15);
        assert("changeAnnotations"@.len() == 17);
        if let Some(x) = m.changes {
            <ObjectMap<Uri, Vec<TextEdit>>>::lemma_round_trip(x);
        }
        if let Some(x) = m.document_changes {
            DocumentChanges::lemma_round_trip(x);
        }
        if let Some(x) = m.change_annotations {
            <ObjectMap<String, ChangeAnnotation>>::lemma_round_trip(x);
        }
    }

    /// Members with names that the type does not read change nothing.
    pub proof fn lemma_unknown_key(ms: Seq<(Seq<char>, JVal)>, k: Seq<char>, v: JVal)
        requires
            !Self::uses_key(k),
        ensures
            Self::fields_from(ms + member(k, v)) == Self::fields_from(ms),
    {
        broadcast use group_lookup;
        reveal(WorkspaceEdit::fields_from);
    }

    /// The member names that the type reads.
    pub open spec fn uses_key(k: Seq<char>) -> bool {
        k == "changes"@ || k == "documentChanges"@ || k == "changeAnnotations"@
    }

    /// Appends the members of the value to an object under construction.
    pub fn write_fields(&self, ms: &mut Vec<(String, Json)>)
        ensures
            members(Json::Object(*final(ms))@) == members(Json::Object(*old(ms))@) + Self::fields_json(self.model()),
    {
        let ghost start = members(Json::Object(*ms)@);
        let ghost m = self.model();
        push_opt(ms, "changes", &self.changes);
        push_opt(ms, "documentChanges", &self.document_changes);
        proof {
            lemma_concat_associative(start, opt_member::<ObjectMap<Uri, Vec<TextEdit>>>("changes"@, m.changes), opt_member::<DocumentChanges>("documentChanges"@, m.document_changes));
        }
        push_opt(ms, "changeAnnotations", &self.change_annotations);
        proof {
            lemma_concat_associative(start, opt_member::<ObjectMap<Uri, Vec<TextEdit>>>("changes"@, m.changes) + opt_member::<DocumentChanges>("documentChanges"@, m.document_changes), opt_member::<ObjectMap<String, ChangeAnnotation>>("changeAnnotations"@, m.change_annotations));
        }
    }

    /// Reads a value from the members of an object.
    pub fn read_fields(ms: &Vec<(String, Json)>) -> (r: Result<Self, DecodeError>)
        ensures
            match r {
                Ok(v) => Self::fields_from(members(Json::Object(*ms)@)) == Ok::<WorkspaceEditModel, DecodeError>(v.model()),
                Err(e) => Self::fields_from(members(Json::Object(*ms)@)) == Err::<WorkspaceEditModel, DecodeError>(e),
            },
    {
        proof {
            reveal(WorkspaceEdit::fields_from);
        }
        let changes = match read_opt::<ObjectMap<Uri, Vec<TextEdit>>>(ms, "changes") {
            Ok(v) => v,
            Err(e) => return Err(e),
        };
        let document_changes = match read_opt::<DocumentChanges>(ms, "documentChanges") {
            Ok(v) => v,
            Err(e) => return Err(e),
        };
        let change_annotations = match read_opt::<ObjectMap<String, ChangeAnnotation>>(ms, "changeAnnotations") {
            Ok(v) => v,
            Err(e) => return Err(e),
        };
        Ok(WorkspaceEdit { changes, document_changes, change_annotations })
    }
}

impl JsonCodec for WorkspaceEdit {
    type Model = WorkspaceEditModel;

    open spec fn model(&self) -> WorkspaceEditModel {
        WorkspaceEditModel {
            changes: self.changes.model(),
            document_changes: self.document_changes.model(),
            change_annotations: self.change_annotations.model(),
        }
    }

    open spec fn encode(m: WorkspaceEditModel) -> JVal {
        JVal::Obj(Self::fields_json(m))
    }

    open spec fn decode(j: JVal) -> Result<WorkspaceEditModel, DecodeError> {
        match j {
            JVal::Obj(ms) => Self::fields_from(ms),
            _ => Err(DecodeError::WrongShape),
        }
    }

    open spec fn valid(m: WorkspaceEditModel) -> bool {
        Self::fields_valid(m)
    }

    fn to_json(&self) -> (r: Json) {
        let mut ms = new_object();
        self.write_fields(&mut ms);
        Json::Object(ms)
    }

    fn from_json(j: &Json) -> (r: Result<Self, DecodeError>) {
        match j {
            Json::Object(ms) => Self::read_fields(ms),
            _ => Err(DecodeError::WrongShape),
        }
    }

    proof fn lemma_round_trip(m: WorkspaceEditModel) {
        Self::lemma_fields_round_trip(m, Seq::empty(), Seq::empty());
        assert(Seq::empty() + Self::fields_json(m) + Seq::empty() =~= Self::fields_json(m));
    }

}

/// Parameters of the `workspace/applyEdit` request.
#[derive(Clone, Debug, PartialEq, Eq)]
pub struct ApplyWorkspaceEditParams {
    /// An optional label of the workspace edit, presented in the user interface.
    pub label: Option<String>,
    /// The edits to apply.
    pub edit: WorkspaceEdit,
}

/// The mathematical value of a [`ApplyWorkspaceEditParams`].
pub struct ApplyWorkspaceEditParamsModel {
    pub label: Option<Seq<char>>,
    pub edit: WorkspaceEditModel,
}

impl ApplyWorkspaceEditParams {
    /// The members that a value contributes to the object it is written in.
    pub open spec fn fields_json(m: ApplyWorkspaceEditParamsModel) -> Seq<(Seq<char>, JVal)> {
        opt_member::<String>("label"@, m.label)
            + member("edit"@, WorkspaceEdit::encode(m.edit))
    }

    /// Reads a value from the members of an object; other members are ignored.
    #[verifier::opaque]
    pub open spec fn fields_from(ms: Seq<(Seq<char>, JVal)>) -> Result<ApplyWorkspaceEditParamsModel, DecodeError> {
        match opt_field::<String>(ms, "label"@) {
            Err(e) => Err(e),
            Ok(label) => {
                match req_field::<WorkspaceEdit>(ms, "edit"@) {
                    Err(e) => Err(e),
                    Ok(edit) => {
                        Ok(ApplyWorkspaceEditParamsModel { label, edit })
                    },
                }
            },
        }
    }

    /// The models that values can have.
    pub open spec fn fields_valid(m: ApplyWorkspaceEditParamsModel) -> bool {
        &&& opt_valid::<String>(m.label)
        &&& WorkspaceEdit::valid(m.edit)
    }

    /// The members of a value, written between members of other names, read back as the value.
    pub proof fn lemma_fields_round_trip(m: ApplyWorkspaceEditParamsModel, pre: Seq<(Seq<char>, JVal)>, post: Seq<(Seq<char>, JVal)>)
        requires
            Self::fields_valid(m),
            forall|k: Seq<char>| Self::uses_key(k) ==> (#[trigger] lookup(pre, k)) is None,
            forall|k: Seq<char>| Self::uses_key(k) ==> (#[trigger] lookup(post, k)) is None,
        ensures
            Self::fields_from(pre + Self::fields_json(m) + post) == Ok::<ApplyWorkspaceEditParamsModel, DecodeError>(m),
    {
        broadcast use group_lookup;
        reveal(ApplyWorkspaceEditParams::fields_from);
        reveal_strlit("label");
        reveal_strlit("edit");
        assert("label"@.len() == 5);
        assert("edit"@.len() == 4);
        if let Some(x) = m.label {
            String::lemma_round_trip(x);
        }
        WorkspaceEdit::lemma_round_trip(m.edit);
    }

    /// Members with names that the type does not read change nothing.
    pub proof fn lemma_unknown_key(ms: Seq<(Seq<char>, JVal)>, k: Seq<char>, v: JVal)
        requires
            !Self::uses_key(k),
        ensures
            Self::fields_from(ms + member(k, v)) == Self::fields_from(ms),
    {
        broadcast use group_lookup;
        reveal(ApplyWorkspaceEditParams::fields_from);
    }

    /// The member names that the type reads.
    pub open spec fn uses_key(k: Seq<char>) -> bool {
        k == "label"@ || k == "edit"@
    }

    /// Appends the members of the value to an object under construction.
    pub fn write_fields(&self, ms: &mut Vec<(String, Json)>)
        ensures
            members(Json::Object(*final(ms))@) == members(Json::Object(*old(ms))@) + Self::fields_json(self.model()),
    {
        let ghost start = members(Json::Object(*ms)@);
        let ghost m = self.model();
        push_opt(ms, "label", &self.label);
        push_member(ms, "edit", self.edit.to_json());
        proof {
            lemma_concat_associative(start, opt_member::<String>("label"@, m.label), member("edit"@, WorkspaceEdit::encode(m.edit)));
        }
    }

    /// Reads a value from the members of an object.
    pub fn read_fields(ms: &Vec<(String, Json)>) -> (r: Result<Self, DecodeError>)
        ensures
            match r {
                Ok(v) => Self::fields_from(members(Json::Object(*ms)@)) == Ok::<ApplyWorkspaceEditParamsModel, DecodeError>(v.model()),
                Err(e) => Self::fields_from(members(Json::Object(*ms)@)) == Err::<ApplyWorkspaceEditParamsModel, DecodeError>(e),
            },
    {
        proof {
            reveal(ApplyWorkspaceEditParams::fields_from);
        }
        let label = match read_opt::<String>(ms, "label") {
            Ok(v) => v,
            Err(e) => return Err(e),
        };
        let edit = match read_req::<WorkspaceEdit>(ms, "edit") {
            Ok(v) => v,
            Err(e) => return Err(e),
        };
        Ok(ApplyWorkspaceEditParams { label, edit })
    }
}

impl JsonCodec for ApplyWorkspaceEditParams {
    type Model = ApplyWorkspaceEditParamsModel;

    open spec fn model(&self) -> ApplyWorkspaceEditParamsModel {
        ApplyWorkspaceEditParamsModel {
            label: self.label.model(),
            edit: self.edit.model(),
        }
    }

    open spec fn encode(m: ApplyWorkspaceEditParamsModel) -> JVal {
        JVal::Obj(Self::fields_json(m))
    }

    open spec fn decode(j: JVal) -> Result<ApplyWorkspaceEditParamsModel, DecodeError> {
        match j {
            JVal::Obj(ms) => Self::fields_from(ms),
            _ => Err(DecodeError::WrongShape),
        }
    }

    open spec fn valid(m: ApplyWorkspaceEditParamsModel) -> bool {
        Self::fields_valid(m)
    }

    fn to_json(&self) -> (r: Json) {
        let mut ms = new_object();
        self.write_fields(&mut ms);
        Json::Object(ms)
    }

    fn from_json(j: &Json) -> (r: Result<Self, DecodeError>) {
        match j {
            Json::Object(ms) => Self::read_fields(ms),
            _ => Err(DecodeError::WrongShape),
        }
    }

    proof fn lemma_round_trip(m: ApplyWorkspaceEditParamsModel) {
        Self::lemma_fields_round_trip(m, Seq::empty(), Seq::empty());
        assert(Seq::empty() + Self::fields_json(m) + Seq::empty() =~= Self::fields_json(m));
    }

}

/// The result of the `workspace/applyEdit` request.
#[derive(Clone, Debug, PartialEq, Eq)]
pub struct ApplyWorkspaceEditResponse {
    /// Whether the edit was applied.
    pub applied: bool,
    /// A textual description of a failure.
    pub failure_reason: Option<String>,
    /// The index of the change that failed.
    pub failed_change: Option<u32>,
}

/// The mathematical value of a [`ApplyWorkspaceEditResponse`].
pub struct ApplyWorkspaceEditResponseModel {
    pub applied: bool,
    pub failure_reason: Option<Seq<char>>,
    pub failed_change: Option<u32>,
}

impl ApplyWorkspaceEditResponse {
    /// The members that a value contributes to the object it is written in.
    pub open spec fn fields_json(m: ApplyWorkspaceEditResponseModel) -> Seq<(Seq<char>, JVal)> {
        member("applied"@, bool::encode(m.applied))
            + opt_member::<String>("failureReason"@, m.failure_reason)
            + opt_member::<u32>("failedChange"@, m.failed_change)
    }

    /// Reads a value from the members of an object; other members are ignored.
    #[verifier::opaque]
    pub open spec fn fields_from(ms: Seq<(Seq<char>, JVal)>) -> Result<ApplyWorkspaceEditResponseModel, DecodeError> {
        match req_field::<bool>(ms, "applied"@) {
            Err(e) => Err(e),
            Ok(applied) => {
                match opt_field::<String>(ms, "failureReason"@) {
                    Err(e) => Err(e),
                    Ok(failure_reason) => {
                        match opt_field::<u32>(ms, "failedChange"@) {
                            Err(e) => Err(e),
                            Ok(failed_change) => {
                                Ok(ApplyWorkspaceEditResponseModel { applied, failure_reason, failed_change })
                            },
                        }
                    },
                }
            },
        }
    }

    /// The models that values can have.
    pub open spec fn fields_valid(m: ApplyWorkspaceEditResponseModel) -> bool {
        &&& bool::valid(m.applied)
        &&& opt_valid::<String>(m.failure_reason)
        &&& opt_valid::<u32>(m.failed_change)
    }

    /// The members of a value, written between members of other names, read back as the value.
    pub proof fn lemma_fields_round_trip(m: ApplyWorkspaceEditResponseModel, pre: Seq<(Seq<char>, JVal)>, post: Seq<(Seq<char>, JVal)>)
        requires
            Self::fields_valid(m),
            forall|k: Seq<char>| Self::uses_key(k) ==> (#[trigger] lookup(pre, k)) is None,
            forall|k: Seq<char>| Self::uses_key(k) ==> (#[trigger] lookup(post, k)) is None,
        ensures
            Self::fields_from(pre + Self::fields_json(m) + post) == Ok::<ApplyWorkspaceEditResponseModel, DecodeError>(m),
    {
        broadcast use group_lookup;
        reveal(ApplyWorkspaceEditResponse::fields_from);
        reveal_strlit("applied");
        reveal_strlit("failureReason");
        reveal_strlit("failedChange");
        assert("applied"@.len() == 7);
        assert("failureReason"@.len() == 13);
        assert("failedChange"@.len() == 12);
        bool::lemma_round_trip(m.applied);
        if let Some(x) = m.failure_reason {
            String::lemma_round_trip(x);
        }
        if let Some(x) = m.failed_change {
            u32::lemma_round_trip(x);
        }
    }

    /// Members with names that the type does not read change nothing.
    pub proof fn lemma_unknown_key(ms: Seq<(Seq<char>, JVal)>, k: Seq<char>, v: JVal)
        requires
            !Self::uses_key(k),
        ensures
            Self::fields_from(ms + member(k, v)) == Self::fields_from(ms),
    {
        broadcast use group_lookup;
        reveal(ApplyWorkspaceEditResponse::fields_from);
    }

    /// The member names that the type reads.
    pub open spec fn uses_key(k: Seq<char>) -> bool {
        k == "applied"@ || k == "failureReason"@ || k == "failedChange"@
    }

    /// Appends the members of the value to an object under construction.
    pub fn write_fields(&self, ms: &mut Vec<(String, Json)>)
        ensures
            members(Json::Object(*final(ms))@) == members(Json::Object(*old(ms))@) + Self::fields_json(self.model()),
    {
        let ghost start = members(Json::Object(*ms)@);
        let ghost m = self.model();
        push_member(ms, "applied", self.applied.to_json());
        push_opt(ms, "failureReason", &self.failure_reason);
        proof {
            lemma_concat_associative(start, member("applied"@, bool::encode(m.applied)), opt_member::<String>("failureReason"@, m.failure_reason));
        }
        push_opt(ms, "failedChange", &self.failed_change);
        proof {
            lemma_concat_associative(start, member("applied"@, bool::encode(m.applied)) + opt_member::<String>("failureReason"@, m.failure_reason), opt_member::<u32>("failedChange"@, m.failed_change));
        }
    }

    /// Reads a value from the members of an object.
    pub fn read_fields(ms: &Vec<(String, Json)>) -> (r: Result<Self, DecodeError>)
        ensures
            match r {
                Ok(v) => Self::fields_from(members(Json::Object(*ms)@)) == Ok::<ApplyWorkspaceEditResponseModel, DecodeError>(v.model()),
                Err(e) => Self::fields_from(members(Json::Object(*ms)@)) == Err::<ApplyWorkspaceEditResponseModel, DecodeError>(e),
            },
    {
        proof {
            reveal(ApplyWorkspaceEditResponse::fields_from);
        }
        let applied = match read_req::<bool>(ms, "applied") {
            Ok(v) => v,
            Err(e) => return Err(e),
        };
        let failure_reason = match read_opt::<String>(ms, "failureReason") {
            Ok(v) => v,
            Err(e) => return Err(e),
        };
        let failed_change = match read_opt::<u32>(ms, "failedChange") {
            Ok(v) => v,
            Err(e) => return Err(e),
        };
        Ok(ApplyWorkspaceEditResponse { applied, failure_reason, failed_change })
    }
}

impl JsonCodec for ApplyWorkspaceEditResponse {
    type Model = ApplyWorkspaceEditResponseModel;

    open spec fn model(&self) -> ApplyWorkspaceEditResponseModel {
        ApplyWorkspaceEditResponseModel {
            applied: self.applied.model(),
            failure_reason: self.failure_reason.model(),
            failed_change: self.failed_change.model(),
        }
    }

    open spec fn encode(m: ApplyWorkspaceEditResponseModel) -> JVal {
        JVal::Obj(Self::fields_json(m))
    }

    open spec fn decode(j: JVal) -> Result<ApplyWorkspaceEditResponseModel, DecodeError> {
        match j {
            JVal::Obj(ms) => Self::fields_from(ms),
            _ => Err(DecodeError::WrongShape),
        }
    }

    open spec fn valid(m: ApplyWorkspaceEditResponseModel) -> bool {
        Self::fields_valid(m)
    }

    fn to_json(&self) -> (r: Json) {
        let mut ms = new_object();
        self.write_fields(&mut ms);
        Json::Object(ms)
    }

    fn from_json(j: &Json) -> (r: Result<Self, DecodeError>) {
        match j {
            Json::Object(ms) => Self::read_fields(ms),
            _ => Err(DecodeError::WrongShape),
        }
    }

    proof fn lemma_round_trip(m: ApplyWorkspaceEditResponseModel) {
        Self::lemma_fields_round_trip(m, Seq::empty(), Seq::empty());
        assert(Seq::empty() + Self::fields_json(m) + Seq::empty() =~= Self::fields_json(m));
    }

}

/// One configuration section asked for.
#[derive(Clone, Debug, Default, PartialEq, Eq)]
pub struct ConfigurationItem {
    /// The scope to get the configuration section for.
    pub scope_uri: Option<Uri>,
    /// The configuration section asked for.
    pub section: Option<String>,
}

/// The mathematical value of a [`ConfigurationItem`].
pub struct ConfigurationItemModel {
    pub scope_uri: Option<Seq<char>>,
    pub section: Option<Seq<char>>,
}

impl ConfigurationItem {
    /// The members that a value contributes to the object it is written in.
    pub open spec fn fields_json(m: ConfigurationItemModel) -> Seq<(Seq<char>, JVal)> {
        opt_member::<Uri>("scopeUri"@, m.scope_uri)
            + opt_member::<String>("section"@, m.section)
    }

    /// Reads a value from the members of an object; other members are ignored.
    #[verifier::opaque]
    pub open spec fn fields_from(ms: Seq<(Seq<char>, JVal)>) -> Result<ConfigurationItemModel, DecodeError> {
        match opt_field::<Uri>(ms, "scopeUri"@) {
            Err(e) => Err(e),
            Ok(scope_uri) => {
                match opt_field::<String>(ms, "section"@) {
                    Err(e) => Err(e),
                    Ok(section) => {
                        Ok(ConfigurationItemModel { scope_uri, section })
                    },
                }
            },
        }
    }

    /// The models that values can have.
    pub open spec fn fields_valid(m: ConfigurationItemModel) -> bool {
        &&& opt_valid::<Uri>(m.scope_uri)
        &&& opt_valid::<String>(m.section)
    }

    /// The members of a value, written between members of other names, read back as the value.
    pub proof fn lemma_fields_round_trip(m: ConfigurationItemModel, pre: Seq<(Seq<char>, JVal)>, post: Seq<(Seq<char>, JVal)>)
        requires
            Self::fields_valid(m),
            forall|k: Seq<char>| Self::uses_key(k) ==> (#[trigger] lookup(pre, k)) is None,
            forall|k: Seq<char>| Self::uses_key(k) ==> (#[trigger] lookup(post, k)) is None,
        ensures
            Self::fields_from(pre + Self::fields_json(m) + post) == Ok::<ConfigurationItemModel, DecodeError>(m),
    {
        broadcast use group_lookup;
        reveal(ConfigurationItem::fields_from);
        reveal_strlit("scopeUri");
        reveal_strlit("section");
        assert("scopeUri"@.len() == 8);
        assert("section"@.len() == 7);
        if let Some(x) = m.scope_uri {
            Uri::lemma_round_trip(x);
        }
        if let Some(x) = m.section {
            String::lemma_round_trip(x);
        }
    }

    /// Members with names that the type does not read change nothing.
    pub proof fn lemma_unknown_key(ms: Seq<(Seq<char>, JVal)>, k: Seq<char>, v: JVal)
        requires
            !Self::uses_key(k),
        ensures
            Self::fields_from(ms + member(k, v)) == Self::fields_from(ms),
    {
        broadcast use group_lookup;
        reveal(ConfigurationItem::fields_from);
    }

    /// The member names that the type reads.
    pub open spec fn uses_key(k: Seq<char>) -> bool {
        k == "scopeUri"@ || k == "section"@
    }

    /// Appends the members of the value to an object under construction.
    pub fn write_fields(&self, ms: &mut Vec<(String, Json)>)
        ensures
            members(Json::Object(*final(ms))@) == members(Json::Object(*old(ms))@) + Self::fields_json(self.model()),
    {
        let ghost start = members(Json::Object(*ms)@);
        let ghost m = self.model();
        push_opt(ms, "scopeUri", &self.scope_uri);
        push_opt(ms, "section", &self.section);
        proof {
            lemma_concat_associative(start, opt_member::<Uri>("scopeUri"@, m.scope_uri), opt_member::<String>("section"@, m.section));
        }
    }

    /// Reads a value from the members of an object.
    pub fn read_fields(ms: &Vec<(String, Json)>) -> (r: Result<Self, DecodeError>)
        ensures
            match r {
                Ok(v) => Self::fields_from(members(Json::Object(*ms)@)) == Ok::<ConfigurationItemModel, DecodeError>(v.model()),
                Err(e) => Self::fields_from(members(Json::Object(*ms)@)) == Err::<ConfigurationItemModel, DecodeError>(e),
            },
    {
        proof {
            reveal(ConfigurationItem::fields_from);
        }
        let scope_uri = match read_opt::<Uri>(ms, "scopeUri") {
            Ok(v) => v,
            Err(e) => return Err(e),
        };
        let section = match read_opt::<String>(ms, "section") {
            Ok(v) => v,
            Err(e) => return Err(e),
        };
        Ok(ConfigurationItem { scope_uri, section })
    }
}

impl JsonCodec for ConfigurationItem {
    type Model = ConfigurationItemModel;

    open spec fn model(&self) -> ConfigurationItemModel {
        ConfigurationItemModel {
            scope_uri: self.scope_uri.model(),
            section: self.section.model(),
        }
    }

    open spec fn encode(m: ConfigurationItemModel) -> JVal {
        JVal::Obj(Self::fields_json(m))
    }

    open spec fn decode(j: JVal) -> Result<ConfigurationItemModel, DecodeError> {
        match j {
            JVal::Obj(ms) => Self::fields_from(ms),
            _ => Err(DecodeError::WrongShape),
        }
    }

    open spec fn valid(m: ConfigurationItemModel) -> bool {
        Self::fields_valid(m)
    }

    fn to_json(&self) -> (r: Json) {
        let mut ms = new_object();
        self.write_fields(&mut ms);
        Json::Object(ms)
    }

    fn from_json(j: &Json) -> (r: Result<Self, DecodeError>) {
        match j {
            Json::Object(ms) => Self::read_fields(ms),
            _ => Err(DecodeError::WrongShape),
        }
    }

    proof fn lemma_round_trip(m: ConfigurationItemModel) {
        Self::lemma_fields_round_trip(m, Seq::empty(), Seq::empty());
        assert(Seq::empty() + Self::fields_json(m) + Seq::empty() =~= Self::fields_json(m));
    }

}

/// Parameters of the `workspace/configuration` request.
#[derive(Clone, Debug, Default, PartialEq, Eq)]
pub struct ConfigurationParams {
    pub items: Vec<ConfigurationItem>,
}

/// The mathematical value of a [`ConfigurationParams`].
pub struct ConfigurationParamsModel {
    pub items: Seq<ConfigurationItemModel>,
}

impl ConfigurationParams {
    /// The members that a value contributes to the object it is written in.
    pub open spec fn fields_json(m: ConfigurationParamsModel) -> Seq<(Seq<char>, JVal)> {
        member("items"@, <Vec<ConfigurationItem>>::encode(m.items))
    }

    /// Reads a value from the members of an object; other members are ignored.
    #[verifier::opaque]
    pub open spec fn fields_from(ms: Seq<(Seq<char>, JVal)>) -> Result<ConfigurationParamsModel, DecodeError> {
        match req_field::<Vec<ConfigurationItem>>(ms, "items"@) {
            Err(e) => Err(e),
            Ok(items) => {
                Ok(ConfigurationParamsModel { items })
            },
        }
    }

    /// The models that values can have.
    pub open spec fn fields_valid(m: ConfigurationParamsModel) -> bool {
        &&& <Vec<ConfigurationItem>>::valid(m.items)
    }

    /// The members of a value, written between members of other names, read back as the value.
    pub proof fn lemma_fields_round_trip(m: ConfigurationParamsModel, pre: Seq<(Seq<char>, JVal)>, post: Seq<(Seq<char>, JVal)>)
        requires
            Self::fields_valid(m),
            forall|k: Seq<char>| Self::uses_key(k) ==> (#[trigger] lookup(pre, k)) is None,
            forall|k: Seq<char>| Self::uses_key(k) ==> (#[trigger] lookup(post, k)) is None,
        ensures
            Self::fields_from(pre + Self::fields_json(m) + post) == Ok::<ConfigurationParamsModel, DecodeError>(m),
    {
        broadcast use group_lookup;
        reveal(ConfigurationParams::fields_from);
        reveal_strlit("items");
        assert("items"@.len() == 5);
        <Vec<ConfigurationItem>>::lemma_round_trip(m.items);
    }

    /// Members with names that the type does not read change nothing.
    pub proof fn lemma_unknown_key(ms: Seq<(Seq<char>, JVal)>, k: Seq<char>, v: JVal)
        requires
            !Self::uses_key(k),
        ensures
            Self::fields_from(ms + member(k, v)) == Self::fields_from(ms),
    {
        broadcast use group_lookup;
        reveal(ConfigurationParams::fields_from);
    }

    /// The member names that the type reads.
    pub open spec fn uses_key(k: Seq<char>) -> bool {
        k == "items"@
    }

    /// Appends the members of the value to an object under construction.
    pub fn write_fields(&self, ms: &mut Vec<(String, Json)>)
        ensures
            members(Json::Object(*final(ms))@) == members(Json::Object(*old(ms))@) + Self::fields_json(self.model()),
    {
        let ghost start = members(Json::Object(*ms)@);
        push_member(ms, "items", self.items.to_json());
        assert(members(Json::Object(*ms)@) =~= start + Self::fields_json(self.model()));
    }

    /// Reads a value from the members of an object.
    pub fn read_fields(ms: &Vec<(String, Json)>) -> (r: Result<Self, DecodeError>)
        ensures
            match r {
                Ok(v) => Self::fields_from(members(Json::Object(*ms)@)) == Ok::<ConfigurationParamsModel, DecodeError>(v.model()),
                Err(e) => Self::fields_from(members(Json::Object(*ms)@)) == Err::<ConfigurationParamsModel, DecodeError>(e),
            },
    {
        proof {
            reveal(ConfigurationParams::fields_from);
        }
        let items = match read_req::<Vec<ConfigurationItem>>(ms, "items") {
            Ok(v) => v,
            Err(e) => return Err(e),
        };
        Ok(ConfigurationParams { items })
    }
}

impl JsonCodec for ConfigurationParams {
    type Model = ConfigurationParamsModel;

    open spec fn model(&self) -> ConfigurationParamsModel {
        ConfigurationParamsModel {
            items: self.items.model(),
        }
    }

    open spec fn encode(m: ConfigurationParamsModel) -> JVal {
        JVal::Obj(Self::fields_json(m))
    }

    open spec fn decode(j: JVal) -> Result<ConfigurationParamsModel, DecodeError> {
        match j {
            JVal::Obj(ms) => Self::fields_from(ms),
            _ => Err(DecodeError::WrongShape),
        }
    }

    open spec fn valid(m: ConfigurationParamsModel) -> bool {
        Self::fields_valid(m)
    }

    fn to_json(&self) -> (r: Json) {
        let mut ms = new_object();
        self.write_fields(&mut ms);
        Json::Object(ms)
    }

    fn from_json(j: &Json) -> (r: Result<Self, DecodeError>) {
        match j {
            Json::Object(ms) => Self::read_fields(ms),
            _ => Err(DecodeError::WrongShape),
        }
    }

    proof fn lemma_round_trip(m: ConfigurationParamsModel) {
        Self::lemma_fields_round_trip(m, Seq::empty(), Seq::empty());
        assert(Seq::empty() + Self::fields_json(m) + Seq::empty() =~= Self::fields_json(m));
    }

}

} // verus!
