//! Positions, ranges, identifiers and the small records shared by most messages.

use vstd::prelude::*;
use vstd::seq_lib::lemma_concat_associative;
use crate::json::{group_lookup, lookup, member, members, new_object, nullable_field, opt_field, opt_member, opt_valid, push_member, push_opt, read_nullable, read_opt, read_req, req_field, DecodeError, JVal, Json, JsonCodec};
use crate::kinds::{DiagnosticSeverity, DiagnosticTag};
use crate::tags::MarkupKind;
use crate::uri::Uri;

verus! {

/// One of two alternatives, written untagged as the alternative's own encoding.
#[derive(Clone, Debug, PartialEq, Eq, PartialOrd, Ord)]
pub enum OneOf<A, B> {
    Left(A),
    Right(B),
}

/// The mathematical value of a [`OneOf`].
pub enum Either<A, B> {
    Left(A),
    Right(B),
}

/// Decoding tries the left alternative first.
impl<A: JsonCodec, B: JsonCodec> JsonCodec for OneOf<A, B> {
    type Model = Either<A::Model, B::Model>;

    open spec fn model(&self) -> Either<A::Model, B::Model> {
        match self {
            OneOf::Left(a) => Either::Left(a.model()),
            OneOf::Right(b) => Either::Right(b.model()),
        }
    }

    open spec fn encode(m: Either<A::Model, B::Model>) -> JVal {
        match m {
            Either::Left(a) => A::encode(a),
            Either::Right(b) => B::encode(b),
        }
    }

    open spec fn decode(j: JVal) -> Result<Either<A::Model, B::Model>, DecodeError> {
        match A::decode(j) {
            Ok(a) => Ok(Either::Left(a)),
            Err(_) => match B::decode(j) {
                Ok(b) => Ok(Either::Right(b)),
                Err(_) => Err(DecodeError::WrongShape),
            },
        }
    }

    /// The right alternative is read back only where the left one rejects its encoding.
    open spec fn valid(m: Either<A::Model, B::Model>) -> bool {
        match m {
            Either::Left(a) => A::valid(a),
            Either::Right(b) => B::valid(b) && A::decode(B::encode(b)) is Err,
        }
    }

    fn to_json(&self) -> (r: Json) {
        match self {
            OneOf::Left(a) => a.to_json(),
            OneOf::Right(b) => b.to_json(),
        }
    }

    fn from_json(j: &Json) -> (r: Result<OneOf<A, B>, DecodeError>) {
        match A::from_json(j) {
            Ok(a) => Ok(OneOf::Left(a)),
            Err(_) => match B::from_json(j) {
                Ok(b) => Ok(OneOf::Right(b)),
                Err(_) => Err(DecodeError::WrongShape),
            },
        }
    }

    proof fn lemma_round_trip(m: Either<A::Model, B::Model>) {
        match m {
            Either::Left(a) => A::lemma_round_trip(a),
            Either::Right(b) => B::lemma_round_trip(b),
        }
    }
}

/// Position in a text document expressed as zero-based line and character offset.
#[derive(Clone, Copy, Debug, Default, PartialEq, Eq, PartialOrd, Ord, Hash, Structural)]
pub struct Position {
    /// Line position in a document (zero-based).
    pub line: u32,
    /// Character offset on a line, in code units of the negotiated position encoding.
    pub character: u32,
}

impl Position {
    /// The members that a value contributes to the object it is written in.
    pub open spec fn fields_json(m: Position) -> Seq<(Seq<char>, JVal)> {
        member("line"@, u32::encode(m.line))
            + member("character"@, u32::encode(m.character))
    }

    /// Reads a value from the members of an object; other members are ignored.
    #[verifier::opaque]
    pub open spec fn fields_from(ms: Seq<(Seq<char>, JVal)>) -> Result<Position, DecodeError> {
        match req_field::<u32>(ms, "line"@) {
            Err(e) => Err(e),
            Ok(line) => {
                match req_field::<u32>(ms, "character"@) {
                    Err(e) => Err(e),
                    Ok(character) => {
                        Ok(Position { line, character })
                    },
                }
            },
        }
    }

    /// The models that values can have.
    pub open spec fn fields_valid(m: Position) -> bool {
        &&& u32::valid(m.line)
        &&& u32::valid(m.character)
    }

    /// The members of a value, written between members of other names, read back as the value.
    pub proof fn lemma_fields_round_trip(m: Position, pre: Seq<(Seq<char>, JVal)>, post: Seq<(Seq<char>, JVal)>)
        requires
            Self::fields_valid(m),
            forall|k: Seq<char>| Self::uses_key(k) ==> (#[trigger] lookup(pre, k)) is None,
            forall|k: Seq<char>| Self::uses_key(k) ==> (#[trigger] lookup(post, k)) is None,
        ensures
            Self::fields_from(pre + Self::fields_json(m) + post) == Ok::<Position, DecodeError>(m),
    {
        broadcast use group_lookup;
        reveal(Position::fields_from);
        reveal_strlit("line");
        reveal_strlit("character");
        assert("line"@.len() == 4);
        assert("character"@.len() == 9);
        u32::lemma_round_trip(m.line);
        u32::lemma_round_trip(m.character);
    }

    /// Members with names that the type does not read change nothing.
    pub proof fn lemma_unknown_key(ms: Seq<(Seq<char>, JVal)>, k: Seq<char>, v: JVal)
        requires
            !Self::uses_key(k),
        ensures
            Self::fields_from(ms + member(k, v)) == Self::fields_from(ms),
    {
        broadcast use group_lookup;
        reveal(Position::fields_from);
    }

    /// The member names that the type reads.
    pub open spec fn uses_key(k: Seq<char>) -> bool {
        k == "line"@ || k == "character"@
    }

    /// Appends the members of the value to an object under construction.
    pub fn write_fields(&self, ms: &mut Vec<(String, Json)>)
        ensures
            members(Json::Object(*final(ms))@) == members(Json::Object(*old(ms))@) + Self::fields_json(self.model()),
    {
        let ghost start = members(Json::Object(*ms)@);
        let ghost m = self.model();
        push_member(ms, "line", self.line.to_json());
        push_member(ms, "character", self.character.to_json());
        proof {
            lemma_concat_associative(start, member("line"@, u32::encode(m.line)), member("character"@, u32::encode(m.character)));
        }
    }

    /// Reads a value from the members of an object.
    pub fn read_fields(ms: &Vec<(String, Json)>) -> (r: Result<Self, DecodeError>)
        ensures
            match r {
                Ok(v) => Self::fields_from(members(Json::Object(*ms)@)) == Ok::<Position, DecodeError>(v.model()),
                Err(e) => Self::fields_from(members(Json::Object(*ms)@)) == Err::<Position, DecodeError>(e),
            },
    {
        proof {
            reveal(Position::fields_from);
        }
        let line = match read_req::<u32>(ms, "line") {
            Ok(v) => v,
            Err(e) => return Err(e),
        };
        let character = match read_req::<u32>(ms, "character") {
            Ok(v) => v,
            Err(e) => return Err(e),
        };
        Ok(Position { line, character })
    }
}

impl JsonCodec for Position {
    type Model = Position;

    open spec fn model(&self) -> Position {
        *self
    }

    open spec fn encode(m: Position) -> JVal {
        JVal::Obj(Self::fields_json(m))
    }

    open spec fn decode(j: JVal) -> Result<Position, DecodeError> {
        match j {
            JVal::Obj(ms) => Self::fields_from(ms),
            _ => Err(DecodeError::WrongShape),
        }
    }

    open spec fn valid(m: Position) -> bool {
        Self::fields_valid(m)
    }

    fn to_json(&self) -> (r: Json) {
        let mut ms = new_object();
        self.write_fields(&mut ms);
        Json::Object(ms)
    }

    fn from_json(j: &Json) -> (r: Result<Self, DecodeError>) {
        match j {
            Json::Object(ms) => Self::read_fields(ms),
            _ => Err(DecodeError::WrongShape),
        }
    }

    proof fn lemma_round_trip(m: Position) {
        Self::lemma_fields_round_trip(m, Seq::empty(), Seq::empty());
        assert(Seq::empty() + Self::fields_json(m) + Seq::empty() =~= Self::fields_json(m));
    }

}

/// A range in a text document expressed as (zero-based) start and end positions.
#[derive(Clone, Copy, Debug, Default, PartialEq, Eq, Hash, Structural)]
pub struct Range {
    /// The range's start position.
    pub start: Position,
    /// The range's end position (exclusive).
    pub end: Position,
}

impl Range {
    /// The members that a value contributes to the object it is written in.
    pub open spec fn fields_json(m: Range) -> Seq<(Seq<char>, JVal)> {
        member("start"@, Position::encode(m.start))
            + member("end"@, Position::encode(m.end))
    }

    /// Reads a value from the members of an object; other members are ignored.
    #[verifier::opaque]
    pub open spec fn fields_from(ms: Seq<(Seq<char>, JVal)>) -> Result<Range, DecodeError> {
        match req_field::<Position>(ms, "start"@) {
            Err(e) => Err(e),
            Ok(start) => {
                match req_field::<Position>(ms, "end"@) {
                    Err(e) => Err(e),
                    Ok(end) => {
                        Ok(Range { start, end })
                    },
                }
            },
        }
    }

    /// The models that values can have.
    pub open spec fn fields_valid(m: Range) -> bool {
        &&& Position::valid(m.start)
        &&& Position::valid(m.end)
    }

    /// The members of a value, written between members of other names, read back as the value.
    pub proof fn lemma_fields_round_trip(m: Range, pre: Seq<(Seq<char>, JVal)>, post: Seq<(Seq<char>, JVal)>)
        requires
            Self::fields_valid(m),
            forall|k: Seq<char>| Self::uses_key(k) ==> (#[trigger] lookup(pre, k)) is None,
            forall|k: Seq<char>| Self::uses_key(k) ==> (#[trigger] lookup(post, k)) is None,
        ensures
            Self::fields_from(pre + Self::fields_json(m) + post) == Ok::<Range, DecodeError>(m),
    {
        broadcast use group_lookup;
        reveal(Range::fields_from);
        reveal_strlit("start");
        reveal_strlit("end");
        assert("start"@.len() == 5);
        assert("end"@.len() == 3);
        Position::lemma_round_trip(m.start);
        Position::lemma_round_trip(m.end);
    }

    /// Members with names that the type does not read change nothing.
    pub proof fn lemma_unknown_key(ms: Seq<(Seq<char>, JVal)>, k: Seq<char>, v: JVal)
        requires
            !Self::uses_key(k),
        ensures
            Self::fields_from(ms + member(k, v)) == Self::fields_from(ms),
    {
        broadcast use group_lookup;
        reveal(Range::fields_from);
    }

    /// The member names that the type reads.
    pub open spec fn uses_key(k: Seq<char>) -> bool {
        k == "start"@ || k == "end"@
    }

    /// Appends the members of the value to an object under construction.
    pub fn write_fields(&self, ms: &mut Vec<(String, Json)>)
        ensures
            members(Json::Object(*final(ms))@) == members(Json::Object(*old(ms))@) + Self::fields_json(self.model()),
    {
        let ghost start = members(Json::Object(*ms)@);
        let ghost m = self.model();
        push_member(ms, "start", self.start.to_json());
        push_member(ms, "end", self.end.to_json());
        proof {
            lemma_concat_associative(start, member("start"@, Position::encode(m.start)), member("end"@, Position::encode(m.end)));
        }
    }

    /// Reads a value from the members of an object.
    pub fn read_fields(ms: &Vec<(String, Json)>) -> (r: Result<Self, DecodeError>)
        ensures
            match r {
                Ok(v) => Self::fields_from(members(Json::Object(*ms)@)) == Ok::<Range, DecodeError>(v.model()),
                Err(e) => Self::fields_from(members(Json::Object(*ms)@)) == Err::<Range, DecodeError>(e),
            },
    {
        proof {
            reveal(Range::fields_from);
        }
        let start = match read_req::<Position>(ms, "start") {
            Ok(v) => v,
            Err(e) => return Err(e),
        };
        let end = match read_req::<Position>(ms, "end") {
            Ok(v) => v,
            Err(e) => return Err(e),
        };
        Ok(Range { start, end })
    }
}

impl JsonCodec for Range {
    type Model = Range;

    open spec fn model(&self) -> Range {
        *self
    }

    open spec fn encode(m: Range) -> JVal {
        JVal::Obj(Self::fields_json(m))
    }

    open spec fn decode(j: JVal) -> Result<Range, DecodeError> {
        match j {
            JVal::Obj(ms) => Self::fields_from(ms),
            _ => Err(DecodeError::WrongShape),
        }
    }

    open spec fn valid(m: Range) -> bool {
        Self::fields_valid(m)
    }

    fn to_json(&self) -> (r: Json) {
        let mut ms = new_object();
        self.write_fields(&mut ms);
        Json::Object(ms)
    }

    fn from_json(j: &Json) -> (r: Result<Self, DecodeError>) {
        match j {
            Json::Object(ms) => Self::read_fields(ms),
            _ => Err(DecodeError::WrongShape),
        }
    }

    proof fn lemma_round_trip(m: Range) {
        Self::lemma_fields_round_trip(m, Seq::empty(), Seq::empty());
        assert(Seq::empty() + Self::fields_json(m) + Seq::empty() =~= Self::fields_json(m));
    }

}

/// A location inside a resource, such as a line inside a text file.
#[derive(Clone, Debug, PartialEq, Eq, Hash)]
pub struct Location {
    pub uri: Uri,
    pub range: Range,
}

/// The mathematical value of a [`Location`].
pub struct LocationModel {
    pub uri: Seq<char>,
    pub range: Range,
}

impl Location {
    /// The members that a value contributes to the object it is written in.
    pub open spec fn fields_json(m: LocationModel) -> Seq<(Seq<char>, JVal)> {
        member("uri"@, Uri::encode(m.uri))
            + member("range"@, Range::encode(m.range))
    }

    /// Reads a value from the members of an object; other members are ignored.
    #[verifier::opaque]
    pub open spec fn fields_from(ms: Seq<(Seq<char>, JVal)>) -> Result<LocationModel, DecodeError> {
        match req_field::<Uri>(ms, "uri"@) {
            Err(e) => Err(e),
            Ok(uri) => {
                match req_field::<Range>(ms, "range"@) {
                    Err(e) => Err(e),
                    Ok(range) => {
                        Ok(LocationModel { uri, range })
                    },
                }
            },
        }
    }

    /// The models that values can have.
    pub open spec fn fields_valid(m: LocationModel) -> bool {
        &&& Uri::valid(m.uri)
        &&& Range::valid(m.range)
    }

    /// The members of a value, written between members of other names, read back as the value.
    pub proof fn lemma_fields_round_trip(m: LocationModel, pre: Seq<(Seq<char>, JVal)>, post: Seq<(Seq<char>, JVal)>)
        requires
            Self::fields_valid(m),
            forall|k: Seq<char>| Self::uses_key(k) ==> (#[trigger] lookup(pre, k)) is None,
            forall|k: Seq<char>| Self::uses_key(k) ==> (#[trigger] lookup(post, k)) is None,
        ensures
            Self::fields_from(pre + Self::fields_json(m) + post) == Ok::<LocationModel, DecodeError>(m),
    {
        broadcast use group_lookup;
        reveal(Location::fields_from);
        reveal_strlit("uri");
        reveal_strlit("range");
        assert("uri"@.len() == 3);
        assert("range"@.len() == 5);
        Uri::lemma_round_trip(m.uri);
        Range::lemma_round_trip(m.range);
    }

    /// Members with names that the type does not read change nothing.
    pub proof fn lemma_unknown_key(ms: Seq<(Seq<char>, JVal)>, k: Seq<char>, v: JVal)
        requires
            !Self::uses_key(k),
        ensures
            Self::fields_from(ms + member(k, v)) == Self::fields_from(ms),
    {
        broadcast use group_lookup;
        reveal(Location::fields_from);
    }

    /// The member names that the type reads.
    pub open spec fn uses_key(k: Seq<char>) -> bool {
        k == "uri"@ || k == "range"@
    }

    /// Appends the members of the value to an object under construction.
    pub fn write_fields(&self, ms: &mut Vec<(String, Json)>)
        ensures
            members(Json::Object(*final(ms))@) == members(Json::Object(*old(ms))@) + Self::fields_json(self.model()),
    {
        let ghost start = members(Json::Object(*ms)@);
        let ghost m = self.model();
        push_member(ms, "uri", self.uri.to_json());
        push_member(ms, "range", self.range.to_json());
        proof {
            lemma_concat_associative(start, member("uri"@, Uri::encode(m.uri)), member("range"@, Range::encode(m.range)));
        }
    }

    /// Reads a value from the members of an object.
    pub fn read_fields(ms: &Vec<(String, Json)>) -> (r: Result<Self, DecodeError>)
        ensures
            match r {
                Ok(v) => Self::fields_from(members(Json::Object(*ms)@)) == Ok::<LocationModel, DecodeError>(v.model()),
                Err(e) => Self::fields_from(members(Json::Object(*ms)@)) == Err::<LocationModel, DecodeError>(e),
            },
    {
        proof {
            reveal(Location::fields_from);
        }
        let uri = match read_req::<Uri>(ms, "uri") {
            Ok(v) => v,
            Err(e) => return Err(e),
        };
        let range = match read_req::<Range>(ms, "range") {
            Ok(v) => v,
            Err(e) => return Err(e),
        };
        Ok(Location { uri, range })
    }
}

impl JsonCodec for Location {
    type Model = LocationModel;

    open spec fn model(&self) -> LocationModel {
        LocationModel {
            uri: self.uri.model(),
            range: self.range.model(),
        }
    }

    open spec fn encode(m: LocationModel) -> JVal {
        JVal::Obj(Self::fields_json(m))
    }

    open spec fn decode(j: JVal) -> Result<LocationModel, DecodeError> {
        match j {
            JVal::Obj(ms) => Self::fields_from(ms),
            _ => Err(DecodeError::WrongShape),
        }
    }

    open spec fn valid(m: LocationModel) -> bool {
        Self::fields_valid(m)
    }

    fn to_json(&self) -> (r: Json) {
        let mut ms = new_object();
        self.write_fields(&mut ms);
        Json::Object(ms)
    }

    fn from_json(j: &Json) -> (r: Result<Self, DecodeError>) {
        match j {
            Json::Object(ms) => Self::read_fields(ms),
            _ => Err(DecodeError::WrongShape),
        }
    }

    proof fn lemma_round_trip(m: LocationModel) {
        Self::lemma_fields_round_trip(m, Seq::empty(), Seq::empty());
        assert(Seq::empty() + Self::fields_json(m) + Seq::empty() =~= Self::fields_json(m));
    }

}

/// A link between a source and a target location.
#[derive(Clone, Debug, PartialEq, Eq)]
pub struct LocationLink {
    /// Span of the origin of this link, used as the underlined span for mouse interaction.
    pub origin_selection_range: Option<Range>,
    /// The target resource identifier of this link.
    pub target_uri: Uri,
    /// The full target range of this link.
    pub target_range: Range,
    /// The range that should be selected and revealed when this link is followed.
    pub target_selection_range: Range,
}

/// The mathematical value of a [`LocationLink`].
pub struct LocationLinkModel {
    pub origin_selection_range: Option<Range>,
    pub target_uri: Seq<char>,
    pub target_range: Range,
    pub target_selection_range: Range,
}

impl LocationLink {
    /// The members that a value contributes to the object it is written in.
    pub open spec fn fields_json(m: LocationLinkModel) -> Seq<(Seq<char>, JVal)> {
        opt_member::<Range>("originSelectionRange"@, m.origin_selection_range)
            + member("targetUri"@, Uri::encode(m.target_uri))
            + member("targetRange"@, Range::encode(m.target_range))
            + member("targetSelectionRange"@, Range::encode(m.target_selection_range))
    }

    /// Reads a value from the members of an object; other members are ignored.
    #[verifier::opaque]
    pub open spec fn fields_from(ms: Seq<(Seq<char>, JVal)>) -> Result<LocationLinkModel, DecodeError> {
        match opt_field::<Range>(ms, "originSelectionRange"@) {
            Err(e) => Err(e),
            Ok(origin_selection_range) => {
                match req_field::<Uri>(ms, "targetUri"@) {
                    Err(e) => Err(e),
                    Ok(target_uri) => {
                        match req_field::<Range>(ms, "targetRange"@) {
                            Err(e) => Err(e),
                            Ok(target_range) => {
                                match req_field::<Range>(ms, "targetSelectionRange"@) {
                                    Err(e) => Err(e),
                                    Ok(target_selection_range) => {
                                        Ok(LocationLinkModel { origin_selection_range, target_uri, target_range, target_selection_range })
                                    },
                                }
                            },
                        }
                    },
                }
            },
        }
    }

    /// The models that values can have.
    pub open spec fn fields_valid(m: LocationLinkModel) -> bool {
        &&& opt_valid::<Range>(m.origin_selection_range)
        &&& Uri::valid(m.target_uri)
        &&& Range::valid(m.target_range)
        &&& Range::valid(m.target_selection_range)
    }

    /// The members of a value, written between members of other names, read back as the value.
    pub proof fn lemma_fields_round_trip(m: LocationLinkModel, pre: Seq<(Seq<char>, JVal)>, post: Seq<(Seq<char>, JVal)>)
        requires
            Self::fields_valid(m),
            forall|k: Seq<char>| Self::uses_key(k) ==> (#[trigger] lookup(pre, k)) is None,
            forall|k: Seq<char>| Self::uses_key(k) ==> (#[trigger] lookup(post, k)) is None,
        ensures
            Self::fields_from(pre + Self::fields_json(m) + post) == Ok::<LocationLinkModel, DecodeError>(m),
    {
        broadcast use group_lookup;
        reveal(LocationLink::fields_from);
        reveal_strlit("originSelectionRange");
        reveal_strlit("targetUri");
        reveal_strlit("targetRange");
        reveal_strlit("targetSelectionRange");
        assert("originSelectionRange"@.len() == 20);
        assert("targetUri"@.len() == 9);
        assert("targetRange"@.len() == 11);
        assert("targetSelectionRange"@.len() == 20);
        assert("originSelectionRange"@[0] != "targetSelectionRange"@[0]);
        if let Some(x) = m.origin_selection_range {
            Range::lemma_round_trip(x);
        }
        Uri::lemma_round_trip(m.target_uri);
        Range::lemma_round_trip(m.target_range);
        Range::lemma_round_trip(m.target_selection_range);
    }

    /// Members with names that the type does not read change nothing.
    pub proof fn lemma_unknown_key(ms: Seq<(Seq<char>, JVal)>, k: Seq<char>, v: JVal)
        requires
            !Self::uses_key(k),
        ensures
            Self::fields_from(ms + member(k, v)) == Self::fields_from(ms),
    {
        broadcast use group_lookup;
        reveal(LocationLink::fields_from);
    }

    /// The member names that the type reads.
    pub open spec fn uses_key(k: Seq<char>) -> bool {
        k == "originSelectionRange"@ || k == "targetUri"@ || k == "targetRange"@ || k == "targetSelectionRange"@
    }

    /// Appends the members of the value to an object under construction.
    pub fn write_fields(&self, ms: &mut Vec<(String, Json)>)
        ensures
            members(Json::Object(*final(ms))@) == members(Json::Object(*old(ms))@) + Self::fields_json(self.model()),
    {
        let ghost start = members(Json::Object(*ms)@);
        let ghost m = self.model();
        push_opt(ms, "originSelectionRange", &self.origin_selection_range);
        push_member(ms, "targetUri", self.target_uri.to_json());
        proof {
            lemma_concat_associative(start, opt_member::<Range>("originSelectionRange"@, m.origin_selection_range), member("targetUri"@, Uri::encode(m.target_uri)));
        }
        push_member(ms, "targetRange", self.target_range.to_json());
        proof {
            lemma_concat_associative(start, opt_member::<Range>("originSelectionRange"@, m.origin_selection_range) + member("targetUri"@, Uri::encode(m.target_uri)), member("targetRange"@, Range::encode(m.target_range)));
        }
        push_member(ms, "targetSelectionRange", self.target_selection_range.to_json());
        proof {
            lemma_concat_associative(start, opt_member::<Range>("originSelectionRange"@, m.origin_selection_range) + member("targetUri"@, Uri::encode(m.target_uri)) + member("targetRange"@, Range::encode(m.target_range)), member("targetSelectionRange"@, Range::encode(m.target_selection_range)));
        }
    }

    /// Reads a value from the members of an object.
    pub fn read_fields(ms: &Vec<(String, Json)>) -> (r: Result<Self, DecodeError>)
        ensures
            match r {
                Ok(v) => Self::fields_from(members(Json::Object(*ms)@)) == Ok::<LocationLinkModel, DecodeError>(v.model()),
                Err(e) => Self::fields_from(members(Json::Object(*ms)@)) == Err::<LocationLinkModel, DecodeError>(e),
            },
    {
        proof {
            reveal(LocationLink::fields_from);
        }
        let origin_selection_range = match read_opt::<Range>(ms, "originSelectionRange") {
            Ok(v) => v,
            Err(e) => return Err(e),
        };
        let target_uri = match read_req::<Uri>(ms, "targetUri") {
            Ok(v) => v,
            Err(e) => return Err(e),
        };
        let target_range = match read_req::<Range>(ms, "targetRange") {
            Ok(v) => v,
            Err(e) => return Err(e),
        };
        let target_selection_range = match read_req::<Range>(ms, "targetSelectionRange") {
            Ok(v) => v,
            Err(e) => return Err(e),
        };
        Ok(LocationLink { origin_selection_range, target_uri, target_range, target_selection_range })
    }
}

impl JsonCodec for LocationLink {
    type Model = LocationLinkModel;

    open spec fn model(&self) -> LocationLinkModel {
        LocationLinkModel {
            origin_selection_range: self.origin_selection_range.model(),
            target_uri: self.target_uri.model(),
            target_range: self.target_range.model(),
            target_selection_range: self.target_selection_range.model(),
        }
    }

    open spec fn encode(m: LocationLinkModel) -> JVal {
        JVal::Obj(Self::fields_json(m))
    }

    open spec fn decode(j: JVal) -> Result<LocationLinkModel, DecodeError> {
        match j {
            JVal::Obj(ms) => Self::fields_from(ms),
            _ => Err(DecodeError::WrongShape),
        }
    }

    open spec fn valid(m: LocationLinkModel) -> bool {
        Self::fields_valid(m)
    }

    fn to_json(&self) -> (r: Json) {
        let mut ms = new_object();
        self.write_fields(&mut ms);
        Json::Object(ms)
    }

    fn from_json(j: &Json) -> (r: Result<Self, DecodeError>) {
        match j {
            Json::Object(ms) => Self::read_fields(ms),
            _ => Err(DecodeError::WrongShape),
        }
    }

    proof fn lemma_round_trip(m: LocationLinkModel) {
        Self::lemma_fields_round_trip(m, Seq::empty(), Seq::empty());
        assert(Seq::empty() + Self::fields_json(m) + Seq::empty() =~= Self::fields_json(m));
    }

}

/// An id or token that is either a number or a string, written untagged.
#[derive(Clone, Debug, PartialEq, Eq, Hash)]
pub enum NumberOrString {
    Number(i32),
    String(String),
}

/// The mathematical value of a [`NumberOrString`].
pub enum NumberOrStringModel {
    Number(i32),
    String(Seq<char>),
}

/// Written as the variant's own encoding; decoding tries the variants in order.
impl JsonCodec for NumberOrString {
    type Model = NumberOrStringModel;

    open spec fn model(&self) -> NumberOrStringModel {
        match self {
            NumberOrString::Number(x) => NumberOrStringModel::Number(x.model()),
            NumberOrString::String(x) => NumberOrStringModel::String(x.model()),
        }
    }

    open spec fn encode(m: NumberOrStringModel) -> JVal {
        match m {
            NumberOrStringModel::Number(x) => i32::encode(x),
            NumberOrStringModel::String(x) => String::encode(x),
        }
    }

    open spec fn decode(j: JVal) -> Result<NumberOrStringModel, DecodeError> {
        match i32::decode(j) {
            Ok(x) => Ok(NumberOrStringModel::Number(x)),
            Err(_) => {
                match String::decode(j) {
                    Ok(x) => Ok(NumberOrStringModel::String(x)),
                    Err(_) => {
                        Err(DecodeError::WrongShape)
                    },
                }
            },
        }
    }

    /// A variant is read back only where no earlier variant accepts its encoding.
    open spec fn valid(m: NumberOrStringModel) -> bool {
        match m {
            NumberOrStringModel::Number(x) => i32::valid(x),
            NumberOrStringModel::String(x) => String::valid(x) && i32::decode(String::encode(x)) is Err,
        }
    }

    fn to_json(&self) -> (r: Json) {
        match self {
            NumberOrString::Number(x) => x.to_json(),
            NumberOrString::String(x) => x.to_json(),
        }
    }

    fn from_json(j: &Json) -> (r: Result<NumberOrString, DecodeError>) {
        if let Ok(x) = i32::from_json(j) {
            return Ok(NumberOrString::Number(x));
        }
        if let Ok(x) = String::from_json(j) {
            return Ok(NumberOrString::String(x));
        }
        Err(DecodeError::WrongShape)
    }

    proof fn lemma_round_trip(m: NumberOrStringModel) {
        match m {
            NumberOrStringModel::Number(x) => i32::lemma_round_trip(x),
            NumberOrStringModel::String(x) => String::lemma_round_trip(x),
        }
    }
}

/// Parameters of the `$/cancelRequest` notification.
#[derive(Clone, Debug, PartialEq, Eq)]
pub struct CancelParams {
    /// The request id to cancel.
    pub id: NumberOrString,
}

/// The mathematical value of a [`CancelParams`].
pub struct CancelParamsModel {
    pub id: NumberOrStringModel,
}

impl CancelParams {
    /// The members that a value contributes to the object it is written in.
    pub open spec fn fields_json(m: CancelParamsModel) -> Seq<(Seq<char>, JVal)> {
        member("id"@, NumberOrString::encode(m.id))
    }

    /// Reads a value from the members of an object; other members are ignored.
    #[verifier::opaque]
    pub open spec fn fields_from(ms: Seq<(Seq<char>, JVal)>) -> Result<CancelParamsModel, DecodeError> {
        match req_field::<NumberOrString>(ms, "id"@) {
            Err(e) => Err(e),
            Ok(id) => {
                Ok(CancelParamsModel { id })
            },
        }
    }

    /// The models that values can have.
    pub open spec fn fields_valid(m: CancelParamsModel) -> bool {
        &&& NumberOrString::valid(m.id)
    }

    /// The members of a value, written between members of other names, read back as the value.
    pub proof fn lemma_fields_round_trip(m: CancelParamsModel, pre: Seq<(Seq<char>, JVal)>, post: Seq<(Seq<char>, JVal)>)
        requires
            Self::fields_valid(m),
            forall|k: Seq<char>| Self::uses_key(k) ==> (#[trigger] lookup(pre, k)) is None,
            forall|k: Seq<char>| Self::uses_key(k) ==> (#[trigger] lookup(post, k)) is None,
        ensures
            Self::fields_from(pre + Self::fields_json(m) + post) == Ok::<CancelParamsModel, DecodeError>(m),
    {
        broadcast use group_lookup;
        reveal(CancelParams::fields_from);
        reveal_strlit("id");
        assert("id"@.len() == 2);
        NumberOrString::lemma_round_trip(m.id);
    }

    /// Members with names that the type does not read change nothing.
    pub proof fn lemma_unknown_key(ms: Seq<(Seq<char>, JVal)>, k: Seq<char>, v: JVal)
        requires
            !Self::uses_key(k),
        ensures
            Self::fields_from(ms + member(k, v)) == Self::fields_from(ms),
    {
        broadcast use group_lookup;
        reveal(CancelParams::fields_from);
    }

    /// The member names that the type reads.
    pub open spec fn uses_key(k: Seq<char>) -> bool {
        k == "id"@
    }

    /// Appends the members of the value to an object under construction.
    pub fn write_fields(&self, ms: &mut Vec<(String, Json)>)
        ensures
            members(Json::Object(*final(ms))@) == members(Json::Object(*old(ms))@) + Self::fields_json(self.model()),
    {
        let ghost start = members(Json::Object(*ms)@);
        push_member(ms, "id", self.id.to_json());
        assert(members(Json::Object(*ms)@) =~= start + Self::fields_json(self.model()));
    }

    /// Reads a value from the members of an object.
    pub fn read_fields(ms: &Vec<(String, Json)>) -> (r: Result<Self, DecodeError>)
        ensures
            match r {
                Ok(v) => Self::fields_from(members(Json::Object(*ms)@)) == Ok::<CancelParamsModel, DecodeError>(v.model()),
                Err(e) => Self::fields_from(members(Json::Object(*ms)@)) == Err::<CancelParamsModel, DecodeError>(e),
            },
    {
        proof {
            reveal(CancelParams::fields_from);
        }
        let id = match read_req::<NumberOrString>(ms, "id") {
            Ok(v) => v,
            Err(e) => return Err(e),
        };
        Ok(CancelParams { id })
    }
}

impl JsonCodec for CancelParams {
    type Model = CancelParamsModel;

    open spec fn model(&self) -> CancelParamsModel {
        CancelParamsModel {
            id: self.id.model(),
        }
    }

    open spec fn encode(m: CancelParamsModel) -> JVal {
        JVal::Obj(Self::fields_json(m))
    }

    open spec fn decode(j: JVal) -> Result<CancelParamsModel, DecodeError> {
        match j {
            JVal::Obj(ms) => Self::fields_from(ms),
            _ => Err(DecodeError::WrongShape),
        }
    }

    open spec fn valid(m: CancelParamsModel) -> bool {
        Self::fields_valid(m)
    }

    fn to_json(&self) -> (r: Json) {
        let mut ms = new_object();
        self.write_fields(&mut ms);
        Json::Object(ms)
    }

    fn from_json(j: &Json) -> (r: Result<Self, DecodeError>) {
        match j {
            Json::Object(ms) => Self::read_fields(ms),
            _ => Err(DecodeError::WrongShape),
        }
    }

    proof fn lemma_round_trip(m: CancelParamsModel) {
        Self::lemma_fields_round_trip(m, Seq::empty(), Seq::empty());
        assert(Seq::empty() + Self::fields_json(m) + Seq::empty() =~= Self::fields_json(m));
    }

}

/// A textual edit applicable to a text document.
#[derive(Clone, Debug, Default, PartialEq, Eq)]
pub struct TextEdit {
    /// The range of the text document to be manipulated.
    pub range: Range,
    /// The string to be inserted. For delete operations use an empty string.
    pub new_text: String,
}

/// The mathematical value of a [`TextEdit`].
pub struct TextEditModel {
    pub range: Range,
    pub new_text: Seq<char>,
}

impl TextEdit {
    /// The members that a value contributes to the object it is written in.
    pub open spec fn fields_json(m: TextEditModel) -> Seq<(Seq<char>, JVal)> {
        member("range"@, Range::encode(m.range))
            + member("newText"@, String::encode(m.new_text))
    }

    /// Reads a value from the members of an object; other members are ignored.
    #[verifier::opaque]
    pub open spec fn fields_from(ms: Seq<(Seq<char>, JVal)>) -> Result<TextEditModel, DecodeError> {
        match req_field::<Range>(ms, "range"@) {
            Err(e) => Err(e),
            Ok(range) => {
                match req_field::<String>(ms, "newText"@) {
                    Err(e) => Err(e),
                    Ok(new_text) => {
                        Ok(TextEditModel { range, new_text })
                    },
                }
            },
        }
    }

    /// The models that values can have.
    pub open spec fn fields_valid(m: TextEditModel) -> bool {
        &&& Range::valid(m.range)
        &&& String::valid(m.new_text)
    }

    /// The members of a value, written between members of other names, read back as the value.
    pub proof fn lemma_fields_round_trip(m: TextEditModel, pre: Seq<(Seq<char>, JVal)>, post: Seq<(Seq<char>, JVal)>)
        requires
            Self::fields_valid(m),
            forall|k: Seq<char>| Self::uses_key(k) ==> (#[trigger] lookup(pre, k)) is None,
            forall|k: Seq<char>| Self::uses_key(k) ==> (#[trigger] lookup(post, k)) is None,
        ensures
            Self::fields_from(pre + Self::fields_json(m) + post) == Ok::<TextEditModel, DecodeError>(m),
    {
        broadcast use group_lookup;
        reveal(TextEdit::fields_from);
        reveal_strlit("range");
        reveal_strlit("newText");
        assert("range"@.len() == 5);
        assert("newText"@.len() == 7);
        Range::lemma_round_trip(m.range);
        String::lemma_round_trip(m.new_text);
    }

    /// Members with names that the type does not read change nothing.
    pub proof fn lemma_unknown_key(ms: Seq<(Seq<char>, JVal)>, k: Seq<char>, v: JVal)
        requires
            !Self::uses_key(k),
        ensures
            Self::fields_from(ms + member(k, v)) == Self::fields_from(ms),
    {
        broadcast use group_lookup;
        reveal(TextEdit::fields_from);
    }

    /// The member names that the type reads.
    pub open spec fn uses_key(k: Seq<char>) -> bool {
        k == "range"@ || k == "newText"@
    }

    /// Appends the members of the value to an object under construction.
    pub fn write_fields(&self, ms: &mut Vec<(String, Json)>)
        ensures
            members(Json::Object(*final(ms))@) == members(Json::Object(*old(ms))@) + Self::fields_json(self.model()),
    {
        let ghost start = members(Json::Object(*ms)@);
        let ghost m = self.model();
        push_member(ms, "range", self.range.to_json());
        push_member(ms, "newText", self.new_text.to_json());
        proof {
            lemma_concat_associative(start, member("range"@, Range::encode(m.range)), member("newText"@, String::encode(m.new_text)));
        }
    }

    /// Reads a value from the members of an object.
    pub fn read_fields(ms: &Vec<(String, Json)>) -> (r: Result<Self, DecodeError>)
        ensures
            match r {
                Ok(v) => Self::fields_from(members(Json::Object(*ms)@)) == Ok::<TextEditModel, DecodeError>(v.model()),
                Err(e) => Self::fields_from(members(Json::Object(*ms)@)) == Err::<TextEditModel, DecodeError>(e),
            },
    {
        proof {
            reveal(TextEdit::fields_from);
        }
        let range = match read_req::<Range>(ms, "range") {
            Ok(v) => v,
            Err(e) => return Err(e),
        };
        let new_text = match read_req::<String>(ms, "newText") {
            Ok(v) => v,
            Err(e) => return Err(e),
        };
        Ok(TextEdit { range, new_text })
    }
}

impl JsonCodec for TextEdit {
    type Model = TextEditModel;

    open spec fn model(&self) -> TextEditModel {
        TextEditModel {
            range: self.range.model(),
            new_text: self.new_text.model(),
        }
    }

    open spec fn encode(m: TextEditModel) -> JVal {
        JVal::Obj(Self::fields_json(m))
    }

    open spec fn decode(j: JVal) -> Result<TextEditModel, DecodeError> {
        match j {
            JVal::Obj(ms) => Self::fields_from(ms),
            _ => Err(DecodeError::WrongShape),
        }
    }

    open spec fn valid(m: TextEditModel) -> bool {
        Self::fields_valid(m)
    }

    fn to_json(&self) -> (r: Json) {
        let mut ms = new_object();
        self.write_fields(&mut ms);
        Json::Object(ms)
    }

    fn from_json(j: &Json) -> (r: Result<Self, DecodeError>) {
        match j {
            Json::Object(ms) => Self::read_fields(ms),
            _ => Err(DecodeError::WrongShape),
        }
    }

    proof fn lemma_round_trip(m: TextEditModel) {
        Self::lemma_fields_round_trip(m, Seq::empty(), Seq::empty());
        assert(Seq::empty() + Self::fields_json(m) + Seq::empty() =~= Self::fields_json(m));
    }

}

/// A text edit with a change annotation.
#[derive(Clone, Debug, PartialEq, Eq)]
pub struct AnnotatedTextEdit {
    pub text_edit: TextEdit,
    /// The actual annotation.
    pub annotation_id: String,
}

/// The mathematical value of a [`AnnotatedTextEdit`].
pub struct AnnotatedTextEditModel {
    pub text_edit: TextEditModel,
    pub annotation_id: Seq<char>,
}

impl AnnotatedTextEdit {
    /// The members that a value contributes to the object it is written in.
    pub open spec fn fields_json(m: AnnotatedTextEditModel) -> Seq<(Seq<char>, JVal)> {
        TextEdit::fields_json(m.text_edit)
            + member("annotationId"@, String::encode(m.annotation_id))
    }

    /// Reads a value from the members of an object; other members are ignored.
    #[verifier::opaque]
    pub open spec fn fields_from(ms: Seq<(Seq<char>, JVal)>) -> Result<AnnotatedTextEditModel, DecodeError> {
        match TextEdit::fields_from(ms) {
            Err(e) => Err(e),
            Ok(text_edit) => {
                match req_field::<String>(ms, "annotationId"@) {
                    Err(e) => Err(e),
                    Ok(annotation_id) => {
                        Ok(AnnotatedTextEditModel { text_edit, annotation_id })
                    },
                }
            },
        }
    }

    /// The models that values can have.
    pub open spec fn fields_valid(m: AnnotatedTextEditModel) -> bool {
        &&& TextEdit::fields_valid(m.text_edit)
        &&& String::valid(m.annotation_id)
    }

    /// The members of a value, written between members of other names, read back as the value.
    pub proof fn lemma_fields_round_trip(m: AnnotatedTextEditModel, pre: Seq<(Seq<char>, JVal)>, post: Seq<(Seq<char>, JVal)>)
        requires
            Self::fields_valid(m),
            forall|k: Seq<char>| Self::uses_key(k) ==> (#[trigger] lookup(pre, k)) is None,
            forall|k: Seq<char>| Self::uses_key(k) ==> (#[trigger] lookup(post, k)) is None,
        ensures
            Self::fields_from(pre + Self::fields_json(m) + post) == Ok::<AnnotatedTextEditModel, DecodeError>(m),
    {
        broadcast use group_lookup;
        reveal(AnnotatedTextEdit::fields_from);
        reveal_strlit("range");
        reveal_strlit("newText");
        reveal_strlit("annotationId");
        assert("range"@.len() == 5);
        assert("newText"@.len() == 7);
        assert("annotationId"@.len() == 12);
        let before = pre;
        let after = member("annotationId"@, String::encode(m.annotation_id)) + post;
        TextEdit::lemma_fields_round_trip(m.text_edit, before, after);
        assert(pre + Self::fields_json(m) + post =~= before + TextEdit::fields_json(m.text_edit) + after);
        String::lemma_round_trip(m.annotation_id);
    }

    /// Members with names that the type does not read change nothing.
    pub proof fn lemma_unknown_key(ms: Seq<(Seq<char>, JVal)>, k: Seq<char>, v: JVal)
        requires
            !Self::uses_key(k),
        ensures
            Self::fields_from(ms + member(k, v)) == Self::fields_from(ms),
    {
        broadcast use group_lookup;
        reveal(AnnotatedTextEdit::fields_from);
        TextEdit::lemma_unknown_key(ms, k, v);
    }

    /// The member names that the type reads.
    pub open spec fn uses_key(k: Seq<char>) -> bool {
        TextEdit::uses_key(k) || k == "annotationId"@
    }

    /// Appends the members of the value to an object under construction.
    pub fn write_fields(&self, ms: &mut Vec<(String, Json)>)
        ensures
            members(Json::Object(*final(ms))@) == members(Json::Object(*old(ms))@) + Self::fields_json(self.model()),
    {
        let ghost start = members(Json::Object(*ms)@);
        let ghost m = self.model();
        self.text_edit.write_fields(ms);
        push_member(ms, "annotationId", self.annotation_id.to_json());
        proof {
            lemma_concat_associative(start, TextEdit::fields_json(m.text_edit), member("annotationId"@, String::encode(m.annotation_id)));
        }
    }

    /// Reads a value from the members of an object.
    pub fn read_fields(ms: &Vec<(String, Json)>) -> (r: Result<Self, DecodeError>)
        ensures
            match r {
                Ok(v) => Self::fields_from(members(Json::Object(*ms)@)) == Ok::<AnnotatedTextEditModel, DecodeError>(v.model()),
                Err(e) => Self::fields_from(members(Json::Object(*ms)@)) == Err::<AnnotatedTextEditModel, DecodeError>(e),
            },
    {
        proof {
            reveal(AnnotatedTextEdit::fields_from);
        }
        let text_edit = match TextEdit::read_fields(ms) {
            Ok(v) => v,
            Err(e) => return Err(e),
        };
        let annotation_id = match read_req::<String>(ms, "annotationId") {
            Ok(v) => v,
            Err(e) => return Err(e),
        };
        Ok(AnnotatedTextEdit { text_edit, annotation_id })
    }
}

impl JsonCodec for AnnotatedTextEdit {
    type Model = AnnotatedTextEditModel;

    open spec fn model(&self) -> AnnotatedTextEditModel {
        AnnotatedTextEditModel {
            text_edit: self.text_edit.model(),
            annotation_id: self.annotation_id.model(),
        }
    }

    open spec fn encode(m: AnnotatedTextEditModel) -> JVal {
        JVal::Obj(Self::fields_json(m))
    }

    open spec fn decode(j: JVal) -> Result<AnnotatedTextEditModel, DecodeError> {
        match j {
            JVal::Obj(ms) => Self::fields_from(ms),
            _ => Err(DecodeError::WrongShape),
        }
    }

    open spec fn valid(m: AnnotatedTextEditModel) -> bool {
        Self::fields_valid(m)
    }

    fn to_json(&self) -> (r: Json) {
        let mut ms = new_object();
        self.write_fields(&mut ms);
        Json::Object(ms)
    }

    fn from_json(j: &Json) -> (r: Result<Self, DecodeError>) {
        match j {
            Json::Object(ms) => Self::read_fields(ms),
            _ => Err(DecodeError::WrongShape),
        }
    }

    proof fn lemma_round_trip(m: AnnotatedTextEditModel) {
        Self::lemma_fields_round_trip(m, Seq::empty(), Seq::empty());
        assert(Seq::empty() + Self::fields_json(m) + Seq::empty() =~= Self::fields_json(m));
    }

}

/// A reference to a command: a title and the identifier of a command handler.
#[derive(Clone, Debug, Default, PartialEq, Eq)]
pub struct Command {
    /// Title of the command, like `save`.
    pub title: String,
    /// The identifier of the actual command handler.
    pub command: String,
    /// Arguments that the command handler should be invoked with.
    pub arguments: Option<Vec<Json>>,
}

/// The mathematical value of a [`Command`].
pub struct CommandModel {
    pub title: Seq<char>,
    pub command: Seq<char>,
    pub arguments: Option<Seq<JVal>>,
}

impl Command {
    /// The members that a value contributes to the object it is written in.
    pub open spec fn fields_json(m: CommandModel) -> Seq<(Seq<char>, JVal)> {
        member("title"@, String::encode(m.title))
            + member("command"@, String::encode(m.command))
            + opt_member::<Vec<Json>>("arguments"@, m.arguments)
    }

    /// Reads a value from the members of an object; other members are ignored.
    #[verifier::opaque]
    pub open spec fn fields_from(ms: Seq<(Seq<char>, JVal)>) -> Result<CommandModel, DecodeError> {
        match req_field::<String>(ms, "title"@) {
            Err(e) => Err(e),
            Ok(title) => {
                match req_field::<String>(ms, "command"@) {
                    Err(e) => Err(e),
                    Ok(command) => {
                        match opt_field::<Vec<Json>>(ms, "arguments"@) {
                            Err(e) => Err(e),
                            Ok(arguments) => {
                                Ok(CommandModel { title, command, arguments })
                            },
                        }
                    },
                }
            },
        }
    }

    /// The models that values can have.
    pub open spec fn fields_valid(m: CommandModel) -> bool {
        &&& String::valid(m.title)
        &&& String::valid(m.command)
        &&& opt_valid::<Vec<Json>>(m.arguments)
    }

    /// The members of a value, written between members of other names, read back as the value.
    pub proof fn lemma_fields_round_trip(m: CommandModel, pre: Seq<(Seq<char>, JVal)>, post: Seq<(Seq<char>, JVal)>)
        requires
            Self::fields_valid(m),
            forall|k: Seq<char>| Self::uses_key(k) ==> (#[trigger] lookup(pre, k)) is None,
            forall|k: Seq<char>| Self::uses_key(k) ==> (#[trigger] lookup(post, k)) is None,
        ensures
            Self::fields_from(pre + Self::fields_json(m) + post) == Ok::<CommandModel, DecodeError>(m),
    {
        broadcast use group_lookup;
        reveal(Command::fields_from);
        reveal_strlit("title");
        reveal_strlit("command");
        reveal_strlit("arguments");
        assert("title"@.len() == 5);
        assert("command"@.len() == 7);
        assert("arguments"@.len() == 9);
        String::lemma_round_trip(m.title);
        String::lemma_round_trip(m.command);
        if let Some(x) = m.arguments {
            <Vec<Json>>::lemma_round_trip(x);
        }
    }

    /// Members with names that the type does not read change nothing.
    pub proof fn lemma_unknown_key(ms: Seq<(Seq<char>, JVal)>, k: Seq<char>, v: JVal)
        requires
            !Self::uses_key(k),
        ensures
            Self::fields_from(ms + member(k, v)) == Self::fields_from(ms),
    {
        broadcast use group_lookup;
        reveal(Command::fields_from);
    }

    /// The member names that the type reads.
    pub open spec fn uses_key(k: Seq<char>) -> bool {
        k == "title"@ || k == "command"@ || k == "arguments"@
    }

    /// Appends the members of the value to an object under construction.
    pub fn write_fields(&self, ms: &mut Vec<(String, Json)>)
        ensures
            members(Json::Object(*final(ms))@) == members(Json::Object(*old(ms))@) + Self::fields_json(self.model()),
    {
        let ghost start = members(Json::Object(*ms)@);
        let ghost m = self.model();
        push_member(ms, "title", self.title.to_json());
        push_member(ms, "command", self.command.to_json());
        proof {
            lemma_concat_associative(start, member("title"@, String::encode(m.title)), member("command"@, String::encode(m.command)));
        }
        push_opt(ms, "arguments", &self.arguments);
        proof {
            lemma_concat_associative(start, member("title"@, String::encode(m.title)) + member("command"@, String::encode(m.command)), opt_member::<Vec<Json>>("arguments"@, m.arguments));
        }
    }

    /// Reads a value from the members of an object.
    pub fn read_fields(ms: &Vec<(String, Json)>) -> (r: Result<Self, DecodeError>)
        ensures
            match r {
                Ok(v) => Self::fields_from(members(Json::Object(*ms)@)) == Ok::<CommandModel, DecodeError>(v.model()),
                Err(e) => Self::fields_from(members(Json::Object(*ms)@)) == Err::<CommandModel, DecodeError>(e),
            },
    {
        proof {
            reveal(Command::fields_from);
        }
        let title = match read_req::<String>(ms, "title") {
            Ok(v) => v,
            Err(e) => return Err(e),
        };
        let command = match read_req::<String>(ms, "command") {
            Ok(v) => v,
            Err(e) => return Err(e),
        };
        let arguments = match read_opt::<Vec<Json>>(ms, "arguments") {
            Ok(v) => v,
            Err(e) => return Err(e),
        };
        Ok(Command { title, command, arguments })
    }
}

impl JsonCodec for Command {
    type Model = CommandModel;

    open spec fn model(&self) -> CommandModel {
        CommandModel {
            title: self.title.model(),
            command: self.command.model(),
            arguments: self.arguments.model(),
        }
    }

    open spec fn encode(m: CommandModel) -> JVal {
        JVal::Obj(Self::fields_json(m))
    }

    open spec fn decode(j: JVal) -> Result<CommandModel, DecodeError> {
        match j {
            JVal::Obj(ms) => Self::fields_from(ms),
            _ => Err(DecodeError::WrongShape),
        }
    }

    open spec fn valid(m: CommandModel) -> bool {
        Self::fields_valid(m)
    }

    fn to_json(&self) -> (r: Json) {
        let mut ms = new_object();
        self.write_fields(&mut ms);
        Json::Object(ms)
    }

    fn from_json(j: &Json) -> (r: Result<Self, DecodeError>) {
        match j {
            Json::Object(ms) => Self::read_fields(ms),
            _ => Err(DecodeError::WrongShape),
        }
    }

    proof fn lemma_round_trip(m: CommandModel) {
        Self::lemma_fields_round_trip(m, Seq::empty(), Seq::empty());
        assert(Seq::empty() + Self::fields_json(m) + Seq::empty() =~= Self::fields_json(m));
    }

}

/// Structure to capture a description for an error code.
#[derive(Clone, Debug, PartialEq, Eq)]
pub struct CodeDescription {
    /// A URI to open with more information about the diagnostic error.
    pub href: Uri,
}

/// The mathematical value of a [`CodeDescription`].
pub struct CodeDescriptionModel {
    pub href: Seq<char>,
}

impl CodeDescription {
    /// The members that a value contributes to the object it is written in.
    pub open spec fn fields_json(m: CodeDescriptionModel) -> Seq<(Seq<char>, JVal)> {
        member("href"@, Uri::encode(m.href))
    }

    /// Reads a value from the members of an object; other members are ignored.
    #[verifier::opaque]
    pub open spec fn fields_from(ms: Seq<(Seq<char>, JVal)>) -> Result<CodeDescriptionModel, DecodeError> {
        match req_field::<Uri>(ms, "href"@) {
            Err(e) => Err(e),
            Ok(href) => {
                Ok(CodeDescriptionModel { href })
            },
        }
    }

    /// The models that values can have.
    pub open spec fn fields_valid(m: CodeDescriptionModel) -> bool {
        &&& Uri::valid(m.href)
    }

    /// The members of a value, written between members of other names, read back as the value.
    pub proof fn lemma_fields_round_trip(m: CodeDescriptionModel, pre: Seq<(Seq<char>, JVal)>, post: Seq<(Seq<char>, JVal)>)
        requires
            Self::fields_valid(m),
            forall|k: Seq<char>| Self::uses_key(k) ==> (#[trigger] lookup(pre, k)) is None,
            forall|k: Seq<char>| Self::uses_key(k) ==> (#[trigger] lookup(post, k)) is None,
        ensures
            Self::fields_from(pre + Self::fields_json(m) + post) == Ok::<CodeDescriptionModel, DecodeError>(m),
    {
        broadcast use group_lookup;
        reveal(CodeDescription::fields_from);
        reveal_strlit("href");
        assert("href"@.len() == 4);
        Uri::lemma_round_trip(m.href);
    }

    /// Members with names that the type does not read change nothing.
    pub proof fn lemma_unknown_key(ms: Seq<(Seq<char>, JVal)>, k: Seq<char>, v: JVal)
        requires
            !Self::uses_key(k),
        ensures
            Self::fields_from(ms + member(k, v)) == Self::fields_from(ms),
    {
        broadcast use group_lookup;
        reveal(CodeDescription::fields_from);
    }

    /// The member names that the type reads.
    pub open spec fn uses_key(k: Seq<char>) -> bool {
        k == "href"@
    }

    /// Appends the members of the value to an object under construction.
    pub fn write_fields(&self, ms: &mut Vec<(String, Json)>)
        ensures
            members(Json::Object(*final(ms))@) == members(Json::Object(*old(ms))@) + Self::fields_json(self.model()),
    {
        let ghost start = members(Json::Object(*ms)@);
        push_member(ms, "href", self.href.to_json());
        assert(members(Json::Object(*ms)@) =~= start + Self::fields_json(self.model()));
    }

    /// Reads a value from the members of an object.
    pub fn read_fields(ms: &Vec<(String, Json)>) -> (r: Result<Self, DecodeError>)
        ensures
            match r {
                Ok(v) => Self::fields_from(members(Json::Object(*ms)@)) == Ok::<CodeDescriptionModel, DecodeError>(v.model()),
                Err(e) => Self::fields_from(members(Json::Object(*ms)@)) == Err::<CodeDescriptionModel, DecodeError>(e),
            },
    {
        proof {
            reveal(CodeDescription::fields_from);
        }
        let href = match read_req::<Uri>(ms, "href") {
            Ok(v) => v,
            Err(e) => return Err(e),
        };
        Ok(CodeDescription { href })
    }
}

impl JsonCodec for CodeDescription {
    type Model = CodeDescriptionModel;

    open spec fn model(&self) -> CodeDescriptionModel {
        CodeDescriptionModel {
            href: self.href.model(),
        }
    }

    open spec fn encode(m: CodeDescriptionModel) -> JVal {
        JVal::Obj(Self::fields_json(m))
    }

    open spec fn decode(j: JVal) -> Result<CodeDescriptionModel, DecodeError> {
        match j {
            JVal::Obj(ms) => Self::fields_from(ms),
            _ => Err(DecodeError::WrongShape),
        }
    }

    open spec fn valid(m: CodeDescriptionModel) -> bool {
        Self::fields_valid(m)
    }

    fn to_json(&self) -> (r: Json) {
        let mut ms = new_object();
        self.write_fields(&mut ms);
        Json::Object(ms)
    }

    fn from_json(j: &Json) -> (r: Result<Self, DecodeError>) {
        match j {
            Json::Object(ms) => Self::read_fields(ms),
            _ => Err(DecodeError::WrongShape),
        }
    }

    proof fn lemma_round_trip(m: CodeDescriptionModel) {
        Self::lemma_fields_round_trip(m, Seq::empty(), Seq::empty());
        assert(Seq::empty() + Self::fields_json(m) + Seq::empty() =~= Self::fields_json(m));
    }

}

/// A related message and source code location for a diagnostic.
#[derive(Clone, Debug, PartialEq, Eq)]
pub struct DiagnosticRelatedInformation {
    /// The location of this related diagnostic information.
    pub location: Location,
    /// The message of this related diagnostic information.
    pub message: String,
}

/// The mathematical value of a [`DiagnosticRelatedInformation`].
pub struct DiagnosticRelatedInformationModel {
    pub location: LocationModel,
    pub message: Seq<char>,
}

impl DiagnosticRelatedInformation {
    /// The members that a value contributes to the object it is written in.
    pub open spec fn fields_json(m: DiagnosticRelatedInformationModel) -> Seq<(Seq<char>, JVal)> {
        member("location"@, Location::encode(m.location))
            + member("message"@, String::encode(m.message))
    }

    /// Reads a value from the members of an object; other members are ignored.
    #[verifier::opaque]
    pub open spec fn fields_from(ms: Seq<(Seq<char>, JVal)>) -> Result<DiagnosticRelatedInformationModel, DecodeError> {
        match req_field::<Location>(ms, "location"@) {
            Err(e) => Err(e),
            Ok(location) => {
                match req_field::<String>(ms, "message"@) {
                    Err(e) => Err(e),
                    Ok(message) => {
                        Ok(DiagnosticRelatedInformationModel { location, message })
                    },
                }
            },
        }
    }

    /// The models that values can have.
    pub open spec fn fields_valid(m: DiagnosticRelatedInformationModel) -> bool {
        &&& Location::valid(m.location)
        &&& String::valid(m.message)
    }

    /// The members of a value, written between members of other names, read back as the value.
    pub proof fn lemma_fields_round_trip(m: DiagnosticRelatedInformationModel, pre: Seq<(Seq<char>, JVal)>, post: Seq<(Seq<char>, JVal)>)
        requires
            Self::fields_valid(m),
            forall|k: Seq<char>| Self::uses_key(k) ==> (#[trigger] lookup(pre, k)) is None,
            forall|k: Seq<char>| Self::uses_key(k) ==> (#[trigger] lookup(post, k)) is None,
        ensures
            Self::fields_from(pre + Self::fields_json(m) + post) == Ok::<DiagnosticRelatedInformationModel, DecodeError>(m),
    {
        broadcast use group_lookup;
        reveal(DiagnosticRelatedInformation::fields_from);
        reveal_strlit("location");
        reveal_strlit("message");
        assert("location"@.len() == 8);
        assert("message"@.len() == 7);
        Location::lemma_round_trip(m.location);
        String::lemma_round_trip(m.message);
    }

    /// Members with names that the type does not read change nothing.
    pub proof fn lemma_unknown_key(ms: Seq<(Seq<char>, JVal)>, k: Seq<char>, v: JVal)
        requires
            !Self::uses_key(k),
        ensures
            Self::fields_from(ms + member(k, v)) == Self::fields_from(ms),
    {
        broadcast use group_lookup;
        reveal(DiagnosticRelatedInformation::fields_from);
    }

    /// The member names that the type reads.
    pub open spec fn uses_key(k: Seq<char>) -> bool {
        k == "location"@ || k == "message"@
    }

    /// Appends the members of the value to an object under construction.
    pub fn write_fields(&self, ms: &mut Vec<(String, Json)>)
        ensures
            members(Json::Object(*final(ms))@) == members(Json::Object(*old(ms))@) + Self::fields_json(self.model()),
    {
        let ghost start = members(Json::Object(*ms)@);
        let ghost m = self.model();
        push_member(ms, "location", self.location.to_json());
        push_member(ms, "message", self.message.to_json());
        proof {
            lemma_concat_associative(start, member("location"@, Location::encode(m.location)), member("message"@, String::encode(m.message)));
        }
    }

    /// Reads a value from the members of an object.
    pub fn read_fields(ms: &Vec<(String, Json)>) -> (r: Result<Self, DecodeError>)
        ensures
            match r {
                Ok(v) => Self::fields_from(members(Json::Object(*ms)@)) == Ok::<DiagnosticRelatedInformationModel, DecodeError>(v.model()),
                Err(e) => Self::fields_from(members(Json::Object(*ms)@)) == Err::<DiagnosticRelatedInformationModel, DecodeError>(e),
            },
    {
        proof {
            reveal(DiagnosticRelatedInformation::fields_from);
        }
        let location = match read_req::<Location>(ms, "location") {
            Ok(v) => v,
            Err(e) => return Err(e),
        };
        let message = match read_req::<String>(ms, "message") {
            Ok(v) => v,
            Err(e) => return Err(e),
        };
        Ok(DiagnosticRelatedInformation { location, message })
    }
}

impl JsonCodec for DiagnosticRelatedInformation {
    type Model = DiagnosticRelatedInformationModel;

    open spec fn model(&self) -> DiagnosticRelatedInformationModel {
        DiagnosticRelatedInformationModel {
            location: self.location.model(),
            message: self.message.model(),
        }
    }

    open spec fn encode(m: DiagnosticRelatedInformationModel) -> JVal {
        JVal::Obj(Self::fields_json(m))
    }

    open spec fn decode(j: JVal) -> Result<DiagnosticRelatedInformationModel, DecodeError> {
        match j {
            JVal::Obj(ms) => Self::fields_from(ms),
            _ => Err(DecodeError::WrongShape),
        }
    }

    open spec fn valid(m: DiagnosticRelatedInformationModel) -> bool {
        Self::fields_valid(m)
    }

    fn to_json(&self) -> (r: Json) {
        let mut ms = new_object();
        self.write_fields(&mut ms);
        Json::Object(ms)
    }

    fn from_json(j: &Json) -> (r: Result<Self, DecodeError>) {
        match j {
            Json::Object(ms) => Self::read_fields(ms),
            _ => Err(DecodeError::WrongShape),
        }
    }

    proof fn lemma_round_trip(m: DiagnosticRelatedInformationModel) {
        Self::lemma_fields_round_trip(m, Seq::empty(), Seq::empty());
        assert(Seq::empty() + Self::fields_json(m) + Seq::empty() =~= Self::fields_json(m));
    }

}

/// A diagnostic, such as a compiler error or warning.
#[derive(Clone, Debug, Default, PartialEq, Eq)]
pub struct Diagnostic {
    /// The range at which the message applies.
    pub range: Range,
    /// The diagnostic's severity.
    pub severity: Option<DiagnosticSeverity>,
    /// The diagnostic's code.
    pub code: Option<NumberOrString>,
    /// An optional property to describe the error code.
    pub code_description: Option<CodeDescription>,
    /// A human-readable string describing the source of this diagnostic.
    pub source: Option<String>,
    /// The diagnostic's message.
    pub message: String,
    /// Related diagnostic information.
    pub related_information: Option<Vec<DiagnosticRelatedInformation>>,
    /// Additional metadata about the diagnostic.
    pub tags: Option<Vec<DiagnosticTag>>,
    /// Data preserved between a publish-diagnostics notification and a code action request.
    pub data: Option<Json>,
}

/// The mathematical value of a [`Diagnostic`].
pub struct DiagnosticModel {
    pub range: Range,
    pub severity: Option<DiagnosticSeverity>,
    pub code: Option<NumberOrStringModel>,
    pub code_description: Option<CodeDescriptionModel>,
    pub source: Option<Seq<char>>,
    pub message: Seq<char>,
    pub related_information: Option<Seq<DiagnosticRelatedInformationModel>>,
    pub tags: Option<Seq<DiagnosticTag>>,
    pub data: Option<JVal>,
}

impl Diagnostic {
    /// The members that a value contributes to the object it is written in.
    pub open spec fn fields_json(m: DiagnosticModel) -> Seq<(Seq<char>, JVal)> {
        member("range"@, Range::encode(m.range))
            + opt_member::<DiagnosticSeverity>("severity"@, m.severity)
            + opt_member::<NumberOrString>("code"@, m.code)
            + opt_member::<CodeDescription>("codeDescription"@, m.code_description)
            + opt_member::<String>("source"@, m.source)
            + member("message"@, String::encode(m.message))
            + opt_member::<Vec<DiagnosticRelatedInformation>>("relatedInformation"@, m.related_information)
            + opt_member::<Vec<DiagnosticTag>>("tags"@, m.tags)
            + opt_member::<Json>("data"@, m.data)
    }

    /// Reads a value from the members of an object; other members are ignored.
    #[verifier::opaque]
    pub open spec fn fields_from(ms: Seq<(Seq<char>, JVal)>) -> Result<DiagnosticModel, DecodeError> {
        match req_field::<Range>(ms, "range"@) {
            Err(e) => Err(e),
            Ok(range) => {
                match opt_field::<DiagnosticSeverity>(ms, "severity"@) {
                    Err(e) => Err(e),
                    Ok(severity) => {
                        match opt_field::<NumberOrString>(ms, "code"@) {
                            Err(e) => Err(e),
                            Ok(code) => {
                                match opt_field::<CodeDescription>(ms, "codeDescription"@) {
                                    Err(e) => Err(e),
                                    Ok(code_description) => {
                                        match opt_field::<String>(ms, "source"@) {
                                            Err(e) => Err(e),
                                            Ok(source) => {
                                                match req_field::<String>(ms, "message"@) {
                                                    Err(e) => Err(e),
                                                    Ok(message) => {
                                                        match opt_field::<Vec<DiagnosticRelatedInformation>>(ms, "relatedInformation"@) {
                                                            Err(e) => Err(e),
                                                            Ok(related_information) => {
                                                                match opt_field::<Vec<DiagnosticTag>>(ms, "tags"@) {
                                                                    Err(e) => Err(e),
                                                                    Ok(tags) => {
                                                                        match opt_field::<Json>(ms, "data"@) {
                                                                            Err(e) => Err(e),
                                                                            Ok(data) => {
                                                                                Ok(DiagnosticModel { range, severity, code, code_description, source, message, related_information, tags, data })
                                                                            },
                                                                        }
                                                                    },
                                                                }
                                                            },
                                                        }
                                                    },
                                                }
                                            },
                                        }
                                    },
                                }
                            },
                        }
                    },
                }
            },
        }
    }

    /// The models that values can have.
    pub open spec fn fields_valid(m: DiagnosticModel) -> bool {
        &&& Range::valid(m.range)
        &&& opt_valid::<DiagnosticSeverity>(m.severity)
        &&& opt_valid::<NumberOrString>(m.code)
        &&& opt_valid::<CodeDescription>(m.code_description)
        &&& opt_valid::<String>(m.source)
        &&& String::valid(m.message)
        &&& opt_valid::<Vec<DiagnosticRelatedInformation>>(m.related_information)
        &&& opt_valid::<Vec<DiagnosticTag>>(m.tags)
        &&& opt_valid::<Json>(m.data)
    }

    #[verifier::spinoff_prover]
    #[verifier::rlimit(100)]
    /// The members of a value, written between members of other names, read back as the value.
    pub proof fn lemma_fields_round_trip(m: DiagnosticModel, pre: Seq<(Seq<char>, JVal)>, post: Seq<(Seq<char>, JVal)>)
        requires
            Self::fields_valid(m),
            forall|k: Seq<char>| Self::uses_key(k) ==> (#[trigger] lookup(pre, k)) is None,
            forall|k: Seq<char>| Self::uses_key(k) ==> (#[trigger] lookup(post, k)) is None,
        ensures
            Self::fields_from(pre + Self::fields_json(m) + post) == Ok::<DiagnosticModel, DecodeError>(m),
    {
        broadcast use group_lookup;
        reveal(Diagnostic::fields_from);
        reveal_strlit("range");
        reveal_strlit("severity");
        reveal_strlit("code");
        reveal_strlit("codeDescription");
        reveal_strlit("source");
        reveal_strlit("message");
        reveal_strlit("relatedInformation");
        reveal_strlit("tags");
        reveal_strlit("data");
        assert("range"@.len() == 5);
        assert("severity"@.len() == 8);
        assert("code"@.len() == 4);
        assert("codeDescription"@.len() == 15);
        assert("source"@.len() == 6);
        assert("message"@.len() == 7);
        assert("relatedInformation"@.len() == 18);
        assert("tags"@.len() == 4);
        assert("data"@.len() == 4);
        assert("code"@[0] != "tags"@[0]);
        assert("code"@[0] != "data"@[0]);
        assert("tags"@[0] != "data"@[0]);
        Range::lemma_round_trip(m.range);
        if let Some(x) = m.severity {
            DiagnosticSeverity::lemma_round_trip(x);
        }
        if let Some(x) = m.code {
            NumberOrString::lemma_round_trip(x);
        }
        if let Some(x) = m.code_description {
            CodeDescription::lemma_round_trip(x);
        }
        if let Some(x) = m.source {
            String::lemma_round_trip(x);
        }
        String::lemma_round_trip(m.message);
        if let Some(x) = m.related_information {
            <Vec<DiagnosticRelatedInformation>>::lemma_round_trip(x);
        }
        if let Some(x) = m.tags {
            <Vec<DiagnosticTag>>::lemma_round_trip(x);
        }
        if let Some(x) = m.data {
            Json::lemma_round_trip(x);
        }
    }

    /// Members with names that the type does not read change nothing.
    #[verifier::spinoff_prover]
    #[verifier::rlimit(100)]
    pub proof fn lemma_unknown_key(ms: Seq<(Seq<char>, JVal)>, k: Seq<char>, v: JVal)
        requires
            !Self::uses_key(k),
        ensures
            Self::fields_from(ms + member(k, v)) == Self::fields_from(ms),
    {
        broadcast use group_lookup;
        reveal(Diagnostic::fields_from);
    }

    /// The member names that the type reads.
    pub open spec fn uses_key(k: Seq<char>) -> bool {
        k == "range"@ || k == "severity"@ || k == "code"@ || k == "codeDescription"@ || k == "source"@ || k == "message"@ || k == "relatedInformation"@ || k == "tags"@ || k == "data"@
    }

    /// Appends the members of the value to an object under construction.
    pub fn write_fields(&self, ms: &mut Vec<(String, Json)>)
        ensures
            members(Json::Object(*final(ms))@) == members(Json::Object(*old(ms))@) + Self::fields_json(self.model()),
    {
        let ghost start = members(Json::Object(*ms)@);
        let ghost m = self.model();
        push_member(ms, "range", self.range.to_json());
        push_opt(ms, "severity", &self.severity);
        proof {
            lemma_concat_associative(start, member("range"@, Range::encode(m.range)), opt_member::<DiagnosticSeverity>("severity"@, m.severity));
        }
        push_opt(ms, "code", &self.code);
        proof {
            lemma_concat_associative(start, member("range"@, Range::encode(m.range)) + opt_member::<DiagnosticSeverity>("severity"@, m.severity), opt_member::<NumberOrString>("code"@, m.code));
        }
        push_opt(ms, "codeDescription", &self.code_description);
        proof {
            lemma_concat_associative(start, member("range"@, Range::encode(m.range)) + opt_member::<DiagnosticSeverity>("severity"@, m.severity) + opt_member::<NumberOrString>("code"@, m.code), opt_member::<CodeDescription>("codeDescription"@, m.code_description));
        }
        push_opt(ms, "source", &self.source);
        proof {
            lemma_concat_associative(start, member("range"@, Range::encode(m.range)) + opt_member::<DiagnosticSeverity>("severity"@, m.severity) + opt_member::<NumberOrString>("code"@, m.code) + opt_member::<CodeDescription>("codeDescription"@, m.code_description), opt_member::<String>("source"@, m.source));
        }
        push_member(ms, "message", self.message.to_json());
        proof {
            lemma_concat_associative(start, member("range"@, Range::encode(m.range)) + opt_member::<DiagnosticSeverity>("severity"@, m.severity) + opt_member::<NumberOrString>("code"@, m.code) + opt_member::<CodeDescription>("codeDescription"@, m.code_description) + opt_member::<String>("source"@, m.source), member("message"@, String::encode(m.message)));
        }
        push_opt(ms, "relatedInformation", &self.related_information);
        proof {
            lemma_concat_associative(start, member("range"@, Range::encode(m.range)) + opt_member::<DiagnosticSeverity>("severity"@, m.severity) + opt_member::<NumberOrString>("code"@, m.code) + opt_member::<CodeDescription>("codeDescription"@, m.code_description) + opt_member::<String>("source"@, m.source) + member("message"@, String::encode(m.message)), opt_member::<Vec<DiagnosticRelatedInformation>>("relatedInformation"@, m.related_information));
        }
        push_opt(ms, "tags", &self.tags);
        proof {
            lemma_concat_associative(start, member("range"@, Range::encode(m.range)) + opt_member::<DiagnosticSeverity>("severity"@, m.severity) + opt_member::<NumberOrString>("code"@, m.code) + opt_member::<CodeDescription>("codeDescription"@, m.code_description) + opt_member::<String>("source"@, m.source) + member("message"@, String::encode(m.message)) + opt_member::<Vec<DiagnosticRelatedInformation>>("relatedInformation"@, m.related_information), opt_member::<Vec<DiagnosticTag>>("tags"@, m.tags));
        }
        push_opt(ms, "data", &self.data);
        proof {
            lemma_concat_associative(start, member("range"@, Range::encode(m.range)) + opt_member::<DiagnosticSeverity>("severity"@, m.severity) + opt_member::<NumberOrString>("code"@, m.code) + opt_member::<CodeDescription>("codeDescription"@, m.code_description) + opt_member::<String>("source"@, m.source) + member("message"@, String::encode(m.message)) + opt_member::<Vec<DiagnosticRelatedInformation>>("relatedInformation"@, m.related_information) + opt_member::<Vec<DiagnosticTag>>("tags"@, m.tags), opt_member::<Json>("data"@, m.data));
        }
    }

    /// Reads a value from the members of an object.
    pub fn read_fields(ms: &Vec<(String, Json)>) -> (r: Result<Self, DecodeError>)
        ensures
            match r {
                Ok(v) => Self::fields_from(members(Json::Object(*ms)@)) == Ok::<DiagnosticModel, DecodeError>(v.model()),
                Err(e) => Self::fields_from(members(Json::Object(*ms)@)) == Err::<DiagnosticModel, DecodeError>(e),
            },
    {
        proof {
            reveal(Diagnostic::fields_from);
        }
        let range = match read_req::<Range>(ms, "range") {
            Ok(v) => v,
            Err(e) => return Err(e),
        };
        let severity = match read_opt::<DiagnosticSeverity>(ms, "severity") {
            Ok(v) => v,
            Err(e) => return Err(e),
        };
        let code = match read_opt::<NumberOrString>(ms, "code") {
            Ok(v) => v,
            Err(e) => return Err(e),
        };
        let code_description = match read_opt::<CodeDescription>(ms, "codeDescription") {
            Ok(v) => v,
            Err(e) => return Err(e),
        };
        let source = match read_opt::<String>(ms, "source") {
            Ok(v) => v,
            Err(e) => return Err(e),
        };
        let message = match read_req::<String>(ms, "message") {
            Ok(v) => v,
            Err(e) => return Err(e),
        };
        let related_information = match read_opt::<Vec<DiagnosticRelatedInformation>>(ms, "relatedInformation") {
            Ok(v) => v,
            Err(e) => return Err(e),
        };
        let tags = match read_opt::<Vec<DiagnosticTag>>(ms, "tags") {
            Ok(v) => v,
            Err(e) => return Err(e),
        };
        let data = match read_opt::<Json>(ms, "data") {
            Ok(v) => v,
            Err(e) => return Err(e),
        };
        Ok(Diagnostic { range, severity, code, code_description, source, message, related_information, tags, data })
    }
}

impl JsonCodec for Diagnostic {
    type Model = DiagnosticModel;

    open spec fn model(&self) -> DiagnosticModel {
        DiagnosticModel {
            range: self.range.model(),
            severity: self.severity.model(),
            code: self.code.model(),
            code_description: self.code_description.model(),
            source: self.source.model(),
            message: self.message.model(),
            related_information: self.related_information.model(),
            tags: self.tags.model(),
            data: self.data.model(),
        }
    }

    open spec fn encode(m: DiagnosticModel) -> JVal {
        JVal::Obj(Self::fields_json(m))
    }

    open spec fn decode(j: JVal) -> Result<DiagnosticModel, DecodeError> {
        match j {
            JVal::Obj(ms) => Self::fields_from(ms),
            _ => Err(DecodeError::WrongShape),
        }
    }

    open spec fn valid(m: DiagnosticModel) -> bool {
        Self::fields_valid(m)
    }

    fn to_json(&self) -> (r: Json) {
        let mut ms = new_object();
        self.write_fields(&mut ms);
        Json::Object(ms)
    }

    fn from_json(j: &Json) -> (r: Result<Self, DecodeError>) {
        match j {
            Json::Object(ms) => Self::read_fields(ms),
            _ => Err(DecodeError::WrongShape),
        }
    }

    proof fn lemma_round_trip(m: DiagnosticModel) {
        Self::lemma_fields_round_trip(m, Seq::empty(), Seq::empty());
        assert(Seq::empty() + Self::fields_json(m) + Seq::empty() =~= Self::fields_json(m));
    }

}

/// A code block with the language it is written in.
#[derive(Clone, Debug, PartialEq, Eq)]
pub struct LanguageString {
    pub language: String,
    pub value: String,
}

/// The mathematical value of a [`LanguageString`].
pub struct LanguageStringModel {
    pub language: Seq<char>,
    pub value: Seq<char>,
}

impl LanguageString {
    /// The members that a value contributes to the object it is written in.
    pub open spec fn fields_json(m: LanguageStringModel) -> Seq<(Seq<char>, JVal)> {
        member("language"@, String::encode(m.language))
            + member("value"@, String::encode(m.value))
    }

    /// Reads a value from the members of an object; other members are ignored.
    #[verifier::opaque]
    pub open spec fn fields_from(ms: Seq<(Seq<char>, JVal)>) -> Result<LanguageStringModel, DecodeError> {
        match req_field::<String>(ms, "language"@) {
            Err(e) => Err(e),
            Ok(language) => {
                match req_field::<String>(ms, "value"@) {
                    Err(e) => Err(e),
                    Ok(value) => {
                        Ok(LanguageStringModel { language, value })
                    },
                }
            },
        }
    }

    /// The models that values can have.
    pub open spec fn fields_valid(m: LanguageStringModel) -> bool {
        &&& String::valid(m.language)
        &&& String::valid(m.value)
    }

    /// The members of a value, written between members of other names, read back as the value.
    pub proof fn lemma_fields_round_trip(m: LanguageStringModel, pre: Seq<(Seq<char>, JVal)>, post: Seq<(Seq<char>, JVal)>)
        requires
            Self::fields_valid(m),
            forall|k: Seq<char>| Self::uses_key(k) ==> (#[trigger] lookup(pre, k)) is None,
            forall|k: Seq<char>| Self::uses_key(k) ==> (#[trigger] lookup(post, k)) is None,
        ensures
            Self::fields_from(pre + Self::fields_json(m) + post) == Ok::<LanguageStringModel, DecodeError>(m),
    {
        broadcast use group_lookup;
        reveal(LanguageString::fields_from);
        reveal_strlit("language");
        reveal_strlit("value");
        assert("language"@.len() == 8);
        assert("value"@.len() == 5);
        String::lemma_round_trip(m.language);
        String::lemma_round_trip(m.value);
    }

    /// Members with names that the type does not read change nothing.
    pub proof fn lemma_unknown_key(ms: Seq<(Seq<char>, JVal)>, k: Seq<char>, v: JVal)
        requires
            !Self::uses_key(k),
        ensures
            Self::fields_from(ms + member(k, v)) == Self::fields_from(ms),
    {
        broadcast use group_lookup;
        reveal(LanguageString::fields_from);
    }

    /// The member names that the type reads.
    pub open spec fn uses_key(k: Seq<char>) -> bool {
        k == "language"@ || k == "value"@
    }

    /// Appends the members of the value to an object under construction.
    pub fn write_fields(&self, ms: &mut Vec<(String, Json)>)
        ensures
            members(Json::Object(*final(ms))@) == members(Json::Object(*old(ms))@) + Self::fields_json(self.model()),
    {
        let ghost start = members(Json::Object(*ms)@);
        let ghost m = self.model();
        push_member(ms, "language", self.language.to_json());
        push_member(ms, "value", self.value.to_json());
        proof {
            lemma_concat_associative(start, member("language"@, String::encode(m.language)), member("value"@, String::encode(m.value)));
        }
    }

    /// Reads a value from the members of an object.
    pub fn read_fields(ms: &Vec<(String, Json)>) -> (r: Result<Self, DecodeError>)
        ensures
            match r {
                Ok(v) => Self::fields_from(members(Json::Object(*ms)@)) == Ok::<LanguageStringModel, DecodeError>(v.model()),
                Err(e) => Self::fields_from(members(Json::Object(*ms)@)) == Err::<LanguageStringModel, DecodeError>(e),
            },
    {
        proof {
            reveal(LanguageString::fields_from);
        }
        let language = match read_req::<String>(ms, "language") {
            Ok(v) => v,
            Err(e) => return Err(e),
        };
        let value = match read_req::<String>(ms, "value") {
            Ok(v) => v,
            Err(e) => return Err(e),
        };
        Ok(LanguageString { language, value })
    }
}

impl JsonCodec for LanguageString {
    type Model = LanguageStringModel;

    open spec fn model(&self) -> LanguageStringModel {
        LanguageStringModel {
            language: self.language.model(),
            value: self.value.model(),
        }
    }

    open spec fn encode(m: LanguageStringModel) -> JVal {
        JVal::Obj(Self::fields_json(m))
    }

    open spec fn decode(j: JVal) -> Result<LanguageStringModel, DecodeError> {
        match j {
            JVal::Obj(ms) => Self::fields_from(ms),
            _ => Err(DecodeError::WrongShape),
        }
    }

    open spec fn valid(m: LanguageStringModel) -> bool {
        Self::fields_valid(m)
    }

    fn to_json(&self) -> (r: Json) {
        let mut ms = new_object();
        self.write_fields(&mut ms);
        Json::Object(ms)
    }

    fn from_json(j: &Json) -> (r: Result<Self, DecodeError>) {
        match j {
            Json::Object(ms) => Self::read_fields(ms),
            _ => Err(DecodeError::WrongShape),
        }
    }

    proof fn lemma_round_trip(m: LanguageStringModel) {
        Self::lemma_fields_round_trip(m, Seq::empty(), Seq::empty());
        assert(Seq::empty() + Self::fields_json(m) + Seq::empty() =~= Self::fields_json(m));
    }

}

/// Markdown text, or a code block of a given language.
#[derive(Clone, Debug, PartialEq, Eq)]
pub enum MarkedString {
    String(String),
    LanguageString(LanguageString),
}

/// The mathematical value of a [`MarkedString`].
pub enum MarkedStringModel {
    String(Seq<char>),
    LanguageString(LanguageStringModel),
}

/// Written as the variant's own encoding; decoding tries the variants in order.
impl JsonCodec for MarkedString {
    type Model = MarkedStringModel;

    open spec fn model(&self) -> MarkedStringModel {
        match self {
            MarkedString::String(x) => MarkedStringModel::String(x.model()),
            MarkedString::LanguageString(x) => MarkedStringModel::LanguageString(x.model()),
        }
    }

    open spec fn encode(m: MarkedStringModel) -> JVal {
        match m {
            MarkedStringModel::String(x) => String::encode(x),
            MarkedStringModel::LanguageString(x) => LanguageString::encode(x),
        }
    }

    open spec fn decode(j: JVal) -> Result<MarkedStringModel, DecodeError> {
        match String::decode(j) {
            Ok(x) => Ok(MarkedStringModel::String(x)),
            Err(_) => {
                match LanguageString::decode(j) {
                    Ok(x) => Ok(MarkedStringModel::LanguageString(x)),
                    Err(_) => {
                        Err(DecodeError::WrongShape)
                    },
                }
            },
        }
    }

    /// A variant is read back only where no earlier variant accepts its encoding.
    open spec fn valid(m: MarkedStringModel) -> bool {
        match m {
            MarkedStringModel::String(x) => String::valid(x),
            MarkedStringModel::LanguageString(x) => LanguageString::valid(x) && String::decode(LanguageString::encode(x)) is Err,
        }
    }

    fn to_json(&self) -> (r: Json) {
        match self {
            MarkedString::String(x) => x.to_json(),
            MarkedString::LanguageString(x) => x.to_json(),
        }
    }

    fn from_json(j: &Json) -> (r: Result<MarkedString, DecodeError>) {
        if let Ok(x) = String::from_json(j) {
            return Ok(MarkedString::String(x));
        }
        if let Ok(x) = LanguageString::from_json(j) {
            return Ok(MarkedString::LanguageString(x));
        }
        Err(DecodeError::WrongShape)
    }

    proof fn lemma_round_trip(m: MarkedStringModel) {
        match m {
            MarkedStringModel::String(x) => String::lemma_round_trip(x),
            MarkedStringModel::LanguageString(x) => LanguageString::lemma_round_trip(x),
        }
    }
}

/// A string value together with the format it is written in.
#[derive(Clone, Debug, PartialEq, Eq)]
pub struct MarkupContent {
    pub kind: MarkupKind,
    pub value: String,
}

/// The mathematical value of a [`MarkupContent`].
pub struct MarkupContentModel {
    pub kind: MarkupKind,
    pub value: Seq<char>,
}

impl MarkupContent {
    /// The members that a value contributes to the object it is written in.
    pub open spec fn fields_json(m: MarkupContentModel) -> Seq<(Seq<char>, JVal)> {
        member("kind"@, MarkupKind::encode(m.kind))
            + member("value"@, String::encode(m.value))
    }

    /// Reads a value from the members of an object; other members are ignored.
    #[verifier::opaque]
    pub open spec fn fields_from(ms: Seq<(Seq<char>, JVal)>) -> Result<MarkupContentModel, DecodeError> {
        match req_field::<MarkupKind>(ms, "kind"@) {
            Err(e) => Err(e),
            Ok(kind) => {
                match req_field::<String>(ms, "value"@) {
                    Err(e) => Err(e),
                    Ok(value) => {
                        Ok(MarkupContentModel { kind, value })
                    },
                }
            },
        }
    }

    /// The models that values can have.
    pub open spec fn fields_valid(m: MarkupContentModel) -> bool {
        &&& MarkupKind::valid(m.kind)
        &&& String::valid(m.value)
    }

    /// The members of a value, written between members of other names, read back as the value.
    pub proof fn lemma_fields_round_trip(m: MarkupContentModel, pre: Seq<(Seq<char>, JVal)>, post: Seq<(Seq<char>, JVal)>)
        requires
            Self::fields_valid(m),
            forall|k: Seq<char>| Self::uses_key(k) ==> (#[trigger] lookup(pre, k)) is None,
            forall|k: Seq<char>| Self::uses_key(k) ==> (#[trigger] lookup(post, k)) is None,
        ensures
            Self::fields_from(pre + Self::fields_json(m) + post) == Ok::<MarkupContentModel, DecodeError>(m),
    {
        broadcast use group_lookup;
        reveal(MarkupContent::fields_from);
        reveal_strlit("kind");
        reveal_strlit("value");
        assert("kind"@.len() == 4);
        assert("value"@.len() == 5);
        MarkupKind::lemma_round_trip(m.kind);
        String::lemma_round_trip(m.value);
    }

    /// Members with names that the type does not read change nothing.
    pub proof fn lemma_unknown_key(ms: Seq<(Seq<char>, JVal)>, k: Seq<char>, v: JVal)
        requires
            !Self::uses_key(k),
        ensures
            Self::fields_from(ms + member(k, v)) == Self::fields_from(ms),
    {
        broadcast use group_lookup;
        reveal(MarkupContent::fields_from);
    }

    /// The member names that the type reads.
    pub open spec fn uses_key(k: Seq<char>) -> bool {
        k == "kind"@ || k == "value"@
    }

    /// Appends the members of the value to an object under construction.
    pub fn write_fields(&self, ms: &mut Vec<(String, Json)>)
        ensures
            members(Json::Object(*final(ms))@) == members(Json::Object(*old(ms))@) + Self::fields_json(self.model()),
    {
        let ghost start = members(Json::Object(*ms)@);
        let ghost m = self.model();
        push_member(ms, "kind", self.kind.to_json());
        push_member(ms, "value", self.value.to_json());
        proof {
            lemma_concat_associative(start, member("kind"@, MarkupKind::encode(m.kind)), member("value"@, String::encode(m.value)));
        }
    }

    /// Reads a value from the members of an object.
    pub fn read_fields(ms: &Vec<(String, Json)>) -> (r: Result<Self, DecodeError>)
        ensures
            match r {
                Ok(v) => Self::fields_from(members(Json::Object(*ms)@)) == Ok::<MarkupContentModel, DecodeError>(v.model()),
                Err(e) => Self::fields_from(members(Json::Object(*ms)@)) == Err::<MarkupContentModel, DecodeError>(e),
            },
    {
        proof {
            reveal(MarkupContent::fields_from);
        }
        let kind = match read_req::<MarkupKind>(ms, "kind") {
            Ok(v) => v,
            Err(e) => return Err(e),
        };
        let value = match read_req::<String>(ms, "value") {
            Ok(v) => v,
            Err(e) => return Err(e),
        };
        Ok(MarkupContent { kind, value })
    }
}

impl JsonCodec for MarkupContent {
    type Model = MarkupContentModel;

    open spec fn model(&self) -> MarkupContentModel {
        MarkupContentModel {
            kind: self.kind.model(),
            value: self.value.model(),
        }
    }

    open spec fn encode(m: MarkupContentModel) -> JVal {
        JVal::Obj(Self::fields_json(m))
    }

    open spec fn decode(j: JVal) -> Result<MarkupContentModel, DecodeError> {
        match j {
            JVal::Obj(ms) => Self::fields_from(ms),
            _ => Err(DecodeError::WrongShape),
        }
    }

    open spec fn valid(m: MarkupContentModel) -> bool {
        Self::fields_valid(m)
    }

    fn to_json(&self) -> (r: Json) {
        let mut ms = new_object();
        self.write_fields(&mut ms);
        Json::Object(ms)
    }

    fn from_json(j: &Json) -> (r: Result<Self, DecodeError>) {
        match j {
            Json::Object(ms) => Self::read_fields(ms),
            _ => Err(DecodeError::WrongShape),
        }
    }

    proof fn lemma_round_trip(m: MarkupContentModel) {
        Self::lemma_fields_round_trip(m, Seq::empty(), Seq::empty());
        assert(Seq::empty() + Self::fields_json(m) + Seq::empty() =~= Self::fields_json(m));
    }

}

/// Documentation: a plain string or markup content.
#[derive(Clone, Debug, PartialEq, Eq)]
pub enum Documentation {
    String(String),
    MarkupContent(MarkupContent),
}

/// The mathematical value of a [`Documentation`].
pub enum DocumentationModel {
    String(Seq<char>),
    MarkupContent(MarkupContentModel),
}

/// Written as the variant's own encoding; decoding tries the variants in order.
impl JsonCodec for Documentation {
    type Model = DocumentationModel;

    open spec fn model(&self) -> DocumentationModel {
        match self {
            Documentation::String(x) => DocumentationModel::String(x.model()),
            Documentation::MarkupContent(x) => DocumentationModel::MarkupContent(x.model()),
        }
    }

    open spec fn encode(m: DocumentationModel) -> JVal {
        match m {
            DocumentationModel::String(x) => String::encode(x),
            DocumentationModel::MarkupContent(x) => MarkupContent::encode(x),
        }
    }

    open spec fn decode(j: JVal) -> Result<DocumentationModel, DecodeError> {
        match String::decode(j) {
            Ok(x) => Ok(DocumentationModel::String(x)),
            Err(_) => {
                match MarkupContent::decode(j) {
                    Ok(x) => Ok(DocumentationModel::MarkupContent(x)),
                    Err(_) => {
                        Err(DecodeError::WrongShape)
                    },
                }
            },
        }
    }

    /// A variant is read back only where no earlier variant accepts its encoding.
    open spec fn valid(m: DocumentationModel) -> bool {
        match m {
            DocumentationModel::String(x) => String::valid(x),
            DocumentationModel::MarkupContent(x) => MarkupContent::valid(x) && String::decode(MarkupContent::encode(x)) is Err,
        }
    }

    fn to_json(&self) -> (r: Json) {
        match self {
            Documentation::String(x) => x.to_json(),
            Documentation::MarkupContent(x) => x.to_json(),
        }
    }

    fn from_json(j: &Json) -> (r: Result<Documentation, DecodeError>) {
        if let Ok(x) = String::from_json(j) {
            return Ok(Documentation::String(x));
        }
        if let Ok(x) = MarkupContent::from_json(j) {
            return Ok(Documentation::MarkupContent(x));
        }
        Err(DecodeError::WrongShape)
    }

    proof fn lemma_round_trip(m: DocumentationModel) {
        match m {
            DocumentationModel::String(x) => String::lemma_round_trip(x),
            DocumentationModel::MarkupContent(x) => MarkupContent::lemma_round_trip(x),
        }
    }
}

/// Identifies a text document by its URI.
#[derive(Clone, Debug, PartialEq, Eq)]
pub struct TextDocumentIdentifier {
    /// The text document's URI.
    pub uri: Uri,
}

/// The mathematical value of a [`TextDocumentIdentifier`].
pub struct TextDocumentIdentifierModel {
    pub uri: Seq<char>,
}

impl TextDocumentIdentifier {
    /// The members that a value contributes to the object it is written in.
    pub open spec fn fields_json(m: TextDocumentIdentifierModel) -> Seq<(Seq<char>, JVal)> {
        member("uri"@, Uri::encode(m.uri))
    }

    /// Reads a value from the members of an object; other members are ignored.
    #[verifier::opaque]
    pub open spec fn fields_from(ms: Seq<(Seq<char>, JVal)>) -> Result<TextDocumentIdentifierModel, DecodeError> {
        match req_field::<Uri>(ms, "uri"@) {
            Err(e) => Err(e),
            Ok(uri) => {
                Ok(TextDocumentIdentifierModel { uri })
            },
        }
    }

    /// The models that values can have.
    pub open spec fn fields_valid(m: TextDocumentIdentifierModel) -> bool {
        &&& Uri::valid(m.uri)
    }

    /// The members of a value, written between members of other names, read back as the value.
    pub proof fn lemma_fields_round_trip(m: TextDocumentIdentifierModel, pre: Seq<(Seq<char>, JVal)>, post: Seq<(Seq<char>, JVal)>)
        requires
            Self::fields_valid(m),
            forall|k: Seq<char>| Self::uses_key(k) ==> (#[trigger] lookup(pre, k)) is None,
            forall|k: Seq<char>| Self::uses_key(k) ==> (#[trigger] lookup(post, k)) is None,
        ensures
            Self::fields_from(pre + Self::fields_json(m) + post) == Ok::<TextDocumentIdentifierModel, DecodeError>(m),
    {
        broadcast use group_lookup;
        reveal(TextDocumentIdentifier::fields_from);
        reveal_strlit("uri");
        assert("uri"@.len() == 3);
        Uri::lemma_round_trip(m.uri);
    }

    /// Members with names that the type does not read change nothing.
    pub proof fn lemma_unknown_key(ms: Seq<(Seq<char>, JVal)>, k: Seq<char>, v: JVal)
        requires
            !Self::uses_key(k),
        ensures
            Self::fields_from(ms + member(k, v)) == Self::fields_from(ms),
    {
        broadcast use group_lookup;
        reveal(TextDocumentIdentifier::fields_from);
    }

    /// The member names that the type reads.
    pub open spec fn uses_key(k: Seq<char>) -> bool {
        k == "uri"@
    }

    /// Appends the members of the value to an object under construction.
    pub fn write_fields(&self, ms: &mut Vec<(String, Json)>)
        ensures
            members(Json::Object(*final(ms))@) == members(Json::Object(*old(ms))@) + Self::fields_json(self.model()),
    {
        let ghost start = members(Json::Object(*ms)@);
        push_member(ms, "uri", self.uri.to_json());
        assert(members(Json::Object(*ms)@) =~= start + Self::fields_json(self.model()));
    }

    /// Reads a value from the members of an object.
    pub fn read_fields(ms: &Vec<(String, Json)>) -> (r: Result<Self, DecodeError>)
        ensures
            match r {
                Ok(v) => Self::fields_from(members(Json::Object(*ms)@)) == Ok::<TextDocumentIdentifierModel, DecodeError>(v.model()),
                Err(e) => Self::fields_from(members(Json::Object(*ms)@)) == Err::<TextDocumentIdentifierModel, DecodeError>(e),
            },
    {
        proof {
            reveal(TextDocumentIdentifier::fields_from);
        }
        let uri = match read_req::<Uri>(ms, "uri") {
            Ok(v) => v,
            Err(e) => return Err(e),
        };
        Ok(TextDocumentIdentifier { uri })
    }
}

impl JsonCodec for TextDocumentIdentifier {
    type Model = TextDocumentIdentifierModel;

    open spec fn model(&self) -> TextDocumentIdentifierModel {
        TextDocumentIdentifierModel {
            uri: self.uri.model(),
        }
    }

    open spec fn encode(m: TextDocumentIdentifierModel) -> JVal {
        JVal::Obj(Self::fields_json(m))
    }

    open spec fn decode(j: JVal) -> Result<TextDocumentIdentifierModel, DecodeError> {
        match j {
            JVal::Obj(ms) => Self::fields_from(ms),
            _ => Err(DecodeError::WrongShape),
        }
    }

    open spec fn valid(m: TextDocumentIdentifierModel) -> bool {
        Self::fields_valid(m)
    }

    fn to_json(&self) -> (r: Json) {
        let mut ms = new_object();
        self.write_fields(&mut ms);
        Json::Object(ms)
    }

    fn from_json(j: &Json) -> (r: Result<Self, DecodeError>) {
        match j {
            Json::Object(ms) => Self::read_fields(ms),
            _ => Err(DecodeError::WrongShape),
        }
    }

    proof fn lemma_round_trip(m: TextDocumentIdentifierModel) {
        Self::lemma_fields_round_trip(m, Seq::empty(), Seq::empty());
        assert(Seq::empty() + Self::fields_json(m) + Seq::empty() =~= Self::fields_json(m));
    }

}

/// An item to transfer a text document from the client to the server.
#[derive(Clone, Debug, PartialEq, Eq)]
pub struct TextDocumentItem {
    /// The text document's URI.
    pub uri: Uri,
    /// The text document's language identifier.
    pub language_id: String,
    /// The version number of this document; it increases after each change.
    pub version: i32,
    /// The content of the opened text document.
    pub text: String,
}

/// The mathematical value of a [`TextDocumentItem`].
pub struct TextDocumentItemModel {
    pub uri: Seq<char>,
    pub language_id: Seq<char>,
    pub version: i32,
    pub text: Seq<char>,
}

impl TextDocumentItem {
    /// The members that a value contributes to the object it is written in.
    pub open spec fn fields_json(m: TextDocumentItemModel) -> Seq<(Seq<char>, JVal)> {
        member("uri"@, Uri::encode(m.uri))
            + member("languageId"@, String::encode(m.language_id))
            + member("version"@, i32::encode(m.version))
            + member("text"@, String::encode(m.text))
    }

    /// Reads a value from the members of an object; other members are ignored.
    #[verifier::opaque]
    pub open spec fn fields_from(ms: Seq<(Seq<char>, JVal)>) -> Result<TextDocumentItemModel, DecodeError> {
        match req_field::<Uri>(ms, "uri"@) {
            Err(e) => Err(e),
            Ok(uri) => {
                match req_field::<String>(ms, "languageId"@) {
                    Err(e) => Err(e),
                    Ok(language_id) => {
                        match req_field::<i32>(ms, "version"@) {
                            Err(e) => Err(e),
                            Ok(version) => {
                                match req_field::<String>(ms, "text"@) {
                                    Err(e) => Err(e),
                                    Ok(text) => {
                                        Ok(TextDocumentItemModel { uri, language_id, version, text })
                                    },
                                }
                            },
                        }
                    },
                }
            },
        }
    }

    /// The models that values can have.
    pub open spec fn fields_valid(m: TextDocumentItemModel) -> bool {
        &&& Uri::valid(m.uri)
        &&& String::valid(m.language_id)
        &&& i32::valid(m.version)
        &&& String::valid(m.text)
    }

    /// The members of a value, written between members of other names, read back as the value.
    pub proof fn lemma_fields_round_trip(m: TextDocumentItemModel, pre: Seq<(Seq<char>, JVal)>, post: Seq<(Seq<char>, JVal)>)
        requires
            Self::fields_valid(m),
            forall|k: Seq<char>| Self::uses_key(k) ==> (#[trigger] lookup(pre, k)) is None,
            forall|k: Seq<char>| Self::uses_key(k) ==> (#[trigger] lookup(post, k)) is None,
        ensures
            Self::fields_from(pre + Self::fields_json(m) + post) == Ok::<TextDocumentItemModel, DecodeError>(m),
    {
        broadcast use group_lookup;
        reveal(TextDocumentItem::fields_from);
        reveal_strlit("uri");
        reveal_strlit("languageId");
        reveal_strlit("version");
        reveal_strlit("text");
        assert("uri"@.len() == 3);
        assert("languageId"@.len() == 10);
        assert("version"@.len() == 7);
        assert("text"@.len() == 4);
        Uri::lemma_round_trip(m.uri);
        String::lemma_round_trip(m.language_id);
        i32::lemma_round_trip(m.version);
        String::lemma_round_trip(m.text);
    }

    /// Members with names that the type does not read change nothing.
    pub proof fn lemma_unknown_key(ms: Seq<(Seq<char>, JVal)>, k: Seq<char>, v: JVal)
        requires
            !Self::uses_key(k),
        ensures
            Self::fields_from(ms + member(k, v)) == Self::fields_from(ms),
    {
        broadcast use group_lookup;
        reveal(TextDocumentItem::fields_from);
    }

    /// The member names that the type reads.
    pub open spec fn uses_key(k: Seq<char>) -> bool {
        k == "uri"@ || k == "languageId"@ || k == "version"@ || k == "text"@
    }

    /// Appends the members of the value to an object under construction.
    pub fn write_fields(&self, ms: &mut Vec<(String, Json)>)
        ensures
            members(Json::Object(*final(ms))@) == members(Json::Object(*old(ms))@) + Self::fields_json(self.model()),
    {
        let ghost start = members(Json::Object(*ms)@);
        let ghost m = self.model();
        push_member(ms, "uri", self.uri.to_json());
        push_member(ms, "languageId", self.language_id.to_json());
        proof {
            lemma_concat_associative(start, member("uri"@, Uri::encode(m.uri)), member("languageId"@, String::encode(m.language_id)));
        }
        push_member(ms, "version", self.version.to_json());
        proof {
            lemma_concat_associative(start, member("uri"@, Uri::encode(m.uri)) + member("languageId"@, String::encode(m.language_id)), member("version"@, i32::encode(m.version)));
        }
        push_member(ms, "text", self.text.to_json());
        proof {
            lemma_concat_associative(start, member("uri"@, Uri::encode(m.uri)) + member("languageId"@, String::encode(m.language_id)) + member("version"@, i32::encode(m.version)), member("text"@, String::encode(m.text)));
        }
    }

    /// Reads a value from the members of an object.
    pub fn read_fields(ms: &Vec<(String, Json)>) -> (r: Result<Self, DecodeError>)
        ensures
            match r {
                Ok(v) => Self::fields_from(members(Json::Object(*ms)@)) == Ok::<TextDocumentItemModel, DecodeError>(v.model()),
                Err(e) => Self::fields_from(members(Json::Object(*ms)@)) == Err::<TextDocumentItemModel, DecodeError>(e),
            },
    {
        proof {
            reveal(TextDocumentItem::fields_from);
        }
        let uri = match read_req::<Uri>(ms, "uri") {
            Ok(v) => v,
            Err(e) => return Err(e),
        };
        let language_id = match read_req::<String>(ms, "languageId") {
            Ok(v) => v,
            Err(e) => return Err(e),
        };
        let version = match read_req::<i32>(ms, "version") {
            Ok(v) => v,
            Err(e) => return Err(e),
        };
        let text = match read_req::<String>(ms, "text") {
            Ok(v) => v,
            Err(e) => return Err(e),
        };
        Ok(TextDocumentItem { uri, language_id, version, text })
    }
}

impl JsonCodec for TextDocumentItem {
    type Model = TextDocumentItemModel;

    open spec fn model(&self) -> TextDocumentItemModel {
        TextDocumentItemModel {
            uri: self.uri.model(),
            language_id: self.language_id.model(),
            version: self.version.model(),
            text: self.text.model(),
        }
    }

    open spec fn encode(m: TextDocumentItemModel) -> JVal {
        JVal::Obj(Self::fields_json(m))
    }

    open spec fn decode(j: JVal) -> Result<TextDocumentItemModel, DecodeError> {
        match j {
            JVal::Obj(ms) => Self::fields_from(ms),
            _ => Err(DecodeError::WrongShape),
        }
    }

    open spec fn valid(m: TextDocumentItemModel) -> bool {
        Self::fields_valid(m)
    }

    fn to_json(&self) -> (r: Json) {
        let mut ms = new_object();
        self.write_fields(&mut ms);
        Json::Object(ms)
    }

    fn from_json(j: &Json) -> (r: Result<Self, DecodeError>) {
        match j {
            Json::Object(ms) => Self::read_fields(ms),
            _ => Err(DecodeError::WrongShape),
        }
    }

    proof fn lemma_round_trip(m: TextDocumentItemModel) {
        Self::lemma_fields_round_trip(m, Seq::empty(), Seq::empty());
        assert(Seq::empty() + Self::fields_json(m) + Seq::empty() =~= Self::fields_json(m));
    }

}

/// A text document identifier with the version of the document.
#[derive(Clone, Debug, PartialEq, Eq)]
pub struct VersionedTextDocumentIdentifier {
    pub uri: Uri,
    pub version: i32,
}

/// The mathematical value of a [`VersionedTextDocumentIdentifier`].
pub struct VersionedTextDocumentIdentifierModel {
    pub uri: Seq<char>,
    pub version: i32,
}

impl VersionedTextDocumentIdentifier {
    /// The members that a value contributes to the object it is written in.
    pub open spec fn fields_json(m: VersionedTextDocumentIdentifierModel) -> Seq<(Seq<char>, JVal)> {
        member("uri"@, Uri::encode(m.uri))
            + member("version"@, i32::encode(m.version))
    }

    /// Reads a value from the members of an object; other members are ignored.
    #[verifier::opaque]
    pub open spec fn fields_from(ms: Seq<(Seq<char>, JVal)>) -> Result<VersionedTextDocumentIdentifierModel, DecodeError> {
        match req_field::<Uri>(ms, "uri"@) {
            Err(e) => Err(e),
            Ok(uri) => {
                match req_field::<i32>(ms, "version"@) {
                    Err(e) => Err(e),
                    Ok(version) => {
                        Ok(VersionedTextDocumentIdentifierModel { uri, version })
                    },
                }
            },
        }
    }

    /// The models that values can have.
    pub open spec fn fields_valid(m: VersionedTextDocumentIdentifierModel) -> bool {
        &&& Uri::valid(m.uri)
        &&& i32::valid(m.version)
    }

    /// The members of a value, written between members of other names, read back as the value.
    pub proof fn lemma_fields_round_trip(m: VersionedTextDocumentIdentifierModel, pre: Seq<(Seq<char>, JVal)>, post: Seq<(Seq<char>, JVal)>)
        requires
            Self::fields_valid(m),
            forall|k: Seq<char>| Self::uses_key(k) ==> (#[trigger] lookup(pre, k)) is None,
            forall|k: Seq<char>| Self::uses_key(k) ==> (#[trigger] lookup(post, k)) is None,
        ensures
            Self::fields_from(pre + Self::fields_json(m) + post) == Ok::<VersionedTextDocumentIdentifierModel, DecodeError>(m),
    {
        broadcast use group_lookup;
        reveal(VersionedTextDocumentIdentifier::fields_from);
        reveal_strlit("uri");
        reveal_strlit("version");
        assert("uri"@.len() == 3);
        assert("version"@.len() == 7);
        Uri::lemma_round_trip(m.uri);
        i32::lemma_round_trip(m.version);
    }

    /// Members with names that the type does not read change nothing.
    pub proof fn lemma_unknown_key(ms: Seq<(Seq<char>, JVal)>, k: Seq<char>, v: JVal)
        requires
            !Self::uses_key(k),
        ensures
            Self::fields_from(ms + member(k, v)) == Self::fields_from(ms),
    {
        broadcast use group_lookup;
        reveal(VersionedTextDocumentIdentifier::fields_from);
    }

    /// The member names that the type reads.
    pub open spec fn uses_key(k: Seq<char>) -> bool {
        k == "uri"@ || k == "version"@
    }

    /// Appends the members of the value to an object under construction.
    pub fn write_fields(&self, ms: &mut Vec<(String, Json)>)
        ensures
            members(Json::Object(*final(ms))@) == members(Json::Object(*old(ms))@) + Self::fields_json(self.model()),
    {
        let ghost start = members(Json::Object(*ms)@);
        let ghost m = self.model();
        push_member(ms, "uri", self.uri.to_json());
        push_member(ms, "version", self.version.to_json());
        proof {
            lemma_concat_associative(start, member("uri"@, Uri::encode(m.uri)), member("version"@, i32::encode(m.version)));
        }
    }

    /// Reads a value from the members of an object.
    pub fn read_fields(ms: &Vec<(String, Json)>) -> (r: Result<Self, DecodeError>)
        ensures
            match r {
                Ok(v) => Self::fields_from(members(Json::Object(*ms)@)) == Ok::<VersionedTextDocumentIdentifierModel, DecodeError>(v.model()),
                Err(e) => Self::fields_from(members(Json::Object(*ms)@)) == Err::<VersionedTextDocumentIdentifierModel, DecodeError>(e),
            },
    {
        proof {
            reveal(VersionedTextDocumentIdentifier::fields_from);
        }
        let uri = match read_req::<Uri>(ms, "uri") {
            Ok(v) => v,
            Err(e) => return Err(e),
        };
        let version = match read_req::<i32>(ms, "version") {
            Ok(v) => v,
            Err(e) => return Err(e),
        };
        Ok(VersionedTextDocumentIdentifier { uri, version })
    }
}

impl JsonCodec for VersionedTextDocumentIdentifier {
    type Model = VersionedTextDocumentIdentifierModel;

    open spec fn model(&self) -> VersionedTextDocumentIdentifierModel {
        VersionedTextDocumentIdentifierModel {
            uri: self.uri.model(),
            version: self.version.model(),
        }
    }

    open spec fn encode(m: VersionedTextDocumentIdentifierModel) -> JVal {
        JVal::Obj(Self::fields_json(m))
    }

    open spec fn decode(j: JVal) -> Result<VersionedTextDocumentIdentifierModel, DecodeError> {
        match j {
            JVal::Obj(ms) => Self::fields_from(ms),
            _ => Err(DecodeError::WrongShape),
        }
    }

    open spec fn valid(m: VersionedTextDocumentIdentifierModel) -> bool {
        Self::fields_valid(m)
    }

    fn to_json(&self) -> (r: Json) {
        let mut ms = new_object();
        self.write_fields(&mut ms);
        Json::Object(ms)
    }

    fn from_json(j: &Json) -> (r: Result<Self, DecodeError>) {
        match j {
            Json::Object(ms) => Self::read_fields(ms),
            _ => Err(DecodeError::WrongShape),
        }
    }

    proof fn lemma_round_trip(m: VersionedTextDocumentIdentifierModel) {
        Self::lemma_fields_round_trip(m, Seq::empty(), Seq::empty());
        assert(Seq::empty() + Self::fields_json(m) + Seq::empty() =~= Self::fields_json(m));
    }

}

/// A text document identifier with an optional version, written as `null` when absent.
#[derive(Clone, Debug, PartialEq, Eq)]
pub struct OptionalVersionedTextDocumentIdentifier {
    pub uri: Uri,
    /// The version of the document, or `null` when the file is not open in the client.
    pub version: Option<i32>,
}

/// The mathematical value of a [`OptionalVersionedTextDocumentIdentifier`].
pub struct OptionalVersionedTextDocumentIdentifierModel {
    pub uri: Seq<char>,
    pub version: Option<i32>,
}

impl OptionalVersionedTextDocumentIdentifier {
    /// The members that a value contributes to the object it is written in.
    pub open spec fn fields_json(m: OptionalVersionedTextDocumentIdentifierModel) -> Seq<(Seq<char>, JVal)> {
        member("uri"@, Uri::encode(m.uri))
            + member("version"@, <Option<i32>>::encode(m.version))
    }

    /// Reads a value from the members of an object; other members are ignored.
    #[verifier::opaque]
    pub open spec fn fields_from(ms: Seq<(Seq<char>, JVal)>) -> Result<OptionalVersionedTextDocumentIdentifierModel, DecodeError> {
        match req_field::<Uri>(ms, "uri"@) {
            Err(e) => Err(e),
            Ok(uri) => {
                match nullable_field::<i32>(ms, "version"@) {
                    Err(e) => Err(e),
                    Ok(version) => {
                        Ok(OptionalVersionedTextDocumentIdentifierModel { uri, version })
                    },
                }
            },
        }
    }

    /// The models that values can have.
    pub open spec fn fields_valid(m: OptionalVersionedTextDocumentIdentifierModel) -> bool {
        &&& Uri::valid(m.uri)
        &&& <Option<i32>>::valid(m.version)
    }

    /// The members of a value, written between members of other names, read back as the value.
    pub proof fn lemma_fields_round_trip(m: OptionalVersionedTextDocumentIdentifierModel, pre: Seq<(Seq<char>, JVal)>, post: Seq<(Seq<char>, JVal)>)
        requires
            Self::fields_valid(m),
            forall|k: Seq<char>| Self::uses_key(k) ==> (#[trigger] lookup(pre, k)) is None,
            forall|k: Seq<char>| Self::uses_key(k) ==> (#[trigger] lookup(post, k)) is None,
        ensures
            Self::fields_from(pre + Self::fields_json(m) + post) == Ok::<OptionalVersionedTextDocumentIdentifierModel, DecodeError>(m),
    {
        broadcast use group_lookup;
        reveal(OptionalVersionedTextDocumentIdentifier::fields_from);
        reveal_strlit("uri");
        reveal_strlit("version");
        assert("uri"@.len() == 3);
        assert("version"@.len() == 7);
        Uri::lemma_round_trip(m.uri);
        <Option<i32>>::lemma_round_trip(m.version);
    }

    /// Members with names that the type does not read change nothing.
    pub proof fn lemma_unknown_key(ms: Seq<(Seq<char>, JVal)>, k: Seq<char>, v: JVal)
        requires
            !Self::uses_key(k),
        ensures
            Self::fields_from(ms + member(k, v)) == Self::fields_from(ms),
    {
        broadcast use group_lookup;
        reveal(OptionalVersionedTextDocumentIdentifier::fields_from);
    }

    /// The member names that the type reads.
    pub open spec fn uses_key(k: Seq<char>) -> bool {
        k == "uri"@ || k == "version"@
    }

    /// Appends the members of the value to an object under construction.
    pub fn write_fields(&self, ms: &mut Vec<(String, Json)>)
        ensures
            members(Json::Object(*final(ms))@) == members(Json::Object(*old(ms))@) + Self::fields_json(self.model()),
    {
        let ghost start = members(Json::Object(*ms)@);
        let ghost m = self.model();
        push_member(ms, "uri", self.uri.to_json());
        push_member(ms, "version", self.version.to_json());
        proof {
            lemma_concat_associative(start, member("uri"@, Uri::encode(m.uri)), member("version"@, <Option<i32>>::encode(m.version)));
        }
    }

    /// Reads a value from the members of an object.
    pub fn read_fields(ms: &Vec<(String, Json)>) -> (r: Result<Self, DecodeError>)
        ensures
            match r {
                Ok(v) => Self::fields_from(members(Json::Object(*ms)@)) == Ok::<OptionalVersionedTextDocumentIdentifierModel, DecodeError>(v.model()),
                Err(e) => Self::fields_from(members(Json::Object(*ms)@)) == Err::<OptionalVersionedTextDocumentIdentifierModel, DecodeError>(e),
            },
    {
        proof {
            reveal(OptionalVersionedTextDocumentIdentifier::fields_from);
        }
        let uri = match read_req::<Uri>(ms, "uri") {
            Ok(v) => v,
            Err(e) => return Err(e),
        };
        let version = match read_nullable::<i32>(ms, "version") {
            Ok(v) => v,
            Err(e) => return Err(e),
        };
        Ok(OptionalVersionedTextDocumentIdentifier { uri, version })
    }
}

impl JsonCodec for OptionalVersionedTextDocumentIdentifier {
    type Model = OptionalVersionedTextDocumentIdentifierModel;

    open spec fn model(&self) -> OptionalVersionedTextDocumentIdentifierModel {
        OptionalVersionedTextDocumentIdentifierModel {
            uri: self.uri.model(),
            version: self.version.model(),
        }
    }

    open spec fn encode(m: OptionalVersionedTextDocumentIdentifierModel) -> JVal {
        JVal::Obj(Self::fields_json(m))
    }

    open spec fn decode(j: JVal) -> Result<OptionalVersionedTextDocumentIdentifierModel, DecodeError> {
        match j {
            JVal::Obj(ms) => Self::fields_from(ms),
            _ => Err(DecodeError::WrongShape),
        }
    }

    open spec fn valid(m: OptionalVersionedTextDocumentIdentifierModel) -> bool {
        Self::fields_valid(m)
    }

    fn to_json(&self) -> (r: Json) {
        let mut ms = new_object();
        self.write_fields(&mut ms);
        Json::Object(ms)
    }

    fn from_json(j: &Json) -> (r: Result<Self, DecodeError>) {
        match j {
            Json::Object(ms) => Self::read_fields(ms),
            _ => Err(DecodeError::WrongShape),
        }
    }

    proof fn lemma_round_trip(m: OptionalVersionedTextDocumentIdentifierModel) {
        Self::lemma_fields_round_trip(m, Seq::empty(), Seq::empty());
        assert(Seq::empty() + Self::fields_json(m) + Seq::empty() =~= Self::fields_json(m));
    }

}

/// A text document and a position inside it.
#[derive(Clone, Debug, PartialEq, Eq)]
pub struct TextDocumentPositionParams {
    /// The text document.
    pub text_document: TextDocumentIdentifier,
    /// The position inside the text document.
    pub position: Position,
}

/// The mathematical value of a [`TextDocumentPositionParams`].
pub struct TextDocumentPositionParamsModel {
    pub text_document: TextDocumentIdentifierModel,
    pub position: Position,
}

impl TextDocumentPositionParams {
    /// The members that a value contributes to the object it is written in.
    pub open spec fn fields_json(m: TextDocumentPositionParamsModel) -> Seq<(Seq<char>, JVal)> {
        member("textDocument"@, TextDocumentIdentifier::encode(m.text_document))
            + member("position"@, Position::encode(m.position))
    }

    /// Reads a value from the members of an object; other members are ignored.
    #[verifier::opaque]
    pub open spec fn fields_from(ms: Seq<(Seq<char>, JVal)>) -> Result<TextDocumentPositionParamsModel, DecodeError> {
        match req_field::<TextDocumentIdentifier>(ms, "textDocument"@) {
            Err(e) => Err(e),
            Ok(text_document) => {
                match req_field::<Position>(ms, "position"@) {
                    Err(e) => Err(e),
                    Ok(position) => {
                        Ok(TextDocumentPositionParamsModel { text_document, position })
                    },
                }
            },
        }
    }

    /// The models that values can have.
    pub open spec fn fields_valid(m: TextDocumentPositionParamsModel) -> bool {
        &&& TextDocumentIdentifier::valid(m.text_document)
        &&& Position::valid(m.position)
    }

    /// The members of a value, written between members of other names, read back as the value.
    pub proof fn lemma_fields_round_trip(m: TextDocumentPositionParamsModel, pre: Seq<(Seq<char>, JVal)>, post: Seq<(Seq<char>, JVal)>)
        requires
            Self::fields_valid(m),
            forall|k: Seq<char>| Self::uses_key(k) ==> (#[trigger] lookup(pre, k)) is None,
            forall|k: Seq<char>| Self::uses_key(k) ==> (#[trigger] lookup(post, k)) is None,
        ensures
            Self::fields_from(pre + Self::fields_json(m) + post) == Ok::<TextDocumentPositionParamsModel, DecodeError>(m),
    {
        broadcast use group_lookup;
        reveal(TextDocumentPositionParams::fields_from);
        reveal_strlit("textDocument");
        reveal_strlit("position");
        assert("textDocument"@.len() == 12);
        assert("position"@.len() == 8);
        TextDocumentIdentifier::lemma_round_trip(m.text_document);
        Position::lemma_round_trip(m.position);
    }

    /// Members with names that the type does not read change nothing.
    pub proof fn lemma_unknown_key(ms: Seq<(Seq<char>, JVal)>, k: Seq<char>, v: JVal)
        requires
            !Self::uses_key(k),
        ensures
            Self::fields_from(ms + member(k, v)) == Self::fields_from(ms),
    {
        broadcast use group_lookup;
        reveal(TextDocumentPositionParams::fields_from);
    }

    /// The member names that the type reads.
    pub open spec fn uses_key(k: Seq<char>) -> bool {
        k == "textDocument"@ || k == "position"@
    }

    /// Appends the members of the value to an object under construction.
    pub fn write_fields(&self, ms: &mut Vec<(String, Json)>)
        ensures
            members(Json::Object(*final(ms))@) == members(Json::Object(*old(ms))@) + Self::fields_json(self.model()),
    {
        let ghost start = members(Json::Object(*ms)@);
        let ghost m = self.model();
        push_member(ms, "textDocument", self.text_document.to_json());
        push_member(ms, "position", self.position.to_json());
        proof {
            lemma_concat_associative(start, member("textDocument"@, TextDocumentIdentifier::encode(m.text_document)), member("position"@, Position::encode(m.position)));
        }
    }

    /// Reads a value from the members of an object.
    pub fn read_fields(ms: &Vec<(String, Json)>) -> (r: Result<Self, DecodeError>)
        ensures
            match r {
                Ok(v) => Self::fields_from(members(Json::Object(*ms)@)) == Ok::<TextDocumentPositionParamsModel, DecodeError>(v.model()),
                Err(e) => Self::fields_from(members(Json::Object(*ms)@)) == Err::<TextDocumentPositionParamsModel, DecodeError>(e),
            },
    {
        proof {
            reveal(TextDocumentPositionParams::fields_from);
        }
        let text_document = match read_req::<TextDocumentIdentifier>(ms, "textDocument") {
            Ok(v) => v,
            Err(e) => return Err(e),
        };
        let position = match read_req::<Position>(ms, "position") {
            Ok(v) => v,
            Err(e) => return Err(e),
        };
        Ok(TextDocumentPositionParams { text_document, position })
    }
}

impl JsonCodec for TextDocumentPositionParams {
    type Model = TextDocumentPositionParamsModel;

    open spec fn model(&self) -> TextDocumentPositionParamsModel {
        TextDocumentPositionParamsModel {
            text_document: self.text_document.model(),
            position: self.position.model(),
        }
    }

    open spec fn encode(m: TextDocumentPositionParamsModel) -> JVal {
        JVal::Obj(Self::fields_json(m))
    }

    open spec fn decode(j: JVal) -> Result<TextDocumentPositionParamsModel, DecodeError> {
        match j {
            JVal::Obj(ms) => Self::fields_from(ms),
            _ => Err(DecodeError::WrongShape),
        }
    }

    open spec fn valid(m: TextDocumentPositionParamsModel) -> bool {
        Self::fields_valid(m)
    }

    fn to_json(&self) -> (r: Json) {
        let mut ms = new_object();
        self.write_fields(&mut ms);
        Json::Object(ms)
    }

    fn from_json(j: &Json) -> (r: Result<Self, DecodeError>) {
        match j {
            Json::Object(ms) => Self::read_fields(ms),
            _ => Err(DecodeError::WrongShape),
        }
    }

    proof fn lemma_round_trip(m: TextDocumentPositionParamsModel) {
        Self::lemma_fields_round_trip(m, Seq::empty(), Seq::empty());
        assert(Seq::empty() + Self::fields_json(m) + Seq::empty() =~= Self::fields_json(m));
    }

}

/// Denotes a document through properties like language, scheme or pattern.
#[derive(Clone, Debug, PartialEq, Eq)]
pub struct DocumentFilter {
    /// A language id, like `typescript`.
    pub language: Option<String>,
    /// A URI scheme, like `file` or `untitled`.
    pub scheme: Option<String>,
    /// A glob pattern, like `*.{ts,js}`.
    pub pattern: Option<String>,
}

/// The mathematical value of a [`DocumentFilter`].
pub struct DocumentFilterModel {
    pub language: Option<Seq<char>>,
    pub scheme: Option<Seq<char>>,
    pub pattern: Option<Seq<char>>,
}

impl DocumentFilter {
    /// The members that a value contributes to the object it is written in.
    pub open spec fn fields_json(m: DocumentFilterModel) -> Seq<(Seq<char>, JVal)> {
        opt_member::<String>("language"@, m.language)
            + opt_member::<String>("scheme"@, m.scheme)
            + opt_member::<String>("pattern"@, m.pattern)
    }

    /// Reads a value from the members of an object; other members are ignored.
    #[verifier::opaque]
    pub open spec fn fields_from(ms: Seq<(Seq<char>, JVal)>) -> Result<DocumentFilterModel, DecodeError> {
        match opt_field::<String>(ms, "language"@) {
            Err(e) => Err(e),
            Ok(language) => {
                match opt_field::<String>(ms, "scheme"@) {
                    Err(e) => Err(e),
                    Ok(scheme) => {
                        match opt_field::<String>(ms, "pattern"@) {
                            Err(e) => Err(e),
                            Ok(pattern) => {
                                Ok(DocumentFilterModel { language, scheme, pattern })
                            },
                        }
                    },
                }
            },
        }
    }

    /// The models that values can have.
    pub open spec fn fields_valid(m: DocumentFilterModel) -> bool {
        &&& opt_valid::<String>(m.language)
        &&& opt_valid::<String>(m.scheme)
        &&& opt_valid::<String>(m.pattern)
    }

    /// The members of a value, written between members of other names, read back as the value.
    pub proof fn lemma_fields_round_trip(m: DocumentFilterModel, pre: Seq<(Seq<char>, JVal)>, post: Seq<(Seq<char>, JVal)>)
        requires
            Self::fields_valid(m),
            forall|k: Seq<char>| Self::uses_key(k) ==> (#[trigger] lookup(pre, k)) is None,
            forall|k: Seq<char>| Self::uses_key(k) ==> (#[trigger] lookup(post, k)) is None,
        ensures
            Self::fields_from(pre + Self::fields_json(m) + post) == Ok::<DocumentFilterModel, DecodeError>(m),
    {
        broadcast use group_lookup;
        reveal(DocumentFilter::fields_from);
        reveal_strlit("language");
        reveal_strlit("scheme");
        reveal_strlit("pattern");
        assert("language"@.len() == 8);
        assert("scheme"@.len() == 6);
        assert("pattern"@.len() == 7);
        if let Some(x) = m.language {
            String::lemma_round_trip(x);
        }
        if let Some(x) = m.scheme {
            String::lemma_round_trip(x);
        }
        if let Some(x) = m.pattern {
            String::lemma_round_trip(x);
        }
    }

    /// Members with names that the type does not read change nothing.
    pub proof fn lemma_unknown_key(ms: Seq<(Seq<char>, JVal)>, k: Seq<char>, v: JVal)
        requires
            !Self::uses_key(k),
        ensures
            Self::fields_from(ms + member(k, v)) == Self::fields_from(ms),
    {
        broadcast use group_lookup;
        reveal(DocumentFilter::fields_from);
    }

    /// The member names that the type reads.
    pub open spec fn uses_key(k: Seq<char>) -> bool {
        k == "language"@ || k == "scheme"@ || k == "pattern"@
    }

    /// Appends the members of the value to an object under construction.
    pub fn write_fields(&self, ms: &mut Vec<(String, Json)>)
        ensures
            members(Json::Object(*final(ms))@) == members(Json::Object(*old(ms))@) + Self::fields_json(self.model()),
    {
        let ghost start = members(Json::Object(*ms)@);
        let ghost m = self.model();
        push_opt(ms, "language", &self.language);
        push_opt(ms, "scheme", &self.scheme);
        proof {
            lemma_concat_associative(start, opt_member::<String>("language"@, m.language), opt_member::<String>("scheme"@, m.scheme));
        }
        push_opt(ms, "pattern", &self.pattern);
        proof {
            lemma_concat_associative(start, opt_member::<String>("language"@, m.language) + opt_member::<String>("scheme"@, m.scheme), opt_member::<String>("pattern"@, m.pattern));
        }
    }

    /// Reads a value from the members of an object.
    pub fn read_fields(ms: &Vec<(String, Json)>) -> (r: Result<Self, DecodeError>)
        ensures
            match r {
                Ok(v) => Self::fields_from(members(Json::Object(*ms)@)) == Ok::<DocumentFilterModel, DecodeError>(v.model()),
                Err(e) => Self::fields_from(members(Json::Object(*ms)@)) == Err::<DocumentFilterModel, DecodeError>(e),
            },
    {
        proof {
            reveal(DocumentFilter::fields_from);
        }
        let language = match read_opt::<String>(ms, "language") {
            Ok(v) => v,
            Err(e) => return Err(e),
        };
        let scheme = match read_opt::<String>(ms, "scheme") {
            Ok(v) => v,
            Err(e) => return Err(e),
        };
        let pattern = match read_opt::<String>(ms, "pattern") {
            Ok(v) => v,
            Err(e) => return Err(e),
        };
        Ok(DocumentFilter { language, scheme, pattern })
    }
}

impl JsonCodec for DocumentFilter {
    type Model = DocumentFilterModel;

    open spec fn model(&self) -> DocumentFilterModel {
        DocumentFilterModel {
            language: self.language.model(),
            scheme: self.scheme.model(),
            pattern: self.pattern.model(),
        }
    }

    open spec fn encode(m: DocumentFilterModel) -> JVal {
        JVal::Obj(Self::fields_json(m))
    }

    open spec fn decode(j: JVal) -> Result<DocumentFilterModel, DecodeError> {
        match j {
            JVal::Obj(ms) => Self::fields_from(ms),
            _ => Err(DecodeError::WrongShape),
        }
    }

    open spec fn valid(m: DocumentFilterModel) -> bool {
        Self::fields_valid(m)
    }

    fn to_json(&self) -> (r: Json) {
        let mut ms = new_object();
        self.write_fields(&mut ms);
        Json::Object(ms)
    }

    fn from_json(j: &Json) -> (r: Result<Self, DecodeError>) {
        match j {
            Json::Object(ms) => Self::read_fields(ms),
            _ => Err(DecodeError::WrongShape),
        }
    }

    proof fn lemma_round_trip(m: DocumentFilterModel) {
        Self::lemma_fields_round_trip(m, Seq::empty(), Seq::empty());
        assert(Seq::empty() + Self::fields_json(m) + Seq::empty() =~= Self::fields_json(m));
    }

}

/// Whether a server reports work-done progress for a feature.
#[derive(Clone, Copy, Debug, Default, PartialEq, Eq, Structural)]
pub struct WorkDoneProgressOptions {
    pub work_done_progress: Option<bool>,
}

impl WorkDoneProgressOptions {
    /// The members that a value contributes to the object it is written in.
    pub open spec fn fields_json(m: WorkDoneProgressOptions) -> Seq<(Seq<char>, JVal)> {
        opt_member::<bool>("workDoneProgress"@, m.work_done_progress)
    }

    /// Reads a value from the members of an object; other members are ignored.
    #[verifier::opaque]
    pub open spec fn fields_from(ms: Seq<(Seq<char>, JVal)>) -> Result<WorkDoneProgressOptions, DecodeError> {
        match opt_field::<bool>(ms, "workDoneProgress"@) {
            Err(e) => Err(e),
            Ok(work_done_progress) => {
                Ok(WorkDoneProgressOptions { work_done_progress })
            },
        }
    }

    /// The models that values can have.
    pub open spec fn fields_valid(m: WorkDoneProgressOptions) -> bool {
        &&& opt_valid::<bool>(m.work_done_progress)
    }

    /// The members of a value, written between members of other names, read back as the value.
    pub proof fn lemma_fields_round_trip(m: WorkDoneProgressOptions, pre: Seq<(Seq<char>, JVal)>, post: Seq<(Seq<char>, JVal)>)
        requires
            Self::fields_valid(m),
            forall|k: Seq<char>| Self::uses_key(k) ==> (#[trigger] lookup(pre, k)) is None,
            forall|k: Seq<char>| Self::uses_key(k) ==> (#[trigger] lookup(post, k)) is None,
        ensures
            Self::fields_from(pre + Self::fields_json(m) + post) == Ok::<WorkDoneProgressOptions, DecodeError>(m),
    {
        broadcast use group_lookup;
        reveal(WorkDoneProgressOptions::fields_from);
        reveal_strlit("workDoneProgress");
        assert("workDoneProgress"@.len() == 16);
        if let Some(x) = m.work_done_progress {
            bool::lemma_round_trip(x);
        }
    }

    /// Members with names that the type does not read change nothing.
    pub proof fn lemma_unknown_key(ms: Seq<(Seq<char>, JVal)>, k: Seq<char>, v: JVal)
        requires
            !Self::uses_key(k),
        ensures
            Self::fields_from(ms + member(k, v)) == Self::fields_from(ms),
    {
        broadcast use group_lookup;
        reveal(WorkDoneProgressOptions::fields_from);
    }

    /// The member names that the type reads.
    pub open spec fn uses_key(k: Seq<char>) -> bool {
        k == "workDoneProgress"@
    }

    /// Appends the members of the value to an object under construction.
    pub fn write_fields(&self, ms: &mut Vec<(String, Json)>)
        ensures
            members(Json::Object(*final(ms))@) == members(Json::Object(*old(ms))@) + Self::fields_json(self.model()),
    {
        let ghost start = members(Json::Object(*ms)@);
        push_opt(ms, "workDoneProgress", &self.work_done_progress);
        assert(members(Json::Object(*ms)@) =~= start + Self::fields_json(self.model()));
    }

    /// Reads a value from the members of an object.
    pub fn read_fields(ms: &Vec<(String, Json)>) -> (r: Result<Self, DecodeError>)
        ensures
            match r {
                Ok(v) => Self::fields_from(members(Json::Object(*ms)@)) == Ok::<WorkDoneProgressOptions, DecodeError>(v.model()),
                Err(e) => Self::fields_from(members(Json::Object(*ms)@)) == Err::<WorkDoneProgressOptions, DecodeError>(e),
            },
    {
        proof {
            reveal(WorkDoneProgressOptions::fields_from);
        }
        let work_done_progress = match read_opt::<bool>(ms, "workDoneProgress") {
            Ok(v) => v,
            Err(e) => return Err(e),
        };
        Ok(WorkDoneProgressOptions { work_done_progress })
    }
}

impl JsonCodec for WorkDoneProgressOptions {
    type Model = WorkDoneProgressOptions;

    open spec fn model(&self) -> WorkDoneProgressOptions {
        *self
    }

    open spec fn encode(m: WorkDoneProgressOptions) -> JVal {
        JVal::Obj(Self::fields_json(m))
    }

    open spec fn decode(j: JVal) -> Result<WorkDoneProgressOptions, DecodeError> {
        match j {
            JVal::Obj(ms) => Self::fields_from(ms),
            _ => Err(DecodeError::WrongShape),
        }
    }

    open spec fn valid(m: WorkDoneProgressOptions) -> bool {
        Self::fields_valid(m)
    }

    fn to_json(&self) -> (r: Json) {
        let mut ms = new_object();
        self.write_fields(&mut ms);
        Json::Object(ms)
    }

    fn from_json(j: &Json) -> (r: Result<Self, DecodeError>) {
        match j {
            Json::Object(ms) => Self::read_fields(ms),
            _ => Err(DecodeError::WrongShape),
        }
    }

    proof fn lemma_round_trip(m: WorkDoneProgressOptions) {
        Self::lemma_fields_round_trip(m, Seq::empty(), Seq::empty());
        assert(Seq::empty() + Self::fields_json(m) + Seq::empty() =~= Self::fields_json(m));
    }

}

/// The work-done progress token of a request.
#[derive(Clone, Debug, Default, PartialEq, Eq)]
pub struct WorkDoneProgressParams {
    /// A token that the server can use to report work-done progress.
    pub work_done_token: Option<NumberOrString>,
}

/// The mathematical value of a [`WorkDoneProgressParams`].
pub struct WorkDoneProgressParamsModel {
    pub work_done_token: Option<NumberOrStringModel>,
}

impl WorkDoneProgressParams {
    /// The members that a value contributes to the object it is written in.
    pub open spec fn fields_json(m: WorkDoneProgressParamsModel) -> Seq<(Seq<char>, JVal)> {
        opt_member::<NumberOrString>("workDoneToken"@, m.work_done_token)
    }

    /// Reads a value from the members of an object; other members are ignored.
    #[verifier::opaque]
    pub open spec fn fields_from(ms: Seq<(Seq<char>, JVal)>) -> Result<WorkDoneProgressParamsModel, DecodeError> {
        match opt_field::<NumberOrString>(ms, "workDoneToken"@) {
            Err(e) => Err(e),
            Ok(work_done_token) => {
                Ok(WorkDoneProgressParamsModel { work_done_token })
            },
        }
    }

    /// The models that values can have.
    pub open spec fn fields_valid(m: WorkDoneProgressParamsModel) -> bool {
        &&& opt_valid::<NumberOrString>(m.work_done_token)
    }

    /// The members of a value, written between members of other names, read back as the value.
    pub proof fn lemma_fields_round_trip(m: WorkDoneProgressParamsModel, pre: Seq<(Seq<char>, JVal)>, post: Seq<(Seq<char>, JVal)>)
        requires
            Self::fields_valid(m),
            forall|k: Seq<char>| Self::uses_key(k) ==> (#[trigger] lookup(pre, k)) is None,
            forall|k: Seq<char>| Self::uses_key(k) ==> (#[trigger] lookup(post, k)) is None,
        ensures
            Self::fields_from(pre + Self::fields_json(m) + post) == Ok::<WorkDoneProgressParamsModel, DecodeError>(m),
    {
        broadcast use group_lookup;
        reveal(WorkDoneProgressParams::fields_from);
        reveal_strlit("workDoneToken");
        assert("workDoneToken"@.len() == 13);
        if let Some(x) = m.work_done_token {
            NumberOrString::lemma_round_trip(x);
        }
    }

    /// Members with names that the type does not read change nothing.
    pub proof fn lemma_unknown_key(ms: Seq<(Seq<char>, JVal)>, k: Seq<char>, v: JVal)
        requires
            !Self::uses_key(k),
        ensures
            Self::fields_from(ms + member(k, v)) == Self::fields_from(ms),
    {
        broadcast use group_lookup;
        reveal(WorkDoneProgressParams::fields_from);
    }

    /// The member names that the type reads.
    pub open spec fn uses_key(k: Seq<char>) -> bool {
        k == "workDoneToken"@
    }

    /// Appends the members of the value to an object under construction.
    pub fn write_fields(&self, ms: &mut Vec<(String, Json)>)
        ensures
            members(Json::Object(*final(ms))@) == members(Json::Object(*old(ms))@) + Self::fields_json(self.model()),
    {
        let ghost start = members(Json::Object(*ms)@);
        push_opt(ms, "workDoneToken", &self.work_done_token);
        assert(members(Json::Object(*ms)@) =~= start + Self::fields_json(self.model()));
    }

    /// Reads a value from the members of an object.
    pub fn read_fields(ms: &Vec<(String, Json)>) -> (r: Result<Self, DecodeError>)
        ensures
            match r {
                Ok(v) => Self::fields_from(members(Json::Object(*ms)@)) == Ok::<WorkDoneProgressParamsModel, DecodeError>(v.model()),
                Err(e) => Self::fields_from(members(Json::Object(*ms)@)) == Err::<WorkDoneProgressParamsModel, DecodeError>(e),
            },
    {
        proof {
            reveal(WorkDoneProgressParams::fields_from);
        }
        let work_done_token = match read_opt::<NumberOrString>(ms, "workDoneToken") {
            Ok(v) => v,
            Err(e) => return Err(e),
        };
        Ok(WorkDoneProgressParams { work_done_token })
    }
}

impl JsonCodec for WorkDoneProgressParams {
    type Model = WorkDoneProgressParamsModel;

    open spec fn model(&self) -> WorkDoneProgressParamsModel {
        WorkDoneProgressParamsModel {
            work_done_token: self.work_done_token.model(),
        }
    }

    open spec fn encode(m: WorkDoneProgressParamsModel) -> JVal {
        JVal::Obj(Self::fields_json(m))
    }

    open spec fn decode(j: JVal) -> Result<WorkDoneProgressParamsModel, DecodeError> {
        match j {
            JVal::Obj(ms) => Self::fields_from(ms),
            _ => Err(DecodeError::WrongShape),
        }
    }

    open spec fn valid(m: WorkDoneProgressParamsModel) -> bool {
        Self::fields_valid(m)
    }

    fn to_json(&self) -> (r: Json) {
        let mut ms = new_object();
        self.write_fields(&mut ms);
        Json::Object(ms)
    }

    fn from_json(j: &Json) -> (r: Result<Self, DecodeError>) {
        match j {
            Json::Object(ms) => Self::read_fields(ms),
            _ => Err(DecodeError::WrongShape),
        }
    }

    proof fn lemma_round_trip(m: WorkDoneProgressParamsModel) {
        Self::lemma_fields_round_trip(m, Seq::empty(), Seq::empty());
        assert(Seq::empty() + Self::fields_json(m) + Seq::empty() =~= Self::fields_json(m));
    }

}

/// The partial-result token of a request.
#[derive(Clone, Debug, Default, PartialEq, Eq)]
pub struct PartialResultParams {
    /// A token that the server can use to report partial results.
    pub partial_result_token: Option<NumberOrString>,
}

/// The mathematical value of a [`PartialResultParams`].
pub struct PartialResultParamsModel {
    pub partial_result_token: Option<NumberOrStringModel>,
}

impl PartialResultParams {
    /// The members that a value contributes to the object it is written in.
    pub open spec fn fields_json(m: PartialResultParamsModel) -> Seq<(Seq<char>, JVal)> {
        opt_member::<NumberOrString>("partialResultToken"@, m.partial_result_token)
    }

    /// Reads a value from the members of an object; other members are ignored.
    #[verifier::opaque]
    pub open spec fn fields_from(ms: Seq<(Seq<char>, JVal)>) -> Result<PartialResultParamsModel, DecodeError> {
        match opt_field::<NumberOrString>(ms, "partialResultToken"@) {
            Err(e) => Err(e),
            Ok(partial_result_token) => {
                Ok(PartialResultParamsModel { partial_result_token })
            },
        }
    }

    /// The models that values can have.
    pub open spec fn fields_valid(m: PartialResultParamsModel) -> bool {
        &&& opt_valid::<NumberOrString>(m.partial_result_token)
    }

    /// The members of a value, written between members of other names, read back as the value.
    pub proof fn lemma_fields_round_trip(m: PartialResultParamsModel, pre: Seq<(Seq<char>, JVal)>, post: Seq<(Seq<char>, JVal)>)
        requires
            Self::fields_valid(m),
            forall|k: Seq<char>| Self::uses_key(k) ==> (#[trigger] lookup(pre, k)) is None,
            forall|k: Seq<char>| Self::uses_key(k) ==> (#[trigger] lookup(post, k)) is None,
        ensures
            Self::fields_from(pre + Self::fields_json(m) + post) == Ok::<PartialResultParamsModel, DecodeError>(m),
    {
        broadcast use group_lookup;
        reveal(PartialResultParams::fields_from);
        reveal_strlit("partialResultToken");
        assert("partialResultToken"@.len() == 18);
        if let Some(x) = m.partial_result_token {
            NumberOrString::lemma_round_trip(x);
        }
    }

    /// Members with names that the type does not read change nothing.
    pub proof fn lemma_unknown_key(ms: Seq<(Seq<char>, JVal)>, k: Seq<char>, v: JVal)
        requires
            !Self::uses_key(k),
        ensures
            Self::fields_from(ms + member(k, v)) == Self::fields_from(ms),
    {
        broadcast use group_lookup;
        reveal(PartialResultParams::fields_from);
    }

    /// The member names that the type reads.
    pub open spec fn uses_key(k: Seq<char>) -> bool {
        k == "partialResultToken"@
    }

    /// Appends the members of the value to an object under construction.
    pub fn write_fields(&self, ms: &mut Vec<(String, Json)>)
        ensures
            members(Json::Object(*final(ms))@) == members(Json::Object(*old(ms))@) + Self::fields_json(self.model()),
    {
        let ghost start = members(Json::Object(*ms)@);
        push_opt(ms, "partialResultToken", &self.partial_result_token);
        assert(members(Json::Object(*ms)@) =~= start + Self::fields_json(self.model()));
    }

    /// Reads a value from the members of an object.
    pub fn read_fields(ms: &Vec<(String, Json)>) -> (r: Result<Self, DecodeError>)
        ensures
            match r {
                Ok(v) => Self::fields_from(members(Json::Object(*ms)@)) == Ok::<PartialResultParamsModel, DecodeError>(v.model()),
                Err(e) => Self::fields_from(members(Json::Object(*ms)@)) == Err::<PartialResultParamsModel, DecodeError>(e),
            },
    {
        proof {
            reveal(PartialResultParams::fields_from);
        }
        let partial_result_token = match read_opt::<NumberOrString>(ms, "partialResultToken") {
            Ok(v) => v,
            Err(e) => return Err(e),
        };
        Ok(PartialResultParams { partial_result_token })
    }
}

impl JsonCodec for PartialResultParams {
    type Model = PartialResultParamsModel;

    open spec fn model(&self) -> PartialResultParamsModel {
        PartialResultParamsModel {
            partial_result_token: self.partial_result_token.model(),
        }
    }

    open spec fn encode(m: PartialResultParamsModel) -> JVal {
        JVal::Obj(Self::fields_json(m))
    }

    open spec fn decode(j: JVal) -> Result<PartialResultParamsModel, DecodeError> {
        match j {
            JVal::Obj(ms) => Self::fields_from(ms),
            _ => Err(DecodeError::WrongShape),
        }
    }

    open spec fn valid(m: PartialResultParamsModel) -> bool {
        Self::fields_valid(m)
    }

    fn to_json(&self) -> (r: Json) {
        let mut ms = new_object();
        self.write_fields(&mut ms);
        Json::Object(ms)
    }

    fn from_json(j: &Json) -> (r: Result<Self, DecodeError>) {
        match j {
            Json::Object(ms) => Self::read_fields(ms),
            _ => Err(DecodeError::WrongShape),
        }
    }

    proof fn lemma_round_trip(m: PartialResultParamsModel) {
        Self::lemma_fields_round_trip(m, Seq::empty(), Seq::empty());
        assert(Seq::empty() + Self::fields_json(m) + Seq::empty() =~= Self::fields_json(m));
    }

}

/// A workspace folder.
#[derive(Clone, Debug, PartialEq, Eq)]
pub struct WorkspaceFolder {
    /// The associated URI for this workspace folder.
    pub uri: Uri,
    /// The name of the workspace folder, used to refer to it in the user interface.
    pub name: String,
}

/// The mathematical value of a [`WorkspaceFolder`].
pub struct WorkspaceFolderModel {
    pub uri: Seq<char>,
    pub name: Seq<char>,
}

impl WorkspaceFolder {
    /// The members that a value contributes to the object it is written in.
    pub open spec fn fields_json(m: WorkspaceFolderModel) -> Seq<(Seq<char>, JVal)> {
        member("uri"@, Uri::encode(m.uri))
            + member("name"@, String::encode(m.name))
    }

    /// Reads a value from the members of an object; other members are ignored.
    #[verifier::opaque]
    pub open spec fn fields_from(ms: Seq<(Seq<char>, JVal)>) -> Result<WorkspaceFolderModel, DecodeError> {
        match req_field::<Uri>(ms, "uri"@) {
            Err(e) => Err(e),
            Ok(uri) => {
                match req_field::<String>(ms, "name"@) {
                    Err(e) => Err(e),
                    Ok(name) => {
                        Ok(WorkspaceFolderModel { uri, name })
                    },
                }
            },
        }
    }

    /// The models that values can have.
    pub open spec fn fields_valid(m: WorkspaceFolderModel) -> bool {
        &&& Uri::valid(m.uri)
        &&& String::valid(m.name)
    }

    /// The members of a value, written between members of other names, read back as the value.
    pub proof fn lemma_fields_round_trip(m: WorkspaceFolderModel, pre: Seq<(Seq<char>, JVal)>, post: Seq<(Seq<char>, JVal)>)
        requires
            Self::fields_valid(m),
            forall|k: Seq<char>| Self::uses_key(k) ==> (#[trigger] lookup(pre, k)) is None,
            forall|k: Seq<char>| Self::uses_key(k) ==> (#[trigger] lookup(post, k)) is None,
        ensures
            Self::fields_from(pre + Self::fields_json(m) + post) == Ok::<WorkspaceFolderModel, DecodeError>(m),
    {
        broadcast use group_lookup;
        reveal(WorkspaceFolder::fields_from);
        reveal_strlit("uri");
        reveal_strlit("name");
        assert("uri"@.len() == 3);
        assert("name"@.len() == 4);
        Uri::lemma_round_trip(m.uri);
        String::lemma_round_trip(m.name);
    }

    /// Members with names that the type does not read change nothing.
    pub proof fn lemma_unknown_key(ms: Seq<(Seq<char>, JVal)>, k: Seq<char>, v: JVal)
        requires
            !Self::uses_key(k),
        ensures
            Self::fields_from(ms + member(k, v)) == Self::fields_from(ms),
    {
        broadcast use group_lookup;
        reveal(WorkspaceFolder::fields_from);
    }

    /// The member names that the type reads.
    pub open spec fn uses_key(k: Seq<char>) -> bool {
        k == "uri"@ || k == "name"@
    }

    /// Appends the members of the value to an object under construction.
    pub fn write_fields(&self, ms: &mut Vec<(String, Json)>)
        ensures
            members(Json::Object(*final(ms))@) == members(Json::Object(*old(ms))@) + Self::fields_json(self.model()),
    {
        let ghost start = members(Json::Object(*ms)@);
        let ghost m = self.model();
        push_member(ms, "uri", self.uri.to_json());
        push_member(ms, "name", self.name.to_json());
        proof {
            lemma_concat_associative(start, member("uri"@, Uri::encode(m.uri)), member("name"@, String::encode(m.name)));
        }
    }

    /// Reads a value from the members of an object.
    pub fn read_fields(ms: &Vec<(String, Json)>) -> (r: Result<Self, DecodeError>)
        ensures
            match r {
                Ok(v) => Self::fields_from(members(Json::Object(*ms)@)) == Ok::<WorkspaceFolderModel, DecodeError>(v.model()),
                Err(e) => Self::fields_from(members(Json::Object(*ms)@)) == Err::<WorkspaceFolderModel, DecodeError>(e),
            },
    {
        proof {
            reveal(WorkspaceFolder::fields_from);
        }
        let uri = match read_req::<Uri>(ms, "uri") {
            Ok(v) => v,
            Err(e) => return Err(e),
        };
        let name = match read_req::<String>(ms, "name") {
            Ok(v) => v,
            Err(e) => return Err(e),
        };
        Ok(WorkspaceFolder { uri, name })
    }
}

impl JsonCodec for WorkspaceFolder {
    type Model = WorkspaceFolderModel;

    open spec fn model(&self) -> WorkspaceFolderModel {
        WorkspaceFolderModel {
            uri: self.uri.model(),
            name: self.name.model(),
        }
    }

    open spec fn encode(m: WorkspaceFolderModel) -> JVal {
        JVal::Obj(Self::fields_json(m))
    }

    open spec fn decode(j: JVal) -> Result<WorkspaceFolderModel, DecodeError> {
        match j {
            JVal::Obj(ms) => Self::fields_from(ms),
            _ => Err(DecodeError::WrongShape),
        }
    }

    open spec fn valid(m: WorkspaceFolderModel) -> bool {
        Self::fields_valid(m)
    }

    fn to_json(&self) -> (r: Json) {
        let mut ms = new_object();
        self.write_fields(&mut ms);
        Json::Object(ms)
    }

    fn from_json(j: &Json) -> (r: Result<Self, DecodeError>) {
        match j {
            Json::Object(ms) => Self::read_fields(ms),
            _ => Err(DecodeError::WrongShape),
        }
    }

    proof fn lemma_round_trip(m: WorkspaceFolderModel) {
        Self::lemma_fields_round_trip(m, Seq::empty(), Seq::empty());
        assert(Seq::empty() + Self::fields_json(m) + Seq::empty() =~= Self::fields_json(m));
    }

}

} // verus!
