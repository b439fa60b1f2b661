//! The JSON data model that every protocol value is encoded into and decoded from.

use vstd::prelude::*;

verus! {

broadcast use vstd::std_specs::vec::axiom_vec_index_decreases;

/// A JSON document held as plain values.
///
/// Numbers are integers: the protocols carry no fractional numbers in the fields
/// this library models. Object members keep the order in which they were written.
#[derive(Debug, PartialEq, Eq)]
pub enum Json {
    Null,
    Bool(bool),
    Number(i64),
    Str(String),
    Array(Vec<Json>),
    Object(Vec<(String, Json)>),
}

/// The mathematical value of a JSON document.
pub enum JVal {
    Null,
    Bool(bool),
    Num(int),
    Str(Seq<char>),
    Arr(Seq<JVal>),
    Obj(Seq<(Seq<char>, JVal)>),
}

impl Json {
    pub open spec fn view(&self) -> JVal
        decreases self,
    {
        match self {
            Json::Null => JVal::Null,
            Json::Bool(b) => JVal::Bool(*b),
            Json::Number(n) => JVal::Num(*n as int),
            Json::Str(s) => JVal::Str(s@),
            Json::Array(items) => JVal::Arr(
                Seq::new(
                    items.len() as nat,
                    |i: int|
                        if 0 <= i < items.len() {
                            items[i].view()
                        } else {
                            JVal::Null
                        },
                ),
            ),
            Json::Object(members) => JVal::Obj(
                Seq::new(
                    members.len() as nat,
                    |i: int|
                        if 0 <= i < members.len() {
                            (members[i].0@, members[i].1.view())
                        } else {
                            (Seq::empty(), JVal::Null)
                        },
                ),
            ),
        }
    }
}

/// Why a JSON document does not decode as the requested type.
#[derive(PartialEq, Eq, Structural, Clone, Copy, Debug)]
pub enum DecodeError {
    /// The document has another shape than the type's (an array where an object belongs).
    WrongShape,
    /// A field that is not optional is absent.
    MissingField,
    /// A number out of range, an unparsable URI, or flag bits outside the mask.
    InvalidPrimitive,
    /// A tagged union's discriminator names no known variant.
    UnknownVariant,
}

/// The members of an object value; empty for any other value.
pub open spec fn members(j: JVal) -> Seq<(Seq<char>, JVal)> {
    match j {
        JVal::Obj(ms) => ms,
        _ => Seq::empty(),
    }
}

/// The value of the first member named `k` at index `i` or later.
pub open spec fn lookup_from(ms: Seq<(Seq<char>, JVal)>, k: Seq<char>, i: int) -> Option<JVal>
    decreases ms.len() - i,
    when 0 <= i
{
    if i >= ms.len() {
        None
    } else if ms[i].0 == k {
        Some(ms[i].1)
    } else {
        lookup_from(ms, k, i + 1)
    }
}

/// The value of the first member named `k`.
pub open spec fn lookup(ms: Seq<(Seq<char>, JVal)>, k: Seq<char>) -> Option<JVal> {
    lookup_from(ms, k, 0)
}

/// The one-member piece `k: v` of an object.
pub open spec fn member(k: Seq<char>, v: JVal) -> Seq<(Seq<char>, JVal)> {
    seq![(k, v)]
}

proof fn lemma_lookup_from_shift(a: Seq<(Seq<char>, JVal)>, b: Seq<(Seq<char>, JVal)>, k: Seq<char>, i: int)
    requires
        0 <= i <= b.len(),
    ensures
        lookup_from(a + b, k, a.len() + i) == lookup_from(b, k, i),
    decreases b.len() - i,
{
    if i < b.len() {
        lemma_lookup_from_shift(a, b, k, i + 1);
    }
}

proof fn lemma_lookup_from_concat(a: Seq<(Seq<char>, JVal)>, b: Seq<(Seq<char>, JVal)>, k: Seq<char>, i: int)
    requires
        0 <= i <= a.len(),
    ensures
        lookup_from(a + b, k, i) == match lookup_from(a, k, i) {
            Some(v) => Some(v),
            None => lookup(b, k),
        },
    decreases a.len() - i,
{
    if i < a.len() {
        lemma_lookup_from_concat(a, b, k, i + 1);
    } else {
        lemma_lookup_from_shift(a, b, k, 0);
    }
}

/// Looking a name up in two pieces of an object: the first piece wins.
pub broadcast proof fn lemma_lookup_concat(a: Seq<(Seq<char>, JVal)>, b: Seq<(Seq<char>, JVal)>, k: Seq<char>)
    ensures
        #[trigger] lookup(a + b, k) == match lookup(a, k) {
            Some(v) => Some(v),
            None => lookup(b, k),
        },
{
    lemma_lookup_from_concat(a, b, k, 0);
}

/// Looking a name up in a one-member piece.
pub broadcast proof fn lemma_lookup_member(k: Seq<char>, v: JVal, q: Seq<char>)
    ensures
        #[trigger] lookup(member(k, v), q) == if k == q {
            Some(v)
        } else {
            None
        },
{
    reveal_with_fuel(lookup_from, 2);
}

/// Nothing is found in an empty piece.
pub broadcast proof fn lemma_lookup_empty(q: Seq<char>)
    ensures
        #[trigger] lookup(Seq::<(Seq<char>, JVal)>::empty(), q) == None::<JVal>,
{
}

pub broadcast group group_lookup {
    lemma_lookup_concat,
    lemma_lookup_member,
    lemma_lookup_empty,
}

/// A type with a JSON encoding: a model, the image of each model, and which
/// documents decode to what.
pub trait JsonCodec: Sized {
    /// What a value of the type is, mathematically.
    type Model;

    spec fn model(&self) -> Self::Model;

    /// The JSON document that a value encodes to.
    spec fn encode(m: Self::Model) -> JVal;

    /// The outcome of decoding a document.
    spec fn decode(j: JVal) -> Result<Self::Model, DecodeError>;

    /// The models that values of the type can have.
    spec fn valid(m: Self::Model) -> bool;

    fn to_json(&self) -> (r: Json)
        ensures
            r@ == Self::encode(self.model()),
    ;

    fn from_json(j: &Json) -> (r: Result<Self, DecodeError>)
        ensures
            match r {
                Ok(v) => Self::decode(j@) == Ok::<Self::Model, DecodeError>(v.model()),
                Err(e) => Self::decode(j@) == Err::<Self::Model, DecodeError>(e),
            },
    ;

    /// Decoding the encoding of a model gives the model back.
    proof fn lemma_round_trip(m: Self::Model)
        requires
            Self::valid(m),
        ensures
            Self::decode(Self::encode(m)) == Ok::<Self::Model, DecodeError>(m),
    ;
}

/// An empty object under construction.
pub fn new_object() -> (r: Vec<(String, Json)>)
    ensures
        members(Json::Object(r)@) == Seq::<(Seq<char>, JVal)>::empty(),
{
    let r: Vec<(String, Json)> = Vec::new();
    assert(members(Json::Object(r)@) =~= Seq::<(Seq<char>, JVal)>::empty());
    r
}


impl Json {
    /// A copy of the document.
    pub fn deep_clone(&self) -> (r: Json)
        ensures
            r@ == self@,
        decreases self,
    {
        match self {
            Json::Null => Json::Null,
            Json::Bool(b) => Json::Bool(*b),
            Json::Number(n) => Json::Number(*n),
            Json::Str(s) => Json::Str(s.clone()),
            Json::Array(items) => {
                let mut out: Vec<Json> = Vec::new();
                let mut i: usize = 0;
                while i < items.len()
                    invariant
                        i <= items.len(),
                        *self == Json::Array(*items),
                        out.len() == i,
                        forall|k: int| 0 <= k < i ==> (#[trigger] out[k])@ == items[k]@,
                    decreases items.len() - i,
                {
                    proof {
                        assert(decreases_to!(*self => (*self)->Array_0));
                        assert(decreases_to!(*items => items[i as int]));
                        assert(decreases_to!(*self => items[i as int]));
                    }
                    let c = items[i].deep_clone();
                    out.push(c);
                    i = i + 1;
                }
                let r = Json::Array(out);
                assert(r@ == self@) by {
                    assert(r@->Arr_0 =~= self@->Arr_0);
                }
                r
            },
            Json::Object(ms) => {
                let mut out: Vec<(String, Json)> = Vec::new();
                let mut i: usize = 0;
                while i < ms.len()
                    invariant
                        i <= ms.len(),
                        *self == Json::Object(*ms),
                        out.len() == i,
                        forall|k: int|
                            0 <= k < i ==> (#[trigger] out[k]).0@ == ms[k].0@ && out[k].1@ == ms[k].1@,
                    decreases ms.len() - i,
                {
                    proof {
                        assert(decreases_to!(*self => (*self)->Object_0));
                        assert(decreases_to!(*ms => ms[i as int]));
                        assert(decreases_to!(ms[i as int] => ms[i as int].1));
                        assert(decreases_to!(*self => ms[i as int].1));
                    }
                    let c = ms[i].1.deep_clone();
                    out.push((ms[i].0.clone(), c));
                    i = i + 1;
                }
                let r = Json::Object(out);
                assert(r@ == self@) by {
                    assert(r@->Obj_0 =~= self@->Obj_0);
                }
                r
            },
        }
    }
}

/// Whether a string holds exactly the given text.
pub fn string_is(s: &String, text: &str) -> (r: bool)
    ensures
        r == (s@ == text@),
{
    let t = text.to_owned();
    *s == t
}

impl Clone for Json {
    fn clone(&self) -> (r: Json)
        ensures
            r@ == self@,
    {
        self.deep_clone()
    }
}

/// The index of the first member named `k` at index `i` or later, or the
/// number of members.
pub open spec fn find_key(ms: Seq<(Seq<char>, JVal)>, k: Seq<char>, i: int) -> int
    decreases ms.len() - i,
    when 0 <= i
{
    if i >= ms.len() {
        ms.len() as int
    } else if ms[i].0 == k {
        i
    } else {
        find_key(ms, k, i + 1)
    }
}

/// Looking a name up finds the member at the index `find_key` gives.
pub proof fn lemma_find_key(ms: Seq<(Seq<char>, JVal)>, k: Seq<char>, i: int)
    requires
        0 <= i <= ms.len(),
    ensures
        i <= find_key(ms, k, i) <= ms.len(),
        lookup_from(ms, k, i) == if find_key(ms, k, i) < ms.len() {
            Some(ms[find_key(ms, k, i)].1)
        } else {
            None
        },
    decreases ms.len() - i,
{
    if i < ms.len() && ms[i].0 != k {
        lemma_find_key(ms, k, i + 1);
    }
}

/// The index of the first member named `key`, or the number of members.
pub fn find_member(ms: &Vec<(String, Json)>, key: &str) -> (r: usize)
    ensures
        r as int == find_key(members(Json::Object(*ms)@), key@, 0),
        r <= ms.len(),
{
    let ghost whole = members(Json::Object(*ms)@);
    let k = key.to_owned();
    let mut i: usize = 0;
    while i < ms.len()
        invariant
            i <= ms.len(),
            k@ == key@,
            whole == members(Json::Object(*ms)@),
            find_key(whole, key@, 0) == find_key(whole, key@, i as int),
        decreases ms.len() - i,
    {
        if ms[i].0 == k {
            return i;
        }
        i = i + 1;
    }
    i
}

/// The value of the first member named `key`.
pub fn get_member<'a>(ms: &'a Vec<(String, Json)>, key: &str) -> (r: Option<&'a Json>)
    ensures
        match r {
            Some(v) => lookup(members(Json::Object(*ms)@), key@) == Some(v@),
            None => lookup(members(Json::Object(*ms)@), key@) is None,
        },
{
    let ghost whole = members(Json::Object(*ms)@);
    let k = key.to_owned();
    let mut i: usize = 0;
    while i < ms.len()
        invariant
            i <= ms.len(),
            k@ == key@,
            whole == members(Json::Object(*ms)@),
            lookup(whole, key@) == lookup_from(whole, key@, i as int),
        decreases ms.len() - i,
    {
        if ms[i].0 == k {
            return Some(&ms[i].1);
        }
        i = i + 1;
    }
    None
}

/// Appends the member `key: v` to an object under construction.
pub fn push_member(ms: &mut Vec<(String, Json)>, key: &str, v: Json)
    ensures
        members(Json::Object(*final(ms))@) == members(Json::Object(*old(ms))@) + member(key@, v@),
{
    let ghost before = members(Json::Object(*ms)@);
    ms.push((key.to_owned(), v));
    assert(members(Json::Object(*ms)@) =~= before + member(key@, v@));
}

/// The piece that an optional member contributes: nothing when absent.
pub open spec fn opt_member<T: JsonCodec>(k: Seq<char>, o: Option<T::Model>) -> Seq<(Seq<char>, JVal)> {
    match o {
        Some(m) => member(k, T::encode(m)),
        None => Seq::empty(),
    }
}

/// Appends an optional member, which is left out when absent.
pub fn push_opt<T: JsonCodec>(ms: &mut Vec<(String, Json)>, key: &str, o: &Option<T>)
    ensures
        members(Json::Object(*final(ms))@) == members(Json::Object(*old(ms))@) + opt_member::<T>(
            key@,
            opt_model(*o),
        ),
{
    match o {
        Some(x) => {
            let v = x.to_json();
            push_member(ms, key, v);
        },
        None => {
            assert(members(Json::Object(*ms)@) =~= members(Json::Object(*ms)@) + Seq::empty());
        },
    }
}

/// An optional member's model is one that values can have.
pub open spec fn opt_valid<T: JsonCodec>(o: Option<T::Model>) -> bool {
    match o {
        Some(m) => T::valid(m),
        None => true,
    }
}

/// The model of an optional value.
pub open spec fn opt_model<T: JsonCodec>(o: Option<T>) -> Option<T::Model> {
    match o {
        Some(x) => Some(x.model()),
        None => None,
    }
}

/// Decoding a member that must be present.
pub open spec fn req_field<T: JsonCodec>(ms: Seq<(Seq<char>, JVal)>, k: Seq<char>) -> Result<T::Model, DecodeError> {
    match lookup(ms, k) {
        Some(v) => T::decode(v),
        None => Err(DecodeError::MissingField),
    }
}

/// Decoding an optional member: absent gives `None`; a present value, `null`
/// included, is decoded as the member's type, which rejects `null` unless it
/// holds any JSON value.
pub open spec fn opt_field<T: JsonCodec>(ms: Seq<(Seq<char>, JVal)>, k: Seq<char>) -> Result<Option<T::Model>, DecodeError> {
    match lookup(ms, k) {
        None => Ok(None),
        Some(v) => match T::decode(v) {
            Ok(m) => Ok(Some(m)),
            Err(e) => Err(e),
        },
    }
}

/// Decoding a member that the protocol declares nullable: absent and `null`
/// both give `None`.
pub open spec fn nullable_field<T: JsonCodec>(ms: Seq<(Seq<char>, JVal)>, k: Seq<char>) -> Result<Option<T::Model>, DecodeError> {
    match lookup(ms, k) {
        None => Ok(None),
        Some(JVal::Null) => Ok(None),
        Some(v) => match T::decode(v) {
            Ok(m) => Ok(Some(m)),
            Err(e) => Err(e),
        },
    }
}

/// Decoding an array member that reads as empty when absent.
pub open spec fn default_field<T: JsonCodec>(ms: Seq<(Seq<char>, JVal)>, k: Seq<char>) -> Result<Seq<T::Model>, DecodeError> {
    match lookup(ms, k) {
        None => Ok(Seq::empty()),
        Some(v) => <Vec<T>>::decode(v),
    }
}

/// Decodes the array member `key`, empty when absent.
pub fn read_default<T: JsonCodec>(ms: &Vec<(String, Json)>, key: &str) -> (r: Result<Vec<T>, DecodeError>)
    ensures
        match r {
            Ok(v) => default_field::<T>(members(Json::Object(*ms)@), key@) == Ok::<Seq<T::Model>, DecodeError>(v.model()),
            Err(e) => default_field::<T>(members(Json::Object(*ms)@), key@) == Err::<Seq<T::Model>, DecodeError>(e),
        },
{
    match get_member(ms, key) {
        None => {
            let v: Vec<T> = Vec::new();
            assert(v.model() =~= Seq::<T::Model>::empty());
            Ok(v)
        },
        Some(j) => <Vec<T>>::from_json(j),
    }
}

/// Decodes the member `key`, which must be present.
pub fn read_req<T: JsonCodec>(ms: &Vec<(String, Json)>, key: &str) -> (r: Result<T, DecodeError>)
    ensures
        match r {
            Ok(v) => req_field::<T>(members(Json::Object(*ms)@), key@) == Ok::<T::Model, DecodeError>(v.model()),
            Err(e) => req_field::<T>(members(Json::Object(*ms)@), key@) == Err::<T::Model, DecodeError>(e),
        },
{
    match get_member(ms, key) {
        Some(v) => T::from_json(v),
        None => Err(DecodeError::MissingField),
    }
}

/// Decodes the optional member `key`.
pub fn read_opt<T: JsonCodec>(ms: &Vec<(String, Json)>, key: &str) -> (r: Result<Option<T>, DecodeError>)
    ensures
        match r {
            Ok(v) => opt_field::<T>(members(Json::Object(*ms)@), key@) == Ok::<Option<T::Model>, DecodeError>(opt_model(v)),
            Err(e) => opt_field::<T>(members(Json::Object(*ms)@), key@) == Err::<Option<T::Model>, DecodeError>(e),
        },
{
    match get_member(ms, key) {
        None => Ok(None),
        Some(v) => match T::from_json(v) {
            Ok(x) => Ok(Some(x)),
            Err(e) => Err(e),
        },
    }
}

/// Decodes the nullable member `key`.
pub fn read_nullable<T: JsonCodec>(ms: &Vec<(String, Json)>, key: &str) -> (r: Result<Option<T>, DecodeError>)
    ensures
        match r {
            Ok(v) => nullable_field::<T>(members(Json::Object(*ms)@), key@) == Ok::<Option<T::Model>, DecodeError>(opt_model(v)),
            Err(e) => nullable_field::<T>(members(Json::Object(*ms)@), key@) == Err::<Option<T::Model>, DecodeError>(e),
        },
{
    match get_member(ms, key) {
        None => Ok(None),
        Some(Json::Null) => Ok(None),
        Some(v) => match T::from_json(v) {
            Ok(x) => Ok(Some(x)),
            Err(e) => Err(e),
        },
    }
}

impl JsonCodec for bool {
    type Model = bool;

    open spec fn model(&self) -> bool {
        *self
    }

    open spec fn encode(m: bool) -> JVal {
        JVal::Bool(m)
    }

    open spec fn decode(j: JVal) -> Result<bool, DecodeError> {
        match j {
            JVal::Bool(b) => Ok(b),
            _ => Err(DecodeError::WrongShape),
        }
    }

    open spec fn valid(m: Self::Model) -> bool {
        true
    }

    proof fn lemma_round_trip(m: Self::Model) {
    }

    fn to_json(&self) -> (r: Json) {
        Json::Bool(*self)
    }

    fn from_json(j: &Json) -> (r: Result<bool, DecodeError>) {
        match j {
            Json::Bool(b) => Ok(*b),
            _ => Err(DecodeError::WrongShape),
        }
    }
}

impl JsonCodec for i32 {
    type Model = i32;

    open spec fn model(&self) -> i32 {
        *self
    }

    open spec fn encode(m: i32) -> JVal {
        JVal::Num(m as int)
    }

    open spec fn decode(j: JVal) -> Result<i32, DecodeError> {
        match j {
            JVal::Num(n) => if i32::MIN <= n <= i32::MAX {
                Ok(n as i32)
            } else {
                Err(DecodeError::InvalidPrimitive)
            },
            _ => Err(DecodeError::WrongShape),
        }
    }

    open spec fn valid(m: Self::Model) -> bool {
        true
    }

    proof fn lemma_round_trip(m: Self::Model) {
    }

    fn to_json(&self) -> (r: Json) {
        Json::Number(*self as i64)
    }

    fn from_json(j: &Json) -> (r: Result<i32, DecodeError>) {
        match j {
            Json::Number(n) => if i32::MIN as i64 <= *n && *n <= i32::MAX as i64 {
                Ok(*n as i32)
            } else {
                Err(DecodeError::InvalidPrimitive)
            },
            _ => Err(DecodeError::WrongShape),
        }
    }
}

impl JsonCodec for u32 {
    type Model = u32;

    open spec fn model(&self) -> u32 {
        *self
    }

    open spec fn encode(m: u32) -> JVal {
        JVal::Num(m as int)
    }

    open spec fn decode(j: JVal) -> Result<u32, DecodeError> {
        match j {
            JVal::Num(n) => if 0 <= n <= u32::MAX {
                Ok(n as u32)
            } else {
                Err(DecodeError::InvalidPrimitive)
            },
            _ => Err(DecodeError::WrongShape),
        }
    }

    open spec fn valid(m: Self::Model) -> bool {
        true
    }

    proof fn lemma_round_trip(m: Self::Model) {
    }

    fn to_json(&self) -> (r: Json) {
        Json::Number(*self as i64)
    }

    fn from_json(j: &Json) -> (r: Result<u32, DecodeError>) {
        match j {
            Json::Number(n) => if 0 <= *n && *n <= u32::MAX as i64 {
                Ok(*n as u32)
            } else {
                Err(DecodeError::InvalidPrimitive)
            },
            _ => Err(DecodeError::WrongShape),
        }
    }
}

impl JsonCodec for String {
    type Model = Seq<char>;

    open spec fn model(&self) -> Seq<char> {
        self@
    }

    open spec fn encode(m: Seq<char>) -> JVal {
        JVal::Str(m)
    }

    open spec fn decode(j: JVal) -> Result<Seq<char>, DecodeError> {
        match j {
            JVal::Str(s) => Ok(s),
            _ => Err(DecodeError::WrongShape),
        }
    }

    open spec fn valid(m: Self::Model) -> bool {
        true
    }

    proof fn lemma_round_trip(m: Self::Model) {
    }

    fn to_json(&self) -> (r: Json) {
        Json::Str(self.clone())
    }

    fn from_json(j: &Json) -> (r: Result<String, DecodeError>) {
        match j {
            Json::Str(s) => Ok(s.clone()),
            _ => Err(DecodeError::WrongShape),
        }
    }
}

/// Any JSON value, carried through unchanged.
impl JsonCodec for Json {
    type Model = JVal;

    open spec fn model(&self) -> JVal {
        self@
    }

    open spec fn encode(m: JVal) -> JVal {
        m
    }

    open spec fn decode(j: JVal) -> Result<JVal, DecodeError> {
        Ok(j)
    }

    open spec fn valid(m: Self::Model) -> bool {
        true
    }

    proof fn lemma_round_trip(m: Self::Model) {
    }

    fn to_json(&self) -> (r: Json) {
        self.deep_clone()
    }

    fn from_json(j: &Json) -> (r: Result<Json, DecodeError>) {
        Ok(j.deep_clone())
    }
}

/// The unit value, written as `null`.
impl JsonCodec for () {
    type Model = ();

    open spec fn model(&self) -> () {
        ()
    }

    open spec fn encode(m: ()) -> JVal {
        JVal::Null
    }

    open spec fn decode(j: JVal) -> Result<(), DecodeError> {
        match j {
            JVal::Null => Ok(()),
            _ => Err(DecodeError::WrongShape),
        }
    }

    open spec fn valid(m: ()) -> bool {
        true
    }

    fn to_json(&self) -> (r: Json) {
        Json::Null
    }

    fn from_json(j: &Json) -> (r: Result<(), DecodeError>) {
        match j {
            Json::Null => Ok(()),
            _ => Err(DecodeError::WrongShape),
        }
    }

    proof fn lemma_round_trip(m: ()) {
    }
}

/// A boxed value, written as the value itself.
impl<T: JsonCodec> JsonCodec for Box<T> {
    type Model = T::Model;

    open spec fn model(&self) -> T::Model {
        (**self).model()
    }

    open spec fn encode(m: T::Model) -> JVal {
        T::encode(m)
    }

    open spec fn decode(j: JVal) -> Result<T::Model, DecodeError> {
        T::decode(j)
    }

    open spec fn valid(m: T::Model) -> bool {
        T::valid(m)
    }

    fn to_json(&self) -> (r: Json) {
        (**self).to_json()
    }

    fn from_json(j: &Json) -> (r: Result<Box<T>, DecodeError>) {
        match T::from_json(j) {
            Ok(x) => Ok(Box::new(x)),
            Err(e) => Err(e),
        }
    }

    proof fn lemma_round_trip(m: T::Model) {
        T::lemma_round_trip(m);
    }
}

/// A value or `null`.
impl<T: JsonCodec> JsonCodec for Option<T> {
    type Model = Option<T::Model>;

    open spec fn model(&self) -> Option<T::Model> {
        opt_model(*self)
    }

    open spec fn encode(m: Option<T::Model>) -> JVal {
        match m {
            Some(x) => T::encode(x),
            None => JVal::Null,
        }
    }

    open spec fn decode(j: JVal) -> Result<Option<T::Model>, DecodeError> {
        match j {
            JVal::Null => Ok(None),
            _ => match T::decode(j) {
                Ok(x) => Ok(Some(x)),
                Err(e) => Err(e),
            },
        }
    }

    open spec fn valid(m: Option<T::Model>) -> bool {
        match m {
            Some(x) => T::valid(x) && T::encode(x) != JVal::Null,
            None => true,
        }
    }

    proof fn lemma_round_trip(m: Option<T::Model>) {
        if let Some(x) = m {
            T::lemma_round_trip(x);
        }
    }

    fn to_json(&self) -> (r: Json) {
        match self {
            Some(x) => x.to_json(),
            None => Json::Null,
        }
    }

    fn from_json(j: &Json) -> (r: Result<Option<T>, DecodeError>) {
        match j {
            Json::Null => Ok(None),
            _ => match T::from_json(j) {
                Ok(x) => Ok(Some(x)),
                Err(e) => Err(e),
            },
        }
    }
}

/// Decoding every item of an array, from index `i` on.
pub open spec fn decode_items<T: JsonCodec>(items: Seq<JVal>, i: int) -> Result<Seq<T::Model>, DecodeError>
    decreases items.len() - i,
    when 0 <= i
{
    if i >= items.len() {
        Ok(Seq::empty())
    } else {
        match T::decode(items[i]) {
            Err(e) => Err(e),
            Ok(m) => match decode_items::<T>(items, i + 1) {
                Ok(rest) => Ok(seq![m] + rest),
                Err(e) => Err(e),
            },
        }
    }
}

proof fn lemma_items_round_trip<T: JsonCodec>(m: Seq<T::Model>, i: int)
    requires
        0 <= i <= m.len(),
        forall|k: int| 0 <= k < m.len() ==> T::valid(#[trigger] m[k]),
    ensures
        decode_items::<T>(m.map_values(|x: T::Model| T::encode(x)), i) == Ok::<Seq<T::Model>, DecodeError>(
            m.subrange(i, m.len() as int),
        ),
    decreases m.len() - i,
{
    let e = m.map_values(|x: T::Model| T::encode(x));
    if i < m.len() {
        T::lemma_round_trip(m[i]);
        lemma_items_round_trip::<T>(m, i + 1);
        assert(seq![m[i]] + m.subrange(i + 1, m.len() as int) =~= m.subrange(i, m.len() as int));
    } else {
        assert(m.subrange(i, m.len() as int) =~= Seq::<T::Model>::empty());
    }
}

/// An array of values.
impl<T: JsonCodec> JsonCodec for Vec<T> {
    type Model = Seq<T::Model>;

    open spec fn model(&self) -> Seq<T::Model> {
        self@.map_values(|x: T| x.model())
    }

    open spec fn encode(m: Seq<T::Model>) -> JVal {
        JVal::Arr(m.map_values(|x: T::Model| T::encode(x)))
    }

    open spec fn decode(j: JVal) -> Result<Seq<T::Model>, DecodeError> {
        match j {
            JVal::Arr(items) => decode_items::<T>(items, 0),
            _ => Err(DecodeError::WrongShape),
        }
    }

    open spec fn valid(m: Seq<T::Model>) -> bool {
        forall|k: int| 0 <= k < m.len() ==> T::valid(#[trigger] m[k])
    }

    proof fn lemma_round_trip(m: Seq<T::Model>) {
        lemma_items_round_trip::<T>(m, 0);
        assert(m.subrange(0, m.len() as int) =~= m);
    }

    fn to_json(&self) -> (r: Json) {
        let mut out: Vec<Json> = Vec::new();
        let mut i: usize = 0;
        while i < self.len()
            invariant
                i <= self.len(),
                out.len() == i,
                forall|k: int| 0 <= k < i ==> (#[trigger] out[k])@ == T::encode(self[k].model()),
            decreases self.len() - i,
        {
            out.push(self[i].to_json());
            i = i + 1;
        }
        let r = Json::Array(out);
        assert(r@->Arr_0 =~= Self::encode(self.model())->Arr_0);
        r
    }

    fn from_json(j: &Json) -> (r: Result<Vec<T>, DecodeError>) {
        match j {
            Json::Array(items) => {
                let ghost whole = j@->Arr_0;
                let mut out: Vec<T> = Vec::new();
                let mut i: usize = 0;
                while i < items.len()
                    invariant
                        i <= items.len(),
                        whole == j@->Arr_0,
                        j@ == Json::Array(*items)@,
                        out.len() == i,
                        forall|k: int| 0 <= k < i ==> T::decode(whole[k]) == Ok::<T::Model, DecodeError>((#[trigger] out[k]).model()),
                        decode_items::<T>(whole, 0) == match decode_items::<T>(whole, i as int) {
                            Ok(rest) => Ok(out@.map_values(|x: T| x.model()) + rest),
                            Err(e) => Err(e),
                        },
                    decreases items.len() - i,
                {
                    assert(whole[i as int] == items[i as int]@);
                    match T::from_json(&items[i]) {
                        Ok(x) => {
                            let ghost before = out@.map_values(|x: T| x.model());
                            out.push(x);
                            proof {
                                let now = out@.map_values(|x: T| x.model());
                                assert(now =~= before.push(x.model()));
                                match decode_items::<T>(whole, i + 1) {
                                    Ok(rest) => {
                                        assert(before + (seq![x.model()] + rest) =~= now + rest);
                                    },
                                    Err(e) => {},
                                }
                            }
                        },
                        Err(e) => {
                            return Err(e);
                        },
                    }
                    i = i + 1;
                }
                assert(out@.map_values(|x: T| x.model()) + Seq::<T::Model>::empty() =~= out@.map_values(|x: T| x.model()));
                Ok(out)
            },
            _ => Err(DecodeError::WrongShape),
        }
    }
}

/// The text of a key's encoding; keys are written as JSON strings.
pub open spec fn key_text<K: JsonCodec>(k: K::Model) -> Seq<char> {
    match K::encode(k) {
        JVal::Str(s) => s,
        _ => Seq::empty(),
    }
}

/// Whether no two members of an object have the same name.
pub open spec fn names_distinct(ms: Seq<(Seq<char>, JVal)>) -> bool {
    forall|i: int, j: int| 0 <= i < j < ms.len() ==> (#[trigger] ms[i]).0 != (#[trigger] ms[j]).0
}

/// Whether no two members of an object under construction have the same name.
pub fn distinct_names(ms: &Vec<(String, Json)>) -> (r: bool)
    ensures
        r == names_distinct(members(Json::Object(*ms)@)),
{
    let ghost whole = members(Json::Object(*ms)@);
    let mut i: usize = 0;
    while i < ms.len()
        invariant
            i <= ms.len(),
            whole == members(Json::Object(*ms)@),
            forall|a: int, b: int| 0 <= a < b < whole.len() && a < i ==> (#[trigger] whole[a]).0 != (#[trigger] whole[b]).0,
        decreases ms.len() - i,
    {
        let mut j: usize = i + 1;
        while j < ms.len()
            invariant
                i < ms.len(),
                i < j <= ms.len(),
                whole == members(Json::Object(*ms)@),
                forall|a: int, b: int| 0 <= a < b < whole.len() && a < i ==> (#[trigger] whole[a]).0 != (#[trigger] whole[b]).0,
                forall|b: int| i < b < j ==> whole[i as int].0 != (#[trigger] whole[b]).0,
            decreases ms.len() - j,
        {
            if ms[i].0 == ms[j].0 {
                assert(whole[i as int].0 == whole[j as int].0);
                return false;
            }
            j = j + 1;
        }
        i = i + 1;
    }
    true
}

/// Decoding every member of an object as a map entry, from index `i` on.
pub open spec fn decode_entries<K: JsonCodec, V: JsonCodec>(ms: Seq<(Seq<char>, JVal)>, i: int) -> Result<
    Seq<(K::Model, V::Model)>,
    DecodeError,
>
    decreases ms.len() - i,
    when 0 <= i
{
    if i >= ms.len() {
        Ok(Seq::empty())
    } else {
        match K::decode(JVal::Str(ms[i].0)) {
            Err(e) => Err(e),
            Ok(k) => match V::decode(ms[i].1) {
                Err(e) => Err(e),
                Ok(v) => match decode_entries::<K, V>(ms, i + 1) {
                    Ok(rest) => Ok(seq![(k, v)] + rest),
                    Err(e) => Err(e),
                },
            },
        }
    }
}

proof fn lemma_entries_round_trip<K: JsonCodec, V: JsonCodec>(m: Seq<(K::Model, V::Model)>, i: int)
    requires
        0 <= i <= m.len(),
        forall|k: int|
            0 <= k < m.len() ==> {
                &&& K::valid(#[trigger] m[k].0)
                &&& V::valid(m[k].1)
                &&& K::encode(m[k].0) is Str
            },
    ensures
        decode_entries::<K, V>(
            m.map_values(|e: (K::Model, V::Model)| (key_text::<K>(e.0), V::encode(e.1))),
            i,
        ) == Ok::<Seq<(K::Model, V::Model)>, DecodeError>(m.subrange(i, m.len() as int)),
    decreases m.len() - i,
{
    if i < m.len() {
        K::lemma_round_trip(m[i].0);
        V::lemma_round_trip(m[i].1);
        lemma_entries_round_trip::<K, V>(m, i + 1);
        assert(seq![m[i]] + m.subrange(i + 1, m.len() as int) =~= m.subrange(i, m.len() as int));
    } else {
        assert(m.subrange(i, m.len() as int) =~= Seq::<(K::Model, V::Model)>::empty());
    }
}

/// A JSON object read as a map from keys to values. Entries keep the order in
/// which they were written.
#[derive(Clone, Debug, PartialEq, Eq)]
pub struct ObjectMap<K, V> {
    entries: Vec<(K, V)>,
}

/// Whether no two entries have keys written alike.
pub open spec fn keys_distinct<K: JsonCodec, V: JsonCodec>(m: Seq<(K::Model, V::Model)>) -> bool {
    forall|a: int, b: int|
        0 <= a < b < m.len() ==> key_text::<K>((#[trigger] m[a]).0) != key_text::<K>((#[trigger] m[b]).0)
}

/// The index of the first entry at `i` or later whose key is written as `t`,
/// or the number of entries.
pub open spec fn key_index<K: JsonCodec, V: JsonCodec>(m: Seq<(K::Model, V::Model)>, t: Seq<char>, i: int) -> int
    decreases m.len() - i,
    when 0 <= i
{
    if i >= m.len() {
        m.len() as int
    } else if key_text::<K>(m[i].0) == t {
        i
    } else {
        key_index::<K, V>(m, t, i + 1)
    }
}

/// The text a key is written as.
fn key_string<K: JsonCodec>(k: &K) -> (r: String)
    ensures
        r@ == key_text::<K>(k.model()),
{
    match k.to_json() {
        Json::Str(s) => s,
        _ => String::new(),
    }
}

impl<K: JsonCodec, V: JsonCodec> ObjectMap<K, V> {
    /// An empty map.
    pub fn new() -> (r: ObjectMap<K, V>)
        ensures
            r.model() == Seq::<(K::Model, V::Model)>::empty(),
    {
        let r = ObjectMap { entries: Vec::new() };
        assert(r.model() =~= Seq::<(K::Model, V::Model)>::empty());
        r
    }

    /// The entries, in the order they were written or inserted.
    pub fn entries(&self) -> (r: &Vec<(K, V)>)
        ensures
            r@.map_values(|e: (K, V)| (e.0.model(), e.1.model())) == self.model(),
    {
        &self.entries
    }

    /// Sets the value of a key: the entry whose key is written alike is replaced
    /// in place, or a new entry is added at the end. Keys stay distinct.
    pub fn insert(&mut self, key: K, value: V)
        ensures
            ({
                let m = old(self).model();
                let i = key_index::<K, V>(m, key_text::<K>(key.model()), 0);
                final(self).model() == if i < m.len() {
                    m.update(i, (key.model(), value.model()))
                } else {
                    m.push((key.model(), value.model()))
                }
            }),
            keys_distinct::<K, V>(old(self).model()) ==> keys_distinct::<K, V>(final(self).model()),
    {
        let ghost m = self.model();
        let ghost entry = (key.model(), value.model());
        let t = key_string(&key);
        let mut i: usize = 0;
        while i < self.entries.len()
            invariant
                i <= self.entries.len(),
                m == self.model(),
                m == old(self).model(),
                t@ == key_text::<K>(entry.0),
                entry == (key.model(), value.model()),
                key_index::<K, V>(m, t@, 0) == key_index::<K, V>(m, t@, i as int),
                forall|a: int| 0 <= a < i ==> key_text::<K>((#[trigger] m[a]).0) != t@,
            decreases self.entries.len() - i,
        {
            let ti = key_string(&self.entries[i].0);
            if ti == t {
                assert(m[i as int].0 == self.entries@[i as int].0.model());
                assert(key_index::<K, V>(m, t@, i as int) == i);
                self.entries.set(i, (key, value));
                assert(self.model() =~= m.update(i as int, entry));
                proof {
                    let n = m.update(i as int, entry);
                    if keys_distinct::<K, V>(m) {
                        assert forall|a: int, b: int| 0 <= a < b < n.len() implies key_text::<K>(
                            (#[trigger] n[a]).0,
                        ) != key_text::<K>((#[trigger] n[b]).0) by {
                            assert(m[a] == m[a]);
                            assert(m[b] == m[b]);
                        }
                    }
                }
                return;
            }
            i = i + 1;
        }
        self.entries.push((key, value));
        assert(self.model() =~= m.push(entry));
        proof {
            let n = m.push(entry);
            if keys_distinct::<K, V>(m) {
                assert forall|a: int, b: int| 0 <= a < b < n.len() implies key_text::<K>(
                    (#[trigger] n[a]).0,
                ) != key_text::<K>((#[trigger] n[b]).0) by {
                    assert(m[a] == m[a]);
                }
            }
        }
    }
}

impl<K: JsonCodec, V: JsonCodec> JsonCodec for ObjectMap<K, V> {
    type Model = Seq<(K::Model, V::Model)>;

    closed spec fn model(&self) -> Seq<(K::Model, V::Model)> {
        self.entries@.map_values(|e: (K, V)| (e.0.model(), e.1.model()))
    }

    open spec fn encode(m: Seq<(K::Model, V::Model)>) -> JVal {
        JVal::Obj(m.map_values(|e: (K::Model, V::Model)| (key_text::<K>(e.0), V::encode(e.1))))
    }

    /// An object with two members of one name is rejected: keys are unique.
    open spec fn decode(j: JVal) -> Result<Seq<(K::Model, V::Model)>, DecodeError> {
        match j {
            JVal::Obj(ms) => if names_distinct(ms) {
                decode_entries::<K, V>(ms, 0)
            } else {
                Err(DecodeError::WrongShape)
            },
            _ => Err(DecodeError::WrongShape),
        }
    }

    /// Keys must be written as strings, and written differently.
    open spec fn valid(m: Seq<(K::Model, V::Model)>) -> bool {
        &&& forall|k: int|
            0 <= k < m.len() ==> {
                &&& K::valid(#[trigger] m[k].0)
                &&& V::valid(m[k].1)
                &&& K::encode(m[k].0) is Str
            }
        &&& keys_distinct::<K, V>(m)
    }

    fn to_json(&self) -> (r: Json) {
        let mut out: Vec<(String, Json)> = Vec::new();
        let mut i: usize = 0;
        while i < self.entries.len()
            invariant
                i <= self.entries.len(),
                out.len() == i,
                forall|k: int|
                    0 <= k < i ==> (#[trigger] out[k]).0@ == key_text::<K>(self.entries[k].0.model())
                        && out[k].1@ == V::encode(self.entries[k].1.model()),
            decreases self.entries.len() - i,
        {
            let key = match self.entries[i].0.to_json() {
                Json::Str(s) => s,
                _ => String::new(),
            };
            let value = self.entries[i].1.to_json();
            out.push((key, value));
            i = i + 1;
        }
        let r = Json::Object(out);
        assert(r@->Obj_0 =~= Self::encode(self.model())->Obj_0);
        r
    }

    fn from_json(j: &Json) -> (r: Result<ObjectMap<K, V>, DecodeError>) {
        match j {
            Json::Object(ms) => {
                if !distinct_names(ms) {
                    return Err(DecodeError::WrongShape);
                }
                let ghost whole = j@->Obj_0;
                let mut out: Vec<(K, V)> = Vec::new();
                let mut i: usize = 0;
                while i < ms.len()
                    invariant
                        i <= ms.len(),
                        whole == j@->Obj_0,
                        j@ == Json::Object(*ms)@,
                        names_distinct(whole),
                        out.len() == i,
                        decode_entries::<K, V>(whole, 0) == match decode_entries::<K, V>(whole, i as int) {
                            Ok(rest) => Ok(out@.map_values(|e: (K, V)| (e.0.model(), e.1.model())) + rest),
                            Err(e) => Err(e),
                        },
                    decreases ms.len() - i,
                {
                    assert(whole[i as int] == (ms[i as int].0@, ms[i as int].1@));
                    let name = Json::Str(ms[i].0.clone());
                    let k = match K::from_json(&name) {
                        Ok(k) => k,
                        Err(e) => return Err(e),
                    };
                    let v = match V::from_json(&ms[i].1) {
                        Ok(v) => v,
                        Err(e) => return Err(e),
                    };
                    let ghost before = out@.map_values(|e: (K, V)| (e.0.model(), e.1.model()));
                    let ghost entry = (k.model(), v.model());
                    out.push((k, v));
                    proof {
                        let now = out@.map_values(|e: (K, V)| (e.0.model(), e.1.model()));
                        assert(now =~= before.push(entry));
                        match decode_entries::<K, V>(whole, i + 1) {
                            Ok(rest) => {
                                assert(before + (seq![entry] + rest) =~= now + rest);
                            },
                            Err(e) => {},
                        }
                    }
                    i = i + 1;
                }
                let ghost done = out@.map_values(|e: (K, V)| (e.0.model(), e.1.model()));
                assert(done + Seq::<(K::Model, V::Model)>::empty() =~= done);
                Ok(ObjectMap { entries: out })
            },
            _ => Err(DecodeError::WrongShape),
        }
    }

    proof fn lemma_round_trip(m: Seq<(K::Model, V::Model)>) {
        let e = m.map_values(|e: (K::Model, V::Model)| (key_text::<K>(e.0), V::encode(e.1)));
        assert forall|i: int, j: int| 0 <= i < j < e.len() implies (#[trigger] e[i]).0 != (#[trigger] e[j]).0 by {
            assert(e[i].0 == key_text::<K>(m[i].0));
            assert(e[j].0 == key_text::<K>(m[j].0));
        }
        lemma_entries_round_trip::<K, V>(m, 0);
        assert(m.subrange(0, m.len() as int) =~= m);
    }
}

} // verus!
