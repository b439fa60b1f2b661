//! URIs, held as the exact text they were parsed from.

use vstd::prelude::*;
use crate::json::{DecodeError, JVal, Json, JsonCodec};

verus! {

/// Whether a text is a URI by RFC 3986's `URI` rule, as `fluent_uri` parses it.
pub uninterp spec fn is_uri(s: Seq<char>) -> bool;

/// Relies on `fluent_uri::Uri::parse`: it succeeds exactly on the texts that
/// match RFC 3986's `URI` rule, and depends on the text alone.
#[verifier::external_body]
fn uri_parses(s: &str) -> (r: bool)
    ensures
        r == is_uri(s@),
{
    fluent_uri::Uri::parse(s).is_ok()
}

/// A character that a fragment may hold as it is: unreserved, a sub-delimiter,
/// or one of `:`, `@`, `/`, `?` (RFC 3986, `fragment = *( pchar / "/" / "?" )`).
pub open spec fn fragment_char(c: char) -> bool {
    ||| ('a' <= c && c <= 'z')
    ||| ('A' <= c && c <= 'Z')
    ||| ('0' <= c && c <= '9')
    ||| c == '-' || c == '.' || c == '_' || c == '~'
    ||| c == '!' || c == '$' || c == '&' || c == '\'' || c == '(' || c == ')'
    ||| c == '*' || c == '+' || c == ',' || c == ';' || c == '='
    ||| c == ':' || c == '@' || c == '/' || c == '?'
}

/// A hexadecimal digit.
pub open spec fn hex_digit(c: char) -> bool {
    ('0' <= c && c <= '9') || ('a' <= c && c <= 'f') || ('A' <= c && c <= 'F')
}

/// Whether `s` from index `i` on is made of fragment characters and of `%`
/// followed by two hexadecimal digits.
pub open spec fn fragment_from(s: Seq<char>, i: int) -> bool
    decreases s.len() - i,
    when 0 <= i
{
    if i >= s.len() {
        true
    } else if s[i] == '%' {
        i + 2 < s.len() && hex_digit(s[i + 1]) && hex_digit(s[i + 2]) && fragment_from(s, i + 3)
    } else {
        fragment_char(s[i]) && fragment_from(s, i + 1)
    }
}

/// Whether a text is a fragment component by RFC 3986, percent-encoding included.
pub open spec fn is_fragment(s: Seq<char>) -> bool {
    fragment_from(s, 0)
}

/// The index of the first `c` of `s` at index `i` or later, or the length of `s`.
pub open spec fn find_char(s: Seq<char>, c: char, i: int) -> int
    decreases s.len() - i,
    when 0 <= i
{
    if i >= s.len() {
        s.len() as int
    } else if s[i] == c {
        i
    } else {
        find_char(s, c, i + 1)
    }
}

/// The index of a URI's first `#`, which starts its fragment, or its length.
pub open spec fn hash_index(s: Seq<char>) -> int {
    find_char(s, '#', 0)
}

/// The text of a URI with its fragment replaced: the text before its first
/// `#`, then `#` and the new fragment when one is given.
pub open spec fn with_fragment(uri: Seq<char>, fragment: Option<Seq<char>>) -> Seq<char> {
    let base = uri.subrange(0, hash_index(uri));
    match fragment {
        Some(f) => base + seq!['#'] + f,
        None => base,
    }
}

/// The index of the `:` that ends a URI's scheme.
pub open spec fn scheme_end(s: Seq<char>) -> int {
    find_char(s, ':', 0)
}

/// The index where the query or the fragment starts, or the length.
pub open spec fn hier_end(s: Seq<char>) -> int {
    let q = find_char(s, '?', 0);
    let h = hash_index(s);
    if q < h {
        q
    } else {
        h
    }
}

/// Whether the scheme is followed by `//`, which starts an authority.
pub open spec fn has_authority(s: Seq<char>) -> bool {
    let e = scheme_end(s);
    e + 2 < s.len() && s[e + 1] == '/' && s[e + 2] == '/'
}

/// The index where a URI's path starts.
pub open spec fn path_start(s: Seq<char>) -> int {
    if has_authority(s) {
        let a = find_char(s, '/', scheme_end(s) + 3);
        if a < hier_end(s) {
            a
        } else {
            hier_end(s)
        }
    } else {
        scheme_end(s) + 1
    }
}

/// The scheme of a URI: its text before the first `:`.
pub open spec fn scheme_of(s: Seq<char>) -> Seq<char> {
    s.subrange(0, scheme_end(s))
}

/// The authority of a URI: what follows `scheme://` up to the path.
pub open spec fn authority_of(s: Seq<char>) -> Option<Seq<char>> {
    if has_authority(s) {
        Some(s.subrange(scheme_end(s) + 3, path_start(s)))
    } else {
        None
    }
}

/// The path of a URI, up to its query or fragment.
pub open spec fn path_of(s: Seq<char>) -> Seq<char> {
    s.subrange(path_start(s), hier_end(s))
}

/// The query of a URI: what follows the first `?` before the fragment.
pub open spec fn query_of(s: Seq<char>) -> Option<Seq<char>> {
    let q = find_char(s, '?', 0);
    if q < hash_index(s) {
        Some(s.subrange(q + 1, hash_index(s)))
    } else {
        None
    }
}

/// The fragment of a URI: what follows its first `#`.
pub open spec fn fragment_of(s: Seq<char>) -> Option<Seq<char>> {
    if hash_index(s) < s.len() {
        Some(s.subrange(hash_index(s) + 1, s.len() as int))
    } else {
        None
    }
}

/// Relies on `fluent_uri::Uri::scheme`: the text before the `:` that ends the scheme.
#[verifier::external_body]
fn uri_scheme(s: &str) -> (r: String)
    requires
        is_uri(s@),
    ensures
        r@ == scheme_of(s@),
{
    match fluent_uri::Uri::parse(s) {
        Ok(u) => u.scheme().as_str().to_owned(),
        Err(_) => String::new(),
    }
}

/// Relies on `fluent_uri::Uri::authority`: present when `//` follows the scheme,
/// and then the text from there up to the path.
#[verifier::external_body]
fn uri_authority(s: &str) -> (r: Option<String>)
    requires
        is_uri(s@),
    ensures
        match r {
            Some(a) => authority_of(s@) == Some(a@),
            None => authority_of(s@) is None,
        },
{
    match fluent_uri::Uri::parse(s) {
        Ok(u) => match u.authority() {
            Some(a) => Some(a.as_str().to_owned()),
            None => None,
        },
        Err(_) => None,
    }
}

/// Relies on `fluent_uri::Uri::path`: the text from the end of the authority
/// (or of the scheme) up to the query or fragment.
#[verifier::external_body]
fn uri_path(s: &str) -> (r: String)
    requires
        is_uri(s@),
    ensures
        r@ == path_of(s@),
{
    match fluent_uri::Uri::parse(s) {
        Ok(u) => u.path().as_str().to_owned(),
        Err(_) => String::new(),
    }
}

/// Relies on `fluent_uri::Uri::query`: the text after the `?` that ends the
/// path, up to the fragment.
#[verifier::external_body]
fn uri_query(s: &str) -> (r: Option<String>)
    requires
        is_uri(s@),
    ensures
        match r {
            Some(q) => query_of(s@) == Some(q@),
            None => query_of(s@) is None,
        },
{
    match fluent_uri::Uri::parse(s) {
        Ok(u) => match u.query() {
            Some(q) => Some(q.as_str().to_owned()),
            None => None,
        },
        Err(_) => None,
    }
}

/// Relies on `fluent_uri::Uri::fragment`: the text after the first `#`.
#[verifier::external_body]
fn uri_fragment(s: &str) -> (r: Option<String>)
    requires
        is_uri(s@),
    ensures
        match r {
            Some(f) => fragment_of(s@) == Some(f@),
            None => fragment_of(s@) is None,
        },
{
    match fluent_uri::Uri::parse(s) {
        Ok(u) => match u.fragment() {
            Some(f) => Some(f.as_str().to_owned()),
            None => None,
        },
        Err(_) => None,
    }
}

/// The view of an optional text.
pub open spec fn opt_text(t: Option<&str>) -> Option<Seq<char>> {
    match t {
        Some(s) => Some(s@),
        None => None,
    }
}

/// Relies on `fluent_uri::encoding::EStr::<Fragment>::new`: it accepts exactly
/// the texts of fragment characters and percent-encoded octets.
#[verifier::external_body]
fn fragment_parses(s: &str) -> (r: bool)
    ensures
        r == is_fragment(s@),
{
    fluent_uri::encoding::EStr::<fluent_uri::encoding::encoder::Fragment>::new(s).is_some()
}

/// Relies on `fluent_uri::Uri::<String>::set_fragment`: it cuts the text where
/// the query or path ends, which in a URI is at its first `#` or its end, then
/// appends `#` and the fragment; the result is a URI again.
#[verifier::external_body]
fn replace_fragment(uri: &str, fragment: Option<&str>) -> (r: String)
    requires
        is_uri(uri@),
        fragment matches Some(f) ==> is_fragment(f@),
    ensures
        r@ == with_fragment(uri@, opt_text(fragment)),
        is_uri(r@),
{
    let mut owned = match fluent_uri::Uri::parse(uri) {
        Ok(parsed) => parsed.to_owned(),
        Err(_) => return String::new(),
    };
    owned.set_fragment(fragment.and_then(fluent_uri::encoding::EStr::new));
    owned.into_string()
}

/// A URI. Equality, order and hash are those of its text: no normalization is done.
#[derive(Debug, PartialEq, Eq, PartialOrd, Ord, Hash)]
pub struct Uri {
    text: String,
}

/// The text is not a URI.
#[derive(Clone, Copy, Debug, PartialEq, Eq, Structural)]
pub struct UriParseError;

impl View for Uri {
    type V = Seq<char>;

    closed spec fn view(&self) -> Seq<char> {
        self.text@
    }
}

impl Uri {
    #[verifier::type_invariant]
    spec fn well_formed(&self) -> bool {
        is_uri(self.text@)
    }

    /// Parses a URI; the text is kept exactly as given.
    pub fn parse(s: &str) -> (r: Result<Uri, UriParseError>)
        ensures
            r is Ok <==> is_uri(s@),
            r matches Ok(u) ==> u@ == s@,
    {
        if uri_parses(s) {
            let u = Uri { text: s.to_owned() };
            Ok(u)
        } else {
            Err(UriParseError)
        }
    }

    /// Replaces the fragment component; `None` removes it. A text that is not a
    /// fragment component is refused, and the URI is left as it was.
    pub fn set_fragment(&mut self, fragment: Option<&str>) -> (r: Result<(), UriParseError>)
        ensures
            r is Ok <==> (fragment matches Some(f) ==> is_fragment(f@)),
            r is Ok ==> final(self)@ == with_fragment(old(self)@, opt_text(fragment)),
            r is Err ==> final(self)@ == old(self)@,
    {
        proof {
            use_type_invariant(&*self);
        }
        let ok = match fragment {
            Some(f) => fragment_parses(f),
            None => true,
        };
        if !ok {
            return Err(UriParseError);
        }
        let text = replace_fragment(self.text.as_str(), fragment);
        self.text = text;
        Ok(())
    }

    /// The scheme, such as `https`.
    pub fn scheme(&self) -> (r: String)
        ensures
            r@ == scheme_of(self@),
    {
        proof {
            use_type_invariant(self);
        }
        uri_scheme(self.text.as_str())
    }

    /// The authority, such as `user@example.com:8042`, where the URI has one.
    pub fn authority(&self) -> (r: Option<String>)
        ensures
            match r {
                Some(a) => authority_of(self@) == Some(a@),
                None => authority_of(self@) is None,
            },
    {
        proof {
            use_type_invariant(self);
        }
        uri_authority(self.text.as_str())
    }

    /// The path, possibly empty.
    pub fn path(&self) -> (r: String)
        ensures
            r@ == path_of(self@),
    {
        proof {
            use_type_invariant(self);
        }
        uri_path(self.text.as_str())
    }

    /// The query, where the URI has one.
    pub fn query(&self) -> (r: Option<String>)
        ensures
            match r {
                Some(q) => query_of(self@) == Some(q@),
                None => query_of(self@) is None,
            },
    {
        proof {
            use_type_invariant(self);
        }
        uri_query(self.text.as_str())
    }

    /// The fragment, where the URI has one.
    pub fn fragment(&self) -> (r: Option<String>)
        ensures
            match r {
                Some(f) => fragment_of(self@) == Some(f@),
                None => fragment_of(self@) is None,
            },
    {
        proof {
            use_type_invariant(self);
        }
        uri_fragment(self.text.as_str())
    }

    /// The text of the URI.
    pub fn as_str(&self) -> (r: &str)
        ensures
            r@ == self@,
            is_uri(r@),
    {
        proof {
            use_type_invariant(self);
        }
        self.text.as_str()
    }
}

impl Clone for Uri {
    fn clone(&self) -> (r: Uri)
        ensures
            r@ == self@,
    {
        proof {
            use_type_invariant(self);
        }
        Uri { text: self.text.clone() }
    }
}

impl std::str::FromStr for Uri {
    type Err = UriParseError;

    fn from_str(s: &str) -> Result<Uri, UriParseError> {
        Uri::parse(s)
    }
}

/// A URI is written as a JSON string; one that does not parse is rejected.
impl JsonCodec for Uri {
    type Model = Seq<char>;

    open spec fn model(&self) -> Seq<char> {
        self@
    }

    open spec fn encode(m: Seq<char>) -> JVal {
        JVal::Str(m)
    }

    open spec fn decode(j: JVal) -> Result<Seq<char>, DecodeError> {
        match j {
            JVal::Str(s) => if is_uri(s) {
                Ok(s)
            } else {
                Err(DecodeError::InvalidPrimitive)
            },
            _ => Err(DecodeError::WrongShape),
        }
    }

    open spec fn valid(m: Seq<char>) -> bool {
        is_uri(m)
    }

    fn to_json(&self) -> (r: Json) {
        Json::Str(self.as_str().to_owned())
    }

    fn from_json(j: &Json) -> (r: Result<Uri, DecodeError>) {
        match j {
            Json::Str(s) => match Uri::parse(s.as_str()) {
                Ok(u) => Ok(u),
                Err(_) => Err(DecodeError::InvalidPrimitive),
            },
            _ => Err(DecodeError::WrongShape),
        }
    }

    proof fn lemma_round_trip(m: Seq<char>) {
    }
}

} // verus!
