//! Rendering of constant names (`UPPER_SNAKE_CASE`) in PascalCase.

use vstd::prelude::*;
use vstd::std_specs::iter::IteratorSpec;
use vstd::string::{StringExecFns, StringSliceAdditionalSpecFns};

verus! {

/// The ASCII lowercase of a byte.
pub open spec fn ascii_lower(b: u8) -> u8 {
    if 65 <= b <= 90 {
        (b + 32) as u8
    } else {
        b
    }
}

/// PascalCase of `s` from index `i` on: the first byte of each `_`-separated
/// word is kept, the others are lowercased, and the separators are dropped.
pub open spec fn pascal_from(s: Seq<u8>, i: int, word_start: bool) -> Seq<u8>
    decreases s.len() - i,
    when 0 <= i
{
    if i >= s.len() {
        Seq::empty()
    } else if word_start {
        seq![s[i]] + pascal_from(s, i + 1, false)
    } else if s[i] == 95u8 {
        pascal_from(s, i + 1, true)
    } else {
        seq![ascii_lower(s[i])] + pascal_from(s, i + 1, false)
    }
}

/// PascalCase of a constant name, as bytes.
pub open spec fn pascal_case(s: Seq<u8>) -> Seq<u8> {
    pascal_from(s, 0, true)
}

/// Renders a constant name in PascalCase (`QUICK_FIX` gives `QuickFix`), as bytes.
pub fn fmt_pascal_case_const(name: &str) -> (r: Vec<u8>)
    ensures
        r@ == pascal_case(name.spec_bytes()),
{
    let bytes = name.as_bytes();
    let mut out: Vec<u8> = Vec::new();
    let mut i: usize = 0;
    while i < bytes.len()
        invariant
            i <= bytes@.len(),
            bytes@ == name.spec_bytes(),
            pascal_case(bytes@) == out@ + pascal_from(bytes@, i as int, true),
        decreases bytes@.len() - i,
    {
        let first = bytes[i];
        i = i + 1;
        out.push(first);
        proof {
            assert(out@ + pascal_from(bytes@, i as int, false) =~= out@.drop_last() + pascal_from(
                bytes@,
                i - 1,
                true,
            ));
        }
        let mut ended = false;
        let ghost word = i;
        while i < bytes.len() && !ended
            invariant
                word <= i <= bytes@.len(),
                bytes@ == name.spec_bytes(),
                pascal_case(bytes@) == out@ + pascal_from(bytes@, i as int, ended),
            decreases bytes@.len() - i,
        {
            let rest = bytes[i];
            i = i + 1;
            if rest == 95u8 {
                ended = true;
            } else {
                let lower = if 65 <= rest && rest <= 90 {
                    rest + 32
                } else {
                    rest
                };
                proof {
                    assert(out@.push(lower) + pascal_from(bytes@, i as int, false) =~= out@ + pascal_from(
                        bytes@,
                        i - 1,
                        false,
                    ));
                }
                out.push(lower);
            }
        }
    }
    assert(out@ + pascal_from(bytes@, i as int, true) =~= out@);
    out
}

/// The lowercase of a character, as Unicode defines it; one character may
/// lower to several.
pub uninterp spec fn lower_of(c: char) -> Seq<char>;

/// The ASCII lowercase of a character: a capital letter becomes the letter 32
/// code points later; every other character is kept.
pub open spec fn ascii_lower_char(c: char) -> char {
    if 'A' <= c && c <= 'Z' {
        ((c as u32) + 32) as char
    } else {
        c
    }
}

/// Relies on `char::to_lowercase`: the result depends on the character alone,
/// and an ASCII character lowers to its ASCII lowercase.
#[verifier::external_body]
fn char_lowercase(c: char) -> (r: String)
    ensures
        r@ == lower_of(c),
        c <= '\u{7f}' ==> r@ == seq![ascii_lower_char(c)],
{
    c.to_lowercase().collect()
}

/// Relies on `char::to_string`, which gives the one-character text.
#[verifier::external_body]
fn char_text(c: char) -> (r: String)
    ensures
        r@ == seq![c],
{
    c.to_string()
}

/// The decimal digits of a natural number.
pub open spec fn digits(n: nat) -> Seq<char>
    decreases n,
{
    if n < 10 {
        seq![((n + 48) as u8) as char]
    } else {
        digits(n / 10).push((((n % 10) + 48) as u8) as char)
    }
}

/// The decimal text of an integer, with a leading `-` when negative.
pub open spec fn decimal(n: int) -> Seq<char> {
    if n < 0 {
        seq!['-'] + digits((-n) as nat)
    } else {
        digits(n as nat)
    }
}

/// The decimal digits of a natural number, as text.
fn digits_text(n: u64) -> (r: String)
    ensures
        r@ == digits(n as nat),
    decreases n,
{
    let last = ((n % 10) as u8 + 48) as char;
    if n < 10 {
        char_text(last)
    } else {
        let mut s = digits_text(n / 10);
        let d = char_text(last);
        s.append(d.as_str());
        s
    }
}

/// The decimal text of an integer, with a leading `-` when negative.
fn i32_text(n: i32) -> (r: String)
    ensures
        r@ == decimal(n as int),
{
    if n < 0 {
        proof {
            reveal_strlit("-");
        }
        let mut s = "-".to_owned();
        let magnitude = digits_text((-(n as i64)) as u64);
        s.append(magnitude.as_str());
        s
    } else {
        digits_text(n as u64)
    }
}

/// A label followed by an integer in parentheses, as in `SymbolKind(99)`.
pub(crate) fn tuple_text(label: &str, n: i32) -> (r: String)
    ensures
        r@ == label@ + seq!['('] + decimal(n as int) + seq![')'],
{
    proof {
        reveal_strlit("(");
        reveal_strlit(")");
    }
    let mut s = label.to_owned();
    s.append("(");
    let digits = i32_text(n);
    s.append(digits.as_str());
    s.append(")");
    assert(s@ =~= label@ + seq!['('] + decimal(n as int) + seq![')']);
    s
}

/// Whether two byte strings are equal.
pub fn bytes_equal(a: &[u8], b: &[u8]) -> (r: bool)
    ensures
        r == (a@ == b@),
{
    if a.len() != b.len() {
        return false;
    }
    let mut i: usize = 0;
    while i < a.len()
        invariant
            i <= a@.len(),
            a@.len() == b@.len(),
            forall|k: int| 0 <= k < i ==> a@[k] == b@[k],
        decreases a@.len() - i,
    {
        if a[i] != b[i] {
            return false;
        }
        i = i + 1;
    }
    assert(a@ =~= b@);
    true
}

/// PascalCase of the characters of `s` from index `i` on: the words between
/// `_` keep their first character and lowercase the others; the `_` go.
pub open spec fn pascal_words(s: Seq<char>, i: int, word_start: bool) -> Seq<char>
    decreases s.len() - i,
    when 0 <= i
{
    if i >= s.len() {
        Seq::empty()
    } else if s[i] == '_' {
        pascal_words(s, i + 1, true)
    } else if word_start {
        seq![s[i]] + pascal_words(s, i + 1, false)
    } else {
        lower_of(s[i]) + pascal_words(s, i + 1, false)
    }
}

/// Whether every character of a text is ASCII.
pub open spec fn ascii_text(s: Seq<char>) -> bool {
    forall|i: int| 0 <= i < s.len() ==> '\0' <= #[trigger] s[i] && s[i] <= '\u{7f}'
}

/// `pascal_words` for an ASCII text, where lowercasing is ASCII lowercasing.
pub open spec fn pascal_chars(s: Seq<char>, i: int, word_start: bool) -> Seq<char>
    decreases s.len() - i,
    when 0 <= i
{
    if i >= s.len() {
        Seq::empty()
    } else if s[i] == '_' {
        pascal_chars(s, i + 1, true)
    } else if word_start {
        seq![s[i]] + pascal_chars(s, i + 1, false)
    } else {
        seq![ascii_lower_char(s[i])] + pascal_chars(s, i + 1, false)
    }
}

/// Whether every `_` of a name follows a character other than `_`: the name
/// has no empty word except possibly a last one.
pub open spec fn no_empty_words(s: Seq<char>) -> bool {
    forall|i: int| 0 <= i < s.len() && #[trigger] s[i] == '_' ==> i > 0 && s[i - 1] != '_'
}

proof fn lemma_pascal_agree_from(s: Seq<char>, b: Seq<u8>, i: int, word_start: bool)
    requires
        ascii_text(s),
        no_empty_words(s),
        b.len() == s.len(),
        forall|k: int| 0 <= k < s.len() ==> #[trigger] b[k] == s[k] as u8,
        0 <= i <= s.len(),
        word_start ==> (i == 0 || s[i - 1] == '_'),
    ensures
        pascal_from(b, i, word_start).map_values(|x: u8| x as char) == pascal_chars(s, i, word_start),
    decreases s.len() - i,
{
    if i < s.len() {
        let c = s[i];
        assert(b[i] == c as u8);
        assert((c as u8) as char == c);
        assert(ascii_lower(c as u8) as char == ascii_lower_char(c));
        if c == '_' {
            assert(b[i] == 95u8);
            assert(!word_start);
            lemma_pascal_agree_from(s, b, i + 1, true);
        } else {
            lemma_pascal_agree_from(s, b, i + 1, false);
            let rest = pascal_from(b, i + 1, false);
            if word_start {
                assert((seq![b[i]] + rest).map_values(|x: u8| x as char) =~= seq![c] + rest.map_values(|x: u8| x as char));
            } else {
                assert((seq![ascii_lower(b[i])] + rest).map_values(|x: u8| x as char) =~= seq![ascii_lower_char(c)]
                    + rest.map_values(|x: u8| x as char));
            }
        }
    } else {
        assert(pascal_from(b, i, word_start).map_values(|x: u8| x as char) =~= Seq::<char>::empty());
    }
}

/// For an ASCII name without empty words (such as `AFTER_DELAY`), the rendering
/// of [`fmt_pascal_case`] and the bytes of [`fmt_pascal_case_const`] agree.
pub proof fn lemma_pascal_agree(name: &str)
    requires
        ascii_text(name@),
        no_empty_words(name@),
    ensures
        pascal_case(name.spec_bytes()).map_values(|x: u8| x as char) == pascal_chars(name@, 0, true),
{
    broadcast use vstd::utf8::is_ascii_chars_encode_utf8;

    assert(vstd::utf8::is_ascii_chars(name@));
    lemma_pascal_agree_from(name@, name.spec_bytes(), 0, true);
}

/// Renders a constant name in PascalCase (`AFTER_DELAY` gives `AfterDelay`).
pub fn fmt_pascal_case(name: &str) -> (r: String)
    ensures
        r@ == pascal_words(name@, 0, true),
        ascii_text(name@) ==> r@ == pascal_chars(name@, 0, true),
{
    broadcast use {vstd::string::axiom_spec_iter, vstd::string::next_postcondition};

    let mut out = String::new();
    let mut chars = name.chars();
    let mut word_start = true;
    let ghost mut k: int = 0;
    loop
        invariant
            0 <= k <= name@.len(),
            chars.remaining() == name@.subrange(k, name@.len() as int),
            pascal_words(name@, 0, true) == out@ + pascal_words(name@, k, word_start),
            ascii_text(name@) ==> pascal_chars(name@, 0, true) == out@ + pascal_chars(name@, k, word_start),
        ensures
            k == name@.len(),
            pascal_words(name@, 0, true) == out@ + pascal_words(name@, k, word_start),
            ascii_text(name@) ==> pascal_chars(name@, 0, true) == out@ + pascal_chars(name@, k, word_start),
        decreases name@.len() - k,
    {
        match chars.next() {
            None => {
                break;
            },
            Some(c) => {
                assert(c == name@[k]);
                let ghost before = out@;
                if c == '_' {
                    word_start = true;
                } else if word_start {
                    let t = char_text(c);
                    out.append(t.as_str());
                    word_start = false;
                    assert(before + pascal_words(name@, k, true) =~= out@ + pascal_words(name@, k + 1, false));
                    assert(before + pascal_chars(name@, k, true) =~= out@ + pascal_chars(name@, k + 1, false));
                } else {
                    let t = char_lowercase(c);
                    out.append(t.as_str());
                    assert(before + pascal_words(name@, k, false) =~= out@ + pascal_words(name@, k + 1, false));
                    proof {
                        if ascii_text(name@) {
                            assert(c <= '\u{7f}');
                            assert(before + pascal_chars(name@, k, false) =~= out@ + pascal_chars(name@, k + 1, false));
                        }
                    }
                }
                proof {
                    assert(name@.subrange(k + 1, name@.len() as int) =~= name@.subrange(k, name@.len() as int).drop_first());
                    k = k + 1;
                }
            },
        }
    }
    out
}

} // verus!
