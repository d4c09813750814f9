//! Small text helpers over `str`, with their meaning stated on characters.
use vstd::prelude::*;
use vstd::string::StringSliceAdditionalSpecFns;

verus! {

broadcast use vstd::utf8::encode_utf8_decode_utf8;

/// Compares two byte slices element for element.
pub fn bytes_eq(a: &[u8], b: &[u8]) -> (r: bool)
    ensures
        r == (a@ == b@),
{
    if a.len() != b.len() {
        return false;
    }
    let mut i: usize = 0;
    while i < a.len()
        invariant
            a@.len() == b@.len(),
            0 <= i <= a@.len(),
            forall|j: int| 0 <= j < i ==> a@[j] == b@[j],
        decreases a@.len() - i,
    {
        if a[i] != b[i] {
            return false;
        }
        i = i + 1;
    }
    assert(a@ =~= b@);
    true
}

/// Compares two string slices character for character.
pub fn str_eq(a: &str, b: &str) -> (r: bool)
    ensures
        r == (a@ == b@),
{
    let same = bytes_eq(a.as_bytes(), b.as_bytes());
    proof {
        assert(vstd::utf8::decode_utf8(vstd::utf8::encode_utf8(a@)) == a@);
        assert(vstd::utf8::decode_utf8(vstd::utf8::encode_utf8(b@)) == b@);
    }
    same
}


/// `c` with ASCII upper-case letters mapped to lower case.
pub open spec fn ascii_lower_char(c: char) -> char {
    if 'A' <= c && c <= 'Z' {
        ((c as u32) + 32) as char
    } else {
        c
    }
}

/// `s` with ASCII upper-case letters mapped to lower case.
pub open spec fn ascii_lower(s: Seq<char>) -> Seq<char> {
    s.map_values(|c: char| ascii_lower_char(c))
}

/// Whether `s`, with ASCII letters taken in lower case, equals `lower`.
pub fn lower_eq(s: &str, lower: &str) -> (r: bool)
    ensures
        r == (ascii_lower(s@) == lower@),
{
    let n = s.unicode_len();
    if n != lower.unicode_len() {
        assert(ascii_lower(s@).len() != lower@.len());
        return false;
    }
    let mut i: usize = 0;
    while i < n
        invariant
            n == s@.len(),
            n == lower@.len(),
            0 <= i <= n,
            forall|j: int| 0 <= j < i ==> ascii_lower_char(#[trigger] s@[j]) == lower@[j],
        decreases n - i,
    {
        let c = s.get_char(i);
        let t = lower.get_char(i);
        let same = if c >= 'A' && c <= 'Z' {
            (c as u32) + 32 == (t as u32)
        } else {
            c == t
        };
        if !same {
            assert(ascii_lower(s@)[i as int] != lower@[i as int]);
            return false;
        }
        i = i + 1;
    }
    assert(ascii_lower(s@) =~= lower@);
    true
}


/// The characters of `text`, one by one.
pub fn chars_of(text: &str) -> (r: Vec<char>)
    ensures
        r@ == text@,
{
    let n = text.unicode_len();
    let mut r: Vec<char> = Vec::new();
    let mut i: usize = 0;
    while i < n
        invariant
            n == text@.len(),
            0 <= i <= n,
            r@ =~= text@.take(i as int),
        decreases n - i,
    {
        r.push(text.get_char(i));
        i = i + 1;
    }
    assert(r@ =~= text@);
    r
}

/// `i` is the position of the first `sep` in `s`.
pub open spec fn is_first_of(s: Seq<char>, sep: char, i: int) -> bool {
    &&& 0 <= i < s.len()
    &&& s[i] == sep
    &&& forall|j: int| 0 <= j < i ==> s[j] != sep
}

/// The pieces of `s` between the occurrences of `sep`, in order; there is
/// one piece more than there are separators.
pub open spec fn split_on(s: Seq<char>, sep: char) -> Seq<Seq<char>>
    decreases s.len(),
{
    if exists|i: int| is_first_of(s, sep, i) {
        let i = choose|i: int| is_first_of(s, sep, i);
        seq![s.take(i)] + split_on(s.skip(i + 1), sep)
    } else {
        seq![s]
    }
}

/// There is only one first position of a character.
pub proof fn lemma_first_of_unique(s: Seq<char>, sep: char, i: int, k: int)
    requires
        is_first_of(s, sep, i),
        is_first_of(s, sep, k),
    ensures
        i == k,
{
    if i < k {
        assert(s[i] != sep);
    } else if k < i {
        assert(s[k] != sep);
    }
}

/// Splitting at a known first separator.
pub proof fn lemma_split_at_first(s: Seq<char>, sep: char, i: int)
    requires
        is_first_of(s, sep, i),
    ensures
        split_on(s, sep) == seq![s.take(i)] + split_on(s.skip(i + 1), sep),
{
    let c = choose|k: int| is_first_of(s, sep, k);
    lemma_first_of_unique(s, sep, c, i);
}

/// A sequence without the separator is one piece.
pub proof fn lemma_split_without_sep(s: Seq<char>, sep: char)
    requires
        forall|j: int| 0 <= j < s.len() ==> s[j] != sep,
    ensures
        split_on(s, sep) == seq![s],
{
}

/// Position of the first `c` in `s`, or its length when there is none.
pub fn find_char(s: &[char], c: char) -> (r: usize)
    ensures
        r <= s@.len(),
        r < s@.len() ==> is_first_of(s@, c, r as int),
        r == s@.len() ==> forall|j: int| 0 <= j < s@.len() ==> s@[j] != c,
{
    let mut i: usize = 0;
    while i < s.len()
        invariant
            0 <= i <= s@.len(),
            forall|j: int| 0 <= j < i ==> s@[j] != c,
        decreases s@.len() - i,
    {
        if s[i] == c {
            return i;
        }
        i = i + 1;
    }
    i
}

/// Unicode White_Space, the characters that `char::is_whitespace` accepts.
pub open spec fn is_white_space(c: char) -> bool {
    ||| '\u{9}' <= c && c <= '\u{d}'
    ||| c == ' '
    ||| c == '\u{85}'
    ||| c == '\u{a0}'
    ||| c == '\u{1680}'
    ||| '\u{2000}' <= c && c <= '\u{200a}'
    ||| c == '\u{2028}'
    ||| c == '\u{2029}'
    ||| c == '\u{202f}'
    ||| c == '\u{205f}'
    ||| c == '\u{3000}'
}

/// Whether `c` is Unicode white space.
pub fn white_space(c: char) -> (r: bool)
    ensures
        r == is_white_space(c),
{
    ('\u{9}' <= c && c <= '\u{d}') || c == ' ' || c == '\u{85}' || c == '\u{a0}' || c == '\u{1680}'
        || ('\u{2000}' <= c && c <= '\u{200a}') || c == '\u{2028}' || c == '\u{2029}' || c
        == '\u{202f}' || c == '\u{205f}' || c == '\u{3000}'
}

/// `i` is the position of the first character of `s` that is not white space.
pub open spec fn is_first_text(s: Seq<char>, i: int) -> bool {
    &&& 0 <= i < s.len()
    &&& !is_white_space(s[i])
    &&& forall|j: int| 0 <= j < i ==> is_white_space(s[j])
}

/// `i` is the position of the last character of `s` that is not white space.
pub open spec fn is_last_text(s: Seq<char>, i: int) -> bool {
    &&& 0 <= i < s.len()
    &&& !is_white_space(s[i])
    &&& forall|j: int| i < j < s.len() ==> is_white_space(s[j])
}

/// `s` without its leading and trailing white space: the part from the first
/// to the last character that is not white space, empty when there is none.
pub open spec fn trim(s: Seq<char>) -> Seq<char> {
    if (exists|i: int| is_first_text(s, i)) && (exists|i: int| is_last_text(s, i)) {
        s.subrange(choose|i: int| is_first_text(s, i), (choose|i: int| is_last_text(s, i)) + 1)
    } else {
        Seq::empty()
    }
}

/// The bounds of `s` without its leading and trailing white space.
pub fn trim_bounds(s: &[char]) -> (r: (usize, usize))
    ensures
        r.0 <= r.1 <= s@.len(),
        s@.subrange(r.0 as int, r.1 as int) == trim(s@),
{
    let mut a: usize = 0;
    while a < s.len() && white_space(s[a])
        invariant
            0 <= a <= s@.len(),
            forall|j: int| 0 <= j < a ==> is_white_space(s@[j]),
        decreases s@.len() - a,
    {
        a = a + 1;
    }
    if a == s.len() {
        assert(!exists|i: int| is_first_text(s@, i));
        return (a, a);
    }
    let mut e: usize = s.len();
    while e > a && white_space(s[e - 1])
        invariant
            a < e <= s@.len(),
            !is_white_space(s@[a as int]),
            forall|j: int| e <= j < s@.len() ==> is_white_space(s@[j]),
        decreases e,
    {
        e = e - 1;
    }
    proof {
        assert(is_first_text(s@, a as int));
        assert(is_last_text(s@, e - 1));
        let f = choose|i: int| is_first_text(s@, i);
        let l = choose|i: int| is_last_text(s@, i);
        if f < a {
            assert(is_white_space(s@[f]));
        } else if a < f {
            assert(is_white_space(s@[a as int]));
        }
        if l < e - 1 {
            assert(is_white_space(s@[e - 1]));
        } else if e - 1 < l {
            assert(is_white_space(s@[l]));
        }
    }
    (a, e)
}


/// Every split has at least one piece.
pub proof fn lemma_split_nonempty(s: Seq<char>, sep: char)
    ensures
        split_on(s, sep).len() >= 1,
{
}

/// What `String::from_utf8_lossy` makes of `bytes`: their text, with every
/// invalid sequence replaced by U+FFFD.
pub uninterp spec fn utf8_lossy(bytes: Seq<u8>) -> Seq<char>;

/// Calls `String::from_utf8_lossy`. Its result is named by `utf8_lossy`; of
/// valid UTF-8 its documentation says that the text is returned as it is,
/// which is the one fact stated here.
#[verifier::external_body]
pub(crate) fn decode_utf8_lossy(bytes: &[u8]) -> (s: String)
    ensures
        s@ == utf8_lossy(bytes@),
        vstd::utf8::valid_utf8(bytes@) ==> s@ == vstd::utf8::decode_utf8(bytes@),
{
    String::from_utf8_lossy(bytes).into_owned()
}

} // verus!
