//! Decisions of the command-line client.
use vstd::prelude::*;
use crate::gestures::{action_code, action_of_label};
use crate::service::{clone_opt, opt_view};

verus! {

/// The model a `connect` command names, as it is sent to the server.
#[derive(Debug, Clone)]
pub struct ModelSelector {
    pub model_id: Option<String>,
    pub sku: Option<String>,
    pub base: Option<String>,
}

/// The selector for the given options; none when no option is given.
pub fn build_selector(
    model_id: &Option<String>,
    sku: &Option<String>,
    base: &Option<String>,
) -> (r: Option<ModelSelector>)
    ensures
        (model_id is None && sku is None && base is None) <==> r is None,
        r matches Some(s) ==> opt_view(s.model_id) == opt_view(*model_id) && opt_view(s.sku)
            == opt_view(*sku) && opt_view(s.base) == opt_view(*base),
{
    if model_id.is_none() && sku.is_none() && base.is_none() {
        return None;
    }
    Some(ModelSelector { model_id: clone_opt(model_id), sku: clone_opt(sku), base: clone_opt(base) })
}

/// The value of a sequence of decimal digits.
pub open spec fn decimal_value(digits: Seq<char>) -> int
    decreases digits.len(),
{
    if digits.len() == 0 {
        0
    } else {
        decimal_value(digits.drop_last()) * 10 + (digits.last() as int - '0' as int)
    }
}

/// A non-empty sequence of the ASCII digits.
pub open spec fn all_digits(digits: Seq<char>) -> bool {
    digits.len() > 0 && forall|i: int| 0 <= i < digits.len() ==> '0' <= #[trigger] digits[i] <= '9'
}

/// What `u8::from_str` reads from `s`: an optional `+` then decimal digits,
/// whose value must be at most 255.
pub open spec fn u8_of_text(s: Seq<char>) -> Option<u8> {
    let digits = if s.len() > 0 && s[0] == '+' {
        s.drop_first()
    } else {
        s
    };
    if all_digits(digits) && decimal_value(digits) <= 255 {
        Some(decimal_value(digits) as u8)
    } else {
        None
    }
}

/// A decimal value only grows when a digit is appended.
proof fn lemma_decimal_grows(digits: Seq<char>)
    requires
        all_digits(digits),
    ensures
        decimal_value(digits) >= decimal_value(digits.drop_last()),
        decimal_value(digits) >= 0,
    decreases digits.len(),
{
    if digits.len() > 1 {
        assert(all_digits(digits.drop_last()));
        lemma_decimal_grows(digits.drop_last());
    }
}

/// A decimal value is at least that of any of its non-empty prefixes.
proof fn lemma_decimal_prefix(digits: Seq<char>, k: int)
    requires
        all_digits(digits),
        1 <= k <= digits.len(),
    ensures
        decimal_value(digits) >= decimal_value(digits.take(k)),
    decreases digits.len(),
{
    if k < digits.len() {
        assert(all_digits(digits.drop_last()));
        assert(digits.drop_last().take(k) =~= digits.take(k));
        lemma_decimal_prefix(digits.drop_last(), k);
        lemma_decimal_grows(digits);
    } else {
        assert(digits.take(k) =~= digits);
    }
}

/// Reads an unsigned byte written in decimal, as `u8::from_str` does.
pub fn parse_u8(s: &str) -> (r: Option<u8>)
    ensures
        r == u8_of_text(s@),
{
    let chars = crate::text::chars_of(s);
    let mut i: usize = 0;
    if chars.len() > 0 && chars[0] == '+' {
        i = 1;
    }
    let start = i;
    let ghost digits = if s@.len() > 0 && s@[0] == '+' {
        s@.drop_first()
    } else {
        s@
    };
    assert(digits =~= s@.skip(start as int));
    if start == chars.len() {
        return None;
    }
    let mut value: u32 = 0;
    while i < chars.len()
        invariant
            chars@ == s@,
            start <= i <= chars@.len(),
            start < chars@.len(),
            digits == chars@.skip(start as int),
            digits == (if s@.len() > 0 && s@[0] == '+' {
                s@.drop_first()
            } else {
                s@
            }),
            value <= 255,
            forall|j: int| start <= j < i ==> '0' <= #[trigger] chars@[j] <= '9',
            value == decimal_value(chars@.subrange(start as int, i as int)),
        decreases chars@.len() - i,
    {
        let c = chars[i];
        if !('0' <= c && c <= '9') {
            assert(!all_digits(digits)) by {
                assert(digits[i - start] == c);
            }
            return None;
        }
        let ghost prefix = chars@.subrange(start as int, i + 1);
        assert(prefix.drop_last() =~= chars@.subrange(start as int, i as int));
        let next = value * 10 + (c as u32 - '0' as u32);
        if next > 255 {
            proof {
                assert(all_digits(prefix));
                if all_digits(digits) {
                    assert(digits.take(i + 1 - start) =~= prefix);
                    lemma_decimal_prefix(digits, i + 1 - start);
                }
            }
            return None;
        }
        value = next;
        i = i + 1;
    }
    assert(chars@.subrange(start as int, i as int) =~= digits);
    Some(value as u8)
}

/// The action a user names: a decimal byte, or else an action name.
pub fn resolve_action(action: &str) -> (r: Option<u8>)
    ensures
        r == (match u8_of_text(action@) {
            Some(v) => Some(v),
            None => action_of_label(action@),
        }),
{
    match parse_u8(action) {
        Some(v) => Some(v),
        None => action_code(action),
    }
}


/// `s` without the copies of `c` at its end.
pub open spec fn strip_trailing(s: Seq<char>, c: char) -> Seq<char>
    decreases s.len(),
{
    if s.len() > 0 && s.last() == c {
        strip_trailing(s.drop_last(), c)
    } else {
        s
    }
}

/// `s` without the copies of `c` at its start.
pub open spec fn strip_leading(s: Seq<char>, c: char) -> Seq<char>
    decreases s.len(),
{
    if s.len() > 0 && s[0] == c {
        strip_leading(s.drop_first(), c)
    } else {
        s
    }
}

/// The address of an API path under an endpoint: the endpoint without
/// trailing slashes, one slash, and the path without leading slashes.
pub open spec fn spec_url(base: Seq<char>, path: Seq<char>) -> Seq<char> {
    strip_trailing(base, '/') + seq!['/'] + strip_leading(path, '/')
}

/// The address of an API path under an endpoint.
pub fn url(base: &str, path: &str) -> (r: String)
    ensures
        r@ == spec_url(base@, path@),
{
    let b = crate::text::chars_of(base);
    let mut e: usize = b.len();
    assert(base@.take(e as int) =~= base@);
    while e > 0 && b[e - 1] == '/'
        invariant
            b@ == base@,
            e <= b@.len(),
            strip_trailing(base@, '/') == strip_trailing(base@.take(e as int), '/'),
        decreases e,
    {
        assert(base@.take(e as int).drop_last() =~= base@.take(e - 1));
        e = e - 1;
    }
    assert(strip_trailing(base@.take(e as int), '/') == base@.take(e as int));
    let p = crate::text::chars_of(path);
    let mut a: usize = 0;
    assert(path@.skip(0) =~= path@);
    while a < p.len() && p[a] == '/'
        invariant
            p@ == path@,
            a <= p@.len(),
            strip_leading(path@, '/') == strip_leading(path@.skip(a as int), '/'),
        decreases p@.len() - a,
    {
        assert(path@.skip(a as int).drop_first() =~= path@.skip(a + 1));
        a = a + 1;
    }
    assert(strip_leading(path@.skip(a as int), '/') == path@.skip(a as int));
    let head = base.substring_char(0, e);
    let tail = path.substring_char(a, p.len());
    let r = head.to_string().concat("/").concat(tail);
    proof {
        reveal_strlit("/");
        assert(tail@ =~= path@.skip(a as int));
    }
    r
}

} // verus!
