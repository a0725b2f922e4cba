use vstd::prelude::*;
use vstd::string::*;

verus! {

broadcast use vstd::string::group_string_axioms;

/// `char::to_ascii_lowercase`: ASCII capitals become small letters, every other
/// character is kept.
pub open spec fn lower_char(c: char) -> char {
    if 'A' <= c && c <= 'Z' {
        ((c as int) + 32) as char
    } else {
        c
    }
}

/// `str::to_ascii_lowercase` on the character sequence of a string.
pub open spec fn lower_seq(s: Seq<char>) -> Seq<char> {
    s.map_values(|c: char| lower_char(c))
}

/// `u8::is_ascii_hexdigit` on a character.
pub open spec fn is_hex_char(c: char) -> bool {
    ('0' <= c && c <= '9') || ('a' <= c && c <= 'f') || ('A' <= c && c <= 'F')
}

/// A decimal digit `'0'..='9'`.
pub open spec fn is_digit_char(c: char) -> bool {
    '0' <= c && c <= '9'
}

/// The character of a decimal digit value.
pub open spec fn digit_char(d: nat) -> char {
    (('0' as int) + d) as char
}

/// Decimal notation of a natural number, without leading zeros.
pub open spec fn decimal(n: nat) -> Seq<char>
    decreases n,
{
    if n < 10 {
        seq![digit_char(n)]
    } else {
        decimal(n / 10).push(digit_char(n % 10))
    }
}

/// The value of a sequence of decimal digits.
pub open spec fn digits_value(s: Seq<char>) -> nat
    decreases s.len(),
{
    if s.len() == 0 {
        0
    } else {
        digits_value(s.drop_last()) * 10 + ((s.last() as int) - ('0' as int)) as nat
    }
}

pub open spec fn all_digits(s: Seq<char>) -> bool {
    forall|i: int| 0 <= i < s.len() ==> is_digit_char(#[trigger] s[i])
}

/// What `str::parse::<u32>` accepts: an optional `+`, then at least one decimal
/// digit, with a value that fits in a `u32`.
pub open spec fn parse_u32_spec(s: Seq<char>) -> Option<u32> {
    let body = if s.len() > 0 && s[0] == '+' {
        s.drop_first()
    } else {
        s
    };
    if body.len() > 0 && all_digits(body) && digits_value(body) <= u32::MAX {
        Some(digits_value(body) as u32)
    } else {
        None
    }
}

/// Calls `String::push`. Claimed: afterwards the string holds its former
/// characters followed by `c`.
#[verifier::external_body]
pub(crate) fn push_char(s: &mut String, c: char)
    ensures
        final(s)@ == old(s)@.push(c),
{
    s.push(c);
}

pub fn lower_ascii_char(c: char) -> (r: char)
    ensures
        r == lower_char(c),
{
    if 'A' <= c && c <= 'Z' {
        let code: u32 = c as u32 + 32;
        assert(code < 128);
        let b: u8 = code as u8;
        b as char
    } else {
        c
    }
}

pub fn is_hex_digit_char(c: char) -> (b: bool)
    ensures
        b == is_hex_char(c),
{
    ('0' <= c && c <= '9') || ('a' <= c && c <= 'f') || ('A' <= c && c <= 'F')
}

/// `str::to_ascii_lowercase`.
pub fn ascii_lowercase(s: &str) -> (r: String)
    ensures
        r@ == lower_seq(s@),
{
    let mut out = String::new();
    for c in it: s.chars()
        invariant
            it.seq() == s@,
            out@ == lower_seq(s@.take(it.index() as int)),
    {
        proof {
            assert(s@.take(it.index() + 1) == s@.take(it.index() as int).push(c));
        }
        push_char(&mut out, lower_ascii_char(c));
        proof {
            assert(lower_seq(s@.take(it.index() + 1)) == lower_seq(s@.take(it.index() as int)).push(lower_char(c)));
        }
    }
    proof {
        assert(s@.take(s@.len() as int) == s@);
    }
    out
}

/// Character-wise equality of two strings.
pub fn str_eq(a: &str, b: &str) -> (r: bool)
    ensures
        r == (a@ == b@),
{
    let n = a.unicode_len();
    if n != b.unicode_len() {
        return false;
    }
    let mut i: usize = 0;
    while i < n
        invariant
            n == a@.len(),
            n == b@.len(),
            i <= n,
            forall|j: int| 0 <= j < i ==> a@[j] == b@[j],
        decreases n - i,
    {
        if a.get_char(i) != b.get_char(i) {
            return false;
        }
        i = i + 1;
    }
    assert(a@ =~= b@);
    true
}

/// `str::starts_with` for a string prefix.
pub fn starts_with(s: &str, prefix: &str) -> (r: bool)
    ensures
        r == (prefix@.len() <= s@.len() && s@.take(prefix@.len() as int) == prefix@),
{
    let n = prefix.unicode_len();
    if s.unicode_len() < n {
        return false;
    }
    let mut i: usize = 0;
    while i < n
        invariant
            n == prefix@.len(),
            n <= s@.len(),
            i <= n,
            forall|j: int| 0 <= j < i ==> s@[j] == prefix@[j],
        decreases n - i,
    {
        if s.get_char(i) != prefix.get_char(i) {
            assert(s@.take(n as int)[i as int] != prefix@[i as int]);
            return false;
        }
        i = i + 1;
    }
    assert(s@.take(n as int) =~= prefix@);
    true
}

/// Appends the decimal notation of `n` to `s`.
pub fn push_decimal(s: &mut String, n: u64)
    ensures
        final(s)@ == old(s)@ + decimal(n as nat),
    decreases n,
{
    if n >= 10 {
        push_decimal(s, n / 10);
    }
    let d: u8 = (n % 10) as u8;
    let code: u8 = 48u8 + d;
    let c: char = code as char;
    assert(c == digit_char((n % 10) as nat));
    push_char(s, c);
    proof {
        if n >= 10 {
            assert(decimal(n as nat) == decimal((n / 10) as nat).push(digit_char((n % 10) as nat)));
        } else {
            assert(decimal(n as nat) == seq![digit_char(n as nat)]);
        }
    }
}

proof fn lemma_digits_value_push(s: Seq<char>, c: char)
    ensures
        digits_value(s.push(c)) == digits_value(s) * 10 + ((c as int) - ('0' as int)) as nat,
{
    assert(s.push(c).drop_last() == s);
}

proof fn lemma_digits_value_prefix(s: Seq<char>, k: int)
    requires
        0 <= k <= s.len(),
        all_digits(s),
    ensures
        digits_value(s.take(k)) <= digits_value(s),
    decreases s.len() - k,
{
    if k < s.len() {
        lemma_digits_value_prefix(s, k + 1);
        assert(s.take(k + 1) == s.take(k).push(s[k]));
        lemma_digits_value_push(s.take(k), s[k]);
        assert(is_digit_char(s[k]));
    } else {
        assert(s.take(k) == s);
    }
}

/// `str::parse::<u32>`, with every error collapsed into `None`.
pub fn parse_u32(s: &str) -> (r: Option<u32>)
    ensures
        r == parse_u32_spec(s@),
{
    let mut acc: u64 = 0;
    let mut first = true;
    let mut ok = true;
    let mut too_big = false;
    let mut digits_seen = false;
    let ghost body: Seq<char> = if s@.len() > 0 && s@[0] == '+' {
        s@.drop_first()
    } else {
        s@
    };
    let ghost offset: int = if s@.len() > 0 && s@[0] == '+' { 1 } else { 0 };
    for c in it: s.chars()
        invariant
            it.seq() == s@,
            first == (it.index() == 0),
            offset == (if s@.len() > 0 && s@[0] == '+' { 1int } else { 0int }),
            body == s@.subrange(offset, s@.len() as int),
            it.index() > 0 ==> it.index() >= offset,
            ok == (it.index() <= offset || all_digits(s@.subrange(offset, it.index() as int))),
            ok && !too_big && it.index() >= offset ==> acc == digits_value(
                s@.subrange(offset, it.index() as int),
            ),
            ok && !too_big ==> acc <= u32::MAX,
            it.index() < offset ==> acc == 0 && !too_big,
            ok ==> (digits_seen == (it.index() > offset)),
            ok && too_big ==> it.index() > offset && digits_value(
                s@.subrange(offset, it.index() as int),
            ) > u32::MAX,
    {
        let ghost idx: int = it.index() as int;
        assert(c == s@[idx]);
        if first && c == '+' {
            first = false;
            assert(s@.subrange(offset, idx + 1) =~= Seq::<char>::empty());
        } else {
            first = false;
            if ok {
                let ghost prev = s@.subrange(offset, idx);
                if '0' <= c && c <= '9' {
                    digits_seen = true;
                    if !too_big {
                        let d: u64 = (c as u32 - '0' as u32) as u64;
                        acc = acc * 10 + d;
                        if acc > 0xffff_ffff {
                            too_big = true;
                        }
                    }
                    proof {
                        assert(s@.subrange(offset, idx + 1) == prev.push(c));
                        lemma_digits_value_push(prev, c);
                        assert(((c as int) - ('0' as int)) as nat == (c as u32 - '0' as u32));
                        if too_big {
                            assert(digits_value(prev.push(c)) >= digits_value(prev) * 10);
                        }
                    }
                } else {
                    ok = false;
                    proof {
                        assert(s@.subrange(offset, idx + 1)[idx - offset] == c);
                    }
                }
            }
        }
    }
    proof {
        assert(s@.subrange(offset, s@.len() as int) == body);
        if ok && too_big && all_digits(body) {
            lemma_digits_value_prefix(body, s@.len() - offset);
            assert(body.take(s@.len() - offset) == body);
        }
    }
    if !digits_seen || !ok || too_big {
        None
    } else {
        Some(acc as u32)
    }
}

proof fn lemma_decimal_digits(n: nat)
    ensures
        decimal(n).len() > 0,
        all_digits(decimal(n)),
        digits_value(decimal(n)) == n,
    decreases n,
{
    if n < 10 {
        let s = decimal(n);
        assert(s == seq![digit_char(n)]);
        assert(s.drop_last() =~= Seq::<char>::empty());
        assert((digit_char(n) as int) == 48 + n);
        assert(digits_value(s.drop_last()) == 0);
        assert(digits_value(s) == n);
    } else {
        assert((digit_char(n % 10) as int) == 48 + n % 10);
        lemma_decimal_digits(n / 10);
        let prefix = decimal(n / 10);
        lemma_digits_value_push(prefix, digit_char(n % 10));
        let s = prefix.push(digit_char(n % 10));
        assert(decimal(n) == s);
        assert(digits_value(s) == (n / 10) * 10 + n % 10);
        assert forall|i: int| 0 <= i < s.len() implies is_digit_char(#[trigger] s[i]) by {
            if i < prefix.len() {
                assert(s[i] == prefix[i]);
            }
        }
    }
}

/// Reading back the decimal notation of a `u32` gives the number: the numbers
/// that error messages print are the ones `parse_u32` accepts.
pub proof fn lemma_parse_decimal_roundtrip(n: u32)
    ensures
        parse_u32_spec(decimal(n as nat)) == Some(n),
{
    lemma_decimal_digits(n as nat);
    assert(is_digit_char(decimal(n as nat)[0]));
}

} // verus!
