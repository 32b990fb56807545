//! Text: comparison, numerals, UTF-16 measures, and pieces put together.

use vstd::prelude::*;
use vstd::string::*;
use vstd::utf8::*;

verus! {

/// Whether `a` and `b` are the same text.
pub fn same(a: &str, b: &str) -> (r: bool)
    ensures
        r == (a@ == b@),
{
    a.to_owned() == b.to_owned()
}

/// The characters of `s`.
pub fn chars_of(s: &str) -> (r: Vec<char>)
    ensures
        r@ == s@,
{
    let mut out: Vec<char> = Vec::new();
    for c in it: s.chars()
        invariant
            it.seq() == s@,
            out@ == s@.take(it.index() as int),
    {
        out.push(c);
        assert(s@.take(it.index() + 1) =~= s@.take(it.index() as int).push(c));
    }
    assert(s@.take(s@.len() as int) =~= s@);
    out
}

/// Whether `s` begins with `prefix`.
pub fn starts_with(s: &str, prefix: &str) -> (r: bool)
    ensures
        r == prefix@.is_prefix_of(s@),
{
    let a = chars_of(s);
    let b = chars_of(prefix);
    if b.len() > a.len() {
        return false;
    }
    let mut i: usize = 0;
    while i < b.len()
        invariant
            a@ == s@,
            b@ == prefix@,
            i <= b.len() <= a.len(),
            forall|j: int| 0 <= j < i ==> a@[j] == b@[j],
        decreases b.len() - i,
    {
        if a[i] != b[i] {
            assert(s@[i as int] != prefix@[i as int]);
            assert(s@.subrange(0, prefix@.len() as int)[i as int] == s@[i as int]);
            return false;
        }
        i = i + 1;
    }
    assert(prefix@ =~= s@.subrange(0, prefix@.len() as int));
    true
}

// ── decimal numerals ─────────────────────────────────────────────────────────────────────────

/// The decimal digit `d`.
pub open spec fn digit(d: nat) -> char {
    (48 + d) as char
}

/// The decimal numeral of `n`.
pub open spec fn decimal(n: nat) -> Seq<char>
    decreases n,
{
    if n < 10 {
        seq![digit(n)]
    } else {
        decimal(n / 10).push(digit(n % 10))
    }
}

fn digit_text(d: u64) -> (r: &'static str)
    requires
        d < 10,
    ensures
        r@ == seq![digit(d as nat)],
{
    proof {
        reveal_strlit("0");
        reveal_strlit("1");
        reveal_strlit("2");
        reveal_strlit("3");
        reveal_strlit("4");
        reveal_strlit("5");
        reveal_strlit("6");
        reveal_strlit("7");
        reveal_strlit("8");
        reveal_strlit("9");
    }
    if d == 0 {
        "0"
    } else if d == 1 {
        "1"
    } else if d == 2 {
        "2"
    } else if d == 3 {
        "3"
    } else if d == 4 {
        "4"
    } else if d == 5 {
        "5"
    } else if d == 6 {
        "6"
    } else if d == 7 {
        "7"
    } else if d == 8 {
        "8"
    } else {
        "9"
    }
}

/// Appends the decimal numeral of `n`.
pub fn push_decimal(out: &mut String, n: u64)
    ensures
        final(out)@ == old(out)@ + decimal(n as nat),
    decreases n,
{
    let ghost before = out@;
    if n >= 10 {
        push_decimal(out, n / 10);
    }
    out.append(digit_text(n % 10));
    assert(out@ =~= before + decimal(n as nat));
}

/// Whether `c` is a decimal digit.
pub open spec fn is_digit(c: char) -> bool {
    '0' <= c && c <= '9'
}

/// The value of the digits `s`, most significant first.
pub open spec fn digits_value(s: Seq<char>) -> nat
    decreases s.len(),
{
    if s.len() == 0 {
        0
    } else {
        digits_value(s.drop_last()) * 10 + (s.last() as nat - 48) as nat
    }
}

/// `s` is a run of at least one digit.
pub open spec fn all_digits(s: Seq<char>) -> bool {
    s.len() > 0 && forall|i: int| 0 <= i < s.len() ==> is_digit(#[trigger] s[i])
}

/// The number that the text `s` names within `0 ..= max`: digits, after an optional `+`.
pub open spec fn unsigned_named(s: Seq<char>, max: nat) -> Option<nat> {
    let body = if s.len() > 0 && s[0] == '+' {
        s.skip(1)
    } else {
        s
    };
    if all_digits(body) && digits_value(body) <= max {
        Some(digits_value(body))
    } else {
        None
    }
}

/// The 32-bit signed number that the text `s` names: digits, after an optional sign.
pub open spec fn signed_named(s: Seq<char>) -> Option<i32> {
    if s.len() > 0 && s[0] == '-' {
        if all_digits(s.skip(1)) && digits_value(s.skip(1)) <= 0x8000_0000 {
            Some((-(digits_value(s.skip(1)) as int)) as i32)
        } else {
            None
        }
    } else {
        match unsigned_named(s, 0x7fff_ffff) {
            Some(n) => Some(n as i32),
            None => None,
        }
    }
}

proof fn lemma_digits_grow(s: Seq<char>, i: int)
    requires
        0 <= i <= s.len(),
    ensures
        digits_value(s.take(i)) <= digits_value(s),
    decreases s.len(),
{
    if i == s.len() {
        assert(s.take(i) =~= s);
    } else {
        assert(s.drop_last().take(i) =~= s.take(i));
        lemma_digits_grow(s.drop_last(), i);
    }
}

/// The value of the digits from `from` on, if they are digits and it is at most `max`.
fn read_digits(s: &[char], from: usize, max: u64) -> (r: Option<u64>)
    requires
        from <= s@.len(),
        max <= 0xffff_ffff,
    ensures
        ({
            let body = s@.skip(from as int);
            if all_digits(body) && digits_value(body) <= max {
                r == Some(digits_value(body) as u64)
            } else {
                r is None
            }
        }),
{
    let ghost body = s@.skip(from as int);
    if from == s.len() {
        return None;
    }
    let mut value: u64 = 0;
    let mut i: usize = from;
    assert(body.take(0) =~= Seq::empty());
    while i < s.len()
        invariant
            from <= i <= s@.len(),
            max <= 0xffff_ffff,
            body == s@.skip(from as int),
            forall|j: int| 0 <= j < i - from ==> is_digit(#[trigger] body[j]),
            value == digits_value(body.take(i - from)),
            value <= max,
        decreases s@.len() - i,
    {
        let c = s[i];
        assert(body[i - from] == c);
        if c < '0' || c > '9' {
            return None;
        }
        let d: u64 = c as u64 - 48;
        value = value * 10 + d;
        proof {
            let k = i - from;
            assert(body.take(k + 1).drop_last() =~= body.take(k));
            assert(body.take(k + 1).last() == c);
            assert(value == digits_value(body.take(k + 1)));
        }
        if value > max {
            proof {
                lemma_digits_grow(body, i - from + 1);
            }
            return None;
        }
        i = i + 1;
    }
    assert(body.take(i - from) =~= body);
    Some(value)
}

/// The unsigned 32-bit number that `s` names, if it names one.
pub fn parse_u32(s: &[char]) -> (r: Option<u32>)
    ensures
        r == (match unsigned_named(s@, 0xffff_ffff) {
            Some(n) => Some(n as u32),
            None => None,
        }),
{
    let from: usize = if s.len() > 0 && s[0] == '+' {
        1
    } else {
        0
    };
    assert(s@.skip(0) =~= s@);
    match read_digits(s, from, 0xffff_ffff) {
        Some(n) => Some(n as u32),
        None => None,
    }
}

/// The signed 32-bit number that `s` names, if it names one.
pub fn parse_i32(s: &[char]) -> (r: Option<i32>)
    ensures
        r == signed_named(s@),
{
    assert(s@.skip(0) =~= s@);
    if s.len() > 0 && s[0] == '-' {
        match read_digits(s, 1, 0x8000_0000) {
            Some(n) => Some((-(n as i64)) as i32),
            None => None,
        }
    } else {
        let from: usize = if s.len() > 0 && s[0] == '+' {
            1
        } else {
            0
        };
        match read_digits(s, from, 0x7fff_ffff) {
            Some(n) => Some(n as i32),
            None => None,
        }
    }
}

// ── UTF-16 ───────────────────────────────────────────────────────────────────────────────────

/// How many UTF-16 code units `c` takes.
pub open spec fn utf16_width(c: char) -> nat {
    if (c as u32) < 0x1_0000 {
        1
    } else {
        2
    }
}

/// How many UTF-16 code units `s` takes.
pub open spec fn utf16_units(s: Seq<char>) -> nat
    decreases s.len(),
{
    if s.len() == 0 {
        0
    } else {
        utf16_units(s.drop_last()) + utf16_width(s.last())
    }
}

/// The number of UTF-16 code units of `s`, as far as 32 bits hold it.
pub fn utf16_count(s: &str) -> (r: u32)
    ensures
        r == utf16_units(s@) % 0x1_0000_0000,
{
    let mut n: u32 = 0;
    let ghost mut at: int = 0;
    for c in it: s.chars()
        invariant
            it.seq() == s@,
            at == it.index(),
            n == utf16_units(s@.take(at)) % 0x1_0000_0000,
    {
        n = n.wrapping_add(if (c as u32) < 0x1_0000 { 1 } else { 2 });
        proof {
            assert(s@.take(at + 1).drop_last() =~= s@.take(at));
            assert(s@.take(at + 1).last() == c);
            at = at + 1;
        }
    }
    assert(s@.take(s@.len() as int) =~= s@);
    n
}

/// The first UTF-16 code unit of `s`; 0 where `s` is empty.
pub open spec fn utf16_first(s: Seq<char>) -> u16 {
    if s.len() == 0 {
        0
    } else if (s[0] as u32) < 0x1_0000 {
        (s[0] as u32) as u16
    } else {
        (0xd800 + (s[0] as u32 - 0x1_0000) / 0x400) as u16
    }
}

/// The first UTF-16 code unit of `s`; 0 where `s` is empty.
pub fn first_unit(s: &str) -> (r: u16)
    ensures
        r == utf16_first(s@),
{
    let chars = chars_of(s);
    if chars.len() == 0 {
        0
    } else {
        let c: u32 = chars[0] as u32;
        if c < 0x1_0000 {
            c as u16
        } else {
            (0xd800 + (c - 0x1_0000) / 0x400) as u16
        }
    }
}

// ── quoting ──────────────────────────────────────────────────────────────────────────────────

/// What `{:?}` writes for the text `s`: quotation marks, and escapes inside.
pub uninterp spec fn debug_quoted(s: Seq<char>) -> Seq<char>;

/// The `Debug` form of a `str`. Its result depends on the text alone and is named
/// [`debug_quoted`].
#[verifier::external_body]
pub(crate) fn quoted(s: &str) -> (r: String)
    ensures
        r@ == debug_quoted(s@),
{
    format!("{:?}", s)
}

/// What `{:?}` writes for optional text.
pub open spec fn debug_option(s: Option<Seq<char>>) -> Seq<char> {
    match s {
        Some(t) => "Some("@ + debug_quoted(t) + ")"@,
        None => "None"@,
    }
}

/// `head`, then the `Debug` form of `s`.
pub fn with_debug(head: &str, s: Option<&String>) -> (r: String)
    ensures
        r@ == head@ + debug_option(match s {
            Some(t) => Some(t@),
            None => None,
        }),
{
    let mut out = head.to_owned();
    match s {
        Some(t) => {
            out.append("Some(");
            out.append(quoted(t.as_str()).as_str());
            out.append(")");
            assert(out@ =~= head@ + debug_option(Some(t@)));
        },
        None => {
            out.append("None");
        },
    }
    out
}

/// `a`, then `b`.
pub fn joined(a: &str, b: &str) -> (r: String)
    ensures
        r@ == a@ + b@,
{
    let mut out = a.to_owned();
    out.append(b);
    out
}

// ── bytes ────────────────────────────────────────────────────────────────────────────────────

/// The text that bytes stand for, with a mark for what is not text.
pub uninterp spec fn lossy_text(bytes: Seq<u8>) -> Seq<char>;

/// `String::from_utf8_lossy`: bytes that are text stand for that text; what it makes of other bytes
/// depends on them alone and is named [`lossy_text`].
#[verifier::external_body]
pub(crate) fn lossy(bytes: &[u8]) -> (r: String)
    ensures
        r@ == lossy_text(bytes@),
        valid_utf8(bytes@) ==> r@ == decode_utf8(bytes@),
{
    String::from_utf8_lossy(bytes).into_owned()
}

}
