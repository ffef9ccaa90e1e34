//! Lossy decoding of a fixed buffer of UTF-16 code units, as read back from
//! a text control: the text ends at the first null unit or at the end of the
//! buffer, and every unit that does not belong to a well-formed sequence
//! becomes U+FFFD.
use vstd::prelude::*;

verus! {

/// The character that stands in for an ill-formed code unit.
pub const REPLACEMENT: char = '\u{FFFD}';

pub open spec fn is_high_surrogate(u: u16) -> bool {
    0xD800 <= u <= 0xDBFF
}

pub open spec fn is_low_surrogate(u: u16) -> bool {
    0xDC00 <= u <= 0xDFFF
}

pub open spec fn is_surrogate(u: u16) -> bool {
    0xD800 <= u <= 0xDFFF
}

/// A Unicode scalar value: a code point that is not a surrogate.
pub open spec fn is_scalar_value(v: u32) -> bool {
    v < 0xD800 || (0xE000 <= v && v <= 0x10FFFF)
}

/// The character whose code point is `v`.
pub open spec fn scalar(v: u32) -> char {
    choose|c: char| #[trigger] (c as u32) == v
}

/// The code point that a high and a low surrogate encode together.
pub open spec fn pair_code_point(hi: u16, lo: u16) -> u32 {
    (0x10000 + (hi - 0xD800) * 0x400 + (lo - 0xDC00)) as u32
}

/// The units of `s` that come before its first null unit (all of `s` if it
/// holds none).
pub open spec fn before_nul(s: Seq<u16>) -> Seq<u16>
    decreases s.len(),
{
    if s.len() == 0 || s[0] == 0 {
        Seq::empty()
    } else {
        seq![s[0]] + before_nul(s.drop_first())
    }
}

/// Lossy UTF-16 decoding: a high surrogate followed by a low one gives the
/// character they encode; any other surrogate gives `REPLACEMENT`; any other
/// unit gives the character of the same value.
pub open spec fn utf16_lossy(s: Seq<u16>) -> Seq<char>
    decreases s.len(),
{
    if s.len() == 0 {
        Seq::empty()
    } else if s.len() >= 2 && is_high_surrogate(s[0]) && is_low_surrogate(s[1]) {
        seq![scalar(pair_code_point(s[0], s[1]))] + utf16_lossy(s.skip(2))
    } else if is_surrogate(s[0]) {
        seq![REPLACEMENT] + utf16_lossy(s.drop_first())
    } else {
        seq![scalar(s[0] as u32)] + utf16_lossy(s.drop_first())
    }
}

/// The character that a single unit decodes to where it is not part of a
/// pair.
pub open spec fn unit_char(u: u16) -> char {
    if is_surrogate(u) {
        REPLACEMENT
    } else {
        scalar(u as u32)
    }
}

/// No unit of `s` is a high surrogate directly followed by a low one.
pub open spec fn has_no_pair(s: Seq<u16>) -> bool {
    forall|i: int|
        0 <= i < s.len() - 1 ==> !(#[trigger] is_high_surrogate(s[i]) && is_low_surrogate(
            s[i + 1],
        ))
}

/// Relies on `char::from_u32`: `Some` exactly for a scalar value, holding the
/// character of that code point.
#[verifier::external_body]
fn char_from_u32(v: u32) -> (r: Option<char>)
    ensures
        r is Some <==> is_scalar_value(v),
        r matches Some(c) ==> c as u32 == v,
{
    char::from_u32(v)
}

/// Relies on `String::push`: appends one character.
#[verifier::external_body]
fn push_char(s: &mut String, c: char)
    ensures
        final(s)@ == old(s)@.push(c),
{
    s.push(c)
}

pub(crate) proof fn lemma_char_eq(a: char, b: char)
    requires
        a as u32 == b as u32,
    ensures
        a == b,
{
}

proof fn lemma_before_nul_is_prefix(s: Seq<u16>, n: int)
    requires
        0 <= n <= s.len(),
        forall|j: int| 0 <= j < n ==> s[j] != 0,
        n == s.len() || s[n] == 0,
    ensures
        before_nul(s) == s.take(n),
    decreases n,
{
    if n == 0 {
        assert(s.take(0) =~= Seq::<u16>::empty());
    } else {
        let t = s.drop_first();
        assert forall|j: int| 0 <= j < n - 1 implies t[j] != 0 by {
            assert(t[j] == s[j + 1]);
        }
        lemma_before_nul_is_prefix(t, n - 1);
        assert(s.take(n) =~= seq![s[0]] + t.take(n - 1));
    }
}

/// The character that a unit which is not a surrogate stands for.
fn bmp_char(u: u16) -> (c: char)
    requires
        !is_surrogate(u),
    ensures
        c == scalar(u as u32),
{
    match char_from_u32(u as u32) {
        Some(c) => {
            assert(scalar(u as u32) as u32 == u as u32);
            proof {
                lemma_char_eq(c, scalar(u as u32));
            }
            c
        },
        None => REPLACEMENT,
    }
}

/// The character that a high and a low surrogate encode together.
fn pair_char(hi: u16, lo: u16) -> (c: char)
    requires
        is_high_surrogate(hi),
        is_low_surrogate(lo),
    ensures
        c == scalar(pair_code_point(hi, lo)),
{
    let v: u32 = 0x10000 + (hi as u32 - 0xD800) * 0x400 + (lo as u32 - 0xDC00);
    assert(v == pair_code_point(hi, lo));
    match char_from_u32(v) {
        Some(c) => {
            assert(scalar(v) as u32 == v);
            proof {
                lemma_char_eq(c, scalar(v));
            }
            c
        },
        None => REPLACEMENT,
    }
}

/// Decodes the text held in `source`: the units before the first null unit,
/// decoded lossily. Never fails.
pub fn decode(source: &[u16]) -> (r: String)
    ensures
        r@ == utf16_lossy(before_nul(source@)),
{
    let mut n: usize = 0;
    while n < source.len() && source[n] != 0
        invariant
            n <= source@.len(),
            forall|j: int| 0 <= j < n ==> source@[j] != 0,
        decreases source.len() - n,
    {
        n = n + 1;
    }
    proof {
        lemma_before_nul_is_prefix(source@, n as int);
    }
    let ghost units = source@.take(n as int);
    let mut out = String::new();
    let mut i: usize = 0;
    assert(units.subrange(0, n as int) =~= units);
    while i < n
        invariant
            n <= source@.len(),
            i <= n,
            units == source@.take(n as int),
            out@ + utf16_lossy(units.subrange(i as int, n as int)) == utf16_lossy(units),
        decreases n - i,
    {
        let ghost rest = units.subrange(i as int, n as int);
        let u = source[i];
        assert(rest[0] == u);
        if i + 1 < n && 0xD800 <= u && u <= 0xDBFF && 0xDC00 <= source[i + 1] && source[i + 1]
            <= 0xDFFF {
            assert(rest[1] == source@[i + 1]);
            let c = pair_char(u, source[i + 1]);
            push_char(&mut out, c);
            assert(rest.skip(2) =~= units.subrange(i + 2, n as int));
            i = i + 2;
        } else {
            if 0xD800 <= u && u <= 0xDFFF {
                push_char(&mut out, REPLACEMENT);
            } else {
                let c = bmp_char(u);
                push_char(&mut out, c);
            }
            assert(rest.drop_first() =~= units.subrange(i + 1, n as int));
            i = i + 1;
        }
        assert(out@ + utf16_lossy(units.subrange(i as int, n as int)) =~= utf16_lossy(units));
    }
    assert(units.subrange(n as int, n as int) =~= Seq::<u16>::empty());
    assert(out@ + Seq::<char>::empty() =~= out@);
    out
}

proof fn lemma_before_nul_is_bounded(s: Seq<u16>)
    ensures
        before_nul(s).len() <= s.len(),
        before_nul(s) == s.take(before_nul(s).len() as int),
    decreases s.len(),
{
    if s.len() == 0 || s[0] == 0 {
        assert(s.take(0) =~= Seq::<u16>::empty());
    } else {
        let t = s.drop_first();
        lemma_before_nul_is_bounded(t);
        let k = before_nul(t).len() as int;
        assert(s.take(k + 1) =~= seq![s[0]] + t.take(k));
    }
}

proof fn lemma_lossy_len(s: Seq<u16>)
    ensures
        utf16_lossy(s).len() <= s.len(),
    decreases s.len(),
{
    if s.len() == 0 {
    } else if s.len() >= 2 && is_high_surrogate(s[0]) && is_low_surrogate(s[1]) {
        lemma_lossy_len(s.skip(2));
    } else {
        lemma_lossy_len(s.drop_first());
    }
}

/// The decoded text never reaches past the buffer: it is the decoding of a
/// prefix of the buffer, and has no more characters than the buffer has
/// units.
pub proof fn law_decoding_stays_in_buffer(s: Seq<u16>)
    ensures
        before_nul(s) == s.take(before_nul(s).len() as int),
        before_nul(s).len() <= s.len(),
        utf16_lossy(before_nul(s)).len() <= s.len(),
{
    lemma_before_nul_is_bounded(s);
    lemma_lossy_len(before_nul(s));
}

/// The decoded text stops at the first null unit: whatever follows it is
/// never read.
pub proof fn law_decoding_stops_at_nul(head: Seq<u16>, tail: Seq<u16>)
    requires
        forall|j: int| 0 <= j < head.len() ==> head[j] != 0,
    ensures
        before_nul(head + seq![0u16] + tail) == head,
        utf16_lossy(before_nul(head + seq![0u16] + tail)) == utf16_lossy(head),
{
    let s = head + seq![0u16] + tail;
    assert forall|j: int| 0 <= j < head.len() implies s[j] != 0 by {
        assert(s[j] == head[j]);
    }
    assert(s[head.len() as int] == 0);
    lemma_before_nul_is_prefix(s, head.len() as int);
    assert(s.take(head.len() as int) =~= head);
}

/// Where no high surrogate is directly followed by a low one, decoding goes
/// unit by unit: each surrogate becomes exactly one `REPLACEMENT` and every
/// other unit the character of its value. Decoding never fails.
pub proof fn law_lone_surrogates_replaced(s: Seq<u16>)
    requires
        has_no_pair(s),
    ensures
        utf16_lossy(s).len() == s.len(),
        forall|i: int| 0 <= i < s.len() ==> #[trigger] utf16_lossy(s)[i] == unit_char(s[i]),
    decreases s.len(),
{
    if s.len() > 0 {
        let t = s.drop_first();
        assert(!(s.len() >= 2 && is_high_surrogate(s[0]) && is_low_surrogate(s[1]))) by {
            if s.len() >= 2 {
                assert(!(is_high_surrogate(s[0]) && is_low_surrogate(s[0int + 1])));
            }
        }
        assert forall|i: int| 0 <= i < t.len() - 1 implies !(#[trigger] is_high_surrogate(t[i])
            && is_low_surrogate(t[i + 1])) by {
            assert(t[i] == s[i + 1] && t[i + 1] == s[(i + 1) + 1]);
            assert(!(is_high_surrogate(s[i + 1]) && is_low_surrogate(s[(i + 1) + 1])));
        }
        law_lone_surrogates_replaced(t);
        assert forall|i: int| 0 <= i < s.len() implies #[trigger] utf16_lossy(s)[i] == unit_char(
            s[i],
        ) by {
            if i > 0 {
                assert(utf16_lossy(s)[i] == utf16_lossy(t)[i - 1]);
                assert(t[i - 1] == s[i]);
            }
        }
    }
}

} // verus!
