//! The text of the result dialog.
use vstd::prelude::*;

use crate::utf16::{
    before_nul, decode, has_no_pair, is_high_surrogate, is_low_surrogate, is_surrogate,
    law_decoding_stops_at_nul, law_lone_surrogates_replaced, lemma_char_eq, scalar, unit_char,
    utf16_lossy,
};

verus! {

/// Number of UTF-16 code units, the terminating null included, read back
/// from the input field.
pub const CAPTURE_UNITS: usize = 4;

/// The dialog text for an entered value `iq`.
pub open spec fn result_text(iq: Seq<char>) -> Seq<char> {
    "あなたの IQ は "@ + iq + " です！"@
}

/// Relies on `String::push_str`: appends the characters of `t`.
#[verifier::external_body]
fn append(s: &mut String, t: &str)
    ensures
        final(s)@ == old(s)@ + t@,
{
    s.push_str(t)
}

/// The dialog text that echoes `iq`.
pub fn result_message(iq: &str) -> (r: String)
    ensures
        r@ == result_text(iq@),
{
    let mut r = "あなたの IQ は ".to_owned();
    append(&mut r, iq);
    append(&mut r, " です！");
    r
}

/// The dialog text for the code units read back from the input field: the
/// text before the first null unit, decoded lossily, echoed in the template.
pub fn dialog_text(units: &[u16]) -> (r: String)
    ensures
        r@ == result_text(utf16_lossy(before_nul(units@))),
{
    let iq = decode(units);
    result_message(iq.as_str())
}

/// Every character of `d` is a decimal digit.
pub open spec fn is_digits(d: Seq<char>) -> bool {
    forall|i: int| 0 <= i < d.len() ==> '0' <= #[trigger] d[i] <= '9'
}

/// A number short enough to fit in the capture buffer with its terminating
/// null, read back as its digits' code units followed by a null, is echoed
/// exactly in the dialog text.
pub proof fn law_short_number_echoed(d: Seq<char>, units: Seq<u16>)
    requires
        is_digits(d),
        units.len() == CAPTURE_UNITS,
        d.len() < units.len(),
        forall|i: int| 0 <= i < d.len() ==> #[trigger] units[i] as u32 == d[i] as u32,
        units[d.len() as int] == 0,
    ensures
        utf16_lossy(before_nul(units)) == d,
        result_text(utf16_lossy(before_nul(units))) == result_text(d),
{
    let head = units.take(d.len() as int);
    let tail = units.skip(d.len() as int + 1);
    assert(units =~= head + seq![0u16] + tail);
    assert forall|j: int| 0 <= j < head.len() implies head[j] != 0 by {
        assert(units[j] as u32 == d[j] as u32);
    }
    law_decoding_stops_at_nul(head, tail);
    assert forall|i: int| 0 <= i < head.len() - 1 implies !(#[trigger] is_high_surrogate(head[i])
        && is_low_surrogate(head[i + 1])) by {
        assert(units[i] as u32 == d[i] as u32);
    }
    assert(has_no_pair(head));
    law_lone_surrogates_replaced(head);
    assert forall|i: int| 0 <= i < d.len() implies utf16_lossy(head)[i] == d[i] by {
        assert(units[i] as u32 == d[i] as u32);
        assert(!is_surrogate(head[i]));
        assert(utf16_lossy(head)[i] == unit_char(head[i]));
        assert(scalar(head[i] as u32) as u32 == head[i] as u32);
        lemma_char_eq(scalar(head[i] as u32), d[i]);
    }
    assert(utf16_lossy(head) =~= d);
}

} // verus!
