//! The logic of a small desktop window that echoes the number typed into its
//! input field in a result dialog: routing of window messages, the order of
//! its setup steps, and the decoding and formatting of the entered text.
use vstd::prelude::*;

pub mod message;
pub mod utf16;
pub mod window;

verus! {

/// The low-order 16 bits of a 32-bit message parameter.
pub fn loword(l: u32) -> (r: u16)
    ensures
        r as int == l as int % 0x1_0000,
{
    assert(l & 0xffff == l % 0x1_0000) by (bit_vector);
    (l & 0xffff) as u16
}

} // verus!
