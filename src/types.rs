pub mod rational;

use vstd::prelude::*;

verus! {

/// The big-endian reading of four bytes as one `u32`, as a four-character code is written.
pub fn dng_char4(input: [u8; 4]) -> (r: u32)
    ensures
        r as int == input[0] as int * 0x100_0000 + input[1] as int * 0x1_0000 + input[2] as int
            * 0x100 + input[3] as int,
{
    let a = input[0] as u32;
    let b = input[1] as u32;
    let c = input[2] as u32;
    let d = input[3] as u32;
    assert(a < 256 && b < 256 && c < 256 && d < 256 ==> a << 24 | b << 16 | c << 8 | d == a
        * 0x100_0000 + b * 0x1_0000 + c * 0x100 + d) by (bit_vector);
    a << 24 | b << 16 | c << 8 | d
}

/// The result of a colour query.
pub type Result<T> = core::result::Result<T, crate::errors::Error>;

} // verus!
