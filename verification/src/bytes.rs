use vstd::prelude::*;

verus! {

/// The high byte of a 16-bit word, as it travels first on the wire
/// (big-endian order).
pub open spec fn hi_byte(w: u16) -> u8 {
    (w >> 8) as u8
}

/// The low byte of a 16-bit word, sent after the high byte.
pub open spec fn lo_byte(w: u16) -> u8 {
    (w & 0xff) as u8
}

/// The two bytes of a 16-bit word in big-endian order.
pub open spec fn be_bytes(w: u16) -> Seq<u8> {
    seq![hi_byte(w), lo_byte(w)]
}

/// Splits a word into its big-endian high byte.
pub fn hi_byte_of(w: u16) -> (r: u8)
    ensures
        r == hi_byte(w),
{
    proof {
        assert(w >> 8 < 256) by (bit_vector);
    }
    (w >> 8) as u8
}

/// Splits a word into its big-endian low byte.
pub fn lo_byte_of(w: u16) -> (r: u8)
    ensures
        r == lo_byte(w),
{
    proof {
        assert(w & 0xff < 256) by (bit_vector);
    }
    (w & 0xff) as u8
}

} // verus!
