use vstd::prelude::*;

verus! {

/// The number of colour bits a WS2812 pixel takes.
pub const PIXEL_BITS: usize = 24;

/// The 24-bit word a WS2812 pixel expects for a colour: green in the top
/// byte, then red, then blue.
pub fn grb_word(r: u8, g: u8, b: u8) -> (w: u32)
    ensures
        w == g as int * 65536 + r as int * 256 + b as int,
{
    (g as u32) * 65536 + (r as u32) * 256 + (b as u32)
}

/// The bits of a colour word in the order they go out on the wire, the
/// most significant of the 24 first.
pub fn wire_bits(color: u32) -> (bits: Vec<bool>)
    ensures
        bits@.len() == PIXEL_BITS,
        forall|k: int| 0 <= k < PIXEL_BITS ==> bits@[k] == ((color >> ((23 - k) as u32)) & 1 == 1),
{
    let mut bits: Vec<bool> = Vec::new();
    let mut k: usize = 0;
    while k < PIXEL_BITS
        invariant
            k <= PIXEL_BITS,
            bits@.len() == k,
            forall|j: int| 0 <= j < k ==> bits@[j] == ((color >> ((23 - j) as u32)) & 1 == 1),
        decreases PIXEL_BITS - k,
    {
        let shift: u32 = (23 - k) as u32;
        bits.push((color >> shift) & 1 == 1);
        k = k + 1;
    }
    bits
}

} // verus!
