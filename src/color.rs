//! The packed 16-bit colour format (5 bits red, 6 bits green, 5 bits blue).

use vstd::prelude::*;

verus! {

/// One decoded colour, eight bits per channel.
#[derive(Clone, Copy, Debug, PartialEq, Eq, Structural)]
pub struct Rgb565 {
    pub r: u8,
    pub g: u8,
    pub b: u8,
}

/// Widens a 5-bit channel to 8 bits by repeating its high bits below it.
pub open spec fn expand5(c: int) -> int {
    c * 8 + c / 4
}

/// Widens a 6-bit channel to 8 bits by repeating its high bits below it.
pub open spec fn expand6(c: int) -> int {
    c * 4 + c / 16
}

/// The colour that a packed value stands for.
pub open spec fn rgb565_of(v: u16) -> Rgb565 {
    Rgb565 {
        r: expand5(v as int / 2048) as u8,
        g: expand6((v as int / 32) % 64) as u8,
        b: expand5(v as int % 32) as u8,
    }
}

impl Rgb565 {
    /// Decodes a packed value; every one of the 65536 values decodes.
    pub fn from_packed(v: u16) -> (c: Rgb565)
        ensures
            c == rgb565_of(v),
    {
        let r5: u16 = v / 2048;
        let g6: u16 = (v / 32) % 64;
        let b5: u16 = v % 32;
        Rgb565 {
            r: (r5 * 8 + r5 / 4) as u8,
            g: (g6 * 4 + g6 / 16) as u8,
            b: (b5 * 8 + b5 / 4) as u8,
        }
    }

    pub fn r(&self) -> (r: u8)
        ensures
            r == self.r,
    {
        self.r
    }

    pub fn g(&self) -> (g: u8)
        ensures
            g == self.g,
    {
        self.g
    }

    pub fn b(&self) -> (b: u8)
        ensures
            b == self.b,
    {
        self.b
    }
}

} // verus!
