//! Vectors of three numbers, as they are laid out for the shader.
use vstd::prelude::*;

verus! {

/// A point, direction or colour.
///
/// Each coordinate is held as the 32 bits of its IEEE 754 single-precision
/// encoding: this crate lays numbers out for the shader and never calculates
/// with them.
#[derive(Clone, Copy, Debug, PartialEq, Eq, Structural)]
pub struct Vec3 {
    pub x: u32,
    pub y: u32,
    pub z: u32,
}

impl Vec3 {
    /// The four words that a vector takes up in a uniform block: its three
    /// coordinates and one word of padding, which encodes zero.
    pub open spec fn gl_words(self) -> Seq<u32> {
        seq![self.x, self.y, self.z, 0u32]
    }

    pub fn new(x: u32, y: u32, z: u32) -> (v: Vec3)
        ensures
            v == (Vec3 { x, y, z }),
    {
        Vec3 { x, y, z }
    }

    /// The vector padded to the four words of a uniform block.
    pub fn to_gl(&self) -> (words: [u32; 4])
        ensures
            words@ == self.gl_words(),
    {
        let words: [u32; 4] = [self.x, self.y, self.z, 0];
        assert(words@ =~= self.gl_words());
        words
    }
}

} // verus!
