use vstd::prelude::*;

verus! {

/// A flat colour with three channels. Each channel is an opaque 32-bit
/// word (the bit pattern of the 32-bit float the GPU will read); the
/// builder stores and copies channels but never computes with them.
#[derive(Clone, Copy, Debug, PartialEq, Eq, Structural)]
pub struct Color {
    pub r: u32,
    pub g: u32,
    pub b: u32,
}

/// One vertex of a batch: a 2-D position and a flat colour. As in
/// [`Color`], each scalar is the opaque 32-bit word the GPU will read.
#[derive(Clone, Copy, Debug, PartialEq, Eq, Structural)]
pub struct Vertex {
    pub x: u32,
    pub y: u32,
    pub r: u32,
    pub g: u32,
    pub b: u32,
}

} // verus!
