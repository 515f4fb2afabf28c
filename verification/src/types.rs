//! The payload types of the value kinds.
//!
//! A real number is held by the bit pattern of its IEEE 754 encoding, so that
//! every value is carried without loss and compared bit for bit.

use vstd::prelude::*;

verus! {

/// A real number in single precision, held by its 32 bits.
#[derive(Debug, Clone, Copy, PartialEq, Eq, Structural)]
pub struct Float32 {
    pub bits: u32,
}

/// A real number in double precision, held by its 64 bits.
#[derive(Debug, Clone, Copy, PartialEq, Eq, Structural)]
pub struct Float64 {
    pub bits: u64,
}

impl Float32 {
    /// The number with the given bit pattern.
    pub fn from_bits(bits: u32) -> (number: Float32)
        ensures
            number.bits == bits,
    {
        Float32 { bits }
    }

    /// The bit pattern of the number.
    pub fn to_bits(self) -> (bits: u32)
        ensures
            bits == self.bits,
    {
        self.bits
    }
}

impl Float64 {
    /// The number with the given bit pattern.
    pub fn from_bits(bits: u64) -> (number: Float64)
        ensures
            number.bits == bits,
    {
        Float64 { bits }
    }

    /// The bit pattern of the number.
    pub fn to_bits(self) -> (bits: u64)
        ensures
            bits == self.bits,
    {
        self.bits
    }
}

/// A set of the three coordinate axes: bit 0 stands for X, bit 1 for Y and
/// bit 2 for Z.
#[derive(Debug, Clone, Copy, PartialEq, Eq, Structural)]
pub struct Axes {
    bits: u8,
}

impl Axes {
    /// The largest bit pattern that names axes only.
    pub const ALL: u8 = 7;

    #[verifier::type_invariant]
    closed spec fn in_range(self) -> bool {
        self.bits <= Axes::ALL
    }

    /// The bit pattern of the set.
    pub closed spec fn spec_bits(self) -> u8 {
        self.bits
    }

    /// The set with the given bit pattern, if the pattern names axes only.
    pub fn from_bits(bits: u8) -> (axes: Option<Axes>)
        ensures
            axes is Some <==> bits <= Axes::ALL,
            axes is Some ==> axes->0.spec_bits() == bits,
    {
        if bits <= Axes::ALL {
            Some(Axes { bits })
        } else {
            None
        }
    }

    /// The bit pattern of the set.
    pub fn bits(self) -> (bits: u8)
        ensures
            bits == self.spec_bits(),
            bits <= Axes::ALL,
    {
        proof {
            use_type_invariant(self);
        }
        self.bits
    }
}

/// A set of the six faces of a box: the bits 0 to 5 stand for right, top,
/// back, left, bottom and front.
#[derive(Debug, Clone, Copy, PartialEq, Eq, Structural)]
pub struct Faces {
    bits: u8,
}

impl Faces {
    /// The largest bit pattern that names faces only.
    pub const ALL: u8 = 63;

    #[verifier::type_invariant]
    closed spec fn in_range(self) -> bool {
        self.bits <= Faces::ALL
    }

    /// The bit pattern of the set.
    pub closed spec fn spec_bits(self) -> u8 {
        self.bits
    }

    /// The set with the given bit pattern, if the pattern names faces only.
    pub fn from_bits(bits: u8) -> (faces: Option<Faces>)
        ensures
            faces is Some <==> bits <= Faces::ALL,
            faces is Some ==> faces->0.spec_bits() == bits,
    {
        if bits <= Faces::ALL {
            Some(Faces { bits })
        } else {
            None
        }
    }

    /// The bit pattern of the set.
    pub fn bits(self) -> (bits: u8)
        ensures
            bits == self.spec_bits(),
            bits <= Faces::ALL,
    {
        proof {
            use_type_invariant(self);
        }
        self.bits
    }
}

/// A string of bytes that need not be text.
#[derive(Debug, Clone, PartialEq, Eq)]
pub struct BinaryString {
    pub buffer: Vec<u8>,
}

/// A colour of the fixed palette, by its number in the palette.
#[derive(Debug, Clone, Copy, PartialEq, Eq, Structural)]
pub struct BrickColor {
    pub number: u16,
}

/// A vector in the plane.
#[derive(Debug, Clone, Copy, PartialEq, Eq, Structural)]
pub struct Vector2 {
    pub x: Float32,
    pub y: Float32,
}

/// A vector in the plane with integer components.
#[derive(Debug, Clone, Copy, PartialEq, Eq, Structural)]
pub struct Vector2int16 {
    pub x: i16,
    pub y: i16,
}

/// A vector in space.
#[derive(Debug, Clone, Copy, PartialEq, Eq, Structural)]
pub struct Vector3 {
    pub x: Float32,
    pub y: Float32,
    pub z: Float32,
}

/// A vector in space with integer components.
#[derive(Debug, Clone, Copy, PartialEq, Eq, Structural)]
pub struct Vector3int16 {
    pub x: i16,
    pub y: i16,
    pub z: i16,
}

/// A rotation, by the three vectors onto which it sends the axes.
#[derive(Debug, Clone, Copy, PartialEq, Eq, Structural)]
pub struct Matrix3 {
    pub x: Vector3,
    pub y: Vector3,
    pub z: Vector3,
}

/// A position with an orientation.
#[derive(Debug, Clone, Copy, PartialEq, Eq, Structural)]
pub struct CFrame {
    pub position: Vector3,
    pub orientation: Matrix3,
}

/// A colour with real components.
#[derive(Debug, Clone, Copy, PartialEq, Eq, Structural)]
pub struct Color3 {
    pub r: Float32,
    pub g: Float32,
    pub b: Float32,
}

/// A colour with byte components.
#[derive(Debug, Clone, Copy, PartialEq, Eq, Structural)]
pub struct Color3uint8 {
    pub r: u8,
    pub g: u8,
    pub b: u8,
}

/// One point of a colour gradient.
#[derive(Debug, Clone, Copy, PartialEq, Eq, Structural)]
pub struct ColorSequenceKeypoint {
    pub time: Float32,
    pub color: Color3,
}

/// A colour gradient, by its points in order.
#[derive(Debug, Clone, PartialEq, Eq)]
pub struct ColorSequence {
    pub keypoints: Vec<ColorSequenceKeypoint>,
}

/// One item of an enumeration, by its number.
#[derive(Debug, Clone, Copy, PartialEq, Eq, Structural)]
pub struct EnumValue {
    pub value: u32,
}

/// An interval of numbers.
#[derive(Debug, Clone, Copy, PartialEq, Eq, Structural)]
pub struct NumberRange {
    pub min: Float32,
    pub max: Float32,
}

/// One point of a number sequence.
#[derive(Debug, Clone, Copy, PartialEq, Eq, Structural)]
pub struct NumberSequenceKeypoint {
    pub time: Float32,
    pub value: Float32,
    pub envelope: Float32,
}

/// A number that changes along a line, by its points in order.
#[derive(Debug, Clone, PartialEq, Eq)]
pub struct NumberSequence {
    pub keypoints: Vec<NumberSequenceKeypoint>,
}

/// The physical behaviour of a part, where it is set by hand.
#[derive(Debug, Clone, Copy, PartialEq, Eq, Structural)]
pub struct CustomPhysicalProperties {
    pub density: Float32,
    pub friction: Float32,
    pub elasticity: Float32,
    pub friction_weight: Float32,
    pub elasticity_weight: Float32,
}

/// The physical behaviour of a part: that of its material, or one set by
/// hand.
#[derive(Debug, Clone, Copy, PartialEq, Eq, Structural)]
pub enum PhysicalProperties {
    Default,
    Custom(CustomPhysicalProperties),
}

/// A half-line in space.
#[derive(Debug, Clone, Copy, PartialEq, Eq, Structural)]
pub struct Ray {
    pub origin: Vector3,
    pub direction: Vector3,
}

/// A rectangle in the plane, by two opposite corners.
#[derive(Debug, Clone, Copy, PartialEq, Eq, Structural)]
pub struct Rect {
    pub min: Vector2,
    pub max: Vector2,
}

/// A reference to an object, by the object's number. The number zero refers
/// to no object.
#[derive(Debug, Clone, Copy, PartialEq, Eq, Structural)]
pub struct Ref {
    pub id: u128,
}

impl Ref {
    /// The reference to no object.
    pub fn none() -> (reference: Ref)
        ensures
            reference.id == 0,
    {
        Ref { id: 0 }
    }

    /// Whether the reference refers to an object.
    pub fn is_some(self) -> (some: bool)
        ensures
            some == (self.id != 0),
    {
        self.id != 0
    }
}

/// A string of bytes that many properties share.
#[derive(Debug, Clone, PartialEq, Eq)]
pub struct SharedString {
    pub data: Vec<u8>,
}

/// A length: a share of the length of the parent, and a number of pixels.
#[derive(Debug, Clone, Copy, PartialEq, Eq, Structural)]
pub struct UDim {
    pub scale: Float32,
    pub offset: i32,
}

/// A pair of lengths, one per screen axis.
#[derive(Debug, Clone, Copy, PartialEq, Eq, Structural)]
pub struct UDim2 {
    pub x: UDim,
    pub y: UDim,
}

} // verus!
