//! The tagged value that holds the value of any property, and its tag.

use vstd::prelude::*;
use vstd::std_specs::convert::{FromSpec, FromSpecImpl};

use crate::types::{
    Axes, BinaryString, BrickColor, CFrame, Color3, Color3uint8, ColorSequence, EnumValue, Faces,
    Float32, Float64, NumberRange, NumberSequence, PhysicalProperties, Ray, Rect, Ref,
    SharedString, UDim, UDim2, Vector2, Vector2int16, Vector3, Vector3int16,
};

verus! {

/// A value of any of the kinds that a property can hold: exactly one payload
/// of exactly one kind.
#[derive(Debug, Clone, PartialEq)]
#[non_exhaustive]
pub enum Variant {
    /// A set of coordinate axes.
    Axes(Axes),
    /// A string of bytes.
    BinaryString(BinaryString),
    /// A colour of the fixed palette.
    BrickColor(BrickColor),
    /// A truth value.
    Bool(bool),
    /// A position with an orientation.
    CFrame(CFrame),
    /// A colour with real components.
    Color3(Color3),
    /// A colour with byte components.
    Color3uint8(Color3uint8),
    /// A colour gradient.
    ColorSequence(ColorSequence),
    /// A reference to an asset, by its address.
    Content(String),
    /// One item of an enumeration, by its number.
    EnumValue(EnumValue),
    /// A set of faces of a box.
    Faces(Faces),
    /// A real number in single precision.
    Float32(Float32),
    /// A real number in double precision.
    Float64(Float64),
    /// A signed 32-bit integer.
    Int32(i32),
    /// A signed 64-bit integer.
    Int64(i64),
    /// An interval of numbers.
    NumberRange(NumberRange),
    /// A number that changes along a line.
    NumberSequence(NumberSequence),
    /// The physical behaviour of a part.
    PhysicalProperties(PhysicalProperties),
    /// A half-line in space.
    Ray(Ray),
    /// A rectangle in the plane.
    Rect(Rect),
    /// A reference to an object.
    Ref(Ref),
    /// A string of bytes that many properties share.
    SharedString(SharedString),
    /// A text.
    String(String),
    /// A length, part relative and part absolute.
    UDim(UDim),
    /// A pair of lengths, one per screen axis.
    UDim2(UDim2),
    /// A vector in the plane.
    Vector2(Vector2),
    /// A vector in the plane with integer components.
    Vector2int16(Vector2int16),
    /// A vector in space.
    Vector3(Vector3),
    /// A vector in space with integer components.
    Vector3int16(Vector3int16),
}

/// The kind of a `Variant`, without its payload.
#[derive(Debug, Clone, Copy, PartialEq, Eq, Structural)]
#[non_exhaustive]
pub enum VariantType {
    Axes,
    BinaryString,
    BrickColor,
    Bool,
    CFrame,
    Color3,
    Color3uint8,
    ColorSequence,
    Content,
    EnumValue,
    Faces,
    Float32,
    Float64,
    Int32,
    Int64,
    NumberRange,
    NumberSequence,
    PhysicalProperties,
    Ray,
    Rect,
    Ref,
    SharedString,
    String,
    UDim,
    UDim2,
    Vector2,
    Vector2int16,
    Vector3,
    Vector3int16,
}

impl View for Variant {
    type V = Variant;

    open spec fn view(&self) -> Variant {
        *self
    }
}

impl Variant {
    /// The kind of this value.
    pub open spec fn kind(self) -> VariantType {
        match self {
            Variant::Axes(_) => VariantType::Axes,
            Variant::BinaryString(_) => VariantType::BinaryString,
            Variant::BrickColor(_) => VariantType::BrickColor,
            Variant::Bool(_) => VariantType::Bool,
            Variant::CFrame(_) => VariantType::CFrame,
            Variant::Color3(_) => VariantType::Color3,
            Variant::Color3uint8(_) => VariantType::Color3uint8,
            Variant::ColorSequence(_) => VariantType::ColorSequence,
            Variant::Content(_) => VariantType::Content,
            Variant::EnumValue(_) => VariantType::EnumValue,
            Variant::Faces(_) => VariantType::Faces,
            Variant::Float32(_) => VariantType::Float32,
            Variant::Float64(_) => VariantType::Float64,
            Variant::Int32(_) => VariantType::Int32,
            Variant::Int64(_) => VariantType::Int64,
            Variant::NumberRange(_) => VariantType::NumberRange,
            Variant::NumberSequence(_) => VariantType::NumberSequence,
            Variant::PhysicalProperties(_) => VariantType::PhysicalProperties,
            Variant::Ray(_) => VariantType::Ray,
            Variant::Rect(_) => VariantType::Rect,
            Variant::Ref(_) => VariantType::Ref,
            Variant::SharedString(_) => VariantType::SharedString,
            Variant::String(_) => VariantType::String,
            Variant::UDim(_) => VariantType::UDim,
            Variant::UDim2(_) => VariantType::UDim2,
            Variant::Vector2(_) => VariantType::Vector2,
            Variant::Vector2int16(_) => VariantType::Vector2int16,
            Variant::Vector3(_) => VariantType::Vector3,
            Variant::Vector3int16(_) => VariantType::Vector3int16,
        }
    }

    /// The kind of this value.
    pub fn ty(&self) -> (kind: VariantType)
        ensures
            kind == self.kind(),
    {
        match self {
            Variant::Axes(_) => VariantType::Axes,
            Variant::BinaryString(_) => VariantType::BinaryString,
            Variant::BrickColor(_) => VariantType::BrickColor,
            Variant::Bool(_) => VariantType::Bool,
            Variant::CFrame(_) => VariantType::CFrame,
            Variant::Color3(_) => VariantType::Color3,
            Variant::Color3uint8(_) => VariantType::Color3uint8,
            Variant::ColorSequence(_) => VariantType::ColorSequence,
            Variant::Content(_) => VariantType::Content,
            Variant::EnumValue(_) => VariantType::EnumValue,
            Variant::Faces(_) => VariantType::Faces,
            Variant::Float32(_) => VariantType::Float32,
            Variant::Float64(_) => VariantType::Float64,
            Variant::Int32(_) => VariantType::Int32,
            Variant::Int64(_) => VariantType::Int64,
            Variant::NumberRange(_) => VariantType::NumberRange,
            Variant::NumberSequence(_) => VariantType::NumberSequence,
            Variant::PhysicalProperties(_) => VariantType::PhysicalProperties,
            Variant::Ray(_) => VariantType::Ray,
            Variant::Rect(_) => VariantType::Rect,
            Variant::Ref(_) => VariantType::Ref,
            Variant::SharedString(_) => VariantType::SharedString,
            Variant::String(_) => VariantType::String,
            Variant::UDim(_) => VariantType::UDim,
            Variant::UDim2(_) => VariantType::UDim2,
            Variant::Vector2(_) => VariantType::Vector2,
            Variant::Vector2int16(_) => VariantType::Vector2int16,
            Variant::Vector3(_) => VariantType::Vector3,
            Variant::Vector3int16(_) => VariantType::Vector3int16,
        }
    }
}

impl From<Axes> for Variant {
    fn from(value: Axes) -> (variant: Variant) {
        Variant::Axes(value)
    }
}

impl FromSpecImpl<Axes> for Variant {
    open spec fn obeys_from_spec() -> bool {
        true
    }

    open spec fn from_spec(value: Axes) -> Variant {
        Variant::Axes(value)
    }
}

impl From<BinaryString> for Variant {
    fn from(value: BinaryString) -> (variant: Variant) {
        Variant::BinaryString(value)
    }
}

impl FromSpecImpl<BinaryString> for Variant {
    open spec fn obeys_from_spec() -> bool {
        true
    }

    open spec fn from_spec(value: BinaryString) -> Variant {
        Variant::BinaryString(value)
    }
}

impl From<BrickColor> for Variant {
    fn from(value: BrickColor) -> (variant: Variant) {
        Variant::BrickColor(value)
    }
}

impl FromSpecImpl<BrickColor> for Variant {
    open spec fn obeys_from_spec() -> bool {
        true
    }

    open spec fn from_spec(value: BrickColor) -> Variant {
        Variant::BrickColor(value)
    }
}

impl From<bool> for Variant {
    fn from(value: bool) -> (variant: Variant) {
        Variant::Bool(value)
    }
}

impl FromSpecImpl<bool> for Variant {
    open spec fn obeys_from_spec() -> bool {
        true
    }

    open spec fn from_spec(value: bool) -> Variant {
        Variant::Bool(value)
    }
}

impl From<CFrame> for Variant {
    fn from(value: CFrame) -> (variant: Variant) {
        Variant::CFrame(value)
    }
}

impl FromSpecImpl<CFrame> for Variant {
    open spec fn obeys_from_spec() -> bool {
        true
    }

    open spec fn from_spec(value: CFrame) -> Variant {
        Variant::CFrame(value)
    }
}

impl From<Color3> for Variant {
    fn from(value: Color3) -> (variant: Variant) {
        Variant::Color3(value)
    }
}

impl FromSpecImpl<Color3> for Variant {
    open spec fn obeys_from_spec() -> bool {
        true
    }

    open spec fn from_spec(value: Color3) -> Variant {
        Variant::Color3(value)
    }
}

impl From<Color3uint8> for Variant {
    fn from(value: Color3uint8) -> (variant: Variant) {
        Variant::Color3uint8(value)
    }
}

impl FromSpecImpl<Color3uint8> for Variant {
    open spec fn obeys_from_spec() -> bool {
        true
    }

    open spec fn from_spec(value: Color3uint8) -> Variant {
        Variant::Color3uint8(value)
    }
}

impl From<ColorSequence> for Variant {
    fn from(value: ColorSequence) -> (variant: Variant) {
        Variant::ColorSequence(value)
    }
}

impl FromSpecImpl<ColorSequence> for Variant {
    open spec fn obeys_from_spec() -> bool {
        true
    }

    open spec fn from_spec(value: ColorSequence) -> Variant {
        Variant::ColorSequence(value)
    }
}

impl From<EnumValue> for Variant {
    fn from(value: EnumValue) -> (variant: Variant) {
        Variant::EnumValue(value)
    }
}

impl FromSpecImpl<EnumValue> for Variant {
    open spec fn obeys_from_spec() -> bool {
        true
    }

    open spec fn from_spec(value: EnumValue) -> Variant {
        Variant::EnumValue(value)
    }
}

impl From<Faces> for Variant {
    fn from(value: Faces) -> (variant: Variant) {
        Variant::Faces(value)
    }
}

impl FromSpecImpl<Faces> for Variant {
    open spec fn obeys_from_spec() -> bool {
        true
    }

    open spec fn from_spec(value: Faces) -> Variant {
        Variant::Faces(value)
    }
}

impl From<Float32> for Variant {
    fn from(value: Float32) -> (variant: Variant) {
        Variant::Float32(value)
    }
}

impl FromSpecImpl<Float32> for Variant {
    open spec fn obeys_from_spec() -> bool {
        true
    }

    open spec fn from_spec(value: Float32) -> Variant {
        Variant::Float32(value)
    }
}

impl From<Float64> for Variant {
    fn from(value: Float64) -> (variant: Variant) {
        Variant::Float64(value)
    }
}

impl FromSpecImpl<Float64> for Variant {
    open spec fn obeys_from_spec() -> bool {
        true
    }

    open spec fn from_spec(value: Float64) -> Variant {
        Variant::Float64(value)
    }
}

impl From<i32> for Variant {
    fn from(value: i32) -> (variant: Variant) {
        Variant::Int32(value)
    }
}

impl FromSpecImpl<i32> for Variant {
    open spec fn obeys_from_spec() -> bool {
        true
    }

    open spec fn from_spec(value: i32) -> Variant {
        Variant::Int32(value)
    }
}

impl From<i64> for Variant {
    fn from(value: i64) -> (variant: Variant) {
        Variant::Int64(value)
    }
}

impl FromSpecImpl<i64> for Variant {
    open spec fn obeys_from_spec() -> bool {
        true
    }

    open spec fn from_spec(value: i64) -> Variant {
        Variant::Int64(value)
    }
}

impl From<NumberRange> for Variant {
    fn from(value: NumberRange) -> (variant: Variant) {
        Variant::NumberRange(value)
    }
}

impl FromSpecImpl<NumberRange> for Variant {
    open spec fn obeys_from_spec() -> bool {
        true
    }

    open spec fn from_spec(value: NumberRange) -> Variant {
        Variant::NumberRange(value)
    }
}

impl From<NumberSequence> for Variant {
    fn from(value: NumberSequence) -> (variant: Variant) {
        Variant::NumberSequence(value)
    }
}

impl FromSpecImpl<NumberSequence> for Variant {
    open spec fn obeys_from_spec() -> bool {
        true
    }

    open spec fn from_spec(value: NumberSequence) -> Variant {
        Variant::NumberSequence(value)
    }
}

impl From<PhysicalProperties> for Variant {
    fn from(value: PhysicalProperties) -> (variant: Variant) {
        Variant::PhysicalProperties(value)
    }
}

impl FromSpecImpl<PhysicalProperties> for Variant {
    open spec fn obeys_from_spec() -> bool {
        true
    }

    open spec fn from_spec(value: PhysicalProperties) -> Variant {
        Variant::PhysicalProperties(value)
    }
}

impl From<Ray> for Variant {
    fn from(value: Ray) -> (variant: Variant) {
        Variant::Ray(value)
    }
}

impl FromSpecImpl<Ray> for Variant {
    open spec fn obeys_from_spec() -> bool {
        true
    }

    open spec fn from_spec(value: Ray) -> Variant {
        Variant::Ray(value)
    }
}

impl From<Rect> for Variant {
    fn from(value: Rect) -> (variant: Variant) {
        Variant::Rect(value)
    }
}

impl FromSpecImpl<Rect> for Variant {
    open spec fn obeys_from_spec() -> bool {
        true
    }

    open spec fn from_spec(value: Rect) -> Variant {
        Variant::Rect(value)
    }
}

impl From<Ref> for Variant {
    fn from(value: Ref) -> (variant: Variant) {
        Variant::Ref(value)
    }
}

impl FromSpecImpl<Ref> for Variant {
    open spec fn obeys_from_spec() -> bool {
        true
    }

    open spec fn from_spec(value: Ref) -> Variant {
        Variant::Ref(value)
    }
}

impl From<SharedString> for Variant {
    fn from(value: SharedString) -> (variant: Variant) {
        Variant::SharedString(value)
    }
}

impl FromSpecImpl<SharedString> for Variant {
    open spec fn obeys_from_spec() -> bool {
        true
    }

    open spec fn from_spec(value: SharedString) -> Variant {
        Variant::SharedString(value)
    }
}

impl From<String> for Variant {
    fn from(value: String) -> (variant: Variant) {
        Variant::String(value)
    }
}

impl FromSpecImpl<String> for Variant {
    open spec fn obeys_from_spec() -> bool {
        true
    }

    open spec fn from_spec(value: String) -> Variant {
        Variant::String(value)
    }
}

impl From<UDim> for Variant {
    fn from(value: UDim) -> (variant: Variant) {
        Variant::UDim(value)
    }
}

impl FromSpecImpl<UDim> for Variant {
    open spec fn obeys_from_spec() -> bool {
        true
    }

    open spec fn from_spec(value: UDim) -> Variant {
        Variant::UDim(value)
    }
}

impl From<UDim2> for Variant {
    fn from(value: UDim2) -> (variant: Variant) {
        Variant::UDim2(value)
    }
}

impl FromSpecImpl<UDim2> for Variant {
    open spec fn obeys_from_spec() -> bool {
        true
    }

    open spec fn from_spec(value: UDim2) -> Variant {
        Variant::UDim2(value)
    }
}

impl From<Vector2> for Variant {
    fn from(value: Vector2) -> (variant: Variant) {
        Variant::Vector2(value)
    }
}

impl FromSpecImpl<Vector2> for Variant {
    open spec fn obeys_from_spec() -> bool {
        true
    }

    open spec fn from_spec(value: Vector2) -> Variant {
        Variant::Vector2(value)
    }
}

impl From<Vector2int16> for Variant {
    fn from(value: Vector2int16) -> (variant: Variant) {
        Variant::Vector2int16(value)
    }
}

impl FromSpecImpl<Vector2int16> for Variant {
    open spec fn obeys_from_spec() -> bool {
        true
    }

    open spec fn from_spec(value: Vector2int16) -> Variant {
        Variant::Vector2int16(value)
    }
}

impl From<Vector3> for Variant {
    fn from(value: Vector3) -> (variant: Variant) {
        Variant::Vector3(value)
    }
}

impl FromSpecImpl<Vector3> for Variant {
    open spec fn obeys_from_spec() -> bool {
        true
    }

    open spec fn from_spec(value: Vector3) -> Variant {
        Variant::Vector3(value)
    }
}

impl From<Vector3int16> for Variant {
    fn from(value: Vector3int16) -> (variant: Variant) {
        Variant::Vector3int16(value)
    }
}

impl FromSpecImpl<Vector3int16> for Variant {
    open spec fn obeys_from_spec() -> bool {
        true
    }

    open spec fn from_spec(value: Vector3int16) -> Variant {
        Variant::Vector3int16(value)
    }
}

/// A value has a kind exactly when it was built as a value of that kind: the
/// tag that is read back is the tag of the constructor, for each kind of the
/// closed set.
pub proof fn lemma_kind_is_constructor(value: Variant)
    ensures
        value is Axes <==> value.kind() == VariantType::Axes,
        value is BinaryString <==> value.kind() == VariantType::BinaryString,
        value is BrickColor <==> value.kind() == VariantType::BrickColor,
        value is Bool <==> value.kind() == VariantType::Bool,
        value is CFrame <==> value.kind() == VariantType::CFrame,
        value is Color3 <==> value.kind() == VariantType::Color3,
        value is Color3uint8 <==> value.kind() == VariantType::Color3uint8,
        value is ColorSequence <==> value.kind() == VariantType::ColorSequence,
        value is Content <==> value.kind() == VariantType::Content,
        value is EnumValue <==> value.kind() == VariantType::EnumValue,
        value is Faces <==> value.kind() == VariantType::Faces,
        value is Float32 <==> value.kind() == VariantType::Float32,
        value is Float64 <==> value.kind() == VariantType::Float64,
        value is Int32 <==> value.kind() == VariantType::Int32,
        value is Int64 <==> value.kind() == VariantType::Int64,
        value is NumberRange <==> value.kind() == VariantType::NumberRange,
        value is NumberSequence <==> value.kind() == VariantType::NumberSequence,
        value is PhysicalProperties <==> value.kind() == VariantType::PhysicalProperties,
        value is Ray <==> value.kind() == VariantType::Ray,
        value is Rect <==> value.kind() == VariantType::Rect,
        value is Ref <==> value.kind() == VariantType::Ref,
        value is SharedString <==> value.kind() == VariantType::SharedString,
        value is String <==> value.kind() == VariantType::String,
        value is UDim <==> value.kind() == VariantType::UDim,
        value is UDim2 <==> value.kind() == VariantType::UDim2,
        value is Vector2 <==> value.kind() == VariantType::Vector2,
        value is Vector2int16 <==> value.kind() == VariantType::Vector2int16,
        value is Vector3 <==> value.kind() == VariantType::Vector3,
        value is Vector3int16 <==> value.kind() == VariantType::Vector3int16,
{
}

/// Every kind but `Content` has a conversion from its native representation,
/// and the conversion gives a value of that kind which holds what was
/// converted. (`Content` shares its representation with `String`, to which a
/// text converts.)
pub proof fn lemma_conversions_keep_kind()
    ensures
        forall|value: Axes| #[trigger]
            <Variant as FromSpec<Axes>>::from_spec(value)
                == Variant::Axes(value),
        forall|value: BinaryString| #[trigger]
            <Variant as FromSpec<BinaryString>>::from_spec(value)
                == Variant::BinaryString(value),
        forall|value: BrickColor| #[trigger]
            <Variant as FromSpec<BrickColor>>::from_spec(value)
                == Variant::BrickColor(value),
        forall|value: bool| #[trigger]
            <Variant as FromSpec<bool>>::from_spec(value)
                == Variant::Bool(value),
        forall|value: CFrame| #[trigger]
            <Variant as FromSpec<CFrame>>::from_spec(value)
                == Variant::CFrame(value),
        forall|value: Color3| #[trigger]
            <Variant as FromSpec<Color3>>::from_spec(value)
                == Variant::Color3(value),
        forall|value: Color3uint8| #[trigger]
            <Variant as FromSpec<Color3uint8>>::from_spec(value)
                == Variant::Color3uint8(value),
        forall|value: ColorSequence| #[trigger]
            <Variant as FromSpec<ColorSequence>>::from_spec(value)
                == Variant::ColorSequence(value),
        forall|value: EnumValue| #[trigger]
            <Variant as FromSpec<EnumValue>>::from_spec(value)
                == Variant::EnumValue(value),
        forall|value: Faces| #[trigger]
            <Variant as FromSpec<Faces>>::from_spec(value)
                == Variant::Faces(value),
        forall|value: Float32| #[trigger]
            <Variant as FromSpec<Float32>>::from_spec(value)
                == Variant::Float32(value),
        forall|value: Float64| #[trigger]
            <Variant as FromSpec<Float64>>::from_spec(value)
                == Variant::Float64(value),
        forall|value: i32| #[trigger]
            <Variant as FromSpec<i32>>::from_spec(value)
                == Variant::Int32(value),
        forall|value: i64| #[trigger]
            <Variant as FromSpec<i64>>::from_spec(value)
                == Variant::Int64(value),
        forall|value: NumberRange| #[trigger]
            <Variant as FromSpec<NumberRange>>::from_spec(value)
                == Variant::NumberRange(value),
        forall|value: NumberSequence| #[trigger]
            <Variant as FromSpec<NumberSequence>>::from_spec(value)
                == Variant::NumberSequence(value),
        forall|value: PhysicalProperties| #[trigger]
            <Variant as FromSpec<PhysicalProperties>>::from_spec(value)
                == Variant::PhysicalProperties(value),
        forall|value: Ray| #[trigger]
            <Variant as FromSpec<Ray>>::from_spec(value)
                == Variant::Ray(value),
        forall|value: Rect| #[trigger]
            <Variant as FromSpec<Rect>>::from_spec(value)
                == Variant::Rect(value),
        forall|value: Ref| #[trigger]
            <Variant as FromSpec<Ref>>::from_spec(value)
                == Variant::Ref(value),
        forall|value: SharedString| #[trigger]
            <Variant as FromSpec<SharedString>>::from_spec(value)
                == Variant::SharedString(value),
        forall|value: String| #[trigger]
            <Variant as FromSpec<String>>::from_spec(value)
                == Variant::String(value),
        forall|value: UDim| #[trigger]
            <Variant as FromSpec<UDim>>::from_spec(value)
                == Variant::UDim(value),
        forall|value: UDim2| #[trigger]
            <Variant as FromSpec<UDim2>>::from_spec(value)
                == Variant::UDim2(value),
        forall|value: Vector2| #[trigger]
            <Variant as FromSpec<Vector2>>::from_spec(value)
                == Variant::Vector2(value),
        forall|value: Vector2int16| #[trigger]
            <Variant as FromSpec<Vector2int16>>::from_spec(value)
                == Variant::Vector2int16(value),
        forall|value: Vector3| #[trigger]
            <Variant as FromSpec<Vector3>>::from_spec(value)
                == Variant::Vector3(value),
        forall|value: Vector3int16| #[trigger]
            <Variant as FromSpec<Vector3int16>>::from_spec(value)
                == Variant::Vector3int16(value),
        forall|value: Axes|
            (#[trigger] <Variant as FromSpec<Axes>>::from_spec(value)).kind()
                == VariantType::Axes,
        forall|value: BinaryString|
            (#[trigger] <Variant as FromSpec<BinaryString>>::from_spec(value)).kind()
                == VariantType::BinaryString,
        forall|value: BrickColor|
            (#[trigger] <Variant as FromSpec<BrickColor>>::from_spec(value)).kind()
                == VariantType::BrickColor,
        forall|value: bool|
            (#[trigger] <Variant as FromSpec<bool>>::from_spec(value)).kind()
                == VariantType::Bool,
        forall|value: CFrame|
            (#[trigger] <Variant as FromSpec<CFrame>>::from_spec(value)).kind()
                == VariantType::CFrame,
        forall|value: Color3|
            (#[trigger] <Variant as FromSpec<Color3>>::from_spec(value)).kind()
                == VariantType::Color3,
        forall|value: Color3uint8|
            (#[trigger] <Variant as FromSpec<Color3uint8>>::from_spec(value)).kind()
                == VariantType::Color3uint8,
        forall|value: ColorSequence|
            (#[trigger] <Variant as FromSpec<ColorSequence>>::from_spec(value)).kind()
                == VariantType::ColorSequence,
        forall|value: EnumValue|
            (#[trigger] <Variant as FromSpec<EnumValue>>::from_spec(value)).kind()
                == VariantType::EnumValue,
        forall|value: Faces|
            (#[trigger] <Variant as FromSpec<Faces>>::from_spec(value)).kind()
                == VariantType::Faces,
        forall|value: Float32|
            (#[trigger] <Variant as FromSpec<Float32>>::from_spec(value)).kind()
                == VariantType::Float32,
        forall|value: Float64|
            (#[trigger] <Variant as FromSpec<Float64>>::from_spec(value)).kind()
                == VariantType::Float64,
        forall|value: i32|
            (#[trigger] <Variant as FromSpec<i32>>::from_spec(value)).kind()
                == VariantType::Int32,
        forall|value: i64|
            (#[trigger] <Variant as FromSpec<i64>>::from_spec(value)).kind()
                == VariantType::Int64,
        forall|value: NumberRange|
            (#[trigger] <Variant as FromSpec<NumberRange>>::from_spec(value)).kind()
                == VariantType::NumberRange,
        forall|value: NumberSequence|
            (#[trigger] <Variant as FromSpec<NumberSequence>>::from_spec(value)).kind()
                == VariantType::NumberSequence,
        forall|value: PhysicalProperties|
            (#[trigger] <Variant as FromSpec<PhysicalProperties>>::from_spec(value)).kind()
                == VariantType::PhysicalProperties,
        forall|value: Ray|
            (#[trigger] <Variant as FromSpec<Ray>>::from_spec(value)).kind()
                == VariantType::Ray,
        forall|value: Rect|
            (#[trigger] <Variant as FromSpec<Rect>>::from_spec(value)).kind()
                == VariantType::Rect,
        forall|value: Ref|
            (#[trigger] <Variant as FromSpec<Ref>>::from_spec(value)).kind()
                == VariantType::Ref,
        forall|value: SharedString|
            (#[trigger] <Variant as FromSpec<SharedString>>::from_spec(value)).kind()
                == VariantType::SharedString,
        forall|value: String|
            (#[trigger] <Variant as FromSpec<String>>::from_spec(value)).kind()
                == VariantType::String,
        forall|value: UDim|
            (#[trigger] <Variant as FromSpec<UDim>>::from_spec(value)).kind()
                == VariantType::UDim,
        forall|value: UDim2|
            (#[trigger] <Variant as FromSpec<UDim2>>::from_spec(value)).kind()
                == VariantType::UDim2,
        forall|value: Vector2|
            (#[trigger] <Variant as FromSpec<Vector2>>::from_spec(value)).kind()
                == VariantType::Vector2,
        forall|value: Vector2int16|
            (#[trigger] <Variant as FromSpec<Vector2int16>>::from_spec(value)).kind()
                == VariantType::Vector2int16,
        forall|value: Vector3|
            (#[trigger] <Variant as FromSpec<Vector3>>::from_spec(value)).kind()
                == VariantType::Vector3,
        forall|value: Vector3int16|
            (#[trigger] <Variant as FromSpec<Vector3int16>>::from_spec(value)).kind()
                == VariantType::Vector3int16,
{
}

} // verus!
