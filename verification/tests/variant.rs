use generate_reflection::types::{
    Axes, BinaryString, BrickColor, CFrame, Color3, Color3uint8, ColorSequence,
    ColorSequenceKeypoint, CustomPhysicalProperties, EnumValue, Faces, Float32, Float64, Matrix3,
    NumberRange, NumberSequence, NumberSequenceKeypoint, PhysicalProperties, Ray, Rect, Ref,
    SharedString, UDim, UDim2, Vector2, Vector2int16, Vector3, Vector3int16,
};
use generate_reflection::variant::{Variant, VariantType};

fn single(value: f32) -> Float32 {
    Float32::from_bits(value.to_bits())
}

fn vector2(x: f32, y: f32) -> Vector2 {
    Vector2 { x: single(x), y: single(y) }
}

fn vector3(x: f32, y: f32, z: f32) -> Vector3 {
    Vector3 { x: single(x), y: single(y), z: single(z) }
}

fn sample_axes() -> Axes {
    Axes::from_bits(5).unwrap()
}

fn sample_binary_string() -> BinaryString {
    BinaryString { buffer: vec![0, 159, 255] }
}

fn sample_brick_color() -> BrickColor {
    BrickColor { number: 194 }
}

fn sample_bool() -> bool {
    true
}

fn sample_cframe() -> CFrame {
    CFrame {
        position: vector3(1.0, 2.0, 3.0),
        orientation: Matrix3 {
            x: vector3(1.0, 0.0, 0.0),
            y: vector3(0.0, 1.0, 0.0),
            z: vector3(0.0, 0.0, 1.0),
        },
    }
}

fn sample_color3() -> Color3 {
    Color3 { r: single(1.0), g: single(0.5), b: single(0.0) }
}

fn sample_color3_uint8() -> Color3uint8 {
    Color3uint8 { r: 255, g: 128, b: 0 }
}

fn sample_color_sequence() -> ColorSequence {
    ColorSequence {
        keypoints: vec![
            ColorSequenceKeypoint { time: single(0.0), color: sample_color3() },
            ColorSequenceKeypoint { time: single(1.0), color: sample_color3() },
        ],
    }
}

fn sample_content() -> String {
    String::from("rbxassetid://1")
}

fn sample_enum_value() -> EnumValue {
    EnumValue { value: 3 }
}

fn sample_faces() -> Faces {
    Faces::from_bits(33).unwrap()
}

fn sample_float32() -> Float32 {
    single(1.5)
}

fn sample_float64() -> Float64 {
    Float64::from_bits(2.5f64.to_bits())
}

fn sample_int32() -> i32 {
    -7
}

fn sample_int64() -> i64 {
    -7_000_000_000
}

fn sample_number_range() -> NumberRange {
    NumberRange { min: single(0.0), max: single(10.0) }
}

fn sample_number_sequence() -> NumberSequence {
    NumberSequence {
        keypoints: vec![NumberSequenceKeypoint {
            time: single(0.0),
            value: single(1.0),
            envelope: single(0.0),
        }],
    }
}

fn sample_physical_properties() -> PhysicalProperties {
    PhysicalProperties::Custom(CustomPhysicalProperties {
        density: single(0.7),
        friction: single(0.3),
        elasticity: single(0.5),
        friction_weight: single(1.0),
        elasticity_weight: single(1.0),
    })
}

fn sample_ray() -> Ray {
    Ray { origin: vector3(0.0, 0.0, 0.0), direction: vector3(0.0, 1.0, 0.0) }
}

fn sample_rect() -> Rect {
    Rect { min: vector2(0.0, 0.0), max: vector2(4.0, 3.0) }
}

fn sample_ref() -> Ref {
    Ref { id: 42 }
}

fn sample_shared_string() -> SharedString {
    SharedString { data: vec![1, 2, 3] }
}

fn sample_string() -> String {
    String::from("hello")
}

fn sample_udim() -> UDim {
    UDim { scale: single(0.5), offset: 12 }
}

fn sample_udim2() -> UDim2 {
    UDim2 { x: sample_udim(), y: UDim { scale: single(1.0), offset: -3 } }
}

fn sample_vector2() -> Vector2 {
    vector2(5.0, 7.0)
}

fn sample_vector2_int16() -> Vector2int16 {
    Vector2int16 { x: -5, y: 7 }
}

fn sample_vector3() -> Vector3 {
    vector3(1.0, 2.0, 3.0)
}

fn sample_vector3_int16() -> Vector3int16 {
    Vector3int16 { x: 1, y: -2, z: 3 }
}

#[test]
fn constructed_axes_reads_back_its_kind() {
    let value = Variant::Axes(sample_axes());
    assert_eq!(value.ty(), VariantType::Axes);
}

#[test]
fn constructed_binary_string_reads_back_its_kind() {
    let value = Variant::BinaryString(sample_binary_string());
    assert_eq!(value.ty(), VariantType::BinaryString);
}

#[test]
fn constructed_brick_color_reads_back_its_kind() {
    let value = Variant::BrickColor(sample_brick_color());
    assert_eq!(value.ty(), VariantType::BrickColor);
}

#[test]
fn constructed_bool_reads_back_its_kind() {
    let value = Variant::Bool(sample_bool());
    assert_eq!(value.ty(), VariantType::Bool);
}

#[test]
fn constructed_cframe_reads_back_its_kind() {
    let value = Variant::CFrame(sample_cframe());
    assert_eq!(value.ty(), VariantType::CFrame);
}

#[test]
fn constructed_color3_reads_back_its_kind() {
    let value = Variant::Color3(sample_color3());
    assert_eq!(value.ty(), VariantType::Color3);
}

#[test]
fn constructed_color3_uint8_reads_back_its_kind() {
    let value = Variant::Color3uint8(sample_color3_uint8());
    assert_eq!(value.ty(), VariantType::Color3uint8);
}

#[test]
fn constructed_color_sequence_reads_back_its_kind() {
    let value = Variant::ColorSequence(sample_color_sequence());
    assert_eq!(value.ty(), VariantType::ColorSequence);
}

#[test]
fn constructed_content_reads_back_its_kind() {
    let value = Variant::Content(sample_content());
    assert_eq!(value.ty(), VariantType::Content);
}

#[test]
fn constructed_enum_value_reads_back_its_kind() {
    let value = Variant::EnumValue(sample_enum_value());
    assert_eq!(value.ty(), VariantType::EnumValue);
}

#[test]
fn constructed_faces_reads_back_its_kind() {
    let value = Variant::Faces(sample_faces());
    assert_eq!(value.ty(), VariantType::Faces);
}

#[test]
fn constructed_float32_reads_back_its_kind() {
    let value = Variant::Float32(sample_float32());
    assert_eq!(value.ty(), VariantType::Float32);
}

#[test]
fn constructed_float64_reads_back_its_kind() {
    let value = Variant::Float64(sample_float64());
    assert_eq!(value.ty(), VariantType::Float64);
}

#[test]
fn constructed_int32_reads_back_its_kind() {
    let value = Variant::Int32(sample_int32());
    assert_eq!(value.ty(), VariantType::Int32);
}

#[test]
fn constructed_int64_reads_back_its_kind() {
    let value = Variant::Int64(sample_int64());
    assert_eq!(value.ty(), VariantType::Int64);
}

#[test]
fn constructed_number_range_reads_back_its_kind() {
    let value = Variant::NumberRange(sample_number_range());
    assert_eq!(value.ty(), VariantType::NumberRange);
}

#[test]
fn constructed_number_sequence_reads_back_its_kind() {
    let value = Variant::NumberSequence(sample_number_sequence());
    assert_eq!(value.ty(), VariantType::NumberSequence);
}

#[test]
fn constructed_physical_properties_reads_back_its_kind() {
    let value = Variant::PhysicalProperties(sample_physical_properties());
    assert_eq!(value.ty(), VariantType::PhysicalProperties);
}

#[test]
fn constructed_ray_reads_back_its_kind() {
    let value = Variant::Ray(sample_ray());
    assert_eq!(value.ty(), VariantType::Ray);
}

#[test]
fn constructed_rect_reads_back_its_kind() {
    let value = Variant::Rect(sample_rect());
    assert_eq!(value.ty(), VariantType::Rect);
}

#[test]
fn constructed_ref_reads_back_its_kind() {
    let value = Variant::Ref(sample_ref());
    assert_eq!(value.ty(), VariantType::Ref);
}

#[test]
fn constructed_shared_string_reads_back_its_kind() {
    let value = Variant::SharedString(sample_shared_string());
    assert_eq!(value.ty(), VariantType::SharedString);
}

#[test]
fn constructed_string_reads_back_its_kind() {
    let value = Variant::String(sample_string());
    assert_eq!(value.ty(), VariantType::String);
}

#[test]
fn constructed_udim_reads_back_its_kind() {
    let value = Variant::UDim(sample_udim());
    assert_eq!(value.ty(), VariantType::UDim);
}

#[test]
fn constructed_udim2_reads_back_its_kind() {
    let value = Variant::UDim2(sample_udim2());
    assert_eq!(value.ty(), VariantType::UDim2);
}

#[test]
fn constructed_vector2_reads_back_its_kind() {
    let value = Variant::Vector2(sample_vector2());
    assert_eq!(value.ty(), VariantType::Vector2);
}

#[test]
fn constructed_vector2_int16_reads_back_its_kind() {
    let value = Variant::Vector2int16(sample_vector2_int16());
    assert_eq!(value.ty(), VariantType::Vector2int16);
}

#[test]
fn constructed_vector3_reads_back_its_kind() {
    let value = Variant::Vector3(sample_vector3());
    assert_eq!(value.ty(), VariantType::Vector3);
}

#[test]
fn constructed_vector3_int16_reads_back_its_kind() {
    let value = Variant::Vector3int16(sample_vector3_int16());
    assert_eq!(value.ty(), VariantType::Vector3int16);
}

#[test]
fn axes_converts_into_its_kind() {
    let converted = Variant::from(sample_axes());
    assert_eq!(converted, Variant::Axes(sample_axes()));
    assert_eq!(converted.ty(), VariantType::Axes);
}

#[test]
fn binary_string_converts_into_its_kind() {
    let converted = Variant::from(sample_binary_string());
    assert_eq!(converted, Variant::BinaryString(sample_binary_string()));
    assert_eq!(converted.ty(), VariantType::BinaryString);
}

#[test]
fn brick_color_converts_into_its_kind() {
    let converted = Variant::from(sample_brick_color());
    assert_eq!(converted, Variant::BrickColor(sample_brick_color()));
    assert_eq!(converted.ty(), VariantType::BrickColor);
}

#[test]
fn bool_converts_into_its_kind() {
    let converted = Variant::from(sample_bool());
    assert_eq!(converted, Variant::Bool(sample_bool()));
    assert_eq!(converted.ty(), VariantType::Bool);
}

#[test]
fn cframe_converts_into_its_kind() {
    let converted = Variant::from(sample_cframe());
    assert_eq!(converted, Variant::CFrame(sample_cframe()));
    assert_eq!(converted.ty(), VariantType::CFrame);
}

#[test]
fn color3_converts_into_its_kind() {
    let converted = Variant::from(sample_color3());
    assert_eq!(converted, Variant::Color3(sample_color3()));
    assert_eq!(converted.ty(), VariantType::Color3);
}

#[test]
fn color3_uint8_converts_into_its_kind() {
    let converted = Variant::from(sample_color3_uint8());
    assert_eq!(converted, Variant::Color3uint8(sample_color3_uint8()));
    assert_eq!(converted.ty(), VariantType::Color3uint8);
}

#[test]
fn color_sequence_converts_into_its_kind() {
    let converted = Variant::from(sample_color_sequence());
    assert_eq!(converted, Variant::ColorSequence(sample_color_sequence()));
    assert_eq!(converted.ty(), VariantType::ColorSequence);
}

#[test]
fn enum_value_converts_into_its_kind() {
    let converted = Variant::from(sample_enum_value());
    assert_eq!(converted, Variant::EnumValue(sample_enum_value()));
    assert_eq!(converted.ty(), VariantType::EnumValue);
}

#[test]
fn faces_converts_into_its_kind() {
    let converted = Variant::from(sample_faces());
    assert_eq!(converted, Variant::Faces(sample_faces()));
    assert_eq!(converted.ty(), VariantType::Faces);
}

#[test]
fn float32_converts_into_its_kind() {
    let converted = Variant::from(sample_float32());
    assert_eq!(converted, Variant::Float32(sample_float32()));
    assert_eq!(converted.ty(), VariantType::Float32);
}

#[test]
fn float64_converts_into_its_kind() {
    let converted = Variant::from(sample_float64());
    assert_eq!(converted, Variant::Float64(sample_float64()));
    assert_eq!(converted.ty(), VariantType::Float64);
}

#[test]
fn int32_converts_into_its_kind() {
    let converted = Variant::from(sample_int32());
    assert_eq!(converted, Variant::Int32(sample_int32()));
    assert_eq!(converted.ty(), VariantType::Int32);
}

#[test]
fn int64_converts_into_its_kind() {
    let converted = Variant::from(sample_int64());
    assert_eq!(converted, Variant::Int64(sample_int64()));
    assert_eq!(converted.ty(), VariantType::Int64);
}

#[test]
fn number_range_converts_into_its_kind() {
    let converted = Variant::from(sample_number_range());
    assert_eq!(converted, Variant::NumberRange(sample_number_range()));
    assert_eq!(converted.ty(), VariantType::NumberRange);
}

#[test]
fn number_sequence_converts_into_its_kind() {
    let converted = Variant::from(sample_number_sequence());
    assert_eq!(converted, Variant::NumberSequence(sample_number_sequence()));
    assert_eq!(converted.ty(), VariantType::NumberSequence);
}

#[test]
fn physical_properties_converts_into_its_kind() {
    let converted = Variant::from(sample_physical_properties());
    assert_eq!(converted, Variant::PhysicalProperties(sample_physical_properties()));
    assert_eq!(converted.ty(), VariantType::PhysicalProperties);
}

#[test]
fn ray_converts_into_its_kind() {
    let converted = Variant::from(sample_ray());
    assert_eq!(converted, Variant::Ray(sample_ray()));
    assert_eq!(converted.ty(), VariantType::Ray);
}

#[test]
fn rect_converts_into_its_kind() {
    let converted = Variant::from(sample_rect());
    assert_eq!(converted, Variant::Rect(sample_rect()));
    assert_eq!(converted.ty(), VariantType::Rect);
}

#[test]
fn ref_converts_into_its_kind() {
    let converted = Variant::from(sample_ref());
    assert_eq!(converted, Variant::Ref(sample_ref()));
    assert_eq!(converted.ty(), VariantType::Ref);
}

#[test]
fn shared_string_converts_into_its_kind() {
    let converted = Variant::from(sample_shared_string());
    assert_eq!(converted, Variant::SharedString(sample_shared_string()));
    assert_eq!(converted.ty(), VariantType::SharedString);
}

#[test]
fn string_converts_into_its_kind() {
    let converted = Variant::from(sample_string());
    assert_eq!(converted, Variant::String(sample_string()));
    assert_eq!(converted.ty(), VariantType::String);
}

#[test]
fn udim_converts_into_its_kind() {
    let converted = Variant::from(sample_udim());
    assert_eq!(converted, Variant::UDim(sample_udim()));
    assert_eq!(converted.ty(), VariantType::UDim);
}

#[test]
fn udim2_converts_into_its_kind() {
    let converted = Variant::from(sample_udim2());
    assert_eq!(converted, Variant::UDim2(sample_udim2()));
    assert_eq!(converted.ty(), VariantType::UDim2);
}

#[test]
fn vector2_converts_into_its_kind() {
    let converted = Variant::from(sample_vector2());
    assert_eq!(converted, Variant::Vector2(sample_vector2()));
    assert_eq!(converted.ty(), VariantType::Vector2);
}

#[test]
fn vector2_int16_converts_into_its_kind() {
    let converted = Variant::from(sample_vector2_int16());
    assert_eq!(converted, Variant::Vector2int16(sample_vector2_int16()));
    assert_eq!(converted.ty(), VariantType::Vector2int16);
}

#[test]
fn vector3_converts_into_its_kind() {
    let converted = Variant::from(sample_vector3());
    assert_eq!(converted, Variant::Vector3(sample_vector3()));
    assert_eq!(converted.ty(), VariantType::Vector3);
}

#[test]
fn vector3_int16_converts_into_its_kind() {
    let converted = Variant::from(sample_vector3_int16());
    assert_eq!(converted, Variant::Vector3int16(sample_vector3_int16()));
    assert_eq!(converted.ty(), VariantType::Vector3int16);
}

#[test]
fn a_text_converts_into_a_string_and_not_into_content() {
    let converted: Variant = sample_content().into();
    assert_eq!(converted.ty(), VariantType::String);
    assert_ne!(converted, Variant::Content(sample_content()));
}

#[test]
fn values_of_different_kinds_differ_even_with_equal_payloads() {
    assert_ne!(Variant::Int32(1).ty(), Variant::Int64(1).ty());
    assert_ne!(
        Variant::BinaryString(BinaryString { buffer: vec![1] }).ty(),
        Variant::SharedString(SharedString { data: vec![1] }).ty()
    );
    assert_ne!(Variant::String(sample_string()), Variant::Content(sample_string()));
}

#[test]
fn a_number_keeps_every_bit() {
    let value = 5.0f32;
    let held = Float32::from_bits(value.to_bits());
    assert_eq!(held.bits, 0x40A0_0000);
    assert_eq!(f32::from_bits(held.to_bits()), 5.0);
    let not_a_number = Float32::from_bits(0x7FC0_0001);
    assert_eq!(not_a_number.to_bits(), 0x7FC0_0001);
    let double = Float64::from_bits(7.0f64.to_bits());
    assert_eq!(double.bits, 0x401C_0000_0000_0000);
    assert_eq!(f64::from_bits(double.to_bits()), 7.0);
}

#[test]
fn a_vector_holds_its_components() {
    let value = Variant::Vector2(vector2(5.0, 7.0));
    match value {
        Variant::Vector2(vector) => {
            assert_eq!(f32::from_bits(vector.x.bits), 5.0);
            assert_eq!(f32::from_bits(vector.y.bits), 7.0);
        }
        _ => panic!("a vector was built"),
    }
}

#[test]
fn axes_take_the_patterns_up_to_seven() {
    assert_eq!(Axes::from_bits(0).map(|axes| axes.bits()), Some(0));
    assert_eq!(Axes::from_bits(7).map(|axes| axes.bits()), Some(7));
    assert_eq!(Axes::from_bits(8), None);
    assert_eq!(Axes::from_bits(255), None);
}

#[test]
fn faces_take_the_patterns_up_to_sixty_three() {
    assert_eq!(Faces::from_bits(0).map(|faces| faces.bits()), Some(0));
    assert_eq!(Faces::from_bits(63).map(|faces| faces.bits()), Some(63));
    assert_eq!(Faces::from_bits(64), None);
    assert_eq!(Faces::from_bits(255), None);
}

#[test]
fn the_reference_to_nothing_is_zero() {
    assert_eq!(Ref::none(), Ref { id: 0 });
    assert!(!Ref::none().is_some());
    assert!(Ref { id: 1 }.is_some());
    assert!(Ref { id: u128::MAX }.is_some());
}
