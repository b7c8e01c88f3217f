use mpvctl::binary32::truncate;
use mpvctl::domain::{Error, Property, PropertyValue, Shape};

fn to_integer(value: PropertyValue) -> Result<i32, Error> {
    value.try_into()
}

fn to_text(value: PropertyValue) -> Result<String, Error> {
    value.try_into()
}

fn to_flag(value: PropertyValue) -> Result<bool, Error> {
    value.try_into()
}

fn float(number: f32) -> PropertyValue {
    PropertyValue::Float(number.to_bits())
}

#[test]
fn wire_names_are_kebab_case() {
    assert_eq!(Property::Chapter.wire_name(), "chapter");
    assert_eq!(Property::Volume.wire_name(), "volume");
    assert_eq!(Property::MediaTitle.wire_name(), "media-title");
    assert_eq!(Property::Pause.wire_name(), "pause");
    assert_eq!(Property::Chapters.wire_name(), "chapters");
}

#[test]
fn integer_narrows_to_itself() {
    assert_eq!(to_integer(PropertyValue::Integer(42)), Ok(42));
    assert_eq!(to_integer(PropertyValue::Integer(0)), Ok(0));
    assert_eq!(to_integer(PropertyValue::Integer(-7)), Ok(-7));
    assert_eq!(to_integer(PropertyValue::Integer(i32::MAX)), Ok(i32::MAX));
    assert_eq!(to_integer(PropertyValue::Integer(i32::MIN)), Ok(i32::MIN));
}

#[test]
fn float_narrows_by_truncation_toward_zero() {
    assert_eq!(to_integer(float(3.7)), Ok(3));
    assert_eq!(to_integer(float(-3.7)), Ok(-3));
    assert_eq!(to_integer(float(0.0)), Ok(0));
    assert_eq!(to_integer(float(-0.0)), Ok(0));
    assert_eq!(to_integer(float(0.999)), Ok(0));
    assert_eq!(to_integer(float(-0.999)), Ok(0));
    assert_eq!(to_integer(float(1.0)), Ok(1));
    assert_eq!(to_integer(float(100.5)), Ok(100));
    assert_eq!(to_integer(float(16777216.0)), Ok(16777216));
    assert_eq!(to_integer(float(2147483520.0)), Ok(2147483520));
    assert_eq!(to_integer(float(-2147483648.0)), Ok(i32::MIN));
}

#[test]
fn float_beyond_the_integer_range_narrows_to_the_bound() {
    assert_eq!(to_integer(float(2147483648.0)), Ok(i32::MAX));
    assert_eq!(to_integer(float(3.0e9)), Ok(i32::MAX));
    assert_eq!(to_integer(float(-3.0e9)), Ok(i32::MIN));
    assert_eq!(to_integer(float(f32::MAX)), Ok(i32::MAX));
    assert_eq!(to_integer(float(f32::MIN)), Ok(i32::MIN));
    assert_eq!(to_integer(float(f32::INFINITY)), Ok(i32::MAX));
    assert_eq!(to_integer(float(f32::NEG_INFINITY)), Ok(i32::MIN));
}

#[test]
fn float_that_is_no_number_narrows_to_zero() {
    assert_eq!(to_integer(float(f32::NAN)), Ok(0));
    assert_eq!(truncate(0x7fc0_0000), 0);
    assert_eq!(truncate(0xffc0_0001), 0);
    assert_eq!(truncate(0x7f80_0001), 0);
}

#[test]
fn tiny_floats_narrow_to_zero() {
    assert_eq!(to_integer(float(f32::MIN_POSITIVE)), Ok(0));
    assert_eq!(to_integer(float(-f32::MIN_POSITIVE)), Ok(0));
    assert_eq!(truncate(0x0000_0001), 0);
    assert_eq!(truncate(0x8000_0001), 0);
    assert_eq!(truncate(0x007f_ffff), 0);
}

#[test]
fn truncation_agrees_with_the_machine_on_a_sweep_of_patterns() {
    let mut bits: u32 = 0;
    loop {
        assert_eq!(truncate(bits), f32::from_bits(bits) as i32, "pattern {:#010x}", bits);
        match bits.checked_add(40_009) {
            Some(next) => bits = next,
            None => break,
        }
    }
}

#[test]
fn truncation_agrees_with_the_machine_around_every_exponent() {
    for exponent in 0u32..=255 {
        for sign in [0u32, 0x8000_0000] {
            for fraction in [0u32, 1, 2, 0x40_0000, 0x40_0001, 0x7f_fffe, 0x7f_ffff] {
                let bits = sign | (exponent << 23) | fraction;
                assert_eq!(truncate(bits), f32::from_bits(bits) as i32, "pattern {:#010x}", bits);
            }
        }
    }
}

#[test]
fn text_narrows_to_the_same_text() {
    assert_eq!(to_text(PropertyValue::String("Movie".to_string())), Ok("Movie".to_string()));
    assert_eq!(to_text(PropertyValue::String(String::new())), Ok(String::new()));
    assert_eq!(
        to_text(PropertyValue::String("caf\u{e9} \u{8d8a}".to_string())),
        Ok("caf\u{e9} \u{8d8a}".to_string())
    );
}

#[test]
fn boolean_narrows_to_itself() {
    assert_eq!(to_flag(PropertyValue::Bool(true)), Ok(true));
    assert_eq!(to_flag(PropertyValue::Bool(false)), Ok(false));
}

#[test]
fn text_and_boolean_are_no_integers() {
    assert_eq!(
        to_integer(PropertyValue::String("12".to_string())),
        Err(Error::TypeMismatch { observed: Shape::String, requested: Shape::Integer })
    );
    assert_eq!(
        to_integer(PropertyValue::Bool(true)),
        Err(Error::TypeMismatch { observed: Shape::Bool, requested: Shape::Integer })
    );
}

#[test]
fn only_text_is_text() {
    assert_eq!(
        to_text(PropertyValue::Integer(1)),
        Err(Error::TypeMismatch { observed: Shape::Integer, requested: Shape::String })
    );
    assert_eq!(
        to_text(float(1.5)),
        Err(Error::TypeMismatch { observed: Shape::Float, requested: Shape::String })
    );
    assert_eq!(
        to_text(PropertyValue::Bool(false)),
        Err(Error::TypeMismatch { observed: Shape::Bool, requested: Shape::String })
    );
}

#[test]
fn only_a_boolean_is_a_boolean() {
    assert_eq!(
        to_flag(PropertyValue::String("x".to_string())),
        Err(Error::TypeMismatch { observed: Shape::String, requested: Shape::Bool })
    );
    assert_eq!(
        to_flag(PropertyValue::Integer(1)),
        Err(Error::TypeMismatch { observed: Shape::Integer, requested: Shape::Bool })
    );
    assert_eq!(
        to_flag(float(1.0)),
        Err(Error::TypeMismatch { observed: Shape::Float, requested: Shape::Bool })
    );
}

#[test]
fn shape_names_the_variant() {
    assert_eq!(PropertyValue::Integer(1).shape(), Shape::Integer);
    assert_eq!(float(1.0).shape(), Shape::Float);
    assert_eq!(PropertyValue::String("s".to_string()).shape(), Shape::String);
    assert_eq!(PropertyValue::Bool(true).shape(), Shape::Bool);
}

#[test]
fn clone_keeps_the_value() {
    let values = vec![
        PropertyValue::Integer(-5),
        float(2.5),
        PropertyValue::String("a & b".to_string()),
        PropertyValue::Bool(true),
    ];
    for value in values {
        assert_eq!(value.clone(), value);
    }
}
