use opc_da_client::types::{
    Decimal, Float32, Float64, OpcDataCallback, OpcQuality, OpcValue, OpcValueError,
};
use std::sync::{Arc, Mutex};

fn float(v: f32) -> Float32 {
    Float32::from_bits(v.to_bits())
}

fn double(v: f64) -> Float64 {
    Float64::from_bits(v.to_bits())
}

#[test]
fn test_opc_value_conversions() {
    let value = OpcValue::Int16(42);
    let result: i16 = value.try_into().unwrap();
    assert_eq!(result, 42);

    let value = OpcValue::Int32(1000);
    let result: i32 = value.try_into().unwrap();
    assert_eq!(result, 1000);

    let value = OpcValue::Float(float(3.14));
    let result: Float32 = value.try_into().unwrap();
    assert_eq!(f32::from_bits(result.to_bits()), 3.14);

    let value = OpcValue::Double(double(2.71828));
    let result: Float64 = value.try_into().unwrap();
    assert_eq!(f64::from_bits(result.to_bits()), 2.71828);

    let value = OpcValue::String("test".to_string());
    let result: String = value.try_into().unwrap();
    assert_eq!(result, "test");
}

#[test]
fn test_opc_value_type_mismatch() {
    let value = OpcValue::Int16(42);

    let result: Result<i32, OpcValueError> = value.try_into();
    assert!(result.is_err());

    if let Err(OpcValueError::TypeMismatch { expected, actual }) = result {
        assert_eq!(expected, "Int32");
        assert_eq!(actual, "Int16");
    } else {
        panic!("Expected TypeMismatch error");
    }
}

#[test]
fn test_opc_quality_from_raw() {
    assert_eq!(OpcQuality::from_raw(192), OpcQuality::Good);
    assert_eq!(OpcQuality::from_raw(64), OpcQuality::Uncertain);
    assert_eq!(OpcQuality::from_raw(0), OpcQuality::Bad);
    assert_eq!(OpcQuality::from_raw(128), OpcQuality::Uncertain);
}

#[test]
fn test_opc_quality_to_raw() {
    assert_eq!(OpcQuality::Good.to_raw(), 192);
    assert_eq!(OpcQuality::Uncertain.to_raw(), 64);
    assert_eq!(OpcQuality::Bad.to_raw(), 0);
}

#[test]
fn test_opc_value_type_name() {
    assert_eq!(OpcValue::Int16(0).kind_name(), "Int16");
    assert_eq!(OpcValue::Int32(0).kind_name(), "Int32");
    assert_eq!(OpcValue::Float(float(0.0)).kind_name(), "Float");
    assert_eq!(OpcValue::Double(double(0.0)).kind_name(), "Double");
    assert_eq!(OpcValue::String("".to_string()).kind_name(), "String");
}

#[test]
fn test_opc_value_raw_type() {
    assert_eq!(OpcValue::Int16(0).raw_type(), 2);
    assert_eq!(OpcValue::Int32(0).raw_type(), 3);
    assert_eq!(OpcValue::Float(float(0.0)).raw_type(), 4);
    assert_eq!(OpcValue::Double(double(0.0)).raw_type(), 5);
    assert_eq!(OpcValue::String("".to_string()).raw_type(), 8);
}

struct MockCallback {
    calls: Mutex<Vec<(String, String, OpcValue, OpcQuality, u64)>>,
}

impl MockCallback {
    fn new() -> Self {
        MockCallback { calls: Mutex::new(Vec::new()) }
    }

    fn get_calls(&self) -> Vec<(String, String, OpcValue, OpcQuality, u64)> {
        self.calls.lock().unwrap().clone()
    }
}

impl OpcDataCallback for MockCallback {
    fn on_data_change(
        &self,
        group_name: &str,
        item_name: &str,
        value: OpcValue,
        quality: OpcQuality,
        timestamp: u64,
    ) {
        self.calls.lock().unwrap().push((
            group_name.to_string(),
            item_name.to_string(),
            value,
            quality,
            timestamp,
        ));
    }
}

#[test]
fn test_mock_callback() {
    let callback = Arc::new(MockCallback::new());

    callback.on_data_change("TestGroup", "TestItem", OpcValue::Int32(42), OpcQuality::Good, 0);

    let calls = callback.get_calls();
    assert_eq!(calls.len(), 1);

    let (group_name, item_name, value, quality, timestamp) = &calls[0];
    assert_eq!(group_name, "TestGroup");
    assert_eq!(item_name, "TestItem");
    assert_eq!(value, &OpcValue::Int32(42));
    assert_eq!(quality, &OpcQuality::Good);
    assert_eq!(timestamp, &0);
}

#[test]
fn test_opc_value_creation() {
    let int16_val = OpcValue::Int16(42);
    let int32_val = OpcValue::Int32(1000);
    let float_val = OpcValue::Float(float(3.14));
    let double_val = OpcValue::Double(double(2.71828));
    let string_val = OpcValue::String("test".to_string());

    assert_eq!(int16_val.kind_name(), "Int16");
    assert_eq!(int32_val.kind_name(), "Int32");
    assert_eq!(float_val.kind_name(), "Float");
    assert_eq!(double_val.kind_name(), "Double");
    assert_eq!(string_val.kind_name(), "String");
}

#[test]
fn test_opc_value_try_from() {
    let int32_val = OpcValue::Int32(123);
    let result: Result<i32, _> = int32_val.try_into();
    assert_eq!(result.unwrap(), 123);

    let double_val = OpcValue::Double(double(45.67));
    let result: Result<Float64, _> = double_val.try_into();
    assert!((f64::from_bits(result.unwrap().to_bits()) - 45.67).abs() < 0.0001);

    let string_val = OpcValue::String("hello".to_string());
    let result: Result<String, _> = string_val.try_into();
    assert_eq!(result.unwrap(), "hello");
}

#[test]
fn test_opc_value_try_from_failure() {
    let int32_val = OpcValue::Int32(123);
    let result: Result<String, _> = int32_val.try_into();
    assert!(result.is_err());

    let string_val = OpcValue::String("hello".to_string());
    let result: Result<i32, _> = string_val.try_into();
    assert!(result.is_err());
}

#[test]
fn test_opc_quality_display() {
    assert_eq!(OpcQuality::Good.to_string(), "Good");
    assert_eq!(OpcQuality::Uncertain.to_string(), "Uncertain");
    assert_eq!(OpcQuality::Bad.to_string(), "Bad");
}

#[test]
fn test_opc_value_error() {
    let error = OpcValueError::type_mismatch("Int32", "String");
    assert!(error.to_string().contains("Int32"));
    assert!(error.to_string().contains("String"));
}

struct CountingCallback {
    count: std::sync::atomic::AtomicUsize,
}

impl OpcDataCallback for CountingCallback {
    fn on_data_change(
        &self,
        group_name: &str,
        item_name: &str,
        value: OpcValue,
        quality: OpcQuality,
        timestamp: u64,
    ) {
        self.count.fetch_add(1, std::sync::atomic::Ordering::SeqCst);
        println!(
            "Callback: group={}, item={}, value={:?}, quality={:?}, timestamp={}",
            group_name, item_name, value, quality, timestamp
        );
    }
}

#[test]
fn test_opc_data_callback_trait() {
    let callback = CountingCallback { count: std::sync::atomic::AtomicUsize::new(0) };

    let _boxed: Box<dyn OpcDataCallback> = Box::new(callback);

    assert!(true);
}

#[test]
fn quality_round_trip_for_all_three() {
    for q in [OpcQuality::Good, OpcQuality::Uncertain, OpcQuality::Bad] {
        assert_eq!(OpcQuality::from_raw(q.to_raw()), q);
    }
}

#[test]
fn quality_ignores_low_bits() {
    assert_eq!(OpcQuality::from_raw(192 | 0x3f), OpcQuality::Good);
    assert_eq!(OpcQuality::from_raw(64 | 0x15), OpcQuality::Uncertain);
    assert_eq!(OpcQuality::from_raw(0x3f), OpcQuality::Bad);
    assert_eq!(OpcQuality::from_raw(128 | 1), OpcQuality::Uncertain);
    assert_eq!(OpcQuality::from_raw(0x1c0), OpcQuality::Good);
    assert_eq!(OpcQuality::from_raw(-1), OpcQuality::Good);
    assert_eq!(OpcQuality::from_raw(192 | 0x3f).to_raw(), 192);
}

#[test]
fn try_from_every_scalar_kind() {
    assert_eq!(i8::try_from(OpcValue::Int8(-5)), Ok(-5));
    assert_eq!(u8::try_from(OpcValue::UInt8(5)), Ok(5));
    assert_eq!(u16::try_from(OpcValue::UInt16(6)), Ok(6));
    assert_eq!(u32::try_from(OpcValue::UInt32(7)), Ok(7));
    assert_eq!(i64::try_from(OpcValue::Int64(-8)), Ok(-8));
    assert_eq!(i64::try_from(OpcValue::Cy(12345)), Ok(12345));
    assert_eq!(u64::try_from(OpcValue::UInt64(9)), Ok(9));
    assert_eq!(isize::try_from(OpcValue::INT(-10)), Ok(-10));
    assert_eq!(usize::try_from(OpcValue::UINT(11)), Ok(11));
    assert_eq!(bool::try_from(OpcValue::Bool(true)), Ok(true));
    assert_eq!(Float32::try_from(OpcValue::Float(float(1.5))), Ok(float(1.5)));
}

#[test]
fn try_from_names_both_kinds_on_mismatch() {
    assert_eq!(
        i64::try_from(OpcValue::Bool(true)),
        Err(OpcValueError::type_mismatch("I8 or Cy", "Bool"))
    );
    assert_eq!(
        i8::try_from(OpcValue::UInt8(1)),
        Err(OpcValueError::type_mismatch("I1", "UI1"))
    );
    assert_eq!(
        String::try_from(OpcValue::Decimal("1".to_string())),
        Err(OpcValueError::type_mismatch("String", "Decimal"))
    );
    assert_eq!(
        Float64::try_from(OpcValue::Date(double(1.0))),
        Err(OpcValueError::type_mismatch("Double", "Date"))
    );
    assert_eq!(
        bool::try_from(OpcValue::ArrayBool(vec![true])),
        Err(OpcValueError::type_mismatch("Bool", "ArrayBool"))
    );
}

#[test]
fn kind_names_and_raw_types_of_all_kinds() {
    let cases: Vec<(OpcValue, &str, u32)> = vec![
        (OpcValue::Int8(0), "I1", 16),
        (OpcValue::UInt8(0), "UI1", 17),
        (OpcValue::UInt16(0), "UI2", 18),
        (OpcValue::UInt32(0), "UI4", 19),
        (OpcValue::Int64(0), "I8", 20),
        (OpcValue::UInt64(0), "UI8", 21),
        (OpcValue::INT(0), "INT", 22),
        (OpcValue::UINT(0), "UINT", 23),
        (OpcValue::Bool(false), "Bool", 11),
        (OpcValue::Cy(0), "Cy", 6),
        (OpcValue::Decimal("0".to_string()), "Decimal", 14),
        (OpcValue::Date(double(0.0)), "Date", 7),
        (OpcValue::ArrayInt16(vec![]), "ArrayInt16", 0x2002),
        (OpcValue::ArrayUInt16(vec![]), "ArrayUI2", 0x2012),
        (OpcValue::ArrayInt32(vec![]), "ArrayInt32", 0x2003),
        (OpcValue::ArrayUInt32(vec![]), "ArrayUI4", 0x2013),
        (OpcValue::ArrayInt64(vec![]), "ArrayI8", 0x2014),
        (OpcValue::ArrayUInt64(vec![]), "ArrayUI8", 0x2015),
        (OpcValue::ArrayFloat(vec![]), "ArrayFloat", 0x2004),
        (OpcValue::ArrayDouble(vec![]), "ArrayDouble", 0x2005),
        (OpcValue::ArrayBool(vec![]), "ArrayBool", 0x200b),
        (OpcValue::ArrayString(vec![]), "ArrayString", 0x2008),
    ];
    for (value, name, tag) in cases {
        assert_eq!(value.kind_name(), name);
        assert_eq!(value.raw_type(), tag);
    }
}

fn decimal(lo64: u64, hi32: u32, scale: u8, sign: u8) -> Decimal {
    Decimal { w_reserved: 0, scale, sign, hi32, lo64 }
}

#[test]
fn decimal_with_two_places() {
    assert_eq!(decimal(12345, 0, 2, 0).to_string(), "123.45");
}

#[test]
fn decimal_zero_reads_zero_at_any_scale() {
    assert_eq!(decimal(0, 0, 0, 0).to_string(), "0");
    assert_eq!(decimal(0, 0, 2, 0).to_string(), "0");
    assert_eq!(decimal(0, 0, 28, 0).to_string(), "0");
    assert_eq!(decimal(0, 0, 255, 0x80).to_string(), "0");
}

#[test]
fn decimal_sign_negates() {
    assert_eq!(decimal(12345, 0, 2, 0x80).to_string(), "-123.45");
    assert_eq!(decimal(12345, 0, 0, 0x80).to_string(), "-12345");
    assert_eq!(decimal(45, 0, 2, 0x80).to_string(), "-0.45");
}

#[test]
fn decimal_pads_the_fraction() {
    assert_eq!(decimal(5, 0, 3, 0).to_string(), "0.005");
    assert_eq!(decimal(1005, 0, 3, 0).to_string(), "1.005");
    assert_eq!(decimal(12300, 0, 2, 0).to_string(), "123.00");
    assert_eq!(decimal(7, 0, 0, 0).to_string(), "7");
}

#[test]
fn decimal_uses_all_96_bits() {
    assert_eq!(
        decimal(u64::MAX, u32::MAX, 0, 0).to_string(),
        "79228162514264337593543950335"
    );
    assert_eq!(
        decimal(u64::MAX, u32::MAX, 28, 0).to_string(),
        "7.9228162514264337593543950335"
    );
    assert_eq!(decimal(0, 1, 0, 0).to_string(), "18446744073709551616");
}

#[test]
fn decimal_with_a_scale_beyond_its_digits() {
    assert_eq!(
        decimal(u64::MAX, u32::MAX, 30, 0).to_string(),
        "0.079228162514264337593543950335"
    );
    assert_eq!(decimal(1, 0, 40, 0x80).to_string(), format!("-0.{}1", "0".repeat(39)));
}

#[test]
fn float_bit_patterns_keep_signed_zero_and_nan() {
    assert_eq!(float(-0.0).to_bits(), 0x8000_0000);
    assert_ne!(float(-0.0), float(0.0));
    assert_eq!(double(f64::NAN), double(f64::NAN));
}
