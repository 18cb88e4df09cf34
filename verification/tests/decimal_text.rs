use smartmeter_metrics::decimal::digits_u128;
use smartmeter_metrics::decimal::Dec;
use smartmeter_metrics::pipeline::data_url;
use smartmeter_metrics::sml::get_scaled_value;
use smartmeter_metrics::sml::sml_value_to_decimal;
use smartmeter_metrics::sml::SmlListEntry;
use smartmeter_metrics::sml::SmlValue;

#[test]
fn scaling_scenario_u32_with_negative_scaler() {
    // A value tagged as unsigned 32-bit 123456 with scaler -2 converts to
    // exactly 1234.56.
    let entry = SmlListEntry {
        obj_name: vec![1, 0, 16, 7, 0, 255],
        value: SmlValue::U32(123456),
        scaler: Some(-2),
    };
    let d = get_scaled_value(&entry).unwrap();
    assert_eq!(d, Dec { mantissa: 123456, exp: -2 });
    assert_eq!(d.to_text(), "1234.56");
}

#[test]
fn conversion_is_exact_for_extreme_magnitudes() {
    let d = sml_value_to_decimal(&SmlValue::U64(u64::MAX)).unwrap();
    assert_eq!(d.to_text(), "18446744073709551615");

    let d = sml_value_to_decimal(&SmlValue::I64(i64::MIN)).unwrap();
    assert_eq!(d.to_text(), "-9223372036854775808");

    let entry = SmlListEntry {
        obj_name: vec![1, 0, 1, 8, 0, 255],
        value: SmlValue::U64(u64::MAX),
        scaler: Some(127),
    };
    let d = get_scaled_value(&entry).unwrap();
    let mut expected = String::from("18446744073709551615");
    for _ in 0..127 {
        expected.push('0');
    }
    assert_eq!(d.to_text(), expected);
}

#[test]
fn conversion_is_exact_for_extreme_scalers() {
    let entry = SmlListEntry {
        obj_name: vec![1, 0, 1, 8, 0, 255],
        value: SmlValue::U8(1),
        scaler: Some(-128),
    };
    let d = get_scaled_value(&entry).unwrap();
    let mut expected = String::from("0.");
    for _ in 0..127 {
        expected.push('0');
    }
    expected.push('1');
    assert_eq!(d.to_text(), expected);
}

#[test]
fn missing_scaler_defaults_to_zero() {
    let entry = SmlListEntry {
        obj_name: vec![1, 0, 16, 7, 0, 255],
        value: SmlValue::I16(-42),
        scaler: None,
    };
    let d = get_scaled_value(&entry).unwrap();
    assert_eq!(d, Dec { mantissa: -42, exp: 0 });
    assert_eq!(d.to_text(), "-42");
}

#[test]
fn non_numeric_values_are_not_convertible() {
    assert!(sml_value_to_decimal(&SmlValue::Bool(true)).is_none());
    assert!(sml_value_to_decimal(&SmlValue::Bytes(vec![1, 2, 3])).is_none());
    assert!(sml_value_to_decimal(&SmlValue::List).is_none());
    let entry = SmlListEntry {
        obj_name: vec![1, 0, 16, 7, 0, 255],
        value: SmlValue::Bytes(vec![9]),
        scaler: Some(2),
    };
    assert!(get_scaled_value(&entry).is_none());
}

#[test]
fn decimal_text_keeps_carried_zeros() {
    assert_eq!(Dec::new(0, 0).to_text(), "0");
    assert_eq!(Dec::new(0, -2).to_text(), "0.00");
    assert_eq!(Dec::new(2500, -1).to_text(), "250.0");
    assert_eq!(Dec::new(12345678, -3).to_text(), "12345.678");
    assert_eq!(Dec::new(-5, -3).to_text(), "-0.005");
    assert_eq!(Dec::new(5, 3).to_text(), "5000");
    assert_eq!(Dec::new(-250, 1).to_text(), "-2500");
}

#[test]
fn digit_rendering_matches_decimal_notation() {
    assert_eq!(digits_u128(0), "0");
    assert_eq!(digits_u128(7), "7");
    assert_eq!(digits_u128(105), "105");
    assert_eq!(digits_u128(u128::MAX), format!("{}", u128::MAX));
}

#[test]
fn data_url_renders_host_and_node() {
    assert_eq!(data_url("meter.local", 1), "http://meter.local/data.json?node_id=1");
    assert_eq!(data_url("10.0.0.2:8080", 42), "http://10.0.0.2:8080/data.json?node_id=42");
}
