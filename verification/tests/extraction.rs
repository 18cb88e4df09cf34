use smartmeter_metrics::decimal::Dec;
use smartmeter_metrics::sml::find_by_obis;
use smartmeter_metrics::sml::get_consumption_data;
use smartmeter_metrics::sml::GetListResponse;
use smartmeter_metrics::sml::SmlListEntry;
use smartmeter_metrics::sml::SmlMessage;
use smartmeter_metrics::sml::SmlValue;

fn entry(obis: [u8; 6], value: SmlValue, scaler: Option<i8>) -> SmlListEntry {
    SmlListEntry { obj_name: obis.to_vec(), value, scaler }
}

const POWER: [u8; 6] = [1, 0, 16, 7, 0, 255];
const ENERGY: [u8; 6] = [1, 0, 1, 8, 0, 255];

#[test]
fn identifier_match_is_exact() {
    let list = GetListResponse {
        val_list: vec![
            entry(ENERGY, SmlValue::U64(11), Some(0)),
            entry(POWER, SmlValue::U32(22), Some(0)),
        ],
    };
    let found = find_by_obis(&list, &POWER).unwrap();
    assert_eq!(found.obj_name, POWER.to_vec());
    assert!(matches!(found.value, SmlValue::U32(22)));

    // An identifier absent from the list is "not found", not an error.
    assert!(find_by_obis(&list, &[1, 0, 2, 8, 0, 255]).is_none());

    // No prefix matching.
    assert!(find_by_obis(&list, &[1, 0, 16, 7, 0]).is_none());
}

#[test]
fn locator_returns_first_match_in_list_order() {
    let list = GetListResponse {
        val_list: vec![
            entry(POWER, SmlValue::U32(1), None),
            entry(POWER, SmlValue::U32(2), None),
        ],
    };
    let found = find_by_obis(&list, &POWER).unwrap();
    assert!(matches!(found.value, SmlValue::U32(1)));
}

#[test]
fn extraction_yields_both_fields() {
    let msg = SmlMessage::ListResponse(GetListResponse {
        val_list: vec![
            entry(ENERGY, SmlValue::U64(12345678), Some(-3)),
            entry(POWER, SmlValue::I32(-2500), Some(-1)),
        ],
    });
    let c = get_consumption_data(&msg).unwrap();
    assert_eq!(c.total_consumption_wh, Dec { mantissa: 12345678, exp: -3 });
    assert_eq!(c.current_power_w, Dec { mantissa: -2500, exp: -1 });
    assert_eq!(c.total_consumption_wh.to_text(), "12345.678");
    assert_eq!(c.current_power_w.to_text(), "-250.0");
}

#[test]
fn extraction_is_all_or_nothing() {
    // Only the power entry: no snapshot with a defaulted energy field.
    let msg = SmlMessage::ListResponse(GetListResponse {
        val_list: vec![entry(POWER, SmlValue::U32(250), Some(0))],
    });
    assert!(get_consumption_data(&msg).is_none());

    // Only the energy entry.
    let msg = SmlMessage::ListResponse(GetListResponse {
        val_list: vec![entry(ENERGY, SmlValue::U64(12), Some(0))],
    });
    assert!(get_consumption_data(&msg).is_none());

    // Both present, but one is not numeric.
    let msg = SmlMessage::ListResponse(GetListResponse {
        val_list: vec![
            entry(ENERGY, SmlValue::Bytes(vec![1, 2]), Some(0)),
            entry(POWER, SmlValue::U32(250), Some(0)),
        ],
    });
    assert!(get_consumption_data(&msg).is_none());
}

#[test]
fn other_message_bodies_are_not_applicable() {
    assert!(get_consumption_data(&SmlMessage::Other).is_none());
}
