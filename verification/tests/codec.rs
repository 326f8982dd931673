use gk6x_core::Asset;
use gk6x_core::Error;
use gk6x_core::key_values::DecodedDriverValue;
use gk6x_core::key_values::DriverValueModifier;
use gk6x_core::key_values::DriverValueMouseButton;
use gk6x_core::key_values::DriverValueType;
use gk6x_core::key_values::MODIFIER_LCTRL;
use gk6x_core::key_values::MODIFIER_LSHIFT;
use gk6x_core::key_values::MOUSE_BUTTON_LBUTTON;
use gk6x_core::key_values::MOUSE_BUTTON_RBUTTON;
use gk6x_core::key_values::decode_driver_value;
use gk6x_core::key_values::driver_value_type_code;
use gk6x_core::key_values::load;
use gk6x_core::driver_value::DriverValue;
use gk6x_core::driver_value::driver_value_code;
use gk6x_core::driver_value::driver_value_from_code;
use gk6x_core::driver_value::driver_value_name;

#[test]
fn compression_tables_round_trip_every_byte() {
    let kv = load(Asset::Data(Vec::new())).unwrap();
    for b in 0u32..=255 {
        let short = kv.tables.compress(b).expect("every byte value is registered");
        assert_eq!(short, b as u8);
        assert_eq!(kv.tables.decompress(short), b);
    }
}

#[test]
fn compression_tables_cover_only_registered_values() {
    let kv = load(Asset::Data(Vec::new())).unwrap();
    assert_eq!(kv.tables.compress(0x02002900), None);
    assert_eq!(kv.tables.compress(256), None);
}

#[test]
fn catalog_load_fails_without_asset() {
    match load(Asset::Missing) {
        Err(Error::AssetNotFound) => {}
        other => panic!("unexpected: {:?}", other.is_ok()),
    }
    match load(Asset::Malformed) {
        Err(Error::AssetMalformed) => {}
        other => panic!("unexpected: {:?}", other.is_ok()),
    }
}

#[test]
fn decode_key_category() {
    let d = decode_driver_value(0x02002900).unwrap();
    assert_eq!(
        d,
        DecodedDriverValue { category: DriverValueType::Key, code: 0x29, modifiers: 0 }
    );
    let shift = decode_driver_value(0x02000002).unwrap();
    assert_eq!(shift.category, DriverValueType::Key);
    assert_eq!(shift.modifiers, MODIFIER_LSHIFT);
}

#[test]
fn decode_other_categories() {
    assert_eq!(
        decode_driver_value(0x01010001).unwrap().category,
        DriverValueType::Mouse
    );
    assert_eq!(
        decode_driver_value(0x030000E9).unwrap().category,
        DriverValueType::System
    );
    assert_eq!(
        decode_driver_value(0x0A010001).unwrap().category,
        DriverValueType::Macro
    );
    assert_eq!(
        decode_driver_value(0x0A070002).unwrap().category,
        DriverValueType::TempSwitchLayer
    );
    assert_eq!(decode_driver_value(0).unwrap().category, DriverValueType::NoValue);
}

#[test]
fn decode_rejects_unknown_category() {
    match decode_driver_value(0x09010010) {
        Err(Error::UnknownDriverValueCategory) => {}
        _ => panic!("lighting values have no recognized category"),
    }
    match decode_driver_value(0xFFFFFFFF) {
        Err(Error::UnknownDriverValueCategory) => {}
        _ => panic!("the sentinel has no recognized category"),
    }
}

#[test]
fn driver_value_codes_and_names() {
    assert_eq!(driver_value_code(DriverValue::Esc), 0x02002900);
    assert_eq!(driver_value_code(DriverValue::All), 0xFE000001);
    assert_eq!(driver_value_code(DriverValue::NoValue), 0);
    assert_eq!(driver_value_from_code(0x02002900), Some(DriverValue::Esc));
    assert_eq!(driver_value_from_code(0xDEADBEEF), None);
    assert_eq!(driver_value_name(DriverValue::Esc), "Esc");
    assert_eq!(driver_value_name(DriverValue::NoValue), "None");
    assert_eq!(driver_value_name(DriverValue::TempSwitchLayerBase), "TempSwitchLayerBase");
}

#[test]
fn every_driver_value_round_trips_through_its_code() {
    let samples = [
        DriverValue::Esc,
        DriverValue::LShift,
        DriverValue::VolumeUp,
        DriverValue::MouseLClick,
        DriverValue::TempSwitchLayer3,
        DriverValue::All,
        DriverValue::NoValue,
    ];
    for v in samples {
        assert_eq!(driver_value_from_code(driver_value_code(v)), Some(v));
    }
}

#[test]
fn modifier_flag_set_operations() {
    let a = DriverValueModifier::from_bits(MODIFIER_LCTRL);
    let b = DriverValueModifier::from_bits(MODIFIER_LSHIFT);
    let u = a.union(b);
    assert_eq!(u.bits(), 0x03);
    assert!(u.contains(a));
    assert!(u.contains(b));
    assert!(!a.contains(b));
    assert_eq!(u.intersect(a).bits(), MODIFIER_LCTRL);
    assert_eq!(DriverValueModifier::empty().bits(), 0);
}

#[test]
fn mouse_button_flag_set_operations() {
    let l = DriverValueMouseButton::from_bits(MOUSE_BUTTON_LBUTTON);
    let r = DriverValueMouseButton::from_bits(MOUSE_BUTTON_RBUTTON);
    let both = l.union(r);
    assert_eq!(both.bits(), 0x03);
    assert!(both.contains(l));
    assert_eq!(both.intersect(r).bits(), MOUSE_BUTTON_RBUTTON);
    assert_eq!(DriverValueMouseButton::empty().bits(), 0);
}

#[test]
fn driver_value_type_codes() {
    assert_eq!(driver_value_type_code(DriverValueType::NoValue), 0);
    assert_eq!(driver_value_type_code(DriverValueType::Mouse), 0x0101);
    assert_eq!(driver_value_type_code(DriverValueType::Key), 0x0200);
    assert_eq!(driver_value_type_code(DriverValueType::System), 0x0300);
    assert_eq!(driver_value_type_code(DriverValueType::Macro), 0x0A01);
    assert_eq!(driver_value_type_code(DriverValueType::TempSwitchLayer), 0x0A07);
}
