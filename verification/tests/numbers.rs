use gk6x_core::Error;
use gk6x_core::numtext::parse_hex_u32;
use gk6x_core::numtext::u32_to_dec;
use gk6x_core::numtext::u32_to_hex8;
use gk6x_core::state::State;

#[test]
fn parse_hex_accepts_prefixed_and_bare_forms() {
    assert_eq!(parse_hex_u32("0x0200"), Ok(0x0200));
    assert_eq!(parse_hex_u32("0X0200"), Ok(0x0200));
    assert_eq!(parse_hex_u32("0A030001"), Ok(0x0A030001));
    assert_eq!(parse_hex_u32("ff"), Ok(255));
    assert_eq!(parse_hex_u32("FFFFFFFF"), Ok(u32::MAX));
    assert_eq!(parse_hex_u32("0"), Ok(0));
    assert_eq!(parse_hex_u32("000000001"), Ok(1));
}

#[test]
fn parse_hex_rejects_malformed_fields() {
    assert_eq!(parse_hex_u32(""), Err(Error::AssetMalformed));
    assert_eq!(parse_hex_u32("0x"), Err(Error::AssetMalformed));
    assert_eq!(parse_hex_u32("zz"), Err(Error::AssetMalformed));
    assert_eq!(parse_hex_u32("12 34"), Err(Error::AssetMalformed));
    assert_eq!(parse_hex_u32("100000000"), Err(Error::AssetMalformed));
}

#[test]
fn decimal_rendering() {
    assert_eq!(u32_to_dec(0), "0");
    assert_eq!(u32_to_dec(2), "2");
    assert_eq!(u32_to_dec(10), "10");
    assert_eq!(u32_to_dec(23), "23");
    assert_eq!(u32_to_dec(4294967295), "4294967295");
}

#[test]
fn hex_rendering() {
    assert_eq!(u32_to_hex8(0x0A030004), "0A030004");
    assert_eq!(u32_to_hex8(0), "00000000");
    assert_eq!(u32_to_hex8(0xFFFFFFFF), "FFFFFFFF");
    assert_eq!(u32_to_hex8(0xDEADBEEF), "DEADBEEF");
}

#[test]
fn firmware_version_composition() {
    let mut st = State::new();
    st.firmware_major_version = 1;
    st.firmware_minor_version = 2;
    assert_eq!(st.get_firmware_version(), 0x0102);
    assert_eq!(st.firmware_version(), "v1.2");
    st.firmware_major_version = 0;
    st.firmware_minor_version = 0;
    assert_eq!(st.get_firmware_version(), 0);
    assert_eq!(st.firmware_version(), "v0.0");
    st.firmware_major_version = 255;
    st.firmware_minor_version = 255;
    assert_eq!(st.get_firmware_version(), 0xFFFF);
    assert_eq!(st.firmware_version(), "v255.255");
}
