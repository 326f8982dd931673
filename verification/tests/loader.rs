use gk6x_core::Asset;
use gk6x_core::UNUSED_KEY_VALUE;
use gk6x_core::key_values::KeyCatalog;
use gk6x_core::key_values::load;
use gk6x_core::keymap::KeymapData;
use gk6x_core::keymap::is_js_keymap;
use gk6x_core::registry::ModelAsset;
use gk6x_core::registry::ModelEntry;
use gk6x_core::registry::StateRegistry;
use gk6x_core::state::Key;
use gk6x_core::state::KeyRect;
use gk6x_core::state::KeySetEntry;
use gk6x_core::state::ProfileData;
use gk6x_core::state::State;
use gk6x_core::modes::LightingEffectColorType;
use gk6x_core::modes::LightingEffectType;
use gk6x_core::modes::MacroKeyState;
use gk6x_core::modes::MacroKeyType;
use gk6x_core::modes::MacroRepeatType;
use gk6x_core::modes::lighting_effect_color_type_code;
use gk6x_core::modes::lighting_effect_type_code;
use gk6x_core::modes::macro_key_state_code;
use gk6x_core::modes::macro_key_type_code;
use gk6x_core::modes::macro_repeat_type_code;
use gk6x_core::opcodes::OpCodes;
use gk6x_core::opcodes::op_code;

fn keymap_entry(logic_code: i32, location_code: i32) -> Key {
    let mut k = Key::new();
    k.key_name = format!("K{}", location_code);
    k.show = "x".to_string();
    k.logic_code = logic_code;
    k.location_code = location_code;
    k.position = KeyRect { left: 0, top: 0, width: 10, height: 10 };
    k
}

fn profile(entries: Vec<(i64, &str)>) -> ProfileData {
    ProfileData {
        key_set: entries
            .into_iter()
            .map(|(index, dv)| KeySetEntry { index, driver_value: dv.to_string() })
            .collect(),
        fn_key_set: Vec::new(),
        has_le_set: false,
    }
}

fn keymap(entries: Vec<Key>) -> Option<KeymapData> {
    Some(KeymapData { raw: b"[]".to_vec(), parsed: Some(entries) })
}

fn empty_catalog() -> KeyCatalog {
    load(Asset::Data(Vec::new())).unwrap().catalog
}

#[test]
fn model_scenario_resolves_missing_mappings_to_the_sentinel() {
    let models = vec![ModelAsset {
        entry: ModelEntry {
            model_id: 1001,
            firmware_id: "0x0200".to_string(),
            name: "TestBoard".to_string(),
            le_type: "".to_string(),
        },
        default_profile: Asset::Data(profile(Vec::new())),
        keymap: keymap(vec![keymap_entry(5, 12)]),
    }];
    let catalog = empty_catalog();
    let reg = StateRegistry::load(models, &catalog);
    let st = reg.get_keyboard_state(1001).unwrap();
    assert_eq!(st.firmware_id, 0x0200);
    assert_eq!(st.model_name, "TestBoard");
    assert_eq!(st.keys.len(), 1);
    assert_eq!(st.keys[0].driver_value, UNUSED_KEY_VALUE);
    assert_eq!(st.keys[0].driver_value_name, "0xFFFFFFFF");
    assert_eq!(st.diagnostics.len(), 1);
    assert_eq!(st.diagnostics[0].logic_code, 5);
    assert_eq!(st.diagnostics[0].location_code, 12);
}

#[test]
fn shared_driver_value_keys_take_ordinal_suffixes() {
    let mut st = State::new();
    st.firmware_id = 1;
    st.model_id = 1;
    let pd = profile(vec![(1, "02002900")]);
    let entries = vec![keymap_entry(1, 10), keymap_entry(1, 11), keymap_entry(1, 12)];
    let catalog = empty_catalog();
    st.load_keys(Asset::Data(pd), keymap(entries), &catalog).unwrap();
    assert_eq!(st.keys.len(), 3);
    assert_eq!(st.keys[0].driver_value, 0x02002900);
    assert_eq!(st.keys[1].driver_value, 0x02002900);
    assert_eq!(st.keys[2].driver_value, 0x02002900);
    assert_eq!(st.keys[0].driver_value_name, "Esc");
    assert_eq!(st.keys[1].driver_value_name, "Esc_2");
    assert_eq!(st.keys[2].driver_value_name, "Esc_3");
}

#[test]
fn profile_override_beats_catalog_which_beats_sentinel() {
    let mut group = gk6x_core::key_values::Group::new();
    group.p_name = "primary".to_string();
    let mut ck = gk6x_core::key_values::Key::new(0);
    ck.logic_code = 7;
    ck.driver_value = 0x02003A00;
    group.keys.push(ck);
    let kv = load(Asset::Data(vec![group])).unwrap();

    let mut st = State::new();
    st.firmware_id = 1;
    st.model_id = 1;
    let pd = profile(vec![(1, "02002900")]);
    let entries = vec![keymap_entry(1, 10), keymap_entry(7, 11), keymap_entry(9, 12)];
    st.load_keys(Asset::Data(pd), keymap(entries), &kv.catalog).unwrap();
    assert_eq!(st.keys[0].driver_value, 0x02002900, "override wins");
    assert_eq!(st.keys[1].driver_value, 0x02003A00, "catalog fallback");
    assert_eq!(st.keys[2].driver_value, UNUSED_KEY_VALUE, "sentinel otherwise");
    assert_eq!(st.keys[1].driver_value_name, "F1");
    assert_eq!(st.diagnostics.len(), 1);
    assert_eq!(st.diagnostics[0].logic_code, 9);
}

#[test]
fn catalog_lookup_prefers_the_last_registration() {
    let mut group = gk6x_core::key_values::Group::new();
    let mut k1 = gk6x_core::key_values::Key::new(0);
    k1.logic_code = 7;
    k1.driver_value = 0x02003A00;
    let mut k2 = gk6x_core::key_values::Key::new(0);
    k2.logic_code = 7;
    k2.driver_value = 0x02003B00;
    group.keys.push(k1);
    group.keys.push(k2);
    let kv = load(Asset::Data(vec![group])).unwrap();
    let found = kv.catalog.lookup_by_logic_code(7).unwrap();
    assert_eq!(found.driver_value, 0x02003B00);
    assert!(kv.catalog.lookup_by_logic_code(8).is_none());
}

#[test]
fn catalog_load_rebinds_keys_to_their_groups() {
    let mut g1 = gk6x_core::key_values::Group::new();
    g1.p_name = "primary".to_string();
    let mut k1 = gk6x_core::key_values::Key::new(99);
    k1.logic_code = 1;
    g1.keys.push(k1);
    let mut g2 = gk6x_core::key_values::Group::new();
    g2.p_name = "numpad".to_string();
    let mut k2 = gk6x_core::key_values::Key::new(99);
    k2.logic_code = 2;
    g2.keys.push(k2);
    let kv = load(Asset::Data(vec![g1, g2])).unwrap();
    assert_eq!(kv.catalog.groups.len(), 2);
    assert_eq!(kv.catalog.groups[0].keys[0].group, 0);
    assert_eq!(kv.catalog.groups[1].keys[0].group, 1);
    assert_eq!(kv.catalog.groups[1].p_name, "numpad");
}

#[test]
fn malformed_model_does_not_prevent_others_from_loading() {
    let make = |id: u32, dp: Asset<ProfileData>| ModelAsset {
        entry: ModelEntry {
            model_id: id,
            firmware_id: "0x0200".to_string(),
            name: format!("M{}", id),
            le_type: String::new(),
        },
        default_profile: dp,
        keymap: keymap(vec![keymap_entry(1, 1)]),
    };
    let catalog = empty_catalog();

    let models = vec![
        make(1, Asset::Malformed),
        make(2, Asset::Data(profile(vec![(1, "02002900")]))),
    ];
    let reg = StateRegistry::load(models, &catalog);
    assert!(reg.get_keyboard_state(1).is_none());
    let st = reg.get_keyboard_state(2).unwrap();
    assert_eq!(st.keys[0].driver_value, 0x02002900);

    let models2 = vec![
        make(2, Asset::Data(profile(vec![(1, "02002900")]))),
        make(1, Asset::Missing),
    ];
    let reg2 = StateRegistry::load(models2, &catalog);
    assert!(reg2.get_keyboard_state(1).is_none());
    assert!(reg2.get_keyboard_state(2).is_some());
}

#[test]
fn malformed_firmware_id_omits_only_its_model() {
    let catalog = empty_catalog();
    let models = vec![
        ModelAsset {
            entry: ModelEntry {
                model_id: 1,
                firmware_id: "bogus!".to_string(),
                name: "A".to_string(),
                le_type: String::new(),
            },
            default_profile: Asset::Data(profile(Vec::new())),
            keymap: None,
        },
        ModelAsset {
            entry: ModelEntry {
                model_id: 2,
                firmware_id: "0x0101".to_string(),
                name: "B".to_string(),
                le_type: String::new(),
            },
            default_profile: Asset::Data(profile(Vec::new())),
            keymap: None,
        },
    ];
    let reg = StateRegistry::load(models, &catalog);
    assert!(reg.get_keyboard_state(1).is_none());
    assert_eq!(reg.get_keyboard_state(2).unwrap().firmware_id, 0x0101);
}

#[test]
fn js_dialect_keymap_keeps_the_model_without_keys() {
    let catalog = empty_catalog();
    let models = vec![ModelAsset {
        entry: ModelEntry {
            model_id: 5,
            firmware_id: "0x0200".to_string(),
            name: "JsBoard".to_string(),
            le_type: String::new(),
        },
        default_profile: Asset::Data(profile(Vec::new())),
        keymap: Some(KeymapData {
            raw: b"var m = [ { Key Name : \"esc\" } ]".to_vec(),
            parsed: None,
        }),
    }];
    let reg = StateRegistry::load(models, &catalog);
    let st = reg.get_keyboard_state(5).unwrap();
    assert_eq!(st.keys.len(), 0);
}

#[test]
fn missing_keymap_keeps_the_model_without_keys() {
    let catalog = empty_catalog();
    let models = vec![ModelAsset {
        entry: ModelEntry {
            model_id: 6,
            firmware_id: "0x0200".to_string(),
            name: "Bare".to_string(),
            le_type: String::new(),
        },
        default_profile: Asset::Data(profile(Vec::new())),
        keymap: None,
    }];
    let reg = StateRegistry::load(models, &catalog);
    assert_eq!(reg.get_keyboard_state(6).unwrap().keys.len(), 0);
}

#[test]
fn dialect_detection_ignores_spaces() {
    assert!(is_js_keymap(&b"Key Name : x".to_vec()));
    assert!(is_js_keymap(&b"KeyName:".to_vec()));
    assert!(is_js_keymap(&b"  K e y N a m e :  ".to_vec()));
    assert!(!is_js_keymap(&b"keyname:".to_vec()));
    assert!(!is_js_keymap(&b"[]".to_vec()));
    assert!(!is_js_keymap(&b"KeyName".to_vec()));
    assert!(!is_js_keymap(&b"".to_vec()));
}

fn reload_inputs() -> (Vec<ModelAsset>, KeyCatalog) {
    let models = vec![ModelAsset {
        entry: ModelEntry {
            model_id: 1001,
            firmware_id: "0x0200".to_string(),
            name: "TestBoard".to_string(),
            le_type: String::new(),
        },
        default_profile: Asset::Data(profile(vec![(1, "02002900"), (2, "0A030001")])),
        keymap: keymap(vec![
            keymap_entry(1, 10),
            keymap_entry(1, 11),
            keymap_entry(2, 12),
            keymap_entry(9, 13),
        ]),
    }];
    (models, empty_catalog())
}

#[test]
fn reloading_unchanged_assets_is_idempotent() {
    let (m1, c1) = reload_inputs();
    let (m2, c2) = reload_inputs();
    let r1 = StateRegistry::load(m1, &c1);
    let r2 = StateRegistry::load(m2, &c2);
    assert_eq!(r1.states.len(), r2.states.len());
    let a = r1.get_keyboard_state(1001).unwrap();
    let b = r2.get_keyboard_state(1001).unwrap();
    assert_eq!(a.keys.len(), b.keys.len());
    assert_eq!(a.diagnostics.len(), b.diagnostics.len());
    for (ka, kb) in a.keys.iter().zip(b.keys.iter()) {
        assert_eq!(ka.driver_value, kb.driver_value);
        assert_eq!(ka.driver_value_name, kb.driver_value_name);
        assert_eq!(ka.logic_code, kb.logic_code);
        assert_eq!(ka.location_code, kb.location_code);
    }
}

#[test]
fn key_lookups_return_the_last_match() {
    let mut st = State::new();
    st.firmware_id = 1;
    st.model_id = 1;
    let pd = profile(vec![(1, "02002900"), (2, "02003A00")]);
    let entries = vec![keymap_entry(1, 10), keymap_entry(2, 10)];
    st.load_keys(Asset::Data(pd), keymap(entries), &empty_catalog()).unwrap();
    let by_loc = st.get_key_at_location_code(10).unwrap();
    assert_eq!(by_loc.driver_value, 0x02003A00, "later key shadows the earlier one");
    assert!(st.get_key_at_location_code(99).is_none());
    let by_logic = st.get_key_by_logic_code(1).unwrap();
    assert_eq!(by_logic.driver_value, 0x02002900);
    assert!(st.get_key_by_logic_code(3).is_none());
}

#[test]
fn missing_default_profile_fails_the_model_load() {
    let mut st = State::new();
    st.firmware_id = 1;
    st.model_id = 1;
    let r = st.load_keys(Asset::Missing, keymap(vec![keymap_entry(1, 1)]), &empty_catalog());
    assert_eq!(r, Err(gk6x_core::Error::AssetNotFound));
    assert_eq!(st.keys.len(), 0);

    let r2 = st.load_keys(Asset::Malformed, None, &empty_catalog());
    assert_eq!(r2, Err(gk6x_core::Error::AssetMalformed));
}

#[test]
fn js_dialect_keymap_reports_its_own_error() {
    let mut st = State::new();
    st.firmware_id = 1;
    st.model_id = 1;
    let km = Some(KeymapData { raw: b"KeyName: x".to_vec(), parsed: None });
    let r = st.load_keys(Asset::Data(profile(Vec::new())), km, &empty_catalog());
    assert_eq!(r, Err(gk6x_core::Error::UnsupportedKeymapFormat));
    assert_eq!(st.keys.len(), 0);
}

#[test]
fn unparsable_keymap_fails_the_model_load() {
    let mut st = State::new();
    st.firmware_id = 1;
    st.model_id = 1;
    let km = Some(KeymapData { raw: b"{broken".to_vec(), parsed: None });
    let r = st.load_keys(Asset::Data(profile(Vec::new())), km, &empty_catalog());
    assert_eq!(r, Err(gk6x_core::Error::AssetMalformed));
}

#[test]
fn resolver_names_directly() {
    let base = "Esc".to_string();
    let keys: Vec<Key> = Vec::new();
    let name = gk6x_core::resolver::resolve_unique_name(&keys, &base).unwrap();
    assert_eq!(name, "Esc");
    let mut k = Key::new();
    k.driver_value_name = "Esc".to_string();
    let taken = vec![k];
    let name2 = gk6x_core::resolver::resolve_unique_name(&taken, &base).unwrap();
    assert_eq!(name2, "Esc_2");
}

#[test]
fn name_base_prefers_the_symbolic_name() {
    assert_eq!(gk6x_core::resolver::name_base(0x02002900), "Esc");
    assert_eq!(gk6x_core::resolver::name_base(0), "None");
    assert_eq!(gk6x_core::resolver::name_base(0xFFFFFFFF), "0xFFFFFFFF");
    assert_eq!(gk6x_core::resolver::name_base(0x12345678), "0x12345678");
}

#[test]
fn product_table_holds_the_known_vendor() {
    let products = gk6x_core::manager::init();
    assert_eq!(products.len(), 1);
    assert_eq!(products[0].vendor_id, 0x1EA7);
    assert_eq!(products[0].product_ids, vec![0x907]);
}

#[test]
fn mode_and_op_codes() {
    assert_eq!(lighting_effect_type_code(LightingEffectType::Static), 0);
    assert_eq!(lighting_effect_type_code(LightingEffectType::Dynamic), 3);
    assert_eq!(lighting_effect_color_type_code(LightingEffectColorType::RGB), 1);
    assert_eq!(macro_repeat_type_code(MacroRepeatType::PressKeyAgainToStop), 3);
    assert_eq!(macro_key_type_code(MacroKeyType::Mouse), 2);
    assert_eq!(macro_key_state_code(MacroKeyState::Up), 2);
    assert_eq!(op_code(OpCodes::SetLayer), 0x0B);
    assert_eq!(op_code(OpCodes::DriverLayerSetConfig), 0x17);
    assert_eq!(op_code(OpCodes::LayerFnSetKeyValues), 0x31);
}
