use gk6x_core::Error;
use gk6x_core::UNUSED_KEY_VALUE;
use gk6x_core::layer::Layer;
use gk6x_core::layer::layer_code;
use gk6x_core::layer::layer_profile_suffix;
use gk6x_core::state::KeySetEntry;
use gk6x_core::state::LayerDefaults;
use gk6x_core::state::ProfileData;
use gk6x_core::state::State;
use gk6x_core::state::StateLayer;
use gk6x_core::state::setup_driver_key_set_buffer;

fn empty_defaults() -> LayerDefaults {
    LayerDefaults { base: None, driver: None, layer1: None, layer2: None, layer3: None }
}

fn profile(entries: Vec<(i64, &str)>) -> ProfileData {
    ProfileData {
        key_set: entries
            .into_iter()
            .map(|(index, dv)| KeySetEntry { index, driver_value: dv.to_string() })
            .collect(),
        fn_key_set: Vec::new(),
        has_le_set: false,
    }
}

#[test]
fn max_logic_code_is_the_dimension_sum() {
    let mut st = State::new();
    st.firmware_id = 0x0200;
    st.model_id = 1001;
    st.initialize_buffers(6, 17, empty_defaults());
    assert_eq!(st.get_max_logic_code(), 23);
    assert!(st.has_initialized_buffers());
}

#[test]
fn max_logic_code_is_zero_when_either_dimension_is_zero() {
    let mut st = State::new();
    st.firmware_id = 1;
    st.model_id = 1;
    st.initialize_buffers(0, 17, empty_defaults());
    assert_eq!(st.get_max_logic_code(), 0);
    assert!(!st.has_initialized_buffers());
    st.initialize_buffers(6, 0, empty_defaults());
    assert_eq!(st.get_max_logic_code(), 0);
    st.initialize_buffers(0, 0, empty_defaults());
    assert_eq!(st.get_max_logic_code(), 0);
}

#[test]
fn unresolved_identity_yields_zero_layers() {
    let mut st = State::new();
    assert_eq!(st.firmware_id, 0);
    st.model_id = 1001;
    st.initialize_buffers(6, 17, empty_defaults());
    assert!(st.get_layer(Layer::Base).is_none());
    assert!(st.get_layer(Layer::Driver).is_none());
    assert!(st.get_layer(Layer::Layer1).is_none());
    assert!(st.get_layer(Layer::Layer2).is_none());
    assert!(st.get_layer(Layer::Layer3).is_none());
    assert!(!st.has_initialized_buffers());
    assert_eq!(st.get_max_logic_code(), 0);

    let mut st2 = State::new();
    st2.firmware_id = 0x0200;
    assert_eq!(st2.model_id, 0);
    st2.initialize_buffers(6, 17, empty_defaults());
    assert!(st2.get_layer(Layer::Base).is_none());
    assert!(!st2.has_initialized_buffers());
}

#[test]
fn index_relative_macro_layer_quirk() {
    let mut buf = vec![UNUSED_KEY_VALUE; 10];
    let entries = vec![KeySetEntry { index: 3, driver_value: "0A030001".to_string() }];
    setup_driver_key_set_buffer(&entries, &mut buf).unwrap();
    assert_eq!(buf[3], 0x0A030004);
    for (i, v) in buf.iter().enumerate() {
        if i != 3 {
            assert_eq!(*v, UNUSED_KEY_VALUE);
        }
    }

    let mut buf2 = vec![UNUSED_KEY_VALUE; 10];
    let entries2 = vec![KeySetEntry { index: 5, driver_value: "0A010001".to_string() }];
    setup_driver_key_set_buffer(&entries2, &mut buf2).unwrap();
    assert_eq!(buf2[5], 0x0A010006);
}

#[test]
fn literal_values_are_not_index_relative() {
    let mut buf = vec![UNUSED_KEY_VALUE; 10];
    let entries = vec![KeySetEntry { index: 3, driver_value: "02002900".to_string() }];
    setup_driver_key_set_buffer(&entries, &mut buf).unwrap();
    assert_eq!(buf[3], 0x02002900);
}

#[test]
fn out_of_range_indices_are_ignored() {
    let mut buf = vec![UNUSED_KEY_VALUE; 10];
    let entries = vec![
        KeySetEntry { index: 50, driver_value: "02002900".to_string() },
        KeySetEntry { index: -1, driver_value: "02003A00".to_string() },
        KeySetEntry { index: 0, driver_value: "02003B00".to_string() },
    ];
    setup_driver_key_set_buffer(&entries, &mut buf).unwrap();
    assert_eq!(buf[0], 0x02003B00);
    for v in &buf[1..] {
        assert_eq!(*v, UNUSED_KEY_VALUE);
    }
}

#[test]
fn malformed_driver_value_fails_the_list() {
    let mut buf = vec![UNUSED_KEY_VALUE; 10];
    let entries = vec![KeySetEntry { index: 1, driver_value: "not hex".to_string() }];
    assert_eq!(
        setup_driver_key_set_buffer(&entries, &mut buf),
        Err(Error::AssetMalformed)
    );
}

#[test]
fn create_layer_builds_buffers_from_factory_default() {
    let mut st = State::new();
    st.firmware_id = 1;
    st.model_id = 1;
    st.buffer_size_a = 2;
    st.buffer_size_b = 5;
    let mut pd = profile(vec![(3, "0A030001")]);
    pd.has_le_set = true;
    st.create_layer(Layer::Driver, None, Some(pd)).unwrap();
    let layer = st.get_layer(Layer::Driver).unwrap();
    assert_eq!(layer.key_set.len(), 10);
    assert_eq!(layer.key_set[3], 0x0A030004);
    assert_eq!(layer.fn_key_set.len(), 10);
    assert!(layer.fn_key_set.iter().all(|v| *v == UNUSED_KEY_VALUE));
    assert_eq!(layer.key_press_lighting_effect.len(), 128);
    assert!(layer.key_press_lighting_effect.iter().all(|v| *v == 0xFF));
    assert!(layer.has_le_set);
    assert!(layer.factory_default_model_data.is_some());
}

#[test]
fn explicit_model_data_takes_precedence_over_factory_default() {
    let mut st = State::new();
    st.firmware_id = 1;
    st.model_id = 1;
    st.buffer_size_a = 2;
    st.buffer_size_b = 5;
    let md = profile(vec![(0, "02002900")]);
    let fd = profile(vec![(0, "02003A00")]);
    st.create_layer(Layer::Layer1, Some(md), Some(fd)).unwrap();
    let layer = st.get_layer(Layer::Layer1).unwrap();
    assert_eq!(layer.key_set[0], 0x02002900);
}

#[test]
fn layer_without_any_data_stays_unbuilt() {
    let mut st = State::new();
    st.firmware_id = 1;
    st.model_id = 1;
    st.buffer_size_a = 2;
    st.buffer_size_b = 5;
    st.create_layer(Layer::Layer2, None, None).unwrap();
    let layer = st.get_layer(Layer::Layer2).unwrap();
    assert_eq!(layer.key_set.len(), 0);
    assert_eq!(layer.fn_key_set.len(), 0);
    assert!(!layer.has_le_set);
}

#[test]
fn malformed_layer_asset_leaves_the_layer_unbuilt() {
    let mut st = State::new();
    st.firmware_id = 1;
    st.model_id = 1;
    st.buffer_size_a = 2;
    st.buffer_size_b = 5;
    let bad = profile(vec![(0, "oops")]);
    assert_eq!(
        st.create_layer(Layer::Base, None, Some(bad)),
        Err(Error::AssetMalformed)
    );
    let layer = st.get_layer(Layer::Base).unwrap();
    assert_eq!(layer.key_set.len(), 0);
}

#[test]
fn initialize_buffers_builds_all_five_layers() {
    let mut st = State::new();
    st.firmware_id = 1;
    st.model_id = 1;
    let defaults = LayerDefaults {
        base: Some(profile(vec![(0, "02002900")])),
        driver: Some(profile(vec![(1, "02003A00")])),
        layer1: None,
        layer2: None,
        layer3: None,
    };
    st.initialize_buffers(2, 3, defaults);
    assert_eq!(st.get_layer(Layer::Base).unwrap().key_set[0], 0x02002900);
    assert_eq!(st.get_layer(Layer::Driver).unwrap().key_set[1], 0x02003A00);
    assert_eq!(st.get_layer(Layer::Layer1).unwrap().key_set.len(), 0);
    assert_eq!(st.get_layer(Layer::Layer2).unwrap().key_set.len(), 0);
    assert_eq!(st.get_layer(Layer::Layer3).unwrap().key_set.len(), 0);
    assert!(st.get_layer(Layer::Invalid).is_none());
}

#[test]
fn layer_codes_and_suffixes() {
    assert_eq!(layer_code(Layer::Invalid), 0);
    assert_eq!(layer_code(Layer::Base), 1);
    assert_eq!(layer_code(Layer::Layer1), 2);
    assert_eq!(layer_code(Layer::Layer2), 3);
    assert_eq!(layer_code(Layer::Layer3), 4);
    assert_eq!(layer_code(Layer::Driver), 5);
    assert_eq!(layer_profile_suffix(Layer::Base), "");
    assert_eq!(layer_profile_suffix(Layer::Driver), "_online_1");
    assert_eq!(layer_profile_suffix(Layer::Layer1), "_offline_1");
    assert_eq!(layer_profile_suffix(Layer::Layer2), "_offline_2");
    assert_eq!(layer_profile_suffix(Layer::Layer3), "_offline_3");
}

#[test]
fn new_state_and_layer_are_empty() {
    let st = State::new();
    assert_eq!(st.model_id, 0);
    assert_eq!(st.firmware_id, 0);
    assert_eq!(st.keys.len(), 0);
    assert_eq!(st.get_max_logic_code(), 0);
    let sl = StateLayer::new();
    assert_eq!(sl.key_set.len(), 0);
    assert!(!sl.has_le_set);
}
