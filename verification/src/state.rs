//! The per-model configuration state: the profile keys with their resolved
//! driver values and model-unique names, and the five per-layer key-slot
//! buffers built from factory-default profile data.

use vstd::prelude::*;
use vstd::string::*;

use crate::Asset;
use crate::Error;
use crate::UNUSED_KEY_VALUE;
use crate::key_values::KeyCatalog;
use crate::key_values::spec_all_keys;
use crate::key_values::spec_lookup_last_by_logic_code;
use crate::keymap::KeymapData;
use crate::keymap::spec_is_js_keymap;
use crate::keymap::is_js_keymap;
use crate::layer::Layer;
use crate::numtext::spec_dec_seq;
use crate::numtext::spec_parse_hex_u32;
use crate::numtext::parse_hex_u32;
use crate::numtext::u32_to_dec;
use crate::resolver::KeyModel;
use crate::resolver::spec_key_model;
use crate::resolver::spec_keys_model;
use crate::resolver::spec_name_base;
use crate::resolver::spec_pick_name;
use crate::resolver::name_base;
use crate::resolver::resolve_unique_name;

verus! {

/// A key's position for display and editing.
#[derive(Clone, Copy, Debug, PartialEq, Eq, Structural)]
pub struct KeyRect {
    pub left: i32,
    pub top: i32,
    pub width: i32,
    pub height: i32,
}

/// One key of one model's profile: where it sits, which slot it fills,
/// what driver value it resolved to, and its model-unique name.
pub struct Key {
    pub key_name: String,
    pub show: String,
    pub logic_code: i32,
    pub location_code: i32,
    pub position: KeyRect,
    pub driver_value: u32,
    /// Unique within the owning model, even among keys that share one
    /// driver value.
    pub driver_value_name: String,
}

impl Key {
    /// A blank profile key.
    pub fn new() -> (k: Key)
        ensures
            k.key_name@.len() == 0,
            k.show@.len() == 0,
            k.logic_code == 0,
            k.location_code == 0,
            k.position == (KeyRect { left: 0, top: 0, width: 0, height: 0 }),
            k.driver_value == 0,
            k.driver_value_name@.len() == 0,
    {
        Key {
            key_name: String::new(),
            show: String::new(),
            logic_code: 0,
            location_code: 0,
            position: KeyRect { left: 0, top: 0, width: 0, height: 0 },
            driver_value: 0,
            driver_value_name: String::new(),
        }
    }
}

/// One slot assignment of a profile asset: which buffer slot, and the
/// driver value as the hexadecimal text the asset writes.
pub struct KeySetEntry {
    pub index: i64,
    pub driver_value: String,
}

/// A parsed profile asset: the two slot-assignment lists and whether the
/// asset carries a lighting-effect set.
pub struct ProfileData {
    pub key_set: Vec<KeySetEntry>,
    pub fn_key_set: Vec<KeySetEntry>,
    /// Whether the source data holds a `DeviceLE.LESet` section.
    pub has_le_set: bool,
}

/// One layer's built buffers: the two flat driver-value arrays indexed by
/// logic code, the key-press-lighting index, a snapshot of the factory
/// default the layer was built from, and the lighting-effect-set flag.
pub struct StateLayer {
    pub factory_default_model_data: Option<ProfileData>,
    pub key_set: Vec<u32>,
    pub fn_key_set: Vec<u32>,
    pub key_press_lighting_effect: Vec<u8>,
    pub has_le_set: bool,
}

impl StateLayer {
    /// An unbuilt layer.
    pub fn new() -> (sl: StateLayer)
        ensures
            sl.factory_default_model_data is None,
            sl.key_set@.len() == 0,
            sl.fn_key_set@.len() == 0,
            sl.key_press_lighting_effect@.len() == 0,
            sl.has_le_set == false,
    {
        StateLayer {
            factory_default_model_data: None,
            key_set: Vec::new(),
            fn_key_set: Vec::new(),
            key_press_lighting_effect: Vec::new(),
            has_le_set: false,
        }
    }
}

/// A recorded non-fatal oddity: a keymap entry whose logic code had no
/// mapping in the profile or the catalog, left at the sentinel value.
#[derive(Clone, Copy, Debug, PartialEq, Eq, Structural)]
pub struct Diagnostic {
    pub logic_code: i32,
    pub location_code: i32,
}

/// One model's loaded configuration: its identity, the two buffer
/// dimensions, the five layer slots, and the resolved profile keys that
/// back the four lookup indices.
pub struct State {
    pub firmware_id: u32,
    pub firmware_major_version: u8,
    pub firmware_minor_version: u8,
    pub model_id: u32,
    pub model_name: String,
    pub base_layer: Option<StateLayer>,
    pub driver_layer: Option<StateLayer>,
    pub layer1: Option<StateLayer>,
    pub layer2: Option<StateLayer>,
    pub layer3: Option<StateLayer>,
    pub buffer_size_a: u8,
    pub buffer_size_b: u8,
    /// The resolved profile keys in source order; the lookups by location
    /// code, logic code, driver value and unique name all read this.
    pub keys: Vec<Key>,
    /// Keys that resolved to the sentinel for want of any mapping.
    pub diagnostics: Vec<Diagnostic>,
}

/// The layer slot a layer names; the invalid placeholder names none.
pub open spec fn spec_layer_slot(s: State, layer: Layer) -> Option<StateLayer> {
    match layer {
        Layer::Invalid => None,
        Layer::Base => s.base_layer,
        Layer::Layer1 => s.layer1,
        Layer::Layer2 => s.layer2,
        Layer::Layer3 => s.layer3,
        Layer::Driver => s.driver_layer,
    }
}

/// Whether a state holds no layers at all.
pub open spec fn spec_no_layers(s: State) -> bool {
    &&& s.base_layer is None
    &&& s.driver_layer is None
    &&& s.layer1 is None
    &&& s.layer2 is None
    &&& s.layer3 is None
}

/// The largest logic code the buffers admit: the sum of the two
/// dimensions.
pub open spec fn spec_max_logic_code(s: State) -> int {
    s.buffer_size_a + s.buffer_size_b
}

impl State {
    /// An empty state with no identity, no layers and no keys.
    pub fn new() -> (s: State)
        ensures
            s.firmware_id == 0,
            s.firmware_major_version == 0,
            s.firmware_minor_version == 0,
            s.model_id == 0,
            s.model_name@.len() == 0,
            spec_no_layers(s),
            s.buffer_size_a == 0,
            s.buffer_size_b == 0,
            s.keys@.len() == 0,
            s.diagnostics@.len() == 0,
    {
        State {
            firmware_id: 0,
            firmware_major_version: 0,
            firmware_minor_version: 0,
            model_id: 0,
            model_name: String::new(),
            base_layer: None,
            driver_layer: None,
            layer1: None,
            layer2: None,
            layer3: None,
            buffer_size_a: 0,
            buffer_size_b: 0,
            keys: Vec::new(),
            diagnostics: Vec::new(),
        }
    }

    /// The firmware version as one ordinal: the major byte over the minor
    /// byte, for version comparisons.
    pub fn get_firmware_version(&self) -> (v: u16)
        ensures
            v == self.firmware_major_version * 256 + self.firmware_minor_version,
    {
        proof {
            let a = self.firmware_major_version;
            let b = self.firmware_minor_version;
            assert((a as u16) << 8 | b as u16 == a * 256 + b) by (bit_vector);
        }
        (self.firmware_major_version as u16) << 8 | self.firmware_minor_version as u16
    }

    /// The firmware version as text, `v<major>.<minor>`.
    pub fn firmware_version(&self) -> (v: String)
        ensures
            v@ == "v"@ + spec_dec_seq(self.firmware_major_version as nat) + "."@ + spec_dec_seq(
                self.firmware_minor_version as nat,
            ),
    {
        let mut s = String::from_str("v");
        let major = u32_to_dec(self.firmware_major_version as u32);
        s.append(major.as_str());
        s.append(".");
        let minor = u32_to_dec(self.firmware_minor_version as u32);
        s.append(minor.as_str());
        s
    }

    /// The largest logic code the buffers admit.
    pub fn get_max_logic_code(&self) -> (m: i32)
        ensures
            m == spec_max_logic_code(*self),
    {
        self.buffer_size_a as i32 + self.buffer_size_b as i32
    }

    /// Whether the buffers have been initialized: the dimensions are set.
    pub fn has_initialized_buffers(&self) -> (r: bool)
        ensures
            r == (spec_max_logic_code(*self) > 0),
    {
        self.get_max_logic_code() > 0
    }
}

/// The two driver values whose base form is index-relative: consecutive
/// macro-layer buttons are encoded by adding the slot's index to the base.
pub open spec fn spec_quirked_value(dv: u32, index: int) -> u32 {
    if dv == 0x0A030001 || dv == 0x0A010001 {
        (dv + index) as u32
    } else {
        dv
    }
}

/// One slot assignment applied to a buffer: the slot takes the value,
/// index-relative for the two macro-layer bases; an out-of-range index is
/// ignored, not an error.
pub open spec fn spec_apply_key_set_entry(buf: Seq<u32>, index: int, dv: u32) -> Seq<u32> {
    if 0 <= index < buf.len() {
        buf.update(index, spec_quirked_value(dv, index))
    } else {
        buf
    }
}

/// A profile's slot assignments applied in order; a malformed driver-value
/// field poisons the whole list.
pub open spec fn spec_apply_key_set(buf: Seq<u32>, entries: Seq<KeySetEntry>) -> Option<Seq<u32>>
    decreases entries.len(),
{
    if entries.len() == 0 {
        Some(buf)
    } else {
        match spec_parse_hex_u32(entries[0].driver_value@) {
            Some(dv) => spec_apply_key_set(
                spec_apply_key_set_entry(buf, entries[0].index as int, dv),
                entries.skip(1),
            ),
            None => None,
        }
    }
}

/// Applying assignments never changes a buffer's length.
pub proof fn lemma_apply_key_set_len(buf: Seq<u32>, entries: Seq<KeySetEntry>)
    requires
        spec_apply_key_set(buf, entries) is Some,
    ensures
        spec_apply_key_set(buf, entries).unwrap().len() == buf.len(),
    decreases entries.len(),
{
    if entries.len() > 0 {
        let dv = spec_parse_hex_u32(entries[0].driver_value@).unwrap();
        lemma_apply_key_set_len(
            spec_apply_key_set_entry(buf, entries[0].index as int, dv),
            entries.skip(1),
        );
    }
}

/// Fills one flat driver-value buffer from a profile's slot-assignment
/// list: each entry's hexadecimal driver value lands in its slot, the two
/// index-relative macro-layer bases get the slot index added, out-of-range
/// indices are ignored, and a malformed driver-value field fails the list.
pub fn setup_driver_key_set_buffer(entries: &Vec<KeySetEntry>, buf: &mut Vec<u32>) -> (r: Result<
    (),
    Error,
>)
    requires
        old(buf)@.len() <= 65536,
    ensures
        r is Ok <==> spec_apply_key_set(old(buf)@, entries@) is Some,
        r is Ok ==> final(buf)@ == spec_apply_key_set(old(buf)@, entries@).unwrap(),
        r matches Err(e) ==> e == Error::AssetMalformed,
        final(buf)@.len() == old(buf)@.len(),
{
    let n = entries.len();
    let mut i: usize = 0;
    proof {
        assert(entries@.skip(0) =~= entries@);
    }
    while i < n
        invariant
            0 <= i <= n,
            n == entries@.len(),
            buf@.len() == old(buf)@.len() <= 65536,
            spec_apply_key_set(old(buf)@, entries@) == spec_apply_key_set(
                buf@,
                entries@.skip(i as int),
            ),
        decreases n - i,
    {
        proof {
            assert(entries@.skip(i as int)[0] == entries@[i as int]);
            assert(entries@.skip(i as int).skip(1) =~= entries@.skip(i + 1));
        }
        let entry = &entries[i];
        let dv = match parse_hex_u32(entry.driver_value.as_str()) {
            Ok(dv) => dv,
            Err(_) => {
                return Err(Error::AssetMalformed);
            },
        };
        if entry.index >= 0 && entry.index < buf.len() as i64 {
            let index = entry.index as usize;
            let value = if dv == 0x0A030001 || dv == 0x0A010001 {
                dv + index as u32
            } else {
                dv
            };
            buf[index] = value;
        }
        i = i + 1;
    }
    proof {
        assert(entries@.skip(i as int).len() == 0);
    }
    Ok(())
}

/// A buffer of the given length with every slot unassigned.
pub open spec fn spec_sentinel_buf(n: int) -> Seq<u32> {
    Seq::new(n as nat, |i: int| UNUSED_KEY_VALUE)
}

/// The profile data a layer build goes by: explicit model data when
/// supplied, else the factory default.
pub open spec fn spec_effective_profile(
    model_data: Option<ProfileData>,
    factory_default: Option<ProfileData>,
) -> Option<ProfileData> {
    if model_data is Some {
        model_data
    } else {
        factory_default
    }
}

/// The fields of a state a layer build never touches.
pub open spec fn spec_identity_fields_eq(a: State, b: State) -> bool {
    &&& a.firmware_id == b.firmware_id
    &&& a.firmware_major_version == b.firmware_major_version
    &&& a.firmware_minor_version == b.firmware_minor_version
    &&& a.model_id == b.model_id
    &&& a.model_name == b.model_name
    &&& a.keys == b.keys
    &&& a.diagnostics == b.diagnostics
}

/// Whether two states have the same buffer dimensions.
pub open spec fn spec_dims_eq(a: State, b: State) -> bool {
    &&& a.buffer_size_a == b.buffer_size_a
    &&& a.buffer_size_b == b.buffer_size_b
}

/// How a built layer relates to its inputs. With no data at all the layer
/// stands unbuilt; with data whose slot assignments all read, the two
/// buffers hold the applied assignments over all-sentinel buffers of
/// length `a * b`, the lighting index holds 128 unassigned entries, and
/// the lighting-effect-set flag follows the data; data with a malformed
/// assignment leaves the layer unbuilt. The factory default is kept as a
/// snapshot either way.
pub open spec fn spec_layer_built(
    sl: StateLayer,
    a: u8,
    b: u8,
    model_data: Option<ProfileData>,
    factory_default: Option<ProfileData>,
) -> bool {
    &&& sl.factory_default_model_data == factory_default
    &&& match spec_effective_profile(model_data, factory_default) {
        Option::None => {
            &&& sl.key_set@.len() == 0
            &&& sl.fn_key_set@.len() == 0
            &&& sl.key_press_lighting_effect@.len() == 0
            &&& sl.has_le_set == false
        },
        Option::Some(data) => {
            let n = a as int * b as int;
            let ks = spec_apply_key_set(spec_sentinel_buf(n), data.key_set@);
            let fs = spec_apply_key_set(spec_sentinel_buf(n), data.fn_key_set@);
            if ks is Some && fs is Some {
                &&& sl.key_set@ == ks.unwrap()
                &&& sl.fn_key_set@ == fs.unwrap()
                &&& sl.key_press_lighting_effect@ == Seq::new(128, |i: int| 0xFFu8)
                &&& sl.has_le_set == data.has_le_set
            } else {
                &&& sl.key_set@.len() == 0
                &&& sl.fn_key_set@.len() == 0
                &&& sl.key_press_lighting_effect@.len() == 0
                &&& sl.has_le_set == false
            }
        },
    }
}

/// The factory-default profile data of each of the five layers, as the
/// caller found them by the fixed naming convention.
pub struct LayerDefaults {
    pub base: Option<ProfileData>,
    pub driver: Option<ProfileData>,
    pub layer1: Option<ProfileData>,
    pub layer2: Option<ProfileData>,
    pub layer3: Option<ProfileData>,
}

impl State {
    /// Stores a built layer in its slot; the invalid placeholder has no
    /// slot and stores nothing.
    fn set_layer_slot(&mut self, layer: Layer, sl: StateLayer)
        ensures
            spec_identity_fields_eq(*final(self), *old(self)),
            spec_dims_eq(*final(self), *old(self)),
            forall|l: Layer|
                l != layer ==> spec_layer_slot(*final(self), l) == spec_layer_slot(*old(self), l),
            layer != Layer::Invalid ==> spec_layer_slot(*final(self), layer) == Some(sl),
    {
        match layer {
            Layer::Invalid => {},
            Layer::Base => {
                self.base_layer = Some(sl);
            },
            Layer::Layer1 => {
                self.layer1 = Some(sl);
            },
            Layer::Layer2 => {
                self.layer2 = Some(sl);
            },
            Layer::Layer3 => {
                self.layer3 = Some(sl);
            },
            Layer::Driver => {
                self.driver_layer = Some(sl);
            },
        }
    }

    /// Builds one layer from profile data: explicit model data takes
    /// precedence over the factory default; with neither the layer is
    /// left unbuilt. The slot assignments fill two all-sentinel buffers
    /// of length `buffer_size_a * buffer_size_b`. Fails only when an
    /// assignment's driver-value field is malformed, and the layer is
    /// then left unbuilt; out-of-range slot indices are ignored.
    pub fn create_layer(
        &mut self,
        layer: Layer,
        model_data: Option<ProfileData>,
        factory_default: Option<ProfileData>,
    ) -> (r: Result<(), Error>)
        ensures
            spec_identity_fields_eq(*final(self), *old(self)),
            spec_dims_eq(*final(self), *old(self)),
            forall|l: Layer|
                l != layer ==> spec_layer_slot(*final(self), l) == spec_layer_slot(*old(self), l),
            layer != Layer::Invalid ==> (spec_layer_slot(*final(self), layer) matches Some(sl)
                && spec_layer_built(
                sl,
                old(self).buffer_size_a,
                old(self).buffer_size_b,
                model_data,
                factory_default,
            )),
            layer != Layer::Invalid ==> (r is Ok <==> match spec_effective_profile(
                model_data,
                factory_default,
            ) {
                Option::None => true,
                Option::Some(data) => {
                    let n = old(self).buffer_size_a as int * old(self).buffer_size_b as int;
                    &&& spec_apply_key_set(spec_sentinel_buf(n), data.key_set@) is Some
                    &&& spec_apply_key_set(spec_sentinel_buf(n), data.fn_key_set@) is Some
                },
            }),
            layer == Layer::Invalid ==> r is Ok && spec_layer_slot(*final(self), layer) is None,
            r matches Err(e) ==> e == Error::AssetMalformed,
    {
        if layer == Layer::Invalid {
            return Ok(());
        }
        let a = self.buffer_size_a;
        let b = self.buffer_size_b;
        proof {
            assert(a as int * b as int <= 65536) by (nonlinear_arith)
                requires
                    a <= 255,
                    b <= 255,
            ;
        }
        let n = a as usize * b as usize;
        let mut new_layer = StateLayer::new();
        let mut ok = true;
        {
            let data_ref = if model_data.is_some() {
                model_data.as_ref()
            } else {
                factory_default.as_ref()
            };
            match data_ref {
                None => {},
                Some(data) => {
                    let mut ks: Vec<u32> = vec![UNUSED_KEY_VALUE; n];
                    let mut fs: Vec<u32> = vec![UNUSED_KEY_VALUE; n];
                    proof {
                        assert(ks@ =~= spec_sentinel_buf(n as int));
                        assert(fs@ =~= spec_sentinel_buf(n as int));
                    }
                    let r1 = setup_driver_key_set_buffer(&data.key_set, &mut ks);
                    let r2 = setup_driver_key_set_buffer(&data.fn_key_set, &mut fs);
                    if r1.is_ok() && r2.is_ok() {
                        new_layer.key_set = ks;
                        new_layer.fn_key_set = fs;
                        let lighting: Vec<u8> = vec![0xFF; 128];
                        proof {
                            assert(lighting@ =~= Seq::new(128, |i: int| 0xFFu8));
                        }
                        new_layer.key_press_lighting_effect = lighting;
                        new_layer.has_le_set = data.has_le_set;
                    } else {
                        ok = false;
                    }
                },
            }
        }
        new_layer.factory_default_model_data = factory_default;
        self.set_layer_slot(layer, new_layer);
        if ok {
            Ok(())
        } else {
            Err(Error::AssetMalformed)
        }
    }

    /// Builds all five fixed layers from their factory defaults. A layer
    /// whose asset is malformed stays unbuilt; the others are still built.
    pub fn create_factory_default_layers(&mut self, defaults: LayerDefaults)
        ensures
            spec_identity_fields_eq(*final(self), *old(self)),
            spec_dims_eq(*final(self), *old(self)),
            spec_layer_slot(*final(self), Layer::Base) matches Some(sl) && spec_layer_built(
                sl,
                old(self).buffer_size_a,
                old(self).buffer_size_b,
                None,
                defaults.base,
            ),
            spec_layer_slot(*final(self), Layer::Driver) matches Some(sl) && spec_layer_built(
                sl,
                old(self).buffer_size_a,
                old(self).buffer_size_b,
                None,
                defaults.driver,
            ),
            spec_layer_slot(*final(self), Layer::Layer1) matches Some(sl) && spec_layer_built(
                sl,
                old(self).buffer_size_a,
                old(self).buffer_size_b,
                None,
                defaults.layer1,
            ),
            spec_layer_slot(*final(self), Layer::Layer2) matches Some(sl) && spec_layer_built(
                sl,
                old(self).buffer_size_a,
                old(self).buffer_size_b,
                None,
                defaults.layer2,
            ),
            spec_layer_slot(*final(self), Layer::Layer3) matches Some(sl) && spec_layer_built(
                sl,
                old(self).buffer_size_a,
                old(self).buffer_size_b,
                None,
                defaults.layer3,
            ),
    {
        let _ = self.create_layer(Layer::Base, None, defaults.base);
        let _ = self.create_layer(Layer::Driver, None, defaults.driver);
        let _ = self.create_layer(Layer::Layer1, None, defaults.layer1);
        let _ = self.create_layer(Layer::Layer2, None, defaults.layer2);
        let _ = self.create_layer(Layer::Layer3, None, defaults.layer3);
    }

    /// Clears all layers and dimensions, then rebuilds the five fixed
    /// layers from factory defaults. Refuses to build anything while the
    /// model's identity is unresolved, and keeps both dimensions zero
    /// unless both are given nonzero, so the largest logic code is the
    /// dimension sum exactly when both dimensions are set and zero when
    /// either is not.
    pub fn initialize_buffers(&mut self, size_a: u8, size_b: u8, defaults: LayerDefaults)
        ensures
            spec_identity_fields_eq(*final(self), *old(self)),
            old(self).firmware_id == 0 || old(self).model_id == 0 ==> {
                &&& spec_no_layers(*final(self))
                &&& final(self).buffer_size_a == 0
                &&& final(self).buffer_size_b == 0
                &&& spec_max_logic_code(*final(self)) == 0
            },
            old(self).firmware_id != 0 && old(self).model_id != 0 ==> {
                let a = if size_a > 0 && size_b > 0 { size_a } else { 0 };
                let b = if size_a > 0 && size_b > 0 { size_b } else { 0 };
                &&& final(self).buffer_size_a == a
                &&& final(self).buffer_size_b == b
                &&& spec_max_logic_code(*final(self)) == a + b
                &&& (size_a == 0 || size_b == 0 ==> spec_max_logic_code(*final(self)) == 0)
                &&& (spec_layer_slot(*final(self), Layer::Base) matches Some(sl)
                    && spec_layer_built(sl, a, b, None, defaults.base))
                &&& (spec_layer_slot(*final(self), Layer::Driver) matches Some(sl)
                    && spec_layer_built(sl, a, b, None, defaults.driver))
                &&& (spec_layer_slot(*final(self), Layer::Layer1) matches Some(sl)
                    && spec_layer_built(sl, a, b, None, defaults.layer1))
                &&& (spec_layer_slot(*final(self), Layer::Layer2) matches Some(sl)
                    && spec_layer_built(sl, a, b, None, defaults.layer2))
                &&& (spec_layer_slot(*final(self), Layer::Layer3) matches Some(sl)
                    && spec_layer_built(sl, a, b, None, defaults.layer3))
            },
    {
        self.base_layer = None;
        self.driver_layer = None;
        self.layer1 = None;
        self.layer2 = None;
        self.layer3 = None;
        self.buffer_size_a = 0;
        self.buffer_size_b = 0;
        if self.firmware_id == 0 || self.model_id == 0 {
            return ;
        }
        if size_a > 0 && size_b > 0 {
            self.buffer_size_a = size_a;
            self.buffer_size_b = size_b;
        }
        self.create_factory_default_layers(defaults);
    }

    /// The built layer in a slot, if any.
    pub fn get_layer(&self, layer: Layer) -> (r: Option<&StateLayer>)
        ensures
            match r {
                Some(sl) => spec_layer_slot(*self, layer) == Some(*sl),
                None => spec_layer_slot(*self, layer) is None,
            },
    {
        match layer {
            Layer::Invalid => None,
            Layer::Base => self.base_layer.as_ref(),
            Layer::Layer1 => self.layer1.as_ref(),
            Layer::Layer2 => self.layer2.as_ref(),
            Layer::Layer3 => self.layer3.as_ref(),
            Layer::Driver => self.driver_layer.as_ref(),
        }
    }
}

/// The driver value a keymap entry resolves to, with whether a diagnostic
/// is recorded: the default-profile override for its logic code when one
/// is present and not the sentinel; else the catalog's definition for
/// that logic code; else the sentinel, with a diagnostic for a positive
/// logic code that found no mapping anywhere.
pub open spec fn spec_resolve_value(
    logic_code: i32,
    overrides: Seq<u32>,
    groups: Seq<crate::key_values::Group>,
) -> (u32, bool) {
    if 0 <= logic_code < overrides.len() && overrides[logic_code as int] != UNUSED_KEY_VALUE {
        (overrides[logic_code as int], false)
    } else if logic_code > 0 {
        match spec_lookup_last_by_logic_code(spec_all_keys(groups), logic_code) {
            Some(k) => (k.driver_value, false),
            None => (UNUSED_KEY_VALUE, true),
        }
    } else {
        (UNUSED_KEY_VALUE, false)
    }
}

/// The loader's walk over the keymap entries in source order: each entry
/// resolves its driver value, takes the first free name for that value's
/// base, and joins the keys; entries whose logic code found no mapping
/// add a diagnostic. Fails only if the name search is ever exhausted.
pub open spec fn spec_load_keys_fold(
    entries: Seq<KeyModel>,
    overrides: Seq<u32>,
    groups: Seq<crate::key_values::Group>,
    keys: Seq<KeyModel>,
    diags: Seq<Diagnostic>,
) -> Option<(Seq<KeyModel>, Seq<Diagnostic>)>
    decreases entries.len(),
{
    if entries.len() == 0 {
        Some((keys, diags))
    } else {
        let e = entries[0];
        let rv = spec_resolve_value(e.logic_code, overrides, groups);
        match spec_pick_name(keys, spec_name_base(rv.0)) {
            None => None,
            Some(name) => {
                let k = KeyModel { driver_value: rv.0, driver_value_name: name, ..e };
                let diags2 = if rv.1 {
                    diags.push(
                        Diagnostic { logic_code: e.logic_code, location_code: e.location_code },
                    )
                } else {
                    diags
                };
                spec_load_keys_fold(entries.skip(1), overrides, groups, keys.push(k), diags2)
            },
        }
    }
}

/// The loader's walk started from nothing.
pub open spec fn spec_load_keys_result(
    entries: Seq<KeyModel>,
    overrides: Seq<u32>,
    groups: Seq<crate::key_values::Group>,
) -> Option<(Seq<KeyModel>, Seq<Diagnostic>)> {
    spec_load_keys_fold(entries, overrides, groups, Seq::empty(), Seq::empty())
}

/// The loader's walk over entries that all resolve to one driver value
/// never exhausts the name search, and names the keys it adds with the
/// successive candidates for that value's base: with `k` keys named so
/// far, the next takes the candidate after them.
pub proof fn lemma_fold_shared_value(
    entries: Seq<KeyModel>,
    overrides: Seq<u32>,
    groups: Seq<crate::key_values::Group>,
    keys: Seq<KeyModel>,
    diags: Seq<Diagnostic>,
    dv: u32,
)
    requires
        forall|t: int|
            0 <= t < entries.len() ==> spec_resolve_value(
                (#[trigger] entries[t]).logic_code,
                overrides,
                groups,
            ).0 == dv,
        forall|j: int|
            0 <= j < keys.len() ==> (#[trigger] keys[j]).driver_value_name
                == crate::resolver::spec_candidate_name(spec_name_base(dv), (j + 1) as nat),
    ensures
        spec_load_keys_fold(entries, overrides, groups, keys, diags) is Some,
        spec_load_keys_fold(entries, overrides, groups, keys, diags).unwrap().0.len()
            == keys.len() + entries.len(),
        forall|j: int|
            0 <= j < keys.len() + entries.len() ==> (#[trigger] spec_load_keys_fold(
                entries,
                overrides,
                groups,
                keys,
                diags,
            ).unwrap().0[j]).driver_value_name == crate::resolver::spec_candidate_name(
                spec_name_base(dv),
                (j + 1) as nat,
            ),
    decreases entries.len(),
{
    let base = spec_name_base(dv);
    if entries.len() > 0 {
        let e = entries[0];
        let k = keys.len() as int;
        assert forall|t: nat| 1 <= t < k + 1 implies #[trigger] crate::resolver::spec_name_used(
            keys,
            crate::resolver::spec_candidate_name(base, t),
        ) by {
            assert(keys[t - 1].driver_value_name == crate::resolver::spec_candidate_name(base, t));
        }
        assert(!crate::resolver::spec_name_used(
            keys,
            crate::resolver::spec_candidate_name(base, (k + 1) as nat),
        )) by {
            if crate::resolver::spec_name_used(
                keys,
                crate::resolver::spec_candidate_name(base, (k + 1) as nat),
            ) {
                let j = choose|j: int|
                    0 <= j < keys.len() && keys[j].driver_value_name
                        == crate::resolver::spec_candidate_name(base, (k + 1) as nat);
                crate::resolver::lemma_candidate_injective(base, (j + 1) as nat, (k + 1) as nat);
            }
        }
        crate::resolver::lemma_pick_name_from_steps(
            keys,
            base,
            1,
            (keys.len() + 1) as nat,
            (k + 1) as nat,
        );
        let rv = spec_resolve_value(e.logic_code, overrides, groups);
        let name = crate::resolver::spec_candidate_name(base, (k + 1) as nat);
        let k2 = KeyModel { driver_value: rv.0, driver_value_name: name, ..e };
        let diags2 = if rv.1 {
            diags.push(Diagnostic { logic_code: e.logic_code, location_code: e.location_code })
        } else {
            diags
        };
        assert(forall|t: int|
            0 <= t < entries.skip(1).len() ==> spec_resolve_value(
                (#[trigger] entries.skip(1)[t]).logic_code,
                overrides,
                groups,
            ).0 == dv);
        lemma_fold_shared_value(entries.skip(1), overrides, groups, keys.push(k2), diags2, dv);
    }
}

/// Over a keymap whose entries all resolve to one driver value, loading
/// from no keys succeeds and yields one key per entry, named in source
/// order: the base name first, then the base with ordinal suffixes.
pub proof fn lemma_load_shared_value(
    entries: Seq<KeyModel>,
    overrides: Seq<u32>,
    groups: Seq<crate::key_values::Group>,
    dv: u32,
)
    requires
        forall|t: int|
            0 <= t < entries.len() ==> spec_resolve_value(
                (#[trigger] entries[t]).logic_code,
                overrides,
                groups,
            ).0 == dv,
    ensures
        spec_load_keys_result(entries, overrides, groups) is Some,
        spec_load_keys_result(entries, overrides, groups).unwrap().0.len() == entries.len(),
        forall|j: int|
            0 <= j < entries.len() ==> (#[trigger] spec_load_keys_result(
                entries,
                overrides,
                groups,
            ).unwrap().0[j]).driver_value_name == crate::resolver::spec_candidate_name(
                spec_name_base(dv),
                (j + 1) as nat,
            ),
        forall|j1: int, j2: int|
            0 <= j1 < j2 < entries.len() ==> spec_load_keys_result(
                entries,
                overrides,
                groups,
            ).unwrap().0[j1].driver_value_name != spec_load_keys_result(
                entries,
                overrides,
                groups,
            ).unwrap().0[j2].driver_value_name,
{
    lemma_fold_shared_value(
        entries,
        overrides,
        groups,
        Seq::empty(),
        Seq::empty(),
        dv,
    );
    let out = spec_load_keys_result(entries, overrides, groups).unwrap().0;
    assert forall|j1: int, j2: int| 0 <= j1 < j2 < entries.len() implies out[j1].driver_value_name
        != out[j2].driver_value_name by {
        crate::resolver::lemma_candidate_injective(
            spec_name_base(dv),
            (j1 + 1) as nat,
            (j2 + 1) as nat,
        );
    }
}

/// Whether a state holds no profile keys and no diagnostics.
pub open spec fn spec_no_keys(s: State) -> bool {
    &&& s.keys@.len() == 0
    &&& s.diagnostics@.len() == 0
}

/// The fields of a state a key load never touches: identity, dimensions
/// and layers.
pub open spec fn spec_non_key_fields_eq(a: State, b: State) -> bool {
    &&& a.firmware_id == b.firmware_id
    &&& a.firmware_major_version == b.firmware_major_version
    &&& a.firmware_minor_version == b.firmware_minor_version
    &&& a.model_id == b.model_id
    &&& a.model_name == b.model_name
    &&& a.base_layer == b.base_layer
    &&& a.driver_layer == b.driver_layer
    &&& a.layer1 == b.layer1
    &&& a.layer2 == b.layer2
    &&& a.layer3 == b.layer3
    &&& a.buffer_size_a == b.buffer_size_a
    &&& a.buffer_size_b == b.buffer_size_b
}

/// The override table the default profile provides: its slot assignments
/// applied to an all-sentinel table with one slot per possible logic code.
pub fn get_default_profile_driver_values(profile: &ProfileData) -> (r: Result<Vec<u32>, Error>)
    ensures
        r is Ok <==> spec_apply_key_set(spec_sentinel_buf(0x7FFF), profile.key_set@) is Some,
        r matches Ok(v) ==> v@ == spec_apply_key_set(
            spec_sentinel_buf(0x7FFF),
            profile.key_set@,
        ).unwrap(),
        r matches Err(e) ==> e == Error::AssetMalformed,
{
    let mut buf: Vec<u32> = vec![UNUSED_KEY_VALUE; 0x7FFF];
    proof {
        assert(buf@ =~= spec_sentinel_buf(0x7FFF));
    }
    match setup_driver_key_set_buffer(&profile.key_set, &mut buf) {
        Ok(_) => Ok(buf),
        Err(e) => Err(e),
    }
}

impl State {
    /// Rebuilds the profile keys from the model's assets. Every keymap
    /// entry's driver value resolves through the default profile, then
    /// the catalog, then the sentinel; each key takes a model-unique name
    /// in source order. A missing keymap leaves the model with no keys; a
    /// keymap in the non-JSON dialect is skipped likewise, reported by
    /// its own error; a missing or malformed default profile or keymap
    /// fails the load with the keys cleared.
    pub fn load_keys(
        &mut self,
        default_profile: Asset<ProfileData>,
        keymap: Option<KeymapData>,
        catalog: &KeyCatalog,
    ) -> (r: Result<(), Error>)
        requires
            match keymap {
                Some(kd) => match kd.parsed {
                    Some(es) => es@.len() < 0x40000000,
                    None => true,
                },
                None => true,
            },
        ensures
            spec_non_key_fields_eq(*final(self), *old(self)),
            default_profile is Missing ==> r == Result::<(), Error>::Err(Error::AssetNotFound)
                && spec_no_keys(*final(self)),
            default_profile is Malformed ==> r == Result::<(), Error>::Err(Error::AssetMalformed)
                && spec_no_keys(*final(self)),
            default_profile matches Asset::Data(p) ==> {
                let ov = spec_apply_key_set(spec_sentinel_buf(0x7FFF), p.key_set@);
                &&& (ov is None ==> r == Result::<(), Error>::Err(Error::AssetMalformed)
                    && spec_no_keys(*final(self)))
                &&& (ov matches Some(overrides) ==> match keymap {
                    None => r is Ok && spec_no_keys(*final(self)),
                    Some(kd) => {
                        if spec_is_js_keymap(kd.raw@) {
                            &&& r == Result::<(), Error>::Err(Error::UnsupportedKeymapFormat)
                            &&& spec_no_keys(*final(self))
                        } else {
                            match kd.parsed {
                                None => r == Result::<(), Error>::Err(Error::AssetMalformed)
                                    && spec_no_keys(*final(self)),
                                Some(es) => {
                                    let res = spec_load_keys_result(
                                        spec_keys_model(es@),
                                        overrides,
                                        catalog.groups@,
                                    );
                                    &&& (res is None ==> r == Result::<(), Error>::Err(
                                        Error::NameCollisionExhausted,
                                    ))
                                    &&& (res matches Some(out) ==> r is Ok && spec_keys_model(
                                        final(self).keys@,
                                    ) == out.0 && final(self).diagnostics@ == out.1)
                                },
                            }
                        }
                    },
                })
            },
    {
        self.keys = Vec::new();
        self.diagnostics = Vec::new();
        let profile = match default_profile {
            Asset::Missing => {
                return Err(Error::AssetNotFound);
            },
            Asset::Malformed => {
                return Err(Error::AssetMalformed);
            },
            Asset::Data(p) => p,
        };
        let overrides = match get_default_profile_driver_values(&profile) {
            Ok(v) => v,
            Err(e) => {
                return Err(e);
            },
        };
        let kd = match keymap {
            None => {
                return Ok(());
            },
            Some(kd) => kd,
        };
        if is_js_keymap(&kd.raw) {
            return Err(Error::UnsupportedKeymapFormat);
        }
        let mut entries = match kd.parsed {
            None => {
                return Err(Error::AssetMalformed);
            },
            Some(es) => es,
        };
        let ghost models0 = spec_keys_model(entries@);
        let ghost total = entries@.len();
        proof {
            assert(spec_keys_model(Seq::<Key>::empty()) =~= Seq::<KeyModel>::empty());
        }
        while entries.len() > 0
            invariant
                spec_non_key_fields_eq(*self, *old(self)),
                default_profile matches Asset::Data(p) && spec_apply_key_set(
                    spec_sentinel_buf(0x7FFF),
                    p.key_set@,
                ) == Some(overrides@),
                keymap matches Some(kd) && (!spec_is_js_keymap(kd.raw@) && (kd.parsed matches Some(
                    es,
                ) && models0 == spec_keys_model(es@))),
                self.keys@.len() + entries@.len() == total,
                total < 0x40000000,
                spec_load_keys_fold(
                    models0,
                    overrides@,
                    catalog.groups@,
                    Seq::empty(),
                    Seq::empty(),
                ) == spec_load_keys_fold(
                    spec_keys_model(entries@),
                    overrides@,
                    catalog.groups@,
                    spec_keys_model(self.keys@),
                    self.diagnostics@,
                ),
            decreases entries@.len(),
        {
            let ghost entries_before = entries@;
            let ghost keys_before = self.keys@;
            let mut e = entries.remove(0);
            proof {
                assert(spec_keys_model(entries_before)[0] == spec_key_model(entries_before[0]));
                assert(spec_keys_model(entries@) =~= spec_keys_model(entries_before).skip(1));
            }
            let lc = e.logic_code;
            let loc = e.location_code;
            let mut diag = false;
            let dv: u32;
            if lc >= 0 && (lc as usize) < overrides.len() && overrides[lc as usize]
                != UNUSED_KEY_VALUE {
                dv = overrides[lc as usize];
            } else if lc > 0 {
                match catalog.lookup_by_logic_code(lc) {
                    Some(k) => {
                        dv = k.driver_value;
                    },
                    None => {
                        dv = UNUSED_KEY_VALUE;
                        diag = true;
                    },
                }
            } else {
                dv = UNUSED_KEY_VALUE;
            }
            proof {
                assert((dv, diag) == spec_resolve_value(lc, overrides@, catalog.groups@));
            }
            let base = name_base(dv);
            let name = match resolve_unique_name(&self.keys, &base) {
                Ok(nm) => nm,
                Err(err) => {
                    return Err(err);
                },
            };
            e.driver_value = dv;
            e.driver_value_name = name;
            self.keys.push(e);
            if diag {
                self.diagnostics.push(Diagnostic { logic_code: lc, location_code: loc });
            }
            proof {
                assert(spec_keys_model(self.keys@) =~= spec_keys_model(keys_before).push(
                    spec_key_model(self.keys@.last()),
                ));
            }
        }
        proof {
            assert(spec_keys_model(entries@).len() == 0);
        }
        Ok(())
    }
}

/// The last key of a source-ordered sequence that a predicate admits:
/// later registrations shadow earlier ones, as an inserting map would
/// have it.
pub open spec fn spec_find_last(s: Seq<Key>, p: spec_fn(Key) -> bool) -> Option<Key>
    decreases s.len(),
{
    if s.len() == 0 {
        None
    } else if p(s.last()) {
        Some(s.last())
    } else {
        spec_find_last(s.drop_last(), p)
    }
}

impl State {
    /// The profile key at a location code, if any; of several the last in
    /// source order.
    pub fn get_key_at_location_code(&self, location_code: i32) -> (r: Option<&Key>)
        ensures
            match r {
                Some(k) => spec_find_last(self.keys@, |k: Key| k.location_code == location_code)
                    == Some(*k),
                None => spec_find_last(self.keys@, |k: Key| k.location_code == location_code)
                    is None,
            },
    {
        let ghost p = |k: Key| k.location_code == location_code;
        let n = self.keys.len();
        let mut i: usize = n;
        proof {
            assert(self.keys@.take(n as int) =~= self.keys@);
        }
        while i > 0
            invariant
                0 <= i <= n,
                n == self.keys@.len(),
                p == (|k: Key| k.location_code == location_code),
                spec_find_last(self.keys@, p) == spec_find_last(self.keys@.take(i as int), p),
            decreases i,
        {
            let ghost prefix = self.keys@.take(i as int);
            proof {
                assert(prefix.last() == self.keys@[i - 1]);
                assert(prefix.drop_last() =~= self.keys@.take(i - 1));
            }
            i = i - 1;
            if self.keys[i].location_code == location_code {
                return Some(&self.keys[i]);
            }
        }
        None
    }

    /// The profile key filling a logic-code slot, if any; of several the
    /// last in source order.
    pub fn get_key_by_logic_code(&self, logic_code: i32) -> (r: Option<&Key>)
        ensures
            match r {
                Some(k) => spec_find_last(self.keys@, |k: Key| k.logic_code == logic_code) == Some(
                    *k,
                ),
                None => spec_find_last(self.keys@, |k: Key| k.logic_code == logic_code) is None,
            },
    {
        let ghost p = |k: Key| k.logic_code == logic_code;
        let n = self.keys.len();
        let mut i: usize = n;
        proof {
            assert(self.keys@.take(n as int) =~= self.keys@);
        }
        while i > 0
            invariant
                0 <= i <= n,
                n == self.keys@.len(),
                p == (|k: Key| k.logic_code == logic_code),
                spec_find_last(self.keys@, p) == spec_find_last(self.keys@.take(i as int), p),
            decreases i,
        {
            let ghost prefix = self.keys@.take(i as int);
            proof {
                assert(prefix.last() == self.keys@[i - 1]);
                assert(prefix.drop_last() =~= self.keys@.take(i - 1));
            }
            i = i - 1;
            if self.keys[i].logic_code == logic_code {
                return Some(&self.keys[i]);
            }
        }
        None
    }
}

} // verus!
