//! The registry of built states, one per model: the loader walks the
//! model list, builds each model's state from its own assets, and a
//! model whose assets fail is omitted without disturbing the others.

use vstd::prelude::*;

use crate::Asset;
use crate::Error;
use crate::key_values::KeyCatalog;
use crate::keymap::KeymapData;
use crate::keymap::spec_is_js_keymap;
use crate::numtext::spec_parse_hex_u32;
use crate::numtext::parse_hex_u32;
use crate::resolver::spec_keys_model;
use crate::state::ProfileData;
use crate::state::State;
use crate::state::spec_apply_key_set;
use crate::state::spec_load_keys_result;
use crate::state::spec_max_logic_code;
use crate::state::spec_no_keys;
use crate::state::spec_no_layers;
use crate::state::spec_sentinel_buf;

verus! {

/// One row of the model-list asset.
pub struct ModelEntry {
    pub model_id: u32,
    /// The firmware id as the hexadecimal text the asset writes.
    pub firmware_id: String,
    pub name: String,
    pub le_type: String,
}

/// Everything one model's load consumes: its model-list row, its default
/// profile, and its keymap.
pub struct ModelAsset {
    pub entry: ModelEntry,
    pub default_profile: Asset<ProfileData>,
    pub keymap: Option<KeymapData>,
}

/// The error one model's key load ends in, if any, as the loader's
/// contract has it.
pub open spec fn spec_load_keys_error(
    default_profile: Asset<ProfileData>,
    keymap: Option<KeymapData>,
    groups: Seq<crate::key_values::Group>,
) -> Option<Error> {
    match default_profile {
        Asset::Missing => Some(Error::AssetNotFound),
        Asset::Malformed => Some(Error::AssetMalformed),
        Asset::Data(p) => match spec_apply_key_set(spec_sentinel_buf(0x7FFF), p.key_set@) {
            None => Some(Error::AssetMalformed),
            Some(ov) => match keymap {
                None => None,
                Some(kd) => if spec_is_js_keymap(kd.raw@) {
                    Some(Error::UnsupportedKeymapFormat)
                } else {
                    match kd.parsed {
                        None => Some(Error::AssetMalformed),
                        Some(es) => if spec_load_keys_result(
                            spec_keys_model(es@),
                            ov,
                            groups,
                        ) is None {
                            Some(Error::NameCollisionExhausted)
                        } else {
                            None
                        },
                    }
                },
            },
        },
    }
}

/// Whether a model ends in the registry: its firmware id reads as
/// hexadecimal, and its key load either succeeds or only found a keymap
/// in the non-JSON dialect, which leaves the model registered without
/// keys.
pub open spec fn spec_model_kept(m: ModelAsset, groups: Seq<crate::key_values::Group>) -> bool {
    &&& spec_parse_hex_u32(m.entry.firmware_id@) is Some
    &&& match spec_load_keys_error(m.default_profile, m.keymap, groups) {
        None => true,
        Some(e) => e == Error::UnsupportedKeymapFormat,
    }
}

/// The models that end in the registry, in list order.
pub open spec fn spec_kept_models(
    ms: Seq<ModelAsset>,
    groups: Seq<crate::key_values::Group>,
) -> Seq<ModelAsset>
    decreases ms.len(),
{
    if ms.len() == 0 {
        Seq::empty()
    } else {
        let rest = spec_kept_models(ms.drop_last(), groups);
        if spec_model_kept(ms.last(), groups) {
            rest.push(ms.last())
        } else {
            rest
        }
    }
}

/// How a registered state relates to the model assets it was built from:
/// the identity comes from the model-list row, no buffers are built yet,
/// and the keys and diagnostics are exactly what the key load yields —
/// none at all when only the keymap's dialect stopped it.
pub open spec fn spec_state_matches(
    s: State,
    m: ModelAsset,
    groups: Seq<crate::key_values::Group>,
) -> bool {
    &&& s.model_id == m.entry.model_id
    &&& Some(s.firmware_id) == spec_parse_hex_u32(m.entry.firmware_id@)
    &&& s.firmware_major_version == 0
    &&& s.firmware_minor_version == 0
    &&& s.model_name == m.entry.name
    &&& spec_no_layers(s)
    &&& spec_max_logic_code(s) == 0
    &&& match spec_load_keys_error(m.default_profile, m.keymap, groups) {
        Some(e) => e == Error::UnsupportedKeymapFormat && spec_no_keys(s),
        None => match m.default_profile {
            Asset::Data(p) => {
                let ov = spec_apply_key_set(spec_sentinel_buf(0x7FFF), p.key_set@).unwrap();
                match m.keymap {
                    None => spec_no_keys(s),
                    Some(kd) => {
                        let out = spec_load_keys_result(
                            spec_keys_model(kd.parsed.unwrap()@),
                            ov,
                            groups,
                        ).unwrap();
                        &&& spec_keys_model(s.keys@) == out.0
                        &&& s.diagnostics@ == out.1
                    },
                }
            },
            _ => false,
        },
    }
}

/// Whether a run of states is exactly the build of a run of models.
pub open spec fn spec_states_match(
    states: Seq<State>,
    ms: Seq<ModelAsset>,
    groups: Seq<crate::key_values::Group>,
) -> bool {
    &&& states.len() == ms.len()
    &&& forall|j: int|
        0 <= j < states.len() ==> spec_state_matches(#[trigger] states[j], ms[j], groups)
}

/// The last registered state for a model id: later registrations shadow
/// earlier ones.
pub open spec fn spec_state_by_model_id(states: Seq<State>, model_id: u32) -> Option<State>
    decreases states.len(),
{
    if states.len() == 0 {
        None
    } else if states.last().model_id == model_id {
        Some(states.last())
    } else {
        spec_state_by_model_id(states.drop_last(), model_id)
    }
}

/// Whether two built states are index-identical: same identity, same key
/// count, same names, same driver values, same diagnostics.
pub open spec fn spec_state_identical(a: State, b: State) -> bool {
    &&& a.model_id == b.model_id
    &&& a.firmware_id == b.firmware_id
    &&& a.model_name == b.model_name
    &&& spec_keys_model(a.keys@) == spec_keys_model(b.keys@)
    &&& a.diagnostics@ == b.diagnostics@
}

/// Loading is idempotent: two registries built from the same unchanged
/// assets hold index-identical states — the same models in the same
/// order, each with the same keys, names, driver values and diagnostics.
pub proof fn lemma_reload_identical(
    r1: Seq<State>,
    r2: Seq<State>,
    ms: Seq<ModelAsset>,
    groups: Seq<crate::key_values::Group>,
)
    requires
        spec_states_match(r1, spec_kept_models(ms, groups), groups),
        spec_states_match(r2, spec_kept_models(ms, groups), groups),
    ensures
        r1.len() == r2.len(),
        forall|j: int| 0 <= j < r1.len() ==> spec_state_identical(#[trigger] r1[j], r2[j]),
{
    assert forall|j: int| 0 <= j < r1.len() implies spec_state_identical(
        #[trigger] r1[j],
        r2[j],
    ) by {
        let m = spec_kept_models(ms, groups)[j];
        assert(spec_state_matches(r1[j], m, groups));
        assert(spec_state_matches(r2[j], m, groups));
        if spec_no_keys(r1[j]) && spec_no_keys(r2[j]) {
            assert(spec_keys_model(r1[j].keys@) =~= spec_keys_model(r2[j].keys@));
            assert(r1[j].diagnostics@ =~= r2[j].diagnostics@);
        }
    }
}

/// All built states keyed by model id: the one object the rest of the
/// system queries once loading is done.
pub struct StateRegistry {
    pub states: Vec<State>,
}

impl StateRegistry {
    /// An empty registry.
    pub fn new() -> (r: StateRegistry)
        ensures
            r.states@.len() == 0,
    {
        StateRegistry { states: Vec::new() }
    }

    /// Builds the registry from the model list: each model's firmware id
    /// is read as hexadecimal and its keys are loaded from its own
    /// assets. One model's failure is isolated: the model is omitted, or
    /// kept without keys when only its keymap's dialect stopped it, and
    /// every other model loads as if it stood alone.
    pub fn load(models: Vec<ModelAsset>, catalog: &KeyCatalog) -> (r: StateRegistry)
        requires
            forall|j: int|
                0 <= j < models@.len() ==> match (#[trigger] models@[j]).keymap {
                    Some(kd) => match kd.parsed {
                        Some(es) => es@.len() < 0x40000000,
                        None => true,
                    },
                    None => true,
                },
        ensures
            spec_states_match(
                r.states@,
                spec_kept_models(models@, catalog.groups@),
                catalog.groups@,
            ),
    {
        let ghost models0 = models@;
        let ghost groups = catalog.groups@;
        let n = models.len();
        let mut ms = models;
        let mut reg: Vec<State> = Vec::new();
        let mut i: usize = 0;
        proof {
            assert(models0.take(0) =~= Seq::<ModelAsset>::empty());
        }
        while ms.len() > 0
            invariant
                0 <= i <= n,
                n == models0.len(),
                i + ms@.len() == n,
                ms@ =~= models0.skip(i as int),
                groups == catalog.groups@,
                forall|j: int|
                    0 <= j < models0.len() ==> match (#[trigger] models0[j]).keymap {
                        Some(kd) => match kd.parsed {
                            Some(es) => es@.len() < 0x40000000,
                            None => true,
                        },
                        None => true,
                    },
                spec_states_match(reg@, spec_kept_models(models0.take(i as int), groups), groups),
            decreases ms@.len(),
        {
            let ghost m0 = models0[i as int];
            proof {
                assert(ms@[0] == models0.skip(i as int)[0]);
                assert(models0.skip(i as int).skip(1) =~= models0.skip(i + 1));
                assert(models0.take(i + 1).drop_last() =~= models0.take(i as int));
                assert(models0.take(i + 1).last() == m0);
            }
            let m = ms.remove(0);
            let ModelAsset { entry, default_profile, keymap } = m;
            let mut st = State::new();
            st.model_id = entry.model_id;
            st.model_name = entry.name;
            match parse_hex_u32(entry.firmware_id.as_str()) {
                Err(_) => {
                    proof {
                        assert(!spec_model_kept(m0, groups));
                        assert(spec_kept_models(models0.take(i + 1), groups) == spec_kept_models(
                            models0.take(i as int),
                            groups,
                        ));
                    }
                },
                Ok(fw) => {
                    st.firmware_id = fw;
                    let load_result = st.load_keys(default_profile, keymap, catalog);
                    let keep = match load_result {
                        Ok(_) => true,
                        Err(Error::UnsupportedKeymapFormat) => true,
                        Err(_) => false,
                    };
                    if keep {
                        reg.push(st);
                        proof {
                            assert(spec_model_kept(m0, groups));
                            assert(spec_state_matches(reg@.last(), m0, groups));
                            assert(spec_kept_models(models0.take(i + 1), groups)
                                == spec_kept_models(models0.take(i as int), groups).push(m0));
                        }
                    } else {
                        proof {
                            assert(!spec_model_kept(m0, groups));
                            assert(spec_kept_models(models0.take(i + 1), groups)
                                == spec_kept_models(models0.take(i as int), groups));
                        }
                    }
                },
            }
            i = i + 1;
        }
        proof {
            assert(models0.take(i as int) =~= models0);
        }
        StateRegistry { states: reg }
    }

    /// The built state for a model id, if one was registered; of several
    /// the last registered.
    pub fn get_keyboard_state(&self, model_id: u32) -> (r: Option<&State>)
        ensures
            match r {
                Some(s) => spec_state_by_model_id(self.states@, model_id) == Some(*s),
                None => spec_state_by_model_id(self.states@, model_id) is None,
            },
    {
        let n = self.states.len();
        let mut i: usize = n;
        proof {
            assert(self.states@.take(n as int) =~= self.states@);
        }
        while i > 0
            invariant
                0 <= i <= n,
                n == self.states@.len(),
                spec_state_by_model_id(self.states@, model_id) == spec_state_by_model_id(
                    self.states@.take(i as int),
                    model_id,
                ),
            decreases i,
        {
            let ghost prefix = self.states@.take(i as int);
            proof {
                assert(prefix.last() == self.states@[i - 1]);
                assert(prefix.drop_last() =~= self.states@.take(i - 1));
            }
            i = i - 1;
            if self.states[i].model_id == model_id {
                return Some(&self.states[i]);
            }
        }
        None
    }
}

} // verus!
