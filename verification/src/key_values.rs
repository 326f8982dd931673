//! The model-independent key definitions: the driver-value category
//! taxonomy, the modifier and mouse-button flag sets, the packed-value
//! decoder, the long/short compressed-value tables, and the catalog of
//! known keys grouped by type.

use vstd::prelude::*;

use crate::Asset;
use crate::Error;

verus! {

pub const MODIFIER_LCTRL: u8 = 0x01;

pub const MODIFIER_LSHIFT: u8 = 0x02;

pub const MODIFIER_LALT: u8 = 0x04;

pub const MODIFIER_LWIN: u8 = 0x08;

pub const MODIFIER_RCTRL: u8 = 0x10;

pub const MODIFIER_RSHIFT: u8 = 0x20;

pub const MODIFIER_RALT: u8 = 0x40;

pub const MODIFIER_RWIN: u8 = 0x80;

/// The modifier bits a Key-category driver value carries in its low byte.
#[derive(Clone, Copy, Debug, PartialEq, Eq, Structural)]
pub struct DriverValueModifier {
    pub bits: u8,
}

impl DriverValueModifier {
    /// The empty modifier set.
    pub fn empty() -> (r: DriverValueModifier)
        ensures
            r.bits == 0,
    {
        DriverValueModifier { bits: 0 }
    }

    /// The set holding exactly the given bits.
    pub fn from_bits(bits: u8) -> (r: DriverValueModifier)
        ensures
            r.bits == bits,
    {
        DriverValueModifier { bits }
    }

    /// The modifiers in either set.
    pub fn union(self, other: DriverValueModifier) -> (r: DriverValueModifier)
        ensures
            r.bits == self.bits | other.bits,
    {
        DriverValueModifier { bits: self.bits | other.bits }
    }

    /// The modifiers in both sets.
    pub fn intersect(self, other: DriverValueModifier) -> (r: DriverValueModifier)
        ensures
            r.bits == self.bits & other.bits,
    {
        DriverValueModifier { bits: self.bits & other.bits }
    }

    /// Whether every modifier of `other` is in `self`.
    pub fn contains(self, other: DriverValueModifier) -> (r: bool)
        ensures
            r == (self.bits & other.bits == other.bits),
    {
        self.bits & other.bits == other.bits
    }

    /// The single-byte wire form of the set.
    pub fn bits(self) -> (r: u8)
        ensures
            r == self.bits,
    {
        self.bits
    }
}

pub const MOUSE_BUTTON_LBUTTON: u8 = 0x01;

pub const MOUSE_BUTTON_RBUTTON: u8 = 0x02;

pub const MOUSE_BUTTON_MBUTTON: u8 = 0x04;

pub const MOUSE_BUTTON_BACK: u8 = 0x08;

pub const MOUSE_BUTTON_ADVANCE: u8 = 0x10;

/// The button bits a Mouse-category driver value carries.
#[derive(Clone, Copy, Debug, PartialEq, Eq, Structural)]
pub struct DriverValueMouseButton {
    pub bits: u8,
}

impl DriverValueMouseButton {
    /// The empty button set.
    pub fn empty() -> (r: DriverValueMouseButton)
        ensures
            r.bits == 0,
    {
        DriverValueMouseButton { bits: 0 }
    }

    /// The set holding exactly the given bits.
    pub fn from_bits(bits: u8) -> (r: DriverValueMouseButton)
        ensures
            r.bits == bits,
    {
        DriverValueMouseButton { bits }
    }

    /// The buttons in either set.
    pub fn union(self, other: DriverValueMouseButton) -> (r: DriverValueMouseButton)
        ensures
            r.bits == self.bits | other.bits,
    {
        DriverValueMouseButton { bits: self.bits | other.bits }
    }

    /// The buttons in both sets.
    pub fn intersect(self, other: DriverValueMouseButton) -> (r: DriverValueMouseButton)
        ensures
            r.bits == self.bits & other.bits,
    {
        DriverValueMouseButton { bits: self.bits & other.bits }
    }

    /// Whether every button of `other` is in `self`.
    pub fn contains(self, other: DriverValueMouseButton) -> (r: bool)
        ensures
            r == (self.bits & other.bits == other.bits),
    {
        self.bits & other.bits == other.bits
    }

    /// The single-byte wire form of the set.
    pub fn bits(self) -> (r: u8)
        ensures
            r == self.bits,
    {
        self.bits
    }
}

/// The recognized driver-value categories, named by the top two bytes of
/// the packed form.
#[derive(Clone, Copy, Debug, PartialEq, Eq, Structural)]
pub enum DriverValueType {
    NoValue,
    Mouse,
    Key,
    System,
    Macro,
    TempSwitchLayer,
}

/// The two category bytes of the packed form.
pub open spec fn spec_driver_value_type_code(t: DriverValueType) -> u16 {
    match t {
        DriverValueType::NoValue => 0,
        DriverValueType::Mouse => 0x0101,
        DriverValueType::Key => 0x0200,
        DriverValueType::System => 0x0300,
        DriverValueType::Macro => 0x0A01,
        DriverValueType::TempSwitchLayer => 0x0A07,
    }
}

/// The two category bytes of the packed form.
#[verifier::when_used_as_spec(spec_driver_value_type_code)]
pub fn driver_value_type_code(t: DriverValueType) -> (code: u16)
    ensures
        code == spec_driver_value_type_code(t),
{
    match t {
        DriverValueType::NoValue => 0,
        DriverValueType::Mouse => 0x0101,
        DriverValueType::Key => 0x0200,
        DriverValueType::System => 0x0300,
        DriverValueType::Macro => 0x0A01,
        DriverValueType::TempSwitchLayer => 0x0A07,
    }
}

/// A packed driver value taken apart: its category, its type-specific
/// code, and, for the Key category, its modifier bits.
#[derive(Clone, Copy, Debug, PartialEq, Eq, Structural)]
pub struct DecodedDriverValue {
    pub category: DriverValueType,
    pub code: u16,
    pub modifiers: u8,
}

/// What a packed value takes apart into: the top two bytes pick the
/// category; a Key value keeps its key code in its second byte and its
/// modifier set in its low byte; every other category keeps its code in
/// its low two bytes.
pub open spec fn spec_decode_driver_value(value: u32) -> Option<DecodedDriverValue> {
    let category = value >> 16;
    if value == 0 {
        Some(DecodedDriverValue { category: DriverValueType::NoValue, code: 0, modifiers: 0 })
    } else if category == 0x0101 {
        Some(
            DecodedDriverValue {
                category: DriverValueType::Mouse,
                code: (value & 0xFFFF) as u16,
                modifiers: 0,
            },
        )
    } else if category == 0x0200 {
        Some(
            DecodedDriverValue {
                category: DriverValueType::Key,
                code: ((value >> 8) & 0xFF) as u16,
                modifiers: (value & 0xFF) as u8,
            },
        )
    } else if category == 0x0300 {
        Some(
            DecodedDriverValue {
                category: DriverValueType::System,
                code: (value & 0xFFFF) as u16,
                modifiers: 0,
            },
        )
    } else if category == 0x0A01 {
        Some(
            DecodedDriverValue {
                category: DriverValueType::Macro,
                code: (value & 0xFFFF) as u16,
                modifiers: 0,
            },
        )
    } else if category == 0x0A07 {
        Some(
            DecodedDriverValue {
                category: DriverValueType::TempSwitchLayer,
                code: (value & 0xFFFF) as u16,
                modifiers: 0,
            },
        )
    } else {
        None
    }
}

/// Takes a packed driver value apart; fails when the category bytes name
/// no recognized category.
pub fn decode_driver_value(value: u32) -> (r: Result<DecodedDriverValue, Error>)
    ensures
        r is Ok <==> spec_decode_driver_value(value) is Some,
        r matches Ok(d) ==> spec_decode_driver_value(value) == Some(d),
        r matches Err(e) ==> e == Error::UnknownDriverValueCategory,
{
    proof {
        assert(value & 0xFFFF <= 0xFFFF) by (bit_vector);
        assert((value >> 8) & 0xFF <= 0xFF) by (bit_vector);
        assert(value & 0xFF <= 0xFF) by (bit_vector);
    }
    let category = value >> 16;
    if value == 0 {
        Ok(DecodedDriverValue { category: DriverValueType::NoValue, code: 0, modifiers: 0 })
    } else if category == 0x0101 {
        Ok(
            DecodedDriverValue {
                category: DriverValueType::Mouse,
                code: (value & 0xFFFF) as u16,
                modifiers: 0,
            },
        )
    } else if category == 0x0200 {
        Ok(
            DecodedDriverValue {
                category: DriverValueType::Key,
                code: ((value >> 8) & 0xFF) as u16,
                modifiers: (value & 0xFF) as u8,
            },
        )
    } else if category == 0x0300 {
        Ok(
            DecodedDriverValue {
                category: DriverValueType::System,
                code: (value & 0xFFFF) as u16,
                modifiers: 0,
            },
        )
    } else if category == 0x0A01 {
        Ok(
            DecodedDriverValue {
                category: DriverValueType::Macro,
                code: (value & 0xFFFF) as u16,
                modifiers: 0,
            },
        )
    } else if category == 0x0A07 {
        Ok(
            DecodedDriverValue {
                category: DriverValueType::TempSwitchLayer,
                code: (value & 0xFFFF) as u16,
                modifiers: 0,
            },
        )
    } else {
        Err(Error::UnknownDriverValueCategory)
    }
}

/// The value of the first matching entry of an association list.
pub open spec fn spec_assoc_find(s: Seq<(u32, u8)>, key: u32) -> Option<u8>
    decreases s.len(),
{
    if s.len() == 0 {
        None
    } else if s[0].0 == key {
        Some(s[0].1)
    } else {
        spec_assoc_find(s.skip(1), key)
    }
}

/// A found value comes from some entry of the list.
pub proof fn lemma_assoc_find_is_entry(s: Seq<(u32, u8)>, key: u32)
    requires
        spec_assoc_find(s, key) is Some,
    ensures
        exists|i: int|
            0 <= i < s.len() && s[i].0 == key && s[i].1 == spec_assoc_find(s, key).unwrap(),
    decreases s.len(),
{
    if s.len() > 0 && s[0].0 != key {
        lemma_assoc_find_is_entry(s.skip(1), key);
        let i = choose|i: int|
            0 <= i < s.skip(1).len() && s.skip(1)[i].0 == key && s.skip(1)[i].1 == spec_assoc_find(
                s.skip(1),
                key,
            ).unwrap();
        assert(s[i + 1] == s.skip(1)[i]);
    }
}

/// The first matching entry decides the find.
pub proof fn lemma_assoc_find_first_match(s: Seq<(u32, u8)>, key: u32, i: int)
    requires
        0 <= i < s.len(),
        s[i].0 == key,
        forall|j: int| 0 <= j < i ==> (#[trigger] s[j]).0 != key,
    ensures
        spec_assoc_find(s, key) == Some(s[i].1),
    decreases s.len(),
{
    if i > 0 {
        assert(forall|j: int| 0 <= j < i - 1 ==> (#[trigger] s.skip(1)[j]).0 != key);
        assert(s.skip(1)[i - 1] == s[i]);
        lemma_assoc_find_first_match(s.skip(1), key, i - 1);
    }
}

/// The long/short compressed-value tables: full four-byte driver values on
/// one side, their single-byte compressed codes on the other. Built once
/// by `load` and read-only thereafter.
pub struct CompressionTables {
    /// Registered long values with their short codes, in registration order.
    pub long_to_short: Vec<(u32, u8)>,
    /// The long value of each of the 256 possible short codes.
    pub short_to_long: Vec<u32>,
}

impl CompressionTables {
    /// Every registered pair reads back: the short side of each entry maps
    /// to that entry's long side.
    pub open spec fn wf(self) -> bool {
        &&& self.short_to_long@.len() == 256
        &&& forall|i: int|
            0 <= i < self.long_to_short@.len() ==> self.short_to_long@[(
            #[trigger] self.long_to_short@[i]).1 as int] == self.long_to_short@[i].0
    }

    /// The single-byte form of a long driver value, for the subset of
    /// values the table registers: the first registered match.
    pub fn compress(&self, long: u32) -> (r: Option<u8>)
        ensures
            r == spec_assoc_find(self.long_to_short@, long),
    {
        let n = self.long_to_short.len();
        let mut i: usize = 0;
        proof {
            assert(self.long_to_short@.skip(0) =~= self.long_to_short@);
        }
        while i < n
            invariant
                0 <= i <= n,
                n == self.long_to_short@.len(),
                spec_assoc_find(self.long_to_short@, long) == spec_assoc_find(
                    self.long_to_short@.skip(i as int),
                    long,
                ),
            decreases n - i,
        {
            let (l, s) = self.long_to_short[i];
            proof {
                assert(self.long_to_short@.skip(i as int)[0] == self.long_to_short@[i as int]);
                assert(self.long_to_short@.skip(i as int).skip(1) =~= self.long_to_short@.skip(
                    i + 1,
                ));
            }
            if l == long {
                return Some(s);
            }
            i = i + 1;
        }
        proof {
            assert(self.long_to_short@.skip(i as int).len() == 0);
        }
        None
    }

    /// The long driver value a single-byte code stands for.
    pub fn decompress(&self, short: u8) -> (r: u32)
        requires
            self.wf(),
        ensures
            r == self.short_to_long@[short as int],
    {
        self.short_to_long[short as usize]
    }

    /// The tables are inverses over the covered domain: a long value the
    /// table compresses decompresses back to itself.
    pub proof fn lemma_compress_then_decompress(self, long: u32)
        requires
            self.wf(),
            spec_assoc_find(self.long_to_short@, long) is Some,
        ensures
            self.short_to_long@[spec_assoc_find(self.long_to_short@, long).unwrap() as int]
                == long,
    {
        lemma_assoc_find_is_entry(self.long_to_short@, long);
    }
}

/// A named category of keys owning an ordered sequence of key definitions.
pub struct Group {
    pub key_type: String,
    pub p_name: String,
    pub title: String,
    pub keys: Vec<Key>,
}

impl Group {
    /// An empty, unnamed group.
    pub fn new() -> (g: Group)
        ensures
            g.key_type@.len() == 0,
            g.p_name@.len() == 0,
            g.title@.len() == 0,
            g.keys@.len() == 0,
    {
        Group { key_type: String::new(), p_name: String::new(), title: String::new(), keys: Vec::new() }
    }
}

/// A model-independent key definition. Its owning group is named by an
/// index into the catalog's group table, never embedded.
pub struct Key {
    /// The index of the owning group in the catalog's group table.
    pub group: usize,
    /// Where the key appears visually.
    pub location_code: i32,
    /// The index of the key in the firmware's flattened key-slot buffer.
    pub logic_code: i32,
    /// The name of the key.
    pub name: String,
    /// The localized name of the key; may be empty.
    pub title: String,
    /// The packed value the keyboard firmware understands.
    pub driver_value: u32,
    /// Used for disabling several keys at once.
    pub driver_value_array: Vec<i32>,
}

impl Key {
    /// An unbound definition in the given group: no location, no logic
    /// slot, no assigned driver value.
    pub fn new(group: usize) -> (k: Key)
        ensures
            k.group == group,
            k.location_code == -1,
            k.logic_code == -1,
            k.name@.len() == 0,
            k.title@.len() == 0,
            k.driver_value == crate::UNUSED_KEY_VALUE,
            k.driver_value_array@.len() == 0,
    {
        Key {
            group,
            location_code: -1,
            logic_code: -1,
            name: String::new(),
            title: String::new(),
            driver_value: crate::UNUSED_KEY_VALUE,
            driver_value_array: Vec::new(),
        }
    }
}

/// A key definition rebound to the group table entry that owns it.
pub open spec fn spec_patch_key(k: Key, idx: int) -> Key {
    Key { group: idx as usize, ..k }
}

/// A group's key definitions, each rebound to its owning group entry.
pub open spec fn spec_patch_keys(ks: Seq<Key>, idx: int) -> Seq<Key> {
    ks.map_values(|k: Key| spec_patch_key(k, idx))
}

/// The key definition of the last entry of a registration-ordered sequence
/// that holds a logic code: later registrations shadow earlier ones.
pub open spec fn spec_lookup_last_by_logic_code(s: Seq<Key>, code: i32) -> Option<Key>
    decreases s.len(),
{
    if s.len() == 0 {
        None
    } else if s.last().logic_code == code {
        Some(s.last())
    } else {
        spec_lookup_last_by_logic_code(s.drop_last(), code)
    }
}

/// All keys of a group table in registration order: group by group, each
/// group's keys in their own order.
pub open spec fn spec_all_keys(gs: Seq<Group>) -> Seq<Key>
    decreases gs.len(),
{
    if gs.len() == 0 {
        Seq::empty()
    } else {
        spec_all_keys(gs.drop_last()) + gs.last().keys@
    }
}

/// Splitting a registration order in two: a match in the later part
/// shadows the earlier part.
pub proof fn lemma_lookup_last_concat(a: Seq<Key>, b: Seq<Key>, code: i32)
    ensures
        spec_lookup_last_by_logic_code(a + b, code) == (
        if spec_lookup_last_by_logic_code(b, code) is Some {
            spec_lookup_last_by_logic_code(b, code)
        } else {
            spec_lookup_last_by_logic_code(a, code)
        }),
    decreases b.len(),
{
    if b.len() == 0 {
        assert(a + b =~= a);
    } else {
        assert((a + b).last() == b.last());
        assert((a + b).drop_last() =~= a + b.drop_last());
        lemma_lookup_last_concat(a, b.drop_last(), code);
    }
}

/// The process-wide, model-independent registry of all known key
/// definitions, grouped by type.
pub struct KeyCatalog {
    /// The group table; each key's `group` field indexes into it.
    pub groups: Vec<Group>,
}

impl KeyCatalog {
    /// An empty catalog.
    pub fn new() -> (c: KeyCatalog)
        ensures
            c.groups@.len() == 0,
    {
        KeyCatalog { groups: Vec::new() }
    }

    /// The generic key definition for a logic code, if the catalog holds
    /// one: the fallback when a model profile gives no mapping. Of several
    /// holders the last registered wins.
    pub fn lookup_by_logic_code(&self, code: i32) -> (r: Option<&Key>)
        ensures
            match r {
                Some(k) => spec_lookup_last_by_logic_code(spec_all_keys(self.groups@), code)
                    == Some(*k),
                None => spec_lookup_last_by_logic_code(spec_all_keys(self.groups@), code) is None,
            },
    {
        let ng = self.groups.len();
        let mut gi: usize = ng;
        proof {
            assert(self.groups@.take(ng as int) =~= self.groups@);
        }
        while gi > 0
            invariant
                0 <= gi <= ng,
                ng == self.groups@.len(),
                spec_lookup_last_by_logic_code(spec_all_keys(self.groups@), code)
                    == spec_lookup_last_by_logic_code(
                    spec_all_keys(self.groups@.take(gi as int)),
                    code,
                ),
            decreases gi,
        {
            gi = gi - 1;
            let ghost prefix = spec_all_keys(self.groups@.take(gi as int));
            let ghost cur = self.groups@[gi as int].keys@;
            proof {
                assert(self.groups@.take(gi + 1).drop_last() =~= self.groups@.take(gi as int));
                assert(self.groups@.take(gi + 1).last() == self.groups@[gi as int]);
                assert(spec_all_keys(self.groups@.take(gi + 1)) == prefix + cur);
            }
            let keys = &self.groups[gi].keys;
            let nk = keys.len();
            let mut ki: usize = nk;
            proof {
                assert(cur.take(nk as int) =~= cur);
            }
            while ki > 0
                invariant
                    0 <= ki <= nk,
                    gi < self.groups@.len(),
                    keys == &self.groups@[gi as int].keys,
                    nk == cur.len(),
                    cur == self.groups@[gi as int].keys@,
                    prefix == spec_all_keys(self.groups@.take(gi as int)),
                    spec_lookup_last_by_logic_code(spec_all_keys(self.groups@), code)
                        == spec_lookup_last_by_logic_code(
                        spec_all_keys(self.groups@.take(gi + 1)),
                        code,
                    ),
                    spec_all_keys(self.groups@.take(gi + 1)) == prefix + cur,
                    spec_lookup_last_by_logic_code(cur, code) == spec_lookup_last_by_logic_code(
                        cur.take(ki as int),
                        code,
                    ),
                decreases ki,
            {
                let ghost part = cur.take(ki as int);
                proof {
                    assert(part.last() == cur[ki - 1]);
                    assert(part.drop_last() =~= cur.take(ki - 1));
                }
                ki = ki - 1;
                if keys[ki].logic_code == code {
                    proof {
                        lemma_lookup_last_concat(prefix, cur, code);
                    }
                    return Some(&keys[ki]);
                }
            }
            proof {
                assert(cur.take(0) =~= Seq::<Key>::empty());
                lemma_lookup_last_concat(prefix, cur, code);
            }
        }
        proof {
            assert(self.groups@.take(0) =~= Seq::<Group>::empty());
        }
        None
    }
}

/// What `load` builds once at startup: the catalog of key definitions and
/// the compressed-value tables, read-only thereafter.
pub struct KeyValues {
    pub catalog: KeyCatalog,
    pub tables: CompressionTables,
}

/// Builds the process-wide key data from the parsed catalog asset: the
/// group table with every key rebound to its owning group entry, and the
/// long/short compressed-value tables, which register each single-byte
/// code as its own long form. No model can be supported without the
/// catalog asset, so a missing or malformed one fails the whole load.
pub fn load(catalog_asset: Asset<Vec<Group>>) -> (r: Result<KeyValues, Error>)
    ensures
        r is Ok <==> catalog_asset is Data,
        catalog_asset is Missing ==> r == Result::<KeyValues, Error>::Err(Error::AssetNotFound),
        catalog_asset is Malformed ==> r == Result::<KeyValues, Error>::Err(
            Error::AssetMalformed,
        ),
        r matches Ok(kv) ==> {
            &&& kv.tables.wf()
            &&& kv.tables.long_to_short@.len() == 256
            &&& forall|i: int|
                0 <= i < 256 ==> #[trigger] kv.tables.long_to_short@[i] == (i as u32, i as u8)
            &&& kv.tables.short_to_long@.len() == 256
            &&& forall|i: int| 0 <= i < 256 ==> #[trigger] kv.tables.short_to_long@[i] == i as u32
        },
        catalog_asset matches Asset::Data(gs) ==> r matches Ok(kv) ==> {
            &&& kv.catalog.groups@.len() == gs@.len()
            &&& forall|i: int|
                0 <= i < gs@.len() ==> {
                    &&& (#[trigger] kv.catalog.groups@[i]).key_type == gs@[i].key_type
                    &&& kv.catalog.groups@[i].p_name == gs@[i].p_name
                    &&& kv.catalog.groups@[i].title == gs@[i].title
                    &&& kv.catalog.groups@[i].keys@ == spec_patch_keys(gs@[i].keys@, i)
                }
        },
{
    let mut gs = match catalog_asset {
        Asset::Missing => {
            return Err(Error::AssetNotFound);
        },
        Asset::Malformed => {
            return Err(Error::AssetMalformed);
        },
        Asset::Data(gs) => gs,
    };
    let ghost orig = gs@;
    let mut groups: Vec<Group> = Vec::new();
    while gs.len() > 0
        invariant
            groups@.len() + gs@.len() == orig.len(),
            gs@ =~= orig.skip(groups@.len() as int),
            forall|i: int|
                0 <= i < groups@.len() ==> {
                    &&& (#[trigger] groups@[i]).key_type == orig[i].key_type
                    &&& groups@[i].p_name == orig[i].p_name
                    &&& groups@[i].title == orig[i].title
                    &&& groups@[i].keys@ == spec_patch_keys(orig[i].keys@, i)
                },
        decreases gs@.len(),
    {
        let gi = groups.len();
        let mut g = gs.remove(0);
        let ghost gkeys = g.keys@;
        proof {
            assert(orig[gi as int] == orig.skip(gi as int)[0]);
            assert(orig.skip(gi as int).skip(1) =~= orig.skip(gi + 1));
        }
        let ghost gsnap = g;
        let mut patched: Vec<Key> = Vec::new();
        while g.keys.len() > 0
            invariant
                g.key_type == gsnap.key_type,
                g.p_name == gsnap.p_name,
                g.title == gsnap.title,
                patched@.len() + g.keys@.len() == gkeys.len(),
                g.keys@ =~= gkeys.skip(patched@.len() as int),
                patched@ =~= spec_patch_keys(gkeys.take(patched@.len() as int), gi as int),
            decreases g.keys@.len(),
        {
            let ghost done = patched@.len() as int;
            let mut k = g.keys.remove(0);
            proof {
                assert(gkeys[done] == gkeys.skip(done)[0]);
                assert(gkeys.skip(done).skip(1) =~= gkeys.skip(done + 1));
            }
            k.group = gi;
            patched.push(k);
            proof {
                assert(patched@ =~= spec_patch_keys(gkeys.take(done + 1), gi as int));
            }
        }
        proof {
            assert(gkeys.take(gkeys.len() as int) =~= gkeys);
            assert(patched@ == spec_patch_keys(gkeys, gi as int));
        }
        g.keys = patched;
        groups.push(g);
    }
    proof {
        assert(groups@.len() == orig.len());
    }
    let mut long_to_short: Vec<(u32, u8)> = Vec::new();
    let mut short_to_long: Vec<u32> = Vec::new();
    let mut b: usize = 0;
    while b < 256
        invariant
            0 <= b <= 256,
            long_to_short@.len() == b,
            short_to_long@.len() == b,
            forall|i: int| 0 <= i < b ==> #[trigger] long_to_short@[i] == (i as u32, i as u8),
            forall|i: int| 0 <= i < b ==> #[trigger] short_to_long@[i] == i as u32,
        decreases 256 - b,
    {
        long_to_short.push((b as u32, b as u8));
        short_to_long.push(b as u32);
        b = b + 1;
    }
    let tables = CompressionTables { long_to_short, short_to_long };
    Ok(KeyValues { catalog: KeyCatalog { groups }, tables })
}

/// The tables `load` builds compress every single-byte value to itself
/// and read it back: the long/short mapping round-trips over its domain.
pub proof fn lemma_load_tables_round_trip(t: CompressionTables, long: u32)
    requires
        t.wf(),
        t.long_to_short@.len() == 256,
        forall|i: int| 0 <= i < 256 ==> #[trigger] t.long_to_short@[i] == (i as u32, i as u8),
        long < 256,
    ensures
        spec_assoc_find(t.long_to_short@, long) == Some(long as u8),
        t.short_to_long@[long as u8 as int] == long,
{
    assert(t.long_to_short@[long as int].0 == long);
    assert(forall|j: int| 0 <= j < long ==> (#[trigger] t.long_to_short@[j]).0 != long);
    lemma_assoc_find_first_match(t.long_to_short@, long, long as int);
    t.lemma_compress_then_decompress(long);
}

} // verus!
