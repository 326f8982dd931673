//! Assigns collision-free, model-unique names to profile keys: a key takes
//! the textual name of its driver value, and keys that share one driver
//! value take successive ordinal suffixes in source order.

use vstd::prelude::*;
use vstd::string::*;

use crate::Error;
use crate::driver_value::spec_driver_value_from_code;
use crate::driver_value::spec_driver_value_name;
use crate::driver_value::driver_value_from_code;
use crate::driver_value::driver_value_name;
use crate::numtext::spec_dec_seq;
use crate::numtext::spec_hex_seq;
use crate::numtext::u32_to_dec;
use crate::numtext::u32_to_hex8;
use crate::state::Key;

verus! {

/// The ghost shape of a profile key: each field by value, text as
/// character sequences.
pub ghost struct KeyModel {
    pub key_name: Seq<char>,
    pub show: Seq<char>,
    pub logic_code: i32,
    pub location_code: i32,
    pub position: crate::state::KeyRect,
    pub driver_value: u32,
    pub driver_value_name: Seq<char>,
}

/// The ghost shape of a profile key.
pub open spec fn spec_key_model(k: Key) -> KeyModel {
    KeyModel {
        key_name: k.key_name@,
        show: k.show@,
        logic_code: k.logic_code,
        location_code: k.location_code,
        position: k.position,
        driver_value: k.driver_value,
        driver_value_name: k.driver_value_name@,
    }
}

/// The ghost shape of a key sequence.
pub open spec fn spec_keys_model(s: Seq<Key>) -> Seq<KeyModel> {
    s.map_values(|k: Key| spec_key_model(k))
}

/// The textual base name a key's name is derived from: the symbolic name
/// of its driver value, or the value's eight hexadecimal digits behind
/// `0x` when no symbolic name covers it.
pub open spec fn spec_name_base(dv: u32) -> Seq<char> {
    match spec_driver_value_from_code(dv) {
        Some(v) => spec_driver_value_name(v),
        None => seq!['0', 'x'] + spec_hex_seq(dv as int, 8),
    }
}

/// The textual base name a key's name is derived from.
pub fn name_base(dv: u32) -> (r: String)
    ensures
        r@ == spec_name_base(dv),
{
    match driver_value_from_code(dv) {
        Some(v) => String::from_str(driver_value_name(v)),
        None => {
            let mut s = String::from_str("0x");
            let h = u32_to_hex8(dv);
            s.append(h.as_str());
            proof {
                reveal_strlit("0x");
                assert(s@ =~= spec_name_base(dv));
            }
            s
        },
    }
}

/// Whether any key already carries a name.
pub open spec fn spec_name_used(keys: Seq<KeyModel>, name: Seq<char>) -> bool {
    exists|j: int| 0 <= j < keys.len() && keys[j].driver_value_name == name
}

/// The candidates tried for a base name, in order: the base itself first,
/// then the base with ordinal suffixes from 2 on.
pub open spec fn spec_candidate_name(base: Seq<char>, i: nat) -> Seq<char> {
    if i <= 1 {
        base
    } else {
        base + seq!['_'] + spec_dec_seq(i)
    }
}

/// The first unused candidate among `tries` candidates from `start` on.
pub open spec fn spec_pick_name_from(
    keys: Seq<KeyModel>,
    base: Seq<char>,
    start: nat,
    tries: nat,
) -> Option<Seq<char>>
    decreases tries,
{
    if tries == 0 {
        None
    } else if !spec_name_used(keys, spec_candidate_name(base, start)) {
        Some(spec_candidate_name(base, start))
    } else {
        spec_pick_name_from(keys, base, (start + 1) as nat, (tries - 1) as nat)
    }
}

/// The name the resolver assigns against a set of taken names: the first
/// unused candidate, searching one candidate further than there are keys.
pub open spec fn spec_pick_name(keys: Seq<KeyModel>, base: Seq<char>) -> Option<Seq<char>> {
    spec_pick_name_from(keys, base, 1, keys.len() + 1)
}

/// Whether any key already carries a name.
fn name_used(keys: &Vec<Key>, name: &String) -> (r: bool)
    ensures
        r == spec_name_used(spec_keys_model(keys@), name@),
{
    let n = keys.len();
    let mut j: usize = 0;
    while j < n
        invariant
            0 <= j <= n,
            n == keys@.len(),
            forall|t: int|
                0 <= t < j ==> (#[trigger] spec_keys_model(keys@)[t]).driver_value_name != name@,
        decreases n - j,
    {
        if keys[j].driver_value_name.eq(name) {
            proof {
                assert(spec_keys_model(keys@)[j as int].driver_value_name == name@);
            }
            return true;
        }
        j = j + 1;
    }
    false
}

/// Picks the model-unique name for the next key: the base name if no key
/// carries it yet, else the base with the first free ordinal suffix, in
/// source order. Exhaustion of candidates is defensive: more candidates
/// are tried than names are taken.
pub fn resolve_unique_name(keys: &Vec<Key>, base: &String) -> (r: Result<String, Error>)
    requires
        keys@.len() < 0x7FFFFFFF,
    ensures
        r is Ok <==> spec_pick_name(spec_keys_model(keys@), base@) is Some,
        r matches Ok(name) ==> spec_pick_name(spec_keys_model(keys@), base@) == Some(name@),
        r matches Err(e) ==> e == Error::NameCollisionExhausted,
{
    let ghost models = spec_keys_model(keys@);
    let n = keys.len();
    let mut i: usize = 1;
    while i <= n + 1
        invariant
            1 <= i <= n + 2,
            n == keys@.len(),
            n < 0x7FFFFFFF,
            models == spec_keys_model(keys@),
            spec_pick_name_from(models, base@, 1, (n + 1) as nat) == spec_pick_name_from(
                models,
                base@,
                i as nat,
                (n + 2 - i) as nat,
            ),
        decreases n + 2 - i,
    {
        let mut cand = String::from_str(base.as_str());
        if i >= 2 {
            cand.append("_");
            let d = u32_to_dec(i as u32);
            cand.append(d.as_str());
        }
        proof {
            reveal_strlit("_");
            assert(cand@ =~= spec_candidate_name(base@, i as nat));
        }
        if !name_used(keys, &cand) {
            return Ok(cand);
        }
        i = i + 1;
    }
    Err(Error::NameCollisionExhausted)
}

/// Two distinct candidate ordinals for one base give distinct names: the
/// base differs from every suffixed form by length, and two suffixed
/// forms differ in their ordinal text.
pub proof fn lemma_candidate_injective(base: Seq<char>, i: nat, j: nat)
    requires
        1 <= i,
        1 <= j,
        i != j,
    ensures
        spec_candidate_name(base, i) != spec_candidate_name(base, j),
{
    if i == 1 {
        crate::numtext::lemma_dec_seq_len(j);
        assert(spec_candidate_name(base, j).len() > base.len());
    } else if j == 1 {
        crate::numtext::lemma_dec_seq_len(i);
        assert(spec_candidate_name(base, i).len() > base.len());
    } else {
        if spec_candidate_name(base, i) == spec_candidate_name(base, j) {
            let si = spec_candidate_name(base, i);
            let sj = spec_candidate_name(base, j);
            assert(spec_dec_seq(i) =~= si.skip(base.len() as int + 1));
            assert(spec_dec_seq(j) =~= sj.skip(base.len() as int + 1));
            crate::numtext::lemma_dec_seq_injective(i, j);
        }
    }
}

/// The search over candidates lands on the first free one: with every
/// candidate before `target` taken and `target` free, the search from
/// `start` yields `target`'s name.
pub proof fn lemma_pick_name_from_steps(
    keys: Seq<KeyModel>,
    base: Seq<char>,
    start: nat,
    tries: nat,
    target: nat,
)
    requires
        start <= target,
        target < start + tries,
        forall|t: nat|
            start <= t < target ==> #[trigger] spec_name_used(
                keys,
                spec_candidate_name(base, t),
            ),
        !spec_name_used(keys, spec_candidate_name(base, target)),
    ensures
        spec_pick_name_from(keys, base, start, tries) == Some(spec_candidate_name(base, target)),
    decreases target - start,
{
    if start < target {
        lemma_pick_name_from_steps(keys, base, (start + 1) as nat, (tries - 1) as nat, target);
    }
}

/// Names assigned in order against the growing prefix, for one shared
/// base, are the successive candidates: the proof walks the prefix.
proof fn lemma_shared_base_names_upto(ks: Seq<KeyModel>, base: Seq<char>, k: int)
    requires
        0 <= k <= ks.len(),
        forall|t: int|
            0 <= t < ks.len() ==> Some((#[trigger] ks[t]).driver_value_name) == spec_pick_name(
                ks.take(t),
                base,
            ),
    ensures
        forall|j: int|
            0 <= j < k ==> (#[trigger] ks[j]).driver_value_name == spec_candidate_name(
                base,
                (j + 1) as nat,
            ),
    decreases k,
{
    if k > 0 {
        lemma_shared_base_names_upto(ks, base, k - 1);
        let prefix = ks.take(k - 1);
        assert forall|t: nat| 1 <= t < k implies #[trigger] spec_name_used(
            prefix,
            spec_candidate_name(base, t),
        ) by {
            assert(prefix[t - 1] == ks[t - 1]);
            assert(prefix[t - 1].driver_value_name == spec_candidate_name(base, t));
        }
        assert(!spec_name_used(prefix, spec_candidate_name(base, k as nat))) by {
            if spec_name_used(prefix, spec_candidate_name(base, k as nat)) {
                let j = choose|j: int|
                    0 <= j < prefix.len() && prefix[j].driver_value_name == spec_candidate_name(
                        base,
                        k as nat,
                    );
                assert(prefix[j] == ks[j]);
                assert(ks[j].driver_value_name == spec_candidate_name(base, (j + 1) as nat));
                lemma_candidate_injective(base, (j + 1) as nat, k as nat);
            }
        }
        lemma_pick_name_from_steps(prefix, base, 1, (prefix.len() + 1) as nat, k as nat);
        assert(Some(ks[k - 1].driver_value_name) == spec_pick_name(prefix, base));
    }
}

/// For keys resolved in source order from no keys, all sharing one base
/// name, the resolver yields distinct names: the first key takes the
/// base unmodified and every later key takes the base with its ordinal
/// suffix, `_2` on, in source order.
pub proof fn lemma_shared_base_names(ks: Seq<KeyModel>, base: Seq<char>)
    requires
        forall|t: int|
            0 <= t < ks.len() ==> Some((#[trigger] ks[t]).driver_value_name) == spec_pick_name(
                ks.take(t),
                base,
            ),
    ensures
        ks.len() > 0 ==> ks[0].driver_value_name == base,
        forall|k: int|
            0 <= k < ks.len() ==> (#[trigger] ks[k]).driver_value_name == spec_candidate_name(
                base,
                (k + 1) as nat,
            ),
        forall|k1: int, k2: int|
            0 <= k1 < k2 < ks.len() ==> ks[k1].driver_value_name != ks[k2].driver_value_name,
{
    lemma_shared_base_names_upto(ks, base, ks.len() as int);
    assert forall|k1: int, k2: int| 0 <= k1 < k2 < ks.len() implies ks[k1].driver_value_name
        != ks[k2].driver_value_name by {
        lemma_candidate_injective(base, (k1 + 1) as nat, (k2 + 1) as nat);
    }
}

} // verus!
