//! Core state model for a keyboard whose firmware is programmed through a
//! vendor-specific binary protocol: the packed driver-value encoding, the
//! per-model, per-layer configuration buffers, the loader that builds them
//! from parsed JSON assets, and the resolver that assigns every key a
//! model-unique name.

use vstd::prelude::*;

pub mod driver_value;
pub mod key_values;
pub mod keymap;
pub mod layer;
pub mod manager;
pub mod modes;
pub mod numtext;
pub mod opcodes;
pub mod registry;
pub mod resolver;
pub mod state;

verus! {

/// Reserved driver value meaning "no mapping assigned". Valid data, never an error.
pub const UNUSED_KEY_VALUE: u32 = 0xFFFFFFFF;

/// The error kinds a load can produce. Out-of-range buffer indices are
/// ignored rather than surfaced, so they have no variant here.
#[derive(Clone, Copy, Debug, PartialEq, Eq, Structural)]
pub enum Error {
    /// An asset this scope cannot do without was not found.
    AssetNotFound,
    /// An asset was present but its content could not be understood.
    AssetMalformed,
    /// A keymap asset is authored in a non-JSON dialect.
    UnsupportedKeymapFormat,
    /// A driver value's top bytes name no known category.
    UnknownDriverValueCategory,
    /// The resolver ran out of candidate names. Defensive; fatal if it occurs.
    NameCollisionExhausted,
}

/// What came of looking an asset up: the caller reports missing and
/// unreadable assets separately so each scope can fail on its own terms.
pub enum Asset<T> {
    Missing,
    Malformed,
    Data(T),
}

} // verus!
