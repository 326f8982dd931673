//! The five selectable keyboard layers and their protocol numbering.

use vstd::prelude::*;

verus! {

/// One of the five selectable keyboard configurations, plus the invalid
/// placeholder the protocol reserves for "no layer".
#[derive(Clone, Copy, Debug, PartialEq, Eq, Structural)]
pub enum Layer {
    Invalid,
    Base,
    Layer1,
    Layer2,
    Layer3,
    Driver,
}

/// The numeric layer id the protocol uses.
pub open spec fn spec_layer_code(layer: Layer) -> u8 {
    match layer {
        Layer::Invalid => 0,
        Layer::Base => 1,
        Layer::Layer1 => 2,
        Layer::Layer2 => 3,
        Layer::Layer3 => 4,
        Layer::Driver => 5,
    }
}

/// The numeric layer id the protocol uses.
#[verifier::when_used_as_spec(spec_layer_code)]
pub fn layer_code(layer: Layer) -> (code: u8)
    ensures
        code == spec_layer_code(layer),
{
    match layer {
        Layer::Invalid => 0,
        Layer::Base => 1,
        Layer::Layer1 => 2,
        Layer::Layer2 => 3,
        Layer::Layer3 => 4,
        Layer::Driver => 5,
    }
}

/// The suffix of the factory-default profile asset for a layer: layer-specific
/// profiles are looked up by a fixed naming convention, and the base layer
/// uses the unsuffixed profile.
pub fn layer_profile_suffix(layer: Layer) -> (suffix: &'static str)
    ensures
        layer == Layer::Driver ==> suffix@ == "_online_1"@,
        layer == Layer::Layer1 ==> suffix@ == "_offline_1"@,
        layer == Layer::Layer2 ==> suffix@ == "_offline_2"@,
        layer == Layer::Layer3 ==> suffix@ == "_offline_3"@,
        layer == Layer::Base || layer == Layer::Invalid ==> suffix@ == ""@,
{
    match layer {
        Layer::Driver => "_online_1",
        Layer::Layer1 => "_offline_1",
        Layer::Layer2 => "_offline_2",
        Layer::Layer3 => "_offline_3",
        _ => "",
    }
}

} // verus!
