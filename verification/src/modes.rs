//! Lighting-effect and macro modes, with their protocol numbering.

use vstd::prelude::*;

verus! {

/// How a lighting effect is described.
#[derive(Clone, Copy, Debug, PartialEq, Eq, Structural)]
pub enum LightingEffectType {
    /// Static lighting with an RGB value for each key.
    Static,
    /// A lighting effect with one or more frames of lighting.
    Dynamic,
}

/// The numeric lighting-effect type the protocol uses.
pub open spec fn spec_lighting_effect_type_code(t: LightingEffectType) -> u8 {
    match t {
        LightingEffectType::Static => 0,
        LightingEffectType::Dynamic => 3,
    }
}

/// The numeric lighting-effect type the protocol uses.
#[verifier::when_used_as_spec(spec_lighting_effect_type_code)]
pub fn lighting_effect_type_code(t: LightingEffectType) -> (code: u8)
    ensures
        code == spec_lighting_effect_type_code(t),
{
    match t {
        LightingEffectType::Static => 0,
        LightingEffectType::Dynamic => 3,
    }
}

/// How a lighting effect colors its keys.
#[derive(Clone, Copy, Debug, PartialEq, Eq, Structural)]
pub enum LightingEffectColorType {
    /// A single solid color.
    Monochrome,
    /// A color that walks the color spectrum.
    RGB,
    /// A color that walks the spectrum and visually breathes.
    Breathing,
}

/// The numeric color type the protocol uses.
pub open spec fn spec_lighting_effect_color_type_code(t: LightingEffectColorType) -> u8 {
    match t {
        LightingEffectColorType::Monochrome => 0,
        LightingEffectColorType::RGB => 1,
        LightingEffectColorType::Breathing => 2,
    }
}

/// The numeric color type the protocol uses.
#[verifier::when_used_as_spec(spec_lighting_effect_color_type_code)]
pub fn lighting_effect_color_type_code(t: LightingEffectColorType) -> (code: u8)
    ensures
        code == spec_lighting_effect_color_type_code(t),
{
    match t {
        LightingEffectColorType::Monochrome => 0,
        LightingEffectColorType::RGB => 1,
        LightingEffectColorType::Breathing => 2,
    }
}

/// How a macro repeats once its key is pressed.
#[derive(Clone, Copy, Debug, PartialEq, Eq, Structural)]
pub enum MacroRepeatType {
    /// Repeat a fixed number of times; presses during the run are
    /// ignored, and the key must be released and pressed again to
    /// restart.
    RepeatXTimes,
    /// Repeat until the key is released, even mid-run.
    ReleaseKeyToStop,
    /// Repeat until the key is pressed a second time.
    PressKeyAgainToStop,
}

/// The numeric repeat mode the protocol uses.
pub open spec fn spec_macro_repeat_type_code(t: MacroRepeatType) -> u8 {
    match t {
        MacroRepeatType::RepeatXTimes => 1,
        MacroRepeatType::ReleaseKeyToStop => 2,
        MacroRepeatType::PressKeyAgainToStop => 3,
    }
}

/// The numeric repeat mode the protocol uses.
#[verifier::when_used_as_spec(spec_macro_repeat_type_code)]
pub fn macro_repeat_type_code(t: MacroRepeatType) -> (code: u8)
    ensures
        code == spec_macro_repeat_type_code(t),
{
    match t {
        MacroRepeatType::RepeatXTimes => 1,
        MacroRepeatType::ReleaseKeyToStop => 2,
        MacroRepeatType::PressKeyAgainToStop => 3,
    }
}

/// What device a macro step drives; distinct from the driver-value
/// taxonomy.
#[derive(Clone, Copy, Debug, PartialEq, Eq, Structural)]
pub enum MacroKeyType {
    Key,
    Mouse,
}

/// The numeric macro key type the protocol uses.
pub open spec fn spec_macro_key_type_code(t: MacroKeyType) -> u8 {
    match t {
        MacroKeyType::Key => 1,
        MacroKeyType::Mouse => 2,
    }
}

/// The numeric macro key type the protocol uses.
#[verifier::when_used_as_spec(spec_macro_key_type_code)]
pub fn macro_key_type_code(t: MacroKeyType) -> (code: u8)
    ensures
        code == spec_macro_key_type_code(t),
{
    match t {
        MacroKeyType::Key => 1,
        MacroKeyType::Mouse => 2,
    }
}

/// Whether a macro step presses or releases its key.
#[derive(Clone, Copy, Debug, PartialEq, Eq, Structural)]
pub enum MacroKeyState {
    Down,
    Up,
}

/// The numeric macro key state the protocol uses.
pub open spec fn spec_macro_key_state_code(t: MacroKeyState) -> u8 {
    match t {
        MacroKeyState::Down => 1,
        MacroKeyState::Up => 2,
    }
}

/// The numeric macro key state the protocol uses.
#[verifier::when_used_as_spec(spec_macro_key_state_code)]
pub fn macro_key_state_code(t: MacroKeyState) -> (code: u8)
    ensures
        code == spec_macro_key_state_code(t),
{
    match t {
        MacroKeyState::Down => 1,
        MacroKeyState::Up => 2,
    }
}

} // verus!
