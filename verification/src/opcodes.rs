//! The operation codes of the vendor protocol's report packets.

use vstd::prelude::*;

verus! {

/// The operations the protocol's packets carry.
#[derive(Clone, Copy, Debug, PartialEq, Eq, Structural)]
pub enum OpCodes {
    /// Information about the keyboard.
    Info,
    /// Restarts the keyboard; can reboot into special modes.
    RestartKeyboard,
    /// Diagnostics or key-input related; not pinned down.
    Unk04,
    /// Sets the active layer.
    SetLayer,
    /// Ping / keep alive.
    Ping,
    /// Macros while in the driver layer.
    DriverMacro,
    /// Sets driver-layer key values.
    DriverLayerSetKeyValues,
    /// Sets driver-layer config values.
    DriverLayerSetConfig,
    /// Sent by the keyboard to enable driver-layer callbacks.
    DriverKeyCallback,
    /// Updates driver-layer lighting in real time.
    DriverLayerUpdateRealtimeLighting,
    /// Resets one kind of data for a layer.
    LayerResetDataType,
    LayerSetKeyValues,
    /// Likely a keyboard data set; not pinned down.
    Unk23KbData,
    /// Lighting-related data; not pinned down.
    Unk24KbDataLighting,
    LayerSetMacros,
    /// Sets the lighting effects played on key presses.
    LayerSetKeyPressLightingEffect,
    LayerSetLightValues,
    /// Sets function-key values.
    LayerFnSetKeyValues,
}

/// The numeric operation code the protocol uses.
pub open spec fn spec_op_code(op: OpCodes) -> u8 {
    match op {
        OpCodes::Info => 0x01,
        OpCodes::RestartKeyboard => 0x03,
        OpCodes::Unk04 => 0x04,
        OpCodes::SetLayer => 0x0B,
        OpCodes::Ping => 0x0C,
        OpCodes::DriverMacro => 0x15,
        OpCodes::DriverLayerSetKeyValues => 0x16,
        OpCodes::DriverLayerSetConfig => 0x17,
        OpCodes::DriverKeyCallback => 0x18,
        OpCodes::DriverLayerUpdateRealtimeLighting => 0x1A,
        OpCodes::LayerResetDataType => 0x21,
        OpCodes::LayerSetKeyValues => 0x22,
        OpCodes::Unk23KbData => 0x23,
        OpCodes::Unk24KbDataLighting => 0x24,
        OpCodes::LayerSetMacros => 0x25,
        OpCodes::LayerSetKeyPressLightingEffect => 0x26,
        OpCodes::LayerSetLightValues => 0x27,
        OpCodes::LayerFnSetKeyValues => 0x31,
    }
}

/// The numeric operation code the protocol uses.
#[verifier::when_used_as_spec(spec_op_code)]
pub fn op_code(op: OpCodes) -> (code: u8)
    ensures
        code == spec_op_code(op),
{
    match op {
        OpCodes::Info => 0x01,
        OpCodes::RestartKeyboard => 0x03,
        OpCodes::Unk04 => 0x04,
        OpCodes::SetLayer => 0x0B,
        OpCodes::Ping => 0x0C,
        OpCodes::DriverMacro => 0x15,
        OpCodes::DriverLayerSetKeyValues => 0x16,
        OpCodes::DriverLayerSetConfig => 0x17,
        OpCodes::DriverKeyCallback => 0x18,
        OpCodes::DriverLayerUpdateRealtimeLighting => 0x1A,
        OpCodes::LayerResetDataType => 0x21,
        OpCodes::LayerSetKeyValues => 0x22,
        OpCodes::Unk23KbData => 0x23,
        OpCodes::Unk24KbDataLighting => 0x24,
        OpCodes::LayerSetMacros => 0x25,
        OpCodes::LayerSetKeyPressLightingEffect => 0x26,
        OpCodes::LayerSetLightValues => 0x27,
        OpCodes::LayerFnSetKeyValues => 0x31,
    }
}

} // verus!
