//! The packed 32-bit driver values the firmware understands, as a closed
//! set of symbolic identifiers with an explicit, validated mapping to and
//! from their numeric encodings.

use vstd::prelude::*;

verus! {

/// Every driver value the protocol defines: what a key press should trigger.
#[derive(Clone, Copy, Debug, PartialEq, Eq, Structural)]
pub enum DriverValue {
    NoValue,
    Esc,
    Disabled,
    F1,
    F2,
    F3,
    F4,
    F5,
    F6,
    F7,
    F8,
    F9,
    F10,
    F11,
    F12,
    PrintScreen,
    ScrollLock,
    Pause,
    BackTick,
    D1,
    D2,
    D3,
    D4,
    D5,
    D6,
    D7,
    D8,
    D9,
    D0,
    Subtract,
    Add,
    Backspace,
    Insert,
    Home,
    PageUp,
    Tab,
    Q,
    W,
    E,
    R,
    T,
    Y,
    U,
    I,
    O,
    P,
    OpenSquareBrace,
    CloseSquareBrace,
    Backslash,
    Delete,
    End,
    PageDown,
    CapsLock,
    A,
    S,
    D,
    F,
    G,
    H,
    J,
    K,
    L,
    Semicolon,
    Quotes,
    Enter,
    LShift,
    AltBackslash,
    Z,
    X,
    C,
    V,
    B,
    N,
    M,
    Comma,
    Period,
    Slash,
    RShift,
    Up,
    LCtrl,
    LWin,
    LAlt,
    Space,
    RAlt,
    RWin,
    Menu,
    RCtrl,
    Left,
    Down,
    Right,
    NumLock,
    NumPadSlash,
    NumPadAsterisk,
    NumPadSubtract,
    NumPad7,
    NumPad8,
    NumPad9,
    NumPadAdd,
    NumPad4,
    NumPad5,
    NumPad6,
    NumPad1,
    NumPad2,
    NumPad3,
    NumPad0,
    NumPadPeriod,
    NumPadEnter,
    OpenMediaPlayer,
    MediaPlayPause,
    MediaStop,
    MediaPrevious,
    MediaNext,
    VolumeUp,
    VolumeDown,
    VolumeMute,
    BrowserSearch,
    BrowserStop,
    BrowserBack,
    BrowserForward,
    BrowserRefresh,
    BrowserFavorites,
    BrowserHome,
    OpenEmail,
    OpenMyComputer,
    OpenCalculator,
    Copy,
    Paste,
    MouseLClick,
    MouseRClick,
    MouseMClick,
    MouseBack,
    MouseAdvance,
    TempSwitchLayerBase,
    TempSwitchLayer1,
    TempSwitchLayer2,
    TempSwitchLayer3,
    TempSwitchLayerDriver,
    Power,
    Clear,
    F13,
    F14,
    F15,
    F16,
    F17,
    F18,
    F19,
    F20,
    F21,
    F22,
    F23,
    F24,
    NumPadComma,
    IntlRo,
    KanaMode,
    IntlYen,
    Convert,
    NonConvert,
    Lang3,
    Lang4,
    ToggleLockWindowsKey,
    ToggleBluetooth,
    ToggleBluetoothNoLED,
    DriverLayerButton,
    Layer1Button,
    Layer2Button,
    Layer3Button,
    NextLightingEffect,
    NextReactiveLightingEffect,
    BrightnessUp,
    BrightnessDown,
    LightingSpeedDecrease,
    LightingSpeedIncrease,
    LightingPauseResume,
    ToggleLighting,
    All,
}

/// The packed numeric encoding of a driver value.
pub open spec fn spec_driver_value_code(v: DriverValue) -> u32 {
    match v {
        DriverValue::NoValue => 0,
        DriverValue::Esc => 0x02002900,
        DriverValue::Disabled => 0x02000000,
        DriverValue::F1 => 0x02003A00,
        DriverValue::F2 => 0x02003B00,
        DriverValue::F3 => 0x02003C00,
        DriverValue::F4 => 0x02003D00,
        DriverValue::F5 => 0x02003E00,
        DriverValue::F6 => 0x02003F00,
        DriverValue::F7 => 0x02004000,
        DriverValue::F8 => 0x02004100,
        DriverValue::F9 => 0x02004200,
        DriverValue::F10 => 0x02004300,
        DriverValue::F11 => 0x02004400,
        DriverValue::F12 => 0x02004500,
        DriverValue::PrintScreen => 0x02004600,
        DriverValue::ScrollLock => 0x02004700,
        DriverValue::Pause => 0x02004800,
        DriverValue::BackTick => 0x02003500,
        DriverValue::D1 => 0x02001E00,
        DriverValue::D2 => 0x02001F00,
        DriverValue::D3 => 0x02002000,
        DriverValue::D4 => 0x02002100,
        DriverValue::D5 => 0x02002200,
        DriverValue::D6 => 0x02002300,
        DriverValue::D7 => 0x02002400,
        DriverValue::D8 => 0x02002500,
        DriverValue::D9 => 0x02002600,
        DriverValue::D0 => 0x02002700,
        DriverValue::Subtract => 0x02002D00,
        DriverValue::Add => 0x02002E00,
        DriverValue::Backspace => 0x02002A00,
        DriverValue::Insert => 0x02004900,
        DriverValue::Home => 0x02004A00,
        DriverValue::PageUp => 0x02004B00,
        DriverValue::Tab => 0x02002B00,
        DriverValue::Q => 0x02001400,
        DriverValue::W => 0x02001A00,
        DriverValue::E => 0x02000800,
        DriverValue::R => 0x02001500,
        DriverValue::T => 0x02001700,
        DriverValue::Y => 0x02001C00,
        DriverValue::U => 0x02001800,
        DriverValue::I => 0x02000C00,
        DriverValue::O => 0x02001200,
        DriverValue::P => 0x02001300,
        DriverValue::OpenSquareBrace => 0x02002F00,
        DriverValue::CloseSquareBrace => 0x02003000,
        DriverValue::Backslash => 0x02003100,
        DriverValue::Delete => 0x02004C00,
        DriverValue::End => 0x02004D00,
        DriverValue::PageDown => 0x02004E00,
        DriverValue::CapsLock => 0x02003900,
        DriverValue::A => 0x02000400,
        DriverValue::S => 0x02001600,
        DriverValue::D => 0x02000700,
        DriverValue::F => 0x02000900,
        DriverValue::G => 0x02000A00,
        DriverValue::H => 0x02000B00,
        DriverValue::J => 0x02000D00,
        DriverValue::K => 0x02000E00,
        DriverValue::L => 0x02000F00,
        DriverValue::Semicolon => 0x02003300,
        DriverValue::Quotes => 0x02003400,
        DriverValue::Enter => 0x02002800,
        DriverValue::LShift => 0x02000002,
        DriverValue::AltBackslash => 0x02006400,
        DriverValue::Z => 0x02001D00,
        DriverValue::X => 0x02001B00,
        DriverValue::C => 0x02000600,
        DriverValue::V => 0x02001900,
        DriverValue::B => 0x02000500,
        DriverValue::N => 0x02001100,
        DriverValue::M => 0x02001000,
        DriverValue::Comma => 0x02003600,
        DriverValue::Period => 0x02003700,
        DriverValue::Slash => 0x02003800,
        DriverValue::RShift => 0x02000020,
        DriverValue::Up => 0x02005200,
        DriverValue::LCtrl => 0x02000001,
        DriverValue::LWin => 0x02000008,
        DriverValue::LAlt => 0x02000004,
        DriverValue::Space => 0x02002C00,
        DriverValue::RAlt => 0x02000040,
        DriverValue::RWin => 0x02000080,
        DriverValue::Menu => 0x02006500,
        DriverValue::RCtrl => 0x02000010,
        DriverValue::Left => 0x02005000,
        DriverValue::Down => 0x02005100,
        DriverValue::Right => 0x02004F00,
        DriverValue::NumLock => 0x02005300,
        DriverValue::NumPadSlash => 0x02005400,
        DriverValue::NumPadAsterisk => 0x02005500,
        DriverValue::NumPadSubtract => 0x02005600,
        DriverValue::NumPad7 => 0x02005F00,
        DriverValue::NumPad8 => 0x02006000,
        DriverValue::NumPad9 => 0x02006100,
        DriverValue::NumPadAdd => 0x02005700,
        DriverValue::NumPad4 => 0x02005C00,
        DriverValue::NumPad5 => 0x02005D00,
        DriverValue::NumPad6 => 0x02005E00,
        DriverValue::NumPad1 => 0x02005900,
        DriverValue::NumPad2 => 0x02005A00,
        DriverValue::NumPad3 => 0x02005B00,
        DriverValue::NumPad0 => 0x02006200,
        DriverValue::NumPadPeriod => 0x02006300,
        DriverValue::NumPadEnter => 0x02005800,
        DriverValue::OpenMediaPlayer => 0x03000183,
        DriverValue::MediaPlayPause => 0x030000CD,
        DriverValue::MediaStop => 0x030000B7,
        DriverValue::MediaPrevious => 0x030000B6,
        DriverValue::MediaNext => 0x030000B5,
        DriverValue::VolumeUp => 0x030000E9,
        DriverValue::VolumeDown => 0x030000EA,
        DriverValue::VolumeMute => 0x030000E2,
        DriverValue::BrowserSearch => 0x03000221,
        DriverValue::BrowserStop => 0x03000226,
        DriverValue::BrowserBack => 0x03000224,
        DriverValue::BrowserForward => 0x03000225,
        DriverValue::BrowserRefresh => 0x03000227,
        DriverValue::BrowserFavorites => 0x0300022A,
        DriverValue::BrowserHome => 0x03000223,
        DriverValue::OpenEmail => 0x0300018A,
        DriverValue::OpenMyComputer => 0x03000194,
        DriverValue::OpenCalculator => 0x03000192,
        DriverValue::Copy => 0x02000601,
        DriverValue::Paste => 0x02001901,
        DriverValue::MouseLClick => 0x01010001,
        DriverValue::MouseRClick => 0x01010002,
        DriverValue::MouseMClick => 0x01010004,
        DriverValue::MouseBack => 0x01010008,
        DriverValue::MouseAdvance => 0x01010010,
        DriverValue::TempSwitchLayerBase => 0x0a070001,
        DriverValue::TempSwitchLayer1 => 0x0a070002,
        DriverValue::TempSwitchLayer2 => 0x0a070003,
        DriverValue::TempSwitchLayer3 => 0x0a070004,
        DriverValue::TempSwitchLayerDriver => 0x0a070005,
        DriverValue::Power => 0x02006600,
        DriverValue::Clear => 0x02006700,
        DriverValue::F13 => 0x02006800,
        DriverValue::F14 => 0x02006900,
        DriverValue::F15 => 0x02006A00,
        DriverValue::F16 => 0x02006B00,
        DriverValue::F17 => 0x02006C00,
        DriverValue::F18 => 0x02006D00,
        DriverValue::F19 => 0x02006E00,
        DriverValue::F20 => 0x02006F00,
        DriverValue::F21 => 0x02007000,
        DriverValue::F22 => 0x02007100,
        DriverValue::F23 => 0x02007200,
        DriverValue::F24 => 0x02007300,
        DriverValue::NumPadComma => 0x02008500,
        DriverValue::IntlRo => 0x02008700,
        DriverValue::KanaMode => 0x02008800,
        DriverValue::IntlYen => 0x02008900,
        DriverValue::Convert => 0x02008A00,
        DriverValue::NonConvert => 0x02008B00,
        DriverValue::Lang3 => 0x02009200,
        DriverValue::Lang4 => 0x02009300,
        DriverValue::ToggleLockWindowsKey => 0x0A020002,
        DriverValue::ToggleBluetooth => 0x0A020007,
        DriverValue::ToggleBluetoothNoLED => 0x0A020008,
        DriverValue::DriverLayerButton => 0x0A060001,
        DriverValue::Layer1Button => 0x0A060002,
        DriverValue::Layer2Button => 0x0A060003,
        DriverValue::Layer3Button => 0x0A060004,
        DriverValue::NextLightingEffect => 0x09010010,
        DriverValue::NextReactiveLightingEffect => 0x09010011,
        DriverValue::BrightnessUp => 0x09020001,
        DriverValue::BrightnessDown => 0x09020002,
        DriverValue::LightingSpeedDecrease => 0x09030002,
        DriverValue::LightingSpeedIncrease => 0x09030001,
        DriverValue::LightingPauseResume => 0x09060001,
        DriverValue::ToggleLighting => 0x09060002,
        DriverValue::All => 0xFE000001,
    }
}

/// The packed numeric encoding of a driver value.
#[verifier::when_used_as_spec(spec_driver_value_code)]
pub fn driver_value_code(v: DriverValue) -> (code: u32)
    ensures
        code == spec_driver_value_code(v),
{
    match v {
        DriverValue::NoValue => 0,
        DriverValue::Esc => 0x02002900,
        DriverValue::Disabled => 0x02000000,
        DriverValue::F1 => 0x02003A00,
        DriverValue::F2 => 0x02003B00,
        DriverValue::F3 => 0x02003C00,
        DriverValue::F4 => 0x02003D00,
        DriverValue::F5 => 0x02003E00,
        DriverValue::F6 => 0x02003F00,
        DriverValue::F7 => 0x02004000,
        DriverValue::F8 => 0x02004100,
        DriverValue::F9 => 0x02004200,
        DriverValue::F10 => 0x02004300,
        DriverValue::F11 => 0x02004400,
        DriverValue::F12 => 0x02004500,
        DriverValue::PrintScreen => 0x02004600,
        DriverValue::ScrollLock => 0x02004700,
        DriverValue::Pause => 0x02004800,
        DriverValue::BackTick => 0x02003500,
        DriverValue::D1 => 0x02001E00,
        DriverValue::D2 => 0x02001F00,
        DriverValue::D3 => 0x02002000,
        DriverValue::D4 => 0x02002100,
        DriverValue::D5 => 0x02002200,
        DriverValue::D6 => 0x02002300,
        DriverValue::D7 => 0x02002400,
        DriverValue::D8 => 0x02002500,
        DriverValue::D9 => 0x02002600,
        DriverValue::D0 => 0x02002700,
        DriverValue::Subtract => 0x02002D00,
        DriverValue::Add => 0x02002E00,
        DriverValue::Backspace => 0x02002A00,
        DriverValue::Insert => 0x02004900,
        DriverValue::Home => 0x02004A00,
        DriverValue::PageUp => 0x02004B00,
        DriverValue::Tab => 0x02002B00,
        DriverValue::Q => 0x02001400,
        DriverValue::W => 0x02001A00,
        DriverValue::E => 0x02000800,
        DriverValue::R => 0x02001500,
        DriverValue::T => 0x02001700,
        DriverValue::Y => 0x02001C00,
        DriverValue::U => 0x02001800,
        DriverValue::I => 0x02000C00,
        DriverValue::O => 0x02001200,
        DriverValue::P => 0x02001300,
        DriverValue::OpenSquareBrace => 0x02002F00,
        DriverValue::CloseSquareBrace => 0x02003000,
        DriverValue::Backslash => 0x02003100,
        DriverValue::Delete => 0x02004C00,
        DriverValue::End => 0x02004D00,
        DriverValue::PageDown => 0x02004E00,
        DriverValue::CapsLock => 0x02003900,
        DriverValue::A => 0x02000400,
        DriverValue::S => 0x02001600,
        DriverValue::D => 0x02000700,
        DriverValue::F => 0x02000900,
        DriverValue::G => 0x02000A00,
        DriverValue::H => 0x02000B00,
        DriverValue::J => 0x02000D00,
        DriverValue::K => 0x02000E00,
        DriverValue::L => 0x02000F00,
        DriverValue::Semicolon => 0x02003300,
        DriverValue::Quotes => 0x02003400,
        DriverValue::Enter => 0x02002800,
        DriverValue::LShift => 0x02000002,
        DriverValue::AltBackslash => 0x02006400,
        DriverValue::Z => 0x02001D00,
        DriverValue::X => 0x02001B00,
        DriverValue::C => 0x02000600,
        DriverValue::V => 0x02001900,
        DriverValue::B => 0x02000500,
        DriverValue::N => 0x02001100,
        DriverValue::M => 0x02001000,
        DriverValue::Comma => 0x02003600,
        DriverValue::Period => 0x02003700,
        DriverValue::Slash => 0x02003800,
        DriverValue::RShift => 0x02000020,
        DriverValue::Up => 0x02005200,
        DriverValue::LCtrl => 0x02000001,
        DriverValue::LWin => 0x02000008,
        DriverValue::LAlt => 0x02000004,
        DriverValue::Space => 0x02002C00,
        DriverValue::RAlt => 0x02000040,
        DriverValue::RWin => 0x02000080,
        DriverValue::Menu => 0x02006500,
        DriverValue::RCtrl => 0x02000010,
        DriverValue::Left => 0x02005000,
        DriverValue::Down => 0x02005100,
        DriverValue::Right => 0x02004F00,
        DriverValue::NumLock => 0x02005300,
        DriverValue::NumPadSlash => 0x02005400,
        DriverValue::NumPadAsterisk => 0x02005500,
        DriverValue::NumPadSubtract => 0x02005600,
        DriverValue::NumPad7 => 0x02005F00,
        DriverValue::NumPad8 => 0x02006000,
        DriverValue::NumPad9 => 0x02006100,
        DriverValue::NumPadAdd => 0x02005700,
        DriverValue::NumPad4 => 0x02005C00,
        DriverValue::NumPad5 => 0x02005D00,
        DriverValue::NumPad6 => 0x02005E00,
        DriverValue::NumPad1 => 0x02005900,
        DriverValue::NumPad2 => 0x02005A00,
        DriverValue::NumPad3 => 0x02005B00,
        DriverValue::NumPad0 => 0x02006200,
        DriverValue::NumPadPeriod => 0x02006300,
        DriverValue::NumPadEnter => 0x02005800,
        DriverValue::OpenMediaPlayer => 0x03000183,
        DriverValue::MediaPlayPause => 0x030000CD,
        DriverValue::MediaStop => 0x030000B7,
        DriverValue::MediaPrevious => 0x030000B6,
        DriverValue::MediaNext => 0x030000B5,
        DriverValue::VolumeUp => 0x030000E9,
        DriverValue::VolumeDown => 0x030000EA,
        DriverValue::VolumeMute => 0x030000E2,
        DriverValue::BrowserSearch => 0x03000221,
        DriverValue::BrowserStop => 0x03000226,
        DriverValue::BrowserBack => 0x03000224,
        DriverValue::BrowserForward => 0x03000225,
        DriverValue::BrowserRefresh => 0x03000227,
        DriverValue::BrowserFavorites => 0x0300022A,
        DriverValue::BrowserHome => 0x03000223,
        DriverValue::OpenEmail => 0x0300018A,
        DriverValue::OpenMyComputer => 0x03000194,
        DriverValue::OpenCalculator => 0x03000192,
        DriverValue::Copy => 0x02000601,
        DriverValue::Paste => 0x02001901,
        DriverValue::MouseLClick => 0x01010001,
        DriverValue::MouseRClick => 0x01010002,
        DriverValue::MouseMClick => 0x01010004,
        DriverValue::MouseBack => 0x01010008,
        DriverValue::MouseAdvance => 0x01010010,
        DriverValue::TempSwitchLayerBase => 0x0a070001,
        DriverValue::TempSwitchLayer1 => 0x0a070002,
        DriverValue::TempSwitchLayer2 => 0x0a070003,
        DriverValue::TempSwitchLayer3 => 0x0a070004,
        DriverValue::TempSwitchLayerDriver => 0x0a070005,
        DriverValue::Power => 0x02006600,
        DriverValue::Clear => 0x02006700,
        DriverValue::F13 => 0x02006800,
        DriverValue::F14 => 0x02006900,
        DriverValue::F15 => 0x02006A00,
        DriverValue::F16 => 0x02006B00,
        DriverValue::F17 => 0x02006C00,
        DriverValue::F18 => 0x02006D00,
        DriverValue::F19 => 0x02006E00,
        DriverValue::F20 => 0x02006F00,
        DriverValue::F21 => 0x02007000,
        DriverValue::F22 => 0x02007100,
        DriverValue::F23 => 0x02007200,
        DriverValue::F24 => 0x02007300,
        DriverValue::NumPadComma => 0x02008500,
        DriverValue::IntlRo => 0x02008700,
        DriverValue::KanaMode => 0x02008800,
        DriverValue::IntlYen => 0x02008900,
        DriverValue::Convert => 0x02008A00,
        DriverValue::NonConvert => 0x02008B00,
        DriverValue::Lang3 => 0x02009200,
        DriverValue::Lang4 => 0x02009300,
        DriverValue::ToggleLockWindowsKey => 0x0A020002,
        DriverValue::ToggleBluetooth => 0x0A020007,
        DriverValue::ToggleBluetoothNoLED => 0x0A020008,
        DriverValue::DriverLayerButton => 0x0A060001,
        DriverValue::Layer1Button => 0x0A060002,
        DriverValue::Layer2Button => 0x0A060003,
        DriverValue::Layer3Button => 0x0A060004,
        DriverValue::NextLightingEffect => 0x09010010,
        DriverValue::NextReactiveLightingEffect => 0x09010011,
        DriverValue::BrightnessUp => 0x09020001,
        DriverValue::BrightnessDown => 0x09020002,
        DriverValue::LightingSpeedDecrease => 0x09030002,
        DriverValue::LightingSpeedIncrease => 0x09030001,
        DriverValue::LightingPauseResume => 0x09060001,
        DriverValue::ToggleLighting => 0x09060002,
        DriverValue::All => 0xFE000001,
    }
}

/// The symbolic identifier a numeric encoding stands for, if any.
pub open spec fn spec_driver_value_from_code(code: u32) -> Option<DriverValue> {
    if code == 0 {
        Some(DriverValue::NoValue)
    } else if code == 0x02002900 {
        Some(DriverValue::Esc)
    } else if code == 0x02000000 {
        Some(DriverValue::Disabled)
    } else if code == 0x02003A00 {
        Some(DriverValue::F1)
    } else if code == 0x02003B00 {
        Some(DriverValue::F2)
    } else if code == 0x02003C00 {
        Some(DriverValue::F3)
    } else if code == 0x02003D00 {
        Some(DriverValue::F4)
    } else if code == 0x02003E00 {
        Some(DriverValue::F5)
    } else if code == 0x02003F00 {
        Some(DriverValue::F6)
    } else if code == 0x02004000 {
        Some(DriverValue::F7)
    } else if code == 0x02004100 {
        Some(DriverValue::F8)
    } else if code == 0x02004200 {
        Some(DriverValue::F9)
    } else if code == 0x02004300 {
        Some(DriverValue::F10)
    } else if code == 0x02004400 {
        Some(DriverValue::F11)
    } else if code == 0x02004500 {
        Some(DriverValue::F12)
    } else if code == 0x02004600 {
        Some(DriverValue::PrintScreen)
    } else if code == 0x02004700 {
        Some(DriverValue::ScrollLock)
    } else if code == 0x02004800 {
        Some(DriverValue::Pause)
    } else if code == 0x02003500 {
        Some(DriverValue::BackTick)
    } else if code == 0x02001E00 {
        Some(DriverValue::D1)
    } else if code == 0x02001F00 {
        Some(DriverValue::D2)
    } else if code == 0x02002000 {
        Some(DriverValue::D3)
    } else if code == 0x02002100 {
        Some(DriverValue::D4)
    } else if code == 0x02002200 {
        Some(DriverValue::D5)
    } else if code == 0x02002300 {
        Some(DriverValue::D6)
    } else if code == 0x02002400 {
        Some(DriverValue::D7)
    } else if code == 0x02002500 {
        Some(DriverValue::D8)
    } else if code == 0x02002600 {
        Some(DriverValue::D9)
    } else if code == 0x02002700 {
        Some(DriverValue::D0)
    } else if code == 0x02002D00 {
        Some(DriverValue::Subtract)
    } else if code == 0x02002E00 {
        Some(DriverValue::Add)
    } else if code == 0x02002A00 {
        Some(DriverValue::Backspace)
    } else if code == 0x02004900 {
        Some(DriverValue::Insert)
    } else if code == 0x02004A00 {
        Some(DriverValue::Home)
    } else if code == 0x02004B00 {
        Some(DriverValue::PageUp)
    } else if code == 0x02002B00 {
        Some(DriverValue::Tab)
    } else if code == 0x02001400 {
        Some(DriverValue::Q)
    } else if code == 0x02001A00 {
        Some(DriverValue::W)
    } else if code == 0x02000800 {
        Some(DriverValue::E)
    } else if code == 0x02001500 {
        Some(DriverValue::R)
    } else if code == 0x02001700 {
        Some(DriverValue::T)
    } else if code == 0x02001C00 {
        Some(DriverValue::Y)
    } else if code == 0x02001800 {
        Some(DriverValue::U)
    } else if code == 0x02000C00 {
        Some(DriverValue::I)
    } else if code == 0x02001200 {
        Some(DriverValue::O)
    } else if code == 0x02001300 {
        Some(DriverValue::P)
    } else if code == 0x02002F00 {
        Some(DriverValue::OpenSquareBrace)
    } else if code == 0x02003000 {
        Some(DriverValue::CloseSquareBrace)
    } else if code == 0x02003100 {
        Some(DriverValue::Backslash)
    } else if code == 0x02004C00 {
        Some(DriverValue::Delete)
    } else if code == 0x02004D00 {
        Some(DriverValue::End)
    } else if code == 0x02004E00 {
        Some(DriverValue::PageDown)
    } else if code == 0x02003900 {
        Some(DriverValue::CapsLock)
    } else if code == 0x02000400 {
        Some(DriverValue::A)
    } else if code == 0x02001600 {
        Some(DriverValue::S)
    } else if code == 0x02000700 {
        Some(DriverValue::D)
    } else if code == 0x02000900 {
        Some(DriverValue::F)
    } else if code == 0x02000A00 {
        Some(DriverValue::G)
    } else if code == 0x02000B00 {
        Some(DriverValue::H)
    } else if code == 0x02000D00 {
        Some(DriverValue::J)
    } else if code == 0x02000E00 {
        Some(DriverValue::K)
    } else if code == 0x02000F00 {
        Some(DriverValue::L)
    } else if code == 0x02003300 {
        Some(DriverValue::Semicolon)
    } else if code == 0x02003400 {
        Some(DriverValue::Quotes)
    } else if code == 0x02002800 {
        Some(DriverValue::Enter)
    } else if code == 0x02000002 {
        Some(DriverValue::LShift)
    } else if code == 0x02006400 {
        Some(DriverValue::AltBackslash)
    } else if code == 0x02001D00 {
        Some(DriverValue::Z)
    } else if code == 0x02001B00 {
        Some(DriverValue::X)
    } else if code == 0x02000600 {
        Some(DriverValue::C)
    } else if code == 0x02001900 {
        Some(DriverValue::V)
    } else if code == 0x02000500 {
        Some(DriverValue::B)
    } else if code == 0x02001100 {
        Some(DriverValue::N)
    } else if code == 0x02001000 {
        Some(DriverValue::M)
    } else if code == 0x02003600 {
        Some(DriverValue::Comma)
    } else if code == 0x02003700 {
        Some(DriverValue::Period)
    } else if code == 0x02003800 {
        Some(DriverValue::Slash)
    } else if code == 0x02000020 {
        Some(DriverValue::RShift)
    } else if code == 0x02005200 {
        Some(DriverValue::Up)
    } else if code == 0x02000001 {
        Some(DriverValue::LCtrl)
    } else if code == 0x02000008 {
        Some(DriverValue::LWin)
    } else if code == 0x02000004 {
        Some(DriverValue::LAlt)
    } else if code == 0x02002C00 {
        Some(DriverValue::Space)
    } else if code == 0x02000040 {
        Some(DriverValue::RAlt)
    } else if code == 0x02000080 {
        Some(DriverValue::RWin)
    } else if code == 0x02006500 {
        Some(DriverValue::Menu)
    } else if code == 0x02000010 {
        Some(DriverValue::RCtrl)
    } else if code == 0x02005000 {
        Some(DriverValue::Left)
    } else if code == 0x02005100 {
        Some(DriverValue::Down)
    } else if code == 0x02004F00 {
        Some(DriverValue::Right)
    } else if code == 0x02005300 {
        Some(DriverValue::NumLock)
    } else if code == 0x02005400 {
        Some(DriverValue::NumPadSlash)
    } else if code == 0x02005500 {
        Some(DriverValue::NumPadAsterisk)
    } else if code == 0x02005600 {
        Some(DriverValue::NumPadSubtract)
    } else if code == 0x02005F00 {
        Some(DriverValue::NumPad7)
    } else if code == 0x02006000 {
        Some(DriverValue::NumPad8)
    } else if code == 0x02006100 {
        Some(DriverValue::NumPad9)
    } else if code == 0x02005700 {
        Some(DriverValue::NumPadAdd)
    } else if code == 0x02005C00 {
        Some(DriverValue::NumPad4)
    } else if code == 0x02005D00 {
        Some(DriverValue::NumPad5)
    } else if code == 0x02005E00 {
        Some(DriverValue::NumPad6)
    } else if code == 0x02005900 {
        Some(DriverValue::NumPad1)
    } else if code == 0x02005A00 {
        Some(DriverValue::NumPad2)
    } else if code == 0x02005B00 {
        Some(DriverValue::NumPad3)
    } else if code == 0x02006200 {
        Some(DriverValue::NumPad0)
    } else if code == 0x02006300 {
        Some(DriverValue::NumPadPeriod)
    } else if code == 0x02005800 {
        Some(DriverValue::NumPadEnter)
    } else if code == 0x03000183 {
        Some(DriverValue::OpenMediaPlayer)
    } else if code == 0x030000CD {
        Some(DriverValue::MediaPlayPause)
    } else if code == 0x030000B7 {
        Some(DriverValue::MediaStop)
    } else if code == 0x030000B6 {
        Some(DriverValue::MediaPrevious)
    } else if code == 0x030000B5 {
        Some(DriverValue::MediaNext)
    } else if code == 0x030000E9 {
        Some(DriverValue::VolumeUp)
    } else if code == 0x030000EA {
        Some(DriverValue::VolumeDown)
    } else if code == 0x030000E2 {
        Some(DriverValue::VolumeMute)
    } else if code == 0x03000221 {
        Some(DriverValue::BrowserSearch)
    } else if code == 0x03000226 {
        Some(DriverValue::BrowserStop)
    } else if code == 0x03000224 {
        Some(DriverValue::BrowserBack)
    } else if code == 0x03000225 {
        Some(DriverValue::BrowserForward)
    } else if code == 0x03000227 {
        Some(DriverValue::BrowserRefresh)
    } else if code == 0x0300022A {
        Some(DriverValue::BrowserFavorites)
    } else if code == 0x03000223 {
        Some(DriverValue::BrowserHome)
    } else if code == 0x0300018A {
        Some(DriverValue::OpenEmail)
    } else if code == 0x03000194 {
        Some(DriverValue::OpenMyComputer)
    } else if code == 0x03000192 {
        Some(DriverValue::OpenCalculator)
    } else if code == 0x02000601 {
        Some(DriverValue::Copy)
    } else if code == 0x02001901 {
        Some(DriverValue::Paste)
    } else if code == 0x01010001 {
        Some(DriverValue::MouseLClick)
    } else if code == 0x01010002 {
        Some(DriverValue::MouseRClick)
    } else if code == 0x01010004 {
        Some(DriverValue::MouseMClick)
    } else if code == 0x01010008 {
        Some(DriverValue::MouseBack)
    } else if code == 0x01010010 {
        Some(DriverValue::MouseAdvance)
    } else if code == 0x0a070001 {
        Some(DriverValue::TempSwitchLayerBase)
    } else if code == 0x0a070002 {
        Some(DriverValue::TempSwitchLayer1)
    } else if code == 0x0a070003 {
        Some(DriverValue::TempSwitchLayer2)
    } else if code == 0x0a070004 {
        Some(DriverValue::TempSwitchLayer3)
    } else if code == 0x0a070005 {
        Some(DriverValue::TempSwitchLayerDriver)
    } else if code == 0x02006600 {
        Some(DriverValue::Power)
    } else if code == 0x02006700 {
        Some(DriverValue::Clear)
    } else if code == 0x02006800 {
        Some(DriverValue::F13)
    } else if code == 0x02006900 {
        Some(DriverValue::F14)
    } else if code == 0x02006A00 {
        Some(DriverValue::F15)
    } else if code == 0x02006B00 {
        Some(DriverValue::F16)
    } else if code == 0x02006C00 {
        Some(DriverValue::F17)
    } else if code == 0x02006D00 {
        Some(DriverValue::F18)
    } else if code == 0x02006E00 {
        Some(DriverValue::F19)
    } else if code == 0x02006F00 {
        Some(DriverValue::F20)
    } else if code == 0x02007000 {
        Some(DriverValue::F21)
    } else if code == 0x02007100 {
        Some(DriverValue::F22)
    } else if code == 0x02007200 {
        Some(DriverValue::F23)
    } else if code == 0x02007300 {
        Some(DriverValue::F24)
    } else if code == 0x02008500 {
        Some(DriverValue::NumPadComma)
    } else if code == 0x02008700 {
        Some(DriverValue::IntlRo)
    } else if code == 0x02008800 {
        Some(DriverValue::KanaMode)
    } else if code == 0x02008900 {
        Some(DriverValue::IntlYen)
    } else if code == 0x02008A00 {
        Some(DriverValue::Convert)
    } else if code == 0x02008B00 {
        Some(DriverValue::NonConvert)
    } else if code == 0x02009200 {
        Some(DriverValue::Lang3)
    } else if code == 0x02009300 {
        Some(DriverValue::Lang4)
    } else if code == 0x0A020002 {
        Some(DriverValue::ToggleLockWindowsKey)
    } else if code == 0x0A020007 {
        Some(DriverValue::ToggleBluetooth)
    } else if code == 0x0A020008 {
        Some(DriverValue::ToggleBluetoothNoLED)
    } else if code == 0x0A060001 {
        Some(DriverValue::DriverLayerButton)
    } else if code == 0x0A060002 {
        Some(DriverValue::Layer1Button)
    } else if code == 0x0A060003 {
        Some(DriverValue::Layer2Button)
    } else if code == 0x0A060004 {
        Some(DriverValue::Layer3Button)
    } else if code == 0x09010010 {
        Some(DriverValue::NextLightingEffect)
    } else if code == 0x09010011 {
        Some(DriverValue::NextReactiveLightingEffect)
    } else if code == 0x09020001 {
        Some(DriverValue::BrightnessUp)
    } else if code == 0x09020002 {
        Some(DriverValue::BrightnessDown)
    } else if code == 0x09030002 {
        Some(DriverValue::LightingSpeedDecrease)
    } else if code == 0x09030001 {
        Some(DriverValue::LightingSpeedIncrease)
    } else if code == 0x09060001 {
        Some(DriverValue::LightingPauseResume)
    } else if code == 0x09060002 {
        Some(DriverValue::ToggleLighting)
    } else if code == 0xFE000001 {
        Some(DriverValue::All)
    } else {
        None
    }
}

/// The symbolic identifier a numeric encoding stands for, if any.
pub fn driver_value_from_code(code: u32) -> (r: Option<DriverValue>)
    ensures
        r == spec_driver_value_from_code(code),
{
    if code == 0 {
        Some(DriverValue::NoValue)
    } else if code == 0x02002900 {
        Some(DriverValue::Esc)
    } else if code == 0x02000000 {
        Some(DriverValue::Disabled)
    } else if code == 0x02003A00 {
        Some(DriverValue::F1)
    } else if code == 0x02003B00 {
        Some(DriverValue::F2)
    } else if code == 0x02003C00 {
        Some(DriverValue::F3)
    } else if code == 0x02003D00 {
        Some(DriverValue::F4)
    } else if code == 0x02003E00 {
        Some(DriverValue::F5)
    } else if code == 0x02003F00 {
        Some(DriverValue::F6)
    } else if code == 0x02004000 {
        Some(DriverValue::F7)
    } else if code == 0x02004100 {
        Some(DriverValue::F8)
    } else if code == 0x02004200 {
        Some(DriverValue::F9)
    } else if code == 0x02004300 {
        Some(DriverValue::F10)
    } else if code == 0x02004400 {
        Some(DriverValue::F11)
    } else if code == 0x02004500 {
        Some(DriverValue::F12)
    } else if code == 0x02004600 {
        Some(DriverValue::PrintScreen)
    } else if code == 0x02004700 {
        Some(DriverValue::ScrollLock)
    } else if code == 0x02004800 {
        Some(DriverValue::Pause)
    } else if code == 0x02003500 {
        Some(DriverValue::BackTick)
    } else if code == 0x02001E00 {
        Some(DriverValue::D1)
    } else if code == 0x02001F00 {
        Some(DriverValue::D2)
    } else if code == 0x02002000 {
        Some(DriverValue::D3)
    } else if code == 0x02002100 {
        Some(DriverValue::D4)
    } else if code == 0x02002200 {
        Some(DriverValue::D5)
    } else if code == 0x02002300 {
        Some(DriverValue::D6)
    } else if code == 0x02002400 {
        Some(DriverValue::D7)
    } else if code == 0x02002500 {
        Some(DriverValue::D8)
    } else if code == 0x02002600 {
        Some(DriverValue::D9)
    } else if code == 0x02002700 {
        Some(DriverValue::D0)
    } else if code == 0x02002D00 {
        Some(DriverValue::Subtract)
    } else if code == 0x02002E00 {
        Some(DriverValue::Add)
    } else if code == 0x02002A00 {
        Some(DriverValue::Backspace)
    } else if code == 0x02004900 {
        Some(DriverValue::Insert)
    } else if code == 0x02004A00 {
        Some(DriverValue::Home)
    } else if code == 0x02004B00 {
        Some(DriverValue::PageUp)
    } else if code == 0x02002B00 {
        Some(DriverValue::Tab)
    } else if code == 0x02001400 {
        Some(DriverValue::Q)
    } else if code == 0x02001A00 {
        Some(DriverValue::W)
    } else if code == 0x02000800 {
        Some(DriverValue::E)
    } else if code == 0x02001500 {
        Some(DriverValue::R)
    } else if code == 0x02001700 {
        Some(DriverValue::T)
    } else if code == 0x02001C00 {
        Some(DriverValue::Y)
    } else if code == 0x02001800 {
        Some(DriverValue::U)
    } else if code == 0x02000C00 {
        Some(DriverValue::I)
    } else if code == 0x02001200 {
        Some(DriverValue::O)
    } else if code == 0x02001300 {
        Some(DriverValue::P)
    } else if code == 0x02002F00 {
        Some(DriverValue::OpenSquareBrace)
    } else if code == 0x02003000 {
        Some(DriverValue::CloseSquareBrace)
    } else if code == 0x02003100 {
        Some(DriverValue::Backslash)
    } else if code == 0x02004C00 {
        Some(DriverValue::Delete)
    } else if code == 0x02004D00 {
        Some(DriverValue::End)
    } else if code == 0x02004E00 {
        Some(DriverValue::PageDown)
    } else if code == 0x02003900 {
        Some(DriverValue::CapsLock)
    } else if code == 0x02000400 {
        Some(DriverValue::A)
    } else if code == 0x02001600 {
        Some(DriverValue::S)
    } else if code == 0x02000700 {
        Some(DriverValue::D)
    } else if code == 0x02000900 {
        Some(DriverValue::F)
    } else if code == 0x02000A00 {
        Some(DriverValue::G)
    } else if code == 0x02000B00 {
        Some(DriverValue::H)
    } else if code == 0x02000D00 {
        Some(DriverValue::J)
    } else if code == 0x02000E00 {
        Some(DriverValue::K)
    } else if code == 0x02000F00 {
        Some(DriverValue::L)
    } else if code == 0x02003300 {
        Some(DriverValue::Semicolon)
    } else if code == 0x02003400 {
        Some(DriverValue::Quotes)
    } else if code == 0x02002800 {
        Some(DriverValue::Enter)
    } else if code == 0x02000002 {
        Some(DriverValue::LShift)
    } else if code == 0x02006400 {
        Some(DriverValue::AltBackslash)
    } else if code == 0x02001D00 {
        Some(DriverValue::Z)
    } else if code == 0x02001B00 {
        Some(DriverValue::X)
    } else if code == 0x02000600 {
        Some(DriverValue::C)
    } else if code == 0x02001900 {
        Some(DriverValue::V)
    } else if code == 0x02000500 {
        Some(DriverValue::B)
    } else if code == 0x02001100 {
        Some(DriverValue::N)
    } else if code == 0x02001000 {
        Some(DriverValue::M)
    } else if code == 0x02003600 {
        Some(DriverValue::Comma)
    } else if code == 0x02003700 {
        Some(DriverValue::Period)
    } else if code == 0x02003800 {
        Some(DriverValue::Slash)
    } else if code == 0x02000020 {
        Some(DriverValue::RShift)
    } else if code == 0x02005200 {
        Some(DriverValue::Up)
    } else if code == 0x02000001 {
        Some(DriverValue::LCtrl)
    } else if code == 0x02000008 {
        Some(DriverValue::LWin)
    } else if code == 0x02000004 {
        Some(DriverValue::LAlt)
    } else if code == 0x02002C00 {
        Some(DriverValue::Space)
    } else if code == 0x02000040 {
        Some(DriverValue::RAlt)
    } else if code == 0x02000080 {
        Some(DriverValue::RWin)
    } else if code == 0x02006500 {
        Some(DriverValue::Menu)
    } else if code == 0x02000010 {
        Some(DriverValue::RCtrl)
    } else if code == 0x02005000 {
        Some(DriverValue::Left)
    } else if code == 0x02005100 {
        Some(DriverValue::Down)
    } else if code == 0x02004F00 {
        Some(DriverValue::Right)
    } else if code == 0x02005300 {
        Some(DriverValue::NumLock)
    } else if code == 0x02005400 {
        Some(DriverValue::NumPadSlash)
    } else if code == 0x02005500 {
        Some(DriverValue::NumPadAsterisk)
    } else if code == 0x02005600 {
        Some(DriverValue::NumPadSubtract)
    } else if code == 0x02005F00 {
        Some(DriverValue::NumPad7)
    } else if code == 0x02006000 {
        Some(DriverValue::NumPad8)
    } else if code == 0x02006100 {
        Some(DriverValue::NumPad9)
    } else if code == 0x02005700 {
        Some(DriverValue::NumPadAdd)
    } else if code == 0x02005C00 {
        Some(DriverValue::NumPad4)
    } else if code == 0x02005D00 {
        Some(DriverValue::NumPad5)
    } else if code == 0x02005E00 {
        Some(DriverValue::NumPad6)
    } else if code == 0x02005900 {
        Some(DriverValue::NumPad1)
    } else if code == 0x02005A00 {
        Some(DriverValue::NumPad2)
    } else if code == 0x02005B00 {
        Some(DriverValue::NumPad3)
    } else if code == 0x02006200 {
        Some(DriverValue::NumPad0)
    } else if code == 0x02006300 {
        Some(DriverValue::NumPadPeriod)
    } else if code == 0x02005800 {
        Some(DriverValue::NumPadEnter)
    } else if code == 0x03000183 {
        Some(DriverValue::OpenMediaPlayer)
    } else if code == 0x030000CD {
        Some(DriverValue::MediaPlayPause)
    } else if code == 0x030000B7 {
        Some(DriverValue::MediaStop)
    } else if code == 0x030000B6 {
        Some(DriverValue::MediaPrevious)
    } else if code == 0x030000B5 {
        Some(DriverValue::MediaNext)
    } else if code == 0x030000E9 {
        Some(DriverValue::VolumeUp)
    } else if code == 0x030000EA {
        Some(DriverValue::VolumeDown)
    } else if code == 0x030000E2 {
        Some(DriverValue::VolumeMute)
    } else if code == 0x03000221 {
        Some(DriverValue::BrowserSearch)
    } else if code == 0x03000226 {
        Some(DriverValue::BrowserStop)
    } else if code == 0x03000224 {
        Some(DriverValue::BrowserBack)
    } else if code == 0x03000225 {
        Some(DriverValue::BrowserForward)
    } else if code == 0x03000227 {
        Some(DriverValue::BrowserRefresh)
    } else if code == 0x0300022A {
        Some(DriverValue::BrowserFavorites)
    } else if code == 0x03000223 {
        Some(DriverValue::BrowserHome)
    } else if code == 0x0300018A {
        Some(DriverValue::OpenEmail)
    } else if code == 0x03000194 {
        Some(DriverValue::OpenMyComputer)
    } else if code == 0x03000192 {
        Some(DriverValue::OpenCalculator)
    } else if code == 0x02000601 {
        Some(DriverValue::Copy)
    } else if code == 0x02001901 {
        Some(DriverValue::Paste)
    } else if code == 0x01010001 {
        Some(DriverValue::MouseLClick)
    } else if code == 0x01010002 {
        Some(DriverValue::MouseRClick)
    } else if code == 0x01010004 {
        Some(DriverValue::MouseMClick)
    } else if code == 0x01010008 {
        Some(DriverValue::MouseBack)
    } else if code == 0x01010010 {
        Some(DriverValue::MouseAdvance)
    } else if code == 0x0a070001 {
        Some(DriverValue::TempSwitchLayerBase)
    } else if code == 0x0a070002 {
        Some(DriverValue::TempSwitchLayer1)
    } else if code == 0x0a070003 {
        Some(DriverValue::TempSwitchLayer2)
    } else if code == 0x0a070004 {
        Some(DriverValue::TempSwitchLayer3)
    } else if code == 0x0a070005 {
        Some(DriverValue::TempSwitchLayerDriver)
    } else if code == 0x02006600 {
        Some(DriverValue::Power)
    } else if code == 0x02006700 {
        Some(DriverValue::Clear)
    } else if code == 0x02006800 {
        Some(DriverValue::F13)
    } else if code == 0x02006900 {
        Some(DriverValue::F14)
    } else if code == 0x02006A00 {
        Some(DriverValue::F15)
    } else if code == 0x02006B00 {
        Some(DriverValue::F16)
    } else if code == 0x02006C00 {
        Some(DriverValue::F17)
    } else if code == 0x02006D00 {
        Some(DriverValue::F18)
    } else if code == 0x02006E00 {
        Some(DriverValue::F19)
    } else if code == 0x02006F00 {
        Some(DriverValue::F20)
    } else if code == 0x02007000 {
        Some(DriverValue::F21)
    } else if code == 0x02007100 {
        Some(DriverValue::F22)
    } else if code == 0x02007200 {
        Some(DriverValue::F23)
    } else if code == 0x02007300 {
        Some(DriverValue::F24)
    } else if code == 0x02008500 {
        Some(DriverValue::NumPadComma)
    } else if code == 0x02008700 {
        Some(DriverValue::IntlRo)
    } else if code == 0x02008800 {
        Some(DriverValue::KanaMode)
    } else if code == 0x02008900 {
        Some(DriverValue::IntlYen)
    } else if code == 0x02008A00 {
        Some(DriverValue::Convert)
    } else if code == 0x02008B00 {
        Some(DriverValue::NonConvert)
    } else if code == 0x02009200 {
        Some(DriverValue::Lang3)
    } else if code == 0x02009300 {
        Some(DriverValue::Lang4)
    } else if code == 0x0A020002 {
        Some(DriverValue::ToggleLockWindowsKey)
    } else if code == 0x0A020007 {
        Some(DriverValue::ToggleBluetooth)
    } else if code == 0x0A020008 {
        Some(DriverValue::ToggleBluetoothNoLED)
    } else if code == 0x0A060001 {
        Some(DriverValue::DriverLayerButton)
    } else if code == 0x0A060002 {
        Some(DriverValue::Layer1Button)
    } else if code == 0x0A060003 {
        Some(DriverValue::Layer2Button)
    } else if code == 0x0A060004 {
        Some(DriverValue::Layer3Button)
    } else if code == 0x09010010 {
        Some(DriverValue::NextLightingEffect)
    } else if code == 0x09010011 {
        Some(DriverValue::NextReactiveLightingEffect)
    } else if code == 0x09020001 {
        Some(DriverValue::BrightnessUp)
    } else if code == 0x09020002 {
        Some(DriverValue::BrightnessDown)
    } else if code == 0x09030002 {
        Some(DriverValue::LightingSpeedDecrease)
    } else if code == 0x09030001 {
        Some(DriverValue::LightingSpeedIncrease)
    } else if code == 0x09060001 {
        Some(DriverValue::LightingPauseResume)
    } else if code == 0x09060002 {
        Some(DriverValue::ToggleLighting)
    } else if code == 0xFE000001 {
        Some(DriverValue::All)
    } else {
        None
    }
}

/// The textual name of a driver value, the base the resolver builds
/// unique key names from.
pub open spec fn spec_driver_value_name(v: DriverValue) -> Seq<char> {
    match v {
        DriverValue::NoValue => "None"@,
        DriverValue::Esc => "Esc"@,
        DriverValue::Disabled => "Disabled"@,
        DriverValue::F1 => "F1"@,
        DriverValue::F2 => "F2"@,
        DriverValue::F3 => "F3"@,
        DriverValue::F4 => "F4"@,
        DriverValue::F5 => "F5"@,
        DriverValue::F6 => "F6"@,
        DriverValue::F7 => "F7"@,
        DriverValue::F8 => "F8"@,
        DriverValue::F9 => "F9"@,
        DriverValue::F10 => "F10"@,
        DriverValue::F11 => "F11"@,
        DriverValue::F12 => "F12"@,
        DriverValue::PrintScreen => "PrintScreen"@,
        DriverValue::ScrollLock => "ScrollLock"@,
        DriverValue::Pause => "Pause"@,
        DriverValue::BackTick => "BackTick"@,
        DriverValue::D1 => "D1"@,
        DriverValue::D2 => "D2"@,
        DriverValue::D3 => "D3"@,
        DriverValue::D4 => "D4"@,
        DriverValue::D5 => "D5"@,
        DriverValue::D6 => "D6"@,
        DriverValue::D7 => "D7"@,
        DriverValue::D8 => "D8"@,
        DriverValue::D9 => "D9"@,
        DriverValue::D0 => "D0"@,
        DriverValue::Subtract => "Subtract"@,
        DriverValue::Add => "Add"@,
        DriverValue::Backspace => "Backspace"@,
        DriverValue::Insert => "Insert"@,
        DriverValue::Home => "Home"@,
        DriverValue::PageUp => "PageUp"@,
        DriverValue::Tab => "Tab"@,
        DriverValue::Q => "Q"@,
        DriverValue::W => "W"@,
        DriverValue::E => "E"@,
        DriverValue::R => "R"@,
        DriverValue::T => "T"@,
        DriverValue::Y => "Y"@,
        DriverValue::U => "U"@,
        DriverValue::I => "I"@,
        DriverValue::O => "O"@,
        DriverValue::P => "P"@,
        DriverValue::OpenSquareBrace => "OpenSquareBrace"@,
        DriverValue::CloseSquareBrace => "CloseSquareBrace"@,
        DriverValue::Backslash => "Backslash"@,
        DriverValue::Delete => "Delete"@,
        DriverValue::End => "End"@,
        DriverValue::PageDown => "PageDown"@,
        DriverValue::CapsLock => "CapsLock"@,
        DriverValue::A => "A"@,
        DriverValue::S => "S"@,
        DriverValue::D => "D"@,
        DriverValue::F => "F"@,
        DriverValue::G => "G"@,
        DriverValue::H => "H"@,
        DriverValue::J => "J"@,
        DriverValue::K => "K"@,
        DriverValue::L => "L"@,
        DriverValue::Semicolon => "Semicolon"@,
        DriverValue::Quotes => "Quotes"@,
        DriverValue::Enter => "Enter"@,
        DriverValue::LShift => "LShift"@,
        DriverValue::AltBackslash => "AltBackslash"@,
        DriverValue::Z => "Z"@,
        DriverValue::X => "X"@,
        DriverValue::C => "C"@,
        DriverValue::V => "V"@,
        DriverValue::B => "B"@,
        DriverValue::N => "N"@,
        DriverValue::M => "M"@,
        DriverValue::Comma => "Comma"@,
        DriverValue::Period => "Period"@,
        DriverValue::Slash => "Slash"@,
        DriverValue::RShift => "RShift"@,
        DriverValue::Up => "Up"@,
        DriverValue::LCtrl => "LCtrl"@,
        DriverValue::LWin => "LWin"@,
        DriverValue::LAlt => "LAlt"@,
        DriverValue::Space => "Space"@,
        DriverValue::RAlt => "RAlt"@,
        DriverValue::RWin => "RWin"@,
        DriverValue::Menu => "Menu"@,
        DriverValue::RCtrl => "RCtrl"@,
        DriverValue::Left => "Left"@,
        DriverValue::Down => "Down"@,
        DriverValue::Right => "Right"@,
        DriverValue::NumLock => "NumLock"@,
        DriverValue::NumPadSlash => "NumPadSlash"@,
        DriverValue::NumPadAsterisk => "NumPadAsterisk"@,
        DriverValue::NumPadSubtract => "NumPadSubtract"@,
        DriverValue::NumPad7 => "NumPad7"@,
        DriverValue::NumPad8 => "NumPad8"@,
        DriverValue::NumPad9 => "NumPad9"@,
        DriverValue::NumPadAdd => "NumPadAdd"@,
        DriverValue::NumPad4 => "NumPad4"@,
        DriverValue::NumPad5 => "NumPad5"@,
        DriverValue::NumPad6 => "NumPad6"@,
        DriverValue::NumPad1 => "NumPad1"@,
        DriverValue::NumPad2 => "NumPad2"@,
        DriverValue::NumPad3 => "NumPad3"@,
        DriverValue::NumPad0 => "NumPad0"@,
        DriverValue::NumPadPeriod => "NumPadPeriod"@,
        DriverValue::NumPadEnter => "NumPadEnter"@,
        DriverValue::OpenMediaPlayer => "OpenMediaPlayer"@,
        DriverValue::MediaPlayPause => "MediaPlayPause"@,
        DriverValue::MediaStop => "MediaStop"@,
        DriverValue::MediaPrevious => "MediaPrevious"@,
        DriverValue::MediaNext => "MediaNext"@,
        DriverValue::VolumeUp => "VolumeUp"@,
        DriverValue::VolumeDown => "VolumeDown"@,
        DriverValue::VolumeMute => "VolumeMute"@,
        DriverValue::BrowserSearch => "BrowserSearch"@,
        DriverValue::BrowserStop => "BrowserStop"@,
        DriverValue::BrowserBack => "BrowserBack"@,
        DriverValue::BrowserForward => "BrowserForward"@,
        DriverValue::BrowserRefresh => "BrowserRefresh"@,
        DriverValue::BrowserFavorites => "BrowserFavorites"@,
        DriverValue::BrowserHome => "BrowserHome"@,
        DriverValue::OpenEmail => "OpenEmail"@,
        DriverValue::OpenMyComputer => "OpenMyComputer"@,
        DriverValue::OpenCalculator => "OpenCalculator"@,
        DriverValue::Copy => "Copy"@,
        DriverValue::Paste => "Paste"@,
        DriverValue::MouseLClick => "MouseLClick"@,
        DriverValue::MouseRClick => "MouseRClick"@,
        DriverValue::MouseMClick => "MouseMClick"@,
        DriverValue::MouseBack => "MouseBack"@,
        DriverValue::MouseAdvance => "MouseAdvance"@,
        DriverValue::TempSwitchLayerBase => "TempSwitchLayerBase"@,
        DriverValue::TempSwitchLayer1 => "TempSwitchLayer1"@,
        DriverValue::TempSwitchLayer2 => "TempSwitchLayer2"@,
        DriverValue::TempSwitchLayer3 => "TempSwitchLayer3"@,
        DriverValue::TempSwitchLayerDriver => "TempSwitchLayerDriver"@,
        DriverValue::Power => "Power"@,
        DriverValue::Clear => "Clear"@,
        DriverValue::F13 => "F13"@,
        DriverValue::F14 => "F14"@,
        DriverValue::F15 => "F15"@,
        DriverValue::F16 => "F16"@,
        DriverValue::F17 => "F17"@,
        DriverValue::F18 => "F18"@,
        DriverValue::F19 => "F19"@,
        DriverValue::F20 => "F20"@,
        DriverValue::F21 => "F21"@,
        DriverValue::F22 => "F22"@,
        DriverValue::F23 => "F23"@,
        DriverValue::F24 => "F24"@,
        DriverValue::NumPadComma => "NumPadComma"@,
        DriverValue::IntlRo => "IntlRo"@,
        DriverValue::KanaMode => "KanaMode"@,
        DriverValue::IntlYen => "IntlYen"@,
        DriverValue::Convert => "Convert"@,
        DriverValue::NonConvert => "NonConvert"@,
        DriverValue::Lang3 => "Lang3"@,
        DriverValue::Lang4 => "Lang4"@,
        DriverValue::ToggleLockWindowsKey => "ToggleLockWindowsKey"@,
        DriverValue::ToggleBluetooth => "ToggleBluetooth"@,
        DriverValue::ToggleBluetoothNoLED => "ToggleBluetoothNoLED"@,
        DriverValue::DriverLayerButton => "DriverLayerButton"@,
        DriverValue::Layer1Button => "Layer1Button"@,
        DriverValue::Layer2Button => "Layer2Button"@,
        DriverValue::Layer3Button => "Layer3Button"@,
        DriverValue::NextLightingEffect => "NextLightingEffect"@,
        DriverValue::NextReactiveLightingEffect => "NextReactiveLightingEffect"@,
        DriverValue::BrightnessUp => "BrightnessUp"@,
        DriverValue::BrightnessDown => "BrightnessDown"@,
        DriverValue::LightingSpeedDecrease => "LightingSpeedDecrease"@,
        DriverValue::LightingSpeedIncrease => "LightingSpeedIncrease"@,
        DriverValue::LightingPauseResume => "LightingPauseResume"@,
        DriverValue::ToggleLighting => "ToggleLighting"@,
        DriverValue::All => "All"@,
    }
}

/// The textual name of a driver value.
pub fn driver_value_name(v: DriverValue) -> (name: &'static str)
    ensures
        name@ == spec_driver_value_name(v),
{
    match v {
        DriverValue::NoValue => "None",
        DriverValue::Esc => "Esc",
        DriverValue::Disabled => "Disabled",
        DriverValue::F1 => "F1",
        DriverValue::F2 => "F2",
        DriverValue::F3 => "F3",
        DriverValue::F4 => "F4",
        DriverValue::F5 => "F5",
        DriverValue::F6 => "F6",
        DriverValue::F7 => "F7",
        DriverValue::F8 => "F8",
        DriverValue::F9 => "F9",
        DriverValue::F10 => "F10",
        DriverValue::F11 => "F11",
        DriverValue::F12 => "F12",
        DriverValue::PrintScreen => "PrintScreen",
        DriverValue::ScrollLock => "ScrollLock",
        DriverValue::Pause => "Pause",
        DriverValue::BackTick => "BackTick",
        DriverValue::D1 => "D1",
        DriverValue::D2 => "D2",
        DriverValue::D3 => "D3",
        DriverValue::D4 => "D4",
        DriverValue::D5 => "D5",
        DriverValue::D6 => "D6",
        DriverValue::D7 => "D7",
        DriverValue::D8 => "D8",
        DriverValue::D9 => "D9",
        DriverValue::D0 => "D0",
        DriverValue::Subtract => "Subtract",
        DriverValue::Add => "Add",
        DriverValue::Backspace => "Backspace",
        DriverValue::Insert => "Insert",
        DriverValue::Home => "Home",
        DriverValue::PageUp => "PageUp",
        DriverValue::Tab => "Tab",
        DriverValue::Q => "Q",
        DriverValue::W => "W",
        DriverValue::E => "E",
        DriverValue::R => "R",
        DriverValue::T => "T",
        DriverValue::Y => "Y",
        DriverValue::U => "U",
        DriverValue::I => "I",
        DriverValue::O => "O",
        DriverValue::P => "P",
        DriverValue::OpenSquareBrace => "OpenSquareBrace",
        DriverValue::CloseSquareBrace => "CloseSquareBrace",
        DriverValue::Backslash => "Backslash",
        DriverValue::Delete => "Delete",
        DriverValue::End => "End",
        DriverValue::PageDown => "PageDown",
        DriverValue::CapsLock => "CapsLock",
        DriverValue::A => "A",
        DriverValue::S => "S",
        DriverValue::D => "D",
        DriverValue::F => "F",
        DriverValue::G => "G",
        DriverValue::H => "H",
        DriverValue::J => "J",
        DriverValue::K => "K",
        DriverValue::L => "L",
        DriverValue::Semicolon => "Semicolon",
        DriverValue::Quotes => "Quotes",
        DriverValue::Enter => "Enter",
        DriverValue::LShift => "LShift",
        DriverValue::AltBackslash => "AltBackslash",
        DriverValue::Z => "Z",
        DriverValue::X => "X",
        DriverValue::C => "C",
        DriverValue::V => "V",
        DriverValue::B => "B",
        DriverValue::N => "N",
        DriverValue::M => "M",
        DriverValue::Comma => "Comma",
        DriverValue::Period => "Period",
        DriverValue::Slash => "Slash",
        DriverValue::RShift => "RShift",
        DriverValue::Up => "Up",
        DriverValue::LCtrl => "LCtrl",
        DriverValue::LWin => "LWin",
        DriverValue::LAlt => "LAlt",
        DriverValue::Space => "Space",
        DriverValue::RAlt => "RAlt",
        DriverValue::RWin => "RWin",
        DriverValue::Menu => "Menu",
        DriverValue::RCtrl => "RCtrl",
        DriverValue::Left => "Left",
        DriverValue::Down => "Down",
        DriverValue::Right => "Right",
        DriverValue::NumLock => "NumLock",
        DriverValue::NumPadSlash => "NumPadSlash",
        DriverValue::NumPadAsterisk => "NumPadAsterisk",
        DriverValue::NumPadSubtract => "NumPadSubtract",
        DriverValue::NumPad7 => "NumPad7",
        DriverValue::NumPad8 => "NumPad8",
        DriverValue::NumPad9 => "NumPad9",
        DriverValue::NumPadAdd => "NumPadAdd",
        DriverValue::NumPad4 => "NumPad4",
        DriverValue::NumPad5 => "NumPad5",
        DriverValue::NumPad6 => "NumPad6",
        DriverValue::NumPad1 => "NumPad1",
        DriverValue::NumPad2 => "NumPad2",
        DriverValue::NumPad3 => "NumPad3",
        DriverValue::NumPad0 => "NumPad0",
        DriverValue::NumPadPeriod => "NumPadPeriod",
        DriverValue::NumPadEnter => "NumPadEnter",
        DriverValue::OpenMediaPlayer => "OpenMediaPlayer",
        DriverValue::MediaPlayPause => "MediaPlayPause",
        DriverValue::MediaStop => "MediaStop",
        DriverValue::MediaPrevious => "MediaPrevious",
        DriverValue::MediaNext => "MediaNext",
        DriverValue::VolumeUp => "VolumeUp",
        DriverValue::VolumeDown => "VolumeDown",
        DriverValue::VolumeMute => "VolumeMute",
        DriverValue::BrowserSearch => "BrowserSearch",
        DriverValue::BrowserStop => "BrowserStop",
        DriverValue::BrowserBack => "BrowserBack",
        DriverValue::BrowserForward => "BrowserForward",
        DriverValue::BrowserRefresh => "BrowserRefresh",
        DriverValue::BrowserFavorites => "BrowserFavorites",
        DriverValue::BrowserHome => "BrowserHome",
        DriverValue::OpenEmail => "OpenEmail",
        DriverValue::OpenMyComputer => "OpenMyComputer",
        DriverValue::OpenCalculator => "OpenCalculator",
        DriverValue::Copy => "Copy",
        DriverValue::Paste => "Paste",
        DriverValue::MouseLClick => "MouseLClick",
        DriverValue::MouseRClick => "MouseRClick",
        DriverValue::MouseMClick => "MouseMClick",
        DriverValue::MouseBack => "MouseBack",
        DriverValue::MouseAdvance => "MouseAdvance",
        DriverValue::TempSwitchLayerBase => "TempSwitchLayerBase",
        DriverValue::TempSwitchLayer1 => "TempSwitchLayer1",
        DriverValue::TempSwitchLayer2 => "TempSwitchLayer2",
        DriverValue::TempSwitchLayer3 => "TempSwitchLayer3",
        DriverValue::TempSwitchLayerDriver => "TempSwitchLayerDriver",
        DriverValue::Power => "Power",
        DriverValue::Clear => "Clear",
        DriverValue::F13 => "F13",
        DriverValue::F14 => "F14",
        DriverValue::F15 => "F15",
        DriverValue::F16 => "F16",
        DriverValue::F17 => "F17",
        DriverValue::F18 => "F18",
        DriverValue::F19 => "F19",
        DriverValue::F20 => "F20",
        DriverValue::F21 => "F21",
        DriverValue::F22 => "F22",
        DriverValue::F23 => "F23",
        DriverValue::F24 => "F24",
        DriverValue::NumPadComma => "NumPadComma",
        DriverValue::IntlRo => "IntlRo",
        DriverValue::KanaMode => "KanaMode",
        DriverValue::IntlYen => "IntlYen",
        DriverValue::Convert => "Convert",
        DriverValue::NonConvert => "NonConvert",
        DriverValue::Lang3 => "Lang3",
        DriverValue::Lang4 => "Lang4",
        DriverValue::ToggleLockWindowsKey => "ToggleLockWindowsKey",
        DriverValue::ToggleBluetooth => "ToggleBluetooth",
        DriverValue::ToggleBluetoothNoLED => "ToggleBluetoothNoLED",
        DriverValue::DriverLayerButton => "DriverLayerButton",
        DriverValue::Layer1Button => "Layer1Button",
        DriverValue::Layer2Button => "Layer2Button",
        DriverValue::Layer3Button => "Layer3Button",
        DriverValue::NextLightingEffect => "NextLightingEffect",
        DriverValue::NextReactiveLightingEffect => "NextReactiveLightingEffect",
        DriverValue::BrightnessUp => "BrightnessUp",
        DriverValue::BrightnessDown => "BrightnessDown",
        DriverValue::LightingSpeedDecrease => "LightingSpeedDecrease",
        DriverValue::LightingSpeedIncrease => "LightingSpeedIncrease",
        DriverValue::LightingPauseResume => "LightingPauseResume",
        DriverValue::ToggleLighting => "ToggleLighting",
        DriverValue::All => "All",
    }
}

/// Reading a driver value back from its encoding returns the value it
/// encodes: the reverse lookup agrees with the forward mapping.
pub proof fn lemma_driver_value_code_round_trip(v: DriverValue)
    ensures
        spec_driver_value_from_code(spec_driver_value_code(v)) == Some(v),
{
}

} // verus!
