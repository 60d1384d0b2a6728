//! Physical keys: the enumeration, its canonical names, and its mapping to and
//! from the native key codes of `global_hotkey`.

use global_hotkey::hotkey::Code;
use vstd::prelude::*;

verus! {

/// Number of physical keys that `KeyCode` enumerates.
pub const KEY_CODE_COUNT: u32 = 215;

/// A physical key, named after the position it has on a US keyboard.
///
/// The variants follow the order of the native `Code` enumeration, so a key's
/// position in this list is also the discriminant of its native code.
#[derive(Clone, Copy, Debug, PartialEq, Eq, Structural, Hash)]
pub enum KeyCode {
    Backquote,
    Backslash,
    BracketLeft,
    BracketRight,
    Comma,
    Digit0,
    Digit1,
    Digit2,
    Digit3,
    Digit4,
    Digit5,
    Digit6,
    Digit7,
    Digit8,
    Digit9,
    Equal,
    IntlBackslash,
    IntlRo,
    IntlYen,
    KeyA,
    KeyB,
    KeyC,
    KeyD,
    KeyE,
    KeyF,
    KeyG,
    KeyH,
    KeyI,
    KeyJ,
    KeyK,
    KeyL,
    KeyM,
    KeyN,
    KeyO,
    KeyP,
    KeyQ,
    KeyR,
    KeyS,
    KeyT,
    KeyU,
    KeyV,
    KeyW,
    KeyX,
    KeyY,
    KeyZ,
    Minus,
    Period,
    Quote,
    Semicolon,
    Slash,
    AltLeft,
    AltRight,
    Backspace,
    CapsLock,
    ContextMenu,
    ControlLeft,
    ControlRight,
    Enter,
    MetaLeft,
    MetaRight,
    ShiftLeft,
    ShiftRight,
    Space,
    Tab,
    Convert,
    KanaMode,
    Lang1,
    Lang2,
    Lang3,
    Lang4,
    Lang5,
    NonConvert,
    Delete,
    End,
    Help,
    Home,
    Insert,
    PageDown,
    PageUp,
    ArrowDown,
    ArrowLeft,
    ArrowRight,
    ArrowUp,
    NumLock,
    Numpad0,
    Numpad1,
    Numpad2,
    Numpad3,
    Numpad4,
    Numpad5,
    Numpad6,
    Numpad7,
    Numpad8,
    Numpad9,
    NumpadAdd,
    NumpadBackspace,
    NumpadClear,
    NumpadClearEntry,
    NumpadComma,
    NumpadDecimal,
    NumpadDivide,
    NumpadEnter,
    NumpadEqual,
    NumpadHash,
    NumpadMemoryAdd,
    NumpadMemoryClear,
    NumpadMemoryRecall,
    NumpadMemoryStore,
    NumpadMemorySubtract,
    NumpadMultiply,
    NumpadParenLeft,
    NumpadParenRight,
    NumpadStar,
    NumpadSubtract,
    Escape,
    Fn,
    FnLock,
    PrintScreen,
    ScrollLock,
    Pause,
    BrowserBack,
    BrowserFavorites,
    BrowserForward,
    BrowserHome,
    BrowserRefresh,
    BrowserSearch,
    BrowserStop,
    Eject,
    LaunchApp1,
    LaunchApp2,
    LaunchMail,
    MediaPlayPause,
    MediaSelect,
    MediaStop,
    MediaTrackNext,
    MediaTrackPrevious,
    Power,
    Sleep,
    AudioVolumeDown,
    AudioVolumeMute,
    AudioVolumeUp,
    WakeUp,
    Hyper,
    Super,
    Turbo,
    Abort,
    Resume,
    Suspend,
    Again,
    Copy,
    Cut,
    Find,
    Open,
    Paste,
    Props,
    Select,
    Undo,
    Hiragana,
    Katakana,
    Unidentified,
    F1,
    F2,
    F3,
    F4,
    F5,
    F6,
    F7,
    F8,
    F9,
    F10,
    F11,
    F12,
    F13,
    F14,
    F15,
    F16,
    F17,
    F18,
    F19,
    F20,
    F21,
    F22,
    F23,
    F24,
    F25,
    F26,
    F27,
    F28,
    F29,
    F30,
    F31,
    F32,
    F33,
    F34,
    F35,
    BrightnessDown,
    BrightnessUp,
    DisplayToggleIntExt,
    KeyboardLayoutSelect,
    LaunchAssistant,
    LaunchControlPanel,
    LaunchScreenSaver,
    MailForward,
    MailReply,
    MailSend,
    MediaFastForward,
    MediaPause,
    MediaPlay,
    MediaRecord,
    MediaRewind,
    MicrophoneMuteToggle,
    PrivacyScreenToggle,
    SelectTask,
    ShowAllWindows,
    ZoomToggle,
}

/// The canonical name of a key: the identifier of its variant.
pub open spec fn key_name(k: KeyCode) -> Seq<char> {
    match k {
        KeyCode::Backquote => "Backquote"@,
        KeyCode::Backslash => "Backslash"@,
        KeyCode::BracketLeft => "BracketLeft"@,
        KeyCode::BracketRight => "BracketRight"@,
        KeyCode::Comma => "Comma"@,
        KeyCode::Digit0 => "Digit0"@,
        KeyCode::Digit1 => "Digit1"@,
        KeyCode::Digit2 => "Digit2"@,
        KeyCode::Digit3 => "Digit3"@,
        KeyCode::Digit4 => "Digit4"@,
        KeyCode::Digit5 => "Digit5"@,
        KeyCode::Digit6 => "Digit6"@,
        KeyCode::Digit7 => "Digit7"@,
        KeyCode::Digit8 => "Digit8"@,
        KeyCode::Digit9 => "Digit9"@,
        KeyCode::Equal => "Equal"@,
        KeyCode::IntlBackslash => "IntlBackslash"@,
        KeyCode::IntlRo => "IntlRo"@,
        KeyCode::IntlYen => "IntlYen"@,
        KeyCode::KeyA => "KeyA"@,
        KeyCode::KeyB => "KeyB"@,
        KeyCode::KeyC => "KeyC"@,
        KeyCode::KeyD => "KeyD"@,
        KeyCode::KeyE => "KeyE"@,
        KeyCode::KeyF => "KeyF"@,
        KeyCode::KeyG => "KeyG"@,
        KeyCode::KeyH => "KeyH"@,
        KeyCode::KeyI => "KeyI"@,
        KeyCode::KeyJ => "KeyJ"@,
        KeyCode::KeyK => "KeyK"@,
        KeyCode::KeyL => "KeyL"@,
        KeyCode::KeyM => "KeyM"@,
        KeyCode::KeyN => "KeyN"@,
        KeyCode::KeyO => "KeyO"@,
        KeyCode::KeyP => "KeyP"@,
        KeyCode::KeyQ => "KeyQ"@,
        KeyCode::KeyR => "KeyR"@,
        KeyCode::KeyS => "KeyS"@,
        KeyCode::KeyT => "KeyT"@,
        KeyCode::KeyU => "KeyU"@,
        KeyCode::KeyV => "KeyV"@,
        KeyCode::KeyW => "KeyW"@,
        KeyCode::KeyX => "KeyX"@,
        KeyCode::KeyY => "KeyY"@,
        KeyCode::KeyZ => "KeyZ"@,
        KeyCode::Minus => "Minus"@,
        KeyCode::Period => "Period"@,
        KeyCode::Quote => "Quote"@,
        KeyCode::Semicolon => "Semicolon"@,
        KeyCode::Slash => "Slash"@,
        KeyCode::AltLeft => "AltLeft"@,
        KeyCode::AltRight => "AltRight"@,
        KeyCode::Backspace => "Backspace"@,
        KeyCode::CapsLock => "CapsLock"@,
        KeyCode::ContextMenu => "ContextMenu"@,
        KeyCode::ControlLeft => "ControlLeft"@,
        KeyCode::ControlRight => "ControlRight"@,
        KeyCode::Enter => "Enter"@,
        KeyCode::MetaLeft => "MetaLeft"@,
        KeyCode::MetaRight => "MetaRight"@,
        KeyCode::ShiftLeft => "ShiftLeft"@,
        KeyCode::ShiftRight => "ShiftRight"@,
        KeyCode::Space => "Space"@,
        KeyCode::Tab => "Tab"@,
        KeyCode::Convert => "Convert"@,
        KeyCode::KanaMode => "KanaMode"@,
        KeyCode::Lang1 => "Lang1"@,
        KeyCode::Lang2 => "Lang2"@,
        KeyCode::Lang3 => "Lang3"@,
        KeyCode::Lang4 => "Lang4"@,
        KeyCode::Lang5 => "Lang5"@,
        KeyCode::NonConvert => "NonConvert"@,
        KeyCode::Delete => "Delete"@,
        KeyCode::End => "End"@,
        KeyCode::Help => "Help"@,
        KeyCode::Home => "Home"@,
        KeyCode::Insert => "Insert"@,
        KeyCode::PageDown => "PageDown"@,
        KeyCode::PageUp => "PageUp"@,
        KeyCode::ArrowDown => "ArrowDown"@,
        KeyCode::ArrowLeft => "ArrowLeft"@,
        KeyCode::ArrowRight => "ArrowRight"@,
        KeyCode::ArrowUp => "ArrowUp"@,
        KeyCode::NumLock => "NumLock"@,
        KeyCode::Numpad0 => "Numpad0"@,
        KeyCode::Numpad1 => "Numpad1"@,
        KeyCode::Numpad2 => "Numpad2"@,
        KeyCode::Numpad3 => "Numpad3"@,
        KeyCode::Numpad4 => "Numpad4"@,
        KeyCode::Numpad5 => "Numpad5"@,
        KeyCode::Numpad6 => "Numpad6"@,
        KeyCode::Numpad7 => "Numpad7"@,
        KeyCode::Numpad8 => "Numpad8"@,
        KeyCode::Numpad9 => "Numpad9"@,
        KeyCode::NumpadAdd => "NumpadAdd"@,
        KeyCode::NumpadBackspace => "NumpadBackspace"@,
        KeyCode::NumpadClear => "NumpadClear"@,
        KeyCode::NumpadClearEntry => "NumpadClearEntry"@,
        KeyCode::NumpadComma => "NumpadComma"@,
        KeyCode::NumpadDecimal => "NumpadDecimal"@,
        KeyCode::NumpadDivide => "NumpadDivide"@,
        KeyCode::NumpadEnter => "NumpadEnter"@,
        KeyCode::NumpadEqual => "NumpadEqual"@,
        KeyCode::NumpadHash => "NumpadHash"@,
        KeyCode::NumpadMemoryAdd => "NumpadMemoryAdd"@,
        KeyCode::NumpadMemoryClear => "NumpadMemoryClear"@,
        KeyCode::NumpadMemoryRecall => "NumpadMemoryRecall"@,
        KeyCode::NumpadMemoryStore => "NumpadMemoryStore"@,
        KeyCode::NumpadMemorySubtract => "NumpadMemorySubtract"@,
        KeyCode::NumpadMultiply => "NumpadMultiply"@,
        KeyCode::NumpadParenLeft => "NumpadParenLeft"@,
        KeyCode::NumpadParenRight => "NumpadParenRight"@,
        KeyCode::NumpadStar => "NumpadStar"@,
        KeyCode::NumpadSubtract => "NumpadSubtract"@,
        KeyCode::Escape => "Escape"@,
        KeyCode::Fn => "Fn"@,
        KeyCode::FnLock => "FnLock"@,
        KeyCode::PrintScreen => "PrintScreen"@,
        KeyCode::ScrollLock => "ScrollLock"@,
        KeyCode::Pause => "Pause"@,
        KeyCode::BrowserBack => "BrowserBack"@,
        KeyCode::BrowserFavorites => "BrowserFavorites"@,
        KeyCode::BrowserForward => "BrowserForward"@,
        KeyCode::BrowserHome => "BrowserHome"@,
        KeyCode::BrowserRefresh => "BrowserRefresh"@,
        KeyCode::BrowserSearch => "BrowserSearch"@,
        KeyCode::BrowserStop => "BrowserStop"@,
        KeyCode::Eject => "Eject"@,
        KeyCode::LaunchApp1 => "LaunchApp1"@,
        KeyCode::LaunchApp2 => "LaunchApp2"@,
        KeyCode::LaunchMail => "LaunchMail"@,
        KeyCode::MediaPlayPause => "MediaPlayPause"@,
        KeyCode::MediaSelect => "MediaSelect"@,
        KeyCode::MediaStop => "MediaStop"@,
        KeyCode::MediaTrackNext => "MediaTrackNext"@,
        KeyCode::MediaTrackPrevious => "MediaTrackPrevious"@,
        KeyCode::Power => "Power"@,
        KeyCode::Sleep => "Sleep"@,
        KeyCode::AudioVolumeDown => "AudioVolumeDown"@,
        KeyCode::AudioVolumeMute => "AudioVolumeMute"@,
        KeyCode::AudioVolumeUp => "AudioVolumeUp"@,
        KeyCode::WakeUp => "WakeUp"@,
        KeyCode::Hyper => "Hyper"@,
        KeyCode::Super => "Super"@,
        KeyCode::Turbo => "Turbo"@,
        KeyCode::Abort => "Abort"@,
        KeyCode::Resume => "Resume"@,
        KeyCode::Suspend => "Suspend"@,
        KeyCode::Again => "Again"@,
        KeyCode::Copy => "Copy"@,
        KeyCode::Cut => "Cut"@,
        KeyCode::Find => "Find"@,
        KeyCode::Open => "Open"@,
        KeyCode::Paste => "Paste"@,
        KeyCode::Props => "Props"@,
        KeyCode::Select => "Select"@,
        KeyCode::Undo => "Undo"@,
        KeyCode::Hiragana => "Hiragana"@,
        KeyCode::Katakana => "Katakana"@,
        KeyCode::Unidentified => "Unidentified"@,
        KeyCode::F1 => "F1"@,
        KeyCode::F2 => "F2"@,
        KeyCode::F3 => "F3"@,
        KeyCode::F4 => "F4"@,
        KeyCode::F5 => "F5"@,
        KeyCode::F6 => "F6"@,
        KeyCode::F7 => "F7"@,
        KeyCode::F8 => "F8"@,
        KeyCode::F9 => "F9"@,
        KeyCode::F10 => "F10"@,
        KeyCode::F11 => "F11"@,
        KeyCode::F12 => "F12"@,
        KeyCode::F13 => "F13"@,
        KeyCode::F14 => "F14"@,
        KeyCode::F15 => "F15"@,
        KeyCode::F16 => "F16"@,
        KeyCode::F17 => "F17"@,
        KeyCode::F18 => "F18"@,
        KeyCode::F19 => "F19"@,
        KeyCode::F20 => "F20"@,
        KeyCode::F21 => "F21"@,
        KeyCode::F22 => "F22"@,
        KeyCode::F23 => "F23"@,
        KeyCode::F24 => "F24"@,
        KeyCode::F25 => "F25"@,
        KeyCode::F26 => "F26"@,
        KeyCode::F27 => "F27"@,
        KeyCode::F28 => "F28"@,
        KeyCode::F29 => "F29"@,
        KeyCode::F30 => "F30"@,
        KeyCode::F31 => "F31"@,
        KeyCode::F32 => "F32"@,
        KeyCode::F33 => "F33"@,
        KeyCode::F34 => "F34"@,
        KeyCode::F35 => "F35"@,
        KeyCode::BrightnessDown => "BrightnessDown"@,
        KeyCode::BrightnessUp => "BrightnessUp"@,
        KeyCode::DisplayToggleIntExt => "DisplayToggleIntExt"@,
        KeyCode::KeyboardLayoutSelect => "KeyboardLayoutSelect"@,
        KeyCode::LaunchAssistant => "LaunchAssistant"@,
        KeyCode::LaunchControlPanel => "LaunchControlPanel"@,
        KeyCode::LaunchScreenSaver => "LaunchScreenSaver"@,
        KeyCode::MailForward => "MailForward"@,
        KeyCode::MailReply => "MailReply"@,
        KeyCode::MailSend => "MailSend"@,
        KeyCode::MediaFastForward => "MediaFastForward"@,
        KeyCode::MediaPause => "MediaPause"@,
        KeyCode::MediaPlay => "MediaPlay"@,
        KeyCode::MediaRecord => "MediaRecord"@,
        KeyCode::MediaRewind => "MediaRewind"@,
        KeyCode::MicrophoneMuteToggle => "MicrophoneMuteToggle"@,
        KeyCode::PrivacyScreenToggle => "PrivacyScreenToggle"@,
        KeyCode::SelectTask => "SelectTask"@,
        KeyCode::ShowAllWindows => "ShowAllWindows"@,
        KeyCode::ZoomToggle => "ZoomToggle"@,
    }
}

/// The native key code that stands for a key.
pub open spec fn native_code(k: KeyCode) -> Code {
    match k {
        KeyCode::Backquote => Code::Backquote,
        KeyCode::Backslash => Code::Backslash,
        KeyCode::BracketLeft => Code::BracketLeft,
        KeyCode::BracketRight => Code::BracketRight,
        KeyCode::Comma => Code::Comma,
        KeyCode::Digit0 => Code::Digit0,
        KeyCode::Digit1 => Code::Digit1,
        KeyCode::Digit2 => Code::Digit2,
        KeyCode::Digit3 => Code::Digit3,
        KeyCode::Digit4 => Code::Digit4,
        KeyCode::Digit5 => Code::Digit5,
        KeyCode::Digit6 => Code::Digit6,
        KeyCode::Digit7 => Code::Digit7,
        KeyCode::Digit8 => Code::Digit8,
        KeyCode::Digit9 => Code::Digit9,
        KeyCode::Equal => Code::Equal,
        KeyCode::IntlBackslash => Code::IntlBackslash,
        KeyCode::IntlRo => Code::IntlRo,
        KeyCode::IntlYen => Code::IntlYen,
        KeyCode::KeyA => Code::KeyA,
        KeyCode::KeyB => Code::KeyB,
        KeyCode::KeyC => Code::KeyC,
        KeyCode::KeyD => Code::KeyD,
        KeyCode::KeyE => Code::KeyE,
        KeyCode::KeyF => Code::KeyF,
        KeyCode::KeyG => Code::KeyG,
        KeyCode::KeyH => Code::KeyH,
        KeyCode::KeyI => Code::KeyI,
        KeyCode::KeyJ => Code::KeyJ,
        KeyCode::KeyK => Code::KeyK,
        KeyCode::KeyL => Code::KeyL,
        KeyCode::KeyM => Code::KeyM,
        KeyCode::KeyN => Code::KeyN,
        KeyCode::KeyO => Code::KeyO,
        KeyCode::KeyP => Code::KeyP,
        KeyCode::KeyQ => Code::KeyQ,
        KeyCode::KeyR => Code::KeyR,
        KeyCode::KeyS => Code::KeyS,
        KeyCode::KeyT => Code::KeyT,
        KeyCode::KeyU => Code::KeyU,
        KeyCode::KeyV => Code::KeyV,
        KeyCode::KeyW => Code::KeyW,
        KeyCode::KeyX => Code::KeyX,
        KeyCode::KeyY => Code::KeyY,
        KeyCode::KeyZ => Code::KeyZ,
        KeyCode::Minus => Code::Minus,
        KeyCode::Period => Code::Period,
        KeyCode::Quote => Code::Quote,
        KeyCode::Semicolon => Code::Semicolon,
        KeyCode::Slash => Code::Slash,
        KeyCode::AltLeft => Code::AltLeft,
        KeyCode::AltRight => Code::AltRight,
        KeyCode::Backspace => Code::Backspace,
        KeyCode::CapsLock => Code::CapsLock,
        KeyCode::ContextMenu => Code::ContextMenu,
        KeyCode::ControlLeft => Code::ControlLeft,
        KeyCode::ControlRight => Code::ControlRight,
        KeyCode::Enter => Code::Enter,
        KeyCode::MetaLeft => Code::MetaLeft,
        KeyCode::MetaRight => Code::MetaRight,
        KeyCode::ShiftLeft => Code::ShiftLeft,
        KeyCode::ShiftRight => Code::ShiftRight,
        KeyCode::Space => Code::Space,
        KeyCode::Tab => Code::Tab,
        KeyCode::Convert => Code::Convert,
        KeyCode::KanaMode => Code::KanaMode,
        KeyCode::Lang1 => Code::Lang1,
        KeyCode::Lang2 => Code::Lang2,
        KeyCode::Lang3 => Code::Lang3,
        KeyCode::Lang4 => Code::Lang4,
        KeyCode::Lang5 => Code::Lang5,
        KeyCode::NonConvert => Code::NonConvert,
        KeyCode::Delete => Code::Delete,
        KeyCode::End => Code::End,
        KeyCode::Help => Code::Help,
        KeyCode::Home => Code::Home,
        KeyCode::Insert => Code::Insert,
        KeyCode::PageDown => Code::PageDown,
        KeyCode::PageUp => Code::PageUp,
        KeyCode::ArrowDown => Code::ArrowDown,
        KeyCode::ArrowLeft => Code::ArrowLeft,
        KeyCode::ArrowRight => Code::ArrowRight,
        KeyCode::ArrowUp => Code::ArrowUp,
        KeyCode::NumLock => Code::NumLock,
        KeyCode::Numpad0 => Code::Numpad0,
        KeyCode::Numpad1 => Code::Numpad1,
        KeyCode::Numpad2 => Code::Numpad2,
        KeyCode::Numpad3 => Code::Numpad3,
        KeyCode::Numpad4 => Code::Numpad4,
        KeyCode::Numpad5 => Code::Numpad5,
        KeyCode::Numpad6 => Code::Numpad6,
        KeyCode::Numpad7 => Code::Numpad7,
        KeyCode::Numpad8 => Code::Numpad8,
        KeyCode::Numpad9 => Code::Numpad9,
        KeyCode::NumpadAdd => Code::NumpadAdd,
        KeyCode::NumpadBackspace => Code::NumpadBackspace,
        KeyCode::NumpadClear => Code::NumpadClear,
        KeyCode::NumpadClearEntry => Code::NumpadClearEntry,
        KeyCode::NumpadComma => Code::NumpadComma,
        KeyCode::NumpadDecimal => Code::NumpadDecimal,
        KeyCode::NumpadDivide => Code::NumpadDivide,
        KeyCode::NumpadEnter => Code::NumpadEnter,
        KeyCode::NumpadEqual => Code::NumpadEqual,
        KeyCode::NumpadHash => Code::NumpadHash,
        KeyCode::NumpadMemoryAdd => Code::NumpadMemoryAdd,
        KeyCode::NumpadMemoryClear => Code::NumpadMemoryClear,
        KeyCode::NumpadMemoryRecall => Code::NumpadMemoryRecall,
        KeyCode::NumpadMemoryStore => Code::NumpadMemoryStore,
        KeyCode::NumpadMemorySubtract => Code::NumpadMemorySubtract,
        KeyCode::NumpadMultiply => Code::NumpadMultiply,
        KeyCode::NumpadParenLeft => Code::NumpadParenLeft,
        KeyCode::NumpadParenRight => Code::NumpadParenRight,
        KeyCode::NumpadStar => Code::NumpadStar,
        KeyCode::NumpadSubtract => Code::NumpadSubtract,
        KeyCode::Escape => Code::Escape,
        KeyCode::Fn => Code::Fn,
        KeyCode::FnLock => Code::FnLock,
        KeyCode::PrintScreen => Code::PrintScreen,
        KeyCode::ScrollLock => Code::ScrollLock,
        KeyCode::Pause => Code::Pause,
        KeyCode::BrowserBack => Code::BrowserBack,
        KeyCode::BrowserFavorites => Code::BrowserFavorites,
        KeyCode::BrowserForward => Code::BrowserForward,
        KeyCode::BrowserHome => Code::BrowserHome,
        KeyCode::BrowserRefresh => Code::BrowserRefresh,
        KeyCode::BrowserSearch => Code::BrowserSearch,
        KeyCode::BrowserStop => Code::BrowserStop,
        KeyCode::Eject => Code::Eject,
        KeyCode::LaunchApp1 => Code::LaunchApp1,
        KeyCode::LaunchApp2 => Code::LaunchApp2,
        KeyCode::LaunchMail => Code::LaunchMail,
        KeyCode::MediaPlayPause => Code::MediaPlayPause,
        KeyCode::MediaSelect => Code::MediaSelect,
        KeyCode::MediaStop => Code::MediaStop,
        KeyCode::MediaTrackNext => Code::MediaTrackNext,
        KeyCode::MediaTrackPrevious => Code::MediaTrackPrevious,
        KeyCode::Power => Code::Power,
        KeyCode::Sleep => Code::Sleep,
        KeyCode::AudioVolumeDown => Code::AudioVolumeDown,
        KeyCode::AudioVolumeMute => Code::AudioVolumeMute,
        KeyCode::AudioVolumeUp => Code::AudioVolumeUp,
        KeyCode::WakeUp => Code::WakeUp,
        KeyCode::Hyper => Code::Hyper,
        KeyCode::Super => Code::Super,
        KeyCode::Turbo => Code::Turbo,
        KeyCode::Abort => Code::Abort,
        KeyCode::Resume => Code::Resume,
        KeyCode::Suspend => Code::Suspend,
        KeyCode::Again => Code::Again,
        KeyCode::Copy => Code::Copy,
        KeyCode::Cut => Code::Cut,
        KeyCode::Find => Code::Find,
        KeyCode::Open => Code::Open,
        KeyCode::Paste => Code::Paste,
        KeyCode::Props => Code::Props,
        KeyCode::Select => Code::Select,
        KeyCode::Undo => Code::Undo,
        KeyCode::Hiragana => Code::Hiragana,
        KeyCode::Katakana => Code::Katakana,
        KeyCode::Unidentified => Code::Unidentified,
        KeyCode::F1 => Code::F1,
        KeyCode::F2 => Code::F2,
        KeyCode::F3 => Code::F3,
        KeyCode::F4 => Code::F4,
        KeyCode::F5 => Code::F5,
        KeyCode::F6 => Code::F6,
        KeyCode::F7 => Code::F7,
        KeyCode::F8 => Code::F8,
        KeyCode::F9 => Code::F9,
        KeyCode::F10 => Code::F10,
        KeyCode::F11 => Code::F11,
        KeyCode::F12 => Code::F12,
        KeyCode::F13 => Code::F13,
        KeyCode::F14 => Code::F14,
        KeyCode::F15 => Code::F15,
        KeyCode::F16 => Code::F16,
        KeyCode::F17 => Code::F17,
        KeyCode::F18 => Code::F18,
        KeyCode::F19 => Code::F19,
        KeyCode::F20 => Code::F20,
        KeyCode::F21 => Code::F21,
        KeyCode::F22 => Code::F22,
        KeyCode::F23 => Code::F23,
        KeyCode::F24 => Code::F24,
        KeyCode::F25 => Code::F25,
        KeyCode::F26 => Code::F26,
        KeyCode::F27 => Code::F27,
        KeyCode::F28 => Code::F28,
        KeyCode::F29 => Code::F29,
        KeyCode::F30 => Code::F30,
        KeyCode::F31 => Code::F31,
        KeyCode::F32 => Code::F32,
        KeyCode::F33 => Code::F33,
        KeyCode::F34 => Code::F34,
        KeyCode::F35 => Code::F35,
        KeyCode::BrightnessDown => Code::BrightnessDown,
        KeyCode::BrightnessUp => Code::BrightnessUp,
        KeyCode::DisplayToggleIntExt => Code::DisplayToggleIntExt,
        KeyCode::KeyboardLayoutSelect => Code::KeyboardLayoutSelect,
        KeyCode::LaunchAssistant => Code::LaunchAssistant,
        KeyCode::LaunchControlPanel => Code::LaunchControlPanel,
        KeyCode::LaunchScreenSaver => Code::LaunchScreenSaver,
        KeyCode::MailForward => Code::MailForward,
        KeyCode::MailReply => Code::MailReply,
        KeyCode::MailSend => Code::MailSend,
        KeyCode::MediaFastForward => Code::MediaFastForward,
        KeyCode::MediaPause => Code::MediaPause,
        KeyCode::MediaPlay => Code::MediaPlay,
        KeyCode::MediaRecord => Code::MediaRecord,
        KeyCode::MediaRewind => Code::MediaRewind,
        KeyCode::MicrophoneMuteToggle => Code::MicrophoneMuteToggle,
        KeyCode::PrivacyScreenToggle => Code::PrivacyScreenToggle,
        KeyCode::SelectTask => Code::SelectTask,
        KeyCode::ShowAllWindows => Code::ShowAllWindows,
        KeyCode::ZoomToggle => Code::ZoomToggle,
    }
}

/// The discriminant of a native key code, `code as u32`: its position in the
/// declaration of `Code`, counted from zero.
pub open spec fn code_discriminant(c: Code) -> u32 {
    match c {
        Code::Backquote => 0,
        Code::Backslash => 1,
        Code::BracketLeft => 2,
        Code::BracketRight => 3,
        Code::Comma => 4,
        Code::Digit0 => 5,
        Code::Digit1 => 6,
        Code::Digit2 => 7,
        Code::Digit3 => 8,
        Code::Digit4 => 9,
        Code::Digit5 => 10,
        Code::Digit6 => 11,
        Code::Digit7 => 12,
        Code::Digit8 => 13,
        Code::Digit9 => 14,
        Code::Equal => 15,
        Code::IntlBackslash => 16,
        Code::IntlRo => 17,
        Code::IntlYen => 18,
        Code::KeyA => 19,
        Code::KeyB => 20,
        Code::KeyC => 21,
        Code::KeyD => 22,
        Code::KeyE => 23,
        Code::KeyF => 24,
        Code::KeyG => 25,
        Code::KeyH => 26,
        Code::KeyI => 27,
        Code::KeyJ => 28,
        Code::KeyK => 29,
        Code::KeyL => 30,
        Code::KeyM => 31,
        Code::KeyN => 32,
        Code::KeyO => 33,
        Code::KeyP => 34,
        Code::KeyQ => 35,
        Code::KeyR => 36,
        Code::KeyS => 37,
        Code::KeyT => 38,
        Code::KeyU => 39,
        Code::KeyV => 40,
        Code::KeyW => 41,
        Code::KeyX => 42,
        Code::KeyY => 43,
        Code::KeyZ => 44,
        Code::Minus => 45,
        Code::Period => 46,
        Code::Quote => 47,
        Code::Semicolon => 48,
        Code::Slash => 49,
        Code::AltLeft => 50,
        Code::AltRight => 51,
        Code::Backspace => 52,
        Code::CapsLock => 53,
        Code::ContextMenu => 54,
        Code::ControlLeft => 55,
        Code::ControlRight => 56,
        Code::Enter => 57,
        Code::MetaLeft => 58,
        Code::MetaRight => 59,
        Code::ShiftLeft => 60,
        Code::ShiftRight => 61,
        Code::Space => 62,
        Code::Tab => 63,
        Code::Convert => 64,
        Code::KanaMode => 65,
        Code::Lang1 => 66,
        Code::Lang2 => 67,
        Code::Lang3 => 68,
        Code::Lang4 => 69,
        Code::Lang5 => 70,
        Code::NonConvert => 71,
        Code::Delete => 72,
        Code::End => 73,
        Code::Help => 74,
        Code::Home => 75,
        Code::Insert => 76,
        Code::PageDown => 77,
        Code::PageUp => 78,
        Code::ArrowDown => 79,
        Code::ArrowLeft => 80,
        Code::ArrowRight => 81,
        Code::ArrowUp => 82,
        Code::NumLock => 83,
        Code::Numpad0 => 84,
        Code::Numpad1 => 85,
        Code::Numpad2 => 86,
        Code::Numpad3 => 87,
        Code::Numpad4 => 88,
        Code::Numpad5 => 89,
        Code::Numpad6 => 90,
        Code::Numpad7 => 91,
        Code::Numpad8 => 92,
        Code::Numpad9 => 93,
        Code::NumpadAdd => 94,
        Code::NumpadBackspace => 95,
        Code::NumpadClear => 96,
        Code::NumpadClearEntry => 97,
        Code::NumpadComma => 98,
        Code::NumpadDecimal => 99,
        Code::NumpadDivide => 100,
        Code::NumpadEnter => 101,
        Code::NumpadEqual => 102,
        Code::NumpadHash => 103,
        Code::NumpadMemoryAdd => 104,
        Code::NumpadMemoryClear => 105,
        Code::NumpadMemoryRecall => 106,
        Code::NumpadMemoryStore => 107,
        Code::NumpadMemorySubtract => 108,
        Code::NumpadMultiply => 109,
        Code::NumpadParenLeft => 110,
        Code::NumpadParenRight => 111,
        Code::NumpadStar => 112,
        Code::NumpadSubtract => 113,
        Code::Escape => 114,
        Code::Fn => 115,
        Code::FnLock => 116,
        Code::PrintScreen => 117,
        Code::ScrollLock => 118,
        Code::Pause => 119,
        Code::BrowserBack => 120,
        Code::BrowserFavorites => 121,
        Code::BrowserForward => 122,
        Code::BrowserHome => 123,
        Code::BrowserRefresh => 124,
        Code::BrowserSearch => 125,
        Code::BrowserStop => 126,
        Code::Eject => 127,
        Code::LaunchApp1 => 128,
        Code::LaunchApp2 => 129,
        Code::LaunchMail => 130,
        Code::MediaPlayPause => 131,
        Code::MediaSelect => 132,
        Code::MediaStop => 133,
        Code::MediaTrackNext => 134,
        Code::MediaTrackPrevious => 135,
        Code::Power => 136,
        Code::Sleep => 137,
        Code::AudioVolumeDown => 138,
        Code::AudioVolumeMute => 139,
        Code::AudioVolumeUp => 140,
        Code::WakeUp => 141,
        Code::Hyper => 142,
        Code::Super => 143,
        Code::Turbo => 144,
        Code::Abort => 145,
        Code::Resume => 146,
        Code::Suspend => 147,
        Code::Again => 148,
        Code::Copy => 149,
        Code::Cut => 150,
        Code::Find => 151,
        Code::Open => 152,
        Code::Paste => 153,
        Code::Props => 154,
        Code::Select => 155,
        Code::Undo => 156,
        Code::Hiragana => 157,
        Code::Katakana => 158,
        Code::Unidentified => 159,
        Code::F1 => 160,
        Code::F2 => 161,
        Code::F3 => 162,
        Code::F4 => 163,
        Code::F5 => 164,
        Code::F6 => 165,
        Code::F7 => 166,
        Code::F8 => 167,
        Code::F9 => 168,
        Code::F10 => 169,
        Code::F11 => 170,
        Code::F12 => 171,
        Code::F13 => 172,
        Code::F14 => 173,
        Code::F15 => 174,
        Code::F16 => 175,
        Code::F17 => 176,
        Code::F18 => 177,
        Code::F19 => 178,
        Code::F20 => 179,
        Code::F21 => 180,
        Code::F22 => 181,
        Code::F23 => 182,
        Code::F24 => 183,
        Code::F25 => 184,
        Code::F26 => 185,
        Code::F27 => 186,
        Code::F28 => 187,
        Code::F29 => 188,
        Code::F30 => 189,
        Code::F31 => 190,
        Code::F32 => 191,
        Code::F33 => 192,
        Code::F34 => 193,
        Code::F35 => 194,
        Code::BrightnessDown => 195,
        Code::BrightnessUp => 196,
        Code::DisplayToggleIntExt => 197,
        Code::KeyboardLayoutSelect => 198,
        Code::LaunchAssistant => 199,
        Code::LaunchControlPanel => 200,
        Code::LaunchScreenSaver => 201,
        Code::MailForward => 202,
        Code::MailReply => 203,
        Code::MailSend => 204,
        Code::MediaFastForward => 205,
        Code::MediaPause => 206,
        Code::MediaPlay => 207,
        Code::MediaRecord => 208,
        Code::MediaRewind => 209,
        Code::MicrophoneMuteToggle => 210,
        Code::PrivacyScreenToggle => 211,
        Code::SelectTask => 212,
        Code::ShowAllWindows => 213,
        Code::ZoomToggle => 214,
        // `Code` has no other variant; the arm only satisfies the compiler.
        _ => 0,
    }
}

/// The position of a key in the enumeration.
pub open spec fn key_position(k: KeyCode) -> u32 {
    code_discriminant(native_code(k))
}

/// The key that a native key code stands for, if any.
pub open spec fn key_code_of(c: Code) -> Option<KeyCode> {
    if exists|k: KeyCode| native_code(k) == c {
        Some(choose|k: KeyCode| native_code(k) == c)
    } else {
        None
    }
}

/// A table from native codes back to keys, used to show that `native_code`
/// loses nothing.
spec fn code_table(c: Code) -> Option<KeyCode> {
    match c {
        Code::Backquote => Some(KeyCode::Backquote),
        Code::Backslash => Some(KeyCode::Backslash),
        Code::BracketLeft => Some(KeyCode::BracketLeft),
        Code::BracketRight => Some(KeyCode::BracketRight),
        Code::Comma => Some(KeyCode::Comma),
        Code::Digit0 => Some(KeyCode::Digit0),
        Code::Digit1 => Some(KeyCode::Digit1),
        Code::Digit2 => Some(KeyCode::Digit2),
        Code::Digit3 => Some(KeyCode::Digit3),
        Code::Digit4 => Some(KeyCode::Digit4),
        Code::Digit5 => Some(KeyCode::Digit5),
        Code::Digit6 => Some(KeyCode::Digit6),
        Code::Digit7 => Some(KeyCode::Digit7),
        Code::Digit8 => Some(KeyCode::Digit8),
        Code::Digit9 => Some(KeyCode::Digit9),
        Code::Equal => Some(KeyCode::Equal),
        Code::IntlBackslash => Some(KeyCode::IntlBackslash),
        Code::IntlRo => Some(KeyCode::IntlRo),
        Code::IntlYen => Some(KeyCode::IntlYen),
        Code::KeyA => Some(KeyCode::KeyA),
        Code::KeyB => Some(KeyCode::KeyB),
        Code::KeyC => Some(KeyCode::KeyC),
        Code::KeyD => Some(KeyCode::KeyD),
        Code::KeyE => Some(KeyCode::KeyE),
        Code::KeyF => Some(KeyCode::KeyF),
        Code::KeyG => Some(KeyCode::KeyG),
        Code::KeyH => Some(KeyCode::KeyH),
        Code::KeyI => Some(KeyCode::KeyI),
        Code::KeyJ => Some(KeyCode::KeyJ),
        Code::KeyK => Some(KeyCode::KeyK),
        Code::KeyL => Some(KeyCode::KeyL),
        Code::KeyM => Some(KeyCode::KeyM),
        Code::KeyN => Some(KeyCode::KeyN),
        Code::KeyO => Some(KeyCode::KeyO),
        Code::KeyP => Some(KeyCode::KeyP),
        Code::KeyQ => Some(KeyCode::KeyQ),
        Code::KeyR => Some(KeyCode::KeyR),
        Code::KeyS => Some(KeyCode::KeyS),
        Code::KeyT => Some(KeyCode::KeyT),
        Code::KeyU => Some(KeyCode::KeyU),
        Code::KeyV => Some(KeyCode::KeyV),
        Code::KeyW => Some(KeyCode::KeyW),
        Code::KeyX => Some(KeyCode::KeyX),
        Code::KeyY => Some(KeyCode::KeyY),
        Code::KeyZ => Some(KeyCode::KeyZ),
        Code::Minus => Some(KeyCode::Minus),
        Code::Period => Some(KeyCode::Period),
        Code::Quote => Some(KeyCode::Quote),
        Code::Semicolon => Some(KeyCode::Semicolon),
        Code::Slash => Some(KeyCode::Slash),
        Code::AltLeft => Some(KeyCode::AltLeft),
        Code::AltRight => Some(KeyCode::AltRight),
        Code::Backspace => Some(KeyCode::Backspace),
        Code::CapsLock => Some(KeyCode::CapsLock),
        Code::ContextMenu => Some(KeyCode::ContextMenu),
        Code::ControlLeft => Some(KeyCode::ControlLeft),
        Code::ControlRight => Some(KeyCode::ControlRight),
        Code::Enter => Some(KeyCode::Enter),
        Code::MetaLeft => Some(KeyCode::MetaLeft),
        Code::MetaRight => Some(KeyCode::MetaRight),
        Code::ShiftLeft => Some(KeyCode::ShiftLeft),
        Code::ShiftRight => Some(KeyCode::ShiftRight),
        Code::Space => Some(KeyCode::Space),
        Code::Tab => Some(KeyCode::Tab),
        Code::Convert => Some(KeyCode::Convert),
        Code::KanaMode => Some(KeyCode::KanaMode),
        Code::Lang1 => Some(KeyCode::Lang1),
        Code::Lang2 => Some(KeyCode::Lang2),
        Code::Lang3 => Some(KeyCode::Lang3),
        Code::Lang4 => Some(KeyCode::Lang4),
        Code::Lang5 => Some(KeyCode::Lang5),
        Code::NonConvert => Some(KeyCode::NonConvert),
        Code::Delete => Some(KeyCode::Delete),
        Code::End => Some(KeyCode::End),
        Code::Help => Some(KeyCode::Help),
        Code::Home => Some(KeyCode::Home),
        Code::Insert => Some(KeyCode::Insert),
        Code::PageDown => Some(KeyCode::PageDown),
        Code::PageUp => Some(KeyCode::PageUp),
        Code::ArrowDown => Some(KeyCode::ArrowDown),
        Code::ArrowLeft => Some(KeyCode::ArrowLeft),
        Code::ArrowRight => Some(KeyCode::ArrowRight),
        Code::ArrowUp => Some(KeyCode::ArrowUp),
        Code::NumLock => Some(KeyCode::NumLock),
        Code::Numpad0 => Some(KeyCode::Numpad0),
        Code::Numpad1 => Some(KeyCode::Numpad1),
        Code::Numpad2 => Some(KeyCode::Numpad2),
        Code::Numpad3 => Some(KeyCode::Numpad3),
        Code::Numpad4 => Some(KeyCode::Numpad4),
        Code::Numpad5 => Some(KeyCode::Numpad5),
        Code::Numpad6 => Some(KeyCode::Numpad6),
        Code::Numpad7 => Some(KeyCode::Numpad7),
        Code::Numpad8 => Some(KeyCode::Numpad8),
        Code::Numpad9 => Some(KeyCode::Numpad9),
        Code::NumpadAdd => Some(KeyCode::NumpadAdd),
        Code::NumpadBackspace => Some(KeyCode::NumpadBackspace),
        Code::NumpadClear => Some(KeyCode::NumpadClear),
        Code::NumpadClearEntry => Some(KeyCode::NumpadClearEntry),
        Code::NumpadComma => Some(KeyCode::NumpadComma),
        Code::NumpadDecimal => Some(KeyCode::NumpadDecimal),
        Code::NumpadDivide => Some(KeyCode::NumpadDivide),
        Code::NumpadEnter => Some(KeyCode::NumpadEnter),
        Code::NumpadEqual => Some(KeyCode::NumpadEqual),
        Code::NumpadHash => Some(KeyCode::NumpadHash),
        Code::NumpadMemoryAdd => Some(KeyCode::NumpadMemoryAdd),
        Code::NumpadMemoryClear => Some(KeyCode::NumpadMemoryClear),
        Code::NumpadMemoryRecall => Some(KeyCode::NumpadMemoryRecall),
        Code::NumpadMemoryStore => Some(KeyCode::NumpadMemoryStore),
        Code::NumpadMemorySubtract => Some(KeyCode::NumpadMemorySubtract),
        Code::NumpadMultiply => Some(KeyCode::NumpadMultiply),
        Code::NumpadParenLeft => Some(KeyCode::NumpadParenLeft),
        Code::NumpadParenRight => Some(KeyCode::NumpadParenRight),
        Code::NumpadStar => Some(KeyCode::NumpadStar),
        Code::NumpadSubtract => Some(KeyCode::NumpadSubtract),
        Code::Escape => Some(KeyCode::Escape),
        Code::Fn => Some(KeyCode::Fn),
        Code::FnLock => Some(KeyCode::FnLock),
        Code::PrintScreen => Some(KeyCode::PrintScreen),
        Code::ScrollLock => Some(KeyCode::ScrollLock),
        Code::Pause => Some(KeyCode::Pause),
        Code::BrowserBack => Some(KeyCode::BrowserBack),
        Code::BrowserFavorites => Some(KeyCode::BrowserFavorites),
        Code::BrowserForward => Some(KeyCode::BrowserForward),
        Code::BrowserHome => Some(KeyCode::BrowserHome),
        Code::BrowserRefresh => Some(KeyCode::BrowserRefresh),
        Code::BrowserSearch => Some(KeyCode::BrowserSearch),
        Code::BrowserStop => Some(KeyCode::BrowserStop),
        Code::Eject => Some(KeyCode::Eject),
        Code::LaunchApp1 => Some(KeyCode::LaunchApp1),
        Code::LaunchApp2 => Some(KeyCode::LaunchApp2),
        Code::LaunchMail => Some(KeyCode::LaunchMail),
        Code::MediaPlayPause => Some(KeyCode::MediaPlayPause),
        Code::MediaSelect => Some(KeyCode::MediaSelect),
        Code::MediaStop => Some(KeyCode::MediaStop),
        Code::MediaTrackNext => Some(KeyCode::MediaTrackNext),
        Code::MediaTrackPrevious => Some(KeyCode::MediaTrackPrevious),
        Code::Power => Some(KeyCode::Power),
        Code::Sleep => Some(KeyCode::Sleep),
        Code::AudioVolumeDown => Some(KeyCode::AudioVolumeDown),
        Code::AudioVolumeMute => Some(KeyCode::AudioVolumeMute),
        Code::AudioVolumeUp => Some(KeyCode::AudioVolumeUp),
        Code::WakeUp => Some(KeyCode::WakeUp),
        Code::Hyper => Some(KeyCode::Hyper),
        Code::Super => Some(KeyCode::Super),
        Code::Turbo => Some(KeyCode::Turbo),
        Code::Abort => Some(KeyCode::Abort),
        Code::Resume => Some(KeyCode::Resume),
        Code::Suspend => Some(KeyCode::Suspend),
        Code::Again => Some(KeyCode::Again),
        Code::Copy => Some(KeyCode::Copy),
        Code::Cut => Some(KeyCode::Cut),
        Code::Find => Some(KeyCode::Find),
        Code::Open => Some(KeyCode::Open),
        Code::Paste => Some(KeyCode::Paste),
        Code::Props => Some(KeyCode::Props),
        Code::Select => Some(KeyCode::Select),
        Code::Undo => Some(KeyCode::Undo),
        Code::Hiragana => Some(KeyCode::Hiragana),
        Code::Katakana => Some(KeyCode::Katakana),
        Code::Unidentified => Some(KeyCode::Unidentified),
        Code::F1 => Some(KeyCode::F1),
        Code::F2 => Some(KeyCode::F2),
        Code::F3 => Some(KeyCode::F3),
        Code::F4 => Some(KeyCode::F4),
        Code::F5 => Some(KeyCode::F5),
        Code::F6 => Some(KeyCode::F6),
        Code::F7 => Some(KeyCode::F7),
        Code::F8 => Some(KeyCode::F8),
        Code::F9 => Some(KeyCode::F9),
        Code::F10 => Some(KeyCode::F10),
        Code::F11 => Some(KeyCode::F11),
        Code::F12 => Some(KeyCode::F12),
        Code::F13 => Some(KeyCode::F13),
        Code::F14 => Some(KeyCode::F14),
        Code::F15 => Some(KeyCode::F15),
        Code::F16 => Some(KeyCode::F16),
        Code::F17 => Some(KeyCode::F17),
        Code::F18 => Some(KeyCode::F18),
        Code::F19 => Some(KeyCode::F19),
        Code::F20 => Some(KeyCode::F20),
        Code::F21 => Some(KeyCode::F21),
        Code::F22 => Some(KeyCode::F22),
        Code::F23 => Some(KeyCode::F23),
        Code::F24 => Some(KeyCode::F24),
        Code::F25 => Some(KeyCode::F25),
        Code::F26 => Some(KeyCode::F26),
        Code::F27 => Some(KeyCode::F27),
        Code::F28 => Some(KeyCode::F28),
        Code::F29 => Some(KeyCode::F29),
        Code::F30 => Some(KeyCode::F30),
        Code::F31 => Some(KeyCode::F31),
        Code::F32 => Some(KeyCode::F32),
        Code::F33 => Some(KeyCode::F33),
        Code::F34 => Some(KeyCode::F34),
        Code::F35 => Some(KeyCode::F35),
        Code::BrightnessDown => Some(KeyCode::BrightnessDown),
        Code::BrightnessUp => Some(KeyCode::BrightnessUp),
        Code::DisplayToggleIntExt => Some(KeyCode::DisplayToggleIntExt),
        Code::KeyboardLayoutSelect => Some(KeyCode::KeyboardLayoutSelect),
        Code::LaunchAssistant => Some(KeyCode::LaunchAssistant),
        Code::LaunchControlPanel => Some(KeyCode::LaunchControlPanel),
        Code::LaunchScreenSaver => Some(KeyCode::LaunchScreenSaver),
        Code::MailForward => Some(KeyCode::MailForward),
        Code::MailReply => Some(KeyCode::MailReply),
        Code::MailSend => Some(KeyCode::MailSend),
        Code::MediaFastForward => Some(KeyCode::MediaFastForward),
        Code::MediaPause => Some(KeyCode::MediaPause),
        Code::MediaPlay => Some(KeyCode::MediaPlay),
        Code::MediaRecord => Some(KeyCode::MediaRecord),
        Code::MediaRewind => Some(KeyCode::MediaRewind),
        Code::MicrophoneMuteToggle => Some(KeyCode::MicrophoneMuteToggle),
        Code::PrivacyScreenToggle => Some(KeyCode::PrivacyScreenToggle),
        Code::SelectTask => Some(KeyCode::SelectTask),
        Code::ShowAllWindows => Some(KeyCode::ShowAllWindows),
        Code::ZoomToggle => Some(KeyCode::ZoomToggle),
        _ => None,
    }
}

/// The key at a position of the enumeration.
pub open spec fn key_at(i: u32) -> Option<KeyCode> {
    match i {
        0 => Some(KeyCode::Backquote),
        1 => Some(KeyCode::Backslash),
        2 => Some(KeyCode::BracketLeft),
        3 => Some(KeyCode::BracketRight),
        4 => Some(KeyCode::Comma),
        5 => Some(KeyCode::Digit0),
        6 => Some(KeyCode::Digit1),
        7 => Some(KeyCode::Digit2),
        8 => Some(KeyCode::Digit3),
        9 => Some(KeyCode::Digit4),
        10 => Some(KeyCode::Digit5),
        11 => Some(KeyCode::Digit6),
        12 => Some(KeyCode::Digit7),
        13 => Some(KeyCode::Digit8),
        14 => Some(KeyCode::Digit9),
        15 => Some(KeyCode::Equal),
        16 => Some(KeyCode::IntlBackslash),
        17 => Some(KeyCode::IntlRo),
        18 => Some(KeyCode::IntlYen),
        19 => Some(KeyCode::KeyA),
        20 => Some(KeyCode::KeyB),
        21 => Some(KeyCode::KeyC),
        22 => Some(KeyCode::KeyD),
        23 => Some(KeyCode::KeyE),
        24 => Some(KeyCode::KeyF),
        25 => Some(KeyCode::KeyG),
        26 => Some(KeyCode::KeyH),
        27 => Some(KeyCode::KeyI),
        28 => Some(KeyCode::KeyJ),
        29 => Some(KeyCode::KeyK),
        30 => Some(KeyCode::KeyL),
        31 => Some(KeyCode::KeyM),
        32 => Some(KeyCode::KeyN),
        33 => Some(KeyCode::KeyO),
        34 => Some(KeyCode::KeyP),
        35 => Some(KeyCode::KeyQ),
        36 => Some(KeyCode::KeyR),
        37 => Some(KeyCode::KeyS),
        38 => Some(KeyCode::KeyT),
        39 => Some(KeyCode::KeyU),
        40 => Some(KeyCode::KeyV),
        41 => Some(KeyCode::KeyW),
        42 => Some(KeyCode::KeyX),
        43 => Some(KeyCode::KeyY),
        44 => Some(KeyCode::KeyZ),
        45 => Some(KeyCode::Minus),
        46 => Some(KeyCode::Period),
        47 => Some(KeyCode::Quote),
        48 => Some(KeyCode::Semicolon),
        49 => Some(KeyCode::Slash),
        50 => Some(KeyCode::AltLeft),
        51 => Some(KeyCode::AltRight),
        52 => Some(KeyCode::Backspace),
        53 => Some(KeyCode::CapsLock),
        54 => Some(KeyCode::ContextMenu),
        55 => Some(KeyCode::ControlLeft),
        56 => Some(KeyCode::ControlRight),
        57 => Some(KeyCode::Enter),
        58 => Some(KeyCode::MetaLeft),
        59 => Some(KeyCode::MetaRight),
        60 => Some(KeyCode::ShiftLeft),
        61 => Some(KeyCode::ShiftRight),
        62 => Some(KeyCode::Space),
        63 => Some(KeyCode::Tab),
        64 => Some(KeyCode::Convert),
        65 => Some(KeyCode::KanaMode),
        66 => Some(KeyCode::Lang1),
        67 => Some(KeyCode::Lang2),
        68 => Some(KeyCode::Lang3),
        69 => Some(KeyCode::Lang4),
        70 => Some(KeyCode::Lang5),
        71 => Some(KeyCode::NonConvert),
        72 => Some(KeyCode::Delete),
        73 => Some(KeyCode::End),
        74 => Some(KeyCode::Help),
        75 => Some(KeyCode::Home),
        76 => Some(KeyCode::Insert),
        77 => Some(KeyCode::PageDown),
        78 => Some(KeyCode::PageUp),
        79 => Some(KeyCode::ArrowDown),
        80 => Some(KeyCode::ArrowLeft),
        81 => Some(KeyCode::ArrowRight),
        82 => Some(KeyCode::ArrowUp),
        83 => Some(KeyCode::NumLock),
        84 => Some(KeyCode::Numpad0),
        85 => Some(KeyCode::Numpad1),
        86 => Some(KeyCode::Numpad2),
        87 => Some(KeyCode::Numpad3),
        88 => Some(KeyCode::Numpad4),
        89 => Some(KeyCode::Numpad5),
        90 => Some(KeyCode::Numpad6),
        91 => Some(KeyCode::Numpad7),
        92 => Some(KeyCode::Numpad8),
        93 => Some(KeyCode::Numpad9),
        94 => Some(KeyCode::NumpadAdd),
        95 => Some(KeyCode::NumpadBackspace),
        96 => Some(KeyCode::NumpadClear),
        97 => Some(KeyCode::NumpadClearEntry),
        98 => Some(KeyCode::NumpadComma),
        99 => Some(KeyCode::NumpadDecimal),
        100 => Some(KeyCode::NumpadDivide),
        101 => Some(KeyCode::NumpadEnter),
        102 => Some(KeyCode::NumpadEqual),
        103 => Some(KeyCode::NumpadHash),
        104 => Some(KeyCode::NumpadMemoryAdd),
        105 => Some(KeyCode::NumpadMemoryClear),
        106 => Some(KeyCode::NumpadMemoryRecall),
        107 => Some(KeyCode::NumpadMemoryStore),
        108 => Some(KeyCode::NumpadMemorySubtract),
        109 => Some(KeyCode::NumpadMultiply),
        110 => Some(KeyCode::NumpadParenLeft),
        111 => Some(KeyCode::NumpadParenRight),
        112 => Some(KeyCode::NumpadStar),
        113 => Some(KeyCode::NumpadSubtract),
        114 => Some(KeyCode::Escape),
        115 => Some(KeyCode::Fn),
        116 => Some(KeyCode::FnLock),
        117 => Some(KeyCode::PrintScreen),
        118 => Some(KeyCode::ScrollLock),
        119 => Some(KeyCode::Pause),
        120 => Some(KeyCode::BrowserBack),
        121 => Some(KeyCode::BrowserFavorites),
        122 => Some(KeyCode::BrowserForward),
        123 => Some(KeyCode::BrowserHome),
        124 => Some(KeyCode::BrowserRefresh),
        125 => Some(KeyCode::BrowserSearch),
        126 => Some(KeyCode::BrowserStop),
        127 => Some(KeyCode::Eject),
        128 => Some(KeyCode::LaunchApp1),
        129 => Some(KeyCode::LaunchApp2),
        130 => Some(KeyCode::LaunchMail),
        131 => Some(KeyCode::MediaPlayPause),
        132 => Some(KeyCode::MediaSelect),
        133 => Some(KeyCode::MediaStop),
        134 => Some(KeyCode::MediaTrackNext),
        135 => Some(KeyCode::MediaTrackPrevious),
        136 => Some(KeyCode::Power),
        137 => Some(KeyCode::Sleep),
        138 => Some(KeyCode::AudioVolumeDown),
        139 => Some(KeyCode::AudioVolumeMute),
        140 => Some(KeyCode::AudioVolumeUp),
        141 => Some(KeyCode::WakeUp),
        142 => Some(KeyCode::Hyper),
        143 => Some(KeyCode::Super),
        144 => Some(KeyCode::Turbo),
        145 => Some(KeyCode::Abort),
        146 => Some(KeyCode::Resume),
        147 => Some(KeyCode::Suspend),
        148 => Some(KeyCode::Again),
        149 => Some(KeyCode::Copy),
        150 => Some(KeyCode::Cut),
        151 => Some(KeyCode::Find),
        152 => Some(KeyCode::Open),
        153 => Some(KeyCode::Paste),
        154 => Some(KeyCode::Props),
        155 => Some(KeyCode::Select),
        156 => Some(KeyCode::Undo),
        157 => Some(KeyCode::Hiragana),
        158 => Some(KeyCode::Katakana),
        159 => Some(KeyCode::Unidentified),
        160 => Some(KeyCode::F1),
        161 => Some(KeyCode::F2),
        162 => Some(KeyCode::F3),
        163 => Some(KeyCode::F4),
        164 => Some(KeyCode::F5),
        165 => Some(KeyCode::F6),
        166 => Some(KeyCode::F7),
        167 => Some(KeyCode::F8),
        168 => Some(KeyCode::F9),
        169 => Some(KeyCode::F10),
        170 => Some(KeyCode::F11),
        171 => Some(KeyCode::F12),
        172 => Some(KeyCode::F13),
        173 => Some(KeyCode::F14),
        174 => Some(KeyCode::F15),
        175 => Some(KeyCode::F16),
        176 => Some(KeyCode::F17),
        177 => Some(KeyCode::F18),
        178 => Some(KeyCode::F19),
        179 => Some(KeyCode::F20),
        180 => Some(KeyCode::F21),
        181 => Some(KeyCode::F22),
        182 => Some(KeyCode::F23),
        183 => Some(KeyCode::F24),
        184 => Some(KeyCode::F25),
        185 => Some(KeyCode::F26),
        186 => Some(KeyCode::F27),
        187 => Some(KeyCode::F28),
        188 => Some(KeyCode::F29),
        189 => Some(KeyCode::F30),
        190 => Some(KeyCode::F31),
        191 => Some(KeyCode::F32),
        192 => Some(KeyCode::F33),
        193 => Some(KeyCode::F34),
        194 => Some(KeyCode::F35),
        195 => Some(KeyCode::BrightnessDown),
        196 => Some(KeyCode::BrightnessUp),
        197 => Some(KeyCode::DisplayToggleIntExt),
        198 => Some(KeyCode::KeyboardLayoutSelect),
        199 => Some(KeyCode::LaunchAssistant),
        200 => Some(KeyCode::LaunchControlPanel),
        201 => Some(KeyCode::LaunchScreenSaver),
        202 => Some(KeyCode::MailForward),
        203 => Some(KeyCode::MailReply),
        204 => Some(KeyCode::MailSend),
        205 => Some(KeyCode::MediaFastForward),
        206 => Some(KeyCode::MediaPause),
        207 => Some(KeyCode::MediaPlay),
        208 => Some(KeyCode::MediaRecord),
        209 => Some(KeyCode::MediaRewind),
        210 => Some(KeyCode::MicrophoneMuteToggle),
        211 => Some(KeyCode::PrivacyScreenToggle),
        212 => Some(KeyCode::SelectTask),
        213 => Some(KeyCode::ShowAllWindows),
        214 => Some(KeyCode::ZoomToggle),
        _ => None,
    }
}

/// The readable label of a key, where it has one.
pub open spec fn human_label(k: KeyCode) -> Option<Seq<char>> {
    match k {
        KeyCode::Digit0 => Some("0"@),
        KeyCode::Digit1 => Some("1"@),
        KeyCode::Digit2 => Some("2"@),
        KeyCode::Digit3 => Some("3"@),
        KeyCode::Digit4 => Some("4"@),
        KeyCode::Digit5 => Some("5"@),
        KeyCode::Digit6 => Some("6"@),
        KeyCode::Digit7 => Some("7"@),
        KeyCode::Digit8 => Some("8"@),
        KeyCode::Digit9 => Some("9"@),
        KeyCode::KeyA => Some("a"@),
        KeyCode::KeyB => Some("b"@),
        KeyCode::KeyC => Some("c"@),
        KeyCode::KeyD => Some("d"@),
        KeyCode::KeyE => Some("e"@),
        KeyCode::KeyF => Some("f"@),
        KeyCode::KeyG => Some("g"@),
        KeyCode::KeyH => Some("h"@),
        KeyCode::KeyI => Some("i"@),
        KeyCode::KeyJ => Some("j"@),
        KeyCode::KeyK => Some("k"@),
        KeyCode::KeyL => Some("l"@),
        KeyCode::KeyM => Some("m"@),
        KeyCode::KeyN => Some("n"@),
        KeyCode::KeyO => Some("o"@),
        KeyCode::KeyP => Some("p"@),
        KeyCode::KeyQ => Some("q"@),
        KeyCode::KeyR => Some("r"@),
        KeyCode::KeyS => Some("s"@),
        KeyCode::KeyT => Some("t"@),
        KeyCode::KeyU => Some("u"@),
        KeyCode::KeyV => Some("v"@),
        KeyCode::KeyW => Some("w"@),
        KeyCode::KeyX => Some("x"@),
        KeyCode::KeyY => Some("y"@),
        KeyCode::KeyZ => Some("z"@),
        KeyCode::Backquote => Some("`"@),
        KeyCode::Backslash => Some("\\"@),
        KeyCode::BracketLeft => Some("["@),
        KeyCode::BracketRight => Some("]"@),
        KeyCode::Comma => Some(","@),
        KeyCode::Equal => Some("="@),
        KeyCode::Minus => Some("-"@),
        KeyCode::Period => Some("."@),
        KeyCode::Quote => Some("\""@),
        KeyCode::Semicolon => Some(";"@),
        KeyCode::Slash => Some("/"@),
        KeyCode::F1 => Some("f1"@),
        KeyCode::F2 => Some("f2"@),
        KeyCode::F3 => Some("f3"@),
        KeyCode::F4 => Some("f4"@),
        KeyCode::F5 => Some("f5"@),
        KeyCode::F6 => Some("f6"@),
        KeyCode::F7 => Some("f7"@),
        KeyCode::F8 => Some("f8"@),
        KeyCode::F9 => Some("f9"@),
        KeyCode::F10 => Some("f10"@),
        KeyCode::F11 => Some("f11"@),
        KeyCode::F12 => Some("f12"@),
        KeyCode::F13 => Some("f13"@),
        KeyCode::F14 => Some("f14"@),
        KeyCode::F15 => Some("f15"@),
        KeyCode::F16 => Some("f16"@),
        KeyCode::F17 => Some("f17"@),
        KeyCode::F18 => Some("f18"@),
        KeyCode::F19 => Some("f19"@),
        KeyCode::F20 => Some("f20"@),
        KeyCode::F21 => Some("f21"@),
        KeyCode::F22 => Some("f22"@),
        KeyCode::F23 => Some("f23"@),
        KeyCode::F24 => Some("f24"@),
        KeyCode::F25 => Some("f25"@),
        KeyCode::F26 => Some("f26"@),
        KeyCode::F27 => Some("f27"@),
        KeyCode::F28 => Some("f28"@),
        KeyCode::F29 => Some("f29"@),
        KeyCode::F30 => Some("f30"@),
        KeyCode::F31 => Some("f31"@),
        KeyCode::F32 => Some("f32"@),
        KeyCode::F33 => Some("f33"@),
        KeyCode::F34 => Some("f34"@),
        KeyCode::F35 => Some("f35"@),
        _ => None,
    }
}

proof fn lemma_code_table_inverts(k: KeyCode)
    ensures
        code_table(native_code(k)) == Some(k),
{
}

proof fn lemma_code_table_sound(c: Code)
    ensures
        code_table(c) matches Some(k) ==> native_code(k) == c,
{
}

/// Distinct keys have distinct native codes.
pub proof fn lemma_native_code_injective(a: KeyCode, b: KeyCode)
    ensures
        native_code(a) == native_code(b) ==> a == b,
{
    lemma_code_table_inverts(a);
    lemma_code_table_inverts(b);
}

proof fn lemma_key_code_of_is_table(c: Code)
    ensures
        key_code_of(c) == code_table(c),
{
    lemma_code_table_sound(c);
    if exists|k: KeyCode| native_code(k) == c {
        let k = choose|k: KeyCode| native_code(k) == c;
        lemma_code_table_inverts(k);
    } else {
        if let Some(k) = code_table(c) {
            assert(native_code(k) == c);
        }
    }
}

/// Encoding a key as its native code and decoding that code gives the key back.
pub proof fn lemma_key_code_round_trip(k: KeyCode)
    ensures
        key_code_of(native_code(k)) == Some(k),
{
    lemma_key_code_of_is_table(native_code(k));
    lemma_code_table_inverts(k);
}

impl KeyCode {
    /// The canonical name of the key.
    pub fn as_str(&self) -> (r: &'static str)
        ensures
            r@ == key_name(*self),
    {
        match self {
            KeyCode::Backquote => "Backquote",
            KeyCode::Backslash => "Backslash",
            KeyCode::BracketLeft => "BracketLeft",
            KeyCode::BracketRight => "BracketRight",
            KeyCode::Comma => "Comma",
            KeyCode::Digit0 => "Digit0",
            KeyCode::Digit1 => "Digit1",
            KeyCode::Digit2 => "Digit2",
            KeyCode::Digit3 => "Digit3",
            KeyCode::Digit4 => "Digit4",
            KeyCode::Digit5 => "Digit5",
            KeyCode::Digit6 => "Digit6",
            KeyCode::Digit7 => "Digit7",
            KeyCode::Digit8 => "Digit8",
            KeyCode::Digit9 => "Digit9",
            KeyCode::Equal => "Equal",
            KeyCode::IntlBackslash => "IntlBackslash",
            KeyCode::IntlRo => "IntlRo",
            KeyCode::IntlYen => "IntlYen",
            KeyCode::KeyA => "KeyA",
            KeyCode::KeyB => "KeyB",
            KeyCode::KeyC => "KeyC",
            KeyCode::KeyD => "KeyD",
            KeyCode::KeyE => "KeyE",
            KeyCode::KeyF => "KeyF",
            KeyCode::KeyG => "KeyG",
            KeyCode::KeyH => "KeyH",
            KeyCode::KeyI => "KeyI",
            KeyCode::KeyJ => "KeyJ",
            KeyCode::KeyK => "KeyK",
            KeyCode::KeyL => "KeyL",
            KeyCode::KeyM => "KeyM",
            KeyCode::KeyN => "KeyN",
            KeyCode::KeyO => "KeyO",
            KeyCode::KeyP => "KeyP",
            KeyCode::KeyQ => "KeyQ",
            KeyCode::KeyR => "KeyR",
            KeyCode::KeyS => "KeyS",
            KeyCode::KeyT => "KeyT",
            KeyCode::KeyU => "KeyU",
            KeyCode::KeyV => "KeyV",
            KeyCode::KeyW => "KeyW",
            KeyCode::KeyX => "KeyX",
            KeyCode::KeyY => "KeyY",
            KeyCode::KeyZ => "KeyZ",
            KeyCode::Minus => "Minus",
            KeyCode::Period => "Period",
            KeyCode::Quote => "Quote",
            KeyCode::Semicolon => "Semicolon",
            KeyCode::Slash => "Slash",
            KeyCode::AltLeft => "AltLeft",
            KeyCode::AltRight => "AltRight",
            KeyCode::Backspace => "Backspace",
            KeyCode::CapsLock => "CapsLock",
            KeyCode::ContextMenu => "ContextMenu",
            KeyCode::ControlLeft => "ControlLeft",
            KeyCode::ControlRight => "ControlRight",
            KeyCode::Enter => "Enter",
            KeyCode::MetaLeft => "MetaLeft",
            KeyCode::MetaRight => "MetaRight",
            KeyCode::ShiftLeft => "ShiftLeft",
            KeyCode::ShiftRight => "ShiftRight",
            KeyCode::Space => "Space",
            KeyCode::Tab => "Tab",
            KeyCode::Convert => "Convert",
            KeyCode::KanaMode => "KanaMode",
            KeyCode::Lang1 => "Lang1",
            KeyCode::Lang2 => "Lang2",
            KeyCode::Lang3 => "Lang3",
            KeyCode::Lang4 => "Lang4",
            KeyCode::Lang5 => "Lang5",
            KeyCode::NonConvert => "NonConvert",
            KeyCode::Delete => "Delete",
            KeyCode::End => "End",
            KeyCode::Help => "Help",
            KeyCode::Home => "Home",
            KeyCode::Insert => "Insert",
            KeyCode::PageDown => "PageDown",
            KeyCode::PageUp => "PageUp",
            KeyCode::ArrowDown => "ArrowDown",
            KeyCode::ArrowLeft => "ArrowLeft",
            KeyCode::ArrowRight => "ArrowRight",
            KeyCode::ArrowUp => "ArrowUp",
            KeyCode::NumLock => "NumLock",
            KeyCode::Numpad0 => "Numpad0",
            KeyCode::Numpad1 => "Numpad1",
            KeyCode::Numpad2 => "Numpad2",
            KeyCode::Numpad3 => "Numpad3",
            KeyCode::Numpad4 => "Numpad4",
            KeyCode::Numpad5 => "Numpad5",
            KeyCode::Numpad6 => "Numpad6",
            KeyCode::Numpad7 => "Numpad7",
            KeyCode::Numpad8 => "Numpad8",
            KeyCode::Numpad9 => "Numpad9",
            KeyCode::NumpadAdd => "NumpadAdd",
            KeyCode::NumpadBackspace => "NumpadBackspace",
            KeyCode::NumpadClear => "NumpadClear",
            KeyCode::NumpadClearEntry => "NumpadClearEntry",
            KeyCode::NumpadComma => "NumpadComma",
            KeyCode::NumpadDecimal => "NumpadDecimal",
            KeyCode::NumpadDivide => "NumpadDivide",
            KeyCode::NumpadEnter => "NumpadEnter",
            KeyCode::NumpadEqual => "NumpadEqual",
            KeyCode::NumpadHash => "NumpadHash",
            KeyCode::NumpadMemoryAdd => "NumpadMemoryAdd",
            KeyCode::NumpadMemoryClear => "NumpadMemoryClear",
            KeyCode::NumpadMemoryRecall => "NumpadMemoryRecall",
            KeyCode::NumpadMemoryStore => "NumpadMemoryStore",
            KeyCode::NumpadMemorySubtract => "NumpadMemorySubtract",
            KeyCode::NumpadMultiply => "NumpadMultiply",
            KeyCode::NumpadParenLeft => "NumpadParenLeft",
            KeyCode::NumpadParenRight => "NumpadParenRight",
            KeyCode::NumpadStar => "NumpadStar",
            KeyCode::NumpadSubtract => "NumpadSubtract",
            KeyCode::Escape => "Escape",
            KeyCode::Fn => "Fn",
            KeyCode::FnLock => "FnLock",
            KeyCode::PrintScreen => "PrintScreen",
            KeyCode::ScrollLock => "ScrollLock",
            KeyCode::Pause => "Pause",
            KeyCode::BrowserBack => "BrowserBack",
            KeyCode::BrowserFavorites => "BrowserFavorites",
            KeyCode::BrowserForward => "BrowserForward",
            KeyCode::BrowserHome => "BrowserHome",
            KeyCode::BrowserRefresh => "BrowserRefresh",
            KeyCode::BrowserSearch => "BrowserSearch",
            KeyCode::BrowserStop => "BrowserStop",
            KeyCode::Eject => "Eject",
            KeyCode::LaunchApp1 => "LaunchApp1",
            KeyCode::LaunchApp2 => "LaunchApp2",
            KeyCode::LaunchMail => "LaunchMail",
            KeyCode::MediaPlayPause => "MediaPlayPause",
            KeyCode::MediaSelect => "MediaSelect",
            KeyCode::MediaStop => "MediaStop",
            KeyCode::MediaTrackNext => "MediaTrackNext",
            KeyCode::MediaTrackPrevious => "MediaTrackPrevious",
            KeyCode::Power => "Power",
            KeyCode::Sleep => "Sleep",
            KeyCode::AudioVolumeDown => "AudioVolumeDown",
            KeyCode::AudioVolumeMute => "AudioVolumeMute",
            KeyCode::AudioVolumeUp => "AudioVolumeUp",
            KeyCode::WakeUp => "WakeUp",
            KeyCode::Hyper => "Hyper",
            KeyCode::Super => "Super",
            KeyCode::Turbo => "Turbo",
            KeyCode::Abort => "Abort",
            KeyCode::Resume => "Resume",
            KeyCode::Suspend => "Suspend",
            KeyCode::Again => "Again",
            KeyCode::Copy => "Copy",
            KeyCode::Cut => "Cut",
            KeyCode::Find => "Find",
            KeyCode::Open => "Open",
            KeyCode::Paste => "Paste",
            KeyCode::Props => "Props",
            KeyCode::Select => "Select",
            KeyCode::Undo => "Undo",
            KeyCode::Hiragana => "Hiragana",
            KeyCode::Katakana => "Katakana",
            KeyCode::Unidentified => "Unidentified",
            KeyCode::F1 => "F1",
            KeyCode::F2 => "F2",
            KeyCode::F3 => "F3",
            KeyCode::F4 => "F4",
            KeyCode::F5 => "F5",
            KeyCode::F6 => "F6",
            KeyCode::F7 => "F7",
            KeyCode::F8 => "F8",
            KeyCode::F9 => "F9",
            KeyCode::F10 => "F10",
            KeyCode::F11 => "F11",
            KeyCode::F12 => "F12",
            KeyCode::F13 => "F13",
            KeyCode::F14 => "F14",
            KeyCode::F15 => "F15",
            KeyCode::F16 => "F16",
            KeyCode::F17 => "F17",
            KeyCode::F18 => "F18",
            KeyCode::F19 => "F19",
            KeyCode::F20 => "F20",
            KeyCode::F21 => "F21",
            KeyCode::F22 => "F22",
            KeyCode::F23 => "F23",
            KeyCode::F24 => "F24",
            KeyCode::F25 => "F25",
            KeyCode::F26 => "F26",
            KeyCode::F27 => "F27",
            KeyCode::F28 => "F28",
            KeyCode::F29 => "F29",
            KeyCode::F30 => "F30",
            KeyCode::F31 => "F31",
            KeyCode::F32 => "F32",
            KeyCode::F33 => "F33",
            KeyCode::F34 => "F34",
            KeyCode::F35 => "F35",
            KeyCode::BrightnessDown => "BrightnessDown",
            KeyCode::BrightnessUp => "BrightnessUp",
            KeyCode::DisplayToggleIntExt => "DisplayToggleIntExt",
            KeyCode::KeyboardLayoutSelect => "KeyboardLayoutSelect",
            KeyCode::LaunchAssistant => "LaunchAssistant",
            KeyCode::LaunchControlPanel => "LaunchControlPanel",
            KeyCode::LaunchScreenSaver => "LaunchScreenSaver",
            KeyCode::MailForward => "MailForward",
            KeyCode::MailReply => "MailReply",
            KeyCode::MailSend => "MailSend",
            KeyCode::MediaFastForward => "MediaFastForward",
            KeyCode::MediaPause => "MediaPause",
            KeyCode::MediaPlay => "MediaPlay",
            KeyCode::MediaRecord => "MediaRecord",
            KeyCode::MediaRewind => "MediaRewind",
            KeyCode::MicrophoneMuteToggle => "MicrophoneMuteToggle",
            KeyCode::PrivacyScreenToggle => "PrivacyScreenToggle",
            KeyCode::SelectTask => "SelectTask",
            KeyCode::ShowAllWindows => "ShowAllWindows",
            KeyCode::ZoomToggle => "ZoomToggle",
        }
    }

    /// The native key code of the key.
    pub fn global_hotkeys(&self) -> (r: Code)
        ensures
            r == native_code(*self),
    {
        match self {
            KeyCode::Backquote => Code::Backquote,
            KeyCode::Backslash => Code::Backslash,
            KeyCode::BracketLeft => Code::BracketLeft,
            KeyCode::BracketRight => Code::BracketRight,
            KeyCode::Comma => Code::Comma,
            KeyCode::Digit0 => Code::Digit0,
            KeyCode::Digit1 => Code::Digit1,
            KeyCode::Digit2 => Code::Digit2,
            KeyCode::Digit3 => Code::Digit3,
            KeyCode::Digit4 => Code::Digit4,
            KeyCode::Digit5 => Code::Digit5,
            KeyCode::Digit6 => Code::Digit6,
            KeyCode::Digit7 => Code::Digit7,
            KeyCode::Digit8 => Code::Digit8,
            KeyCode::Digit9 => Code::Digit9,
            KeyCode::Equal => Code::Equal,
            KeyCode::IntlBackslash => Code::IntlBackslash,
            KeyCode::IntlRo => Code::IntlRo,
            KeyCode::IntlYen => Code::IntlYen,
            KeyCode::KeyA => Code::KeyA,
            KeyCode::KeyB => Code::KeyB,
            KeyCode::KeyC => Code::KeyC,
            KeyCode::KeyD => Code::KeyD,
            KeyCode::KeyE => Code::KeyE,
            KeyCode::KeyF => Code::KeyF,
            KeyCode::KeyG => Code::KeyG,
            KeyCode::KeyH => Code::KeyH,
            KeyCode::KeyI => Code::KeyI,
            KeyCode::KeyJ => Code::KeyJ,
            KeyCode::KeyK => Code::KeyK,
            KeyCode::KeyL => Code::KeyL,
            KeyCode::KeyM => Code::KeyM,
            KeyCode::KeyN => Code::KeyN,
            KeyCode::KeyO => Code::KeyO,
            KeyCode::KeyP => Code::KeyP,
            KeyCode::KeyQ => Code::KeyQ,
            KeyCode::KeyR => Code::KeyR,
            KeyCode::KeyS => Code::KeyS,
            KeyCode::KeyT => Code::KeyT,
            KeyCode::KeyU => Code::KeyU,
            KeyCode::KeyV => Code::KeyV,
            KeyCode::KeyW => Code::KeyW,
            KeyCode::KeyX => Code::KeyX,
            KeyCode::KeyY => Code::KeyY,
            KeyCode::KeyZ => Code::KeyZ,
            KeyCode::Minus => Code::Minus,
            KeyCode::Period => Code::Period,
            KeyCode::Quote => Code::Quote,
            KeyCode::Semicolon => Code::Semicolon,
            KeyCode::Slash => Code::Slash,
            KeyCode::AltLeft => Code::AltLeft,
            KeyCode::AltRight => Code::AltRight,
            KeyCode::Backspace => Code::Backspace,
            KeyCode::CapsLock => Code::CapsLock,
            KeyCode::ContextMenu => Code::ContextMenu,
            KeyCode::ControlLeft => Code::ControlLeft,
            KeyCode::ControlRight => Code::ControlRight,
            KeyCode::Enter => Code::Enter,
            KeyCode::MetaLeft => Code::MetaLeft,
            KeyCode::MetaRight => Code::MetaRight,
            KeyCode::ShiftLeft => Code::ShiftLeft,
            KeyCode::ShiftRight => Code::ShiftRight,
            KeyCode::Space => Code::Space,
            KeyCode::Tab => Code::Tab,
            KeyCode::Convert => Code::Convert,
            KeyCode::KanaMode => Code::KanaMode,
            KeyCode::Lang1 => Code::Lang1,
            KeyCode::Lang2 => Code::Lang2,
            KeyCode::Lang3 => Code::Lang3,
            KeyCode::Lang4 => Code::Lang4,
            KeyCode::Lang5 => Code::Lang5,
            KeyCode::NonConvert => Code::NonConvert,
            KeyCode::Delete => Code::Delete,
            KeyCode::End => Code::End,
            KeyCode::Help => Code::Help,
            KeyCode::Home => Code::Home,
            KeyCode::Insert => Code::Insert,
            KeyCode::PageDown => Code::PageDown,
            KeyCode::PageUp => Code::PageUp,
            KeyCode::ArrowDown => Code::ArrowDown,
            KeyCode::ArrowLeft => Code::ArrowLeft,
            KeyCode::ArrowRight => Code::ArrowRight,
            KeyCode::ArrowUp => Code::ArrowUp,
            KeyCode::NumLock => Code::NumLock,
            KeyCode::Numpad0 => Code::Numpad0,
            KeyCode::Numpad1 => Code::Numpad1,
            KeyCode::Numpad2 => Code::Numpad2,
            KeyCode::Numpad3 => Code::Numpad3,
            KeyCode::Numpad4 => Code::Numpad4,
            KeyCode::Numpad5 => Code::Numpad5,
            KeyCode::Numpad6 => Code::Numpad6,
            KeyCode::Numpad7 => Code::Numpad7,
            KeyCode::Numpad8 => Code::Numpad8,
            KeyCode::Numpad9 => Code::Numpad9,
            KeyCode::NumpadAdd => Code::NumpadAdd,
            KeyCode::NumpadBackspace => Code::NumpadBackspace,
            KeyCode::NumpadClear => Code::NumpadClear,
            KeyCode::NumpadClearEntry => Code::NumpadClearEntry,
            KeyCode::NumpadComma => Code::NumpadComma,
            KeyCode::NumpadDecimal => Code::NumpadDecimal,
            KeyCode::NumpadDivide => Code::NumpadDivide,
            KeyCode::NumpadEnter => Code::NumpadEnter,
            KeyCode::NumpadEqual => Code::NumpadEqual,
            KeyCode::NumpadHash => Code::NumpadHash,
            KeyCode::NumpadMemoryAdd => Code::NumpadMemoryAdd,
            KeyCode::NumpadMemoryClear => Code::NumpadMemoryClear,
            KeyCode::NumpadMemoryRecall => Code::NumpadMemoryRecall,
            KeyCode::NumpadMemoryStore => Code::NumpadMemoryStore,
            KeyCode::NumpadMemorySubtract => Code::NumpadMemorySubtract,
            KeyCode::NumpadMultiply => Code::NumpadMultiply,
            KeyCode::NumpadParenLeft => Code::NumpadParenLeft,
            KeyCode::NumpadParenRight => Code::NumpadParenRight,
            KeyCode::NumpadStar => Code::NumpadStar,
            KeyCode::NumpadSubtract => Code::NumpadSubtract,
            KeyCode::Escape => Code::Escape,
            KeyCode::Fn => Code::Fn,
            KeyCode::FnLock => Code::FnLock,
            KeyCode::PrintScreen => Code::PrintScreen,
            KeyCode::ScrollLock => Code::ScrollLock,
            KeyCode::Pause => Code::Pause,
            KeyCode::BrowserBack => Code::BrowserBack,
            KeyCode::BrowserFavorites => Code::BrowserFavorites,
            KeyCode::BrowserForward => Code::BrowserForward,
            KeyCode::BrowserHome => Code::BrowserHome,
            KeyCode::BrowserRefresh => Code::BrowserRefresh,
            KeyCode::BrowserSearch => Code::BrowserSearch,
            KeyCode::BrowserStop => Code::BrowserStop,
            KeyCode::Eject => Code::Eject,
            KeyCode::LaunchApp1 => Code::LaunchApp1,
            KeyCode::LaunchApp2 => Code::LaunchApp2,
            KeyCode::LaunchMail => Code::LaunchMail,
            KeyCode::MediaPlayPause => Code::MediaPlayPause,
            KeyCode::MediaSelect => Code::MediaSelect,
            KeyCode::MediaStop => Code::MediaStop,
            KeyCode::MediaTrackNext => Code::MediaTrackNext,
            KeyCode::MediaTrackPrevious => Code::MediaTrackPrevious,
            KeyCode::Power => Code::Power,
            KeyCode::Sleep => Code::Sleep,
            KeyCode::AudioVolumeDown => Code::AudioVolumeDown,
            KeyCode::AudioVolumeMute => Code::AudioVolumeMute,
            KeyCode::AudioVolumeUp => Code::AudioVolumeUp,
            KeyCode::WakeUp => Code::WakeUp,
            KeyCode::Hyper => Code::Hyper,
            KeyCode::Super => Code::Super,
            KeyCode::Turbo => Code::Turbo,
            KeyCode::Abort => Code::Abort,
            KeyCode::Resume => Code::Resume,
            KeyCode::Suspend => Code::Suspend,
            KeyCode::Again => Code::Again,
            KeyCode::Copy => Code::Copy,
            KeyCode::Cut => Code::Cut,
            KeyCode::Find => Code::Find,
            KeyCode::Open => Code::Open,
            KeyCode::Paste => Code::Paste,
            KeyCode::Props => Code::Props,
            KeyCode::Select => Code::Select,
            KeyCode::Undo => Code::Undo,
            KeyCode::Hiragana => Code::Hiragana,
            KeyCode::Katakana => Code::Katakana,
            KeyCode::Unidentified => Code::Unidentified,
            KeyCode::F1 => Code::F1,
            KeyCode::F2 => Code::F2,
            KeyCode::F3 => Code::F3,
            KeyCode::F4 => Code::F4,
            KeyCode::F5 => Code::F5,
            KeyCode::F6 => Code::F6,
            KeyCode::F7 => Code::F7,
            KeyCode::F8 => Code::F8,
            KeyCode::F9 => Code::F9,
            KeyCode::F10 => Code::F10,
            KeyCode::F11 => Code::F11,
            KeyCode::F12 => Code::F12,
            KeyCode::F13 => Code::F13,
            KeyCode::F14 => Code::F14,
            KeyCode::F15 => Code::F15,
            KeyCode::F16 => Code::F16,
            KeyCode::F17 => Code::F17,
            KeyCode::F18 => Code::F18,
            KeyCode::F19 => Code::F19,
            KeyCode::F20 => Code::F20,
            KeyCode::F21 => Code::F21,
            KeyCode::F22 => Code::F22,
            KeyCode::F23 => Code::F23,
            KeyCode::F24 => Code::F24,
            KeyCode::F25 => Code::F25,
            KeyCode::F26 => Code::F26,
            KeyCode::F27 => Code::F27,
            KeyCode::F28 => Code::F28,
            KeyCode::F29 => Code::F29,
            KeyCode::F30 => Code::F30,
            KeyCode::F31 => Code::F31,
            KeyCode::F32 => Code::F32,
            KeyCode::F33 => Code::F33,
            KeyCode::F34 => Code::F34,
            KeyCode::F35 => Code::F35,
            KeyCode::BrightnessDown => Code::BrightnessDown,
            KeyCode::BrightnessUp => Code::BrightnessUp,
            KeyCode::DisplayToggleIntExt => Code::DisplayToggleIntExt,
            KeyCode::KeyboardLayoutSelect => Code::KeyboardLayoutSelect,
            KeyCode::LaunchAssistant => Code::LaunchAssistant,
            KeyCode::LaunchControlPanel => Code::LaunchControlPanel,
            KeyCode::LaunchScreenSaver => Code::LaunchScreenSaver,
            KeyCode::MailForward => Code::MailForward,
            KeyCode::MailReply => Code::MailReply,
            KeyCode::MailSend => Code::MailSend,
            KeyCode::MediaFastForward => Code::MediaFastForward,
            KeyCode::MediaPause => Code::MediaPause,
            KeyCode::MediaPlay => Code::MediaPlay,
            KeyCode::MediaRecord => Code::MediaRecord,
            KeyCode::MediaRewind => Code::MediaRewind,
            KeyCode::MicrophoneMuteToggle => Code::MicrophoneMuteToggle,
            KeyCode::PrivacyScreenToggle => Code::PrivacyScreenToggle,
            KeyCode::SelectTask => Code::SelectTask,
            KeyCode::ShowAllWindows => Code::ShowAllWindows,
            KeyCode::ZoomToggle => Code::ZoomToggle,
        }
    }

    /// The key that a native key code stands for; `None` for a code that has
    /// no key here.
    pub fn from_global_hotkeys(code: Code) -> (r: Option<KeyCode>)
        ensures
            r == key_code_of(code),
    {
        proof {
            lemma_key_code_of_is_table(code);
        }
        match code {
            Code::Backquote => Some(KeyCode::Backquote),
            Code::Backslash => Some(KeyCode::Backslash),
            Code::BracketLeft => Some(KeyCode::BracketLeft),
            Code::BracketRight => Some(KeyCode::BracketRight),
            Code::Comma => Some(KeyCode::Comma),
            Code::Digit0 => Some(KeyCode::Digit0),
            Code::Digit1 => Some(KeyCode::Digit1),
            Code::Digit2 => Some(KeyCode::Digit2),
            Code::Digit3 => Some(KeyCode::Digit3),
            Code::Digit4 => Some(KeyCode::Digit4),
            Code::Digit5 => Some(KeyCode::Digit5),
            Code::Digit6 => Some(KeyCode::Digit6),
            Code::Digit7 => Some(KeyCode::Digit7),
            Code::Digit8 => Some(KeyCode::Digit8),
            Code::Digit9 => Some(KeyCode::Digit9),
            Code::Equal => Some(KeyCode::Equal),
            Code::IntlBackslash => Some(KeyCode::IntlBackslash),
            Code::IntlRo => Some(KeyCode::IntlRo),
            Code::IntlYen => Some(KeyCode::IntlYen),
            Code::KeyA => Some(KeyCode::KeyA),
            Code::KeyB => Some(KeyCode::KeyB),
            Code::KeyC => Some(KeyCode::KeyC),
            Code::KeyD => Some(KeyCode::KeyD),
            Code::KeyE => Some(KeyCode::KeyE),
            Code::KeyF => Some(KeyCode::KeyF),
            Code::KeyG => Some(KeyCode::KeyG),
            Code::KeyH => Some(KeyCode::KeyH),
            Code::KeyI => Some(KeyCode::KeyI),
            Code::KeyJ => Some(KeyCode::KeyJ),
            Code::KeyK => Some(KeyCode::KeyK),
            Code::KeyL => Some(KeyCode::KeyL),
            Code::KeyM => Some(KeyCode::KeyM),
            Code::KeyN => Some(KeyCode::KeyN),
            Code::KeyO => Some(KeyCode::KeyO),
            Code::KeyP => Some(KeyCode::KeyP),
            Code::KeyQ => Some(KeyCode::KeyQ),
            Code::KeyR => Some(KeyCode::KeyR),
            Code::KeyS => Some(KeyCode::KeyS),
            Code::KeyT => Some(KeyCode::KeyT),
            Code::KeyU => Some(KeyCode::KeyU),
            Code::KeyV => Some(KeyCode::KeyV),
            Code::KeyW => Some(KeyCode::KeyW),
            Code::KeyX => Some(KeyCode::KeyX),
            Code::KeyY => Some(KeyCode::KeyY),
            Code::KeyZ => Some(KeyCode::KeyZ),
            Code::Minus => Some(KeyCode::Minus),
            Code::Period => Some(KeyCode::Period),
            Code::Quote => Some(KeyCode::Quote),
            Code::Semicolon => Some(KeyCode::Semicolon),
            Code::Slash => Some(KeyCode::Slash),
            Code::AltLeft => Some(KeyCode::AltLeft),
            Code::AltRight => Some(KeyCode::AltRight),
            Code::Backspace => Some(KeyCode::Backspace),
            Code::CapsLock => Some(KeyCode::CapsLock),
            Code::ContextMenu => Some(KeyCode::ContextMenu),
            Code::ControlLeft => Some(KeyCode::ControlLeft),
            Code::ControlRight => Some(KeyCode::ControlRight),
            Code::Enter => Some(KeyCode::Enter),
            Code::MetaLeft => Some(KeyCode::MetaLeft),
            Code::MetaRight => Some(KeyCode::MetaRight),
            Code::ShiftLeft => Some(KeyCode::ShiftLeft),
            Code::ShiftRight => Some(KeyCode::ShiftRight),
            Code::Space => Some(KeyCode::Space),
            Code::Tab => Some(KeyCode::Tab),
            Code::Convert => Some(KeyCode::Convert),
            Code::KanaMode => Some(KeyCode::KanaMode),
            Code::Lang1 => Some(KeyCode::Lang1),
            Code::Lang2 => Some(KeyCode::Lang2),
            Code::Lang3 => Some(KeyCode::Lang3),
            Code::Lang4 => Some(KeyCode::Lang4),
            Code::Lang5 => Some(KeyCode::Lang5),
            Code::NonConvert => Some(KeyCode::NonConvert),
            Code::Delete => Some(KeyCode::Delete),
            Code::End => Some(KeyCode::End),
            Code::Help => Some(KeyCode::Help),
            Code::Home => Some(KeyCode::Home),
            Code::Insert => Some(KeyCode::Insert),
            Code::PageDown => Some(KeyCode::PageDown),
            Code::PageUp => Some(KeyCode::PageUp),
            Code::ArrowDown => Some(KeyCode::ArrowDown),
            Code::ArrowLeft => Some(KeyCode::ArrowLeft),
            Code::ArrowRight => Some(KeyCode::ArrowRight),
            Code::ArrowUp => Some(KeyCode::ArrowUp),
            Code::NumLock => Some(KeyCode::NumLock),
            Code::Numpad0 => Some(KeyCode::Numpad0),
            Code::Numpad1 => Some(KeyCode::Numpad1),
            Code::Numpad2 => Some(KeyCode::Numpad2),
            Code::Numpad3 => Some(KeyCode::Numpad3),
            Code::Numpad4 => Some(KeyCode::Numpad4),
            Code::Numpad5 => Some(KeyCode::Numpad5),
            Code::Numpad6 => Some(KeyCode::Numpad6),
            Code::Numpad7 => Some(KeyCode::Numpad7),
            Code::Numpad8 => Some(KeyCode::Numpad8),
            Code::Numpad9 => Some(KeyCode::Numpad9),
            Code::NumpadAdd => Some(KeyCode::NumpadAdd),
            Code::NumpadBackspace => Some(KeyCode::NumpadBackspace),
            Code::NumpadClear => Some(KeyCode::NumpadClear),
            Code::NumpadClearEntry => Some(KeyCode::NumpadClearEntry),
            Code::NumpadComma => Some(KeyCode::NumpadComma),
            Code::NumpadDecimal => Some(KeyCode::NumpadDecimal),
            Code::NumpadDivide => Some(KeyCode::NumpadDivide),
            Code::NumpadEnter => Some(KeyCode::NumpadEnter),
            Code::NumpadEqual => Some(KeyCode::NumpadEqual),
            Code::NumpadHash => Some(KeyCode::NumpadHash),
            Code::NumpadMemoryAdd => Some(KeyCode::NumpadMemoryAdd),
            Code::NumpadMemoryClear => Some(KeyCode::NumpadMemoryClear),
            Code::NumpadMemoryRecall => Some(KeyCode::NumpadMemoryRecall),
            Code::NumpadMemoryStore => Some(KeyCode::NumpadMemoryStore),
            Code::NumpadMemorySubtract => Some(KeyCode::NumpadMemorySubtract),
            Code::NumpadMultiply => Some(KeyCode::NumpadMultiply),
            Code::NumpadParenLeft => Some(KeyCode::NumpadParenLeft),
            Code::NumpadParenRight => Some(KeyCode::NumpadParenRight),
            Code::NumpadStar => Some(KeyCode::NumpadStar),
            Code::NumpadSubtract => Some(KeyCode::NumpadSubtract),
            Code::Escape => Some(KeyCode::Escape),
            Code::Fn => Some(KeyCode::Fn),
            Code::FnLock => Some(KeyCode::FnLock),
            Code::PrintScreen => Some(KeyCode::PrintScreen),
            Code::ScrollLock => Some(KeyCode::ScrollLock),
            Code::Pause => Some(KeyCode::Pause),
            Code::BrowserBack => Some(KeyCode::BrowserBack),
            Code::BrowserFavorites => Some(KeyCode::BrowserFavorites),
            Code::BrowserForward => Some(KeyCode::BrowserForward),
            Code::BrowserHome => Some(KeyCode::BrowserHome),
            Code::BrowserRefresh => Some(KeyCode::BrowserRefresh),
            Code::BrowserSearch => Some(KeyCode::BrowserSearch),
            Code::BrowserStop => Some(KeyCode::BrowserStop),
            Code::Eject => Some(KeyCode::Eject),
            Code::LaunchApp1 => Some(KeyCode::LaunchApp1),
            Code::LaunchApp2 => Some(KeyCode::LaunchApp2),
            Code::LaunchMail => Some(KeyCode::LaunchMail),
            Code::MediaPlayPause => Some(KeyCode::MediaPlayPause),
            Code::MediaSelect => Some(KeyCode::MediaSelect),
            Code::MediaStop => Some(KeyCode::MediaStop),
            Code::MediaTrackNext => Some(KeyCode::MediaTrackNext),
            Code::MediaTrackPrevious => Some(KeyCode::MediaTrackPrevious),
            Code::Power => Some(KeyCode::Power),
            Code::Sleep => Some(KeyCode::Sleep),
            Code::AudioVolumeDown => Some(KeyCode::AudioVolumeDown),
            Code::AudioVolumeMute => Some(KeyCode::AudioVolumeMute),
            Code::AudioVolumeUp => Some(KeyCode::AudioVolumeUp),
            Code::WakeUp => Some(KeyCode::WakeUp),
            Code::Hyper => Some(KeyCode::Hyper),
            Code::Super => Some(KeyCode::Super),
            Code::Turbo => Some(KeyCode::Turbo),
            Code::Abort => Some(KeyCode::Abort),
            Code::Resume => Some(KeyCode::Resume),
            Code::Suspend => Some(KeyCode::Suspend),
            Code::Again => Some(KeyCode::Again),
            Code::Copy => Some(KeyCode::Copy),
            Code::Cut => Some(KeyCode::Cut),
            Code::Find => Some(KeyCode::Find),
            Code::Open => Some(KeyCode::Open),
            Code::Paste => Some(KeyCode::Paste),
            Code::Props => Some(KeyCode::Props),
            Code::Select => Some(KeyCode::Select),
            Code::Undo => Some(KeyCode::Undo),
            Code::Hiragana => Some(KeyCode::Hiragana),
            Code::Katakana => Some(KeyCode::Katakana),
            Code::Unidentified => Some(KeyCode::Unidentified),
            Code::F1 => Some(KeyCode::F1),
            Code::F2 => Some(KeyCode::F2),
            Code::F3 => Some(KeyCode::F3),
            Code::F4 => Some(KeyCode::F4),
            Code::F5 => Some(KeyCode::F5),
            Code::F6 => Some(KeyCode::F6),
            Code::F7 => Some(KeyCode::F7),
            Code::F8 => Some(KeyCode::F8),
            Code::F9 => Some(KeyCode::F9),
            Code::F10 => Some(KeyCode::F10),
            Code::F11 => Some(KeyCode::F11),
            Code::F12 => Some(KeyCode::F12),
            Code::F13 => Some(KeyCode::F13),
            Code::F14 => Some(KeyCode::F14),
            Code::F15 => Some(KeyCode::F15),
            Code::F16 => Some(KeyCode::F16),
            Code::F17 => Some(KeyCode::F17),
            Code::F18 => Some(KeyCode::F18),
            Code::F19 => Some(KeyCode::F19),
            Code::F20 => Some(KeyCode::F20),
            Code::F21 => Some(KeyCode::F21),
            Code::F22 => Some(KeyCode::F22),
            Code::F23 => Some(KeyCode::F23),
            Code::F24 => Some(KeyCode::F24),
            Code::F25 => Some(KeyCode::F25),
            Code::F26 => Some(KeyCode::F26),
            Code::F27 => Some(KeyCode::F27),
            Code::F28 => Some(KeyCode::F28),
            Code::F29 => Some(KeyCode::F29),
            Code::F30 => Some(KeyCode::F30),
            Code::F31 => Some(KeyCode::F31),
            Code::F32 => Some(KeyCode::F32),
            Code::F33 => Some(KeyCode::F33),
            Code::F34 => Some(KeyCode::F34),
            Code::F35 => Some(KeyCode::F35),
            Code::BrightnessDown => Some(KeyCode::BrightnessDown),
            Code::BrightnessUp => Some(KeyCode::BrightnessUp),
            Code::DisplayToggleIntExt => Some(KeyCode::DisplayToggleIntExt),
            Code::KeyboardLayoutSelect => Some(KeyCode::KeyboardLayoutSelect),
            Code::LaunchAssistant => Some(KeyCode::LaunchAssistant),
            Code::LaunchControlPanel => Some(KeyCode::LaunchControlPanel),
            Code::LaunchScreenSaver => Some(KeyCode::LaunchScreenSaver),
            Code::MailForward => Some(KeyCode::MailForward),
            Code::MailReply => Some(KeyCode::MailReply),
            Code::MailSend => Some(KeyCode::MailSend),
            Code::MediaFastForward => Some(KeyCode::MediaFastForward),
            Code::MediaPause => Some(KeyCode::MediaPause),
            Code::MediaPlay => Some(KeyCode::MediaPlay),
            Code::MediaRecord => Some(KeyCode::MediaRecord),
            Code::MediaRewind => Some(KeyCode::MediaRewind),
            Code::MicrophoneMuteToggle => Some(KeyCode::MicrophoneMuteToggle),
            Code::PrivacyScreenToggle => Some(KeyCode::PrivacyScreenToggle),
            Code::SelectTask => Some(KeyCode::SelectTask),
            Code::ShowAllWindows => Some(KeyCode::ShowAllWindows),
            Code::ZoomToggle => Some(KeyCode::ZoomToggle),
            _ => None,
        }
    }
}

/// The key at a position of the enumeration, if the position is in range.
fn key_code_at(i: u32) -> (r: Option<KeyCode>)
    ensures
        r == key_at(i),
        r is Some <==> i < KEY_CODE_COUNT,
{
    match i {
        0 => Some(KeyCode::Backquote),
        1 => Some(KeyCode::Backslash),
        2 => Some(KeyCode::BracketLeft),
        3 => Some(KeyCode::BracketRight),
        4 => Some(KeyCode::Comma),
        5 => Some(KeyCode::Digit0),
        6 => Some(KeyCode::Digit1),
        7 => Some(KeyCode::Digit2),
        8 => Some(KeyCode::Digit3),
        9 => Some(KeyCode::Digit4),
        10 => Some(KeyCode::Digit5),
        11 => Some(KeyCode::Digit6),
        12 => Some(KeyCode::Digit7),
        13 => Some(KeyCode::Digit8),
        14 => Some(KeyCode::Digit9),
        15 => Some(KeyCode::Equal),
        16 => Some(KeyCode::IntlBackslash),
        17 => Some(KeyCode::IntlRo),
        18 => Some(KeyCode::IntlYen),
        19 => Some(KeyCode::KeyA),
        20 => Some(KeyCode::KeyB),
        21 => Some(KeyCode::KeyC),
        22 => Some(KeyCode::KeyD),
        23 => Some(KeyCode::KeyE),
        24 => Some(KeyCode::KeyF),
        25 => Some(KeyCode::KeyG),
        26 => Some(KeyCode::KeyH),
        27 => Some(KeyCode::KeyI),
        28 => Some(KeyCode::KeyJ),
        29 => Some(KeyCode::KeyK),
        30 => Some(KeyCode::KeyL),
        31 => Some(KeyCode::KeyM),
        32 => Some(KeyCode::KeyN),
        33 => Some(KeyCode::KeyO),
        34 => Some(KeyCode::KeyP),
        35 => Some(KeyCode::KeyQ),
        36 => Some(KeyCode::KeyR),
        37 => Some(KeyCode::KeyS),
        38 => Some(KeyCode::KeyT),
        39 => Some(KeyCode::KeyU),
        40 => Some(KeyCode::KeyV),
        41 => Some(KeyCode::KeyW),
        42 => Some(KeyCode::KeyX),
        43 => Some(KeyCode::KeyY),
        44 => Some(KeyCode::KeyZ),
        45 => Some(KeyCode::Minus),
        46 => Some(KeyCode::Period),
        47 => Some(KeyCode::Quote),
        48 => Some(KeyCode::Semicolon),
        49 => Some(KeyCode::Slash),
        50 => Some(KeyCode::AltLeft),
        51 => Some(KeyCode::AltRight),
        52 => Some(KeyCode::Backspace),
        53 => Some(KeyCode::CapsLock),
        54 => Some(KeyCode::ContextMenu),
        55 => Some(KeyCode::ControlLeft),
        56 => Some(KeyCode::ControlRight),
        57 => Some(KeyCode::Enter),
        58 => Some(KeyCode::MetaLeft),
        59 => Some(KeyCode::MetaRight),
        60 => Some(KeyCode::ShiftLeft),
        61 => Some(KeyCode::ShiftRight),
        62 => Some(KeyCode::Space),
        63 => Some(KeyCode::Tab),
        64 => Some(KeyCode::Convert),
        65 => Some(KeyCode::KanaMode),
        66 => Some(KeyCode::Lang1),
        67 => Some(KeyCode::Lang2),
        68 => Some(KeyCode::Lang3),
        69 => Some(KeyCode::Lang4),
        70 => Some(KeyCode::Lang5),
        71 => Some(KeyCode::NonConvert),
        72 => Some(KeyCode::Delete),
        73 => Some(KeyCode::End),
        74 => Some(KeyCode::Help),
        75 => Some(KeyCode::Home),
        76 => Some(KeyCode::Insert),
        77 => Some(KeyCode::PageDown),
        78 => Some(KeyCode::PageUp),
        79 => Some(KeyCode::ArrowDown),
        80 => Some(KeyCode::ArrowLeft),
        81 => Some(KeyCode::ArrowRight),
        82 => Some(KeyCode::ArrowUp),
        83 => Some(KeyCode::NumLock),
        84 => Some(KeyCode::Numpad0),
        85 => Some(KeyCode::Numpad1),
        86 => Some(KeyCode::Numpad2),
        87 => Some(KeyCode::Numpad3),
        88 => Some(KeyCode::Numpad4),
        89 => Some(KeyCode::Numpad5),
        90 => Some(KeyCode::Numpad6),
        91 => Some(KeyCode::Numpad7),
        92 => Some(KeyCode::Numpad8),
        93 => Some(KeyCode::Numpad9),
        94 => Some(KeyCode::NumpadAdd),
        95 => Some(KeyCode::NumpadBackspace),
        96 => Some(KeyCode::NumpadClear),
        97 => Some(KeyCode::NumpadClearEntry),
        98 => Some(KeyCode::NumpadComma),
        99 => Some(KeyCode::NumpadDecimal),
        100 => Some(KeyCode::NumpadDivide),
        101 => Some(KeyCode::NumpadEnter),
        102 => Some(KeyCode::NumpadEqual),
        103 => Some(KeyCode::NumpadHash),
        104 => Some(KeyCode::NumpadMemoryAdd),
        105 => Some(KeyCode::NumpadMemoryClear),
        106 => Some(KeyCode::NumpadMemoryRecall),
        107 => Some(KeyCode::NumpadMemoryStore),
        108 => Some(KeyCode::NumpadMemorySubtract),
        109 => Some(KeyCode::NumpadMultiply),
        110 => Some(KeyCode::NumpadParenLeft),
        111 => Some(KeyCode::NumpadParenRight),
        112 => Some(KeyCode::NumpadStar),
        113 => Some(KeyCode::NumpadSubtract),
        114 => Some(KeyCode::Escape),
        115 => Some(KeyCode::Fn),
        116 => Some(KeyCode::FnLock),
        117 => Some(KeyCode::PrintScreen),
        118 => Some(KeyCode::ScrollLock),
        119 => Some(KeyCode::Pause),
        120 => Some(KeyCode::BrowserBack),
        121 => Some(KeyCode::BrowserFavorites),
        122 => Some(KeyCode::BrowserForward),
        123 => Some(KeyCode::BrowserHome),
        124 => Some(KeyCode::BrowserRefresh),
        125 => Some(KeyCode::BrowserSearch),
        126 => Some(KeyCode::BrowserStop),
        127 => Some(KeyCode::Eject),
        128 => Some(KeyCode::LaunchApp1),
        129 => Some(KeyCode::LaunchApp2),
        130 => Some(KeyCode::LaunchMail),
        131 => Some(KeyCode::MediaPlayPause),
        132 => Some(KeyCode::MediaSelect),
        133 => Some(KeyCode::MediaStop),
        134 => Some(KeyCode::MediaTrackNext),
        135 => Some(KeyCode::MediaTrackPrevious),
        136 => Some(KeyCode::Power),
        137 => Some(KeyCode::Sleep),
        138 => Some(KeyCode::AudioVolumeDown),
        139 => Some(KeyCode::AudioVolumeMute),
        140 => Some(KeyCode::AudioVolumeUp),
        141 => Some(KeyCode::WakeUp),
        142 => Some(KeyCode::Hyper),
        143 => Some(KeyCode::Super),
        144 => Some(KeyCode::Turbo),
        145 => Some(KeyCode::Abort),
        146 => Some(KeyCode::Resume),
        147 => Some(KeyCode::Suspend),
        148 => Some(KeyCode::Again),
        149 => Some(KeyCode::Copy),
        150 => Some(KeyCode::Cut),
        151 => Some(KeyCode::Find),
        152 => Some(KeyCode::Open),
        153 => Some(KeyCode::Paste),
        154 => Some(KeyCode::Props),
        155 => Some(KeyCode::Select),
        156 => Some(KeyCode::Undo),
        157 => Some(KeyCode::Hiragana),
        158 => Some(KeyCode::Katakana),
        159 => Some(KeyCode::Unidentified),
        160 => Some(KeyCode::F1),
        161 => Some(KeyCode::F2),
        162 => Some(KeyCode::F3),
        163 => Some(KeyCode::F4),
        164 => Some(KeyCode::F5),
        165 => Some(KeyCode::F6),
        166 => Some(KeyCode::F7),
        167 => Some(KeyCode::F8),
        168 => Some(KeyCode::F9),
        169 => Some(KeyCode::F10),
        170 => Some(KeyCode::F11),
        171 => Some(KeyCode::F12),
        172 => Some(KeyCode::F13),
        173 => Some(KeyCode::F14),
        174 => Some(KeyCode::F15),
        175 => Some(KeyCode::F16),
        176 => Some(KeyCode::F17),
        177 => Some(KeyCode::F18),
        178 => Some(KeyCode::F19),
        179 => Some(KeyCode::F20),
        180 => Some(KeyCode::F21),
        181 => Some(KeyCode::F22),
        182 => Some(KeyCode::F23),
        183 => Some(KeyCode::F24),
        184 => Some(KeyCode::F25),
        185 => Some(KeyCode::F26),
        186 => Some(KeyCode::F27),
        187 => Some(KeyCode::F28),
        188 => Some(KeyCode::F29),
        189 => Some(KeyCode::F30),
        190 => Some(KeyCode::F31),
        191 => Some(KeyCode::F32),
        192 => Some(KeyCode::F33),
        193 => Some(KeyCode::F34),
        194 => Some(KeyCode::F35),
        195 => Some(KeyCode::BrightnessDown),
        196 => Some(KeyCode::BrightnessUp),
        197 => Some(KeyCode::DisplayToggleIntExt),
        198 => Some(KeyCode::KeyboardLayoutSelect),
        199 => Some(KeyCode::LaunchAssistant),
        200 => Some(KeyCode::LaunchControlPanel),
        201 => Some(KeyCode::LaunchScreenSaver),
        202 => Some(KeyCode::MailForward),
        203 => Some(KeyCode::MailReply),
        204 => Some(KeyCode::MailSend),
        205 => Some(KeyCode::MediaFastForward),
        206 => Some(KeyCode::MediaPause),
        207 => Some(KeyCode::MediaPlay),
        208 => Some(KeyCode::MediaRecord),
        209 => Some(KeyCode::MediaRewind),
        210 => Some(KeyCode::MicrophoneMuteToggle),
        211 => Some(KeyCode::PrivacyScreenToggle),
        212 => Some(KeyCode::SelectTask),
        213 => Some(KeyCode::ShowAllWindows),
        214 => Some(KeyCode::ZoomToggle),
        _ => None,
    }
}

/// The names of all keys, in the order of the enumeration.
pub fn key_code_keys() -> (r: Vec<String>)
    ensures
        r@.len() == KEY_CODE_COUNT,
        forall|k: KeyCode| #[trigger] r@[key_position(k) as int]@ == key_name(k),
{
    let mut names: Vec<String> = Vec::new();
    let mut i: u32 = 0;
    while i < KEY_CODE_COUNT
        invariant
            i <= KEY_CODE_COUNT,
            names@.len() == i,
            forall|k: KeyCode| key_position(k) < i ==> #[trigger] names@[key_position(k) as int]@ == key_name(k),
        decreases KEY_CODE_COUNT - i,
    {
        let k = key_code_at(i).unwrap();
        proof {
            lemma_key_at_inverts(k);
        }
        names.push(k.as_str().to_string());
        proof {
            assert forall|j: KeyCode| key_position(j) < i + 1 implies #[trigger] names@[key_position(j) as int]@ == key_name(j) by {
                lemma_key_at_inverts(j);
            }
        }
        i = i + 1;
    }
    proof {
        assert forall|k: KeyCode| key_position(k) < KEY_CODE_COUNT by {
            lemma_key_at_inverts(k);
        }
    }
    names
}

proof fn lemma_key_at_inverts(k: KeyCode)
    ensures
        key_at(key_position(k)) == Some(k),
        key_position(k) < KEY_CODE_COUNT,
{
}


/// The readable label of a key: its digit, letter, punctuation mark or
/// function-key name, and `None` for any other key.
pub fn key_code_to_human(key_code: KeyCode) -> (r: Option<String>)
    ensures
        match human_label(key_code) {
            Some(l) => r matches Some(s) && s@ == l,
            None => r is None,
        },
{
    let c: &'static str = match key_code {
        KeyCode::Digit0 => "0",
        KeyCode::Digit1 => "1",
        KeyCode::Digit2 => "2",
        KeyCode::Digit3 => "3",
        KeyCode::Digit4 => "4",
        KeyCode::Digit5 => "5",
        KeyCode::Digit6 => "6",
        KeyCode::Digit7 => "7",
        KeyCode::Digit8 => "8",
        KeyCode::Digit9 => "9",
        KeyCode::KeyA => "a",
        KeyCode::KeyB => "b",
        KeyCode::KeyC => "c",
        KeyCode::KeyD => "d",
        KeyCode::KeyE => "e",
        KeyCode::KeyF => "f",
        KeyCode::KeyG => "g",
        KeyCode::KeyH => "h",
        KeyCode::KeyI => "i",
        KeyCode::KeyJ => "j",
        KeyCode::KeyK => "k",
        KeyCode::KeyL => "l",
        KeyCode::KeyM => "m",
        KeyCode::KeyN => "n",
        KeyCode::KeyO => "o",
        KeyCode::KeyP => "p",
        KeyCode::KeyQ => "q",
        KeyCode::KeyR => "r",
        KeyCode::KeyS => "s",
        KeyCode::KeyT => "t",
        KeyCode::KeyU => "u",
        KeyCode::KeyV => "v",
        KeyCode::KeyW => "w",
        KeyCode::KeyX => "x",
        KeyCode::KeyY => "y",
        KeyCode::KeyZ => "z",
        KeyCode::Backquote => "`",
        KeyCode::Backslash => "\\",
        KeyCode::BracketLeft => "[",
        KeyCode::BracketRight => "]",
        KeyCode::Comma => ",",
        KeyCode::Equal => "=",
        KeyCode::Minus => "-",
        KeyCode::Period => ".",
        KeyCode::Quote => "\"",
        KeyCode::Semicolon => ";",
        KeyCode::Slash => "/",
        KeyCode::F1 => "f1",
        KeyCode::F2 => "f2",
        KeyCode::F3 => "f3",
        KeyCode::F4 => "f4",
        KeyCode::F5 => "f5",
        KeyCode::F6 => "f6",
        KeyCode::F7 => "f7",
        KeyCode::F8 => "f8",
        KeyCode::F9 => "f9",
        KeyCode::F10 => "f10",
        KeyCode::F11 => "f11",
        KeyCode::F12 => "f12",
        KeyCode::F13 => "f13",
        KeyCode::F14 => "f14",
        KeyCode::F15 => "f15",
        KeyCode::F16 => "f16",
        KeyCode::F17 => "f17",
        KeyCode::F18 => "f18",
        KeyCode::F19 => "f19",
        KeyCode::F20 => "f20",
        KeyCode::F21 => "f21",
        KeyCode::F22 => "f22",
        KeyCode::F23 => "f23",
        KeyCode::F24 => "f24",
        KeyCode::F25 => "f25",
        KeyCode::F26 => "f26",
        KeyCode::F27 => "f27",
        KeyCode::F28 => "f28",
        KeyCode::F29 => "f29",
        KeyCode::F30 => "f30",
        KeyCode::F31 => "f31",
        KeyCode::F32 => "f32",
        KeyCode::F33 => "f33",
        KeyCode::F34 => "f34",
        KeyCode::F35 => "f35",
        _ => return None,
    };
    Some(c.to_string())
}

} // verus!
