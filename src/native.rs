//! The parts of `global_hotkey` that the library relies on: its types, the
//! construction of a native hotkey, and the native manager's calls.

use global_hotkey::hotkey::{Code, HotKey, Modifiers};
use global_hotkey::{GlobalHotKeyEvent, GlobalHotKeyManager, HotKeyState};
use vstd::prelude::*;

verus! {

/// A native key code; Verus sees its variants.
#[verifier::external_type_specification]
pub struct ExCode(Code);

/// A native modifier set, a bit set over `u32`; opaque here.
#[verifier::external_type_specification]
#[verifier::external_body]
pub struct ExModifiers(Modifiers);

/// A native hotkey: its modifiers, its key and its identifier.
#[verifier::external_type_specification]
pub struct ExHotKey(HotKey);

/// Whether a native notification reports a press or a release.
#[verifier::external_type_specification]
pub struct ExHotKeyState(HotKeyState);

/// A native notification: the identifier of a hotkey and its state.
#[verifier::external_type_specification]
pub struct ExGlobalHotKeyEvent(GlobalHotKeyEvent);

/// The handle of the native hotkey subsystem; opaque here.
#[verifier::external_type_specification]
#[verifier::external_body]
pub struct ExGlobalHotKeyManager(GlobalHotKeyManager);

/// The error that the native hotkey subsystem reports; opaque here.
#[verifier::external_type_specification]
#[verifier::external_body]
pub struct ExError(global_hotkey::Error);

/// Bit of `Modifiers::META`.
pub const META_BIT: u32 = 0x40;

/// Bit of `Modifiers::SUPER`.
pub const SUPER_BIT: u32 = 0x2000;

/// The modifier bits that a native hotkey keeps: META is folded into SUPER.
pub open spec fn hotkey_mods(mods: u32) -> u32 {
    if mods & META_BIT != 0 {
        (mods & !META_BIT) | SUPER_BIT
    } else {
        mods
    }
}

/// The identifier of the native hotkey made of modifier bits `mods` and the
/// key code with discriminant `code`.
pub open spec fn hotkey_id(mods: u32, code: u32) -> u32 {
    (hotkey_mods(mods) << 16u32) | code
}

/// Relies on `HotKey::new`: the identifier is `(mods.bits() << 16) | key as u32`
/// after META is replaced by SUPER, and the key is kept.
#[verifier::external_body]
pub(crate) fn new_hotkey(mods: u32, key: Code) -> (r: HotKey)
    ensures
        r.key == key,
        r.id == hotkey_id(mods, crate::keys::code_discriminant(key)),
{
    HotKey::new(Some(Modifiers::from_bits_retain(mods)), key)
}

/// Relies on `GlobalHotKeyManager::new`, which fails when the native
/// subsystem cannot start.
pub assume_specification[ GlobalHotKeyManager::new ]() -> Result<
    GlobalHotKeyManager,
    global_hotkey::Error,
>;

/// Relies on `GlobalHotKeyManager::register`, whose outcome the operating
/// system decides.
pub assume_specification[ GlobalHotKeyManager::register ](
    manager: &GlobalHotKeyManager,
    hotkey: HotKey,
) -> Result<(), global_hotkey::Error>;

/// Relies on `GlobalHotKeyManager::unregister`, whose outcome the operating
/// system decides.
pub assume_specification[ GlobalHotKeyManager::unregister ](
    manager: &GlobalHotKeyManager,
    hotkey: HotKey,
) -> Result<(), global_hotkey::Error>;

} // verus!
