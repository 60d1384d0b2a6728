//! Hotkey descriptors, their identifiers, and resolved hotkey events.

use crate::keys::{code_discriminant, key_position, native_code, KeyCode};
use crate::mods::{
    bits_union, lemma_bits_union_of_mods, lemma_mods_mask_of_set, mods_bits, mods_mask,
    native_modifiers, union_bits, Mod,
};
use crate::native::{hotkey_id, new_hotkey};
use global_hotkey::HotKeyState;
use vstd::prelude::*;

verus! {

/// A hotkey combination: a key and its modifiers.
#[derive(Clone, Debug)]
pub struct Desc {
    pub code: KeyCode,
    pub mods: Vec<Mod>,
}

impl View for Desc {
    type V = (KeyCode, Seq<Mod>);

    open spec fn view(&self) -> (KeyCode, Seq<Mod>) {
        (self.code, self.mods@)
    }
}

impl Desc {
    pub fn new(code: KeyCode, mods: Vec<Mod>) -> (r: Desc)
        ensures
            r@ == (code, mods@),
    {
        Desc { code, mods }
    }

    /// A copy of the descriptor.
    pub fn duplicate(&self) -> (r: Desc)
        ensures
            r@ == self@,
    {
        Desc { code: self.code, mods: self.mods.clone() }
    }
}

/// The identifier of the hotkey made of key `code` and modifiers `mods`.
pub open spec fn descriptor_id(code: KeyCode, mods: Seq<Mod>) -> u32 {
    hotkey_id(mods_mask(mods), key_position(code))
}

/// The identifier of the hotkey made of `code` and `mods`: a function of the
/// key and of the set of modifiers alone.
pub fn get_hotkey_id(code: KeyCode, mods: Vec<Mod>) -> (r: u32)
    ensures
        r == descriptor_id(code, mods@),
{
    let bits = native_modifiers(&mods);
    let mask = union_bits(&bits);
    proof {
        lemma_bits_union_of_mods(mods@);
    }
    new_hotkey(mask, code.global_hotkeys()).id
}

/// Two descriptors with the same key and the same set of modifiers, listed in
/// any order and with any repetition, have the same identifier.
pub proof fn lemma_same_descriptor_same_id(code: KeyCode, a: Seq<Mod>, b: Seq<Mod>)
    requires
        a.to_set() == b.to_set(),
    ensures
        descriptor_id(code, a) == descriptor_id(code, b),
{
    lemma_mods_mask_of_set(a, b);
}

/// The native hotkey built from a descriptor's native values, the union of its
/// modifier bits and its key's native code, has the descriptor's identifier.
pub proof fn lemma_native_hotkey_has_descriptor_id(code: KeyCode, mods: Seq<Mod>)
    ensures
        hotkey_id(bits_union(mods_bits(mods)), code_discriminant(native_code(code))) == descriptor_id(
            code,
            mods,
        ),
{
    lemma_bits_union_of_mods(mods);
}

/// Whether a hotkey was pressed or released.
#[derive(Clone, Copy, Debug, PartialEq, Eq, Structural)]
pub enum EventType {
    Pressed,
    Released,
}

/// The event type that a native hotkey state reports.
pub open spec fn phase_of(state: HotKeyState) -> EventType {
    match state {
        HotKeyState::Pressed => EventType::Pressed,
        HotKeyState::Released => EventType::Released,
    }
}

/// The event type that a native hotkey state reports.
pub fn event_type_of(state: HotKeyState) -> (r: EventType)
    ensures
        r == phase_of(state),
{
    match state {
        HotKeyState::Pressed => EventType::Pressed,
        HotKeyState::Released => EventType::Released,
    }
}

/// A hotkey event resolved to the descriptor of its hotkey.
#[derive(Clone, Debug)]
pub struct Event {
    pub id: u32,
    pub code: KeyCode,
    pub mods: Vec<Mod>,
    pub event_type: EventType,
}

impl View for Event {
    type V = (u32, KeyCode, Seq<Mod>, EventType);

    open spec fn view(&self) -> (u32, KeyCode, Seq<Mod>, EventType) {
        (self.id, self.code, self.mods@, self.event_type)
    }
}

} // verus!
