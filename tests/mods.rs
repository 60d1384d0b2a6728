use global_hotkey::hotkey::Modifiers;
use hotk::mods::{mods_from_global_hotkeys, native_modifiers, union_bits};
use hotk::{mod_keys, Mod};

const ALL: [Mod; 14] = [
    Mod::Control,
    Mod::Alt,
    Mod::AltGraph,
    Mod::CapsLock,
    Mod::Fn,
    Mod::FnLock,
    Mod::Meta,
    Mod::NumLock,
    Mod::ScrollLock,
    Mod::Symbol,
    Mod::SymbolLock,
    Mod::Hyper,
    Mod::Shift,
    Mod::Super,
];

#[test]
fn mod_bits_match_native_flags() {
    let native = [
        Modifiers::CONTROL,
        Modifiers::ALT,
        Modifiers::ALT_GRAPH,
        Modifiers::CAPS_LOCK,
        Modifiers::FN,
        Modifiers::FN_LOCK,
        Modifiers::META,
        Modifiers::NUM_LOCK,
        Modifiers::SCROLL_LOCK,
        Modifiers::SYMBOL,
        Modifiers::SYMBOL_LOCK,
        Modifiers::HYPER,
        Modifiers::SHIFT,
        Modifiers::SUPER,
    ];
    for (m, n) in ALL.iter().zip(native.iter()) {
        assert_eq!(m.global_hotkeys(), n.bits());
        assert_eq!(Mod::from_global_hotkeys(n.bits()), Some(*m));
    }
}

#[test]
fn mod_single_decode_rejects_other_masks() {
    assert_eq!(Mod::from_global_hotkeys(0), None);
    assert_eq!(Mod::from_global_hotkeys(0x8 | 0x200), None);
    assert_eq!(Mod::from_global_hotkeys(0x4000), None);
}

#[test]
fn mod_set_round_trip() {
    let mods = vec![Mod::Shift, Mod::Control, Mod::Shift, Mod::Hyper];
    let mask = union_bits(&native_modifiers(&mods));
    assert_eq!(mask, 0x200 | 0x8 | 0x1000);
    let decoded = mods_from_global_hotkeys(mask);
    assert_eq!(decoded, vec![Mod::Control, Mod::Shift, Mod::Hyper]);
    assert_eq!(mods_from_global_hotkeys(0), vec![]);
    let all = union_bits(&native_modifiers(&ALL.to_vec()));
    assert_eq!(all, 0x3fff);
    assert_eq!(mods_from_global_hotkeys(all).len(), 14);
}

#[test]
fn mod_keys_lists_all_in_order() {
    let names = mod_keys();
    assert_eq!(names.len(), 14);
    for (m, name) in ALL.iter().zip(names.iter()) {
        assert_eq!(m.as_str(), name);
    }
    assert_eq!(names[0], "Control");
    assert_eq!(names[13], "Super");
}
