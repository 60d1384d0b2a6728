use global_hotkey::hotkey::{Code, HotKey, Modifiers};
use hotk::{get_hotkey_id, key_code_keys, key_code_to_human, KeyCode, Mod};
use std::str::FromStr;

#[test]
fn key_code_round_trip_samples() {
    let keys = [
        KeyCode::Backquote,
        KeyCode::KeyA,
        KeyCode::Digit0,
        KeyCode::F35,
        KeyCode::NumpadMemorySubtract,
        KeyCode::Unidentified,
        KeyCode::ZoomToggle,
    ];
    for k in keys {
        assert_eq!(KeyCode::from_global_hotkeys(k.global_hotkeys()), Some(k));
    }
}

#[test]
fn key_code_maps_to_native_code_of_same_name() {
    for name in key_code_keys() {
        let code = Code::from_str(&name).expect("every key name is a native code name");
        let key = KeyCode::from_global_hotkeys(code).expect("every native code has a key");
        assert_eq!(key.as_str(), name);
        assert_eq!(key.global_hotkeys(), code);
        assert_eq!(KeyCode::from_global_hotkeys(key.global_hotkeys()), Some(key));
    }
}

#[test]
fn key_code_keys_lists_all_in_order() {
    let names = key_code_keys();
    assert_eq!(names.len(), 215);
    assert_eq!(names[0], "Backquote");
    assert_eq!(names[19], "KeyA");
    assert_eq!(names[214], "ZoomToggle");
    assert_eq!(KeyCode::KeyA.as_str(), "KeyA");
    assert_eq!(KeyCode::F12.as_str(), "F12");
}

#[test]
fn key_code_to_human_labels() {
    assert_eq!(key_code_to_human(KeyCode::KeyA), Some("a".to_string()));
    assert_eq!(key_code_to_human(KeyCode::Digit7), Some("7".to_string()));
    assert_eq!(key_code_to_human(KeyCode::Quote), Some("\"".to_string()));
    assert_eq!(key_code_to_human(KeyCode::Backslash), Some("\\".to_string()));
    assert_eq!(key_code_to_human(KeyCode::F35), Some("f35".to_string()));
    assert_eq!(key_code_to_human(KeyCode::Enter), None);
    assert_eq!(key_code_to_human(KeyCode::ArrowUp), None);
}

#[test]
fn hotkey_id_exact_value() {
    // Control is bit 0x8 and KeyA the native code with discriminant 19.
    assert_eq!(get_hotkey_id(KeyCode::KeyA, vec![Mod::Control]), (0x8 << 16) | 19);
    assert_eq!(get_hotkey_id(KeyCode::Backquote, vec![]), 0);
    assert_eq!(
        get_hotkey_id(KeyCode::KeyA, vec![Mod::Control]),
        HotKey::new(Some(Modifiers::CONTROL), Code::KeyA).id
    );
    assert_eq!(
        get_hotkey_id(KeyCode::F5, vec![Mod::Shift, Mod::Alt]),
        HotKey::new(Some(Modifiers::SHIFT | Modifiers::ALT), Code::F5).id
    );
}

#[test]
fn hotkey_id_same_descriptor_same_id() {
    let a = get_hotkey_id(KeyCode::KeyA, vec![Mod::Control, Mod::Shift]);
    let b = get_hotkey_id(KeyCode::KeyA, vec![Mod::Shift, Mod::Control, Mod::Shift]);
    assert_eq!(a, b);
    assert_ne!(a, get_hotkey_id(KeyCode::KeyB, vec![Mod::Control, Mod::Shift]));
    assert_ne!(a, get_hotkey_id(KeyCode::KeyA, vec![Mod::Control]));
}

#[test]
fn hotkey_id_meta_counts_as_super() {
    assert_eq!(
        get_hotkey_id(KeyCode::KeyQ, vec![Mod::Meta]),
        get_hotkey_id(KeyCode::KeyQ, vec![Mod::Super])
    );
    assert_eq!(get_hotkey_id(KeyCode::KeyQ, vec![Mod::Meta]), (0x2000 << 16) | 35);
}

#[test]
fn hotkey_id_matches_native_for_every_key() {
    for name in key_code_keys() {
        let code = Code::from_str(&name).unwrap();
        let key = KeyCode::from_global_hotkeys(code).unwrap();
        assert_eq!(get_hotkey_id(key, vec![]), HotKey::new(None, code).id);
        assert_eq!(
            get_hotkey_id(key, vec![Mod::Alt, Mod::Super]),
            HotKey::new(Some(Modifiers::ALT | Modifiers::SUPER), code).id
        );
    }
}
