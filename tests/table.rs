use global_hotkey::hotkey::{Code, HotKey, Modifiers};
use global_hotkey::{GlobalHotKeyEvent, HotKeyState};
use hotk::{get_hotkey_id, Desc, EventType, HotkeyTable, KeyCode, Mod, Response, ResponseCode};

fn pressed(id: u32) -> GlobalHotKeyEvent {
    GlobalHotKeyEvent { id, state: HotKeyState::Pressed }
}

#[test]
fn table_insert_lookup_remove() {
    let mut table = HotkeyTable::new();
    assert!(table.lookup(7).is_none());
    table.insert(7, Desc::new(KeyCode::KeyB, vec![Mod::Alt]));
    let d = table.lookup(7).unwrap();
    assert_eq!(d.code, KeyCode::KeyB);
    assert_eq!(d.mods, vec![Mod::Alt]);
    let removed = table.remove(7).unwrap();
    assert_eq!(removed.code, KeyCode::KeyB);
    assert!(table.lookup(7).is_none());
    assert!(table.remove(7).is_none());
}

#[test]
fn register_resolve_unregister_scenario() {
    let mut table = HotkeyTable::new();
    let id = get_hotkey_id(KeyCode::KeyA, vec![Mod::Control]);
    let registered = Response::registered(id, Ok(()));
    assert!(registered.to_napi().is_ok());
    assert_eq!(registered.to_napi().id, id);
    table.apply(&registered, Desc::new(KeyCode::KeyA, vec![Mod::Control]));

    let event = table.resolve(pressed(id)).expect("a registered hotkey resolves");
    assert_eq!(event.id, id);
    assert_eq!(event.code, KeyCode::KeyA);
    assert_eq!(event.mods, vec![Mod::Control]);
    assert_eq!(event.event_type, EventType::Pressed);

    let released = table
        .resolve(GlobalHotKeyEvent { id, state: HotKeyState::Released })
        .unwrap();
    assert_eq!(released.event_type, EventType::Released);

    let unregistered = Response::unregistered(id, Ok(()));
    assert!(unregistered.to_napi().is_ok());
    table.apply(&unregistered, Desc::new(KeyCode::KeyA, vec![Mod::Control]));
    assert!(table.resolve(pressed(id)).is_none());
}

#[test]
fn unknown_identifier_is_dropped() {
    let table = HotkeyTable::new();
    assert!(table.resolve(pressed(12345)).is_none());
}

#[test]
fn failed_outcome_leaves_table_unchanged() {
    let mut table = HotkeyTable::new();
    let id = get_hotkey_id(KeyCode::KeyA, vec![Mod::Control]);
    let hotkey = HotKey::new(Some(Modifiers::CONTROL), Code::KeyA);
    let failed = Response::registered(id, Err(global_hotkey::Error::AlreadyRegistered(hotkey)));
    let plain = failed.to_napi();
    assert!(!plain.is_ok());
    assert_eq!(plain.code, ResponseCode::Failure);
    assert_eq!(plain.id, id);
    assert!(plain.error.unwrap().starts_with("HotKey already registered"));
    table.apply(&failed, Desc::new(KeyCode::KeyA, vec![Mod::Control]));
    assert!(table.resolve(pressed(id)).is_none());

    table.insert(id, Desc::new(KeyCode::KeyA, vec![Mod::Control]));
    let failed_unregister =
        Response::unregistered(id, Err(global_hotkey::Error::FailedToUnRegister(hotkey)));
    assert!(!failed_unregister.to_napi().is_ok());
    table.apply(&failed_unregister, Desc::new(KeyCode::KeyA, vec![Mod::Control]));
    assert!(table.resolve(pressed(id)).is_some());
}

#[test]
fn registering_twice_gives_same_id() {
    let mut table = HotkeyTable::new();
    let first = get_hotkey_id(KeyCode::KeyA, vec![Mod::Control]);
    let second = get_hotkey_id(KeyCode::KeyA, vec![Mod::Control]);
    assert_eq!(first, second);
    let hotkey = HotKey::new(Some(Modifiers::CONTROL), Code::KeyA);
    table.apply(&Response::registered(first, Ok(())), Desc::new(KeyCode::KeyA, vec![Mod::Control]));
    let again = Response::registered(second, Err(global_hotkey::Error::AlreadyRegistered(hotkey)));
    assert_eq!(again.to_napi().id, first);
    table.apply(&again, Desc::new(KeyCode::KeyA, vec![Mod::Control]));
    assert_eq!(table.resolve(pressed(first)).unwrap().code, KeyCode::KeyA);
}

#[test]
fn net_registrations_after_interleaved_operations() {
    let mut table = HotkeyTable::new();
    let a = get_hotkey_id(KeyCode::KeyA, vec![Mod::Control]);
    let b = get_hotkey_id(KeyCode::KeyB, vec![Mod::Shift]);
    let c = get_hotkey_id(KeyCode::KeyC, vec![]);
    let desc = |k: KeyCode, m: Vec<Mod>| Desc::new(k, m);
    table.apply(&Response::registered(a, Ok(())), desc(KeyCode::KeyA, vec![Mod::Control]));
    table.apply(&Response::registered(b, Ok(())), desc(KeyCode::KeyB, vec![Mod::Shift]));
    table.apply(&Response::unregistered(a, Ok(())), desc(KeyCode::KeyA, vec![Mod::Control]));
    table.apply(&Response::registered(c, Ok(())), desc(KeyCode::KeyC, vec![]));
    table.apply(&Response::unregistered(c, Ok(())), desc(KeyCode::KeyC, vec![]));
    table.apply(&Response::registered(c, Ok(())), desc(KeyCode::KeyC, vec![]));
    assert!(table.lookup(a).is_none());
    assert_eq!(table.lookup(b).unwrap().code, KeyCode::KeyB);
    assert_eq!(table.lookup(c).unwrap().code, KeyCode::KeyC);
}

#[test]
fn error_outcome_carries_native_error_text() {
    let hotkey = HotKey::new(Some(Modifiers::SHIFT), Code::KeyZ);
    let native = global_hotkey::Error::AlreadyRegistered(hotkey);
    let text = native.to_string();
    let reg = Response::registered(hotkey.id, Err(native)).to_napi();
    assert_eq!(reg.code, ResponseCode::Failure);
    assert_eq!(reg.error, Some(text));
    let native = global_hotkey::Error::FailedToUnRegister(hotkey);
    let text = native.to_string();
    let unreg = Response::unregistered(hotkey.id, Err(native)).to_napi();
    assert_eq!(unreg.error, Some(text));
    assert_eq!(Response::registered(hotkey.id, Ok(())).to_napi().error, None);
}
