use global_hotkey::hotkey::{Code, HotKey, Modifiers};
use hotk::manager::{hotkey_for, pump_step};
use hotk::{Command, Manager, Mod, PumpMessage, PumpStep, Subscription};

#[test]
fn hotkey_for_unions_bits() {
    let bits = vec![Mod::Control.global_hotkeys(), Mod::Shift.global_hotkeys()];
    let hotkey = hotkey_for(&bits, Code::KeyK);
    let expected = HotKey::new(Some(Modifiers::CONTROL | Modifiers::SHIFT), Code::KeyK);
    assert_eq!(hotkey.id, expected.id);
    assert_eq!(hotkey.key, Code::KeyK);
}

#[test]
fn pump_serves_only_on_wake() {
    assert_eq!(pump_step(PumpMessage::Wake), PumpStep::Serve);
    assert_eq!(pump_step(PumpMessage::Other), PumpStep::Continue);
    assert_eq!(pump_step(PumpMessage::Closed), PumpStep::Stop);
}

#[test]
fn manager_reports_identifier_of_hotkey() {
    if let Some(manager) = Manager::new() {
        let bits = vec![Mod::Control.global_hotkeys()];
        let (hotkey, response) = manager.register(bits.clone(), Code::KeyA);
        assert_eq!(hotkey.id, HotKey::new(Some(Modifiers::CONTROL), Code::KeyA).id);
        assert_eq!(response.to_napi().id, hotkey.id);
        let (again, response) = manager.unregister(bits, Code::KeyA);
        assert_eq!(again.id, hotkey.id);
        assert_eq!(response.to_napi().id, hotkey.id);
        assert!(manager.serve(Command::Exit).is_none());
        let served = manager.serve(Command::Register(hotkey)).unwrap();
        assert_eq!(served.to_napi().id, hotkey.id);
    }
}

#[test]
fn subscription_holds_one_subscriber() {
    let mut slot: Subscription<u32> = Subscription::new();
    assert!(!slot.is_subscribed());
    assert!(slot.install(1));
    assert!(!slot.install(2));
    assert_eq!(slot.current(), Some(&1));
    assert_eq!(slot.detach(), Some(1));
    assert_eq!(slot.detach(), None);
    assert!(slot.install(3));
    assert_eq!(slot.current(), Some(&3));
}
