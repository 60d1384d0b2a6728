//! The manager that forwards registrations to the native hotkey subsystem,
//! and the decisions of the loop thread that serializes them where the native
//! subsystem is bound to the thread that created it.

use crate::events::Response;
use crate::keys::code_discriminant;
use crate::mods::{bits_union, union_bits};
use crate::native::{hotkey_id, new_hotkey};
use global_hotkey::hotkey::{Code, HotKey};
use global_hotkey::GlobalHotKeyManager;
use vstd::prelude::*;

verus! {

/// The native hotkey made of the union of modifier bits `mods` and key `key`.
pub fn hotkey_for(mods: &Vec<u32>, key: Code) -> (r: HotKey)
    ensures
        r.key == key,
        r.id == hotkey_id(bits_union(mods@), code_discriminant(key)),
{
    new_hotkey(union_bits(mods), key)
}

/// Owns the native hotkey subsystem and calls it on the caller's thread.
pub struct Manager {
    manager: GlobalHotKeyManager,
}

/// A command for the loop thread.
pub enum Command {
    Register(HotKey),
    Unregister(HotKey),
    Exit,
}

impl Manager {
    /// Starts the native hotkey subsystem; `None` when it cannot start.
    pub fn new() -> (r: Option<Manager>) {
        Manager::from_native(GlobalHotKeyManager::new())
    }

    /// The manager over a native subsystem that started, or `None` when
    /// starting it failed.
    pub fn from_native(result: Result<GlobalHotKeyManager, global_hotkey::Error>) -> (r: Option<
        Manager,
    >)
        ensures
            r is Some <==> result is Ok,
    {
        match result {
            Ok(manager) => Some(Manager { manager }),
            Err(_) => None,
        }
    }

    /// Registers the hotkey made of `mods` and `key`. The identifier depends
    /// on the hotkey alone; whether the registration succeeds is the native
    /// subsystem's answer, which is not retried.
    pub fn register(&self, mods: Vec<u32>, key: Code) -> (r: (HotKey, Response))
        ensures
            r.0.key == key,
            r.0.id == hotkey_id(bits_union(mods@), code_discriminant(key)),
            r.1.hotkey_id() == r.0.id,
            r.1.is_registration(),
    {
        let hotkey = hotkey_for(&mods, key);
        let response = self.execute_register(hotkey);
        (hotkey, response)
    }

    /// Unregisters the hotkey made of `mods` and `key`; the native subsystem
    /// answers whether it succeeded.
    pub fn unregister(&self, mods: Vec<u32>, key: Code) -> (r: (HotKey, Response))
        ensures
            r.0.key == key,
            r.0.id == hotkey_id(bits_union(mods@), code_discriminant(key)),
            r.1.hotkey_id() == r.0.id,
            !r.1.is_registration(),
    {
        let hotkey = hotkey_for(&mods, key);
        let response = self.execute_unregister(hotkey);
        (hotkey, response)
    }

    fn execute_register(&self, hotkey: HotKey) -> (r: Response)
        ensures
            r.hotkey_id() == hotkey.id,
            r.is_registration(),
    {
        let result = self.manager.register(hotkey);
        Response::registered(hotkey.id, result)
    }

    fn execute_unregister(&self, hotkey: HotKey) -> (r: Response)
        ensures
            r.hotkey_id() == hotkey.id,
            !r.is_registration(),
    {
        let result = self.manager.unregister(hotkey);
        Response::unregistered(hotkey.id, result)
    }

    /// Carries out one command of the loop thread: the outcome of a
    /// registration or unregistration, or `None` for `Exit`, after which the
    /// loop stops and runs no further command.
    pub fn serve(&self, command: Command) -> (r: Option<Response>)
        ensures
            match command {
                Command::Register(h) => r matches Some(resp) && resp.is_registration()
                    && resp.hotkey_id() == h.id,
                Command::Unregister(h) => r matches Some(resp) && !resp.is_registration()
                    && resp.hotkey_id() == h.id,
                Command::Exit => r is None,
            },
    {
        match command {
            Command::Register(hotkey) => Some(self.execute_register(hotkey)),
            Command::Unregister(hotkey) => Some(self.execute_unregister(hotkey)),
            Command::Exit => None,
        }
    }
}

/// What the loop thread's blocking wait for the next platform message
/// returned.
#[derive(Clone, Copy, Debug, PartialEq, Eq, Structural)]
pub enum PumpMessage {
    /// The message queue ended or failed.
    Closed,
    /// The wake notification that announces a queued command.
    Wake,
    /// Any other platform message.
    Other,
}

/// What the loop thread does after a platform message.
#[derive(Clone, Copy, Debug, PartialEq, Eq, Structural)]
pub enum PumpStep {
    /// Leave the loop.
    Stop,
    /// Take one command from the command queue and serve it.
    Serve,
    /// Keep pumping.
    Continue,
}

/// The loop thread's decision: it serves a command only on the wake
/// notification, keeps pumping every other message, and stops when the
/// message queue ends.
pub fn pump_step(message: PumpMessage) -> (r: PumpStep)
    ensures
        r == match message {
            PumpMessage::Closed => PumpStep::Stop,
            PumpMessage::Wake => PumpStep::Serve,
            PumpMessage::Other => PumpStep::Continue,
        },
{
    match message {
        PumpMessage::Closed => PumpStep::Stop,
        PumpMessage::Wake => PumpStep::Serve,
        PumpMessage::Other => PumpStep::Continue,
    }
}

} // verus!
