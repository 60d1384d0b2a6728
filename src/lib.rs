//! Process-wide global hotkeys: key and modifier identities, the table that
//! maps hotkey identifiers back to their descriptors, the bridge that turns
//! native notifications into resolved events, and the manager that forwards
//! registrations to the native hotkey subsystem.

pub mod code;
pub mod events;
pub mod keys;
pub mod manager;
pub mod mods;
pub mod native;
pub mod poll;
pub mod subscription;
pub mod table;

pub use code::{get_hotkey_id, Desc, Event, EventType};
pub use events::{HotkReponse, Response, ResponseCode};
pub use keys::{key_code_keys, key_code_to_human, KeyCode};
pub use manager::{Command, Manager, PumpMessage, PumpStep};
pub use mods::{mod_keys, Mod};
pub use poll::{EventQueue, PollStep};
pub use subscription::Subscription;
pub use table::HotkeyTable;
