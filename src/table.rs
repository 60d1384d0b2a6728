//! The registration table, which maps hotkey identifiers back to the
//! descriptors that produced them, and the resolution of native notifications
//! through it.

use crate::code::{event_type_of, phase_of, Desc, Event, EventType};
use crate::events::Response;
use crate::keys::KeyCode;
use crate::mods::Mod;
use global_hotkey::{GlobalHotKeyEvent, HotKeyState};
use std::collections::HashMap;
use vstd::prelude::*;

verus! {

/// The model of a descriptor: its key and its modifiers.
pub type DescModel = (KeyCode, Seq<Mod>);

/// The model of a resolved event: identifier, key, modifiers, event type.
pub type EventModel = (u32, KeyCode, Seq<Mod>, EventType);

/// Identifiers of the registered hotkeys, each with the descriptor that
/// produced it. Identifiers are unique keys; entries have no order.
pub struct HotkeyTable {
    entries: HashMap<u32, Desc>,
}

impl View for HotkeyTable {
    type V = Map<u32, DescModel>;

    closed spec fn view(&self) -> Map<u32, DescModel> {
        self.entries@.map_values(|d: Desc| d@)
    }
}

/// The event that a notification for hotkey `id` in state `state` resolves
/// to in table `t`: nothing when `id` has no entry.
pub open spec fn resolved(t: Map<u32, DescModel>, id: u32, state: HotKeyState) -> Option<EventModel> {
    if t.contains_key(id) {
        Some((id, t[id].0, t[id].1, phase_of(state)))
    } else {
        None
    }
}

/// The model of an optional event.
pub open spec fn event_model(e: Option<Event>) -> Option<EventModel> {
    match e {
        Some(e) => Some(e@),
        None => None,
    }
}

/// The table after the outcome `response` of an operation on descriptor
/// `desc`: a successful registration adds the entry, a successful
/// unregistration removes it, and a failure changes nothing.
pub open spec fn applied(t: Map<u32, DescModel>, response: Response, desc: DescModel) -> Map<u32, DescModel> {
    match response {
        Response::OkRegister { id } => t.insert(id, desc),
        Response::OkUnregister { id } => t.remove(id),
        _ => t,
    }
}

impl HotkeyTable {
    /// An empty table.
    pub fn new() -> (r: HotkeyTable)
        ensures
            r@ == Map::<u32, DescModel>::empty(),
    {
        let r = HotkeyTable { entries: HashMap::new() };
        assert(r@ =~= Map::<u32, DescModel>::empty());
        r
    }

    /// Records that hotkey `id` was produced by `desc`.
    pub fn insert(&mut self, id: u32, desc: Desc)
        ensures
            final(self)@ == old(self)@.insert(id, desc@),
    {
        let ghost d = desc@;
        self.entries.insert(id, desc);
        assert(self@ =~= old(self)@.insert(id, d));
    }

    /// Forgets hotkey `id`, handing back its descriptor if it had one.
    pub fn remove(&mut self, id: u32) -> (r: Option<Desc>)
        ensures
            final(self)@ == old(self)@.remove(id),
            r is Some <==> old(self)@.contains_key(id),
            r matches Some(d) ==> d@ == old(self)@[id],
    {
        let r = self.entries.remove(&id);
        assert(self@ =~= old(self)@.remove(id));
        r
    }

    /// A copy of the descriptor of hotkey `id`, if it has one.
    pub fn lookup(&self, id: u32) -> (r: Option<Desc>)
        ensures
            r is Some <==> self@.contains_key(id),
            r matches Some(d) ==> d@ == self@[id],
    {
        match self.entries.get(&id) {
            Some(d) => Some(d.duplicate()),
            None => None,
        }
    }

    /// Resolves a native notification: the event of its hotkey's descriptor,
    /// or `None` when the identifier has no entry (the hotkey was
    /// unregistered meanwhile). The table is looked up once.
    pub fn resolve(&self, event: GlobalHotKeyEvent) -> (r: Option<Event>)
        ensures
            event_model(r) == resolved(self@, event.id, event.state),
    {
        match self.lookup(event.id) {
            Some(desc) => Some(
                Event { id: event.id, code: desc.code, mods: desc.mods, event_type: event_type_of(event.state) },
            ),
            None => None,
        }
    }

    /// Brings the table in line with the outcome of an operation on `desc`.
    pub fn apply(&mut self, response: &Response, desc: Desc)
        ensures
            final(self)@ == applied(old(self)@, *response, desc@),
    {
        match response {
            Response::OkRegister { id } => self.insert(*id, desc),
            Response::OkUnregister { id } => {
                self.remove(*id);
            },
            _ => {},
        }
    }
}

/// Once a successful registration of `desc` under `id` is applied, a
/// notification for `id` resolves to `desc`; once a successful
/// unregistration of `id` is applied, a notification for `id` resolves to
/// nothing.
pub proof fn lemma_resolve_after_outcome(
    t: Map<u32, DescModel>,
    id: u32,
    desc: DescModel,
    state: HotKeyState,
)
    ensures
        resolved(applied(t, Response::OkRegister { id }, desc), id, state) == Some(
            (id, desc.0, desc.1, phase_of(state)),
        ),
        resolved(applied(t, Response::OkUnregister { id }, desc), id, state) is None,
{
}

/// The table after the outcomes `ops`, each with the descriptor it concerned,
/// are applied one after another.
pub open spec fn applied_all(t: Map<u32, DescModel>, ops: Seq<(Response, DescModel)>) -> Map<
    u32,
    DescModel,
>
    decreases ops.len(),
{
    if ops.len() == 0 {
        t
    } else {
        applied(applied_all(t, ops.drop_last()), ops.last().0, ops.last().1)
    }
}

/// The position in `ops` of the last successful operation on hotkey `id`.
pub open spec fn last_success_on(ops: Seq<(Response, DescModel)>, id: u32) -> Option<int>
    decreases ops.len(),
{
    if ops.len() == 0 {
        None
    } else if ops.last().0.succeeded() && ops.last().0.hotkey_id() == id {
        Some(ops.len() - 1)
    } else {
        last_success_on(ops.drop_last(), id)
    }
}

/// However many operations are applied, in whatever order the lock lets
/// them through, the table holds exactly the net registrations: a hotkey has
/// an entry when the last successful operation on it was a registration,
/// with that registration's descriptor; it has none when that operation was
/// an unregistration; and with no successful operation on it, it keeps what
/// it had.
pub proof fn lemma_net_registrations(t: Map<u32, DescModel>, ops: Seq<(Response, DescModel)>, id: u32)
    ensures
        match last_success_on(ops, id) {
            Some(i) => {
                &&& 0 <= i < ops.len()
                &&& applied_all(t, ops).contains_key(id) <==> ops[i].0 is OkRegister
                &&& ops[i].0 is OkRegister ==> applied_all(t, ops)[id] == ops[i].1
            },
            None => {
                &&& applied_all(t, ops).contains_key(id) == t.contains_key(id)
                &&& t.contains_key(id) ==> applied_all(t, ops)[id] == t[id]
            },
        },
    decreases ops.len(),
{
    if ops.len() > 0 {
        lemma_net_registrations(t, ops.drop_last(), id);
        if let Some(i) = last_success_on(ops.drop_last(), id) {
            assert(ops.drop_last()[i] == ops[i]);
        }
    }
}

} // verus!
