//! The pluggable output boundary: events, the `Dispatch` trait and the
//! process-wide write-once dispatcher slot.

pub mod noop;

use vstd::prelude::*;

use crate::catalog::EntryIdentity;

verus! {

/// `serde_json::Value` carries the arbitrary structured payload of an event.
/// The core never looks inside one; it is handed through to the sink.
#[verifier::external_type_specification]
#[verifier::external_body]
pub struct ExValue(serde_json::Value);

/// Events that can be emitted through the dispatcher.
pub enum Event {
    /// Announces a catalog entry to the consumer before any outcome arrives.
    RegisterEntry { entry: EntryIdentity },
    /// Reports the first observation of an outcome class of an entry.
    EmitEntry { entry: EntryIdentity, condition: bool, details: serde_json::Value },
    /// Signals that application setup is complete.
    SetupComplete { details: serde_json::Value },
    /// A custom user-defined event.
    Custom { name: String, value: serde_json::Value },
}

/// Trait for event dispatchers: a sink for events and a source of randomness.
///
/// Implementors receive the events produced by the catalogs and provide the
/// random words used for fault decisions, so an external harness can record
/// or steer both.
pub trait Dispatch {
    /// Handles an incoming event.
    fn emit(&mut self, event: Event);
    /// Returns a random word for decision making.
    fn random(&mut self) -> u64;
}

/// Error returned when attempting to set a dispatcher that has already been
/// set.
#[derive(Debug)]
pub struct SetDispatchError;

/// The process-wide dispatcher cell: empty until a dispatcher is installed,
/// installed at most once, and behaving as a no-op sink while empty.
///
/// The ghost `log` records every event handed through the slot, in order,
/// whether or not a dispatcher was installed to receive it.
pub struct DispatchSlot<D> {
    inner: Option<D>,
    log: Ghost<Seq<Event>>,
}

impl<D> DispatchSlot<D> {
    /// The installed dispatcher, if any.
    pub closed spec fn spec_dispatcher(&self) -> Option<D> {
        self.inner
    }

    /// Every event forwarded through this slot so far, oldest first.
    pub closed spec fn events(&self) -> Seq<Event> {
        self.log@
    }

    /// Whether a dispatcher has been installed.
    pub open spec fn is_set(&self) -> bool {
        self.spec_dispatcher() is Some
    }

    /// An empty slot: no dispatcher installed, no event forwarded yet.
    pub fn new() -> (slot: Self)
        ensures
            !slot.is_set(),
            slot.events() == Seq::<Event>::empty(),
    {
        DispatchSlot { inner: None, log: Ghost(Seq::empty()) }
    }
}

/// Installs `dispatcher` into the slot. Fails, and leaves the slot exactly as
/// it was, if a dispatcher has already been installed: the slot is set at
/// most once per process.
pub fn set_dispatcher<D>(slot: &mut DispatchSlot<D>, dispatcher: D) -> (r: Result<
    (),
    SetDispatchError,
>)
    ensures
        !old(slot).is_set() ==> r is Ok && final(slot).spec_dispatcher() == Some(dispatcher),
        old(slot).is_set() ==> r is Err && final(slot).spec_dispatcher() == old(
            slot,
        ).spec_dispatcher(),
        final(slot).events() == old(slot).events(),
{
    if slot.inner.is_some() {
        Err(SetDispatchError)
    } else {
        slot.inner = Some(dispatcher);
        Ok(())
    }
}

/// Returns a reference to the installed dispatcher, or `None` while the slot
/// still runs on its implicit no-op behaviour.
pub fn dispatcher<D>(slot: &DispatchSlot<D>) -> (r: Option<&D>)
    ensures
        match r {
            Some(d) => slot.spec_dispatcher() == Some(*d),
            None => slot.spec_dispatcher() is None,
        },
{
    slot.inner.as_ref()
}

/// Relies on rand::random: returns a word from the thread-local generator;
/// nothing is promised of its value.
#[verifier::external_body]
pub(crate) fn default_random() -> u64 {
    rand::random()
}

/// Generates a random word using the installed dispatcher, or the process
/// default source while none is installed.
pub fn get_random<D: Dispatch>(slot: &mut DispatchSlot<D>) -> (r: u64)
    ensures
        final(slot).events() == old(slot).events(),
        final(slot).is_set() == old(slot).is_set(),
{
    match &mut slot.inner {
        Some(d) => d.random(),
        None => default_random(),
    }
}

/// Picks an element of `options` using a random word from the dispatcher:
/// `None` exactly when `options` is empty.
pub fn choose_random<'a, D: Dispatch, T>(slot: &mut DispatchSlot<D>, options: &'a [T]) -> (r:
    Option<&'a T>)
    ensures
        r is None <==> options@.len() == 0,
        r matches Some(v) ==> exists|i: int| 0 <= i < options@.len() && *v == options@[i],
        final(slot).events() == old(slot).events(),
        final(slot).is_set() == old(slot).is_set(),
{
    if options.len() == 0 {
        None
    } else {
        let word = get_random(slot);
        let idx = (word as usize) % options.len();
        Some(vstd::slice::slice_index_get(options, idx))
    }
}

/// Forwards an event: appends it to the slot's history and hands it to the
/// installed dispatcher, or discards it while none is installed.
pub fn emit<D: Dispatch>(slot: &mut DispatchSlot<D>, event: Event)
    ensures
        final(slot).events() == old(slot).events().push(event),
        final(slot).is_set() == old(slot).is_set(),
{
    slot.log = Ghost(slot.log@.push(event));
    match &mut slot.inner {
        Some(d) => d.emit(event),
        None => {},
    }
}

} // verus!
