//! Assertion catalog: declared expectations and their per-site entries.

use vstd::prelude::*;

use crate::dispatch::{emit, Dispatch, DispatchSlot, Event};

verus! {

/// The declared reliability contract of an assertion call site.
#[derive(Debug, Copy, Clone, PartialEq, Eq)]
pub enum Expectation {
    Always,
    AlwaysOrUnreachable,
    Sometimes,
    Reachable,
    Unreachable,
}

/// What `Expectation::check` returns: whether an observed outcome is
/// acceptable to a synchronous, local consumer.
pub open spec fn spec_check(e: Expectation, condition: bool) -> bool {
    match e {
        Expectation::Always => condition,
        Expectation::AlwaysOrUnreachable => condition,
        Expectation::Sometimes => true,
        Expectation::Reachable => true,
        Expectation::Unreachable => false,
    }
}

/// Whether the external consumer must observe at least one hit of an entry
/// with this expectation over the whole run.
pub open spec fn spec_must_hit(e: Expectation) -> bool {
    match e {
        Expectation::Always => true,
        Expectation::AlwaysOrUnreachable => false,
        Expectation::Sometimes => true,
        Expectation::Reachable => true,
        Expectation::Unreachable => false,
    }
}

impl Expectation {
    /// Decides whether an outcome is acceptable right now: `Always` and
    /// `AlwaysOrUnreachable` are violated by a false condition, `Sometimes`
    /// and `Reachable` are never a local violation, and `Unreachable` always
    /// is one.
    pub fn check(self, condition: bool) -> (r: bool)
        ensures
            r == spec_check(self, condition),
    {
        match self {
            Expectation::Always => condition,
            Expectation::AlwaysOrUnreachable => condition,
            Expectation::Sometimes => true,
            Expectation::Reachable => true,
            Expectation::Unreachable => false,
        }
    }

    /// Derives the `must_hit` field of the event schema: true exactly for
    /// `Always`, `Sometimes` and `Reachable`.
    pub fn must_hit(self) -> (r: bool)
        ensures
            r == spec_must_hit(self),
    {
        match self {
            Expectation::Always => true,
            Expectation::AlwaysOrUnreachable => false,
            Expectation::Sometimes => true,
            Expectation::Reachable => true,
            Expectation::Unreachable => false,
        }
    }
}

/// A call site's position in the source, supplied by the caller as immutable
/// metadata when the entry is declared.
pub struct SourceLocation {
    pub file: String,
    pub line: u32,
    pub column: u32,
}

impl Clone for SourceLocation {
    fn clone(&self) -> (r: Self)
        ensures
            r == *self,
    {
        SourceLocation { file: self.file.clone(), line: self.line, column: self.column }
    }
}

/// The immutable identity of a catalog entry: fixed at creation, never
/// changed, and carried inside the events that describe the entry.
pub struct EntryIdentity {
    /// The declared contract of this call site.
    pub expectation: Expectation,
    /// The human-readable, unique id of this entry.
    pub property: String,
    /// Where the entry was declared.
    pub location: SourceLocation,
    /// The declaring module path.
    pub module: String,
    /// The fully-qualified name of the enclosing function.
    pub function: String,
}

impl Clone for EntryIdentity {
    fn clone(&self) -> (r: Self)
        ensures
            r == *self,
    {
        EntryIdentity {
            expectation: self.expectation,
            property: self.property.clone(),
            location: self.location.clone(),
            module: self.module.clone(),
            function: self.function.clone(),
        }
    }
}

/// One assertion call site: immutable identity plus the two outcome counters.
pub struct CatalogEntry {
    identity: EntryIdentity,
    pass_count: u64,
    fail_count: u64,
}

/// The abstract state of a catalog entry.
pub struct CatalogEntryState {
    /// The entry's immutable identity.
    pub identity: EntryIdentity,
    /// How many times the entry has been evaluated with a true condition.
    pub pass_count: u64,
    /// How many times the entry has been evaluated with a false condition.
    pub fail_count: u64,
}

impl View for CatalogEntry {
    type V = CatalogEntryState;

    closed spec fn view(&self) -> CatalogEntryState {
        CatalogEntryState {
            identity: self.identity,
            pass_count: self.pass_count,
            fail_count: self.fail_count,
        }
    }
}

/// Whether an evaluation of an entry in this state forwards an event: only
/// the first observation of each outcome class (pass, or fail) does.
pub open spec fn emit_forwards(s: CatalogEntryState, condition: bool) -> bool {
    if condition {
        s.pass_count == 0
    } else {
        s.fail_count == 0
    }
}

/// The entry state after one evaluation: the counter of the observed outcome
/// class advances by one, everything else is unchanged.
pub open spec fn emit_step(s: CatalogEntryState, condition: bool) -> CatalogEntryState
    recommends
        condition ==> s.pass_count < u64::MAX,
        !condition ==> s.fail_count < u64::MAX,
{
    if condition {
        CatalogEntryState { pass_count: (s.pass_count + 1) as u64, ..s }
    } else {
        CatalogEntryState { fail_count: (s.fail_count + 1) as u64, ..s }
    }
}

impl CatalogEntry {
    /// A fresh entry with the given identity and both counters at zero.
    pub fn new(
        expectation: Expectation,
        property: String,
        location: SourceLocation,
        module: String,
        function: String,
    ) -> (entry: Self)
        ensures
            entry@.identity == (EntryIdentity { expectation, property, location, module, function }),
            entry@.pass_count == 0,
            entry@.fail_count == 0,
    {
        CatalogEntry {
            identity: EntryIdentity { expectation, property, location, module, function },
            pass_count: 0,
            fail_count: 0,
        }
    }

    /// Records one evaluation of this call site and forwards an `EmitEntry`
    /// event exactly when this is the first time the observed outcome class
    /// (pass, or fail) occurs for this entry. The counters keep advancing
    /// either way, so a hot site keeps full counts while the event volume per
    /// entry is bounded by two.
    pub fn emit<D: Dispatch>(
        &mut self,
        slot: &mut DispatchSlot<D>,
        condition: bool,
        details: serde_json::Value,
    )
        requires
            condition ==> old(self)@.pass_count < u64::MAX,
            !condition ==> old(self)@.fail_count < u64::MAX,
        ensures
            final(self)@ == emit_step(old(self)@, condition),
            emit_forwards(old(self)@, condition) ==> final(slot).events() == old(
                slot,
            ).events().push(
                (Event::EmitEntry { entry: old(self)@.identity, condition, details }),
            ),
            !emit_forwards(old(self)@, condition) ==> final(slot).events() == old(slot).events(),
            final(slot).is_set() == old(slot).is_set(),
    {
        let count = if condition {
            let prior = self.pass_count;
            self.pass_count = self.pass_count + 1;
            prior
        } else {
            let prior = self.fail_count;
            self.fail_count = self.fail_count + 1;
            prior
        };
        if count == 0 {
            emit(slot, Event::EmitEntry { entry: self.identity.clone(), condition, details });
        }
    }

    /// The declared contract of this call site.
    pub fn expectation(&self) -> (r: Expectation)
        ensures
            r == self@.identity.expectation,
    {
        self.identity.expectation
    }

    /// The human-readable, unique id of this entry.
    pub fn property(&self) -> (r: &String)
        ensures
            r == self@.identity.property,
    {
        &self.identity.property
    }

    /// Where the entry was declared.
    pub fn location(&self) -> (r: &SourceLocation)
        ensures
            r == self@.identity.location,
    {
        &self.identity.location
    }

    /// The declaring module path.
    pub fn module(&self) -> (r: &String)
        ensures
            r == self@.identity.module,
    {
        &self.identity.module
    }

    /// The fully-qualified name of the enclosing function.
    pub fn function(&self) -> (r: &String)
        ensures
            r == self@.identity.function,
    {
        &self.identity.function
    }

    /// Reads the pass counter.
    pub fn pass_count(&self) -> (r: u64)
        ensures
            r == self@.pass_count,
    {
        self.pass_count
    }

    /// Reads the fail counter.
    pub fn fail_count(&self) -> (r: u64)
        ensures
            r == self@.fail_count,
    {
        self.fail_count
    }
}

/// Law: emission is edge-triggered per outcome class. From a state that has
/// not yet observed the given outcome, the first evaluation with that outcome
/// forwards an event and leaves its counter at one or more; a second
/// evaluation with the same outcome forwards no further event, while the
/// counter still advances to two or more.
pub proof fn lemma_emit_edge_triggered(s: CatalogEntryState, condition: bool)
    requires
        condition ==> s.pass_count == 0,
        !condition ==> s.fail_count == 0,
    ensures
        emit_forwards(s, condition),
        condition ==> emit_step(s, condition).pass_count >= 1,
        !condition ==> emit_step(s, condition).fail_count >= 1,
        !emit_forwards(emit_step(s, condition), condition),
        condition ==> emit_step(emit_step(s, condition), condition).pass_count >= 2,
        !condition ==> emit_step(emit_step(s, condition), condition).fail_count >= 2,
{
}

/// The `RegisterEntry` events that announce a catalog, in catalog order.
pub open spec fn register_events(entries: Seq<CatalogEntry>) -> Seq<Event> {
    Seq::new(entries.len(), |i: int| Event::RegisterEntry { entry: entries[i]@.identity })
}

/// Announces every entry of the catalog to the dispatcher, each with one
/// `RegisterEntry` event, in order. Run once at instrumentation-init time, so
/// the consumer learns the full universe of expected properties before any
/// outcome arrives.
pub fn init_catalog<D: Dispatch>(slot: &mut DispatchSlot<D>, entries: &Vec<CatalogEntry>)
    ensures
        final(slot).events() == old(slot).events() + register_events(entries@),
        final(slot).is_set() == old(slot).is_set(),
{
    let n = entries.len();
    let mut i: usize = 0;
    while i < n
        invariant
            i <= n,
            n == entries@.len(),
            slot.events() == old(slot).events() + register_events(entries@.take(i as int)),
            slot.is_set() == old(slot).is_set(),
        decreases n - i,
    {
        emit(slot, Event::RegisterEntry { entry: entries[i].identity.clone() });
        proof {
            assert(register_events(entries@.take(i + 1)) =~= register_events(
                entries@.take(i as int),
            ).push(Event::RegisterEntry { entry: entries@[i as int]@.identity }));
            assert(old(slot).events() + register_events(entries@.take(i + 1)) =~= (old(
                slot,
            ).events() + register_events(entries@.take(i as int))).push(
                Event::RegisterEntry { entry: entries@[i as int]@.identity },
            ));
        }
        i = i + 1;
    }
    proof {
        assert(entries@.take(n as int) =~= entries@);
    }
}

} // verus!
