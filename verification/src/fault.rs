//! Fault injection: named fault sites, the trip-decision algorithm, and the
//! powerloss mode register.

use vstd::prelude::*;

verus! {

/// A fault injection point that can be triggered during testing.
///
/// Faults can be enabled and disabled and can be forced to trigger a specific
/// number of times using the pending trips mechanism.
pub struct FaultEntry {
    /// The name of the fault, also serves as its catalog id.
    name: String,
    /// Whether or not this fault is enabled.
    enabled: bool,
    /// If this value is > 0, the next call to `trip` will return true and
    /// this value will be decremented.
    pending_trips: u32,
}

/// The abstract state of a fault entry.
pub struct FaultState {
    /// The name of the fault.
    pub name: Seq<char>,
    /// Whether the fault is enabled.
    pub enabled: bool,
    /// How many forced trips are pending.
    pub pending_trips: u32,
}

impl View for FaultEntry {
    type V = FaultState;

    closed spec fn view(&self) -> FaultState {
        FaultState {
            name: self.name@,
            enabled: self.enabled,
            pending_trips: self.pending_trips,
        }
    }
}

/// What one call to `trip` returns: false while disabled, true while forced
/// trips are pending, and otherwise the random decision drawn from `rand`.
pub open spec fn trip_outcome(s: FaultState, rand: u64) -> bool {
    if !s.enabled {
        false
    } else if s.pending_trips > 0 {
        true
    } else {
        rand % 2 == 0
    }
}

/// The fault state after one call to `trip`: a forced trip consumes one
/// pending trip; nothing else changes anything.
pub open spec fn trip_step(s: FaultState, rand: u64) -> FaultState {
    if s.enabled && s.pending_trips > 0 {
        FaultState { pending_trips: (s.pending_trips - 1) as u32, ..s }
    } else {
        s
    }
}

/// The fault state after a sequence of calls to `trip`, one per random word.
pub open spec fn trip_run(s: FaultState, rands: Seq<u64>) -> FaultState
    decreases rands.len(),
{
    if rands.len() == 0 {
        s
    } else {
        trip_run(trip_step(s, rands[0]), rands.drop_first())
    }
}

/// What a sequence of calls to `trip` returns, one outcome per random word.
pub open spec fn trip_outcomes(s: FaultState, rands: Seq<u64>) -> Seq<bool>
    decreases rands.len(),
{
    if rands.len() == 0 {
        Seq::empty()
    } else {
        seq![trip_outcome(s, rands[0])] + trip_outcomes(trip_step(s, rands[0]), rands.drop_first())
    }
}

impl FaultEntry {
    /// Creates a new fault entry with the given name: enabled, with no forced
    /// trips pending.
    pub fn new(name: String) -> (entry: Self)
        ensures
            entry@ == (FaultState { name: name@, enabled: true, pending_trips: 0 }),
    {
        FaultEntry { name, enabled: true, pending_trips: 0 }
    }

    /// Returns true when the fault should trip. `rand` is the random word
    /// that decides the outcome once no forced trip is pending; callers draw
    /// it from the dispatcher (`dispatch::get_random`) so that an external
    /// harness can replay or steer the decision.
    ///
    /// Disabled: returns false and changes nothing. Enabled with pending
    /// forced trips: consumes one and returns true. Enabled otherwise: the
    /// random decision, an even word meaning "trip".
    pub fn trip(&mut self, rand: u64) -> (r: bool)
        ensures
            final(self)@ == trip_step(old(self)@, rand),
            r == trip_outcome(old(self)@, rand),
            !old(self)@.enabled ==> r == false && final(self)@ == old(self)@,
            old(self)@.enabled && old(self)@.pending_trips > 0 ==> r == true && final(self)@.pending_trips
                == old(self)@.pending_trips - 1,
    {
        if self.enabled {
            if self.pending_trips > 0 {
                self.pending_trips = self.pending_trips - 1;
                true
            } else {
                rand % 2 == 0
            }
        } else {
            false
        }
    }

    /// Enables this fault, allowing it to trip.
    pub fn enable(&mut self)
        ensures
            final(self)@ == (FaultState { enabled: true, ..old(self)@ }),
    {
        self.enabled = true;
    }

    /// Disables this fault, preventing it from tripping. Takes effect for all
    /// subsequent calls to `trip`.
    pub fn disable(&mut self)
        ensures
            final(self)@ == (FaultState { enabled: false, ..old(self)@ }),
    {
        self.enabled = false;
    }

    /// Sets the number of pending forced trips. While the fault is enabled,
    /// the next `count` calls to `trip` will return true regardless of random
    /// chance; while it is disabled, the counter keeps its value, unconsumed,
    /// until the fault is re-enabled.
    pub fn set_pending(&mut self, count: u32)
        ensures
            final(self)@ == (FaultState { pending_trips: count, ..old(self)@ }),
    {
        self.pending_trips = count;
    }

    /// Returns the number of pending forced trips remaining.
    pub fn count_pending(&self) -> (r: u32)
        ensures
            r == self@.pending_trips,
    {
        self.pending_trips
    }

    /// The name of the fault.
    pub fn name(&self) -> (r: &String)
        ensures
            r@ == self@.name,
    {
        &self.name
    }
}

/// Computes the length of `trip_outcomes`: one outcome per random word.
proof fn lemma_trip_outcomes_len(s: FaultState, rands: Seq<u64>)
    ensures
        trip_outcomes(s, rands).len() == rands.len(),
    decreases rands.len(),
{
    if rands.len() > 0 {
        lemma_trip_outcomes_len(trip_step(s, rands[0]), rands.drop_first());
    }
}

/// Law: a disabled fault never trips: for any number of calls and any random
/// words, every outcome is false and the state — `pending_trips` included —
/// is unchanged.
pub proof fn lemma_disabled_never_trips(s: FaultState, rands: Seq<u64>)
    requires
        !s.enabled,
    ensures
        trip_outcomes(s, rands).len() == rands.len(),
        forall|i: int| 0 <= i < rands.len() ==> trip_outcomes(s, rands)[i] == false,
        trip_run(s, rands) == s,
    decreases rands.len(),
{
    lemma_trip_outcomes_len(s, rands);
    if rands.len() > 0 {
        assert(trip_step(s, rands[0]) == s);
        lemma_disabled_never_trips(s, rands.drop_first());
        assert forall|i: int| 0 <= i < rands.len() implies trip_outcomes(s, rands)[i] == false by {
            if i > 0 {
                assert(trip_outcomes(s, rands)[i] == trip_outcomes(s, rands.drop_first())[i - 1]);
            }
        }
    }
}

/// Law: with the fault enabled and `pending_trips` forced trips pending, each
/// of the first `pending_trips` calls to `trip` returns true and consumes one
/// pending trip, and the call after them falls through to the random decision
/// drawn from its word.
pub proof fn lemma_forced_trips(s: FaultState, rands: Seq<u64>)
    requires
        s.enabled,
        rands.len() == s.pending_trips + 1,
    ensures
        trip_outcomes(s, rands).len() == rands.len(),
        forall|i: int| 0 <= i < s.pending_trips ==> trip_outcomes(s, rands)[i] == true,
        forall|i: int|
            0 <= i <= s.pending_trips ==> trip_run(s, rands.take(i)).pending_trips
                == s.pending_trips - i,
        trip_outcomes(s, rands)[s.pending_trips as int] == (rands[s.pending_trips as int] % 2
            == 0),
    decreases s.pending_trips,
{
    lemma_trip_outcomes_len(s, rands);
    if s.pending_trips == 0 {
        assert(rands.take(0) =~= Seq::<u64>::empty());
        assert(trip_outcomes(s, rands)[0] == trip_outcome(s, rands[0]));
    } else {
        let s1 = trip_step(s, rands[0]);
        lemma_forced_trips(s1, rands.drop_first());
        assert forall|i: int| 0 <= i < s.pending_trips implies trip_outcomes(s, rands)[i]
            == true by {
            if i > 0 {
                assert(trip_outcomes(s, rands)[i] == trip_outcomes(s1, rands.drop_first())[i - 1]);
            }
        }
        assert forall|i: int| 0 <= i <= s.pending_trips implies trip_run(
            s,
            rands.take(i),
        ).pending_trips == s.pending_trips - i by {
            if i == 0 {
                assert(rands.take(0) =~= Seq::<u64>::empty());
            } else {
                assert(rands.take(i).drop_first() =~= rands.drop_first().take(i - 1));
                assert(rands.take(i)[0] == rands[0]);
                assert(trip_run(s, rands.take(i)) == trip_run(s1, rands.drop_first().take(i - 1)));
            }
        }
        assert(trip_outcomes(s, rands)[s.pending_trips as int] == trip_outcomes(
            s1,
            rands.drop_first(),
        )[s.pending_trips - 1]);
        assert(rands.drop_first()[s.pending_trips - 1] == rands[s.pending_trips as int]);
    }
}

/// Law: setting the forced-trip counter while the fault is disabled leaves
/// the counter unchanged in value — not consumed — over any number of calls
/// while disabled; once the fault is re-enabled, the forced trips resume.
pub proof fn lemma_set_pending_while_disabled(
    s: FaultState,
    count: u32,
    rands_disabled: Seq<u64>,
    rands_enabled: Seq<u64>,
)
    requires
        !s.enabled,
        rands_enabled.len() == count + 1,
    ensures
        ({
            let after_set = FaultState { pending_trips: count, ..s };
            let while_disabled = trip_run(after_set, rands_disabled);
            let re_enabled = FaultState { enabled: true, ..while_disabled };
            &&& trip_outcomes(after_set, rands_disabled).len() == rands_disabled.len()
            &&& forall|i: int|
                0 <= i < rands_disabled.len() ==> trip_outcomes(after_set, rands_disabled)[i]
                    == false
            &&& while_disabled.pending_trips == count
            &&& forall|i: int|
                0 <= i < count ==> trip_outcomes(re_enabled, rands_enabled)[i] == true
        }),
{
    let after_set = FaultState { pending_trips: count, ..s };
    lemma_disabled_never_trips(after_set, rands_disabled);
    let re_enabled = FaultState { enabled: true, ..trip_run(after_set, rands_disabled) };
    lemma_forced_trips(re_enabled, rands_enabled);
}

/// Whether no two fault entries share a name.
pub open spec fn fault_names_unique(faults: Seq<FaultEntry>) -> bool {
    forall|i: int, j: int|
        0 <= i < j < faults.len() ==> (#[trigger] faults[i]@.name) != (#[trigger] faults[j]@.name)
}

/// Error raised at initialization when two registered faults share a name.
pub struct DuplicateFaultError {
    /// The name that more than one fault entry carries.
    pub name: String,
}

/// Checks the registration-time invariant of the fault catalog: every fault
/// name is unique. A duplicate name is a fatal configuration error — two call
/// sites silently aliased onto one fault would corrupt trip accounting — so
/// initialization must not proceed when this returns an error.
pub fn init_faults(faults: &Vec<FaultEntry>) -> (r: Result<(), DuplicateFaultError>)
    ensures
        r is Ok <==> fault_names_unique(faults@),
        r matches Err(e) ==> exists|i: int, j: int|
            0 <= i < j < faults@.len() && faults@[i]@.name == faults@[j]@.name && e.name@
                == faults@[i]@.name,
{
    let n = faults.len();
    let mut i: usize = 0;
    while i < n
        invariant
            i <= n,
            n == faults@.len(),
            forall|a: int, b: int|
                0 <= a < b < n && a < i ==> (#[trigger] faults@[a]@.name) != (
                #[trigger] faults@[b]@.name),
        decreases n - i,
    {
        let mut j: usize = i + 1;
        while j < n
            invariant
                i < j <= n,
                n == faults@.len(),
                forall|b: int| i < b < j ==> (#[trigger] faults@[b]@.name) != faults@[i as int]@.name,
            decreases n - j,
        {
            if faults[i].name == faults[j].name {
                proof {
                    assert(faults@[i as int]@.name == faults@[j as int]@.name);
                    assert(!fault_names_unique(faults@));
                }
                return Err(DuplicateFaultError { name: faults[i].name.clone() });
            }
            j = j + 1;
        }
        i = i + 1;
    }
    Ok(())
}

/// Enables all registered faults. Must not be called while the whole
/// instrumentation subsystem is disabled.
pub fn enable_all(faults: &mut Vec<FaultEntry>)
    requires
        crate::ENABLED,
    ensures
        final(faults)@.len() == old(faults)@.len(),
        forall|i: int|
            0 <= i < old(faults)@.len() ==> (#[trigger] final(faults)@[i])@ == (FaultState {
                enabled: true,
                ..old(faults)@[i]@
            }),
{
    let n = faults.len();
    let mut i: usize = 0;
    while i < n
        invariant
            i <= n,
            n == faults@.len(),
            faults@.len() == old(faults)@.len(),
            forall|k: int|
                0 <= k < i ==> (#[trigger] faults@[k])@ == (FaultState {
                    enabled: true,
                    ..old(faults)@[k]@
                }),
            forall|k: int| i <= k < n ==> (#[trigger] faults@[k]) == old(faults)@[k],
        decreases n - i,
    {
        let entry = &mut faults[i];
        entry.enable();
        i = i + 1;
    }
}

/// Disables all registered faults.
pub fn disable_all(faults: &mut Vec<FaultEntry>)
    ensures
        final(faults)@.len() == old(faults)@.len(),
        forall|i: int|
            0 <= i < old(faults)@.len() ==> (#[trigger] final(faults)@[i])@ == (FaultState {
                enabled: false,
                ..old(faults)@[i]@
            }),
{
    let n = faults.len();
    let mut i: usize = 0;
    while i < n
        invariant
            i <= n,
            n == faults@.len(),
            faults@.len() == old(faults)@.len(),
            forall|k: int|
                0 <= k < i ==> (#[trigger] faults@[k])@ == (FaultState {
                    enabled: false,
                    ..old(faults)@[k]@
                }),
            forall|k: int| i <= k < n ==> (#[trigger] faults@[k]) == old(faults)@[k],
        decreases n - i,
    {
        let entry = &mut faults[i];
        entry.disable();
        i = i + 1;
    }
}

/// Looks up the position of a fault entry by its name: the first entry whose
/// name matches, or `None` if no fault with the given name exists (absence
/// does not create one).
pub fn get_fault_by_name(faults: &Vec<FaultEntry>, name: &str) -> (r: Option<usize>)
    ensures
        r matches Some(i) ==> 0 <= i < faults@.len() && faults@[i as int]@.name == name@ && (
        forall|k: int| 0 <= k < i ==> (#[trigger] faults@[k])@.name != name@),
        r is None ==> forall|k: int| 0 <= k < faults@.len() ==> (#[trigger] faults@[k])@.name != name@,
{
    let target: String = name.to_string();
    let n = faults.len();
    let mut i: usize = 0;
    while i < n
        invariant
            i <= n,
            n == faults@.len(),
            target@ == name@,
            forall|k: int| 0 <= k < i ==> (#[trigger] faults@[k])@.name != name@,
        decreases n - i,
    {
        if faults[i].name == target {
            return Some(i);
        }
        i = i + 1;
    }
    None
}

/// How the powerloss fault terminates the process: an immediate exit with the
/// given status code, or a panic carrying a distinguishable marker that an
/// in-process harness can catch and classify.
#[derive(Debug, Clone, Copy, PartialEq, Eq, Structural)]
pub enum FaultPowerlossMode {
    Exit { code: i32 },
    Panic,
}

/// The marker value carried by the panic that the powerloss trigger raises
/// when the current mode is `Panic`.
#[derive(Debug)]
pub struct FaultPowerlossPanic;

/// How a powerloss mode is packed into one word: the discriminant in the high
/// half, the exit code in the low half, so the register is always read and
/// written as a whole and never observed half-written.
pub open spec fn encode_mode(mode: FaultPowerlossMode) -> u64 {
    match mode {
        FaultPowerlossMode::Exit { code } => code as u32 as u64,
        FaultPowerlossMode::Panic => (1u64 << 32),
    }
}

/// The mode packed into a word: a zero high half means `Exit` with the code
/// in the low half, anything else means `Panic`.
pub open spec fn decode_mode(encoded: u64) -> FaultPowerlossMode {
    if encoded >> 32 == 0 {
        FaultPowerlossMode::Exit { code: encoded as u32 as i32 }
    } else {
        FaultPowerlossMode::Panic
    }
}

/// Law: packing a mode into a word and unpacking it gives the mode back.
pub proof fn lemma_mode_roundtrip(mode: FaultPowerlossMode)
    ensures
        decode_mode(encode_mode(mode)) == mode,
{
    match mode {
        FaultPowerlossMode::Exit { code } => {
            assert((code as u32 as u64) >> 32 == 0) by (bit_vector);
            assert((code as u32 as u64) as u32 as i32 == code) by (bit_vector);
        },
        FaultPowerlossMode::Panic => {
            assert((1u64 << 32) >> 32 != 0) by (bit_vector);
        },
    }
}

/// The process-wide powerloss mode register: one word holding the packed
/// mode. Its view is the mode it currently holds.
pub struct PowerlossRegister {
    encoded: u64,
}

impl View for PowerlossRegister {
    type V = FaultPowerlossMode;

    closed spec fn view(&self) -> FaultPowerlossMode {
        decode_mode(self.encoded)
    }
}

impl PowerlossRegister {
    /// A fresh register: exit with status code zero.
    pub fn new() -> (r: Self)
        ensures
            r@ == (FaultPowerlossMode::Exit { code: 0 }),
    {
        proof {
            assert(0u64 >> 32 == 0 && 0u64 as u32 as i32 == 0) by (bit_vector);
        }
        PowerlossRegister { encoded: 0 }
    }
}

/// Stores a powerloss mode in the register, as one whole word.
pub fn set_fault_powerloss_mode(reg: &mut PowerlossRegister, mode: FaultPowerlossMode)
    ensures
        final(reg)@ == mode,
{
    let encoded: u64 = match mode {
        FaultPowerlossMode::Exit { code } => code as u32 as u64,
        FaultPowerlossMode::Panic => 1u64 << 32,
    };
    reg.encoded = encoded;
    proof {
        lemma_mode_roundtrip(mode);
    }
}

/// Reads the powerloss mode currently held by the register.
pub fn fault_powerloss_mode(reg: &PowerlossRegister) -> (mode: FaultPowerlossMode)
    ensures
        mode == reg@,
{
    let encoded = reg.encoded;
    if encoded >> 32 == 0 {
        FaultPowerlossMode::Exit { code: encoded as u32 as i32 }
    } else {
        FaultPowerlossMode::Panic
    }
}

} // verus!
