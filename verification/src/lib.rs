//! In-process instrumentation: a catalog of reliability expectations,
//! deterministic fault injection, and a pluggable event dispatcher.

pub mod catalog;
pub mod dispatch;
pub mod fault;

use vstd::prelude::*;

use crate::catalog::{register_events, CatalogEntry};
use crate::dispatch::{Dispatch, DispatchSlot};
use crate::fault::{fault_names_unique, DuplicateFaultError, FaultEntry};

verus! {

/// Whether the instrumentation subsystem is active for this build.
pub const ENABLED: bool = true;

/// Error returned when initialization cannot complete.
pub enum InitError {
    /// A dispatcher was already installed; the original one stays active.
    DispatchAlreadySet,
    /// Two registered faults share a name; the process must not proceed to
    /// evaluating faults.
    DuplicateFault(DuplicateFaultError),
}

/// Initializes the instrumentation: installs the dispatcher, announces every
/// catalog entry to it, and checks the fault catalog's unique-name invariant.
/// Call once at application startup.
///
/// Fails without touching anything if a dispatcher was already installed.
/// Fails after installing the dispatcher and announcing the catalog if two
/// faults share a name; the caller must treat that as fatal and not proceed.
pub fn init<D: Dispatch>(
    slot: &mut DispatchSlot<D>,
    dispatcher: D,
    entries: &Vec<CatalogEntry>,
    faults: &Vec<FaultEntry>,
) -> (r: Result<(), InitError>)
    ensures
        old(slot).is_set() ==> (r matches Err(e) && e is DispatchAlreadySet) && final(slot).spec_dispatcher()
            == old(slot).spec_dispatcher() && final(slot).events() == old(slot).events(),
        !old(slot).is_set() ==> final(slot).is_set() && final(slot).events() == old(slot).events()
            + register_events(entries@),
        !old(slot).is_set() ==> (r is Ok <==> fault_names_unique(faults@)),
        !old(slot).is_set() && !fault_names_unique(faults@) ==> (r matches Err(e) && e is DuplicateFault),
{
    match crate::dispatch::set_dispatcher(slot, dispatcher) {
        Ok(()) => {},
        Err(_) => {
            return Err(InitError::DispatchAlreadySet);
        },
    }
    crate::catalog::init_catalog(slot, entries);
    match crate::fault::init_faults(faults) {
        Ok(()) => Ok(()),
        Err(e) => Err(InitError::DuplicateFault(e)),
    }
}

} // verus!
