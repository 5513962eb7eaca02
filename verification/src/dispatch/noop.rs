//! The no-op sink: discards every event.

use vstd::prelude::*;

use super::{Dispatch, Event};

verus! {

/// Dispatcher that discards events and draws randomness from the process
/// default source. Used implicitly while no dispatcher is installed.
pub struct NoopDispatch;

impl Dispatch for NoopDispatch {
    fn emit(&mut self, _event: Event) {
    }

    fn random(&mut self) -> u64 {
        super::default_random()
    }
}

} // verus!
