use vstd::prelude::*;

use core::task::Waker;
use embassy_sync::waitqueue::WakerRegistration;

verus! {

#[verifier::external_type_specification]
#[verifier::external_body]
pub struct ExWaker(core::task::Waker);

#[verifier::external_type_specification]
#[verifier::external_body]
pub struct ExWakerRegistration(embassy_sync::waitqueue::WakerRegistration);

/// Whether a registration slot currently holds a waker.
pub uninterp spec fn holds_waker(r: WakerRegistration) -> bool;

/// Relies on embassy_sync's `WakerRegistration::new`: the slot starts empty.
pub assume_specification[ WakerRegistration::new ]() -> (r: WakerRegistration)
    ensures
        !holds_waker(r),
;

/// Relies on embassy_sync's `WakerRegistration::register`: afterwards the slot
/// holds a waker (the new one, or an old one that wakes the same task).
pub assume_specification[ WakerRegistration::register ](r: &mut WakerRegistration, w: &Waker)
    ensures
        holds_waker(*final(r)),
;

/// Relies on embassy_sync's `WakerRegistration::wake`: the registered waker,
/// if any, is taken out of the slot and woken, which leaves the slot empty.
pub assume_specification[ WakerRegistration::wake ](r: &mut WakerRegistration)
    ensures
        !holds_waker(*final(r)),
;

/// The two resumption slots: one for the issuing task, one for the task that
/// drives the bus. Each remembers only the most recent registration.
pub struct Wakers {
    pub control: WakerRegistration,
    pub runner: WakerRegistration,
}

impl Wakers {
    /// Whether the issuing task has a registered waker.
    pub open spec fn control_waiting(&self) -> bool {
        holds_waker(self.control)
    }

    /// Whether the bus task has a registered waker.
    pub open spec fn runner_waiting(&self) -> bool {
        holds_waker(self.runner)
    }

    /// Both slots empty.
    pub fn new() -> (r: Wakers)
        ensures
            !r.control_waiting(),
            !r.runner_waiting(),
    {
        Wakers { control: WakerRegistration::new(), runner: WakerRegistration::new() }
    }
}

} // verus!
