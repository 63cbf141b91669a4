//! The single slot that holds the live controller.
//!
//! A registry is an owned value. Whoever has it by `&mut` has the slot to
//! themselves for as long as the borrow lasts: nothing else can read or
//! write it meanwhile. Where several tasks share one registry, they keep it
//! behind a lock and reach it through the lock's guard; the attempts then
//! come to the slot one after another, in the order in which the lock
//! serves them.

use vstd::prelude::*;
use crate::error::SessionError;
use crate::handshake::ConnectionOutcome;

verus! {

/// Holds at most one controller. It starts empty, is filled by a successful
/// connection attempt, and is refilled by the next one, which supersedes the
/// controller that was there.
pub struct ControllerRegistry<H> {
    slot: Option<H>,
}

impl<H> View for ControllerRegistry<H> {
    type V = Option<H>;

    closed spec fn view(&self) -> Option<H> {
        self.slot
    }
}

/// The number of controllers that a slot makes visible.
pub open spec fn occupancy<H>(slot: Option<H>) -> nat {
    match slot {
        Some(_) => 1,
        None => 0,
    }
}

/// What an attempt's outcome makes of the slot: a connected controller takes
/// it, whatever was there; a failure leaves it as it was, and so does the
/// mock path's success, which has no controller to give.
pub open spec fn slot_after<H>(slot: Option<H>, outcome: ConnectionOutcome<H>) -> Option<H> {
    match outcome {
        ConnectionOutcome::Connected(handle) => Some(handle),
        ConnectionOutcome::Simulated => slot,
        ConnectionOutcome::Failed(_) => slot,
    }
}

/// What the caller of an attempt is told: success, or the reason of the
/// failure.
pub open spec fn verdict<H>(outcome: ConnectionOutcome<H>) -> Result<(), SessionError> {
    match outcome {
        ConnectionOutcome::Connected(_) => Ok(()),
        ConnectionOutcome::Simulated => Ok(()),
        ConnectionOutcome::Failed(reason) => Err(reason),
    }
}

/// What a run of attempts, served one after another, makes of the slot.
pub open spec fn slot_after_all<H>(
    slot: Option<H>,
    outcomes: Seq<ConnectionOutcome<H>>,
) -> Option<H>
    decreases outcomes.len(),
{
    if outcomes.len() == 0 {
        slot
    } else {
        slot_after(slot_after_all(slot, outcomes.drop_last()), outcomes.last())
    }
}

impl<H> ControllerRegistry<H> {
    /// An empty registry.
    pub fn new() -> (registry: Self)
        ensures
            registry@ is None,
    {
        ControllerRegistry { slot: None }
    }

    /// Runs `f` on the slot and returns what `f` returns. For the length of
    /// the call the slot belongs to `f` alone; what `f` leaves in it is what
    /// the registry holds afterwards. This is the way in which callers read
    /// and write the slot, and [`ControllerRegistry::publish`] writes it in
    /// no other.
    pub fn with_exclusive_access<T, F>(&mut self, f: F) -> (result: T) where
        F: FnOnce(&mut Option<H>) -> T,

        requires
            forall|slot: &mut Option<H>| *slot == old(self)@ ==> f.requires((slot,)),
        ensures
            exists|slot: &mut Option<H>|
                *slot == old(self)@ && *final(slot) == final(self)@ && f.ensures((slot,), result),
    {
        f(&mut self.slot)
    }

    /// Whether the slot holds a controller.
    pub fn is_occupied(&self) -> (occupied: bool)
        ensures
            occupied == (self@ is Some),
    {
        self.slot.is_some()
    }

    /// Puts a controller into the slot. A controller that was there is
    /// superseded: it is released and can no longer be seen.
    pub fn publish(&mut self, handle: H)
        ensures
            final(self)@ == Some(handle),
    {
        let put = |slot: &mut Option<H>|
            ensures
                *final(slot) == Some(handle),
            {
                *slot = Some(handle);
            };
        self.with_exclusive_access(put)
    }

    /// Takes the outcome of a connection attempt: a connected controller is
    /// published; a failure, or a success of the mock path, leaves the slot
    /// exactly as it was. Returns what the caller of the attempt is to be
    /// told.
    pub fn settle(&mut self, outcome: ConnectionOutcome<H>) -> (result: Result<(), SessionError>)
        ensures
            final(self)@ == slot_after(old(self)@, outcome),
            result == verdict(outcome),
    {
        match outcome {
            ConnectionOutcome::Connected(handle) => {
                self.publish(handle);
                Ok(())
            },
            ConnectionOutcome::Simulated => Ok(()),
            ConnectionOutcome::Failed(reason) => Err(reason),
        }
    }
}

/// At every moment the slot shows one controller at most: whatever the slot
/// held at first and whatever attempts came to it since.
pub proof fn at_most_one_controller<H>(slot: Option<H>, outcomes: Seq<ConnectionOutcome<H>>)
    ensures
        forall|served: int|
            0 <= served <= outcomes.len() ==> occupancy(
                #[trigger] slot_after_all(slot, outcomes.take(served)),
            ) <= 1,
        occupancy(slot_after_all(slot, outcomes)) <= 1,
{
}

/// A failed attempt leaves the slot as it was: it holds the same controller
/// as before, or is as empty as before.
pub proof fn failure_changes_nothing<H>(slot: Option<H>, reason: SessionError)
    ensures
        slot_after(slot, ConnectionOutcome::Failed(reason)) == slot,
        verdict(ConnectionOutcome::<H>::Failed(reason)) == Err::<(), SessionError>(reason),
{
}

/// Of two successful attempts that come to the slot one after the other, the
/// later one's controller is what the slot holds in the end.
pub proof fn last_publish_wins<H>(slot: Option<H>, first: H, second: H)
    ensures
        slot_after(
            slot_after(slot, ConnectionOutcome::Connected(first)),
            ConnectionOutcome::Connected(second),
        ) == Some(second),
{
}

/// After any run of attempts the slot holds the controller of the last one
/// that succeeded, and what it held at first if none did.
pub proof fn slot_holds_last_success<H>(slot: Option<H>, outcomes: Seq<ConnectionOutcome<H>>)
    ensures
        (forall|i: int| 0 <= i < outcomes.len() ==> !(outcomes[i] is Connected))
            ==> slot_after_all(slot, outcomes) == slot,
        forall|i: int|
            {
                &&& 0 <= i < outcomes.len()
                &&& outcomes[i] is Connected
                &&& forall|j: int| i < j < outcomes.len() ==> !(outcomes[j] is Connected)
            } ==> slot_after_all(slot, outcomes) == Some(outcomes[i]->Connected_0),
    decreases outcomes.len(),
{
    if outcomes.len() > 0 {
        let earlier = outcomes.drop_last();
        slot_holds_last_success(slot, earlier);
        assert(forall|i: int| 0 <= i < earlier.len() ==> earlier[i] == outcomes[i]);
    }
}

} // verus!
