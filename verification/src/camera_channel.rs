use vstd::prelude::*;
use crate::camera::CameraState;

verus! {

/// The camera input channel: a single slot that always holds a value and is
/// overwritten on every write. Only the latest write is observable; values
/// written between two reads are lost on purpose (coalescing), which is what
/// lets the interactive layer run at any rate without ever blocking the
/// producer. Reads never block, never fail and do not consume the value.
pub struct CameraChannel {
    current: CameraState,
}

impl View for CameraChannel {
    type V = CameraState;

    closed spec fn view(&self) -> CameraState {
        self.current
    }
}

impl CameraChannel {
    /// Establishes the channel with its required initial value; the channel
    /// is never valueless.
    pub fn new(initial: CameraState) -> (c: CameraChannel)
        ensures
            c@ == initial,
    {
        CameraChannel { current: initial }
    }

    /// Writer side: replaces the stored value. Never blocks, never fails.
    pub fn update(&mut self, value: CameraState)
        ensures
            final(self)@ == update_spec(old(self)@, value),
            final(self)@ == value,
    {
        self.current = value;
    }

    /// Reader side: returns the most recent write (or the initial value when
    /// nothing was written yet). Never blocks, always succeeds, and is
    /// idempotent: without an intervening `update` every call returns the
    /// same value, because the result is pinned to the stored one.
    pub fn latest(&self) -> (r: CameraState)
        ensures
            r == self@,
    {
        self.current
    }
}

/// One write to the slot: the new value replaces the old one outright.
pub open spec fn update_spec(state: CameraState, value: CameraState) -> CameraState {
    value
}

/// The slot's value after a whole sequence of writes with no read in
/// between.
pub open spec fn after_updates(initial: CameraState, writes: Seq<CameraState>) -> CameraState
    decreases writes.len(),
{
    if writes.len() == 0 {
        initial
    } else {
        update_spec(after_updates(initial, writes.drop_last()), writes.last())
    }
}

/// Coalescing law: after any sequence of writes with no intervening read,
/// the slot holds exactly the last written value, and with no writes at all
/// it still holds the initial value.
pub proof fn lemma_update_coalescing(initial: CameraState, writes: Seq<CameraState>)
    ensures
        writes.len() == 0 ==> after_updates(initial, writes) == initial,
        writes.len() > 0 ==> after_updates(initial, writes) == writes.last(),
{
}

} // verus!
