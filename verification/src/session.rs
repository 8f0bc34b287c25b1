//! The session slot: the process-wide cell that keeps at most one
//! validated engine handle, and the bring-up step that fills it.
//!
//! The surrounding process serializes access to the slot and performs the
//! liveness probe; the functions here decide what the probe's outcome does
//! to the slot, so that the slot's two invariants hold: it moves only from
//! empty to occupied or from occupied to occupied, and a failed bring-up
//! leaves it exactly as it was.

use vstd::prelude::*;
use crate::engine::{classify_error, clone_docker};
use crate::errors::{
    error_wf, lemma_error_totality, map_error, ErrorKind, StructuredError,
};

verus! {

/// The single-slot container for the validated engine handle.
pub struct SessionSlot {
    handle: Option<bollard::Docker>,
}

/// The ways the slot is touched, as a trace alphabet: a bring-up whose
/// probe succeeded and installed a handle, a bring-up that failed, and a
/// plain read by a command.
pub enum SlotOp {
    ConnectInstalled,
    ConnectFailed,
    Read,
}

/// What one operation does to the slot's occupancy: a successful bring-up
/// makes it occupied, everything else leaves it as it was.
pub open spec fn slot_step(occupied: bool, op: SlotOp) -> bool {
    op is ConnectInstalled || occupied
}

/// Occupancy after a whole trace of operations.
pub open spec fn occupied_after(init: bool, ops: Seq<SlotOp>) -> bool
    decreases ops.len(),
{
    if ops.len() == 0 {
        init
    } else {
        slot_step(occupied_after(init, ops.drop_last()), ops.last())
    }
}

impl SessionSlot {
    /// The slot's occupant: the validated handle it currently holds, if
    /// any.
    pub closed spec fn occupant(self) -> Option<bollard::Docker> {
        self.handle
    }

    /// Whether the slot holds a validated handle.
    pub open spec fn occupied(self) -> bool {
        self.occupant() is Some
    }

    /// A fresh slot holds nothing.
    pub fn new() -> (r: SessionSlot)
        ensures
            !r.occupied(),
    {
        SessionSlot { handle: None }
    }

    /// The non-blocking read every command starts with: a clone of the
    /// current handle, or `None` when the slot is empty. The caller holds
    /// its guard only for this call and releases it before any engine
    /// call, so the slot itself is never kept busy across one.
    pub fn current(&self) -> (r: Option<bollard::Docker>)
        ensures
            r is Some <==> self.occupied(),
    {
        match &self.handle {
            Some(h) => Some(clone_docker(h)),
            None => None,
        }
    }

    /// The second half of bring-up: the freshly built handle and the
    /// probe's outcome. On probe success the slot's occupant is replaced
    /// by this very handle — the previous occupant, if any, is discarded
    /// and its transport released when its last clone drops — and the
    /// probe's reply is returned. On probe failure the slot is left
    /// untouched and the mapped error is returned.
    pub fn finish_bring_up(
        &mut self,
        handle: bollard::Docker,
        probe: Result<String, bollard::errors::Error>,
    ) -> (r: Result<String, StructuredError>)
        ensures
            probe matches Ok(reply) ==> final(self).occupant() == Some(handle) && r == Ok::<
                String,
                StructuredError,
            >(reply),
            probe is Err ==> *final(self) == *old(self) && (r matches Err(e) && error_wf(e)
                && e.kind != ErrorKind::NoConnection),
            final(self).occupied() == slot_step(
                old(self).occupied(),
                if probe is Ok {
                    SlotOp::ConnectInstalled
                } else {
                    SlotOp::ConnectFailed
                },
            ),
    {
        match probe {
            Ok(reply) => {
                self.handle = Some(handle);
                Ok(reply)
            },
            Err(err) => {
                let te = classify_error(err);
                proof {
                    lemma_error_totality(te);
                }
                Err(map_error(te))
            },
        }
    }
}

/// Once the slot is occupied, no operation empties it again.
pub proof fn lemma_occupied_stays(init: bool, ops: Seq<SlotOp>)
    requires
        init,
    ensures
        occupied_after(init, ops),
    decreases ops.len(),
{
    if ops.len() > 0 {
        lemma_occupied_stays(init, ops.drop_last());
    }
}

/// Slot monotonic visibility: after a bring-up whose probe succeeded,
/// every later point of the trace still sees an occupied slot — commands
/// only read, and a failed bring-up leaves the slot as it was.
pub proof fn lemma_slot_monotonic_visibility(init: bool, ops: Seq<SlotOp>, i: int, j: int)
    requires
        0 <= i < ops.len(),
        ops[i] is ConnectInstalled,
        i < j <= ops.len(),
    ensures
        occupied_after(init, ops.take(j)),
    decreases j - i,
{
    if j == i + 1 {
        assert(ops.take(j).last() == ops[i]);
    } else {
        lemma_slot_monotonic_visibility(init, ops, i, j - 1);
        assert(ops.take(j).drop_last() =~= ops.take(j - 1));
    }
}

} // verus!
