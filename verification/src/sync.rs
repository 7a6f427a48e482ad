//! The uniform synchronizer: a single-slot in-flight gate for the
//! asynchronous staging-buffer map.
//!
//! The staging buffer has exactly one writer, the asynchronous map
//! callback, and the in-flight gate is the only synchronization primitive: at most
//! one map request may be outstanding at any time. Requesting while the
//! gate is set is a no-op, not an error. After the per-tick gate check the
//! driver must wait on the device queue unconditionally, whether or not a
//! new request went out, so the outstanding callback is always driven
//! toward completion; that blocking wait is a deliberate liveness choice.

use vstd::prelude::*;
use crate::error::FatalError;
use crate::uniforms::UniformBlock;

verus! {

/// What the driver must perform for the synchronizer this tick, in order.
#[derive(Clone, Copy, PartialEq, Eq, Structural, Debug)]
pub enum HostAction {
    /// Request an asynchronous write-map of the staging buffer.
    RequestMap,
    /// Block on the device's outstanding work queue.
    DeviceWait,
}

/// The synchronizer's state: the in-flight gate and the last committed snapshot.
#[derive(Clone, Copy, PartialEq, Eq, Structural, Debug)]
pub struct UniformSync {
    /// The single in-flight gate: a map request is outstanding.
    pub in_flight: bool,
    /// The counter value last committed into the staging buffer by a
    /// completed map; the next copy makes it visible to the shader.
    pub staged: u32,
}

/// An event on the in-flight gate, for reasoning about whole histories.
pub enum GateEvent {
    /// A tick attempted to request a map.
    Request,
    /// The outstanding map completed and committed `value`.
    Complete { value: u32 },
}

/// How one event moves the synchronizer. A request while the in-flight gate is set
/// is a no-op; a completion can only answer an outstanding request.
pub open spec fn spec_apply_event(s: UniformSync, e: GateEvent) -> UniformSync {
    match e {
        GateEvent::Request => {
            if s.in_flight {
                s
            } else {
                UniformSync { in_flight: true, ..s }
            }
        },
        GateEvent::Complete { value } => {
            if s.in_flight {
                UniformSync { in_flight: false, staged: value }
            } else {
                s
            }
        },
    }
}

/// The synchronizer after a whole history of events.
pub open spec fn spec_apply_events(s: UniformSync, es: Seq<GateEvent>) -> UniformSync
    decreases es.len(),
{
    if es.len() == 0 {
        s
    } else {
        spec_apply_event(spec_apply_events(s, es.drop_last()), es.last())
    }
}

/// How many map requests are outstanding: the in-flight gate is the count.
pub open spec fn spec_outstanding(s: UniformSync) -> nat {
    if s.in_flight {
        1nat
    } else {
        0nat
    }
}

impl UniformSync {
    /// The state at setup: no request outstanding, the initial snapshot
    /// (counter zero) already in both buffers.
    pub fn new() -> (r: UniformSync)
        ensures
            !r.in_flight,
            r.staged == 0,
            spec_outstanding(r) == 0,
    {
        UniformSync { in_flight: false, staged: 0 }
    }

    /// The per-tick check-and-set of the in-flight gate: issues a new map request
    /// exactly when none is outstanding. Requesting while the in-flight gate is set
    /// leaves the state untouched and issues nothing — a no-op, not an
    /// error. Never are two requests outstanding at once.
    pub fn request_map(&mut self) -> (issued: bool)
        ensures
            issued == !old(self).in_flight,
            *final(self) == spec_apply_event(*old(self), GateEvent::Request),
            final(self).in_flight,
            final(self).staged == old(self).staged,
            old(self).in_flight ==> *final(self) == *old(self),
            spec_outstanding(*final(self)) <= 1,
    {
        if self.in_flight {
            false
        } else {
            self.in_flight = true;
            true
        }
    }

    /// The map callback fired for the one outstanding request. On success
    /// the current snapshot is committed into the staging buffer and the
    /// gate clears; a map failure is fatal and leaves the state as it was.
    pub fn complete_map(&mut self, current: &UniformBlock, outcome: Result<(), String>) -> (r:
        Result<(), FatalError>)
        requires
            old(self).in_flight,
        ensures
            outcome is Ok ==> {
                &&& r is Ok
                &&& *final(self) == spec_apply_event(
                    *old(self),
                    GateEvent::Complete { value: current.time },
                )
                &&& !final(self).in_flight
                &&& final(self).staged == current.time
            },
            outcome matches Err(m) ==> {
                &&& r == Err::<(), FatalError>(FatalError::BufferMap { message: m })
                &&& *final(self) == *old(self)
            },
    {
        match outcome {
            Ok(()) => {
                self.staged = current.time;
                self.in_flight = false;
                Ok(())
            },
            Err(m) => Err(FatalError::BufferMap { message: m }),
        }
    }

    /// One tick of the upload path: the in-flight check, then what the driver
    /// must do. A new map request goes out only when the in-flight gate was clear;
    /// the device wait is unconditional every tick.
    pub fn advance(&mut self) -> (actions: Vec<HostAction>)
        ensures
            *final(self) == spec_apply_event(*old(self), GateEvent::Request),
            final(self).staged == old(self).staged,
            final(self).in_flight,
            old(self).in_flight ==> actions@ =~= seq![HostAction::DeviceWait],
            !old(self).in_flight ==> actions@ =~= seq![
                HostAction::RequestMap,
                HostAction::DeviceWait,
            ],
            actions@.last() == HostAction::DeviceWait,
    {
        let issued = self.request_map();
        let mut actions: Vec<HostAction> = Vec::new();
        if issued {
            actions.push(HostAction::RequestMap);
        }
        actions.push(HostAction::DeviceWait);
        actions
    }
}

/// At no point in any history are two map requests outstanding at once:
/// from any state with at most one outstanding request, every sequence of
/// gate events keeps the count at most one.
pub proof fn lemma_single_in_flight(s: UniformSync, es: Seq<GateEvent>)
    requires
        spec_outstanding(s) <= 1,
    ensures
        spec_outstanding(spec_apply_events(s, es)) <= 1,
    decreases es.len(),
{
    if es.len() > 0 {
        lemma_single_in_flight(s, es.drop_last());
    }
}

/// Requesting while the in-flight gate is set changes nothing: the no-op half of the
/// single in-flight rule, stated over histories.
pub proof fn lemma_request_while_set_is_noop(s: UniformSync)
    requires
        s.in_flight,
    ensures
        spec_apply_event(s, GateEvent::Request) == s,
{
}

} // verus!
