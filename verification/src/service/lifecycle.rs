//! The lifecycle of one connection slot as a state machine.
//!
//! The service performs the I/O of a duty cycle (resolving, connecting,
//! reading, calling the endpoint) and tells the slot what came of it. The
//! slot answers each event with its next state and with what the service
//! has to do next. No rule of the lifecycle lives outside this machine.

use vstd::prelude::*;

verus! {

/// Where a slot stands in its lifecycle.
#[derive(Debug, Copy, Clone, PartialEq, Eq, Structural)]
pub enum SlotState {
    /// No target: the slot was just registered, or its target was torn down
    /// and the endpoint has not yet been asked whether to recreate it.
    Disconnected,
    /// No target: the service tries to create one every duty cycle.
    Connecting,
    /// A target exists and its protocol handshake is under way.
    Handshaking,
    /// A target exists and is in steady-state exchange.
    Connected,
    /// The endpoint refused to recreate the connection. This state is never left.
    Terminated,
}

/// What the service reports to a slot.
#[derive(Debug, Copy, Clone, PartialEq, Eq, Structural)]
pub enum SlotEvent {
    /// A duty cycle begins at `now_ns`; `ready` tells whether the
    /// multiplexer reported the slot's target ready.
    CycleStarted { now_ns: u64, ready: bool },
    /// `create_target` returned a target at `now_ns`; `handshake` tells
    /// whether its protocol starts with a handshake.
    TargetCreated { now_ns: u64, handshake: bool },
    /// No address could be resolved, or `create_target` returned `None`.
    TargetDeferred,
    /// The protocol handshake of the target completed.
    HandshakeCompleted,
    /// I/O failed, the peer closed the connection or the endpoint's `poll`
    /// returned an error.
    Failed,
    /// The endpoint answered `can_recreate` after a teardown.
    RecreateDecided { allowed: bool },
    /// The endpoint answered `can_auto_disconnect`; `ready` is the readiness
    /// of the cycle in which it was asked.
    AutoDisconnectDecided { allowed: bool, ready: bool },
}

/// What the service has to do next for a slot.
#[derive(Debug, Copy, Clone, PartialEq, Eq, Structural)]
pub enum SlotAction {
    /// Nothing until the next event.
    Idle,
    /// Resolve the address and call `create_target`.
    CreateTarget,
    /// Drive the protocol handshake of the target.
    DriveHandshake,
    /// Send what the handshake left queued, then call the endpoint's `poll`.
    Poll,
    /// Ask the endpoint `can_auto_disconnect`.
    ConsultAutoDisconnect,
    /// Drop the target; the slot connects again on the next cycle.
    Disconnect,
    /// Drop the target and ask the endpoint `can_recreate`.
    ConsultRecreate,
    /// The slot has failed for good; what follows is the host's decision.
    Fatal,
}

/// The lifecycle data of one slot.
#[derive(Debug, Copy, Clone, PartialEq, Eq, Structural)]
pub struct SlotLifecycle {
    /// Where the slot stands.
    pub state: SlotState,
    /// The interval after which a connection is forcibly renewed, if any.
    pub auto_disconnect_ns: Option<u64>,
    /// When the current or last target was created.
    pub last_connect_ns: u64,
    /// When the current target is due for auto-disconnect, if ever.
    pub next_disconnect_ns: Option<u64>,
}

/// `time_ns + interval_ns`, held at the largest representable time.
pub open spec fn deadline_after(time_ns: u64, interval_ns: u64) -> u64 {
    if time_ns + interval_ns > u64::MAX {
        u64::MAX
    } else {
        (time_ns + interval_ns) as u64
    }
}

/// The deadline that the optional interval sets from `time_ns` on.
pub open spec fn deadline_from(time_ns: u64, interval_ns: Option<u64>) -> Option<u64> {
    match interval_ns {
        Some(interval) => Some(deadline_after(time_ns, interval)),
        None => None,
    }
}

impl SlotLifecycle {
    /// Whether a slot in this state owns a target.
    pub open spec fn has_target(self) -> bool {
        self.state == SlotState::Handshaking || self.state == SlotState::Connected
    }

    /// Whether the connection has been up for longer than the interval allows.
    pub open spec fn auto_disconnect_due(self, now_ns: u64) -> bool {
        match self.next_disconnect_ns {
            Some(deadline) => now_ns > deadline,
            None => false,
        }
    }

    /// The slot after `event`.
    pub open spec fn after(self, event: SlotEvent) -> SlotLifecycle {
        match (self.state, event) {
            (SlotState::Disconnected, SlotEvent::CycleStarted { .. }) => SlotLifecycle {
                state: SlotState::Connecting,
                ..self
            },
            (SlotState::Disconnected, SlotEvent::RecreateDecided { allowed }) => SlotLifecycle {
                state: if allowed {
                    SlotState::Connecting
                } else {
                    SlotState::Terminated
                },
                ..self
            },
            (SlotState::Connecting, SlotEvent::TargetCreated { now_ns, handshake }) => SlotLifecycle {
                state: if handshake {
                    SlotState::Handshaking
                } else {
                    SlotState::Connected
                },
                last_connect_ns: now_ns,
                next_disconnect_ns: deadline_from(now_ns, self.auto_disconnect_ns),
                ..self
            },
            (SlotState::Handshaking, SlotEvent::HandshakeCompleted) => SlotLifecycle {
                state: SlotState::Connected,
                ..self
            },
            (SlotState::Connected, SlotEvent::AutoDisconnectDecided { allowed, .. }) => if allowed {
                SlotLifecycle { state: SlotState::Connecting, next_disconnect_ns: None, ..self }
            } else {
                SlotLifecycle {
                    next_disconnect_ns: match (self.next_disconnect_ns, self.auto_disconnect_ns) {
                        (Some(deadline), Some(interval)) => Some(deadline_after(deadline, interval)),
                        _ => self.next_disconnect_ns,
                    },
                    ..self
                }
            },
            (SlotState::Connecting, SlotEvent::Failed)
            | (SlotState::Handshaking, SlotEvent::Failed)
            | (SlotState::Connected, SlotEvent::Failed) => SlotLifecycle {
                state: SlotState::Disconnected,
                next_disconnect_ns: None,
                ..self
            },
            _ => self,
        }
    }

    /// What the service has to do once the slot has taken `event` in.
    pub open spec fn action_on(self, event: SlotEvent) -> SlotAction {
        match (self.state, event) {
            (SlotState::Disconnected, SlotEvent::CycleStarted { .. }) => SlotAction::CreateTarget,
            (SlotState::Connecting, SlotEvent::CycleStarted { .. }) => SlotAction::CreateTarget,
            (SlotState::Handshaking, SlotEvent::CycleStarted { ready, .. }) => if ready {
                SlotAction::DriveHandshake
            } else {
                SlotAction::Idle
            },
            (SlotState::Connected, SlotEvent::CycleStarted { now_ns, ready }) => if self.auto_disconnect_due(
                now_ns,
            ) {
                SlotAction::ConsultAutoDisconnect
            } else if ready {
                SlotAction::Poll
            } else {
                SlotAction::Idle
            },
            (SlotState::Handshaking, SlotEvent::HandshakeCompleted) => SlotAction::Poll,
            (SlotState::Connected, SlotEvent::AutoDisconnectDecided { allowed, ready }) => if allowed {
                SlotAction::Disconnect
            } else if ready {
                SlotAction::Poll
            } else {
                SlotAction::Idle
            },
            (SlotState::Connecting, SlotEvent::Failed)
            | (SlotState::Handshaking, SlotEvent::Failed)
            | (SlotState::Connected, SlotEvent::Failed) => SlotAction::ConsultRecreate,
            (SlotState::Disconnected, SlotEvent::RecreateDecided { allowed }) => if allowed {
                SlotAction::Idle
            } else {
                SlotAction::Fatal
            },
            _ => SlotAction::Idle,
        }
    }

    /// A freshly registered slot: disconnected, with the given
    /// auto-disconnect interval.
    pub fn new(auto_disconnect_ns: Option<u64>) -> (slot: SlotLifecycle)
        ensures
            slot == (SlotLifecycle {
                state: SlotState::Disconnected,
                auto_disconnect_ns,
                last_connect_ns: 0,
                next_disconnect_ns: None,
            }),
    {
        SlotLifecycle {
            state: SlotState::Disconnected,
            auto_disconnect_ns,
            last_connect_ns: 0,
            next_disconnect_ns: None,
        }
    }

    /// Takes `event` in and tells the service what to do next.
    ///
    /// An event that makes no sense in the current state changes nothing
    /// and asks for nothing.
    pub fn on_event(&mut self, event: SlotEvent) -> (action: SlotAction)
        ensures
            *final(self) == old(self).after(event),
            action == old(self).action_on(event),
    {
        match (self.state, event) {
            (SlotState::Disconnected, SlotEvent::CycleStarted { .. }) => {
                self.state = SlotState::Connecting;
                SlotAction::CreateTarget
            },
            (SlotState::Connecting, SlotEvent::CycleStarted { .. }) => SlotAction::CreateTarget,
            (SlotState::Handshaking, SlotEvent::CycleStarted { ready, .. }) => {
                if ready {
                    SlotAction::DriveHandshake
                } else {
                    SlotAction::Idle
                }
            },
            (SlotState::Connected, SlotEvent::CycleStarted { now_ns, ready }) => {
                let due = match self.next_disconnect_ns {
                    Some(deadline) => now_ns > deadline,
                    None => false,
                };
                if due {
                    SlotAction::ConsultAutoDisconnect
                } else if ready {
                    SlotAction::Poll
                } else {
                    SlotAction::Idle
                }
            },
            (SlotState::Connecting, SlotEvent::TargetCreated { now_ns, handshake }) => {
                self.state = if handshake {
                    SlotState::Handshaking
                } else {
                    SlotState::Connected
                };
                self.last_connect_ns = now_ns;
                self.next_disconnect_ns = match self.auto_disconnect_ns {
                    Some(interval) => Some(now_ns.saturating_add(interval)),
                    None => None,
                };
                SlotAction::Idle
            },
            (SlotState::Handshaking, SlotEvent::HandshakeCompleted) => {
                self.state = SlotState::Connected;
                SlotAction::Poll
            },
            (SlotState::Connected, SlotEvent::AutoDisconnectDecided { allowed, ready }) => {
                if allowed {
                    self.state = SlotState::Connecting;
                    self.next_disconnect_ns = None;
                    SlotAction::Disconnect
                } else {
                    self.next_disconnect_ns = match (
                        self.next_disconnect_ns,
                        self.auto_disconnect_ns,
                    ) {
                        (Some(deadline), Some(interval)) => Some(deadline.saturating_add(interval)),
                        (kept, _) => kept,
                    };
                    if ready {
                        SlotAction::Poll
                    } else {
                        SlotAction::Idle
                    }
                }
            },
            (SlotState::Connecting, SlotEvent::Failed)
            | (SlotState::Handshaking, SlotEvent::Failed)
            | (SlotState::Connected, SlotEvent::Failed) => {
                self.state = SlotState::Disconnected;
                self.next_disconnect_ns = None;
                SlotAction::ConsultRecreate
            },
            (SlotState::Disconnected, SlotEvent::RecreateDecided { allowed }) => {
                if allowed {
                    self.state = SlotState::Connecting;
                    SlotAction::Idle
                } else {
                    self.state = SlotState::Terminated;
                    SlotAction::Fatal
                }
            },
            _ => SlotAction::Idle,
        }
    }
}

} // verus!
