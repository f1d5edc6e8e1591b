//! A connection slot: one endpoint, its target while it has one, and its
//! lifecycle, driven through one duty cycle at a time.

use vstd::prelude::*;
use crate::service::endpoint::Endpoint;
use crate::service::lifecycle::SlotAction;
use crate::service::lifecycle::SlotEvent;
use crate::service::lifecycle::SlotLifecycle;
use crate::service::lifecycle::SlotState;
use crate::stream::SocketAddress;

verus! {

/// What an attempt to create a target came to.
pub enum Creation {
    /// The endpoint returned a target.
    Created,
    /// The endpoint deferred the connection.
    Deferred,
    /// The endpoint returned an error.
    Failed,
}

/// What the endpoint answered during one duty cycle. An answer that the
/// cycle did not ask for has no bearing on its outcome.
pub struct CycleAnswers {
    /// What `create_target` came to.
    pub creation: Creation,
    /// Whether `poll` succeeded.
    pub polled: bool,
    /// The answer of `can_recreate`.
    pub can_recreate: bool,
    /// The answer of `can_auto_disconnect`.
    pub can_auto_disconnect: bool,
}

impl SlotLifecycle {
    /// The slot after a failure and the endpoint's answer to it.
    pub open spec fn after_failure(self, can_recreate: bool) -> SlotLifecycle {
        self.after(SlotEvent::Failed).after(SlotEvent::RecreateDecided { allowed: can_recreate })
    }

    /// The slot after the endpoint was polled.
    pub open spec fn after_poll(self, answers: CycleAnswers) -> SlotLifecycle {
        if answers.polled {
            self
        } else {
            self.after_failure(answers.can_recreate)
        }
    }

    /// The slot after one whole duty cycle that began at `now_ns`, with an
    /// address resolved or not and the target ready or not, given what the
    /// endpoint answered.
    pub open spec fn after_cycle(
        self,
        now_ns: u64,
        resolved: bool,
        ready: bool,
        answers: CycleAnswers,
    ) -> SlotLifecycle {
        let start = SlotEvent::CycleStarted { now_ns, ready };
        let started = self.after(start);
        match self.action_on(start) {
            SlotAction::CreateTarget => if !resolved {
                started.after(SlotEvent::TargetDeferred)
            } else {
                match answers.creation {
                    Creation::Created => started.after(
                        SlotEvent::TargetCreated { now_ns, handshake: false },
                    ),
                    Creation::Deferred => started.after(SlotEvent::TargetDeferred),
                    Creation::Failed => started.after_failure(answers.can_recreate),
                }
            },
            SlotAction::Poll => started.after_poll(answers),
            SlotAction::ConsultAutoDisconnect => {
                let decision = SlotEvent::AutoDisconnectDecided {
                    allowed: answers.can_auto_disconnect,
                    ready,
                };
                if started.action_on(decision) == SlotAction::Poll {
                    started.after(decision).after_poll(answers)
                } else {
                    started.after(decision)
                }
            },
            _ => started,
        }
    }
}

/// The registry entry of one endpoint: the endpoint, its current target and
/// its lifecycle.
pub struct ConnectionSlot<E: Endpoint> {
    endpoint: E,
    target: Option<E::Target>,
    lifecycle: SlotLifecycle,
}

impl<E: Endpoint> ConnectionSlot<E> {
    /// The lifecycle data of the slot.
    pub closed spec fn lifecycle(&self) -> SlotLifecycle {
        self.lifecycle
    }

    /// The endpoint the slot holds.
    pub closed spec fn holder(&self) -> E {
        self.endpoint
    }

    /// A slot holds a target exactly in the states that have one, and the
    /// generic service keeps no slot in a handshake of its own.
    pub closed spec fn well_formed(&self) -> bool {
        &&& self.target.is_some() <==> self.lifecycle.has_target()
        &&& self.lifecycle.state != SlotState::Handshaking
    }

    /// A slot for a freshly registered endpoint: disconnected, without target.
    pub fn new(endpoint: E, auto_disconnect_ns: Option<u64>) -> (slot: ConnectionSlot<E>)
        ensures
            slot.well_formed(),
            slot.lifecycle() == (SlotLifecycle {
                state: SlotState::Disconnected,
                auto_disconnect_ns,
                last_connect_ns: 0,
                next_disconnect_ns: None,
            }),
    {
        ConnectionSlot { endpoint, target: None, lifecycle: SlotLifecycle::new(auto_disconnect_ns) }
    }

    /// Where the slot stands.
    pub fn state(&self) -> (state: SlotState)
        ensures
            state == self.lifecycle().state,
    {
        self.lifecycle.state
    }

    /// Whether the next duty cycle will ask the endpoint for a target, so
    /// that the service has to resolve the endpoint's address first.
    pub fn needs_address(&self) -> (needed: bool)
        ensures
            needed == (self.lifecycle().state == SlotState::Disconnected || self.lifecycle().state
                == SlotState::Connecting),
    {
        self.lifecycle.state == SlotState::Disconnected || self.lifecycle.state
            == SlotState::Connecting
    }

    /// The endpoint of the slot.
    pub fn endpoint(&self) -> (endpoint: &E)
        ensures
            *endpoint == self.holder(),
    {
        &self.endpoint
    }

    /// Tears the target down and asks the endpoint whether to recreate it.
    fn fail(&mut self) -> (can_recreate: bool)
        requires
            old(self).lifecycle.state == SlotState::Connecting || old(self).lifecycle.has_target(),
        ensures
            final(self).well_formed(),
            final(self).lifecycle == old(self).lifecycle.after_failure(can_recreate),
    {
        self.lifecycle.on_event(SlotEvent::Failed);
        self.target = None;
        let allowed = self.endpoint.can_recreate();
        self.lifecycle.on_event(SlotEvent::RecreateDecided { allowed });
        allowed
    }

    /// Polls the endpoint on its target and handles a failure.
    fn poll_target(&mut self) -> (answers: CycleAnswers)
        requires
            old(self).well_formed(),
            old(self).lifecycle.state == SlotState::Connected,
        ensures
            final(self).well_formed(),
            final(self).lifecycle == old(self).lifecycle.after_poll(answers),
    {
        let polled = match self.target.take() {
            Some(mut target) => {
                let polled = self.endpoint.poll(&mut target).is_ok();
                self.target = Some(target);
                polled
            },
            None => false,
        };
        let can_recreate = if polled {
            true
        } else {
            self.fail()
        };
        CycleAnswers {
            creation: Creation::Deferred,
            polled,
            can_recreate,
            can_auto_disconnect: true,
        }
    }

    /// Runs one duty cycle of the slot.
    ///
    /// A slot without target asks its endpoint for one if `addr` was
    /// resolved. A connected slot whose auto-disconnect is due consults the
    /// endpoint and either drops the target or moves the timer on; if it
    /// stays connected and `ready`, the endpoint is polled. Any error tears
    /// the target down and has the endpoint decide on recreation. Returns
    /// whether the slot failed for good in this cycle.
    pub fn duty_cycle(&mut self, now_ns: u64, addr: Option<SocketAddress>, ready: bool) -> (fatal:
        bool)
        requires
            old(self).well_formed(),
        ensures
            final(self).well_formed(),
            exists|answers: CycleAnswers|
                final(self).lifecycle() == #[trigger] old(self).lifecycle().after_cycle(
                    now_ns,
                    addr.is_some(),
                    ready,
                    answers,
                ),
            fatal <==> old(self).lifecycle().state != SlotState::Terminated
                && final(self).lifecycle().state == SlotState::Terminated,
    {
        let ghost before = self.lifecycle;
        let quiet = CycleAnswers {
            creation: Creation::Deferred,
            polled: true,
            can_recreate: true,
            can_auto_disconnect: true,
        };
        let action = self.lifecycle.on_event(SlotEvent::CycleStarted { now_ns, ready });
        let answers = match action {
            SlotAction::CreateTarget => {
                match addr {
                    Some(addr) => {
                        match self.endpoint.create_target(addr) {
                            Ok(Some(target)) => {
                                self.target = Some(target);
                                self.lifecycle.on_event(
                                    SlotEvent::TargetCreated { now_ns, handshake: false },
                                );
                                CycleAnswers { creation: Creation::Created, ..quiet }
                            },
                            Ok(None) => {
                                self.lifecycle.on_event(SlotEvent::TargetDeferred);
                                quiet
                            },
                            Err(_) => {
                                let can_recreate = self.fail();
                                CycleAnswers { creation: Creation::Failed, can_recreate, ..quiet }
                            },
                        }
                    },
                    None => {
                        self.lifecycle.on_event(SlotEvent::TargetDeferred);
                        quiet
                    },
                }
            },
            SlotAction::Poll => self.poll_target(),
            SlotAction::ConsultAutoDisconnect => {
                let allowed = self.endpoint.can_auto_disconnect();
                let next = self.lifecycle.on_event(
                    SlotEvent::AutoDisconnectDecided { allowed, ready },
                );
                match next {
                    SlotAction::Disconnect => {
                        self.target = None;
                        CycleAnswers { can_auto_disconnect: allowed, ..quiet }
                    },
                    SlotAction::Poll => {
                        let polled = self.poll_target();
                        CycleAnswers { can_auto_disconnect: allowed, ..polled }
                    },
                    _ => CycleAnswers { can_auto_disconnect: allowed, ..quiet },
                }
            },
            _ => quiet,
        };
        assert(self.lifecycle == before.after_cycle(now_ns, addr.is_some(), ready, answers));
        self.lifecycle.state == SlotState::Terminated && action != SlotAction::Idle
    }
}

} // verus!
