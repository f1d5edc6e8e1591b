//! Laws of the slot lifecycle.

use vstd::prelude::*;
use crate::service::lifecycle::deadline_after;
use crate::service::lifecycle::SlotAction;
use crate::service::lifecycle::SlotEvent;
use crate::service::lifecycle::SlotLifecycle;
use crate::service::lifecycle::SlotState;

verus! {

/// The slot after a run of events, oldest first.
pub open spec fn after_all(slot: SlotLifecycle, events: Seq<SlotEvent>) -> SlotLifecycle
    decreases events.len(),
{
    if events.len() == 0 {
        slot
    } else {
        after_all(slot, events.drop_last()).after(events.last())
    }
}

/// Whether an action works on the target of the slot.
pub open spec fn needs_target(action: SlotAction) -> bool {
    action == SlotAction::DriveHandshake || action == SlotAction::Poll || action
        == SlotAction::ConsultAutoDisconnect || action == SlotAction::Disconnect
}

/// A terminated slot stays terminated and asks for nothing, whatever happens.
pub proof fn lemma_terminated_is_final(slot: SlotLifecycle, events: Seq<SlotEvent>)
    requires
        slot.state == SlotState::Terminated,
    ensures
        after_all(slot, events) == slot,
        forall|event: SlotEvent| #[trigger] slot.action_on(event) == SlotAction::Idle,
    decreases events.len(),
{
    if events.len() > 0 {
        lemma_terminated_is_final(slot, events.drop_last());
    }
}

/// A failure tears the slot down, whatever target state it was in, and has
/// the endpoint consulted. A refusal to recreate is fatal: the slot is
/// terminated and is never connected again.
pub proof fn lemma_refused_recreate_is_fatal(slot: SlotLifecycle, later: Seq<SlotEvent>)
    requires
        slot.state == SlotState::Connecting || slot.has_target(),
    ensures
        slot.after(SlotEvent::Failed).state == SlotState::Disconnected,
        slot.action_on(SlotEvent::Failed) == SlotAction::ConsultRecreate,
        slot.after(SlotEvent::Failed).action_on(SlotEvent::RecreateDecided { allowed: false })
            == SlotAction::Fatal,
        after_all(
            slot.after(SlotEvent::Failed).after(SlotEvent::RecreateDecided { allowed: false }),
            later,
        ).state == SlotState::Terminated,
{
    lemma_terminated_is_final(
        slot.after(SlotEvent::Failed).after(SlotEvent::RecreateDecided { allowed: false }),
        later,
    );
}

/// A failure on an established connection that the endpoint lets be
/// recreated takes the slot from connected over disconnected to connecting,
/// and the next duty cycle asks for a fresh target.
pub proof fn lemma_failure_reconnects(slot: SlotLifecycle, now_ns: u64, ready: bool)
    requires
        slot.state == SlotState::Connected,
    ensures
        ({
            let down = slot.after(SlotEvent::Failed);
            let again = down.after(SlotEvent::RecreateDecided { allowed: true });
            &&& down.state == SlotState::Disconnected
            &&& again.state == SlotState::Connecting
            &&& again.action_on(SlotEvent::CycleStarted { now_ns, ready })
                == SlotAction::CreateTarget
            &&& again.after(SlotEvent::CycleStarted { now_ns, ready }).state
                == SlotState::Connecting
        }),
{
}

/// The service is asked to work on a target only while the slot has one,
/// and to create one only while it has none.
pub proof fn lemma_actions_fit_the_state(slot: SlotLifecycle, event: SlotEvent)
    ensures
        needs_target(slot.action_on(event)) ==> slot.has_target(),
        slot.action_on(event) == SlotAction::CreateTarget ==> !slot.has_target() && slot.after(
            event,
        ).state == SlotState::Connecting,
        slot.action_on(event) == SlotAction::Fatal <==> slot.state != SlotState::Terminated
            && slot.after(event).state == SlotState::Terminated,
{
}

/// Auto-disconnect is the endpoint's call: with its consent the slot gives
/// up its target and connects again, on its veto the slot stays connected
/// and the timer moves on by one interval.
pub proof fn lemma_auto_disconnect_needs_consent(
    slot: SlotLifecycle,
    deadline: u64,
    interval: u64,
    ready: bool,
)
    requires
        slot.state == SlotState::Connected,
        slot.next_disconnect_ns == Some(deadline),
        slot.auto_disconnect_ns == Some(interval),
    ensures
        slot.after(SlotEvent::AutoDisconnectDecided { allowed: true, ready }).state
            == SlotState::Connecting,
        slot.action_on(SlotEvent::AutoDisconnectDecided { allowed: true, ready })
            == SlotAction::Disconnect,
        slot.after(SlotEvent::AutoDisconnectDecided { allowed: false, ready }) == (SlotLifecycle {
            next_disconnect_ns: Some(deadline_after(deadline, interval)),
            ..slot
        }),
        slot.action_on(SlotEvent::AutoDisconnectDecided { allowed: false, ready })
            != SlotAction::Disconnect,
{
}

} // verus!
