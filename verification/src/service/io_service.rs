//! The registry of connection slots and the duty cycle over all of them.

use vstd::prelude::*;
use crate::service::endpoint::Endpoint;
use crate::service::lifecycle::SlotLifecycle;
use crate::service::lifecycle::SlotState;
use crate::service::slot::ConnectionSlot;
use crate::service::slot::CycleAnswers;
use crate::stream::SocketAddress;

verus! {

/// Whether `after` is a lifecycle that one duty cycle can leave behind when
/// it starts from `before`: the outcome for some answers of the endpoint.
pub open spec fn is_cycle_outcome(
    before: SlotLifecycle,
    after: SlotLifecycle,
    now_ns: u64,
    resolved: bool,
    ready: bool,
) -> bool {
    exists|answers: CycleAnswers|
        after == #[trigger] before.after_cycle(now_ns, resolved, ready, answers)
}

/// Whether an address was resolved for slot `index`.
pub open spec fn resolved_at(addrs: Seq<Option<SocketAddress>>, index: int) -> bool {
    0 <= index < addrs.len() && addrs[index].is_some()
}

/// Whether slot `index` was reported ready.
pub open spec fn ready_at(ready: Seq<bool>, index: int) -> bool {
    0 <= index < ready.len() && ready[index]
}

/// The service: every registered endpoint in a slot of its own. A slot
/// keeps its index for as long as the service lives.
pub struct IOService<E: Endpoint> {
    slots: Vec<ConnectionSlot<E>>,
    auto_disconnect_ns: Option<u64>,
}

impl<E: Endpoint> IOService<E> {
    /// The lifecycle of every slot, by index.
    pub closed spec fn lifecycles(&self) -> Seq<SlotLifecycle> {
        self.slots@.map_values(|slot: ConnectionSlot<E>| slot.lifecycle())
    }

    /// The auto-disconnect interval given to newly registered slots.
    pub closed spec fn interval(&self) -> Option<u64> {
        self.auto_disconnect_ns
    }

    /// Every slot of the service is well formed.
    pub closed spec fn well_formed(&self) -> bool {
        forall|i: int| 0 <= i < self.slots@.len() ==> (#[trigger] self.slots@[i]).well_formed()
    }

    /// A service without slots and without auto-disconnect.
    pub fn new() -> (service: IOService<E>)
        ensures
            service.well_formed(),
            service.lifecycles().len() == 0,
            service.interval().is_none(),
    {
        IOService { slots: Vec::new(), auto_disconnect_ns: None }
    }

    /// The same service, renewing every connection that has been up for
    /// `interval_ns`, unless its endpoint objects. Slots registered before
    /// keep the interval they were registered with.
    pub fn with_auto_disconnect(self, interval_ns: u64) -> (service: IOService<E>)
        requires
            self.well_formed(),
        ensures
            service.well_formed(),
            service.lifecycles() == self.lifecycles(),
            service.interval() == Some(interval_ns),
    {
        IOService { slots: self.slots, auto_disconnect_ns: Some(interval_ns) }
    }

    /// Registers `endpoint` in a new, disconnected slot and returns the
    /// slot's index.
    pub fn register(&mut self, endpoint: E) -> (index: usize)
        requires
            old(self).well_formed(),
        ensures
            final(self).well_formed(),
            final(self).interval() == old(self).interval(),
            index == old(self).lifecycles().len(),
            final(self).lifecycles() == old(self).lifecycles().push(
                SlotLifecycle {
                    state: SlotState::Disconnected,
                    auto_disconnect_ns: old(self).interval(),
                    last_connect_ns: 0,
                    next_disconnect_ns: None,
                },
            ),
    {
        let index = self.slots.len();
        let slot = ConnectionSlot::new(endpoint, self.auto_disconnect_ns);
        self.slots.push(slot);
        assert(self.lifecycles() =~= old(self).lifecycles().push(slot.lifecycle()));
        index
    }

    /// The number of slots.
    pub fn len(&self) -> (count: usize)
        ensures
            count == self.lifecycles().len(),
    {
        self.slots.len()
    }

    /// Where slot `index` stands, if there is such a slot.
    pub fn state(&self, index: usize) -> (state: Option<SlotState>)
        ensures
            state == if index < self.lifecycles().len() {
                Some(self.lifecycles()[index as int].state)
            } else {
                None
            },
    {
        if index < self.slots.len() {
            Some(self.slots[index].state())
        } else {
            None
        }
    }

    /// Whether the next duty cycle asks the endpoint of slot `index` for a
    /// target, so that its address has to be resolved first.
    pub fn needs_address(&self, index: usize) -> (needed: bool)
        ensures
            needed == (index < self.lifecycles().len() && (self.lifecycles()[index as int].state
                == SlotState::Disconnected || self.lifecycles()[index as int].state
                == SlotState::Connecting)),
    {
        index < self.slots.len() && self.slots[index].needs_address()
    }

    /// Runs one duty cycle over every slot, in index order.
    ///
    /// `addrs[i]` is the address resolved for slot `i`, if one was, and
    /// `ready[i]` tells whether its target was reported ready; a slot
    /// beyond the end of either has no address and is not ready. Each slot
    /// moves by its own lifecycle alone, whatever happens to the others.
    /// Returns the first slot that failed for good in this cycle.
    pub fn poll(&mut self, now_ns: u64, addrs: &[Option<SocketAddress>], ready: &[bool]) -> (fatal:
        Option<usize>)
        requires
            old(self).well_formed(),
        ensures
            final(self).well_formed(),
            final(self).interval() == old(self).interval(),
            final(self).lifecycles().len() == old(self).lifecycles().len(),
            forall|i: int|
                0 <= i < old(self).lifecycles().len() ==> is_cycle_outcome(
                    old(self).lifecycles()[i],
                    #[trigger] final(self).lifecycles()[i],
                    now_ns,
                    resolved_at(addrs@, i),
                    ready_at(ready@, i),
                ),
            match fatal {
                Some(index) => {
                    &&& index < old(self).lifecycles().len()
                    &&& old(self).lifecycles()[index as int].state != SlotState::Terminated
                    &&& final(self).lifecycles()[index as int].state == SlotState::Terminated
                },
                None => forall|i: int|
                    0 <= i < old(self).lifecycles().len() && (#[trigger] final(self).lifecycles()[i]).state == SlotState::Terminated ==> old(self).lifecycles()[i].state == SlotState::Terminated,
            },
    {
        let mut fatal: Option<usize> = None;
        let count = self.slots.len();
        let mut index: usize = 0;
        while index < count
            invariant
                index <= count,
                count == self.slots@.len(),
                count == old(self).slots@.len(),
                self.auto_disconnect_ns == old(self).auto_disconnect_ns,
                self.well_formed(),
                forall|i: int|
                    index <= i < count ==> (#[trigger] self.slots@[i]).lifecycle() == old(self).slots@[i].lifecycle(),
                forall|i: int|
                    0 <= i < index ==> is_cycle_outcome(
                        old(self).slots@[i].lifecycle(),
                        (#[trigger] self.slots@[i]).lifecycle(),
                        now_ns,
                        resolved_at(addrs@, i),
                        ready_at(ready@, i),
                    ),
                match fatal {
                    Some(found) => {
                        &&& found < index
                        &&& old(self).slots@[found as int].lifecycle().state
                            != SlotState::Terminated
                        &&& self.slots@[found as int].lifecycle().state == SlotState::Terminated
                    },
                    None => forall|i: int|
                        0 <= i < index && (#[trigger] self.slots@[i]).lifecycle().state
                            == SlotState::Terminated ==> old(self).slots@[i].lifecycle().state
                            == SlotState::Terminated,
                },
            decreases count - index,
        {
            let addr = if index < addrs.len() {
                addrs[index]
            } else {
                None
            };
            let is_ready = index < ready.len() && ready[index];
            let ghost held = self.slots@;
            let failed = self.slots[index].duty_cycle(now_ns, addr, is_ready);
            assert(forall|i: int| 0 <= i < count && i != index ==> self.slots@[i] == held[i]);
            if failed && fatal.is_none() {
                fatal = Some(index);
            }
            index += 1;
        }
        fatal
    }
}

} // verus!
