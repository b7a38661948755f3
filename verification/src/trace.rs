//! What holds of the driver over whole sequences of events.
//!
//! The host may deliver events in any order: callbacks and client requests
//! interleave as they please.  [`run`] says where a sequence of events
//! leaves the driver and [`action_at`] what the driver answered to each.
//! The theorems below are stated over those two and proved from [`step`],
//! the table that the driver's routines implement.

use crate::device::{answer, SharedState};
use crate::driver::{activated_block, step, Action, DriverState, Event};
use crate::request::STATUS_SUCCESS;
use vstd::prelude::*;

verus! {

/// The state in which `events`, dealt with in order, leave a driver that
/// started in `state`.
pub open spec fn run(state: DriverState, events: Seq<Event>) -> DriverState
    decreases events.len(),
{
    if events.len() == 0 {
        state
    } else {
        step(run(state, events.drop_last()), events.last()).0
    }
}

/// What a driver that started in `state` asks of the host upon the event at
/// index `i` of `events`.
pub open spec fn action_at(state: DriverState, events: Seq<Event>, i: int) -> Action {
    step(run(state, events.take(i)), events[i]).1
}

/// The number of callback runs among `events`.
pub open spec fn firings_in(events: Seq<Event>) -> nat
    decreases events.len(),
{
    if events.len() == 0 {
        0
    } else {
        firings_in(events.drop_last()) + if events.last() is TimerFired {
            1nat
        } else {
            0nat
        }
    }
}

/// Whether `event` is a callback run or a client's request: what an active
/// service sees between activation and deactivation.
pub open spec fn is_traffic(event: Event) -> bool {
    event is TimerFired || event is Create || event is Close || event is DeviceControl
}

/// Whether `event` is a client's request.
pub open spec fn is_request(event: Event) -> bool {
    event is Create || event is Close || event is DeviceControl
}

/// The counter that stood at `counter` after `firings` more callback runs.
pub open spec fn counter_after(counter: u32, firings: nat) -> u32 {
    ((counter + firings) % 0x1_0000_0000) as u32
}

/// The block after `firings` more callback runs.
pub open spec fn block_after(block: SharedState, firings: nat) -> SharedState {
    SharedState {
        counter: counter_after(block.counter, firings),
        firings: block.firings + firings,
        ..block
    }
}

/// One event keeps the driver's invariant.
pub proof fn lemma_step_preserves_wf(state: DriverState, event: Event)
    requires
        state.wf(),
    ensures
        step(state, event).0.wf(),
{
}

/// The driver's invariant holds after every sequence of events: wherever
/// a block exists, its counter is the number of its firings modulo 2^32,
/// its timer is armed and its lock is free.
pub proof fn lemma_run_preserves_wf(state: DriverState, events: Seq<Event>)
    requires
        state.wf(),
    ensures
        run(state, events).wf(),
    decreases events.len(),
{
    if events.len() > 0 {
        lemma_run_preserves_wf(state, events.drop_last());
        lemma_step_preserves_wf(run(state, events.drop_last()), events.last());
    }
}

/// Callback runs and requests leave an active service active, with its
/// block advanced by the number of runs and otherwise as it was.
pub proof fn lemma_traffic_advances_block(block: SharedState, events: Seq<Event>)
    requires
        forall|i: int| 0 <= i < events.len() ==> is_traffic(#[trigger] events[i]),
    ensures
        run(DriverState::Active(block), events) == DriverState::Active(
            block_after(block, firings_in(events)),
        ),
    decreases events.len(),
{
    if events.len() == 0 {
        lemma_block_after_sum(block, 0, 0);
    } else {
        let prefix = events.drop_last();
        let last = events.last();
        let more: nat = if last is TimerFired {
            1
        } else {
            0
        };
        lemma_traffic_advances_block(block, prefix);
        lemma_traffic_step(block_after(block, firings_in(prefix)), last);
        lemma_block_after_sum(block, firings_in(prefix), more);
    }
}

/// Advancing a block by some runs and then by more is advancing it by the
/// sum; advancing it by none leaves it as it is.
pub proof fn lemma_block_after_sum(block: SharedState, first: nat, second: nat)
    ensures
        block_after(block_after(block, first), second) == block_after(block, first + second),
        block_after(block, 0) == block,
{
}

/// What one callback run or request does to an active service.
pub proof fn lemma_traffic_step(block: SharedState, event: Event)
    requires
        is_traffic(event),
    ensures
        step(DriverState::Active(block), event).0 == DriverState::Active(
            block_after(
                block,
                if event is TimerFired {
                    1nat
                } else {
                    0nat
                },
            ),
        ),
        event matches Event::DeviceControl(request) ==> step(DriverState::Active(block), event).1
            == Action::Complete(answer(request, block.counter)),
{
}

/// No update is lost.  However callback runs and requests interleave, an
/// active service stays active, its counter has advanced by the number of
/// runs, and each query is answered with the counter as all runs before it
/// left it.
pub proof fn lemma_no_lost_updates(block: SharedState, events: Seq<Event>)
    requires
        forall|i: int| 0 <= i < events.len() ==> is_traffic(#[trigger] events[i]),
    ensures
        run(DriverState::Active(block), events) == DriverState::Active(
            block_after(block, firings_in(events)),
        ),
        forall|i: int|
            0 <= i < events.len() ==> (#[trigger] events[i] matches Event::DeviceControl(request)
                ==> action_at(DriverState::Active(block), events, i) == Action::Complete(
                answer(request, counter_after(block.counter, firings_in(events.take(i)))),
            )),
{
    lemma_traffic_advances_block(block, events);
    assert forall|i: int| 0 <= i < events.len() implies (#[trigger] events[i] matches Event::DeviceControl(
        request,
    ) ==> action_at(DriverState::Active(block), events, i) == Action::Complete(
        answer(request, counter_after(block.counter, firings_in(events.take(i)))),
    )) by {
        let earlier = events.take(i);
        assert forall|j: int| 0 <= j < earlier.len() implies is_traffic(#[trigger] earlier[j]) by {
            assert(earlier[j] == events[j]);
        }
        lemma_traffic_advances_block(block, earlier);
        lemma_traffic_step(block_after(block, firings_in(earlier)), events[i]);
    }
}

/// After `n` callback runs from activation the counter is `n` modulo 2^32.
pub proof fn lemma_monotonic_wrap(n: nat)
    ensures
        run(DriverState::Active(activated_block()), Seq::new(n, |i: int| Event::TimerFired))
            == DriverState::Active(block_after(activated_block(), n)),
        block_after(activated_block(), n).counter == n % 0x1_0000_0000,
        block_after(activated_block(), n).firings == n,
{
    let events = Seq::new(n, |i: int| Event::TimerFired);
    lemma_no_lost_updates(activated_block(), events);
    lemma_firings_in_all_fired(events);
}

/// A sequence of callback runs and nothing else holds as many runs as it is
/// long.
pub proof fn lemma_firings_in_all_fired(events: Seq<Event>)
    requires
        forall|i: int| 0 <= i < events.len() ==> #[trigger] events[i] is TimerFired,
    ensures
        firings_in(events) == events.len(),
    decreases events.len(),
{
    if events.len() > 0 {
        lemma_firings_in_all_fired(events.drop_last());
    }
}

/// Deactivation is final.  A driver that is inactive stays inactive until
/// it is loaded again: no event makes or changes a block, every request is
/// turned away as unavailable, and every other event is ignored.
pub proof fn lemma_inactive_until_loaded(events: Seq<Event>)
    requires
        forall|i: int| 0 <= i < events.len() ==> !(#[trigger] events[i] is Load),
    ensures
        run(DriverState::Inactive, events) == DriverState::Inactive,
        forall|i: int|
            0 <= i < events.len() ==> action_at(DriverState::Inactive, events, i) == if is_request(
                #[trigger] events[i],
            ) {
                Action::Unavailable
            } else {
                Action::Ignored
            },
    decreases events.len(),
{
    if events.len() > 0 {
        let prefix = events.drop_last();
        lemma_inactive_until_loaded(prefix);
        assert forall|i: int| 0 <= i < events.len() implies action_at(
            DriverState::Inactive,
            events,
            i,
        ) == if is_request(#[trigger] events[i]) {
            Action::Unavailable
        } else {
            Action::Ignored
        } by {
            if i < events.len() - 1 {
                assert(events.take(i) == prefix.take(i));
                assert(action_at(DriverState::Inactive, events, i) == action_at(
                    DriverState::Inactive,
                    prefix,
                    i,
                ));
            } else {
                assert(events.take(i) == prefix);
            }
        }
    }
}

/// Deactivation runs to its end from any active state: unloading and then
/// draining leaves the driver inactive, whatever callbacks ran in between,
/// and the host is asked to drain before it is asked to unregister.
pub proof fn lemma_deactivation_completes(block: SharedState, in_flight: nat)
    ensures
        ({
            let events = seq![Event::Unload] + Seq::new(in_flight, |i: int| Event::TimerFired)
                + seq![Event::Drained];
            &&& run(DriverState::Active(block), events) == DriverState::Inactive
            &&& action_at(DriverState::Active(block), events, 0) == Action::Drain
            &&& action_at(DriverState::Active(block), events, in_flight as int + 1) == Action::Unregister
        }),
{
    let start = DriverState::Active(block);
    let fired = Seq::new(in_flight, |i: int| Event::TimerFired);
    let head = seq![Event::Unload] + fired;
    let events = head + seq![Event::Drained];
    lemma_draining_absorbs_firings(block, fired);
    assert(events.take(in_flight as int + 1) == head);
    assert(events.take(0) == Seq::<Event>::empty());
    lemma_run_concat(start, seq![Event::Unload], fired);
    assert(seq![Event::Unload].drop_last() == Seq::<Event>::empty());
}

/// While the driver drains, callback runs advance the block and change
/// nothing else.
pub proof fn lemma_draining_absorbs_firings(block: SharedState, events: Seq<Event>)
    requires
        forall|i: int| 0 <= i < events.len() ==> #[trigger] events[i] is TimerFired,
    ensures
        run(DriverState::Draining(block), events) == DriverState::Draining(
            block_after(block, events.len()),
        ),
    decreases events.len(),
{
    if events.len() > 0 {
        lemma_draining_absorbs_firings(block, events.drop_last());
    }
}

/// Dealing with one sequence of events and then another is dealing with
/// the two joined.
pub proof fn lemma_run_concat(state: DriverState, first: Seq<Event>, second: Seq<Event>)
    ensures
        run(state, first + second) == run(run(state, first), second),
    decreases second.len(),
{
    if second.len() == 0 {
        assert(first + second == first);
    } else {
        lemma_run_concat(state, first, second.drop_last());
        assert((first + second).drop_last() == first + second.drop_last());
    }
}

/// Activation is all or nothing.  Whatever the host reports for the two
/// registrations, the driver ends either active, with both registered and
/// the block armed, or inactive, with nothing registered and no block; and
/// it asks for the device to be deleted exactly when the device was created
/// and the link was not.
pub proof fn lemma_activation_is_atomic(device_status: i32, link_status: i32)
    ensures
        ({
            let events = seq![
                Event::Load,
                Event::DeviceCreated { status: device_status },
                Event::LinkCreated { status: link_status },
            ];
            let end = run(DriverState::Inactive, events);
            &&& (device_status == STATUS_SUCCESS && link_status == STATUS_SUCCESS) ==> end
                == DriverState::Active(activated_block())
            &&& !(device_status == STATUS_SUCCESS && link_status == STATUS_SUCCESS) ==> end
                == DriverState::Inactive
            &&& action_at(DriverState::Inactive, events, 0) == Action::CreateDevice
            &&& device_status != STATUS_SUCCESS ==> action_at(DriverState::Inactive, events, 1)
                == (Action::Abort { status: device_status, delete_device: false })
            &&& (device_status == STATUS_SUCCESS && link_status != STATUS_SUCCESS) ==> action_at(
                DriverState::Inactive,
                events,
                2,
            ) == (Action::Abort { status: link_status, delete_device: true })
        }),
{
    let events = seq![
        Event::Load,
        Event::DeviceCreated { status: device_status },
        Event::LinkCreated { status: link_status },
    ];
    let start = DriverState::Inactive;
    let one = seq![Event::Load];
    let two = seq![Event::Load, Event::DeviceCreated { status: device_status }];
    assert(events.take(0) == Seq::<Event>::empty());
    assert(events.take(1) == one);
    assert(events.drop_last() == two);
    assert(two.drop_last() == one);
    assert(one.drop_last() == Seq::<Event>::empty());
}

} // verus!
