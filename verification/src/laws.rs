//! What holds of a transport as a whole: over one step and the next, and over every run.

use vstd::prelude::*;

use crate::message::{RaftMessage, ServerError, SnapshotStatus, SocketAddr, StoreMsg};
use crate::metrics::{decimal, digit, Counter, FailureKind, ResolveLabel};
use crate::router::{RaftStoreRouter, RouterEffect, StoreMsgOf};
use crate::snapshot::{ReportEffect, SnapshotReporter, Stopped};
use crate::transport::{
    resolved_effects, start_label, write_data_effects, Effect, TransportView,
};

verus! {

/// Something that happens to a transport.
pub enum Event<B, M> {
    /// A message for a store is handed in; `steps` are the router's if it comes to a report.
    Send { store_id: u64, msg: RaftMessage<B>, steps: Vec<RouterEffect<M>> },
    /// A resolution that was started for a message is answered; `steps` are the router's if
    /// it comes to a report.
    Resolved {
        store_id: u64,
        msg: RaftMessage<B>,
        answer: Result<SocketAddr, ServerError>,
        steps: Vec<RouterEffect<M>>,
    },
    /// Whoever shares the addresses has changed them.
    AddrsChanged { addrs: Map<u64, SocketAddr> },
}

/// What the transport knows after an event.
pub open spec fn step<B, M>(v: TransportView, event: Event<B, M>) -> TransportView {
    match event {
        Event::Send { store_id, msg, steps } => v.after_send(store_id),
        Event::Resolved { store_id, msg, answer, steps } => v.after_resolved(store_id, answer),
        Event::AddrsChanged { addrs } => TransportView { addrs, ..v },
    }
}

/// What the transport has done on an event.
pub open spec fn step_effects<B, M>(v: TransportView, event: Event<B, M>) -> Seq<
    Effect<B, M>,
> {
    match event {
        Event::Send { store_id, msg, steps } => v.send_effects(store_id, msg, steps),
        Event::Resolved { store_id, msg, answer, steps } => resolved_effects(
            store_id,
            msg,
            answer,
            steps,
        ),
        Event::AddrsChanged { addrs } => Seq::empty(),
    }
}

/// What the transport knows after a run of events.
pub open spec fn run<B, M>(v: TransportView, events: Seq<Event<B, M>>) -> TransportView
    decreases events.len(),
{
    if events.len() == 0 {
        v
    } else {
        step(run(v, events.drop_last()), events.last())
    }
}

/// What the transport has done over a run of events.
pub open spec fn run_effects<B, M>(v: TransportView, events: Seq<Event<B, M>>) -> Seq<
    Effect<B, M>,
>
    decreases events.len(),
{
    if events.len() == 0 {
        Seq::empty()
    } else {
        run_effects(v, events.drop_last()) + step_effects(
            run(v, events.drop_last()),
            events.last(),
        )
    }
}

pub open spec fn one_if(holds: bool) -> nat {
    if holds {
        1
    } else {
        0
    }
}

/// How many items of `items` satisfy `pred`.
pub open spec fn count<E>(items: Seq<E>, pred: spec_fn(E) -> bool) -> nat
    decreases items.len(),
{
    if items.len() == 0 {
        0
    } else {
        count(items.drop_last(), pred) + one_if(pred(items.last()))
    }
}

/// Asks for the address of the store.
pub open spec fn asks_for<B, M>(store_id: u64) -> spec_fn(Effect<B, M>) -> bool {
    |effect: Effect<B, M>|
        effect matches Effect::Resolve { store_id: asked, .. } && asked == store_id
}

/// Asks for the address of some store.
pub open spec fn asks<B, M>() -> spec_fn(Effect<B, M>) -> bool {
    |effect: Effect<B, M>| effect is Resolve
}

/// Hands a message to the connection or to the snapshot worker.
pub open spec fn delivers<B, M>() -> spec_fn(Effect<B, M>) -> bool {
    |effect: Effect<B, M>| effect is SendRaft || effect is ScheduleSnapshot
}

/// Reports a receiver unreachable.
pub open spec fn reports<B, M>() -> spec_fn(Effect<B, M>) -> bool {
    |effect: Effect<B, M>| effect is Router
}

/// Bumps the resolution counter under the label.
pub open spec fn bumps<B, M>(label: ResolveLabel) -> spec_fn(Effect<B, M>) -> bool {
    |effect: Effect<B, M>| effect == Effect::<B, M>::Count(Counter::ResolveStore(label))
}

/// Answers a resolution of the store's address.
pub open spec fn answers_for<B, M>(store_id: u64) -> spec_fn(Event<B, M>) -> bool {
    |event: Event<B, M>|
        event matches Event::Resolved { store_id: answered, .. } && answered == store_id
}

/// Hands a message in.
pub open spec fn is_send<B, M>() -> spec_fn(Event<B, M>) -> bool {
    |event: Event<B, M>| event is Send
}

/// Answers a resolution with an address.
pub open spec fn is_found<B, M>() -> spec_fn(Event<B, M>) -> bool {
    |event: Event<B, M>| event matches Event::Resolved { answer, .. } && answer is Ok
}

/// Answers a resolution without an address.
pub open spec fn is_not_found<B, M>() -> spec_fn(Event<B, M>) -> bool {
    |event: Event<B, M>| event matches Event::Resolved { answer, .. } && answer is Err
}

proof fn lemma_count_add<E>(a: Seq<E>, b: Seq<E>, pred: spec_fn(E) -> bool)
    ensures
        count(a + b, pred) == count(a, pred) + count(b, pred),
    decreases b.len(),
{
    if b.len() == 0 {
        assert(a + b =~= a);
    } else {
        assert((a + b).drop_last() =~= a + b.drop_last());
        lemma_count_add(a, b.drop_last(), pred);
    }
}

proof fn lemma_count_one<E>(item: E, pred: spec_fn(E) -> bool)
    ensures
        count(seq![item], pred) == one_if(pred(item)),
{
    assert(seq![item].drop_last() =~= Seq::<E>::empty());
    assert(count(Seq::<E>::empty(), pred) == 0);
}

/// What the last event of a run adds to the count of a kind of effect: an event has at most
/// two effects.
proof fn lemma_last_step_count<B, M>(
    v: TransportView,
    events: Seq<Event<B, M>>,
    pred: spec_fn(Effect<B, M>) -> bool,
)
    requires
        events.len() > 0,
    ensures
        ({
            let before = events.drop_last();
            let last = step_effects(run(v, before), events.last());
            &&& last.len() <= 2
            &&& count(run_effects(v, events), pred) == count(run_effects(v, before), pred)
                + one_if(last.len() > 0 && pred(last[0])) + one_if(last.len() > 1 && pred(last[1]))
        }),
{
    let before = events.drop_last();
    let last = step_effects(run(v, before), events.last());
    lemma_count_add(run_effects(v, before), last, pred);
    if last.len() == 1 {
        assert(last =~= seq![last[0]]);
        lemma_count_one(last[0], pred);
    } else if last.len() == 2 {
        assert(last =~= seq![last[0]] + seq![last[1]]);
        lemma_count_add(seq![last[0]], seq![last[1]], pred);
        lemma_count_one(last[0], pred);
        lemma_count_one(last[1], pred);
    }
}

/// A store's address is asked for at most once before an answer comes: over any run,
/// however the addresses change meanwhile, the requests for it exceed the answers by at
/// most one, and not at all if it was being asked for from the start.
pub proof fn law_one_resolution_at_a_time<B, M>(
    v: TransportView,
    events: Seq<Event<B, M>>,
    store_id: u64,
)
    ensures
        count(run_effects(v, events), asks_for(store_id)) <= count(events, answers_for(store_id))
            + one_if(!v.resolving.contains(store_id)),
{
    lemma_resolution_credit(v, events, store_id);
}

/// A request needs the store not to be marked and marks it; only an answer clears the mark.
proof fn lemma_resolution_credit<B, M>(
    v: TransportView,
    events: Seq<Event<B, M>>,
    store_id: u64,
)
    ensures
        count(run_effects(v, events), asks_for(store_id)) + one_if(
            !run(v, events).resolving.contains(store_id),
        ) <= count(events, answers_for(store_id)) + one_if(!v.resolving.contains(store_id)),
    decreases events.len(),
{
    if events.len() > 0 {
        lemma_resolution_credit(v, events.drop_last(), store_id);
        lemma_last_step_count(v, events, asks_for(store_id));
    }
}

/// The counters tell what happened to every message of a run. Each resolution that starts
/// is counted as one for a snapshot or one for another message, each answer as a success or
/// a failure. Each message handed in, and each one that comes back with an answer, is
/// delivered, or has its receiver's address asked for, or is dropped and counted; and those
/// that are dropped are those whose receivers are reported unreachable.
pub proof fn law_every_message_is_accounted_for<B, M>(
    v: TransportView,
    events: Seq<Event<B, M>>,
)
    ensures
        ({
            let effects = run_effects(v, events);
            &&& count(effects, asks()) == count(effects, bumps(ResolveLabel::Snap)) + count(
                effects,
                bumps(ResolveLabel::Store),
            )
            &&& count(events, is_found()) == count(effects, bumps(ResolveLabel::Success))
            &&& count(events, is_not_found()) == count(effects, bumps(ResolveLabel::Failed))
            &&& count(effects, reports()) == count(effects, bumps(ResolveLabel::Resolving))
                + count(effects, bumps(ResolveLabel::Failed))
            &&& count(events, is_send()) + count(events, is_found()) + count(
                events,
                is_not_found(),
            ) == count(effects, delivers()) + count(effects, asks()) + count(effects, reports())
        }),
    decreases events.len(),
{
    if events.len() > 0 {
        law_every_message_is_accounted_for(v, events.drop_last());
        lemma_last_step_count(v, events, asks());
        lemma_last_step_count(v, events, delivers());
        lemma_last_step_count(v, events, reports());
        lemma_last_step_count(v, events, bumps(ResolveLabel::Snap));
        lemma_last_step_count(v, events, bumps(ResolveLabel::Store));
        lemma_last_step_count(v, events, bumps(ResolveLabel::Success));
        lemma_last_step_count(v, events, bumps(ResolveLabel::Failed));
        lemma_last_step_count(v, events, bumps(ResolveLabel::Resolving));
    }
}

/// What goes over a store's connection is no snapshot; what goes to the snapshot worker is
/// one, with a reporter for the region, the peer and the store that its message names.
pub open spec fn fits_its_carrier<B, M>(effect: Effect<B, M>) -> bool {
    match effect {
        Effect::SendRaft { store_id, addr, msg } => !msg.has_snapshot,
        Effect::ScheduleSnapshot { addr, msg, reporter } => msg.has_snapshot
            && reporter.region_id == msg.region_id && reporter.to_peer_id == msg.to_peer.id
            && reporter.to_store_id == msg.to_peer.store_id,
        _ => true,
    }
}

/// Over any run, what goes over a store's connection is never a snapshot, what goes to the
/// snapshot worker always is, and its outcome will be reported to the region and about the
/// peer that the message was for.
pub proof fn law_snapshots_travel_apart<B, M>(v: TransportView, events: Seq<Event<B, M>>)
    ensures
        forall|i: int|
            0 <= i < run_effects(v, events).len() ==> fits_its_carrier(
                #[trigger] run_effects(v, events)[i],
            ),
    decreases events.len(),
{
    if events.len() > 0 {
        let before = events.drop_last();
        let earlier = run_effects(v, before);
        let latest = step_effects(run(v, before), events.last());
        law_snapshots_travel_apart(v, before);
        assert forall|i: int| 0 <= i < run_effects(v, events).len() implies fits_its_carrier(
            #[trigger] run_effects(v, events)[i],
        ) by {
            if i < earlier.len() {
                assert(run_effects(v, events)[i] == earlier[i]);
            } else {
                assert(run_effects(v, events)[i] == latest[i - earlier.len()]);
            }
        }
    }
}

/// A snapshot goes by the address alone: to whichever store it is sent, it is delivered in
/// the same way, whether the address was known or has just been found.
pub proof fn law_snapshot_goes_by_address_alone<B, M>(
    v: TransportView,
    one: u64,
    other: u64,
    addr: SocketAddr,
    msg: RaftMessage<B>,
    steps: Vec<RouterEffect<M>>,
)
    requires
        msg.has_snapshot,
    ensures
        write_data_effects::<B, M>(one, addr, msg) == write_data_effects::<B, M>(
            other,
            addr,
            msg,
        ),
        v.addrs.contains_pair(one, addr) && v.addrs.contains_pair(other, addr) ==> v.send_effects(
            one,
            msg,
            steps,
        ) == v.send_effects(other, msg, steps),
        resolved_effects(one, msg, Ok(addr), steps) == resolved_effects(
            other,
            msg,
            Ok(addr),
            steps,
        ),
{
}

/// The store and the message that an event is about.
pub open spec fn subject<B, M>(event: Event<B, M>) -> Option<(u64, RaftMessage<B>)> {
    match event {
        Event::Send { store_id, msg, steps } => Some((store_id, msg)),
        Event::Resolved { store_id, msg, answer, steps } => Some((store_id, msg)),
        Event::AddrsChanged { addrs } => None,
    }
}

/// A message is handed on as it was handed in: what an event has delivered is the message
/// it is about, to its store, at the address that is known of the store from then on; and
/// what an address is asked for is the message just handed in.
pub proof fn law_messages_are_handed_on<B, M>(
    v: TransportView,
    event: Event<B, M>,
    i: int,
)
    requires
        0 <= i < step_effects(v, event).len(),
    ensures
        step_effects(v, event)[i] matches Effect::SendRaft { store_id, addr, msg } ==> subject(
            event,
        ) == Some((store_id, msg)) && step(v, event).addrs.contains_pair(store_id, addr),
        step_effects(v, event)[i] matches Effect::ScheduleSnapshot { addr, msg, reporter } ==> (
        subject(event) matches Some((store_id, sent)) && sent == msg && step(
            v,
            event,
        ).addrs.contains_pair(store_id, addr)),
        step_effects(v, event)[i] matches Effect::Resolve { store_id, msg } ==> event is Send
            && subject(event) == Some((store_id, msg)),
{
}

/// A found address is remembered. After a resolution has found the store's address, and over
/// any run in which whoever shares the addresses leaves that one alone and no resolution is
/// answered that was not asked for, the address is not asked for again, and a message for
/// the store is delivered to it at once, with what is known staying as it is.
pub proof fn law_found_address_is_used<B, M>(
    v: TransportView,
    store_id: u64,
    addr: SocketAddr,
    events: Seq<Event<B, M>>,
    msg: RaftMessage<B>,
    steps: Vec<RouterEffect<M>>,
)
    requires
        forall|i: int|
            0 <= i < events.len() ==> leaves_alone(
                run(v.after_resolved(store_id, Ok(addr)), events.take(i)),
                #[trigger] events[i],
                store_id,
                addr,
            ),
    ensures
        ({
            let found = v.after_resolved(store_id, Ok(addr));
            let after = run(found, events);
            &&& after.addrs.contains_pair(store_id, addr)
            &&& !after.resolving.contains(store_id)
            &&& count(run_effects(found, events), asks_for(store_id)) == 0
            &&& after.send_effects(store_id, msg, steps) == write_data_effects::<B, M>(
                store_id,
                addr,
                msg,
            )
            &&& after.after_send(store_id) == after
        }),
    decreases events.len(),
{
    if events.len() > 0 {
        let found = v.after_resolved(store_id, Ok(addr));
        let before = events.drop_last();
        assert forall|i: int| 0 <= i < before.len() implies leaves_alone(
            run(found, before.take(i)),
            #[trigger] before[i],
            store_id,
            addr,
        ) by {
            assert(before[i] == events[i]);
            assert(before.take(i) =~= events.take(i));
        }
        law_found_address_is_used(v, store_id, addr, before, msg, steps);
        let last = events[events.len() - 1];
        assert(events.take(events.len() - 1) =~= before);
        lemma_last_step_count(found, events, asks_for(store_id));
    }
}

/// The event does not take the store's address away: whoever shares the addresses keeps it,
/// and a resolution of it is only answered while it is being asked for.
pub open spec fn leaves_alone<B, M>(
    v: TransportView,
    event: Event<B, M>,
    store_id: u64,
    addr: SocketAddr,
) -> bool {
    match event {
        Event::Send { .. } => true,
        Event::Resolved { store_id: answered, .. } => answered == store_id
            ==> v.resolving.contains(store_id),
        Event::AddrsChanged { addrs } => addrs.contains_pair(store_id, addr),
    }
}

/// After a resolution has found no address, whatever happened since it started, the next
/// message for the store starts another, unless somebody else has found the address. And
/// where nothing happened in between, everything is as it was before.
pub proof fn law_failed_resolution_is_undone<B, M>(
    v: TransportView,
    store_id: u64,
    error: ServerError,
    msg: RaftMessage<B>,
    steps: Vec<RouterEffect<M>>,
)
    requires
        !v.knows(store_id),
    ensures
        v.after_resolved(store_id, Err(error)).send_effects(store_id, msg, steps) == seq![
            Effect::<B, M>::Count(Counter::ResolveStore(start_label(msg))),
            Effect::Resolve { store_id, msg },
        ],
        !v.resolving.contains(store_id) ==> v.after_send(store_id).after_resolved(
            store_id,
            Err(error),
        ) == v,
{
    if !v.resolving.contains(store_id) {
        assert(v.after_send(store_id).after_resolved(store_id, Err(error)) =~= v);
    }
}

/// As long as a resolution of the store's address is not answered, and nobody else finds
/// the address, every message for the store is dropped, with its receiver reported
/// unreachable. A resolver that refuses a request gives no answer.
pub proof fn law_unanswered_resolution_holds_back<B, M>(
    v: TransportView,
    events: Seq<Event<B, M>>,
    store_id: u64,
    msg: RaftMessage<B>,
    steps: Vec<RouterEffect<M>>,
)
    requires
        !v.knows(store_id),
        count(events, answers_for(store_id)) == 0,
        forall|i: int|
            0 <= i < events.len() ==> (#[trigger] events[i] matches Event::AddrsChanged { addrs }
                ==> !addrs.contains_key(store_id)),
    ensures
        run(v.after_send(store_id), events).awaits(store_id),
        run(v.after_send(store_id), events).send_effects(store_id, msg, steps) == seq![
            Effect::<B, M>::Count(Counter::ResolveStore(ResolveLabel::Resolving)),
            Effect::Router(steps),
        ],
    decreases events.len(),
{
    if events.len() > 0 {
        let before = events.drop_last();
        assert forall|i: int| 0 <= i < before.len() implies (
        #[trigger] before[i] matches Event::AddrsChanged { addrs } ==> !addrs.contains_key(
            store_id,
        )) by {
            assert(before[i] == events[i]);
        }
        assert(events.last() == events[events.len() - 1]);
        law_unanswered_resolution_holds_back(v, before, store_id, msg, steps);
    }
}

/// What happens to one store leaves what is known of the others as it was.
pub proof fn law_stores_are_independent(
    v: TransportView,
    store_id: u64,
    answer: Result<SocketAddr, ServerError>,
    other: u64,
)
    requires
        other != store_id,
    ensures
        v.after_send(store_id).addrs == v.addrs,
        v.after_send(store_id).resolving.contains(other) == v.resolving.contains(other),
        v.after_resolved(store_id, answer).knows(other) == v.knows(other),
        v.after_resolved(store_id, answer).addrs[other] == v.addrs[other],
        v.after_resolved(store_id, answer).resolving.contains(other) == v.resolving.contains(
            other,
        ),
{
}

/// No store's address is both known and being asked for.
pub open spec fn settled(v: TransportView) -> bool {
    forall|store_id: u64| v.knows(store_id) ==> !#[trigger] v.resolving.contains(store_id)
}

/// No address is both known and being asked for, at any time: not of a new transport, and
/// not after any run in which whoever shares the addresses does no more than drop some.
pub proof fn law_known_addresses_are_not_asked_for<B, M>(
    v: TransportView,
    events: Seq<Event<B, M>>,
)
    requires
        settled(v),
        forall|i: int|
            0 <= i < events.len() ==> (#[trigger] events[i] matches Event::AddrsChanged { addrs }
                ==> addrs.dom().subset_of(run(v, events.take(i)).addrs.dom())),
    ensures
        settled(run(v, events)),
        settled(TransportView { addrs: v.addrs, resolving: Set::empty() }),
    decreases events.len(),
{
    if events.len() > 0 {
        let before = events.drop_last();
        assert forall|i: int| 0 <= i < before.len() implies (
        #[trigger] before[i] matches Event::AddrsChanged { addrs } ==> addrs.dom().subset_of(
            run(v, before.take(i)).addrs.dom(),
        )) by {
            assert(before[i] == events[i]);
            assert(before.take(i) =~= events.take(i));
        }
        law_known_addresses_are_not_asked_for(v, before);
        let last = events[events.len() - 1];
        assert(events.take(events.len() - 1) =~= before);
    }
}

/// The router reports a peer unreachable as a router does that says nothing of its own: as
/// its `try_send` does.
pub open spec fn keeps_default_report<T: RaftStoreRouter>(router: T) -> bool {
    forall|
        region_id: u64,
        to_peer_id: u64,
        to_store_id: u64,
        steps: Vec<RouterEffect<StoreMsgOf<T>>>,
    |
        #[trigger] call_ensures(
            T::report_unreachable,
            (&router, region_id, to_peer_id, to_store_id),
            steps,
        ) ==> call_ensures(
            T::try_send,
            (&router, StoreMsg::ReportUnreachable { region_id, to_peer_id }),
            steps,
        )
}

/// With a router that keeps the default report, the store plays no part in it: whichever
/// two stores are named, what is answered is what one and the same `try_send` answers.
pub proof fn law_default_report_ignores_the_store<T: RaftStoreRouter>(
    router: T,
    region_id: u64,
    to_peer_id: u64,
    one: u64,
    other: u64,
    one_steps: Vec<RouterEffect<StoreMsgOf<T>>>,
    other_steps: Vec<RouterEffect<StoreMsgOf<T>>>,
)
    requires
        keeps_default_report(router),
        call_ensures(
            T::report_unreachable,
            (&router, region_id, to_peer_id, one),
            one_steps,
        ),
        call_ensures(
            T::report_unreachable,
            (&router, region_id, to_peer_id, other),
            other_steps,
        ),
    ensures
        call_ensures(
            T::try_send,
            (&router, StoreMsg::ReportUnreachable { region_id, to_peer_id }),
            one_steps,
        ),
        call_ensures(
            T::try_send,
            (&router, StoreMsg::ReportUnreachable { region_id, to_peer_id }),
            other_steps,
        ),
{
}

/// Tells the local store how the snapshot ended.
pub open spec fn tells() -> spec_fn(ReportEffect) -> bool {
    |effect: ReportEffect| effect is SendStatus
}

/// However it goes with a snapshot, its outcome is reported once: success if the worker
/// took the snapshot and sent it, failure if it did not take it or did not send it. What is
/// told names the reporter's region and peer. A failure is counted under the reporter's
/// store, a success is not counted.
pub proof fn law_snapshot_outcome_is_reported_once(
    reporter: SnapshotReporter,
    answer: Result<(), Stopped>,
    result: Result<(), ServerError>,
)
    ensures
        ({
            let effects = reporter.scheduled_effects(answer) + if answer is Ok {
                reporter.finished_effects(result)
            } else {
                Seq::empty()
            };
            let status = if answer is Ok && result is Ok {
                SnapshotStatus::Finish
            } else {
                SnapshotStatus::Failure
            };
            &&& effects == reporter.report_effects(status)
            &&& count(effects, tells()) == 1
            &&& effects.len() == 1 + one_if(status == SnapshotStatus::Failure)
            &&& status == SnapshotStatus::Failure ==> effects[0] == ReportEffect::Count(
                Counter::ReportFailure {
                    kind: FailureKind::Snapshot,
                    store_id: reporter.to_store_id,
                },
            )
            &&& effects.last() matches ReportEffect::SendStatus(told)
            &&& told.region_id == reporter.region_id
            &&& told.to_peer_id == reporter.to_peer_id
            &&& told.status == status
        }),
{
    let effects = reporter.scheduled_effects(answer) + if answer is Ok {
        reporter.finished_effects(result)
    } else {
        Seq::empty()
    };
    let status = if answer is Ok && result is Ok {
        SnapshotStatus::Finish
    } else {
        SnapshotStatus::Failure
    };
    assert(effects =~= reporter.report_effects(status));
    lemma_count_one(effects.last(), tells());
    if status == SnapshotStatus::Failure {
        lemma_count_one(effects[0], tells());
        lemma_count_add(seq![effects[0]], seq![effects[1]], tells());
        assert(effects =~= seq![effects[0]] + seq![effects[1]]);
    } else {
        assert(effects =~= seq![effects.last()]);
    }
}

/// Two stores never share a label value.
pub proof fn law_store_labels_differ(a: u64, b: u64)
    requires
        a != b,
    ensures
        decimal(a as nat) != decimal(b as nat),
{
    if decimal(a as nat) == decimal(b as nat) {
        lemma_decimal_injective(a as nat, b as nat);
    }
}

proof fn lemma_decimal_injective(a: nat, b: nat)
    requires
        decimal(a) == decimal(b),
    ensures
        a == b,
    decreases a,
{
    lemma_decimal_len(a);
    lemma_decimal_len(b);
    assert(decimal(a).last() == digit(a % 10));
    assert(decimal(b).last() == digit(b % 10));
    assert(a % 10 == b % 10);
    if a >= 10 {
        assert(decimal(a).drop_last() =~= decimal(a / 10));
        assert(decimal(b).drop_last() =~= decimal(b / 10));
        lemma_decimal_injective(a / 10, b / 10);
    }
}

proof fn lemma_decimal_len(n: nat)
    ensures
        n < 10 ==> decimal(n).len() == 1,
        n >= 10 ==> decimal(n).len() >= 2,
    decreases n,
{
    if n >= 10 {
        lemma_decimal_len(n / 10);
    }
}

} // verus!
