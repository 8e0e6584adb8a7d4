//! Events in the order of their time.

use crate::event::RelayEvent;
use std::collections::VecDeque;
use vstd::prelude::*;

verus! {

/// Whether no event is older than one before it.
pub open spec fn in_order(events: Seq<RelayEvent>) -> bool {
    forall|i: int, j: int|
        0 <= i <= j < events.len() ==> (#[trigger] events[i]).created_at <= (
        #[trigger] events[j]).created_at
}

/// The events of one time, in the order in which they stand.
pub open spec fn at_time(events: Seq<RelayEvent>, time: u64) -> Seq<RelayEvent> {
    events.filter(|event: RelayEvent| event.created_at == time)
}

/// Whether `sorted` holds the events of `events` by time, with those of the same
/// time in the order in which they stood.
pub open spec fn is_stable_sort(events: Seq<RelayEvent>, sorted: Seq<RelayEvent>) -> bool {
    &&& in_order(sorted)
    &&& forall|time: u64| #[trigger] at_time(sorted, time) == at_time(events, time)
}

proof fn lemma_at_time_add(a: Seq<RelayEvent>, b: Seq<RelayEvent>, time: u64)
    ensures
        at_time(a + b, time) == at_time(a, time) + at_time(b, time),
{
    Seq::filter_distributes_over_add(a, b, |event: RelayEvent| event.created_at == time);
}

proof fn lemma_at_time_one(event: RelayEvent, time: u64)
    ensures
        at_time(seq![event], time) == (if event.created_at == time {
            seq![event]
        } else {
            seq![]
        }),
{
    reveal(Seq::filter);
    assert(seq![event].drop_last() =~= seq![]);
    let keep = |event: RelayEvent| event.created_at == time;
    assert(seq![event].drop_last().filter(keep) =~= seq![]);
}

/// Events that are all later than `time` hold none of that time.
proof fn lemma_at_time_none(events: Seq<RelayEvent>, time: u64)
    requires
        forall|i: int| 0 <= i < events.len() ==> (#[trigger] events[i]).created_at > time,
    ensures
        at_time(events, time) == Seq::<RelayEvent>::empty(),
    decreases events.len(),
{
    reveal(Seq::filter);
    if events.len() > 0 {
        lemma_at_time_none(events.drop_last(), time);
    }
}

/// Moving the first of `rest` to the end of `done` changes nothing as to time.
proof fn lemma_at_time_move(done: Seq<RelayEvent>, rest: Seq<RelayEvent>, time: u64)
    requires
        rest.len() > 0,
    ensures
        at_time(done.push(rest[0]), time) + at_time(rest.drop_first(), time) == at_time(done, time)
            + at_time(rest, time),
{
    let first = seq![rest[0]];
    assert(done.push(rest[0]) =~= done + first);
    assert(rest =~= first + rest.drop_first());
    lemma_at_time_add(done, first, time);
    lemma_at_time_add(first, rest.drop_first(), time);
    assert(at_time(done, time) + at_time(first, time) + at_time(rest.drop_first(), time)
        =~= at_time(done, time) + (at_time(first, time) + at_time(rest.drop_first(), time)));
}

/// Moving the first of `b` to the end of `done`, past an `a` that is all later,
/// changes nothing as to time.
proof fn lemma_at_time_move_past(
    done: Seq<RelayEvent>,
    a: Seq<RelayEvent>,
    b: Seq<RelayEvent>,
    time: u64,
)
    requires
        b.len() > 0,
        forall|i: int| 0 <= i < a.len() ==> (#[trigger] a[i]).created_at > b[0].created_at,
    ensures
        at_time(done.push(b[0]), time) + at_time(a, time) + at_time(b.drop_first(), time)
            == at_time(done, time) + at_time(a, time) + at_time(b, time),
{
    let first = seq![b[0]];
    assert(done.push(b[0]) =~= done + first);
    assert(b =~= first + b.drop_first());
    lemma_at_time_add(done, first, time);
    lemma_at_time_add(first, b.drop_first(), time);
    lemma_at_time_one(b[0], time);
    if time == b[0].created_at {
        lemma_at_time_none(a, time);
    }
    assert(at_time(done.push(b[0]), time) + at_time(a, time) + at_time(b.drop_first(), time)
        =~= at_time(done, time) + at_time(a, time) + at_time(b, time));
}

/// Merges two runs that are in order. Of events of the same time, those of the
/// first run come first.
fn merge(a: VecDeque<RelayEvent>, b: VecDeque<RelayEvent>) -> (out: VecDeque<RelayEvent>)
    requires
        in_order(a@),
        in_order(b@),
    ensures
        in_order(out@),
        forall|time: u64| #[trigger]
            at_time(out@, time) == at_time(a@, time) + at_time(b@, time),
{
    let ghost a0 = a@;
    let ghost b0 = b@;
    let mut a = a;
    let mut b = b;
    let mut out: VecDeque<RelayEvent> = VecDeque::new();
    proof {
        assert forall|time: u64| #[trigger] at_time(out@, time) + at_time(a@, time) + at_time(
            b@,
            time,
        ) == at_time(a0, time) + at_time(b0, time) by {
            reveal(Seq::filter);
            assert(at_time(out@, time) =~= seq![]);
        }
    }
    while a.len() > 0 && b.len() > 0
        invariant
            in_order(a@),
            in_order(b@),
            in_order(out@),
            forall|i: int, j: int|
                0 <= i < out@.len() && 0 <= j < a@.len() ==> (#[trigger] out@[i]).created_at <= (
                #[trigger] a@[j]).created_at,
            forall|i: int, j: int|
                0 <= i < out@.len() && 0 <= j < b@.len() ==> (#[trigger] out@[i]).created_at <= (
                #[trigger] b@[j]).created_at,
            forall|time: u64| #[trigger]
                at_time(out@, time) + at_time(a@, time) + at_time(b@, time) == at_time(a0, time)
                    + at_time(b0, time),
        decreases a@.len() + b@.len(),
    {
        let ghost out1 = out@;
        let ghost a1 = a@;
        let ghost b1 = b@;
        if b[0].created_at < a[0].created_at {
            let event = b.pop_front().unwrap();
            out.push_back(event);
            proof {
                assert(b@ =~= b1.drop_first());
                assert forall|time: u64| #[trigger] at_time(out@, time) + at_time(a@, time)
                    + at_time(b@, time) == at_time(a0, time) + at_time(b0, time) by {
                    lemma_at_time_move_past(out1, a1, b1, time);
                    assert(at_time(out1, time) + at_time(a1, time) + at_time(b1, time) == at_time(
                        a0,
                        time,
                    ) + at_time(b0, time));
                }
            }
        } else {
            let event = a.pop_front().unwrap();
            out.push_back(event);
            proof {
                assert(a@ =~= a1.drop_first());
                assert forall|time: u64| #[trigger] at_time(out@, time) + at_time(a@, time)
                    + at_time(b@, time) == at_time(a0, time) + at_time(b0, time) by {
                    lemma_at_time_move(out1, a1, time);
                    assert(at_time(out1, time) + at_time(a1, time) + at_time(b1, time) == at_time(
                        a0,
                        time,
                    ) + at_time(b0, time));
                }
            }
        }
    }
    let ghost out1 = out@;
    let ghost a1 = a@;
    let ghost b1 = b@;
    out.append(&mut a);
    out.append(&mut b);
    proof {
        assert forall|time: u64| #[trigger] at_time(out@, time) == at_time(a0, time) + at_time(
            b0,
            time,
        ) by {
            assert(at_time(out1, time) + at_time(a1, time) + at_time(b1, time) == at_time(a0, time)
                + at_time(b0, time));
            lemma_at_time_add(out1, a1, time);
            lemma_at_time_add(out1 + a1, b1, time);
        }
    }
    out
}

/// Sorts by time, in halves.
fn sort(events: VecDeque<RelayEvent>) -> (sorted: VecDeque<RelayEvent>)
    ensures
        is_stable_sort(events@, sorted@),
    decreases events@.len(),
{
    let len = events.len();
    if len < 2 {
        return events;
    }
    let ghost all = events@;
    let mut left = events;
    let right = left.split_off(len / 2);
    let ghost l = left@;
    let ghost r = right@;
    let out = merge(sort(left), sort(right));
    proof {
        assert(all =~= l + r);
        assert forall|time: u64| #[trigger] at_time(out@, time) == at_time(all, time) by {
            lemma_at_time_add(l, r, time);
        }
    }
    out
}

/// Sorts events by their time, oldest first. Events of the same time keep their
/// order.
pub fn sort_events(events: Vec<RelayEvent>) -> (sorted: Vec<RelayEvent>)
    ensures
        is_stable_sort(events@, sorted@),
{
    let ghost all = events@;
    let mut events = events;
    let mut queue: VecDeque<RelayEvent> = VecDeque::new();
    while events.len() > 0
        invariant
            events@ + queue@ =~= all,
        decreases events@.len(),
    {
        let event = events.pop().unwrap();
        queue.push_front(event);
    }
    assert(queue@ =~= all);
    let mut queue = sort(queue);
    let ghost result = queue@;
    let mut sorted: Vec<RelayEvent> = Vec::new();
    while queue.len() > 0
        invariant
            sorted@ + queue@ =~= result,
        decreases queue@.len(),
    {
        let event = queue.pop_front().unwrap();
        sorted.push(event);
    }
    assert(sorted@ =~= result);
    sorted
}

// ---------------------------------------------------------------------------
// Laws
// ---------------------------------------------------------------------------

proof fn lemma_count_at_time(events: Seq<RelayEvent>, event: RelayEvent)
    ensures
        events.to_multiset().count(event) == at_time(
            events,
            event.created_at,
        ).to_multiset().count(event),
    decreases events.len(),
{
    broadcast use vstd::seq_lib::group_to_multiset_ensures;

    reveal(Seq::filter);
    if events.len() > 0 {
        lemma_count_at_time(events.drop_last(), event);
        assert(events =~= events.drop_last().push(events.last()));
    }
}

/// Sorted events stand oldest first, and those of one time stand in the order in
/// which they stood before.
pub proof fn law_sort_oldest_first(events: Seq<RelayEvent>, sorted: Seq<RelayEvent>, time: u64)
    requires
        is_stable_sort(events, sorted),
    ensures
        sorted.len() == events.len(),
        forall|i: int, j: int|
            0 <= i < j < sorted.len() ==> (#[trigger] sorted[i]).created_at <= (
            #[trigger] sorted[j]).created_at,
        sorted.filter(|event: RelayEvent| event.created_at == time) == events.filter(
            |event: RelayEvent| event.created_at == time,
        ),
{
    broadcast use vstd::seq_lib::group_to_multiset_ensures;

    law_sort_keeps_events(events, sorted);
    assert(sorted.to_multiset().len() == events.to_multiset().len());
    assert(at_time(sorted, time) == at_time(events, time));
}

/// Sorting loses no event, adds none and changes none.
pub proof fn law_sort_keeps_events(events: Seq<RelayEvent>, sorted: Seq<RelayEvent>)
    requires
        is_stable_sort(events, sorted),
    ensures
        sorted.to_multiset() == events.to_multiset(),
{
    assert forall|event: RelayEvent|
        sorted.to_multiset().count(event) == events.to_multiset().count(event) by {
        lemma_count_at_time(events, event);
        lemma_count_at_time(sorted, event);
        assert(at_time(sorted, event.created_at) == at_time(events, event.created_at));
    }
    assert(sorted.to_multiset() =~= events.to_multiset());
}

/// The first of some events is the first of its time.
proof fn lemma_at_time_first(events: Seq<RelayEvent>, time: u64)
    requires
        events.len() > 0,
    ensures
        at_time(events, time) == (if events[0].created_at == time {
            seq![events[0]] + at_time(events.drop_first(), time)
        } else {
            at_time(events.drop_first(), time)
        }),
{
    assert(events =~= seq![events[0]] + events.drop_first());
    lemma_at_time_add(seq![events[0]], events.drop_first(), time);
    lemma_at_time_one(events[0], time);
    assert(seq![] + at_time(events.drop_first(), time) =~= at_time(events.drop_first(), time));
}

proof fn lemma_first_not_later(a: Seq<RelayEvent>, b: Seq<RelayEvent>)
    requires
        in_order(a),
        a.len() > 0,
        b.len() > 0,
        forall|time: u64| #[trigger] at_time(a, time) == at_time(b, time),
    ensures
        a[0].created_at <= b[0].created_at,
{
    let time = b[0].created_at;
    if a[0].created_at > time {
        lemma_at_time_none(a, time);
        lemma_at_time_first(b, time);
        assert(at_time(a, time) == at_time(b, time));
        assert(at_time(b, time).len() > 0);
    }
}

proof fn lemma_same_order(a: Seq<RelayEvent>, b: Seq<RelayEvent>)
    requires
        in_order(a),
        in_order(b),
        forall|time: u64| #[trigger] at_time(a, time) == at_time(b, time),
    ensures
        a == b,
    decreases a.len(),
{
    law_sort_keeps_events(a, b);
    broadcast use vstd::seq_lib::group_to_multiset_ensures;

    assert(a.to_multiset().len() == a.len());
    assert(b.to_multiset().len() == b.len());
    if a.len() > 0 {
        lemma_first_not_later(a, b);
        lemma_first_not_later(b, a);
        let first = a[0].created_at;
        lemma_at_time_first(a, first);
        lemma_at_time_first(b, first);
        assert(at_time(a, first)[0] == a[0]);
        assert(at_time(b, first)[0] == b[0]);
        let ta = a.drop_first();
        let tb = b.drop_first();
        assert forall|time: u64| #[trigger] at_time(ta, time) == at_time(tb, time) by {
            lemma_at_time_first(a, time);
            lemma_at_time_first(b, time);
            assert(at_time(a, time) == at_time(b, time));
            if time == first {
                assert(at_time(a, time).drop_first() =~= at_time(ta, time));
                assert(at_time(b, time).drop_first() =~= at_time(tb, time));
            }
        }
        lemma_same_order(ta, tb);
        assert(a =~= seq![a[0]] + ta);
        assert(b =~= seq![b[0]] + tb);
    }
}

/// There is one way to sort events by time and keep the order within a time.
pub proof fn law_sort_is_determined(
    events: Seq<RelayEvent>,
    one: Seq<RelayEvent>,
    other: Seq<RelayEvent>,
)
    requires
        is_stable_sort(events, one),
        is_stable_sort(events, other),
    ensures
        one == other,
{
    assert forall|time: u64| #[trigger] at_time(one, time) == at_time(other, time) by {
        assert(at_time(other, time) == at_time(events, time));
    }
    lemma_same_order(one, other);
}

/// Events that are in order stay as they are.
pub proof fn law_sorted_stay(events: Seq<RelayEvent>, sorted: Seq<RelayEvent>)
    requires
        in_order(events),
        is_stable_sort(events, sorted),
    ensures
        sorted == events,
{
    law_sort_is_determined(events, sorted, events);
}

} // verus!
