//! Handing what is broadcast on to one consumer.
use vstd::prelude::*;

use crate::pump::{Arrival, Pump};

verus! {

/// What a consumer's subscription gives next.
pub enum RelayEvent<T> {
    Item(T),
    /// The consumer was too slow and has missed some items.
    Lagged,
    /// Nothing will be broadcast any more.
    Closed,
}

/// What to do about it.
pub enum RelayStep<T> {
    Yield(T),
    Skip,
    End,
}

/// Items are handed on, and a gap is passed over.
pub open spec fn relayed<T>(event: RelayEvent<T>) -> RelayStep<T> {
    match event {
        RelayEvent::Item(item) => RelayStep::Yield(item),
        RelayEvent::Lagged => RelayStep::Skip,
        RelayEvent::Closed => RelayStep::End,
    }
}

/// What to do about an event.
pub fn relay_step<T>(event: RelayEvent<T>) -> (r: RelayStep<T>)
    ensures
        r == relayed(event),
{
    match event {
        RelayEvent::Item(item) => RelayStep::Yield(item),
        RelayEvent::Lagged => RelayStep::Skip,
        RelayEvent::Closed => RelayStep::End,
    }
}

/// What a consumer receives of a series of events.
pub open spec fn received<T>(events: Seq<RelayEvent<T>>) -> Seq<T>
    decreases events.len(),
{
    if events.len() == 0 {
        seq![]
    } else {
        match relayed(events[0]) {
            RelayStep::Yield(item) => seq![item] + received(events.drop_first()),
            RelayStep::Skip => received(events.drop_first()),
            RelayStep::End => seq![],
        }
    }
}

/// A consumer receives items in the order in which they are broadcast.
pub proof fn items_are_received_in_order<T>(items: Seq<T>)
    ensures
        received(items.map_values(|item: T| RelayEvent::Item(item))) == items,
    decreases items.len(),
{
    let events = items.map_values(|item: T| RelayEvent::Item(item));
    if items.len() > 0 {
        let rest = items.drop_first();
        items_are_received_in_order(rest);
        assert(events.drop_first() =~= rest.map_values(|item: T| RelayEvent::Item(item)));
        assert(seq![items[0]] + rest =~= items);
    } else {
        assert(items =~= seq![]);
    }
}

/// A consumer that lags goes on receiving: what comes after the gap reaches it all the same.
pub proof fn lagging_does_not_end_it<T>(before: Seq<RelayEvent<T>>, after: Seq<RelayEvent<T>>)
    ensures
        received(before + seq![RelayEvent::Lagged] + after) == received(before + after),
    decreases before.len(),
{
    let with_gap = before + seq![RelayEvent::Lagged] + after;
    let without = before + after;
    if before.len() == 0 {
        assert(with_gap.drop_first() =~= after);
        assert(without =~= after);
    } else {
        let rest = before.drop_first();
        lagging_does_not_end_it(rest, after);
        assert(with_gap.drop_first() =~= rest + seq![RelayEvent::Lagged] + after);
        assert(without.drop_first() =~= rest + after);
    }
}

/// What a consumer of broadcast data that does not lag sees.
pub open spec fn as_events(data: Seq<Seq<u8>>) -> Seq<RelayEvent<Seq<u8>>> {
    data.map_values(|item: Seq<u8>| RelayEvent::Item(item))
}

/// The data of a series of arrivals.
pub open spec fn data_of(arrivals: Seq<Arrival>) -> Seq<Seq<u8>> {
    arrivals.map_values(|a: Arrival| a.event->Data_0)
}

/// A consumer that is attached and does not lag receives all data of its channel's upstream, and
/// after a change of channel that of the next one, unchanged and in order.
pub proof fn consumers_follow_the_stream(
    first: Pump,
    before: Seq<Arrival>,
    second: Pump,
    after: Seq<Arrival>,
)
    requires
        forall|i: int|
            0 <= i < before.len() ==> (#[trigger] before[i]).event is Data
                && before[i].subscribers > 0,
        forall|i: int|
            0 <= i < after.len() ==> (#[trigger] after[i]).event is Data && after[i].subscribers
                > 0,
    ensures
        received(as_events(first.broadcasts(before) + second.broadcasts(after))) == data_of(before)
            + data_of(after),
{
    first.listeners_get_everything(before);
    second.listeners_get_everything(after);
    items_are_received_in_order(data_of(before) + data_of(after));
}

/// Nothing is received after the end of what is broadcast.
pub proof fn nothing_follows_the_end<T>(before: Seq<RelayEvent<T>>, after: Seq<RelayEvent<T>>)
    ensures
        received(before + seq![RelayEvent::Closed] + after) == received(before),
    decreases before.len(),
{
    let all = before + seq![RelayEvent::Closed] + after;
    if before.len() > 0 {
        let rest = before.drop_first();
        nothing_follows_the_end(rest, after);
        assert(all.drop_first() =~= rest + seq![RelayEvent::Closed] + after);
    }
}

} // verus!
