//! Notification streams with typed filtering: what a stream does with each
//! result of reading the broadcast channel.
//!
//! The raw stream (`NotificationStream`) yields every notification; the typed
//! streams (keystrokes, screen updates, prompts, new and terminated sessions,
//! focus and layout changes, variable changes, custom escape sequences) yield
//! only the notifications that carry their kind of event.

use vstd::prelude::*;

verus! {

/// The result of a non-blocking read of the broadcast channel.
pub enum TryReceived<N> {
    /// A notification was waiting.
    Item(N),
    /// Nothing is waiting yet.
    Empty,
    /// The reader fell behind and notifications were dropped.
    Lagged,
    /// The channel is closed.
    Closed,
}

/// What a poll of the raw notification stream answers.
pub enum PollAnswer<N> {
    /// The next notification.
    Ready(N),
    /// Nothing yet: ask to be polled again, and wait.
    Retry,
    /// The stream has ended.
    Finished,
}

/// Answer a poll of the raw stream from a non-blocking read: a waiting
/// notification is yielded, an empty or lagging channel is polled again
/// later, and a closed channel ends the stream.
pub fn poll_answer<N>(r: TryReceived<N>) -> (a: PollAnswer<N>)
    ensures
        match r {
            TryReceived::Item(n) => a == PollAnswer::Ready(n),
            TryReceived::Empty => a is Retry,
            TryReceived::Lagged => a is Retry,
            TryReceived::Closed => a is Finished,
        },
{
    match r {
        TryReceived::Item(n) => PollAnswer::Ready(n),
        TryReceived::Empty => PollAnswer::Retry,
        TryReceived::Lagged => PollAnswer::Retry,
        TryReceived::Closed => PollAnswer::Finished,
    }
}

/// The result of a blocking read of the broadcast channel, with the part of
/// the notification that a typed stream looks for (`None` when the
/// notification is of another kind).
pub enum Received<T> {
    /// A notification arrived.
    Item(Option<T>),
    /// The reader fell behind and notifications were dropped.
    Lagged,
    /// The channel is closed.
    Closed,
}

/// What a typed stream does after a read.
pub enum FilterStep<T> {
    /// Yield this event.
    Yield(T),
    /// Read again.
    Next,
    /// End the stream.
    End,
}

/// The step of a typed stream after the read `r`: an event of its kind is
/// yielded, other notifications and lags are passed over, and a closed
/// channel ends the stream.
pub open spec fn filter_step_spec<T>(r: Received<T>) -> FilterStep<T> {
    match r {
        Received::Item(Some(t)) => FilterStep::Yield(t),
        Received::Item(None) => FilterStep::Next,
        Received::Lagged => FilterStep::Next,
        Received::Closed => FilterStep::End,
    }
}

/// Decide the step of a typed stream after a read.
pub fn filter_step<T>(r: Received<T>) -> (s: FilterStep<T>)
    ensures
        s == filter_step_spec(r),
        r matches Received::Item(Some(t)) ==> s == FilterStep::Yield(t),
        r matches Received::Item(None) ==> s is Next,
        r is Lagged ==> s is Next,
        r is Closed ==> s is End,
{
    match r {
        Received::Item(Some(t)) => FilterStep::Yield(t),
        Received::Item(None) => FilterStep::Next,
        Received::Lagged => FilterStep::Next,
        Received::Closed => FilterStep::End,
    }
}

/// The events that a typed stream yields from the reads `rs`, in order, up
/// to the end of the stream.
pub open spec fn filtered<T>(rs: Seq<Received<T>>) -> Seq<T>
    decreases rs.len(),
{
    if rs.len() == 0 {
        Seq::empty()
    } else {
        match filter_step_spec(rs[0]) {
            FilterStep::Yield(t) => seq![t] + filtered(rs.drop_first()),
            FilterStep::Next => filtered(rs.drop_first()),
            FilterStep::End => Seq::empty(),
        }
    }
}

/// Before the channel closes, a typed stream yields its events in the order
/// they were read: the events of reads `a` then `b` are those of `a` followed
/// by those of `b`.
pub proof fn law_filtered_concatenates<T>(a: Seq<Received<T>>, b: Seq<Received<T>>)
    requires
        forall|i: int| 0 <= i < a.len() ==> !(#[trigger] a[i] is Closed),
    ensures
        filtered(a + b) == filtered(a) + filtered(b),
    decreases a.len(),
{
    if a.len() == 0 {
        assert(a + b =~= b);
    } else {
        let rest = a.drop_first();
        assert forall|i: int| 0 <= i < rest.len() implies !(#[trigger] rest[i] is Closed) by {
            assert(rest[i] == a[i + 1]);
        }
        law_filtered_concatenates(rest, b);
        assert((a + b).drop_first() =~= rest + b);
        assert((a + b)[0] == a[0]);
        assert(!(a[0] is Closed));
        match filter_step_spec(a[0]) {
            FilterStep::Yield(t) => {
                assert(seq![t] + (filtered(rest) + filtered(b)) =~= (seq![t] + filtered(rest)) + filtered(b));
            },
            _ => {},
        }
    }
}

/// A read that carries an event of the stream's kind adds exactly that event
/// to what the stream yields; a read of another kind, or a lag, adds nothing.
pub proof fn law_filtered_yields_each_event<T>(rs: Seq<Received<T>>, t: T)
    requires
        forall|i: int| 0 <= i < rs.len() ==> !(#[trigger] rs[i] is Closed),
    ensures
        filtered(rs.push(Received::Item(Some(t)))) == filtered(rs).push(t),
        filtered(rs.push(Received::Item(None))) == filtered(rs),
        filtered(rs.push(Received::Lagged)) == filtered(rs),
{
    let one = seq![Received::Item(Some(t))];
    law_filtered_concatenates(rs, one);
    assert(rs.push(Received::Item(Some(t))) =~= rs + one);
    assert(one.drop_first() =~= Seq::<Received<T>>::empty());
    assert(one[0] == Received::Item(Some(t)));
    assert(filtered(one.drop_first()) =~= Seq::<T>::empty());
    assert(filtered(one) =~= seq![t]);
    let none = seq![Received::<T>::Item(None)];
    law_filtered_concatenates(rs, none);
    assert(rs.push(Received::Item(None)) =~= rs + none);
    assert(none.drop_first() =~= Seq::<Received<T>>::empty());
    let lag = seq![Received::<T>::Lagged];
    law_filtered_concatenates(rs, lag);
    assert(rs.push(Received::Lagged) =~= rs + lag);
    assert(lag.drop_first() =~= Seq::<Received<T>>::empty());
}

/// A typed stream ends at the first closed read: whatever the reads after it
/// carry, the stream yields what the reads before it carry, and no more.
pub proof fn lemma_typed_stream_ends_at_close<T>(before: Seq<Received<T>>, after: Seq<Received<T>>)
    requires
        forall|i: int| 0 <= i < before.len() ==> !(#[trigger] before[i] is Closed),
    ensures
        filtered(before.push(Received::Closed) + after) == filtered(before),
    decreases before.len(),
{
    let all = before.push(Received::Closed) + after;
    if before.len() == 0 {
        assert(all[0] == Received::<T>::Closed);
    } else {
        let rest = before.drop_first();
        assert forall|i: int| 0 <= i < rest.len() implies !(#[trigger] rest[i] is Closed) by {
            assert(rest[i] == before[i + 1]);
        }
        lemma_typed_stream_ends_at_close(rest, after);
        assert(all.drop_first() =~= rest.push(Received::Closed) + after);
        assert(all[0] == before[0]);
        assert(!(before[0] is Closed));
    }
}

} // verus!
