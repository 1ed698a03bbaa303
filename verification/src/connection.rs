//! Request/response matching and the decisions of the message dispatcher.
//!
//! Each request gets a fresh identifier and waits in a bounded table until
//! the dispatcher hands it the reply with the same identifier. The caller
//! owns the socket, the timer and the channels; this module decides.

use crate::error::{api_error, server_message_text, Error};
use std::time::Duration;
use vstd::hash_map::HashMapWithView;
use vstd::prelude::*;
use vstd::string::StringExecFns;

verus! {

broadcast use {vstd::std_specs::hash::group_hash_axioms, vstd::hash_map::group_hash_map_axioms};

/// Most requests that may wait for a reply at the same time.
pub const MAX_PENDING_REQUESTS: usize = 4096;

/// Seconds that a request waits for its reply unless the caller gives
/// another timeout.
pub const DEFAULT_TIMEOUT_SECS: u64 = 10;

/// The requests that wait for a reply, each with the handle `T` through which
/// its reply is handed over, keyed by request identifier.
#[verifier::reject_recursive_types(T)]
pub struct PendingRequests<T> {
    map: HashMapWithView<i64, T>,
}

impl<T> View for PendingRequests<T> {
    type V = Map<i64, T>;

    closed spec fn view(&self) -> Map<i64, T> {
        self.map@
    }
}

/// Whether `r` is the error that refuses a request when the table is full.
pub open spec fn is_table_full_error(r: Result<(), Error>) -> bool {
    r matches Err(Error::Api(m)) && m@ == "Too many pending requests (max 4096)"@
}

impl<T> PendingRequests<T> {
    /// The table's invariant: finitely many entries, at most
    /// [`MAX_PENDING_REQUESTS`] of them.
    #[verifier::type_invariant]
    closed spec fn wf(&self) -> bool {
        &&& self.map@.dom().finite()
        &&& self.map@.len() <= MAX_PENDING_REQUESTS
    }

    /// An empty table.
    pub fn new() -> (t: Self)
        ensures
            t@ == Map::<i64, T>::empty(),
    {
        PendingRequests { map: HashMapWithView::new() }
    }

    /// How many requests wait.
    pub fn len(&self) -> (n: usize)
        ensures
            n == self@.len(),
            n <= MAX_PENDING_REQUESTS,
    {
        proof {
            use_type_invariant(self);
        }
        self.map.len()
    }

    /// Register request `id` with its reply handle. A full table refuses the
    /// request and stays as it was.
    pub fn insert(&mut self, id: i64, handle: T) -> (r: Result<(), Error>)
        ensures
            old(self)@.len() >= MAX_PENDING_REQUESTS ==> is_table_full_error(r) && final(self)@ == old(self)@,
            old(self)@.len() < MAX_PENDING_REQUESTS ==> r is Ok && final(self)@ == old(self)@.insert(id, handle),
    {
        proof {
            use_type_invariant(&*self);
        }
        if self.map.len() >= MAX_PENDING_REQUESTS {
            return Err(Error::Api(String::from_str("Too many pending requests (max 4096)")));
        }
        let mut map = HashMapWithView::new();
        std::mem::swap(&mut map, &mut self.map);
        map.insert(id, handle);
        assert(map@.dom() =~= old(self).map@.dom().insert(id));
        self.map = map;
        Ok(())
    }

    /// Take request `id` out of the table, with its reply handle, if it waits.
    pub fn remove(&mut self, id: i64) -> (r: Option<T>)
        ensures
            match r {
                Some(h) => old(self)@.contains_key(id) && h == old(self)@[id] && final(self)@ == old(self)@.remove(id),
                None => !old(self)@.contains_key(id) && final(self)@ == old(self)@,
            },
    {
        proof {
            use_type_invariant(&*self);
        }
        let mut map = HashMapWithView::new();
        std::mem::swap(&mut map, &mut self.map);
        let r = map.remove(&id);
        proof {
            if r is Some {
                assert(map@.dom() =~= old(self).map@.dom().remove(id));
            }
        }
        self.map = map;
        r
    }
}

/// The identifier that follows `id`: one more, wrapping from the largest
/// `i64` to the smallest, as an atomic fetch-and-add does.
pub open spec fn next_id(id: i64) -> i64 {
    if id == i64::MAX {
        i64::MIN
    } else {
        (id + 1) as i64
    }
}

/// The identifier handed out `k` allocations after one that handed out
/// `start`.
pub open spec fn id_after(start: i64, k: nat) -> i64 {
    (((start as int - i64::MIN as int + k) % 0x1_0000_0000_0000_0000) + i64::MIN as int) as i64
}

/// The source of request identifiers: 1, 2, 3, ... in allocation order.
pub struct RequestIds {
    next: i64,
}

impl RequestIds {
    /// The identifier that the next allocation hands out.
    pub closed spec fn upcoming(&self) -> i64 {
        self.next
    }

    /// A fresh source, which hands out 1 first.
    pub fn new() -> (ids: Self)
        ensures
            ids.upcoming() == 1,
    {
        RequestIds { next: 1 }
    }

    /// Hand out the next identifier.
    pub fn allocate(&mut self) -> (id: i64)
        ensures
            id == old(self).upcoming(),
            final(self).upcoming() == next_id(id),
            id < i64::MAX ==> final(self).upcoming() == id + 1,
            id == i64::MAX ==> final(self).upcoming() == i64::MIN,
    {
        let id = self.next;
        self.next = if id == i64::MAX {
            i64::MIN
        } else {
            id + 1
        };
        id
    }
}

/// How the wait for a reply to a sent request ended.
pub enum Waited<M> {
    /// The request could not be sent; the transport said why.
    SendFailed(String),
    /// A reply arrived; `error` is the text of its error submessage, if it
    /// has one.
    Replied { message: M, error: Option<String> },
    /// The dispatcher stopped before a reply arrived.
    SenderDropped,
    /// No reply arrived within the timeout.
    TimedOut,
}

/// How a call ends once its wait is over, and whether its entry in the table
/// of pending requests must be removed (the dispatcher already removed it
/// when a reply arrived). A server error reaches the caller truncated, as
/// [`api_error`] builds it.
pub open spec fn call_concluded<M>(w: Waited<M>, timeout: Duration, r: Result<M, Error>, clean_up: bool) -> bool {
    match w {
        Waited::SendFailed(e) => clean_up && (r matches Err(Error::WebSocket(m)) && m@ == e@),
        Waited::Replied { message, error } => !clean_up && match error {
            Some(e) => r matches Err(Error::Api(m)) && m@ == server_message_text(e@),
            None => r == Ok::<M, Error>(message),
        },
        Waited::SenderDropped => clean_up && r matches Err(Error::ConnectionClosed),
        Waited::TimedOut => clean_up && (r matches Err(Error::Timeout(d)) && d == timeout),
    }
}

/// Decide how a call ends from how its wait ended.
pub fn conclude_call<M>(waited: Waited<M>, timeout: Duration) -> (out: (Result<M, Error>, bool))
    ensures
        call_concluded(waited, timeout, out.0, out.1),
        waited matches Waited::Replied { message, error: None } ==> out.0 == Ok::<M, Error>(message)
            && !out.1,
        waited matches Waited::Replied { error: Some(e), .. } ==> !out.1 && (out.0 matches Err(
            Error::Api(m),
        ) && m@ == server_message_text(e@)),
        waited matches Waited::SendFailed(e) ==> out.1 && (out.0 matches Err(Error::WebSocket(m)) && m@
            == e@),
        waited is SenderDropped ==> out.1 && out.0 matches Err(Error::ConnectionClosed),
        waited is TimedOut ==> out.1 && (out.0 matches Err(Error::Timeout(d)) && d == timeout),
{
    match waited {
        Waited::SendFailed(e) => (Err(Error::WebSocket(e)), true),
        Waited::Replied { message, error } => match error {
            Some(e) => (Err(api_error(e.as_str())), false),
            None => (Ok(message), false),
        },
        Waited::SenderDropped => (Err(Error::ConnectionClosed), true),
        Waited::TimedOut => (Err(Error::Timeout(timeout)), true),
    }
}

/// Consecutive undecodable frames after which the dispatcher stops.
pub const MAX_CONSECUTIVE_DECODE_ERRORS: u32 = 100;

/// What the dispatcher received from the socket.
pub enum Incoming {
    /// A binary frame that decoded to a message, with its request identifier
    /// (none for a notification) and whether it carries a notification.
    Message { id: Option<i64>, notification: bool },
    /// A binary frame that did not decode.
    Undecodable,
    /// A close frame.
    Close,
    /// Any other frame (text, ping, pong).
    OtherFrame,
    /// The socket reported an error.
    Failed,
    /// The socket has no more frames.
    Ended,
}

/// What the dispatcher does with what it received.
#[derive(PartialEq, Eq, Structural)]
pub enum DispatchAction {
    /// Stop reading.
    Stop,
    /// Read the next frame.
    Skip,
    /// Publish the notification to subscribers, then read on.
    Broadcast,
    /// Hand the message to the request with this identifier, if it waits,
    /// then read on.
    Deliver(i64),
}

/// The dispatcher's decision on `event` when `errors` undecodable frames
/// came in a row before it.
pub open spec fn dispatch_action(errors: nat, event: Incoming) -> DispatchAction {
    match event {
        Incoming::Message { id, notification } => match id {
            Some(i) => DispatchAction::Deliver(i),
            None => if notification {
                DispatchAction::Broadcast
            } else {
                DispatchAction::Skip
            },
        },
        Incoming::Undecodable => if errors + 1 >= MAX_CONSECUTIVE_DECODE_ERRORS {
            DispatchAction::Stop
        } else {
            DispatchAction::Skip
        },
        Incoming::OtherFrame => DispatchAction::Skip,
        _ => DispatchAction::Stop,
    }
}

/// The count of consecutive undecodable frames after `event`.
pub open spec fn errors_after(errors: nat, event: Incoming) -> nat {
    match event {
        Incoming::Message { .. } => 0,
        Incoming::Undecodable => if errors < MAX_CONSECUTIVE_DECODE_ERRORS {
            errors + 1
        } else {
            errors
        },
        _ => errors,
    }
}

/// The decisions of the dispatcher on `events`, received one after the other
/// from a state with `errors` consecutive undecodable frames, up to the first
/// stop.
pub open spec fn dispatch_run(errors: nat, events: Seq<Incoming>) -> Seq<DispatchAction>
    decreases events.len(),
{
    if events.len() == 0 {
        Seq::empty()
    } else {
        let a = dispatch_action(errors, events[0]);
        if a == DispatchAction::Stop {
            seq![a]
        } else {
            seq![a] + dispatch_run(errors_after(errors, events[0]), events.drop_first())
        }
    }
}

/// The dispatcher's state: how many undecodable frames came in a row (the
/// count stops at the limit).
pub struct Dispatcher {
    decode_errors: u32,
}

impl Dispatcher {
    /// The dispatcher's invariant: the count does not pass the limit.
    #[verifier::type_invariant]
    closed spec fn wf(&self) -> bool {
        self.decode_errors <= MAX_CONSECUTIVE_DECODE_ERRORS
    }

    /// How many undecodable frames came in a row.
    pub closed spec fn errors(&self) -> nat {
        self.decode_errors as nat
    }

    /// A dispatcher that has seen nothing yet.
    pub fn new() -> (d: Self)
        ensures
            d.errors() == 0,
    {
        Dispatcher { decode_errors: 0 }
    }

    /// Decide what to do with `event`.
    pub fn step(&mut self, event: Incoming) -> (a: DispatchAction)
        ensures
            a == dispatch_action(old(self).errors(), event),
            final(self).errors() == errors_after(old(self).errors(), event),
            event matches Incoming::Message { id: Some(i), .. } ==> a == DispatchAction::Deliver(i),
            event matches Incoming::Message { id: None, notification } ==> a == (if notification {
                DispatchAction::Broadcast
            } else {
                DispatchAction::Skip
            }),
            event is Message ==> final(self).errors() == 0,
            event is OtherFrame ==> a == DispatchAction::Skip,
            (event is Close || event is Failed || event is Ended) ==> a == DispatchAction::Stop,
            event is Undecodable ==> (a == DispatchAction::Stop <==> old(self).errors() + 1
                >= MAX_CONSECUTIVE_DECODE_ERRORS),
            event is Undecodable && a != DispatchAction::Stop ==> a == DispatchAction::Skip,
            event is Undecodable ==> final(self).errors() == (if old(self).errors()
                < MAX_CONSECUTIVE_DECODE_ERRORS {
                old(self).errors() + 1
            } else {
                old(self).errors()
            }),
            !(event is Message || event is Undecodable) ==> final(self).errors() == old(self).errors(),
    {
        proof {
            use_type_invariant(&*self);
        }
        match event {
            Incoming::Message { id, notification } => {
                self.decode_errors = 0;
                match id {
                    Some(i) => DispatchAction::Deliver(i),
                    None => if notification {
                        DispatchAction::Broadcast
                    } else {
                        DispatchAction::Skip
                    },
                }
            },
            Incoming::Undecodable => {
                let stop = self.decode_errors + 1 >= MAX_CONSECUTIVE_DECODE_ERRORS;
                if self.decode_errors < MAX_CONSECUTIVE_DECODE_ERRORS {
                    self.decode_errors = self.decode_errors + 1;
                }
                if stop {
                    DispatchAction::Stop
                } else {
                    DispatchAction::Skip
                }
            },
            Incoming::OtherFrame => DispatchAction::Skip,
            _ => DispatchAction::Stop,
        }
    }
}

/// Identifiers count up by one, and only the largest wraps around.
pub proof fn law_next_id_counts_up(id: i64)
    ensures
        id < i64::MAX ==> next_id(id) == id + 1,
        id == i64::MAX ==> next_id(id) == i64::MIN,
        next_id(id) != id,
{
}

/// Every decoded message that answers a request goes to that request: the
/// dispatcher delivers a message with request identifier `i` to `i`, whatever
/// `i` is and whatever came before it.
pub proof fn law_replies_are_delivered(errors: nat, i: i64, notification: bool)
    ensures
        dispatch_action(errors, Incoming::Message { id: Some(i), notification }) == DispatchAction::Deliver(i),
{
}

/// The dispatcher makes at most one decision per event.
proof fn lemma_run_no_longer_than_events(errors: nat, events: Seq<Incoming>)
    ensures
        dispatch_run(errors, events).len() <= events.len(),
    decreases events.len(),
{
    if events.len() > 0 && dispatch_action(errors, events[0]) != DispatchAction::Stop {
        lemma_run_no_longer_than_events(errors_after(errors, events[0]), events.drop_first());
    }
}

/// In any run of the dispatcher, each decision that it reaches on a message
/// carrying request identifier `i` is to deliver that message to `i`.
pub proof fn law_run_delivers_replies(errors: nat, events: Seq<Incoming>, k: int, i: i64, notification: bool)
    requires
        0 <= k < dispatch_run(errors, events).len(),
        events[k] == (Incoming::Message { id: Some(i), notification }),
    ensures
        dispatch_run(errors, events)[k] == DispatchAction::Deliver(i),
    decreases k,
{
    lemma_run_no_longer_than_events(errors, events);
    let a = dispatch_action(errors, events[0]);
    if k > 0 {
        assert(a != DispatchAction::Stop);
        let rest = events.drop_first();
        assert(rest[k - 1] == events[k]);
        law_run_delivers_replies(errors_after(errors, events[0]), rest, k - 1, i, notification);
    }
}

/// The identifier after `id_after(start, k)` is `id_after(start, k + 1)`:
/// allocating walks the identifiers in this order.
pub proof fn lemma_next_id_steps(start: i64, k: nat)
    ensures
        next_id(id_after(start, k)) == id_after(start, k + 1),
{
    let m: int = 0x1_0000_0000_0000_0000;
    let base = start as int - i64::MIN as int;
    assert(0 <= base < m);
    let r = (base + k) % m;
    assert(0 <= r < m);
    assert(id_after(start, k) as int == r + i64::MIN as int);
    if r == m - 1 {
        assert((base + k + 1) % m == 0) by (nonlinear_arith)
            requires
                (base + k) % m == m - 1,
                m > 0,
        {
        }
    } else {
        assert((base + k + 1) % m == r + 1) by (nonlinear_arith)
            requires
                (base + k) % m == r,
                0 <= r < m - 1,
                m > 0,
        {
        }
    }
}

/// Request identifiers do not repeat: within 2^64 successive allocations,
/// no two hand out the same identifier.
pub proof fn lemma_ids_distinct(start: i64, k1: nat, k2: nat)
    requires
        k1 < k2 < 0x1_0000_0000_0000_0000,
    ensures
        id_after(start, k1) != id_after(start, k2),
{
    let m: int = 0x1_0000_0000_0000_0000;
    let base = start as int - i64::MIN as int;
    assert(0 <= base < m);
    assert((base + k1) % m != (base + k2) % m) by (nonlinear_arith)
        requires
            0 <= base < m,
            0 <= k1 < k2 < m,
            m > 0,
    {
    }
}

/// An operation on the table of pending requests.
pub enum TableOp<T> {
    /// Register a request (refused when the table is full).
    Insert(i64, T),
    /// Take a request out.
    Remove(i64),
}

/// Whether an operation concerns request `id`.
pub open spec fn touches<T>(op: TableOp<T>, id: i64) -> bool {
    match op {
        TableOp::Insert(i, _) => i == id,
        TableOp::Remove(i) => i == id,
    }
}

/// The table after `op`, as [`PendingRequests::insert`] and
/// [`PendingRequests::remove`] leave it.
pub open spec fn apply_op<T>(t: Map<i64, T>, op: TableOp<T>) -> Map<i64, T> {
    match op {
        TableOp::Insert(i, h) => if t.len() < MAX_PENDING_REQUESTS {
            t.insert(i, h)
        } else {
            t
        },
        TableOp::Remove(i) => t.remove(i),
    }
}

/// The table after `ops`, applied in order.
pub open spec fn apply_ops<T>(t: Map<i64, T>, ops: Seq<TableOp<T>>) -> Map<i64, T>
    decreases ops.len(),
{
    if ops.len() == 0 {
        t
    } else {
        apply_ops(apply_op(t, ops[0]), ops.drop_first())
    }
}

/// A reply reaches the request with its identifier: once request `id` is
/// registered with handle `h`, it stays registered with `h`, whatever
/// happens to other requests, until it is taken out.
pub proof fn lemma_registered_request_keeps_handle<T>(t: Map<i64, T>, id: i64, h: T, ops: Seq<TableOp<T>>)
    requires
        t.contains_key(id),
        t[id] == h,
        forall|i: int| 0 <= i < ops.len() ==> !touches(#[trigger] ops[i], id),
    ensures
        apply_ops(t, ops).contains_key(id),
        apply_ops(t, ops)[id] == h,
    decreases ops.len(),
{
    if ops.len() > 0 {
        assert(!touches(ops[0], id));
        let t1 = apply_op(t, ops[0]);
        assert(t1.contains_key(id) && t1[id] == h);
        let rest = ops.drop_first();
        assert forall|i: int| 0 <= i < rest.len() implies !touches(#[trigger] rest[i], id) by {
            assert(rest[i] == ops[i + 1]);
        }
        lemma_registered_request_keeps_handle(t1, id, h, rest);
    }
}

/// The dispatcher stops on the hundredth undecodable frame in a row, and not
/// before: from a fresh state, 99 such frames are skipped and the next one
/// stops it.
pub proof fn lemma_hundredth_undecodable_frame_stops(events: Seq<Incoming>)
    requires
        events.len() == MAX_CONSECUTIVE_DECODE_ERRORS,
        forall|i: int| 0 <= i < events.len() ==> #[trigger] events[i] is Undecodable,
    ensures
        dispatch_run(0, events).len() == MAX_CONSECUTIVE_DECODE_ERRORS,
        forall|i: int| 0 <= i < MAX_CONSECUTIVE_DECODE_ERRORS - 1 ==> #[trigger] dispatch_run(0, events)[i]
            == DispatchAction::Skip,
        dispatch_run(0, events)[MAX_CONSECUTIVE_DECODE_ERRORS - 1] == DispatchAction::Stop,
{
    lemma_undecodable_run(0, events);
}

/// From `errors` undecodable frames in a row, a run of undecodable frames is
/// skipped until the count reaches the limit, where the dispatcher stops.
proof fn lemma_undecodable_run(errors: nat, events: Seq<Incoming>)
    requires
        errors + events.len() == MAX_CONSECUTIVE_DECODE_ERRORS,
        forall|i: int| 0 <= i < events.len() ==> #[trigger] events[i] is Undecodable,
    ensures
        dispatch_run(errors, events).len() == events.len(),
        forall|i: int| 0 <= i < events.len() - 1 ==> #[trigger] dispatch_run(errors, events)[i]
            == DispatchAction::Skip,
        events.len() > 0 ==> dispatch_run(errors, events)[events.len() - 1] == DispatchAction::Stop,
    decreases events.len(),
{
    if events.len() > 0 {
        assert(events[0] is Undecodable);
        let rest = events.drop_first();
        if events.len() == 1 {
            assert(dispatch_action(errors, events[0]) == DispatchAction::Stop);
            assert(dispatch_run(errors, events) =~= seq![DispatchAction::Stop]);
        } else {
            assert(dispatch_action(errors, events[0]) == DispatchAction::Skip);
            assert forall|i: int| 0 <= i < rest.len() implies #[trigger] rest[i] is Undecodable by {
                assert(rest[i] == events[i + 1]);
            }
            lemma_undecodable_run(errors + 1, rest);
            let tail = dispatch_run(errors + 1, rest);
            assert(dispatch_run(errors, events) == seq![DispatchAction::Skip] + tail);
            assert forall|i: int| 0 <= i < events.len() - 1 implies #[trigger] dispatch_run(errors, events)[i]
                == DispatchAction::Skip by {
                if i > 0 {
                    assert(dispatch_run(errors, events)[i] == tail[i - 1]);
                }
            }
        }
    }
}

} // verus!
