//! Many connections served side by side. The server keeps one status per
//! connection and hands each arriving event to the connection it belongs to;
//! the law proved here is that a connection sees nothing of the others.

use vstd::prelude::*;
use crate::connection::{EventView, Status, next_status, reaction_to};
use crate::frame::{FrameView, templated};
use crate::session::{frames_sent, reply_tells_texts_apart, status_after};

verus! {

/// An event together with the connection on which it arrives.
pub struct Arrival {
    pub conn: nat,
    pub event: EventView,
}

/// A frame together with the connection on which the server sends it.
pub struct Delivery {
    pub conn: nat,
    pub frame: FrameView,
}

/// The status that a table of connections holds for `conn`. A connection
/// that the table has not seen yet is fresh, and so open.
pub open spec fn status_of(table: Map<nat, Status>, conn: nat) -> Status {
    if table.dom().contains(conn) {
        table[conn]
    } else {
        Status::Open
    }
}

/// The server's table once the arrivals of `trace` have been handled in
/// order: each arrival updates the entry of its own connection.
pub open spec fn table_after(trace: Seq<Arrival>) -> Map<nat, Status>
    decreases trace.len(),
{
    if trace.len() == 0 {
        Map::empty()
    } else {
        let table = table_after(trace.drop_last());
        let a = trace.last();
        table.insert(a.conn, next_status(status_of(table, a.conn), a.event))
    }
}

/// Every frame that the server sends while it handles `trace`, in order,
/// each with the connection it goes out on.
pub open spec fn deliveries(trace: Seq<Arrival>) -> Seq<Delivery>
    decreases trace.len(),
{
    if trace.len() == 0 {
        Seq::empty()
    } else {
        let earlier = trace.drop_last();
        let a = trace.last();
        match reaction_to(status_of(table_after(earlier), a.conn), a.event).reply {
            Some(f) => deliveries(earlier).push(Delivery { conn: a.conn, frame: f }),
            None => deliveries(earlier),
        }
    }
}

/// The events of `trace` that arrive on `conn`, in order.
pub open spec fn events_on(trace: Seq<Arrival>, conn: nat) -> Seq<EventView>
    decreases trace.len(),
{
    if trace.len() == 0 {
        Seq::empty()
    } else if trace.last().conn == conn {
        events_on(trace.drop_last(), conn).push(trace.last().event)
    } else {
        events_on(trace.drop_last(), conn)
    }
}

/// The frames among `sent` that go out on `conn`, in order.
pub open spec fn frames_on(sent: Seq<Delivery>, conn: nat) -> Seq<FrameView>
    decreases sent.len(),
{
    if sent.len() == 0 {
        Seq::empty()
    } else if sent.last().conn == conn {
        frames_on(sent.drop_last(), conn).push(sent.last().frame)
    } else {
        frames_on(sent.drop_last(), conn)
    }
}

/// However the events of many connections interleave, each connection ends
/// in the status, and receives exactly the frames, that it would have if it
/// were served alone with its own events.
pub proof fn connections_are_isolated(trace: Seq<Arrival>, conn: nat)
    ensures
        status_of(table_after(trace), conn) == status_after(Status::Open, events_on(trace, conn)),
        frames_on(deliveries(trace), conn) == frames_sent(Status::Open, events_on(trace, conn)),
    decreases trace.len(),
{
    if trace.len() > 0 {
        let earlier = trace.drop_last();
        let a = trace.last();
        connections_are_isolated(earlier, conn);
        let sent = deliveries(earlier);
        let reply = reaction_to(status_of(table_after(earlier), a.conn), a.event).reply;
        if a.conn == conn {
            let own = events_on(earlier, conn);
            assert(own.push(a.event).drop_last() =~= own);
            match reply {
                Some(f) => {
                    let d = Delivery { conn: a.conn, frame: f };
                    assert(sent.push(d).drop_last() =~= sent);
                },
                None => {},
            }
        } else {
            match reply {
                Some(f) => {
                    let d = Delivery { conn: a.conn, frame: f };
                    assert(sent.push(d).drop_last() =~= sent);
                },
                None => {},
            }
        }
    }
}

/// Two connections that each send one text, in any interleaving with any
/// other traffic, each get the reply to their own text and to no other: the
/// one frame that goes out on a connection holds that connection's text, and
/// where the two texts differ it is not the frame that the other gets.
pub proof fn each_gets_only_its_own_reply(
    trace: Seq<Arrival>,
    c1: nat,
    t1: Seq<char>,
    c2: nat,
    t2: Seq<char>,
)
    requires
        events_on(trace, c1) == seq![EventView::Received(FrameView::Text(t1))],
        events_on(trace, c2) == seq![EventView::Received(FrameView::Text(t2))],
    ensures
        frames_on(deliveries(trace), c1) == seq![FrameView::Text(templated(t1))],
        frames_on(deliveries(trace), c2) == seq![FrameView::Text(templated(t2))],
        t1 != t2 ==> frames_on(deliveries(trace), c1) != frames_on(deliveries(trace), c2),
{
    connections_are_isolated(trace, c1);
    connections_are_isolated(trace, c2);
    one_text_one_reply(t1);
    one_text_one_reply(t2);
    reply_tells_texts_apart(t1, t2);
    if t1 != t2 {
        let f1 = seq![FrameView::Text(templated(t1))];
        let f2 = seq![FrameView::Text(templated(t2))];
        assert(f1[0] != f2[0]);
    }
}

/// A fresh connection that takes one text sends one frame, the reply to it.
proof fn one_text_one_reply(t: Seq<char>)
    ensures
        frames_sent(Status::Open, seq![EventView::Received(FrameView::Text(t))]) == seq![
            FrameView::Text(templated(t)),
        ],
{
    let run = seq![EventView::Received(FrameView::Text(t))];
    assert(run.drop_last() =~= Seq::<EventView>::empty());
    assert(frames_sent(Status::Open, run.drop_last()) =~= Seq::<FrameView>::empty());
    assert(Seq::<FrameView>::empty().push(FrameView::Text(templated(t))) =~= seq![
        FrameView::Text(templated(t)),
    ]);
}

} // verus!
