//! A connection over a whole run of events: where it ends up and which
//! frames it has sent, with the laws of the echo policy stated over such runs.

use vstd::prelude::*;
use crate::connection::{Connection, Event, EventView, Status, next_status, reaction_to};
use crate::frame::{Frame, FrameView, templated};

verus! {

/// The status of a connection that started in status `s` and has taken
/// `events` in order.
pub open spec fn status_after(s: Status, events: Seq<EventView>) -> Status
    decreases events.len(),
{
    if events.len() == 0 {
        s
    } else {
        next_status(status_after(s, events.drop_last()), events.last())
    }
}

/// The frames, in order, that a connection which started in status `s` has
/// sent once it has taken `events`.
pub open spec fn frames_sent(s: Status, events: Seq<EventView>) -> Seq<FrameView>
    decreases events.len(),
{
    if events.len() == 0 {
        Seq::empty()
    } else {
        let earlier = events.drop_last();
        match reaction_to(status_after(s, earlier), events.last()).reply {
            Some(f) => frames_sent(s, earlier).push(f),
            None => frames_sent(s, earlier),
        }
    }
}

/// Mathematical value of a run of events.
pub open spec fn events_view(events: Seq<Event>) -> Seq<EventView> {
    Seq::new(events.len(), |i: int| events[i]@)
}

/// Mathematical value of a run of frames.
pub open spec fn frames_view(frames: Seq<Frame>) -> Seq<FrameView> {
    Seq::new(frames.len(), |i: int| frames[i]@)
}

impl Connection {
    /// Takes a recorded run of events in order and returns the frames that
    /// the connection sends over it.
    pub fn replay(&mut self, events: &Vec<Event>) -> (sent: Vec<Frame>)
        ensures
            final(self)@ == status_after(old(self)@, events_view(events@)),
            frames_view(sent@) == frames_sent(old(self)@, events_view(events@)),
    {
        let ghost start = self@;
        let ghost all = events_view(events@);
        let mut sent: Vec<Frame> = Vec::new();
        let mut i: usize = 0;
        assert(all.take(0) =~= Seq::<EventView>::empty());
        assert(frames_view(sent@) =~= Seq::<FrameView>::empty());
        while i < events.len()
            invariant
                i <= events.len(),
                all == events_view(events@),
                self@ == status_after(start, all.take(i as int)),
                frames_view(sent@) == frames_sent(start, all.take(i as int)),
            decreases events.len() - i,
        {
            let ghost before = frames_view(sent@);
            let reaction = self.handle(&events[i]);
            proof {
                let upto = all.take(i as int + 1);
                assert(upto.drop_last() =~= all.take(i as int));
                assert(upto.last() == events@[i as int]@);
            }
            match reaction.reply {
                Some(f) => {
                    sent.push(f);
                    assert(frames_view(sent@) =~= before.push(f@));
                },
                None => {},
            }
            i = i + 1;
        }
        assert(all.take(i as int) =~= all);
        sent
    }
}

/// A run may be cut anywhere: the connection goes through the second part
/// from where the first part left it, and sends the frames of the first part
/// followed by those of the second.
pub proof fn run_in_two_parts(s: Status, first: Seq<EventView>, second: Seq<EventView>)
    ensures
        status_after(s, first + second) == status_after(status_after(s, first), second),
        frames_sent(s, first + second) == frames_sent(s, first) + frames_sent(
            status_after(s, first),
            second,
        ),
    decreases second.len(),
{
    if second.len() == 0 {
        assert(first + second =~= first);
        assert(frames_sent(s, first) + Seq::<FrameView>::empty() =~= frames_sent(s, first));
    } else {
        let whole = first + second;
        assert(whole.drop_last() =~= first + second.drop_last());
        assert(whole.last() == second.last());
        run_in_two_parts(s, first, second.drop_last());
        let mid = status_after(s, first);
        let head = frames_sent(s, first);
        let tail = frames_sent(mid, second.drop_last());
        match reaction_to(status_after(mid, second.drop_last()), second.last()).reply {
            Some(f) => {
                assert((head + tail).push(f) =~= head + tail.push(f));
            },
            None => {},
        }
    }
}

/// A closed connection stays closed and sends nothing, whatever arrives.
pub proof fn closed_connection_is_silent(events: Seq<EventView>)
    ensures
        status_after(Status::Closed, events) == Status::Closed,
        frames_sent(Status::Closed, events) == Seq::<FrameView>::empty(),
    decreases events.len(),
{
    if events.len() > 0 {
        closed_connection_is_silent(events.drop_last());
    }
}

/// An open connection answers a text frame with exactly one frame: a text
/// frame that holds `You sent: ` followed by the text, and the connection
/// stays open.
pub proof fn text_gets_one_templated_reply(s: Status, earlier: Seq<EventView>, t: Seq<char>)
    requires
        status_after(s, earlier) == Status::Open,
    ensures
        frames_sent(s, earlier.push(EventView::Received(FrameView::Text(t)))) == frames_sent(
            s,
            earlier,
        ).push(FrameView::Text(templated(t))),
        status_after(s, earlier.push(EventView::Received(FrameView::Text(t)))) == Status::Open,
{
    let run = earlier.push(EventView::Received(FrameView::Text(t)));
    assert(run.drop_last() =~= earlier);
}

/// An open connection answers a binary frame with exactly one frame: a
/// binary frame with the same bytes, and the connection stays open.
pub proof fn binary_gets_one_identical_reply(s: Status, earlier: Seq<EventView>, b: Seq<u8>)
    requires
        status_after(s, earlier) == Status::Open,
    ensures
        frames_sent(s, earlier.push(EventView::Received(FrameView::Binary(b)))) == frames_sent(
            s,
            earlier,
        ).push(FrameView::Binary(b)),
        status_after(s, earlier.push(EventView::Received(FrameView::Binary(b)))) == Status::Open,
{
    let run = earlier.push(EventView::Received(FrameView::Binary(b)));
    assert(run.drop_last() =~= earlier);
}

/// A ping or a pong draws no frame from the connection and leaves its status
/// as it was.
pub proof fn ping_and_pong_get_no_reply(s: Status, earlier: Seq<EventView>, payload: Seq<u8>)
    ensures
        frames_sent(s, earlier.push(EventView::Received(FrameView::Ping(payload)))) == frames_sent(
            s,
            earlier,
        ),
        status_after(s, earlier.push(EventView::Received(FrameView::Ping(payload))))
            == status_after(s, earlier),
        frames_sent(s, earlier.push(EventView::Received(FrameView::Pong(payload)))) == frames_sent(
            s,
            earlier,
        ),
        status_after(s, earlier.push(EventView::Received(FrameView::Pong(payload))))
            == status_after(s, earlier),
{
    let ping = earlier.push(EventView::Received(FrameView::Ping(payload)));
    assert(ping.drop_last() =~= earlier);
    let pong = earlier.push(EventView::Received(FrameView::Pong(payload)));
    assert(pong.drop_last() =~= earlier);
}

/// Whether an event ends an open connection: a close frame, a failed read,
/// the end of the stream, or a failed send.
pub open spec fn is_final(e: EventView) -> bool {
    match e {
        EventView::Received(f) => f is Close,
        EventView::ReceiveFailed => true,
        EventView::StreamEnded => true,
        EventView::SendFailed => true,
    }
}

/// A final event ends the connection: no frame answers it, and whatever
/// arrives later, the connection is closed and has sent no frame beyond those
/// it sent before the final event.
pub proof fn final_event_ends_the_exchange(
    s: Status,
    earlier: Seq<EventView>,
    e: EventView,
    later: Seq<EventView>,
)
    requires
        is_final(e),
    ensures
        status_after(s, earlier.push(e) + later) == Status::Closed,
        frames_sent(s, earlier.push(e) + later) == frames_sent(s, earlier),
{
    let upto = earlier.push(e);
    assert(upto.drop_last() =~= earlier);
    assert(status_after(s, upto) == Status::Closed);
    assert(frames_sent(s, upto) == frames_sent(s, earlier));
    run_in_two_parts(s, upto, later);
    closed_connection_is_silent(later);
    assert(frames_sent(s, earlier) + Seq::<FrameView>::empty() =~= frames_sent(s, earlier));
}

/// After a close frame the server sends nothing more on the connection.
pub proof fn close_ends_the_exchange(
    s: Status,
    earlier: Seq<EventView>,
    c: Option<crate::frame::CloseFrameView>,
    later: Seq<EventView>,
)
    ensures
        status_after(s, earlier.push(EventView::Received(FrameView::Close(c))) + later)
            == Status::Closed,
        frames_sent(s, earlier.push(EventView::Received(FrameView::Close(c))) + later)
            == frames_sent(s, earlier),
{
    final_event_ends_the_exchange(s, earlier, EventView::Received(FrameView::Close(c)), later);
}

/// Different texts get different replies: the text can be read back from
/// its reply.
pub proof fn reply_tells_texts_apart(t1: Seq<char>, t2: Seq<char>)
    ensures
        templated(t1) == templated(t2) <==> t1 == t2,
{
    if templated(t1) == templated(t2) {
        let n = crate::frame::reply_prefix().len() as int;
        assert(templated(t1).subrange(n, templated(t1).len() as int) =~= t1);
        assert(templated(t2).subrange(n, templated(t2).len() as int) =~= t2);
    }
}

} // verus!
