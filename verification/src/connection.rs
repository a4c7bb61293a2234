//! One connection's echo policy: what each event does to the connection and
//! which frame, if any, goes back to the peer.

use vstd::prelude::*;
use crate::frame::{Frame, FrameView, opt_view, reply_to};

verus! {

/// Whether a connection still takes part in the exchange.
#[derive(Debug, Clone, Copy, PartialEq, Eq, Structural)]
pub enum Status {
    Open,
    Closed,
}

/// What the transport reports to a connection.
#[derive(Debug, Clone, PartialEq, Eq)]
pub enum Event {
    /// The peer's next frame arrived.
    Received(Frame),
    /// Reading the next frame failed.
    ReceiveFailed,
    /// The inbound stream ended.
    StreamEnded,
    /// A reply could not be delivered.
    SendFailed,
}

/// Mathematical value of an [`Event`].
pub enum EventView {
    Received(FrameView),
    ReceiveFailed,
    StreamEnded,
    SendFailed,
}

impl View for Event {
    type V = EventView;

    open spec fn view(&self) -> EventView {
        match self {
            Event::Received(f) => EventView::Received(f@),
            Event::ReceiveFailed => EventView::ReceiveFailed,
            Event::StreamEnded => EventView::StreamEnded,
            Event::SendFailed => EventView::SendFailed,
        }
    }
}

/// The diagnostic line that an event calls for.
#[derive(Debug, Clone, Copy, PartialEq, Eq, Structural)]
pub enum Notice {
    TextReceived,
    BinaryReceived,
    PingReceived,
    PongReceived,
    CloseReceived,
    Disconnected,
}

/// What the host does in answer to one event: the line to log, if any, and
/// the frame to send back, if any.
#[derive(Debug, Clone, PartialEq, Eq)]
pub struct Reaction {
    pub notice: Option<Notice>,
    pub reply: Option<Frame>,
}

/// Mathematical value of a [`Reaction`].
pub struct ReactionView {
    pub notice: Option<Notice>,
    pub reply: Option<FrameView>,
}

impl View for Reaction {
    type V = ReactionView;

    open spec fn view(&self) -> ReactionView {
        ReactionView { notice: self.notice, reply: opt_view(self.reply) }
    }
}

/// The line logged on receipt of a frame.
pub open spec fn receipt_notice(f: FrameView) -> Notice {
    match f {
        FrameView::Text(_) => Notice::TextReceived,
        FrameView::Binary(_) => Notice::BinaryReceived,
        FrameView::Ping(_) => Notice::PingReceived,
        FrameView::Pong(_) => Notice::PongReceived,
        FrameView::Close(_) => Notice::CloseReceived,
    }
}

/// The status in which an event leaves a connection. An open connection
/// stays open through every frame but a close frame; a close frame, a failed
/// read, the end of the stream and a failed send close it. A closed
/// connection stays closed.
pub open spec fn next_status(s: Status, e: EventView) -> Status {
    match s {
        Status::Closed => Status::Closed,
        Status::Open => match e {
            EventView::Received(f) => if f is Close {
                Status::Closed
            } else {
                Status::Open
            },
            EventView::ReceiveFailed => Status::Closed,
            EventView::StreamEnded => Status::Closed,
            EventView::SendFailed => Status::Closed,
        },
    }
}

/// The reaction that an event draws from a connection in status `s`. An open
/// connection logs each frame and answers it as [`reply_to`] says; on a
/// failure or the end of the stream it logs the disconnect and sends nothing.
/// A closed connection neither logs nor sends.
pub open spec fn reaction_to(s: Status, e: EventView) -> ReactionView {
    match s {
        Status::Closed => ReactionView { notice: None, reply: None },
        Status::Open => match e {
            EventView::Received(f) => ReactionView {
                notice: Some(receipt_notice(f)),
                reply: reply_to(f),
            },
            EventView::ReceiveFailed => ReactionView {
                notice: Some(Notice::Disconnected),
                reply: None,
            },
            EventView::StreamEnded => ReactionView {
                notice: Some(Notice::Disconnected),
                reply: None,
            },
            EventView::SendFailed => ReactionView {
                notice: Some(Notice::Disconnected),
                reply: None,
            },
        },
    }
}

impl Frame {
    /// The line to log on receipt of this frame.
    pub fn notice(&self) -> (n: Notice)
        ensures
            n == receipt_notice(self@),
    {
        match self {
            Frame::Text(_) => Notice::TextReceived,
            Frame::Binary(_) => Notice::BinaryReceived,
            Frame::Ping(_) => Notice::PingReceived,
            Frame::Pong(_) => Notice::PongReceived,
            Frame::Close(_) => Notice::CloseReceived,
        }
    }
}

/// The server's side of one live WebSocket stream. It is owned by the task
/// that serves the stream and shares nothing with other connections.
#[derive(Debug)]
pub struct Connection {
    status: Status,
}

impl View for Connection {
    type V = Status;

    closed spec fn view(&self) -> Status {
        self.status
    }
}

impl Connection {
    /// A connection as it stands right after the upgrade: open.
    pub fn new() -> (c: Connection)
        ensures
            c@ == Status::Open,
    {
        Connection { status: Status::Open }
    }

    /// The connection's status.
    pub fn status(&self) -> (s: Status)
        ensures
            s == self@,
    {
        self.status
    }

    /// Whether the connection is still open.
    pub fn is_open(&self) -> (b: bool)
        ensures
            b == (self@ == Status::Open),
    {
        match self.status {
            Status::Open => true,
            Status::Closed => false,
        }
    }

    /// Takes one event and says what to do about it.
    pub fn handle(&mut self, event: &Event) -> (r: Reaction)
        ensures
            final(self)@ == next_status(old(self)@, event@),
            r@ == reaction_to(old(self)@, event@),
    {
        match self.status {
            Status::Closed => Reaction { notice: None, reply: None },
            Status::Open => match event {
                Event::Received(frame) => {
                    if frame.is_close() {
                        self.status = Status::Closed;
                    }
                    Reaction { notice: Some(frame.notice()), reply: frame.reply() }
                },
                _ => {
                    self.status = Status::Closed;
                    Reaction { notice: Some(Notice::Disconnected), reply: None }
                },
            },
        }
    }
}

} // verus!
