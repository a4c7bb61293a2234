//! WebSocket frames as plain values, and the template of the text reply.

use vstd::prelude::*;

verus! {

/// Status code and reason carried by a close frame.
#[derive(Debug, Clone, PartialEq, Eq)]
pub struct CloseFrame {
    pub code: u16,
    pub reason: String,
}

/// Mathematical value of a [`CloseFrame`].
pub struct CloseFrameView {
    pub code: u16,
    pub reason: Seq<char>,
}

impl View for CloseFrame {
    type V = CloseFrameView;

    open spec fn view(&self) -> CloseFrameView {
        CloseFrameView { code: self.code, reason: self.reason@ }
    }
}

/// One message unit of a WebSocket stream.
#[derive(Debug, Clone, PartialEq, Eq)]
pub enum Frame {
    Text(String),
    Binary(Vec<u8>),
    Ping(Vec<u8>),
    Pong(Vec<u8>),
    Close(Option<CloseFrame>),
}

/// Mathematical value of a [`Frame`].
pub enum FrameView {
    Text(Seq<char>),
    Binary(Seq<u8>),
    Ping(Seq<u8>),
    Pong(Seq<u8>),
    Close(Option<CloseFrameView>),
}

impl View for Frame {
    type V = FrameView;

    open spec fn view(&self) -> FrameView {
        match self {
            Frame::Text(t) => FrameView::Text(t@),
            Frame::Binary(b) => FrameView::Binary(b@),
            Frame::Ping(p) => FrameView::Ping(p@),
            Frame::Pong(p) => FrameView::Pong(p@),
            Frame::Close(c) => FrameView::Close(
                match c {
                    Some(cf) => Some(cf@),
                    None => None,
                },
            ),
        }
    }
}

/// The fixed words that open every text reply: `You sent: `.
pub open spec fn reply_prefix() -> Seq<char> {
    seq!['Y', 'o', 'u', ' ', 's', 'e', 'n', 't', ':', ' ']
}

/// The text that answers the text `t`: the prefix, then `t` unchanged.
pub open spec fn templated(t: Seq<char>) -> Seq<char> {
    reply_prefix() + t
}

/// The frame, if any, that answers an inbound frame: a text is answered by
/// its templated text, bytes by the same bytes, and control frames by nothing.
pub open spec fn reply_to(f: FrameView) -> Option<FrameView> {
    match f {
        FrameView::Text(t) => Some(FrameView::Text(templated(t))),
        FrameView::Binary(b) => Some(FrameView::Binary(b)),
        FrameView::Ping(_) => None,
        FrameView::Pong(_) => None,
        FrameView::Close(_) => None,
    }
}

/// Mathematical value of an optional frame.
pub open spec fn opt_view(f: Option<Frame>) -> Option<FrameView> {
    match f {
        Some(g) => Some(g@),
        None => None,
    }
}

/// Builds the text that answers `t`.
pub fn template_text(t: &str) -> (r: String)
    ensures
        r@ == templated(t@),
{
    proof {
        reveal_strlit("You sent: ");
    }
    let head = "You sent: ";
    assert(head@ =~= reply_prefix());
    let mut r = String::from_str(head);
    r.append(t);
    r
}

/// Copies a byte payload.
pub fn copy_bytes(b: &Vec<u8>) -> (r: Vec<u8>)
    ensures
        r@ == b@,
{
    let mut r: Vec<u8> = Vec::new();
    let mut i: usize = 0;
    while i < b.len()
        invariant
            i <= b.len(),
            r@ == b@.subrange(0, i as int),
        decreases b.len() - i,
    {
        r.push(b[i]);
        i = i + 1;
        assert(r@ =~= b@.subrange(0, i as int));
    }
    assert(r@ =~= b@);
    r
}

impl Frame {
    /// Whether this frame is the peer's request to close.
    pub fn is_close(&self) -> (c: bool)
        ensures
            c == (self@ is Close),
    {
        match self {
            Frame::Close(_) => true,
            _ => false,
        }
    }

    /// The frame that answers this one, if it is owed an answer.
    pub fn reply(&self) -> (r: Option<Frame>)
        ensures
            opt_view(r) == reply_to(self@),
    {
        match self {
            Frame::Text(t) => Some(Frame::Text(template_text(t.as_str()))),
            Frame::Binary(b) => Some(Frame::Binary(copy_bytes(b))),
            Frame::Ping(_) => None,
            Frame::Pong(_) => None,
            Frame::Close(_) => None,
        }
    }
}

} // verus!
