//! The frames of the transport, as far as the relay reads them.
//!
//! A connection receives and sends `warp::ws::Message` values. The relay
//! carries them around as they are; to decide on one it asks what text it
//! holds, and to send one it builds a text frame. Both questions go to warp,
//! and what is believed of the answers is said with each.

use vstd::prelude::*;
use warp::ws::Message;

verus! {

/// `warp::ws::Message`, one frame of a websocket connection. A value of it is
/// carried around and never looked into.
#[verifier::external_type_specification]
#[verifier::external_body]
pub struct ExMessage(Message);

/// One inbound frame, read as the relay needs it.
#[derive(Debug)]
pub enum Frame {
    /// A text frame with its payload.
    Text(String),
    /// Any other frame. The relay passes over it.
    Other,
}

impl View for Frame {
    type V = Option<Seq<char>>;

    /// The text of the frame, if it has any.
    open spec fn view(&self) -> Option<Seq<char>> {
        match self {
            Frame::Text(text) => Some(text@),
            Frame::Other => None,
        }
    }
}

/// The text that `warp::ws::Message::to_str` finds in a frame. The method
/// looks at the frame and at nothing else, so one frame always holds the same
/// text; which text that is, warp says.
pub uninterp spec fn frame_text(msg: Message) -> Option<Seq<char>>;

/// `warp::ws::Message::to_str`, with the text that it finds copied into a
/// [`Frame`], and `Other` where it finds none. The frame that comes back holds
/// what `to_str` finds in `msg`, which is a matter of `msg` alone.
#[verifier::external_body]
pub(crate) fn frame_of(msg: &Message) -> (frame: Frame)
    ensures
        frame@ == frame_text(*msg),
{
    match msg.to_str() {
        Ok(text) => Frame::Text(text.to_owned()),
        Err(()) => Frame::Other,
    }
}

/// `warp::ws::Message::text`: a text frame with `text` as its payload. Nothing
/// is claimed of the result.
#[verifier::external_body]
pub(crate) fn text_message(text: &str) -> (msg: Message) {
    Message::text(text)
}

} // verus!
