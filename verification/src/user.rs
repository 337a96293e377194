//! One connected user: what it registers, what it sends on, and to whom.

use vstd::prelude::*;
use tokio::sync::mpsc::{UnboundedReceiver, UnboundedSender};
use crate::db::{submit, ChannelClosed, DBMessage, DbTx, RowView};
use crate::rooms::{fanned_out, joined, left, members_in, recipients, Rooms, RoomsView};
use crate::text::{display_text, rendered};
use crate::transport::{frame_of, frame_text, Frame};
use warp::ws::Message;

verus! {

pub type UserTx = UnboundedSender<Message>;

pub type UserRx = UnboundedReceiver<Message>;

/// What one accepted message turns into: the row for the durable log, with
/// the body as it came, and the text for the other members of the room.
#[derive(Debug)]
pub struct Outgoing {
    pub row: DBMessage,
    pub text: String,
}

/// A connected user.
pub struct User {
    /// The id that the acceptor gave to this connection.
    pub user_id: usize,
    /// The room that the user asked for. It stays the same for the whole
    /// connection.
    pub chat_room: String,
    /// The sending half of the user's outbound channel.
    pub user_tx: UserTx,
    /// The sending half of the writer's submission channel.
    pub db_tx: DbTx,
}

impl User {
    /// What a frame gives rise to, if it is sent by this user: nothing for a
    /// frame without text, and else the row and the text of the message.
    pub open spec fn outgoing_of(&self, frame: Option<Seq<char>>) -> Option<(RowView, Seq<char>)> {
        match frame {
            Some(body) => Some(
                (
                    RowView { user_id: self.user_id, room_name: self.chat_room@, message: body },
                    rendered(self.user_id, body),
                ),
            ),
            None => None,
        }
    }

    /// What relaying a frame may come to. A frame without text is passed
    /// over: nothing is delivered, and that is no error. A message is either
    /// refused by the writer, which is the error, or fanned out in the user's
    /// room, so that it goes to members of that room only, to none of them
    /// twice, and never to the user.
    pub open spec fn relayed(
        &self,
        frame: Option<Seq<char>>,
        rooms: RoomsView,
        sent: Result<Vec<usize>, ChannelClosed>,
    ) -> bool {
        match sent {
            Ok(delivered) => if self.outgoing_of(frame) is None {
                delivered@.len() == 0
            } else {
                &&& fanned_out(rooms, self.chat_room@, self.user_id, delivered@)
                &&& delivered@.no_duplicates()
                &&& forall|k: int|
                    0 <= k < delivered.len() ==> recipients(
                        rooms,
                        self.chat_room@,
                        self.user_id,
                    ).contains_key(#[trigger] delivered[k])
            },
            Err(_) => self.outgoing_of(frame) is Some,
        }
    }

    /// Prepares what `frame` gives rise to, as [`User::outgoing_of`] says.
    pub fn outgoing(&self, frame: &Frame) -> (out: Option<Outgoing>)
        ensures
            match out {
                Some(o) => self.outgoing_of(frame@) == Some((o.row@, o.text@)),
                None => self.outgoing_of(frame@) is None,
            },
    {
        match frame {
            Frame::Text(body) => Some(
                Outgoing {
                    row: DBMessage::new(self.user_id, self.chat_room.as_str(), body.as_str()),
                    text: display_text(self.user_id, body.as_str()),
                },
            ),
            Frame::Other => None,
        }
    }

    /// Relays one frame that this user sent. A frame that is no text is passed
    /// over. For a text frame the row is handed to the writer first; if the
    /// writer's channel is closed, that is the error, and the message is not
    /// fanned out. Otherwise the text is offered to the other members of the
    /// user's room, and the ids of those whose channel took it come back: each
    /// of them is in that room, and none of them is the user.
    pub fn relay(&self, frame: &Frame, rooms: &Rooms) -> (sent: Result<Vec<usize>, ChannelClosed>)
        requires
            rooms.wf(),
        ensures
            self.relayed(frame@, rooms@, sent),
    {
        match self.outgoing(frame) {
            None => Ok(Vec::new()),
            Some(out) => {
                let logged = submit(&self.db_tx, out.row);
                self.fan_out_logged(logged, out.text.as_str(), rooms)
            },
        }
    }

    /// What becomes of a message once the writer has answered for its row. If
    /// the writer refused the row, that is the error, and nobody is offered
    /// the text. If it took the row, the text is fanned out in the user's
    /// room.
    pub fn fan_out_logged(&self, logged: Result<(), ChannelClosed>, text: &str, rooms: &Rooms) -> (sent:
        Result<Vec<usize>, ChannelClosed>)
        requires
            rooms.wf(),
        ensures
            logged is Err ==> sent is Err,
            logged is Ok ==> (sent matches Ok(delivered) && {
                &&& fanned_out(rooms@, self.chat_room@, self.user_id, delivered@)
                &&& delivered@.no_duplicates()
                &&& forall|k: int|
                    0 <= k < delivered.len() ==> recipients(
                        rooms@,
                        self.chat_room@,
                        self.user_id,
                    ).contains_key(#[trigger] delivered[k])
            }),
    {
        match logged {
            Err(closed) => Err(closed),
            Ok(()) => Ok(rooms.fanout(self.chat_room.as_str(), self.user_id, text)),
        }
    }

    /// Fires off a message to the other users in the same room: reads `msg`
    /// as a frame and relays it, as [`User::relay`] says of the text that the
    /// frame holds. A frame without text is passed over, which is no error.
    pub fn send_message(&self, msg: Message, rooms: &Rooms) -> (sent: Result<
        Vec<usize>,
        ChannelClosed,
    >)
        requires
            rooms.wf(),
        ensures
            self.relayed(frame_text(msg), rooms@, sent),
    {
        let frame = frame_of(&msg);
        self.relay(&frame, rooms)
    }
}

/// Adds a user to their room, creating the room if it is not there. The
/// registry gets a handle of its own to the user's outbound channel.
pub fn add_user_to_room(new_user: &User, rooms: &mut Rooms)
    requires
        old(rooms).wf(),
    ensures
        final(rooms).wf(),
        members_in(final(rooms)@, new_user.chat_room@).contains_key(new_user.user_id),
        final(rooms)@ == joined(
            old(rooms)@,
            new_user.chat_room@,
            new_user.user_id,
            members_in(final(rooms)@, new_user.chat_room@)[new_user.user_id],
        ),
{
    rooms.join(new_user.chat_room.as_str(), new_user.user_id, new_user.user_tx.clone());
}

/// Removes a user from their room. The room goes too if nobody is left in it.
pub fn remove_user_from_room(user: &User, rooms: &mut Rooms)
    requires
        old(rooms).wf(),
    ensures
        final(rooms).wf(),
        final(rooms)@ == left(old(rooms)@, user.chat_room@, user.user_id),
{
    rooms.leave(user.chat_room.as_str(), user.user_id);
}

} // verus!
