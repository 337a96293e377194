//! Rows of the durable message log, and the decisions of the single writer
//! that appends them.
//!
//! The writer owns the receiving half of the submission channel. Each step it
//! polls once and says what to do with what it found: append a row, wait, or
//! finish. Once shutdown has been seen it no longer waits: it goes on taking
//! what is buffered and finishes when the channel is found empty. Opening the
//! store, appending and committing are the caller's part.

use vstd::prelude::*;
use tokio::sync::mpsc::error::SendError;
use tokio::sync::mpsc::{Sender, UnboundedReceiver, UnboundedSender};
use crate::shutdown::Shutdown;

verus! {

pub type DbTx = UnboundedSender<DBMessage>;

pub type DbRx = UnboundedReceiver<DBMessage>;

/// What one row of the durable log holds, as plain values.
pub struct RowView {
    pub user_id: usize,
    pub room_name: Seq<char>,
    pub message: Seq<char>,
}

/// One accepted message on its way to the durable log: who sent it, in which
/// room, and the raw body as the sender typed it.
#[derive(Debug)]
pub struct DBMessage {
    pub user_id: usize,
    pub room_name: String,
    pub message: String,
}

impl View for DBMessage {
    type V = RowView;

    open spec fn view(&self) -> RowView {
        RowView { user_id: self.user_id, room_name: self.room_name@, message: self.message@ }
    }
}

impl DBMessage {
    /// Builds the row for `message`, sent by `user_id` in `room_name`.
    pub fn new(user_id: usize, room_name: &str, message: &str) -> (row: Self)
        ensures
            row@ == (RowView { user_id, room_name: room_name@, message: message@ }),
    {
        DBMessage { user_id, room_name: room_name.to_owned(), message: message.to_owned() }
    }
}

/// The submission channel no longer takes messages: the writer is gone.
#[derive(Clone, Copy, Debug, PartialEq, Eq, Structural)]
pub struct ChannelClosed;

/// Hands `message` to the writer without waiting. Whether the channel takes
/// it is up to the channel: it refuses once the writer has gone.
pub fn submit(db_tx: &DbTx, message: DBMessage) -> (taken: Result<(), ChannelClosed>) {
    submission(db_tx.send(message))
}

/// What a submission came to, given what the channel said of it: taken if the
/// channel took the message, and else closed.
pub fn submission(said: Result<(), SendError<DBMessage>>) -> (taken: Result<(), ChannelClosed>)
    ensures
        taken is Ok <==> said is Ok,
{
    match said {
        Ok(()) => Ok(()),
        Err(_) => Err(ChannelClosed),
    }
}

/// Where the writer stands.
#[derive(Clone, Copy, Debug, PartialEq, Eq, Structural)]
pub enum WriterPhase {
    /// Shutdown has not been seen: an empty channel means waiting.
    Running,
    /// Shutdown has been seen: an empty channel means the end.
    Draining,
    /// The channel was found empty after shutdown. Nothing more is taken.
    Finished,
}

/// What the caller has to do after a step of the writer.
#[derive(Debug)]
pub enum WriterAction {
    /// Append this row to the open batch.
    Append(DBMessage),
    /// Nothing was buffered: step again later.
    Wait,
    /// Commit the batch and release the store.
    Finish,
}

/// A [`WriterAction`] as plain values.
pub enum ActionView {
    Append(RowView),
    Wait,
    Finish,
}

impl View for WriterAction {
    type V = ActionView;

    open spec fn view(&self) -> ActionView {
        match self {
            WriterAction::Append(row) => ActionView::Append(row@),
            WriterAction::Wait => ActionView::Wait,
            WriterAction::Finish => ActionView::Finish,
        }
    }
}

/// The view of what a poll of the channel found.
pub open spec fn polled_view(polled: Option<DBMessage>) -> Option<RowView> {
    match polled {
        Some(row) => Some(row@),
        None => None,
    }
}

/// What follows from one poll of the channel. A row that was found is always
/// appended. An empty channel ends the writer if shutdown has been seen, and
/// makes it wait otherwise.
pub open spec fn after_poll(shutdown_seen: bool, polled: Option<RowView>) -> (
    WriterPhase,
    ActionView,
) {
    match polled {
        Some(row) => (
            if shutdown_seen {
                WriterPhase::Draining
            } else {
                WriterPhase::Running
            },
            ActionView::Append(row),
        ),
        None => if shutdown_seen {
            (WriterPhase::Finished, ActionView::Finish)
        } else {
            (WriterPhase::Running, ActionView::Wait)
        },
    }
}

/// One step of the writer: from its phase, from whether shutdown has been seen
/// by now and from what the poll found, to the next phase and the action. A
/// finished writer stays finished; a draining one goes by the poll alone.
pub open spec fn writer_next(phase: WriterPhase, shutdown_seen: bool, polled: Option<RowView>) -> (
    WriterPhase,
    ActionView,
) {
    match phase {
        WriterPhase::Running => after_poll(shutdown_seen, polled),
        WriterPhase::Draining => after_poll(true, polled),
        WriterPhase::Finished => (WriterPhase::Finished, ActionView::Finish),
    }
}

/// What the poll must have found for a step to end in `action`.
pub open spec fn polled_for(action: ActionView) -> Option<RowView> {
    match action {
        ActionView::Append(row) => Some(row),
        ActionView::Wait => None,
        ActionView::Finish => None,
    }
}

/// The actions of a writer that has seen shutdown while the channel still
/// holds `buffered` and nothing is added to it: one step for each poll, up to
/// and with the poll that finds the channel empty.
pub open spec fn drain_actions(phase: WriterPhase, buffered: Seq<RowView>) -> Seq<ActionView>
    decreases buffered.len(),
{
    if buffered.len() == 0 {
        seq![writer_next(phase, true, None).1]
    } else {
        let (next, action) = writer_next(phase, true, Some(buffered[0]));
        seq![action] + drain_actions(next, buffered.drop_first())
    }
}

/// The phase in which the steps of [`drain_actions`] end.
pub open spec fn drain_phase(phase: WriterPhase, buffered: Seq<RowView>) -> WriterPhase
    decreases buffered.len(),
{
    if buffered.len() == 0 {
        writer_next(phase, true, None).0
    } else {
        drain_phase(writer_next(phase, true, Some(buffered[0])).0, buffered.drop_first())
    }
}

/// Draining loses nothing and repeats nothing: a writer that is not finished
/// and has seen shutdown appends every buffered row exactly once, in the order
/// of the channel, and only then finishes.
pub proof fn lemma_drain_appends_all(phase: WriterPhase, buffered: Seq<RowView>)
    requires
        phase != WriterPhase::Finished,
    ensures
        drain_actions(phase, buffered) == buffered.map_values(|row: RowView| ActionView::Append(row)).push(
            ActionView::Finish,
        ),
        drain_phase(phase, buffered) == WriterPhase::Finished,
    decreases buffered.len(),
{
    let appended = buffered.map_values(|row: RowView| ActionView::Append(row));
    if buffered.len() == 0 {
        assert(drain_actions(phase, buffered) =~= appended.push(ActionView::Finish));
    } else {
        let rest = buffered.drop_first();
        lemma_drain_appends_all(WriterPhase::Draining, rest);
        let rest_appended = rest.map_values(|row: RowView| ActionView::Append(row));
        assert(seq![ActionView::Append(buffered[0])] + rest_appended.push(ActionView::Finish)
            =~= appended.push(ActionView::Finish));
    }
}

/// Whatever the writer has seen of shutdown, a row that it takes from the
/// channel is appended, and taking one never finishes the writer.
pub proof fn lemma_taken_row_is_appended(phase: WriterPhase, shutdown_seen: bool, row: RowView)
    requires
        phase != WriterPhase::Finished,
    ensures
        writer_next(phase, shutdown_seen, Some(row)).1 == ActionView::Append(row),
        writer_next(phase, shutdown_seen, Some(row)).0 != WriterPhase::Finished,
{
}

/// The writer finishes only on an empty channel, and only once shutdown has
/// been seen.
pub proof fn lemma_finishes_only_when_drained(
    phase: WriterPhase,
    shutdown_seen: bool,
    polled: Option<RowView>,
)
    requires
        phase != WriterPhase::Finished,
        writer_next(phase, shutdown_seen, polled).0 == WriterPhase::Finished,
    ensures
        polled is None,
        shutdown_seen || phase == WriterPhase::Draining,
{
}

/// A finished writer has nothing more to append, whatever is offered to it.
pub proof fn lemma_finished_stays(shutdown_seen: bool, polled: Option<RowView>)
    ensures
        writer_next(WriterPhase::Finished, shutdown_seen, polled) == (
            WriterPhase::Finished,
            ActionView::Finish,
        ),
{
}

/// Decides on one poll result, as [`after_poll`] says.
pub fn decide(shutdown_seen: bool, polled: Option<DBMessage>) -> (next: (WriterPhase, WriterAction))
    ensures
        (next.0, next.1@) == after_poll(shutdown_seen, polled_view(polled)),
{
    match polled {
        Some(row) => {
            let phase = if shutdown_seen {
                WriterPhase::Draining
            } else {
                WriterPhase::Running
            };
            (phase, WriterAction::Append(row))
        },
        None => if shutdown_seen {
            (WriterPhase::Finished, WriterAction::Finish)
        } else {
            (WriterPhase::Running, WriterAction::Wait)
        },
    }
}

/// The single writer: its phase, its shutdown listener and the receiving half
/// of the submission channel.
pub struct Writer {
    phase: WriterPhase,
    shutdown: Shutdown,
    db_rx: DbRx,
}

impl Writer {
    /// Where the writer stands.
    pub closed spec fn phase(&self) -> WriterPhase {
        self.phase
    }

    /// Whether the writer has seen the shutdown announcement.
    pub closed spec fn shutdown_seen(&self) -> bool {
        self.shutdown.signaled()
    }

    /// The completion handle that the writer holds. It is released when the
    /// writer is dropped, and not before.
    pub closed spec fn completion(&self) -> Sender<()> {
        self.shutdown.completion()
    }

    /// A running writer on `db_rx` that listens on `shutdown`.
    pub fn new(db_rx: DbRx, shutdown: Shutdown) -> (writer: Self)
        ensures
            writer.phase() == WriterPhase::Running,
            writer.shutdown_seen() == shutdown.signaled(),
            writer.completion() == shutdown.completion(),
    {
        Writer { phase: WriterPhase::Running, shutdown, db_rx }
    }

    /// Whether the writer has finished.
    pub fn is_finished(&self) -> (finished: bool)
        ensures
            finished == (self.phase() == WriterPhase::Finished),
    {
        self.phase == WriterPhase::Finished
    }

    /// One step. A finished writer touches nothing and says `Finish` again.
    /// Otherwise the writer looks for the shutdown announcement while it is
    /// running, polls the channel once, and does what [`writer_next`] says for
    /// the announcement as seen by now and for what the poll found: the row
    /// in an `Append` is the row that was taken from the channel, and `Wait`
    /// and `Finish` mean that the channel was found empty.
    pub fn step(&mut self) -> (action: WriterAction)
        ensures
            (final(self).phase(), action@) == writer_next(
                old(self).phase(),
                final(self).shutdown_seen(),
                polled_for(action@),
            ),
            old(self).shutdown_seen() ==> final(self).shutdown_seen(),
            old(self).phase() == WriterPhase::Finished ==> *final(self) == *old(self),
            final(self).completion() == old(self).completion(),
    {
        match self.phase {
            WriterPhase::Finished => WriterAction::Finish,
            WriterPhase::Running => {
                self.shutdown.listen();
                let polled = self.poll();
                let (phase, action) = decide(self.shutdown.is_shutdown(), polled);
                self.phase = phase;
                action
            },
            WriterPhase::Draining => {
                let polled = self.poll();
                let (phase, action) = decide(true, polled);
                self.phase = phase;
                action
            },
        }
    }

    /// Takes the next buffered message, if there is one, without waiting.
    fn poll(&mut self) -> (polled: Option<DBMessage>)
        ensures
            final(self).phase == old(self).phase,
            final(self).shutdown == old(self).shutdown,
    {
        match self.db_rx.try_recv() {
            Ok(row) => Some(row),
            Err(_) => None,
        }
    }
}

} // verus!
