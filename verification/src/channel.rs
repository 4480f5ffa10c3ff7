//! The command channel: an unbounded first-in, first-out queue that carries
//! scroll commands from the classifier to the emitter.
//!
//! The classifier's side sends; the emitter's side takes everything that is
//! queued before it decides whether to emit, and closes the channel when it
//! stops, so that the sender learns of it.

use crate::command::ScrollCommand;
use crate::error::AutoscrollError;
use vstd::prelude::*;

verus! {

/// What a channel holds: the commands not yet taken, oldest first, and
/// whether the receiving side has gone.
pub struct ChannelView {
    pub queued: Seq<ScrollCommand>,
    pub closed: bool,
}

impl ChannelView {
    /// An open channel with nothing queued.
    pub open spec fn empty() -> ChannelView {
        ChannelView { queued: Seq::empty(), closed: false }
    }

    /// Sending fails exactly on a closed channel.
    pub open spec fn send_outcome(self) -> Result<(), AutoscrollError> {
        if self.closed {
            Err(AutoscrollError::ChannelClosed)
        } else {
            Ok(())
        }
    }

    /// The channel after an attempt to send: the command goes to the back of
    /// an open channel, and a closed one stays as it is.
    pub open spec fn after_send(self, command: ScrollCommand) -> ChannelView {
        if self.closed {
            self
        } else {
            ChannelView { queued: self.queued.push(command), closed: false }
        }
    }

    /// The channel after attempts to send each command of a run, in order.
    pub open spec fn after_sends(self, commands: Seq<ScrollCommand>) -> ChannelView
        decreases commands.len(),
    {
        if commands.len() == 0 {
            self
        } else {
            self.after_sends(commands.drop_last()).after_send(commands.last())
        }
    }

    /// The channel after everything queued was taken.
    pub open spec fn after_drain(self) -> ChannelView {
        ChannelView { queued: Seq::empty(), closed: self.closed }
    }

    /// The channel after the receiving side has gone.
    pub open spec fn after_close(self) -> ChannelView {
        ChannelView { queued: self.queued, closed: true }
    }
}

/// The queue between the classifier and the emitter.
#[derive(Debug)]
pub struct CommandQueue {
    pending: Vec<ScrollCommand>,
    closed: bool,
}

impl View for CommandQueue {
    type V = ChannelView;

    closed spec fn view(&self) -> ChannelView {
        ChannelView { queued: self.pending@, closed: self.closed }
    }
}

impl CommandQueue {
    /// An open channel with nothing queued.
    pub fn new() -> (queue: CommandQueue)
        ensures
            queue@ == ChannelView::empty(),
    {
        CommandQueue { pending: Vec::new(), closed: false }
    }

    /// Queues a command behind those already queued. Fails with
    /// `ChannelClosed`, and queues nothing, once the channel is closed.
    pub fn send(&mut self, command: ScrollCommand) -> (sent: Result<(), AutoscrollError>)
        ensures
            sent == old(self)@.send_outcome(),
            final(self)@ == old(self)@.after_send(command),
    {
        if self.closed {
            Err(AutoscrollError::ChannelClosed)
        } else {
            self.pending.push(command);
            Ok(())
        }
    }

    /// Takes every queued command, oldest first, without waiting for more.
    pub fn drain(&mut self) -> (commands: Vec<ScrollCommand>)
        ensures
            commands@ == old(self)@.queued,
            final(self)@ == old(self)@.after_drain(),
    {
        let mut commands: Vec<ScrollCommand> = Vec::new();
        commands.append(&mut self.pending);
        commands
    }

    /// Closes the channel: what is queued stays, and every later send fails.
    pub fn close(&mut self)
        ensures
            final(self)@ == old(self)@.after_close(),
    {
        self.closed = true;
    }

    /// How many commands are queued.
    pub fn len(&self) -> (n: usize)
        ensures
            n == self@.queued.len(),
    {
        self.pending.len()
    }

    /// Whether the channel is closed.
    pub fn is_closed(&self) -> (b: bool)
        ensures
            b == self@.closed,
    {
        self.closed
    }
}

/// First in, first out: on an open channel the commands sent are queued
/// behind those already there, in the order of sending, none lost and none
/// twice.
pub proof fn lemma_sends_keep_order(channel: ChannelView, commands: Seq<ScrollCommand>)
    requires
        !channel.closed,
    ensures
        channel.after_sends(commands) == (ChannelView {
            queued: channel.queued + commands,
            closed: false,
        }),
    decreases commands.len(),
{
    if commands.len() == 0 {
        assert(channel.queued + commands =~= channel.queued);
    } else {
        lemma_sends_keep_order(channel, commands.drop_last());
        assert((channel.queued + commands.drop_last()).push(commands.last()) =~= channel.queued
            + commands);
    }
}

/// What is sent on an empty open channel is what the next drain takes.
pub proof fn lemma_drain_takes_what_was_sent(commands: Seq<ScrollCommand>)
    ensures
        ChannelView::empty().after_sends(commands).queued == commands,
        ChannelView::empty().after_sends(commands).after_drain() == ChannelView::empty(),
{
    lemma_sends_keep_order(ChannelView::empty(), commands);
    assert(Seq::<ScrollCommand>::empty() + commands =~= commands);
}

/// A closed channel takes nothing more and stays closed.
pub proof fn lemma_closed_channel_rejects(channel: ChannelView, commands: Seq<ScrollCommand>)
    requires
        channel.closed,
    ensures
        channel.after_sends(commands) == channel,
        channel.after_sends(commands).send_outcome() == Err::<(), AutoscrollError>(
            AutoscrollError::ChannelClosed,
        ),
    decreases commands.len(),
{
    if commands.len() > 0 {
        lemma_closed_channel_rejects(channel, commands.drop_last());
    }
}

} // verus!
