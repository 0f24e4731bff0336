//! The queue of commands whose replies are awaited.

use super::types::TmuxCommand;
use async_channel::{Receiver, Sender};
use vstd::prelude::*;

verus! {

#[verifier::external_type_specification]
#[verifier::external_body]
#[verifier::reject_recursive_types(T)]
pub struct ExSender<T>(Sender<T>);

#[verifier::external_type_specification]
#[verifier::external_body]
#[verifier::reject_recursive_types(T)]
pub struct ExReceiver<T>(Receiver<T>);

/// The commands that the receiver would give, oldest first.
pub uninterp spec fn queued_commands(receiver: Receiver<TmuxCommand>) -> Seq<TmuxCommand>;

/// The two are the only ends of one unbounded channel that is open.
pub uninterp spec fn sole_ends(
    sender: Sender<TmuxCommand>,
    receiver: Receiver<TmuxCommand>,
) -> bool;

/// `async_channel::unbounded`.
///
/// Claims that the two ends are the only ones of an open channel without
/// messages.
#[verifier::external_body]
fn command_channel() -> (ends: (Sender<TmuxCommand>, Receiver<TmuxCommand>))
    ensures
        sole_ends(ends.0, ends.1),
        queued_commands(ends.1) == Seq::<TmuxCommand>::empty(),
{
    async_channel::unbounded()
}

/// `async_channel::Sender::send_blocking`, while nothing else has the receiver.
///
/// Claims that a message sent into an open unbounded channel is taken and
/// becomes the last one there.
#[verifier::external_body]
fn send_command(
    sender: &Sender<TmuxCommand>,
    receiver: &mut Receiver<TmuxCommand>,
    command: TmuxCommand,
) -> (sent: bool)
    requires
        sole_ends(*sender, *old(receiver)),
    ensures
        sent,
        sole_ends(*sender, *final(receiver)),
        queued_commands(*final(receiver)) == queued_commands(*old(receiver)).push(command),
{
    sender.send_blocking(command).is_ok()
}

/// A queue that awaits the reply to being attached, which tmux gives without
/// having been asked.
pub fn new_command_queue() -> (queue: (Sender<TmuxCommand>, Receiver<TmuxCommand>))
    ensures
        sole_ends(queue.0, queue.1),
        queued_commands(queue.1) == seq![TmuxCommand::Init],
{
    let (sender, mut receiver) = command_channel();
    let _ = send_command(&sender, &mut receiver, TmuxCommand::Init);
    assert(queued_commands(receiver) == seq![TmuxCommand::Init]);
    (sender, receiver)
}

/// A new queue awaits one reply, the one to being attached.
pub proof fn first_reply_is_to_being_attached(
    queue: (Sender<TmuxCommand>, Receiver<TmuxCommand>),
)
    requires
        call_ensures(new_command_queue, (), queue),
    ensures
        queued_commands(queue.1).len() == 1,
        queued_commands(queue.1)[0] is Init,
{
}

} // verus!
