use vstd::prelude::*;
use tokio::sync::mpsc::error::TryRecvError;
use tokio::sync::mpsc::{UnboundedReceiver, UnboundedSender};
use crate::bridge::ui_commands::UiCommand;

verus! {

/// The sending half of tokio's unbounded channel. Nothing is known of a
/// value of it: what the channel holds changes under other tasks' hands.
#[verifier::external_type_specification]
#[verifier::external_body]
#[verifier::reject_recursive_types(T)]
pub struct ExUnboundedSender<T>(UnboundedSender<T>);

/// The receiving half of tokio's unbounded channel, as opaque as the sender.
#[verifier::external_type_specification]
#[verifier::external_body]
#[verifier::reject_recursive_types(T)]
pub struct ExUnboundedReceiver<T>(UnboundedReceiver<T>);

/// The error of `UnboundedReceiver::try_recv`: the channel is empty, or it
/// is empty and every sender is gone.
#[verifier::external_type_specification]
#[verifier::external_body]
pub struct ExTryRecvError(TryRecvError);

/// `tokio::sync::mpsc::unbounded_channel` makes a new channel and hands out
/// its two halves. Nothing is claimed of them.
pub assume_specification<T>[ tokio::sync::mpsc::unbounded_channel::<T> ]() -> (halves: (
    UnboundedSender<T>,
    UnboundedReceiver<T>,
));

/// `UnboundedSender::send` never waits. It fails only when the receiving half
/// is closed or gone, and then hands the message back inside its error, from
/// which it is taken here. Whether it fails depends on the other half, so
/// nothing says when.
#[verifier::external_body]
pub(crate) fn send(sender: &UnboundedSender<UiCommand>, command: UiCommand) -> (sent: Result<
    (),
    UiCommand,
>)
    ensures
        sent matches Err(returned) ==> returned == command,
{
    sender.send(command).map_err(|error| error.0)
}

/// `UnboundedReceiver::try_recv` takes the next message if one is there.
/// What it finds depends on the senders, so nothing is claimed of it.
pub assume_specification<T>[ UnboundedReceiver::<T>::try_recv ](
    receiver: &mut UnboundedReceiver<T>,
) -> (next: Result<T, TryRecvError>);

/// `UnboundedReceiver::len` counts the messages that wait in the channel at
/// the moment of the call. The count is stale as soon as it is returned.
pub assume_specification<T>[ UnboundedReceiver::<T>::len ](
    receiver: &UnboundedReceiver<T>,
) -> (waiting: usize);

} // verus!
