use vstd::prelude::*;
use std::sync::atomic::{AtomicBool, Ordering};
use tokio::sync::mpsc::error::TryRecvError;
use tokio::sync::mpsc::{unbounded_channel, UnboundedReceiver, UnboundedSender};

pub mod batch;
pub mod channel;
pub mod launch;
pub mod lifecycle;
pub mod ui_commands;

pub use ui_commands::UiCommand;

use batch::{coalesced, forward, plan_batch};
use channel::send;

verus! {

/// What became of a command that was handed to [`Bridge::queue_command`].
#[derive(Debug, PartialEq, Eq)]
pub enum QueueOutcome {
    /// The command is in the channel.
    Queued,
    /// The bridge had stopped: the command was dropped and the channel was
    /// not touched.
    Dropped,
    /// The bridge was running but the consumer is gone. The command comes
    /// back unchanged.
    Disconnected(UiCommand),
}

/// The producers' handle on the command channel, together with the flag
/// that tells every party whether the engine is still being served.
pub struct Bridge {
    sender: UnboundedSender<UiCommand>,
    /// True from construction until the session with the engine has ended.
    pub running: AtomicBool,
}

/// Turns the channel's answer to a send into the outcome that the producer
/// sees.
pub fn settle(sent: Result<(), UiCommand>) -> (outcome: QueueOutcome)
    ensures
        outcome == match sent {
            Ok(_) => QueueOutcome::Queued,
            Err(returned) => QueueOutcome::Disconnected(returned),
        },
{
    match sent {
        Ok(_) => QueueOutcome::Queued,
        Err(returned) => QueueOutcome::Disconnected(returned),
    }
}

/// The batch after one answer of the channel: a command goes to its end,
/// and any other answer leaves the batch as it is.
pub open spec fn extended(batch: Seq<UiCommand>, next: Result<UiCommand, TryRecvError>) -> Seq<
    UiCommand,
> {
    match next {
        Ok(command) => batch.push(command),
        Err(_) => batch,
    }
}

/// The batch after the channel's answers have been taken in turn, up to
/// the first answer that is no command.
pub open spec fn taken(batch: Seq<UiCommand>, answers: Seq<Result<UiCommand, TryRecvError>>) -> Seq<
    UiCommand,
>
    decreases answers.len(),
{
    if answers.len() == 0 || answers[0] is Err {
        batch
    } else {
        taken(extended(batch, answers[0]), answers.skip(1))
    }
}

/// The answers that hand out the given commands, one each, in order.
pub open spec fn handed_out(commands: Seq<UiCommand>) -> Seq<Result<UiCommand, TryRecvError>> {
    Seq::new(commands.len(), |i: int| Ok::<UiCommand, TryRecvError>(commands[i]))
}

/// Takes one answer of the channel into the batch. A command is put at the
/// end of the batch, and there may be more; any other answer leaves the
/// batch as it is and ends the draining.
pub fn take_next(batch: &mut Vec<UiCommand>, next: Result<UiCommand, TryRecvError>) -> (more: bool)
    ensures
        final(batch)@ == extended(old(batch)@, next),
        more == next is Ok,
{
    match next {
        Ok(command) => {
            batch.push(command);
            true
        },
        Err(_) => false,
    }
}

/// Completes a batch: `first` is the command that woke the consumer, and
/// behind it come the commands that wait in the channel at this moment, in
/// the order in which the channel hands them out. The function never waits
/// for a command that has not been queued yet. The batch is the waking
/// command with the channel's answers taken in turn.
pub fn drain(first: UiCommand, receiver: &mut UnboundedReceiver<UiCommand>) -> (batch: Vec<
    UiCommand,
>)
    ensures
        batch@.len() >= 1,
        batch@[0] == first,
        exists|answers: Seq<Result<UiCommand, TryRecvError>>|
            batch@ == #[trigger] taken(seq![first], answers),
{
    let mut batch: Vec<UiCommand> = Vec::new();
    batch.push(first);
    let waiting: usize = receiver.len();
    let mut count: usize = 0;
    let mut more = true;
    let ghost mut answers: Seq<Result<UiCommand, TryRecvError>> = Seq::empty();
    assert(batch@ == seq![first]);
    while more && count < waiting
        invariant
            batch@.len() >= 1,
            batch@[0] == first,
            more ==> batch@ == seq![first] + commands_in(answers),
            more ==> forall|i: int| 0 <= i < answers.len() ==> (#[trigger] answers[i]) is Ok,
            batch@ == taken(seq![first], answers),
        decreases waiting - count,
    {
        let next = receiver.try_recv();
        proof {
            lemma_taken_after_commands(seq![first], answers, next);
            answers = answers.push(next);
        }
        more = take_next(&mut batch, next);
        count = count + 1;
    }
    batch
}

/// The commands that the answers hand out, in order, where each answer is a
/// command.
pub open spec fn commands_in(answers: Seq<Result<UiCommand, TryRecvError>>) -> Seq<UiCommand> {
    Seq::new(answers.len(), |i: int| answers[i]->Ok_0)
}

/// Taking one more answer behind answers that were all commands extends
/// what was taken by that answer.
proof fn lemma_taken_after_commands(
    batch: Seq<UiCommand>,
    answers: Seq<Result<UiCommand, TryRecvError>>,
    next: Result<UiCommand, TryRecvError>,
)
    requires
        forall|i: int| 0 <= i < answers.len() ==> (#[trigger] answers[i]) is Ok,
    ensures
        taken(batch, answers) == batch + commands_in(answers),
        taken(batch, answers.push(next)) == extended(taken(batch, answers), next),
        next is Ok ==> commands_in(answers.push(next)) == commands_in(answers).push(next->Ok_0),
    decreases answers.len(),
{
    if answers.len() == 0 {
        assert(answers.push(next).skip(1) == Seq::<Result<UiCommand, TryRecvError>>::empty());
        assert(batch + commands_in(answers) == batch);
        assert(taken(extended(batch, next), Seq::<Result<UiCommand, TryRecvError>>::empty())
            == extended(batch, next));
    } else {
        let rest = answers.skip(1);
        let grown = extended(batch, answers[0]);
        assert forall|i: int| 0 <= i < rest.len() implies (#[trigger] rest[i]) is Ok by {
            assert(rest[i] == answers[i + 1]);
        }
        lemma_taken_after_commands(grown, rest, next);
        assert(answers.push(next).skip(1) == rest.push(next));
        assert(answers.push(next)[0] == answers[0]);
        assert(grown + commands_in(rest) == batch + commands_in(answers)) by {
            assert forall|i: int| 0 <= i < commands_in(rest).len() implies commands_in(rest)[i]
                == commands_in(answers)[i + 1] by {
                assert(rest[i] == answers[i + 1]);
            }
            assert(grown + commands_in(rest) =~= batch + commands_in(answers));
        }
    }
    if next is Ok {
        assert(commands_in(answers.push(next)) =~= commands_in(answers).push(next->Ok_0));
    }
}

/// Draining neither drops, merges nor reorders: where the channel hands
/// out the given commands one after the other, what is taken is the batch
/// with exactly those commands behind it, each once and in that order,
/// whatever the channel answers after them.
pub proof fn lemma_drained_commands_keep_their_order(
    batch: Seq<UiCommand>,
    commands: Seq<UiCommand>,
    refusal: TryRecvError,
)
    ensures
        taken(batch, handed_out(commands)) == batch + commands,
        taken(batch, handed_out(commands).push(Err(refusal))) == batch + commands,
{
    let answers = handed_out(commands);
    lemma_taken_after_commands(batch, answers, Err(refusal));
    assert(commands_in(answers) =~= commands);
}

impl Bridge {
    /// Opens the command channel and raises the running flag. The receiving
    /// half goes to the one consumer.
    pub fn new() -> (made: (Bridge, UnboundedReceiver<UiCommand>)) {
        let (sender, receiver) = unbounded_channel::<UiCommand>();
        (Bridge { sender, running: AtomicBool::new(true) }, receiver)
    }

    /// A snapshot of the running flag.
    pub fn is_running(&self) -> (running: bool) {
        self.running.load(Ordering::Relaxed)
    }

    /// Lowers the running flag. From now on commands are dropped.
    pub fn shut_down(&self) {
        self.running.store(false, Ordering::Relaxed);
    }

    /// Queues a command for the engine if the bridge is running, and drops
    /// it otherwise. The call never waits.
    pub fn queue_command(&self, command: UiCommand) -> (outcome: QueueOutcome)
        ensures
            outcome matches QueueOutcome::Disconnected(returned) ==> returned == command,
    {
        let running = self.is_running();
        self.queue_when(running, command)
    }

    /// Queues a command given what the running flag was read as. With the
    /// flag down the command is dropped and the channel is left alone; with
    /// the flag up the command goes to the channel, which takes it unless
    /// the consumer is gone.
    pub fn queue_when(&self, running: bool, command: UiCommand) -> (outcome: QueueOutcome)
        ensures
            !running ==> outcome == QueueOutcome::Dropped,
            running ==> outcome == QueueOutcome::Queued || outcome == QueueOutcome::Disconnected(
                command,
            ),
    {
        match forward(running, command) {
            None => QueueOutcome::Dropped,
            Some(command) => settle(send(&self.sender, command)),
        }
    }

    /// One wake-up of the consumer: drains what is ready behind `first` and
    /// coalesces it. `None` means that the bridge has stopped; the consumer
    /// then ends without dispatching anything.
    pub fn next_dispatch(
        &self,
        first: UiCommand,
        receiver: &mut UnboundedReceiver<UiCommand>,
    ) -> (plan: Option<Vec<UiCommand>>)
        ensures
            plan matches Some(dispatch) ==> exists|batch: Seq<UiCommand>|
                batch.len() >= 1 && batch[0] == first && dispatch@ == #[trigger] coalesced(batch),
    {
        let commands = drain(first, receiver);
        let running = self.is_running();
        plan_batch(running, commands)
    }

    /// The last look at the flag, taken by each dispatch task as it starts:
    /// the command comes back if the bridge still runs and is dropped if not.
    pub fn release(&self, command: UiCommand) -> (released: Option<UiCommand>)
        ensures
            released matches Some(kept) ==> kept == command,
    {
        let running = self.is_running();
        forward(running, command)
    }
}

} // verus!
