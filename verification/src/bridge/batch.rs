use vstd::prelude::*;
use crate::bridge::ui_commands::UiCommand;

verus! {

/// The predicate that tells resize commands from all others.
pub open spec fn resize_kind() -> spec_fn(UiCommand) -> bool {
    |c: UiCommand| c is Resize
}

/// The complement of [`resize_kind`].
pub open spec fn other_kind() -> spec_fn(UiCommand) -> bool {
    |c: UiCommand| !(c is Resize)
}

/// The resize commands of a batch, in the order in which they were queued.
pub open spec fn resizes(batch: Seq<UiCommand>) -> Seq<UiCommand> {
    batch.filter(resize_kind())
}

/// All commands of a batch that are not resizes, in the order in which they
/// were queued.
pub open spec fn others(batch: Seq<UiCommand>) -> Seq<UiCommand> {
    batch.filter(other_kind())
}

/// What is dispatched for a batch: the last resize, where the batch holds
/// one, and then every other command in the order of the batch.
pub open spec fn coalesced(batch: Seq<UiCommand>) -> Seq<UiCommand> {
    if resizes(batch).len() > 0 {
        seq![resizes(batch).last()] + others(batch)
    } else {
        others(batch)
    }
}

/// How the two partitions of a batch grow when one more command is queued
/// behind it.
pub proof fn lemma_partition_push(batch: Seq<UiCommand>, command: UiCommand)
    ensures
        resizes(batch.push(command)) == if command is Resize {
            resizes(batch).push(command)
        } else {
            resizes(batch)
        },
        others(batch.push(command)) == if command is Resize {
            others(batch)
        } else {
            others(batch).push(command)
        },
{
    reveal(Seq::filter);
    assert(batch.push(command).drop_last() == batch);
}

/// An empty batch has empty partitions.
pub proof fn lemma_partition_empty()
    ensures
        resizes(Seq::<UiCommand>::empty()) == Seq::<UiCommand>::empty(),
        others(Seq::<UiCommand>::empty()) == Seq::<UiCommand>::empty(),
{
    reveal(Seq::filter);
}

/// Collapses the resizes of one batch into the latest and keeps everything
/// else as it was queued.
pub fn coalesce(commands: Vec<UiCommand>) -> (dispatch: Vec<UiCommand>)
    ensures
        dispatch@ == coalesced(commands@),
{
    let ghost batch = commands@;
    let mut last_resize: Option<UiCommand> = None;
    let mut rest: Vec<UiCommand> = Vec::new();
    proof {
        lemma_partition_empty();
        assert(batch.take(0) == Seq::<UiCommand>::empty());
    }
    for command in it: commands
        invariant
            it.seq() == batch,
            rest@ == others(batch.take(it.index())),
            last_resize is Some <==> resizes(batch.take(it.index())).len() > 0,
            last_resize is Some ==> last_resize->0 == resizes(batch.take(it.index())).last(),
    {
        proof {
            let i = it.index();
            lemma_partition_push(batch.take(i), batch[i]);
            assert(batch.take(i + 1) == batch.take(i).push(batch[i]));
        }
        if command.is_resize() {
            last_resize = Some(command);
        } else {
            rest.push(command);
        }
    }
    proof {
        assert(batch.take(batch.len() as int) == batch);
    }
    match last_resize {
        Some(resize) => {
            let mut dispatch: Vec<UiCommand> = Vec::new();
            dispatch.push(resize);
            dispatch.append(&mut rest);
            dispatch
        },
        None => rest,
    }
}

/// What becomes of a command that meets the running flag: it goes through
/// while the flag is up and is dropped once it is down.
pub open spec fn forwarded(running: bool, command: UiCommand) -> Option<UiCommand> {
    if running {
        Some(command)
    } else {
        None
    }
}

/// What is dispatched for a drained batch: the coalesced batch while the
/// flag is up, nothing at all once it is down.
pub open spec fn planned(running: bool, batch: Seq<UiCommand>) -> Option<Seq<UiCommand>> {
    if running {
        Some(coalesced(batch))
    } else {
        None
    }
}

/// What every command meets on its way to the engine: it goes through
/// while the bridge runs and is dropped afterwards.
pub fn forward(running: bool, command: UiCommand) -> (passed: Option<UiCommand>)
    ensures
        passed == forwarded(running, command),
{
    if running {
        Some(command)
    } else {
        None
    }
}

/// Decides what is dispatched for one drained batch. `None` tells the
/// consumer that the bridge has stopped and that it should end.
pub fn plan_batch(running: bool, commands: Vec<UiCommand>) -> (plan: Option<Vec<UiCommand>>)
    ensures
        match plan {
            Some(dispatch) => planned(running, commands@) == Some(dispatch@),
            None => planned(running, commands@) is None,
        },
{
    if !running {
        return None;
    }
    Some(coalesce(commands))
}

/// Once the running flag is down nothing passes: no command is forwarded,
/// neither into the channel nor out to the engine, and nothing is
/// dispatched for a batch, whatever it holds.
pub proof fn lemma_lowered_flag_stops_everything(command: UiCommand, batch: Seq<UiCommand>)
    ensures
        forwarded(false, command) is None,
        planned(false, batch) is None,
{
}

/// While the running flag is up every command is forwarded unchanged, and
/// what is dispatched for a batch holds each of its commands that is not a
/// resize, in the order of the batch.
pub proof fn lemma_raised_flag_passes_commands(command: UiCommand, batch: Seq<UiCommand>)
    ensures
        forwarded(true, command) == Some(command),
        planned(true, batch) == Some(coalesced(batch)),
        others(coalesced(batch)) == others(batch),
{
    lemma_other_commands_survive_in_order(batch);
}

/// A batch without resizes is dispatched exactly as it was queued.
pub proof fn lemma_batch_without_resize_is_unchanged(batch: Seq<UiCommand>)
    requires
        forall|i: int| 0 <= i < batch.len() ==> !(#[trigger] batch[i] is Resize),
    ensures
        coalesced(batch) == batch,
{
    lemma_partition_without_resize(batch);
}

proof fn lemma_partition_without_resize(batch: Seq<UiCommand>)
    requires
        forall|i: int| 0 <= i < batch.len() ==> !(#[trigger] batch[i] is Resize),
    ensures
        resizes(batch).len() == 0,
        others(batch) == batch,
    decreases batch.len(),
{
    if batch.len() == 0 {
        lemma_partition_empty();
        assert(batch == Seq::<UiCommand>::empty());
    } else {
        let front = batch.drop_last();
        let back = batch.last();
        assert(!(batch[batch.len() - 1] is Resize));
        assert forall|i: int| 0 <= i < front.len() implies !(#[trigger] front[i] is Resize) by {
            assert(!(batch[i] is Resize));
        }
        lemma_partition_without_resize(front);
        lemma_partition_push(front, back);
        assert(front.push(back) == batch);
    }
}

/// Coalescing neither drops, changes nor reorders the commands that are not
/// resizes: filtered down to them, the dispatch and the batch are the same.
pub proof fn lemma_other_commands_survive_in_order(batch: Seq<UiCommand>)
    ensures
        others(coalesced(batch)) == others(batch),
{
    lemma_others_is_pure(batch);
    if resizes(batch).len() > 0 {
        let head = seq![resizes(batch).last()];
        batch.lemma_filter_pred(resize_kind(), resizes(batch).len() - 1);
        lemma_partition_empty();
        lemma_partition_push(Seq::<UiCommand>::empty(), resizes(batch).last());
        assert(Seq::<UiCommand>::empty().push(resizes(batch).last()) == head);
        Seq::filter_distributes_over_add(head, others(batch), other_kind());
    }
}

/// Every command of a batch that is not a resize is among the commands
/// dispatched for it.
pub proof fn lemma_every_other_command_is_dispatched(batch: Seq<UiCommand>, i: int)
    requires
        0 <= i < batch.len(),
        !(batch[i] is Resize),
    ensures
        coalesced(batch).contains(batch[i]),
{
    batch.lemma_filter_contains(other_kind(), i);
    let at = choose|k: int| 0 <= k < others(batch).len() && others(batch)[k] == batch[i];
    if resizes(batch).len() > 0 {
        assert(coalesced(batch)[at + 1] == batch[i]);
    } else {
        assert(coalesced(batch)[at] == batch[i]);
    }
}

/// Of a batch that holds at least one resize, exactly one resize is
/// dispatched, and it comes first.
pub proof fn lemma_exactly_one_resize_is_dispatched(batch: Seq<UiCommand>)
    requires
        exists|i: int| 0 <= i < batch.len() && #[trigger] batch[i] is Resize,
    ensures
        resizes(batch).len() >= 1,
        resizes(coalesced(batch)) == seq![resizes(batch).last()],
        coalesced(batch)[0] == resizes(batch).last(),
        coalesced(batch).len() == 1 + others(batch).len(),
{
    let i = choose|i: int| 0 <= i < batch.len() && #[trigger] batch[i] is Resize;
    batch.lemma_filter_contains(resize_kind(), i);
    let head = seq![resizes(batch).last()];
    batch.lemma_filter_pred(resize_kind(), resizes(batch).len() - 1);
    lemma_partition_empty();
    lemma_partition_push(Seq::<UiCommand>::empty(), resizes(batch).last());
    assert(Seq::<UiCommand>::empty().push(resizes(batch).last()) == head);
    lemma_others_is_pure(batch);
    Seq::filter_distributes_over_add(head, others(batch), resize_kind());
}

/// The resize that is dispatched is the one queued last: where `latest` is
/// the position of a resize with no resize behind it, the dispatch is that
/// command followed by the batch's other commands.
pub proof fn lemma_latest_resize_wins(batch: Seq<UiCommand>, latest: int)
    requires
        0 <= latest < batch.len(),
        batch[latest] is Resize,
        forall|k: int| latest < k < batch.len() ==> !(#[trigger] batch[k] is Resize),
    ensures
        coalesced(batch) == seq![batch[latest]] + others(batch),
{
    lemma_last_resize_position(batch, latest);
}

proof fn lemma_last_resize_position(batch: Seq<UiCommand>, latest: int)
    requires
        0 <= latest < batch.len(),
        batch[latest] is Resize,
        forall|k: int| latest < k < batch.len() ==> !(#[trigger] batch[k] is Resize),
    ensures
        resizes(batch).len() > 0,
        resizes(batch).last() == batch[latest],
    decreases batch.len(),
{
    let front = batch.drop_last();
    lemma_partition_push(front, batch.last());
    assert(front.push(batch.last()) == batch);
    if latest < batch.len() - 1 {
        assert(front[latest] == batch[latest]);
        assert forall|k: int| latest < k < front.len() implies !(#[trigger] front[k] is Resize) by {
            assert(front[k] == batch[k]);
        }
        lemma_last_resize_position(front, latest);
    }
}

/// The other commands of a batch hold no resize, and filtering them again
/// changes nothing.
proof fn lemma_others_is_pure(batch: Seq<UiCommand>)
    ensures
        others(others(batch)) == others(batch),
        resizes(others(batch)) == Seq::<UiCommand>::empty(),
    decreases batch.len(),
{
    if batch.len() == 0 {
        lemma_partition_empty();
        assert(batch == Seq::<UiCommand>::empty());
    } else {
        let front = batch.drop_last();
        lemma_others_is_pure(front);
        lemma_partition_push(front, batch.last());
        assert(front.push(batch.last()) == batch);
        lemma_partition_push(others(front), batch.last());
    }
}

} // verus!
