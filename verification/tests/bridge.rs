use neovide::bridge::batch::{coalesce, forward, plan_batch};
use neovide::bridge::lifecycle::{Directive, Event, IoEnd, Phase, Severity, Supervisor};
use neovide::bridge::ui_commands::{RemoteCall, MINIMUM_HEIGHT, MINIMUM_WIDTH};
use neovide::bridge::{drain, settle, take_next, Bridge, QueueOutcome, UiCommand};
use tokio::sync::mpsc::error::TryRecvError;

fn resize(width: u32, height: u32) -> UiCommand {
    UiCommand::Resize { width, height }
}

fn keys(text: &str) -> UiCommand {
    UiCommand::Keyboard(text.to_string())
}

#[test]
fn burst_of_resizes_collapses_to_the_last() {
    let (bridge, mut receiver) = Bridge::new();
    assert_eq!(bridge.queue_command(resize(10, 10)), QueueOutcome::Queued);
    assert_eq!(bridge.queue_command(resize(20, 20)), QueueOutcome::Queued);
    assert_eq!(bridge.queue_command(keys("a")), QueueOutcome::Queued);
    assert_eq!(bridge.queue_command(resize(30, 30)), QueueOutcome::Queued);
    let first = receiver.try_recv().unwrap();
    let dispatch = bridge.next_dispatch(first, &mut receiver);
    assert_eq!(dispatch, Some(vec![resize(30, 30), keys("a")]));
    assert_eq!(receiver.try_recv(), Err(TryRecvError::Empty));
}

#[test]
fn queue_after_shutdown_is_a_no_op() {
    let (bridge, mut receiver) = Bridge::new();
    assert!(bridge.is_running());
    bridge.shut_down();
    assert!(!bridge.is_running());
    assert_eq!(bridge.queue_command(UiCommand::Quit), QueueOutcome::Dropped);
    assert_eq!(receiver.len(), 0);
    assert_eq!(receiver.try_recv(), Err(TryRecvError::Empty));
}

#[test]
fn is_running_is_stable_between_events() {
    let (bridge, _receiver) = Bridge::new();
    assert!(bridge.is_running());
    assert!(bridge.is_running());
    assert!(bridge.is_running());
    bridge.shut_down();
    assert!(!bridge.is_running());
    assert!(!bridge.is_running());
    bridge.shut_down();
    assert!(!bridge.is_running());
}

#[test]
fn queue_keeps_the_order_of_other_commands() {
    let (bridge, mut receiver) = Bridge::new();
    let queued = vec![
        keys("a"),
        UiCommand::FocusGained,
        resize(4, 5),
        UiCommand::Drag(1, 2),
        keys("b"),
        UiCommand::FileDrop("notes.txt".to_string()),
        resize(6, 7),
        UiCommand::Quit,
    ];
    for command in queued.iter() {
        assert_eq!(bridge.queue_command(command.clone()), QueueOutcome::Queued);
    }
    assert_eq!(receiver.len(), 8);
    let first = receiver.try_recv().unwrap();
    let batch = drain(first, &mut receiver);
    assert_eq!(batch, queued);
    assert_eq!(
        coalesce(batch),
        vec![
            resize(6, 7),
            keys("a"),
            UiCommand::FocusGained,
            UiCommand::Drag(1, 2),
            keys("b"),
            UiCommand::FileDrop("notes.txt".to_string()),
            UiCommand::Quit,
        ]
    );
}

#[test]
fn drain_takes_only_what_is_ready() {
    let (bridge, mut receiver) = Bridge::new();
    bridge.queue_command(keys("x"));
    let first = receiver.try_recv().unwrap();
    assert_eq!(drain(first, &mut receiver), vec![keys("x")]);
    bridge.queue_command(keys("y"));
    bridge.queue_command(keys("z"));
    let first = receiver.try_recv().unwrap();
    assert_eq!(drain(first, &mut receiver), vec![keys("y"), keys("z")]);
}

#[test]
fn queue_reports_a_missing_consumer() {
    let (bridge, receiver) = Bridge::new();
    drop(receiver);
    assert_eq!(
        bridge.queue_command(keys("lost")),
        QueueOutcome::Disconnected(keys("lost"))
    );
}

#[test]
fn settle_maps_both_answers() {
    assert_eq!(settle(Ok(())), QueueOutcome::Queued);
    assert_eq!(
        settle(Err(UiCommand::Quit)),
        QueueOutcome::Disconnected(UiCommand::Quit)
    );
}

#[test]
fn stopped_bridge_dispatches_nothing() {
    let (bridge, mut receiver) = Bridge::new();
    bridge.queue_command(keys("a"));
    bridge.queue_command(resize(1, 1));
    let first = receiver.try_recv().unwrap();
    bridge.shut_down();
    assert_eq!(bridge.next_dispatch(first, &mut receiver), None);
    assert_eq!(bridge.release(keys("late")), None);
}

#[test]
fn running_bridge_releases_commands() {
    let (bridge, _receiver) = Bridge::new();
    assert_eq!(bridge.release(keys("now")), Some(keys("now")));
}

#[test]
fn forward_follows_the_flag() {
    assert_eq!(forward(true, UiCommand::FocusLost), Some(UiCommand::FocusLost));
    assert_eq!(forward(false, UiCommand::FocusLost), None);
}

#[test]
fn coalesce_without_resize_changes_nothing() {
    let batch = vec![keys("a"), UiCommand::FocusLost, keys("b")];
    assert_eq!(coalesce(batch.clone()), batch);
    assert_eq!(coalesce(Vec::new()), Vec::<UiCommand>::new());
}

#[test]
fn coalesce_of_resizes_only_keeps_one() {
    assert_eq!(
        coalesce(vec![resize(1, 2), resize(3, 4), resize(5, 6)]),
        vec![resize(5, 6)]
    );
    assert_eq!(coalesce(vec![resize(1, 2)]), vec![resize(1, 2)]);
}

#[test]
fn coalesce_puts_the_resize_first() {
    assert_eq!(
        coalesce(vec![keys("a"), keys("b"), resize(9, 9)]),
        vec![resize(9, 9), keys("a"), keys("b")]
    );
}

#[test]
fn plan_batch_follows_the_flag() {
    assert_eq!(plan_batch(false, vec![keys("a")]), None);
    assert_eq!(
        plan_batch(true, vec![resize(1, 1), keys("a"), resize(2, 2)]),
        Some(vec![resize(2, 2), keys("a")])
    );
}

#[test]
fn is_resize_tells_resizes_apart() {
    assert!(resize(1, 1).is_resize());
    assert!(!keys("a").is_resize());
    assert!(!UiCommand::Quit.is_resize());
    assert!(!UiCommand::Drag(1, 1).is_resize());
}

#[test]
fn orderly_shutdown_drops_what_comes_after() {
    let (bridge, mut receiver) = Bridge::new();
    let mut supervisor = Supervisor::new((100, 50));
    supervisor.advance(Event::Launched(true));
    supervisor.advance(Event::VersionReported(Some(1)));
    supervisor.advance(Event::MarkerSet(true));
    supervisor.advance(Event::UiAttached(true));
    supervisor.advance(Event::HookFinished(None));
    assert_eq!(supervisor.advance(Event::PipelineStarted), Directive::Serve);
    assert_eq!(supervisor.phase(), Phase::Running);
    assert!(bridge.is_running());

    let directive = supervisor.advance(Event::IoEnded(IoEnd::ChannelClosed));
    assert_eq!(directive, Directive::Stop(Some(Severity::Low)));
    bridge.shut_down();
    assert_eq!(supervisor.phase(), Phase::Terminated);
    assert!(!bridge.is_running());

    assert_eq!(bridge.queue_command(UiCommand::Quit), QueueOutcome::Dropped);
    assert_eq!(receiver.len(), 0);
    assert_eq!(receiver.try_recv(), Err(TryRecvError::Empty));
}

#[test]
fn commands_queued_before_shutdown_are_not_dispatched_after_it() {
    let (bridge, mut receiver) = Bridge::new();
    assert_eq!(bridge.queue_command(keys("a")), QueueOutcome::Queued);
    assert_eq!(bridge.queue_command(keys("b")), QueueOutcome::Queued);
    bridge.shut_down();
    assert_eq!(bridge.queue_command(keys("c")), QueueOutcome::Dropped);
    assert_eq!(receiver.len(), 2);
    let first = receiver.try_recv().unwrap();
    assert_eq!(bridge.next_dispatch(first, &mut receiver), None);
}

fn mouse(button: &str, action: &str, row: i64, column: i64) -> RemoteCall {
    RemoteCall::InputMouse {
        button: button.to_string(),
        action: action.to_string(),
        modifier: String::new(),
        grid: 0,
        row,
        column,
    }
}

#[test]
fn resize_never_asks_for_less_than_the_minimum() {
    assert_eq!((MINIMUM_WIDTH, MINIMUM_HEIGHT), (10, 3));
    assert_eq!(
        resize(80, 24).remote_call(),
        RemoteCall::TryResize {
            width: 80,
            height: 24
        }
    );
    assert_eq!(
        resize(0, 0).remote_call(),
        RemoteCall::TryResize {
            width: 10,
            height: 3
        }
    );
    assert_eq!(
        resize(9, 4).remote_call(),
        RemoteCall::TryResize {
            width: 10,
            height: 4
        }
    );
    assert_eq!(
        resize(10, 2).remote_call(),
        RemoteCall::TryResize {
            width: 10,
            height: 3
        }
    );
    assert_eq!(
        resize(u32::MAX, u32::MAX).remote_call(),
        RemoteCall::TryResize {
            width: 4294967295,
            height: 4294967295
        }
    );
}

#[test]
fn commands_become_calls() {
    assert_eq!(
        keys("<C-w>").remote_call(),
        RemoteCall::Input("<C-w>".to_string())
    );
    assert_eq!(
        UiCommand::MouseButton {
            action: "press".to_string(),
            position: (3, 7),
        }
        .remote_call(),
        mouse("left", "press", 7, 3)
    );
    assert_eq!(
        UiCommand::Scroll {
            direction: "up".to_string(),
            position: (1, 2),
        }
        .remote_call(),
        mouse("wheel", "up", 2, 1)
    );
    assert_eq!(
        UiCommand::Drag(5, 6).remote_call(),
        mouse("left", "drag", 6, 5)
    );
    assert_eq!(
        UiCommand::FileDrop("a b.txt".to_string()).remote_call(),
        RemoteCall::Command("e a b.txt".to_string())
    );
    assert_eq!(
        UiCommand::FocusLost.remote_call(),
        RemoteCall::Command(
            "if exists('#FocusLost') | doautocmd <nomodeline> FocusLost | endif".to_string()
        )
    );
    assert_eq!(
        UiCommand::FocusGained.remote_call(),
        RemoteCall::Command(
            "if exists('#FocusGained') | doautocmd <nomodeline> FocusGained | endif".to_string()
        )
    );
    assert_eq!(
        UiCommand::Quit.remote_call(),
        RemoteCall::Command("qa!".to_string())
    );
}

#[test]
fn failed_calls_are_logged_except_for_quit_and_drop() {
    let message = |command: UiCommand| command.failure_message();
    assert_eq!(message(resize(1, 1)), Some("Resize failed".to_string()));
    assert_eq!(message(keys("a")), Some("Input failed".to_string()));
    assert_eq!(
        message(UiCommand::MouseButton {
            action: "press".to_string(),
            position: (0, 0),
        }),
        Some("Mouse Input Failed".to_string())
    );
    assert_eq!(
        message(UiCommand::Scroll {
            direction: "down".to_string(),
            position: (0, 0),
        }),
        Some("Mouse Scroll Failed".to_string())
    );
    assert_eq!(
        message(UiCommand::Drag(0, 0)),
        Some("Mouse Drag Failed".to_string())
    );
    assert_eq!(
        message(UiCommand::FocusLost),
        Some("Focus Lost Failed".to_string())
    );
    assert_eq!(
        message(UiCommand::FocusGained),
        Some("Focus Gained Failed".to_string())
    );
    assert_eq!(message(UiCommand::Quit), None);
    assert_eq!(message(UiCommand::FileDrop("x".to_string())), None);
}

#[test]
fn clone_keeps_the_command() {
    let commands = vec![
        resize(1, 2),
        keys("abc"),
        UiCommand::MouseButton {
            action: "release".to_string(),
            position: (8, 9),
        },
        UiCommand::Scroll {
            direction: "left".to_string(),
            position: (3, 4),
        },
        UiCommand::Drag(5, 6),
        UiCommand::FileDrop("f".to_string()),
        UiCommand::FocusLost,
        UiCommand::FocusGained,
        UiCommand::Quit,
    ];
    for command in commands.iter() {
        assert_eq!(&command.clone(), command);
    }
}

#[test]
fn queue_when_goes_by_the_flag_it_is_given() {
    let (bridge, mut receiver) = Bridge::new();
    assert_eq!(bridge.queue_when(false, keys("a")), QueueOutcome::Dropped);
    assert_eq!(receiver.len(), 0);
    assert_eq!(bridge.queue_when(true, keys("b")), QueueOutcome::Queued);
    assert_eq!(receiver.len(), 1);
    assert_eq!(receiver.try_recv(), Ok(keys("b")));
    drop(receiver);
    assert_eq!(
        bridge.queue_when(true, keys("c")),
        QueueOutcome::Disconnected(keys("c"))
    );
    assert_eq!(bridge.queue_when(false, keys("d")), QueueOutcome::Dropped);
}

#[test]
fn take_next_appends_a_command_and_stops_on_anything_else() {
    let mut batch = vec![keys("a")];
    assert!(take_next(&mut batch, Ok(resize(1, 1))));
    assert_eq!(batch, vec![keys("a"), resize(1, 1)]);
    assert!(take_next(&mut batch, Ok(resize(1, 1))));
    assert_eq!(batch, vec![keys("a"), resize(1, 1), resize(1, 1)]);
    assert!(!take_next(&mut batch, Err(TryRecvError::Empty)));
    assert!(!take_next(&mut batch, Err(TryRecvError::Disconnected)));
    assert_eq!(batch, vec![keys("a"), resize(1, 1), resize(1, 1)]);
    let mut empty: Vec<UiCommand> = Vec::new();
    assert!(take_next(&mut empty, Ok(UiCommand::Quit)));
    assert_eq!(empty, vec![UiCommand::Quit]);
}

#[test]
fn drain_neither_coalesces_nor_reorders() {
    let (bridge, mut receiver) = Bridge::new();
    bridge.queue_command(keys("first"));
    bridge.queue_command(keys("a"));
    bridge.queue_command(resize(1, 1));
    bridge.queue_command(resize(2, 2));
    bridge.queue_command(UiCommand::Quit);
    let first = receiver.try_recv().unwrap();
    assert_eq!(
        drain(first, &mut receiver),
        vec![
            keys("first"),
            keys("a"),
            resize(1, 1),
            resize(2, 2),
            UiCommand::Quit
        ]
    );
    assert_eq!(receiver.len(), 0);
}

#[test]
fn drain_ends_when_the_senders_are_gone() {
    let (bridge, mut receiver) = Bridge::new();
    bridge.queue_command(keys("a"));
    bridge.queue_command(keys("b"));
    drop(bridge);
    let first = receiver.try_recv().unwrap();
    assert_eq!(drain(first, &mut receiver), vec![keys("a"), keys("b")]);
    assert_eq!(receiver.try_recv(), Err(TryRecvError::Disconnected));
}
