use vjoy_bridge::connection::{on_event, ConnectionAction, ConnectionEvent};
use vjoy_bridge::types::{AppCommand, Axis, AxisCommand, ButtonCommand, Command};
use vjoy_bridge::util::MAX_LEVEL;
use vjoy_bridge::worker::{Phase, Worker, WorkerAction, WorkerEvent};

fn ready_worker() -> Worker {
    let mut w = Worker::new();
    assert_eq!(w.phase(), Phase::Applying);
    assert_eq!(w.on_event(WorkerEvent::Committed(true)), WorkerAction::Receive);
    w
}

fn deliver(w: &mut Worker, c: AppCommand) -> usize {
    let mut commits = 0;
    match on_event(&ConnectionEvent::Decoded(c)) {
        ConnectionAction::Enqueue(cmd) => {
            if w.on_event(WorkerEvent::Dequeued(cmd)) == WorkerAction::Commit {
                commits += 1;
            }
            assert_eq!(w.on_event(WorkerEvent::Committed(true)), WorkerAction::Receive);
        }
        other => panic!("unexpected action {:?}", other),
    }
    commits
}

fn axis_message(name: &str, value: i32) -> AppCommand {
    AppCommand { axis: Some(AxisCommand { axis: name.to_string(), value }), button: None }
}

fn button_message(button: u8, pressed: bool) -> AppCommand {
    AppCommand { axis: None, button: Some(ButtonCommand { button, pressed }) }
}

#[test]
fn last_axis_write_wins_ignoring_case() {
    let mut w = ready_worker();
    deliver(&mut w, axis_message("X", 0));
    assert_eq!(w.device().axis(1), 0);
    deliver(&mut w, axis_message("x", MAX_LEVEL));
    assert_eq!(w.device().axis(1), MAX_LEVEL);
}

#[test]
fn press_then_release_leaves_button_released() {
    let mut w = ready_worker();
    deliver(&mut w, button_message(3, true));
    assert!(w.device().button(3));
    deliver(&mut w, button_message(3, false));
    assert!(!w.device().button(3));
}

#[test]
fn malformed_message_reaches_nothing() {
    let mut w = ready_worker();
    assert_eq!(on_event(&ConnectionEvent::Malformed), ConnectionAction::ReportDecodeError);
    for id in 0..=255u8 {
        assert!(!w.device().button(id));
    }
    assert_eq!(w.phase(), Phase::Idle);
    deliver(&mut w, button_message(1, true));
    assert!(w.device().button(1));
}

#[test]
fn connection_decisions() {
    assert_eq!(on_event(&ConnectionEvent::NonText), ConnectionAction::Receive);
    assert_eq!(on_event(&ConnectionEvent::Enqueued), ConnectionAction::Receive);
    assert_eq!(on_event(&ConnectionEvent::Closed), ConnectionAction::Close);
    assert_eq!(on_event(&ConnectionEvent::QueueClosed), ConnectionAction::Close);
    assert_eq!(
        on_event(&ConnectionEvent::Decoded(axis_message("Wheel", 9))),
        ConnectionAction::Enqueue(Command::AxisOnly(Axis::Wheel, 9))
    );
}

#[test]
fn toggles_apply_in_order() {
    let mut w = ready_worker();
    let sequence = [(1u8, true), (2, true), (1, false), (3, true), (2, false), (1, true)];
    for (b, p) in sequence {
        deliver(&mut w, button_message(b, p));
    }
    assert!(w.device().button(1));
    assert!(!w.device().button(2));
    assert!(w.device().button(3));
    assert!(!w.device().button(4));
}

#[test]
fn every_command_gets_one_commit() {
    let mut w = ready_worker();
    let mut commits = 0;
    for k in 0..50u8 {
        commits += deliver(&mut w, button_message(k, k % 2 == 0));
    }
    commits += deliver(&mut w, AppCommand { axis: None, button: None });
    assert_eq!(commits, 51);
}

#[test]
fn failed_commit_keeps_the_worker_going() {
    let mut w = ready_worker();
    assert_eq!(w.on_event(WorkerEvent::Dequeued(Command::ButtonOnly(6, true))), WorkerAction::Commit);
    assert_eq!(w.on_event(WorkerEvent::Committed(false)), WorkerAction::Receive);
    assert!(w.device().button(6));
    assert_eq!(w.phase(), Phase::Idle);
}

#[test]
fn events_out_of_turn_change_nothing() {
    let mut w = Worker::new();
    assert_eq!(w.on_event(WorkerEvent::Dequeued(Command::ButtonOnly(6, true))), WorkerAction::Commit);
    assert!(!w.device().button(6));
    assert_eq!(w.on_event(WorkerEvent::QueueClosed), WorkerAction::Commit);
    assert_eq!(w.phase(), Phase::Applying);
    assert_eq!(w.on_event(WorkerEvent::Committed(true)), WorkerAction::Receive);
    assert_eq!(w.on_event(WorkerEvent::Committed(true)), WorkerAction::Receive);
    assert_eq!(w.on_event(WorkerEvent::QueueClosed), WorkerAction::Stop);
    assert_eq!(w.phase(), Phase::Stopped);
    assert_eq!(w.on_event(WorkerEvent::Dequeued(Command::ButtonOnly(6, true))), WorkerAction::Stop);
    assert!(!w.device().button(6));
}
