use scoped_spawn::remote_scope::termination::{Action, Event, Phase, StopCause, Termination};

#[test]
fn new_task_is_running() {
    let t = Termination::new(true);
    assert_eq!(t.phase(), Phase::Running);
    assert_eq!(t.cause(), None);
    assert_eq!(t.pending_action(), Action::AwaitFutureOrCancel);
    assert!(!t.is_terminated());
}

#[test]
fn full_termination_with_children() {
    let mut t = Termination::new(true);
    let mut actions = vec![t.pending_action()];
    actions.push(t.step(Event::CancelReceived));
    actions.push(t.step(Event::Performed));
    actions.push(t.step(Event::Performed));
    actions.push(t.step(Event::ChildrenCollected(2)));
    actions.push(t.step(Event::ChildTerminated));
    actions.push(t.step(Event::ChildTerminated));
    actions.push(t.step(Event::Performed));
    actions.push(t.step(Event::Performed));
    assert_eq!(
        actions,
        vec![
            Action::AwaitFutureOrCancel,
            Action::DropFuture,
            Action::CancelChildren,
            Action::CollectChildren,
            Action::AwaitChild,
            Action::AwaitChild,
            Action::CallDone,
            Action::SignalParent,
            Action::Nothing,
        ]
    );
    assert!(t.is_terminated());
    assert_eq!(t.cause(), Some(StopCause::Cancelled));
}

#[test]
fn termination_without_spawner_skips_children() {
    let mut t = Termination::new(false);
    assert_eq!(t.step(Event::FutureFinished), Action::DropFuture);
    assert_eq!(t.step(Event::Performed), Action::CallDone);
    assert_eq!(t.phase(), Phase::CallingDone);
    assert_eq!(t.step(Event::Performed), Action::SignalParent);
    assert_eq!(t.step(Event::Performed), Action::Nothing);
    assert!(t.is_terminated());
    assert_eq!(t.cause(), Some(StopCause::FutureFinished));
}

#[test]
fn no_children_collected_goes_to_done() {
    let mut t = Termination::new(true);
    t.step(Event::FutureFinished);
    t.step(Event::Performed);
    t.step(Event::Performed);
    assert_eq!(t.step(Event::ChildrenCollected(0)), Action::CallDone);
    assert_eq!(t.phase(), Phase::CallingDone);
}

#[test]
fn first_cause_wins() {
    let mut t = Termination::new(true);
    t.step(Event::FutureFinished);
    assert_eq!(t.step(Event::CancelReceived), Action::DropFuture);
    assert_eq!(t.phase(), Phase::Stopping);
    assert_eq!(t.cause(), Some(StopCause::FutureFinished));
}

#[test]
fn unexpected_events_change_nothing() {
    let mut t = Termination::new(true);
    assert_eq!(t.step(Event::Performed), Action::AwaitFutureOrCancel);
    assert_eq!(t.step(Event::ChildTerminated), Action::AwaitFutureOrCancel);
    assert_eq!(t.step(Event::ChildrenCollected(3)), Action::AwaitFutureOrCancel);
    assert_eq!(t.phase(), Phase::Running);
    t.step(Event::CancelReceived);
    t.step(Event::Performed);
    t.step(Event::Performed);
    t.step(Event::ChildrenCollected(1));
    assert_eq!(t.step(Event::Performed), Action::AwaitChild);
    assert_eq!(t.step(Event::ChildTerminated), Action::CallDone);
    assert_eq!(t.step(Event::ChildTerminated), Action::CallDone);
    t.step(Event::Performed);
    t.step(Event::Performed);
    assert_eq!(t.step(Event::Performed), Action::Nothing);
    assert!(t.is_terminated());
}

#[test]
fn done_waits_for_every_collected_child() {
    let mut t = Termination::new(true);
    t.step(Event::FutureFinished);
    t.step(Event::Performed);
    t.step(Event::Performed);
    t.step(Event::ChildrenCollected(3));
    assert_eq!(t.step(Event::ChildTerminated), Action::AwaitChild);
    assert_eq!(t.step(Event::ChildTerminated), Action::AwaitChild);
    assert_eq!(t.phase(), Phase::AwaitingChildren);
    assert_eq!(t.step(Event::ChildTerminated), Action::CallDone);
}

#[test]
fn dropped_before_first_poll_releases_future_first_and_tells_parent_last() {
    let t = Termination::new(true);
    assert_eq!(
        t.release_order(),
        vec![
            Action::DropFuture,
            Action::CancelChildren,
            Action::DiscardDone,
            Action::ParkParentSignal
        ]
    );
    let u = Termination::new(false);
    assert_eq!(
        u.release_order(),
        vec![Action::DropFuture, Action::DiscardDone, Action::SignalParent]
    );
}

#[test]
fn dropped_while_awaiting_children_discards_done_then_tells_parent() {
    let mut t = Termination::new(true);
    t.step(Event::FutureFinished);
    t.step(Event::Performed);
    t.step(Event::Performed);
    t.step(Event::ChildrenCollected(2));
    assert_eq!(t.release_order(), vec![Action::DiscardDone, Action::ParkParentSignal]);
    t.step(Event::ChildTerminated);
    t.step(Event::ChildTerminated);
    assert_eq!(t.phase(), Phase::CallingDone);
    assert_eq!(t.release_order(), vec![Action::DiscardDone, Action::SignalParent]);
}

#[test]
fn dropped_while_cancelling_still_cancels_children() {
    let mut t = Termination::new(true);
    t.step(Event::CancelReceived);
    t.step(Event::Performed);
    assert_eq!(t.phase(), Phase::CancellingChildren);
    assert_eq!(
        t.release_order(),
        vec![Action::CancelChildren, Action::DiscardDone, Action::ParkParentSignal]
    );
    t.step(Event::Performed);
    assert_eq!(t.release_order(), vec![Action::DiscardDone, Action::ParkParentSignal]);
}

#[test]
fn dropped_after_done_only_tells_parent() {
    let mut t = Termination::new(false);
    t.step(Event::CancelReceived);
    t.step(Event::Performed);
    t.step(Event::Performed);
    assert_eq!(t.phase(), Phase::SignallingParent);
    assert_eq!(t.release_order(), vec![Action::SignalParent]);
    t.step(Event::Performed);
    assert!(t.release_order().is_empty());
}
