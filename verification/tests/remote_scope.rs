use futures::channel::oneshot::{Receiver, Sender};
use scoped_spawn::registry::Registry;
use scoped_spawn::remote_scope::signals::{poll_either, Labelled, SignalPoll};
use scoped_spawn::remote_scope::termination::{Action, Event, Phase, Termination};
use scoped_spawn::remote_scope::{cancel_children, collect_children, register_child, register_child_with_signal};

fn tables() -> (Registry<Labelled<Sender<()>>>, Registry<Labelled<Receiver<()>>>) {
    (Registry::new(), Registry::new())
}

#[test]
fn register_child_fills_both_tables() {
    let (mut cancels, mut dones) = tables();
    let a = register_child(&mut cancels, &mut dones);
    let b = register_child(&mut cancels, &mut dones);
    assert_eq!((a.cancel_id, a.done_id), (0, 0));
    assert_eq!((b.cancel_id, b.done_id), (1, 1));
    assert_eq!(cancels.len(), 2);
    assert_eq!(dones.len(), 2);
}

#[test]
fn clearing_the_cancel_table_cancels_the_child() {
    let (mut cancels, mut dones) = tables();
    let mut child = register_child(&mut cancels, &mut dones);
    assert_eq!(child.cancel_receiver.end.try_recv(), Ok(None));
    cancels.clear();
    assert!(child.cancel_receiver.end.try_recv().is_err());
}

#[test]
fn dropping_the_done_sender_reaches_the_parent() {
    let (mut cancels, mut dones) = tables();
    let child = register_child(&mut cancels, &mut dones);
    drop(child.done_sender.end);
    let mut receivers = dones.take_all();
    assert_eq!(receivers.len(), 1);
    assert!(receivers[0].end.try_recv().is_err());
}

#[test]
fn unregistering_restores_the_tables() {
    let (mut cancels, mut dones) = tables();
    let first = register_child(&mut cancels, &mut dones);
    let second = register_child(&mut cancels, &mut dones);
    assert!(cancels.remove(second.cancel_id).is_some());
    assert!(dones.remove(second.done_id).is_some());
    assert_eq!(cancels.len(), 1);
    assert_eq!(dones.len(), 1);
    assert!(cancels.contains(first.cancel_id));
    assert!(dones.contains(first.done_id));
    assert!(cancels.remove(second.cancel_id).is_none());
}

#[test]
fn signalled_child_is_cancelled_by_its_handle() {
    let (mut cancels, mut dones) = tables();
    let mut r = register_child_with_signal(&mut cancels, &mut dones);
    assert_eq!(r.cancel_receiver_leaf.end.try_recv(), Ok(None));
    drop(r.cancel_sender.end);
    assert!(r.cancel_receiver_leaf.end.try_recv().is_err());
    assert_eq!(r.cancel_receiver_root.end.try_recv(), Ok(None));
}

#[test]
fn signalled_child_is_cancelled_by_its_parent() {
    let (mut cancels, mut dones) = tables();
    let mut r = register_child_with_signal(&mut cancels, &mut dones);
    cancels.clear();
    assert!(r.cancel_receiver_root.end.try_recv().is_err());
    assert_eq!(r.cancel_receiver_leaf.end.try_recv(), Ok(None));
}

#[test]
fn signalled_child_reports_done_both_ways() {
    let (mut cancels, mut dones) = tables();
    let mut r = register_child_with_signal(&mut cancels, &mut dones);
    assert_eq!(r.done_receiver.end.try_recv(), Ok(None));
    drop(r.done_sender_leaf.end);
    drop(r.done_sender_root.end);
    assert!(r.done_receiver.end.try_recv().is_err());
    let mut receivers = dones.take_all();
    assert!(receivers[0].end.try_recv().is_err());
}

#[test]
fn scope_end_cancels_and_collects_children() {
    let (mut cancels, mut dones) = tables();
    let mut a = register_child(&mut cancels, &mut dones);
    let b = register_child(&mut cancels, &mut dones);
    let mut c = register_child(&mut cancels, &mut dones);
    // `b` terminates early and unregisters.
    cancels.remove(b.cancel_id);
    dones.remove(b.done_id);
    drop(b);
    let mut t = Termination::new(true);
    t.step(Event::CancelReceived);
    t.step(Event::Performed);
    cancel_children(&mut t, &mut cancels);
    assert_eq!(t.phase(), Phase::CollectingChildren);
    assert!(a.cancel_receiver.end.try_recv().is_err());
    assert!(c.cancel_receiver.end.try_recv().is_err());
    let receivers = collect_children(&mut t, &mut dones);
    assert_eq!(receivers.len(), 2);
    assert_eq!(t.pending_action(), Action::AwaitChild);
    assert_eq!(dones.len(), 0);
    assert_eq!(cancels.len(), 0);
}

#[test]
fn collecting_no_children_goes_to_done() {
    let (mut cancels, mut dones) = tables();
    let mut t = Termination::new(true);
    t.step(Event::FutureFinished);
    t.step(Event::Performed);
    cancel_children(&mut t, &mut cancels);
    let receivers = collect_children(&mut t, &mut dones);
    assert!(receivers.is_empty());
    assert_eq!(t.pending_action(), Action::CallDone);
}

#[test]
fn poll_either_prefers_the_root() {
    let r = poll_either(SignalPoll::Ready, || -> SignalPoll { panic!("the leaf must not be polled") });
    assert_eq!(r, SignalPoll::Ready);
}

#[test]
fn poll_either_falls_back_to_the_leaf() {
    assert_eq!(poll_either(SignalPoll::Pending, || SignalPoll::Ready), SignalPoll::Ready);
    assert_eq!(poll_either(SignalPoll::Pending, || SignalPoll::Pending), SignalPoll::Pending);
}

#[test]
fn each_table_holds_the_other_end_of_the_child_channel() {
    let (mut cancels, mut dones) = tables();
    let mut child = register_child(&mut cancels, &mut dones);
    // Dropping only the stored done receiver shows up at the child's done sender.
    let taken = dones.take_all();
    assert!(!child.done_sender.end.is_canceled());
    drop(taken);
    assert!(child.done_sender.end.is_canceled());
    // The child's cancel receiver is still pending until the stored sender goes.
    assert_eq!(child.cancel_receiver.end.try_recv(), Ok(None));
    cancels.clear();
    assert!(child.cancel_receiver.end.try_recv().is_err());
}
