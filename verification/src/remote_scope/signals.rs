//! The channel ends that carry cancel and done signals.

pub use super::channel::Labelled;
use super::channel::oneshot_channel;
use vstd::prelude::*;

verus! {

#[verifier::external_type_specification]
#[verifier::external_body]
#[verifier::reject_recursive_types(T)]
pub struct ExOneshotSender<T>(futures::channel::oneshot::Sender<T>);

#[verifier::external_type_specification]
#[verifier::external_body]
#[verifier::reject_recursive_types(T)]
pub struct ExOneshotReceiver<T>(futures::channel::oneshot::Receiver<T>);

/// The error that a `Receiver` yields when its sender is dropped. It is
/// declared because `Receiver`'s `Future` impl names it; nothing here uses it.
#[verifier::external_type_specification]
#[verifier::external_body]
pub struct ExOneshotCanceled(futures::channel::oneshot::Canceled);

/// Makes a fresh channel and labels both of its ends with `label`; the two
/// ends share one origin.
pub(crate) fn labelled_channel(Ghost(label): Ghost<int>) -> (ends: (
    Labelled<futures::channel::oneshot::Sender<()>>,
    Labelled<futures::channel::oneshot::Receiver<()>>,
))
    ensures
        ends.0.channel() == label,
        ends.1.channel() == label,
        ends.0.origin() == ends.1.origin(),
{
    let (sender, receiver) = oneshot_channel();
    (sender.with_label(Ghost(label)), receiver.with_label(Ghost(label)))
}

/// The label of the root cancel channel of the child registered under cancel
/// id `id`: its sender is in the parent's table, its receiver with the child.
pub open spec fn root_cancel_channel(id: u64) -> int {
    4 * id
}

/// The label of the leaf cancel channel of the child registered under cancel
/// id `id`: its sender is the spawner's handle, its receiver with the child.
pub open spec fn leaf_cancel_channel(id: u64) -> int {
    4 * id + 1
}

/// The label of the root done channel of the child registered under done id
/// `id`: its receiver is in the parent's table, its sender with the child.
pub open spec fn root_done_channel(id: u64) -> int {
    4 * id + 2
}

/// The label of the leaf done channel of the child registered under done id
/// `id`: its receiver is the spawner's handle, its sender with the child.
pub open spec fn leaf_done_channel(id: u64) -> int {
    4 * id + 3
}

/// What a child gets when it registers with the scope of its parent: the
/// receiving end of its cancel signal, the sending end of its done signal, and
/// the ids under which the parent's tables hold the other two ends.
pub struct ChildRegistration {
    pub cancel_receiver: Labelled<futures::channel::oneshot::Receiver<()>>,
    pub cancel_id: u64,
    pub done_sender: Labelled<futures::channel::oneshot::Sender<()>>,
    pub done_id: u64,
}

/// A registration for a child whose spawner keeps a handle on it.
///
/// The parent's tables hold the root ends, which fire when the parent's scope
/// ends. The leaf ends connect the child with whoever spawned it: dropping
/// `cancel_sender` cancels the child, and `done_receiver` completes once the
/// child has terminated.
pub struct SignalledRegistration {
    pub cancel_sender: Labelled<futures::channel::oneshot::Sender<()>>,
    pub done_receiver: Labelled<futures::channel::oneshot::Receiver<()>>,
    pub cancel_receiver_root: Labelled<futures::channel::oneshot::Receiver<()>>,
    pub cancel_receiver_leaf: Labelled<futures::channel::oneshot::Receiver<()>>,
    pub cancel_id: u64,
    pub done_sender_root: Labelled<futures::channel::oneshot::Sender<()>>,
    pub done_sender_leaf: Labelled<futures::channel::oneshot::Sender<()>>,
    pub done_id: u64,
}

/// What polling a signal found.
#[derive(Clone, Copy, Debug, PartialEq, Eq, Structural)]
pub enum SignalPoll {
    Ready,
    Pending,
}

/// Polls a cancel signal that fires on either of two channels: the root one,
/// which fires when the parent's scope ends, and the leaf one, which fires when
/// the spawner drops its handle on the child. The root is looked at first; the
/// leaf is polled, by `poll_leaf`, only while the root is pending. So the
/// signal fires on whichever fires first.
pub fn poll_either<F: FnOnce() -> SignalPoll>(root: SignalPoll, poll_leaf: F) -> (r: SignalPoll)
    requires
        root == SignalPoll::Pending ==> poll_leaf.requires(()),
    ensures
        root == SignalPoll::Ready ==> r == SignalPoll::Ready,
        root == SignalPoll::Pending ==> poll_leaf.ensures((), r),
{
    match root {
        SignalPoll::Ready => SignalPoll::Ready,
        SignalPoll::Pending => poll_leaf(),
    }
}

} // verus!
