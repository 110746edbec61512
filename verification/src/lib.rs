//! Structured concurrency for asynchronous tasks.
//!
//! Each task runs inside a scope created by its parent, and no task outlives its
//! parent. This crate holds the bookkeeping that ties a child to the scope of its
//! parent ([`registry`], [`remote_scope`]) and the protocol by which a task
//! terminates: its future is dropped, its children are cancelled and awaited,
//! its `done` callback runs, and only then is its parent told
//! ([`remote_scope::termination`]).

pub mod registry;
pub mod remote_scope;

use vstd::prelude::*;

verus! {

/// The sending side of a signal: dropping it fires the signal.
pub trait SignalSender {}

/// The receiving side of a signal: a future that completes when the signal fires.
pub trait SignalReceiver: core::future::Future<Output = ()> {}

/// The signals that a parent keeps for one child: dropping `cancel_sender`
/// cancels the child, and `done_receiver` completes once the child has
/// terminated.
pub struct ParentSignals<CancelSender: SignalSender, DoneReceiver: SignalReceiver> {
    pub cancel_sender: CancelSender,
    pub done_receiver: DoneReceiver,
}

/// The signals that a child task holds: `cancel_receiver` completes when the
/// child must stop, and dropping `done_sender` tells the parent that the child
/// has terminated.
pub struct ChildSignals<CancelReceiver: SignalReceiver, DoneSender: SignalSender> {
    pub cancel_receiver: CancelReceiver,
    pub done_sender: DoneSender,
}

/// Both halves of the signals of a child whose parent keeps a handle on it.
pub type ParentChildSignals<CancelSender, DoneReceiver, CancelReceiver, DoneSender> = (
    ParentSignals<CancelSender, DoneReceiver>,
    ChildSignals<CancelReceiver, DoneSender>,
);

/// A spawner that hands out the signals of a new child without spawning it.
pub trait RawScopedSpawn {
    type CancelReceiver: SignalReceiver + Send;
    type DoneSender: SignalSender + Send;

    type CancelSenderWithSignal: SignalSender + Send;
    type DoneReceiverWithSignal: SignalReceiver + Send;
    type CancelReceiverWithSignal: SignalReceiver + Send;
    type DoneSenderWithSignal: SignalSender + Send;

    fn spawn_raw(&self) -> ChildSignals<Self::CancelReceiver, Self::DoneSender>;

    fn spawn_raw_with_signal(&self) -> ParentChildSignals<
        Self::CancelSenderWithSignal,
        Self::DoneReceiverWithSignal,
        Self::CancelReceiverWithSignal,
        Self::DoneSenderWithSignal,
    >;
}

} // verus!
