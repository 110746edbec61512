//! Low-level structured concurrency: everything needed to spawn a task, except
//! the spawning itself.

pub mod channel;
pub mod signals;
pub mod termination;

use crate::registry::{lookup, unregister_undoes_register, values_of, without, Registry};
use self::termination::{next, Event, Phase, Termination};
use self::signals::{
    labelled_channel, leaf_cancel_channel, leaf_done_channel, root_cancel_channel, root_done_channel,
    ChildRegistration, Labelled, SignalledRegistration,
};
use futures::channel::oneshot::{Receiver, Sender};
use vstd::prelude::*;

verus! {

/// Whether both tables of a scope can still hand out an id.
pub open spec fn tables_have_room(
    cancel_senders: Registry<Labelled<Sender<()>>>,
    done_receivers: Registry<Labelled<Receiver<()>>>,
) -> bool {
    &&& cancel_senders.next_id() < u64::MAX
    &&& done_receivers.next_id() < u64::MAX
}

/// `after` is `before` with one more registration, under `id`, at its end.
pub open spec fn registered_one<T>(before: Registry<T>, after: Registry<T>, id: u64) -> bool {
    &&& after.wf()
    &&& id == before.next_id()
    &&& !before.contains_id(id)
    &&& after.next_id() == id + 1
    &&& after@.len() == before@.len() + 1
    &&& after@.drop_last() == before@
    &&& after@.last().0 == id
}

/// A child that unregisters leaves the table of its parent as it was before it
/// registered, and until then the table holds an entry under its id. (This is
/// what happens when a child drops its signals: each of them removes its own
/// id from the parent's table.)
pub proof fn unregistering_restores_table<T>(before: Registry<T>, after: Registry<T>, id: u64)
    requires
        before.wf(),
        registered_one(before, after, id),
    ensures
        lookup(after@, id) is Some,
        without(after@, id) == before@,
{
    let v = after@.last().1;
    assert(after@ =~= before@.push((id, v)));
    unregister_undoes_register(before, v);
}

/// Registers a new child with the scope whose tables these are: the sending
/// end of the child's cancel channel goes into `cancel_senders`, the receiving
/// end of its done channel into `done_receivers`, and the child gets the other
/// ends with both ids.
pub fn register_child(
    cancel_senders: &mut Registry<Labelled<Sender<()>>>,
    done_receivers: &mut Registry<Labelled<Receiver<()>>>,
) -> (r: ChildRegistration)
    requires
        tables_have_room(*old(cancel_senders), *old(done_receivers)),
    ensures
        registered_one(*old(cancel_senders), *final(cancel_senders), r.cancel_id),
        registered_one(*old(done_receivers), *final(done_receivers), r.done_id),
        final(cancel_senders)@.last().1.channel() == root_cancel_channel(r.cancel_id),
        r.cancel_receiver.channel() == root_cancel_channel(r.cancel_id),
        final(done_receivers)@.last().1.channel() == root_done_channel(r.done_id),
        r.done_sender.channel() == root_done_channel(r.done_id),
        final(cancel_senders)@.last().1.origin() == r.cancel_receiver.origin(),
        final(done_receivers)@.last().1.origin() == r.done_sender.origin(),
{
    let cancel_id = cancel_senders.next();
    let done_id = done_receivers.next();
    let (cancel_sender, cancel_receiver) = labelled_channel(Ghost(root_cancel_channel(cancel_id)));
    let (done_sender, done_receiver) = labelled_channel(Ghost(root_done_channel(done_id)));
    let cancel_id = cancel_senders.insert(cancel_sender);
    let done_id = done_receivers.insert(done_receiver);
    assert(cancel_senders@.drop_last() =~= old(cancel_senders)@);
    assert(done_receivers@.drop_last() =~= old(done_receivers)@);
    ChildRegistration { cancel_receiver, cancel_id, done_sender, done_id }
}

/// Registers a new child whose spawner keeps a handle on it. As in
/// [`register_child`], one end of each root channel goes into the tables; the
/// leaf channels connect the child with its spawner.
pub fn register_child_with_signal(
    cancel_senders: &mut Registry<Labelled<Sender<()>>>,
    done_receivers: &mut Registry<Labelled<Receiver<()>>>,
) -> (r: SignalledRegistration)
    requires
        tables_have_room(*old(cancel_senders), *old(done_receivers)),
    ensures
        registered_one(*old(cancel_senders), *final(cancel_senders), r.cancel_id),
        registered_one(*old(done_receivers), *final(done_receivers), r.done_id),
        final(cancel_senders)@.last().1.channel() == root_cancel_channel(r.cancel_id),
        r.cancel_receiver_root.channel() == root_cancel_channel(r.cancel_id),
        r.cancel_sender.channel() == leaf_cancel_channel(r.cancel_id),
        r.cancel_receiver_leaf.channel() == leaf_cancel_channel(r.cancel_id),
        final(done_receivers)@.last().1.channel() == root_done_channel(r.done_id),
        r.done_sender_root.channel() == root_done_channel(r.done_id),
        r.done_receiver.channel() == leaf_done_channel(r.done_id),
        r.done_sender_leaf.channel() == leaf_done_channel(r.done_id),
        final(cancel_senders)@.last().1.origin() == r.cancel_receiver_root.origin(),
        r.cancel_sender.origin() == r.cancel_receiver_leaf.origin(),
        final(done_receivers)@.last().1.origin() == r.done_sender_root.origin(),
        r.done_receiver.origin() == r.done_sender_leaf.origin(),
{
    let cancel_id = cancel_senders.next();
    let done_id = done_receivers.next();
    let (cancel_sender_root, cancel_receiver_root) = labelled_channel(Ghost(root_cancel_channel(cancel_id)));
    let (cancel_sender_leaf, cancel_receiver_leaf) = labelled_channel(Ghost(leaf_cancel_channel(cancel_id)));
    let (done_sender_root, done_receiver_root) = labelled_channel(Ghost(root_done_channel(done_id)));
    let (done_sender_leaf, done_receiver_leaf) = labelled_channel(Ghost(leaf_done_channel(done_id)));
    let cancel_id = cancel_senders.insert(cancel_sender_root);
    let done_id = done_receivers.insert(done_receiver_root);
    assert(cancel_senders@.drop_last() =~= old(cancel_senders)@);
    assert(done_receivers@.drop_last() =~= old(done_receivers)@);
    SignalledRegistration {
        cancel_sender: cancel_sender_leaf,
        done_receiver: done_receiver_leaf,
        cancel_receiver_root,
        cancel_receiver_leaf,
        cancel_id,
        done_sender_root,
        done_sender_leaf,
        done_id,
    }
}

/// Cancels the children of a terminating task: drops every cancel sender in its
/// table, which fires the cancel signal of each child still registered, and
/// records that this step is done.
pub fn cancel_children<T>(t: &mut Termination, cancel_senders: &mut Registry<T>)
    requires
        old(t)@.phase == Phase::CancellingChildren,
    ensures
        final(cancel_senders).wf(),
        final(cancel_senders)@ == Seq::<(u64, T)>::empty(),
        final(cancel_senders).next_id() == old(cancel_senders).next_id(),
        final(t)@ == next(old(t)@, Event::Performed),
        final(t)@.phase == Phase::CollectingChildren,
{
    cancel_senders.clear();
    t.step(Event::Performed);
}

/// Collects the children that a terminating task must wait for: takes every
/// done receiver still in its table, in registration order, and records how
/// many there are. A child that has already terminated has unregistered
/// itself, so it is not waited for.
pub fn collect_children<T>(t: &mut Termination, done_receivers: &mut Registry<T>) -> (receivers: Vec<T>)
    requires
        old(t)@.phase == Phase::CollectingChildren,
    ensures
        receivers@ == values_of(old(done_receivers)@),
        final(done_receivers).wf(),
        final(done_receivers)@ == Seq::<(u64, T)>::empty(),
        final(done_receivers).next_id() == old(done_receivers).next_id(),
        final(t)@ == next(old(t)@, Event::ChildrenCollected(receivers.len())),
        final(t)@.collected == old(done_receivers)@.len(),
{
    let receivers = done_receivers.take_all();
    t.step(Event::ChildrenCollected(receivers.len()));
    receivers
}

} // verus!
