//! How a task terminates.
//!
//! Termination has these phases, in this order:
//!
//! 1. It begins when the task's future completes or the cancel signal from the
//!    parent arrives, whichever comes first.
//! 2. The task's future (and the cancel receiver) is dropped at once.
//! 3. If the task made a spawner, it cancels its children ...
//! 4. ... takes the done receivers of those still registered, and awaits each.
//! 5. The task's `done` callback runs.
//! 6. Finally the task tells its parent, by dropping its done sender.
//!
//! [`Termination`] decides what to do next; whoever runs the task performs each
//! [`Action`] and reports back with an [`Event`]. A task that is dropped before
//! it terminated releases what it still holds in the order that
//! [`Termination::release_order`] gives: it cancels its children, and its
//! parent is told last, and not while a child may still be running.

use vstd::prelude::*;

verus! {

/// Where a task stands in its termination.
#[derive(Clone, Copy, Debug, PartialEq, Eq, Structural)]
pub enum Phase {
    /// The future runs and the cancel signal has not arrived.
    Running,
    /// Termination has begun; the future is to be dropped.
    Stopping,
    /// The children are to be cancelled.
    CancellingChildren,
    /// The done receivers of the children are to be taken from the table.
    CollectingChildren,
    /// Some collected children have not yet terminated.
    AwaitingChildren,
    /// The `done` callback is to run.
    CallingDone,
    /// The parent is to be told.
    SignallingParent,
    /// The task has terminated and its parent knows.
    Terminated,
}

/// Why termination began.
#[derive(Clone, Copy, Debug, PartialEq, Eq, Structural)]
pub enum StopCause {
    /// The task's own future completed.
    FutureFinished,
    /// The parent's cancel signal arrived.
    Cancelled,
}

/// What happened since the last step.
#[derive(Clone, Copy, Debug, PartialEq, Eq, Structural)]
pub enum Event {
    /// The task's future completed.
    FutureFinished,
    /// The cancel signal arrived.
    CancelReceived,
    /// The action that was asked for has been carried out.
    Performed,
    /// The done receivers of the children were taken; this many of them.
    ChildrenCollected(usize),
    /// One of the awaited children has terminated.
    ChildTerminated,
}

/// What is to be done next.
#[derive(Clone, Copy, Debug, PartialEq, Eq, Structural)]
pub enum Action {
    /// Wait for the future to complete or the cancel signal to arrive.
    AwaitFutureOrCancel,
    /// Drop the future and the cancel receiver.
    DropFuture,
    /// Drop the cancel senders of all children.
    CancelChildren,
    /// Take the done receivers of all children still registered.
    CollectChildren,
    /// Wait for the next collected child to terminate.
    AwaitChild,
    /// Run the `done` callback.
    CallDone,
    /// Drop the `done` callback without running it (the task was dropped
    /// before its termination reached that point).
    DiscardDone,
    /// Drop the done sender, which tells the parent.
    SignalParent,
    /// Hand the done sender to the scope's table of done receivers, which every
    /// child holds until it has terminated; the sender is dropped, and the
    /// parent told, when the last of them lets go.
    ParkParentSignal,
    /// Nothing is left to do.
    Nothing,
}

/// The state of a termination, as a mathematical value.
pub struct TaskState {
    pub phase: Phase,
    /// Whether the task made a spawner, and so may have children.
    pub has_spawner: bool,
    pub cause: Option<StopCause>,
    /// How many done receivers were collected.
    pub collected: nat,
    /// How many collected children have not yet terminated.
    pub remaining: nat,
}

/// The state in which every task starts.
pub open spec fn initial(has_spawner: bool) -> TaskState {
    TaskState { phase: Phase::Running, has_spawner, cause: None, collected: 0, remaining: 0 }
}

/// The order of the phases.
pub open spec fn rank(p: Phase) -> nat {
    match p {
        Phase::Running => 0,
        Phase::Stopping => 1,
        Phase::CancellingChildren => 2,
        Phase::CollectingChildren => 3,
        Phase::AwaitingChildren => 4,
        Phase::CallingDone => 5,
        Phase::SignallingParent => 6,
        Phase::Terminated => 7,
    }
}

/// The action that a state waits on.
pub open spec fn pending(s: TaskState) -> Action {
    match s.phase {
        Phase::Running => Action::AwaitFutureOrCancel,
        Phase::Stopping => Action::DropFuture,
        Phase::CancellingChildren => Action::CancelChildren,
        Phase::CollectingChildren => Action::CollectChildren,
        Phase::AwaitingChildren => Action::AwaitChild,
        Phase::CallingDone => Action::CallDone,
        Phase::SignallingParent => Action::SignalParent,
        Phase::Terminated => Action::Nothing,
    }
}

/// Whether `e` reports the completion of what `s` waits on.
pub open spec fn accepts(s: TaskState, e: Event) -> bool {
    match s.phase {
        Phase::Running => e == Event::FutureFinished || e == Event::CancelReceived,
        Phase::AwaitingChildren => e == Event::ChildTerminated,
        Phase::CollectingChildren => e is ChildrenCollected,
        Phase::Terminated => false,
        _ => e == Event::Performed,
    }
}

/// The state after `e`. An event that `s` does not accept changes nothing.
pub open spec fn next(s: TaskState, e: Event) -> TaskState {
    if !accepts(s, e) {
        s
    } else {
        match s.phase {
            Phase::Running => TaskState {
                phase: Phase::Stopping,
                cause: Some(
                    if e == Event::FutureFinished {
                        StopCause::FutureFinished
                    } else {
                        StopCause::Cancelled
                    },
                ),
                ..s
            },
            Phase::Stopping => TaskState {
                phase: if s.has_spawner {
                    Phase::CancellingChildren
                } else {
                    Phase::CallingDone
                },
                ..s
            },
            Phase::CancellingChildren => TaskState { phase: Phase::CollectingChildren, ..s },
            Phase::CollectingChildren => {
                let n = e->ChildrenCollected_0 as nat;
                TaskState {
                    phase: if n == 0 {
                        Phase::CallingDone
                    } else {
                        Phase::AwaitingChildren
                    },
                    collected: n,
                    remaining: n,
                    ..s
                }
            },
            Phase::AwaitingChildren => if s.remaining <= 1 {
                TaskState { phase: Phase::CallingDone, remaining: 0, ..s }
            } else {
                TaskState { remaining: (s.remaining - 1) as nat, ..s }
            },
            Phase::CallingDone => TaskState { phase: Phase::SignallingParent, ..s },
            _ => TaskState { phase: Phase::Terminated, ..s },
        }
    }
}

/// The states that a termination can be in.
pub open spec fn wf(s: TaskState) -> bool {
    &&& (s.phase == Phase::Running <==> s.cause is None)
    &&& rank(s.phase) <= 3 ==> s.collected == 0 && s.remaining == 0
    &&& 2 <= rank(s.phase) <= 4 ==> s.has_spawner
    &&& s.phase == Phase::AwaitingChildren ==> 0 < s.remaining <= s.collected
    &&& rank(s.phase) >= 5 ==> s.remaining == 0 && (!s.has_spawner ==> s.collected == 0)
}

/// `n` waits for children.
pub open spec fn child_waits(n: nat) -> Seq<Action> {
    Seq::new(n, |i: int| Action::AwaitChild)
}

/// The actions of a termination up to, and not including, the `done` callback.
pub open spec fn opening(has_spawner: bool, collected: nat) -> Seq<Action> {
    if has_spawner {
        seq![
            Action::AwaitFutureOrCancel,
            Action::DropFuture,
            Action::CancelChildren,
            Action::CollectChildren,
        ] + child_waits(collected)
    } else {
        seq![Action::AwaitFutureOrCancel, Action::DropFuture]
    }
}

/// Every action of a whole termination, in order, for a task that made a
/// spawner or not, and that collected `collected` children.
pub open spec fn protocol(has_spawner: bool, collected: nat) -> Seq<Action> {
    opening(has_spawner, collected) + seq![Action::CallDone, Action::SignalParent]
}

/// The actions that a termination has carried out to reach `s`.
pub open spec fn history(s: TaskState) -> Seq<Action> {
    match s.phase {
        Phase::Running => seq![],
        Phase::Stopping => seq![Action::AwaitFutureOrCancel],
        Phase::CancellingChildren => seq![Action::AwaitFutureOrCancel, Action::DropFuture],
        Phase::CollectingChildren => seq![
            Action::AwaitFutureOrCancel,
            Action::DropFuture,
            Action::CancelChildren,
        ],
        Phase::AwaitingChildren => seq![
            Action::AwaitFutureOrCancel,
            Action::DropFuture,
            Action::CancelChildren,
            Action::CollectChildren,
        ] + child_waits((s.collected - s.remaining) as nat),
        Phase::CallingDone => opening(s.has_spawner, s.collected),
        Phase::SignallingParent => opening(s.has_spawner, s.collected).push(Action::CallDone),
        Phase::Terminated => protocol(s.has_spawner, s.collected),
    }
}

/// The action that `e` completes in `s`, if `s` accepts it.
pub open spec fn performed(s: TaskState, e: Event) -> Seq<Action> {
    if accepts(s, e) {
        seq![pending(s)]
    } else {
        seq![]
    }
}

/// The state after `events`, from `s`.
pub open spec fn run(s: TaskState, events: Seq<Event>) -> TaskState
    decreases events.len(),
{
    if events.len() == 0 {
        s
    } else {
        run(next(s, events[0]), events.drop_first())
    }
}

/// The actions that `events` complete, from `s`, in order.
pub open spec fn trace(s: TaskState, events: Seq<Event>) -> Seq<Action>
    decreases events.len(),
{
    if events.len() == 0 {
        seq![]
    } else {
        performed(s, events[0]) + trace(next(s, events[0]), events.drop_first())
    }
}

/// Every step keeps a termination in a state it can be in.
pub proof fn lemma_next_keeps_wf(s: TaskState, e: Event)
    requires
        wf(s),
    ensures
        wf(next(s, e)),
{
}

/// Termination only moves forward: the phase never goes back, every accepted
/// event outside of `AwaitingChildren` moves to a later phase, whether the task
/// has a spawner never changes, and once termination has begun its cause is
/// fixed: a later completion of the future or a later cancel changes nothing.
pub proof fn lemma_termination_moves_forward(s: TaskState, e: Event)
    requires
        wf(s),
    ensures
        rank(next(s, e).phase) >= rank(s.phase),
        accepts(s, e) && s.phase != Phase::AwaitingChildren ==> rank(next(s, e).phase) > rank(s.phase),
        next(s, e).has_spawner == s.has_spawner,
        s.cause is Some ==> next(s, e).cause == s.cause,
        s.phase != Phase::Running && (e == Event::FutureFinished || e == Event::CancelReceived)
            ==> next(s, e) == s,
{
}

/// One step adds to the history exactly the action that the event completed.
pub proof fn lemma_history_step(s: TaskState, e: Event)
    requires
        wf(s),
    ensures
        history(next(s, e)) == history(s) + performed(s, e),
{
    let t = next(s, e);
    if accepts(s, e) {
        match s.phase {
            Phase::Stopping => {
                if !s.has_spawner {
                    assert(history(t) =~= history(s) + performed(s, e));
                }
            },
            Phase::CollectingChildren => {
                assert(child_waits(0) =~= seq![]);
                assert(history(t) =~= history(s) + performed(s, e));
            },
            Phase::AwaitingChildren => {
                let done_before = (s.collected - s.remaining) as nat;
                assert(child_waits(done_before).push(Action::AwaitChild) =~= child_waits(done_before + 1));
                assert(history(t) =~= history(s) + performed(s, e));
            },
            Phase::CallingDone => {
                assert(history(t) =~= history(s) + performed(s, e));
            },
            Phase::SignallingParent => {
                assert(history(t) =~= history(s) + performed(s, e));
            },
            _ => {
                assert(history(t) =~= history(s) + performed(s, e));
            },
        }
    } else {
        assert(history(t) =~= history(s) + performed(s, e));
    }
}

/// Over any run, the history grows by exactly the actions that were completed.
pub proof fn lemma_run_history(s: TaskState, events: Seq<Event>)
    requires
        wf(s),
    ensures
        wf(run(s, events)),
        history(run(s, events)) == history(s) + trace(s, events),
    decreases events.len(),
{
    if events.len() > 0 {
        let t = next(s, events[0]);
        lemma_next_keeps_wf(s, events[0]);
        lemma_history_step(s, events[0]);
        lemma_run_history(t, events.drop_first());
        assert(history(s) + trace(s, events) =~= history(s) + performed(s, events[0]) + trace(
            t,
            events.drop_first(),
        ));
    } else {
        assert(history(s) + trace(s, events) =~= history(s));
    }
}

/// The history of every state is where the protocol stands so far.
pub proof fn lemma_history_is_prefix(s: TaskState)
    requires
        wf(s),
    ensures
        history(s).is_prefix_of(protocol(s.has_spawner, s.collected)),
{
    let p = protocol(s.has_spawner, s.collected);
    let h = history(s);
    assert(h.len() <= p.len());
    assert forall|i: int| 0 <= i < h.len() implies h[i] == p[i] by {
        if s.phase == Phase::AwaitingChildren {
            if i >= 4 {
                assert(h[i] == Action::AwaitChild);
                assert(p[i] == Action::AwaitChild);
            }
        }
    }
    assert(p.subrange(0, h.len() as int) =~= h);
}

/// Termination follows its protocol. From the start, whatever events arrive,
/// the actions carried out are a prefix of: wait for the future or the cancel
/// signal, drop the future, then (for a task with a spawner) cancel the
/// children, collect them and wait for each collected child, then run `done`,
/// and last tell the parent. Once the task has terminated they are exactly that
/// sequence: `done` runs once, after every collected child has terminated, and
/// the parent is told once, last.
pub proof fn termination_follows_protocol(has_spawner: bool, events: Seq<Event>)
    ensures
        ({
            let end = run(initial(has_spawner), events);
            let done = trace(initial(has_spawner), events);
            &&& wf(end)
            &&& done == history(end)
            &&& done.is_prefix_of(protocol(has_spawner, end.collected))
            &&& end.phase == Phase::Terminated ==> done == protocol(has_spawner, end.collected)
        }),
{
    let s0 = initial(has_spawner);
    lemma_run_history(s0, events);
    assert(history(s0) + trace(s0, events) =~= trace(s0, events));
    let end = run(s0, events);
    lemma_history_is_prefix(end);
    lemma_run_keeps_spawner(s0, events);
}

/// A run never changes whether the task has a spawner.
pub proof fn lemma_run_keeps_spawner(s: TaskState, events: Seq<Event>)
    ensures
        run(s, events).has_spawner == s.has_spawner,
    decreases events.len(),
{
    if events.len() > 0 {
        lemma_run_keeps_spawner(next(s, events[0]), events.drop_first());
    }
}

/// In the protocol the parent is told last, right after `done`, and neither
/// happens earlier; a task with a spawner waits for each collected child
/// between collecting them and running `done`; a task without one cancels,
/// collects and waits for nothing.
pub proof fn protocol_order(has_spawner: bool, collected: nat)
    ensures
        ({
            let p = protocol(has_spawner, collected);
            let k = p.len() - 2;
            &&& p[k] == Action::CallDone
            &&& p[k + 1] == Action::SignalParent
            &&& forall|i: int| 0 <= i < k ==> #[trigger] p[i] != Action::CallDone && p[i] != Action::SignalParent
            &&& has_spawner ==> k == 4 + collected && forall|i: int| 4 <= i < k ==> #[trigger] p[i] == Action::AwaitChild
            &&& !has_spawner ==> k == 2 && p[0] == Action::AwaitFutureOrCancel && p[1] == Action::DropFuture
        }),
{
    let p = protocol(has_spawner, collected);
    let k = p.len() - 2;
    assert forall|i: int| 0 <= i < k implies #[trigger] p[i] != Action::CallDone && p[i] != Action::SignalParent by {
        if has_spawner && i >= 4 {
            assert(p[i] == Action::AwaitChild);
        }
    }
}

/// `k` copies of `e`.
pub open spec fn repeated(e: Event, k: nat) -> Seq<Event> {
    Seq::new(k, |i: int| e)
}

/// Once the children are collected their count never changes, and no single
/// event lowers the number of children still awaited by more than one. The
/// `done` callback can only come next after the last awaited child has
/// terminated.
pub proof fn collected_children_stay_counted(s: TaskState, e: Event)
    requires
        wf(s),
        rank(s.phase) >= 4,
    ensures
        next(s, e).collected == s.collected,
        next(s, e).remaining <= s.remaining,
        next(s, e).remaining + 1 >= s.remaining,
        s.phase == Phase::AwaitingChildren && next(s, e).phase != Phase::AwaitingChildren ==> {
            &&& e == Event::ChildTerminated
            &&& s.remaining == 1
            &&& next(s, e).phase == Phase::CallingDone
        },
{
}

/// After `n` children are collected, the task goes on awaiting them through
/// the first `n - 1` reports that a child terminated, with one fewer
/// outstanding after each, and reaches the `done` callback with the `n`-th
/// report and not before; the collected count stays `n` throughout, and
/// further reports change nothing.
pub proof fn every_collected_child_is_awaited(s: TaskState, n: usize, k: nat)
    requires
        wf(s),
        s.phase == Phase::CollectingChildren,
    ensures
        ({
            let t = run(next(s, Event::ChildrenCollected(n)), repeated(Event::ChildTerminated, k));
            &&& t.collected == n
            &&& k < n ==> t.phase == Phase::AwaitingChildren && t.remaining == n - k
            &&& k >= n ==> t.phase == Phase::CallingDone && t.remaining == 0
        }),
{
    let u = next(s, Event::ChildrenCollected(n));
    if n == 0 {
        lemma_calling_done_ignores_reports(u, k);
    } else {
        lemma_awaiting_run(u, k);
    }
}

proof fn lemma_calling_done_ignores_reports(u: TaskState, k: nat)
    requires
        u.phase == Phase::CallingDone,
    ensures
        run(u, repeated(Event::ChildTerminated, k)) == u,
    decreases k,
{
    if k > 0 {
        assert(repeated(Event::ChildTerminated, k).drop_first() =~= repeated(Event::ChildTerminated, (k - 1) as nat));
        lemma_calling_done_ignores_reports(u, (k - 1) as nat);
    }
}

proof fn lemma_awaiting_run(u: TaskState, k: nat)
    requires
        wf(u),
        u.phase == Phase::AwaitingChildren,
    ensures
        ({
            let t = run(u, repeated(Event::ChildTerminated, k));
            &&& t.collected == u.collected
            &&& k < u.remaining ==> t.phase == Phase::AwaitingChildren && t.remaining == u.remaining - k
            &&& k >= u.remaining ==> t.phase == Phase::CallingDone && t.remaining == 0
        }),
    decreases k,
{
    if k > 0 {
        let evs = repeated(Event::ChildTerminated, k);
        assert(evs[0] == Event::ChildTerminated);
        assert(evs.drop_first() =~= repeated(Event::ChildTerminated, (k - 1) as nat));
        let v = next(u, Event::ChildTerminated);
        if u.remaining <= 1 {
            lemma_calling_done_ignores_reports(v, (k - 1) as nat);
        } else {
            lemma_awaiting_run(v, (k - 1) as nat);
        }
    }
}

/// Whether a task dropped in state `s` must leave the telling of its parent to
/// its children: it has a spawner, so it may have children, and it has not yet
/// seen every collected child terminate.
pub open spec fn parks_on_drop(s: TaskState) -> bool {
    s.has_spawner && rank(s.phase) <= 4
}

/// What is released, in order, when a task is dropped in state `s` before it
/// terminated: the future (with the cancel receiver) if it is still there; the
/// children's cancel senders, if the task has a spawner and has not cancelled
/// its children yet; the `done` callback if it has not run (it is dropped, not
/// run); and last the done sender. That last step tells the parent at once
/// only when no child can still be running; otherwise the done sender is
/// parked with the scope's table of done receivers, which every child holds
/// until it has terminated, so the parent is told when the last child lets go.
pub open spec fn release_on_drop(s: TaskState) -> Seq<Action> {
    if s.phase == Phase::Terminated {
        seq![]
    } else if s.phase == Phase::SignallingParent {
        seq![Action::SignalParent]
    } else {
        let drop_future = if rank(s.phase) <= 1 { seq![Action::DropFuture] } else { seq![] };
        if parks_on_drop(s) {
            let cancel = if rank(s.phase) <= 2 { seq![Action::CancelChildren] } else { seq![] };
            drop_future + cancel + seq![Action::DiscardDone, Action::ParkParentSignal]
        } else {
            drop_future + seq![Action::DiscardDone, Action::SignalParent]
        }
    }
}

/// Everything a task does if it reaches `s` and is then dropped (for a
/// terminated task, everything it did).
pub open spec fn execution(s: TaskState) -> Seq<Action> {
    history(s) + release_on_drop(s)
}

/// Whether a task runs to completion or is dropped at any point, even before
/// it was first polled: its future is dropped first; a task with a spawner
/// cancels its children; the `done` callback is handled exactly once, run if
/// the task got that far and otherwise dropped unrun; and last, exactly once,
/// the parent is told. It is told directly only by a task without a spawner or
/// one that has waited for every child it collected; any other task parks its
/// done sender with its scope's table, so the parent is told only once the
/// children have let go of it. No task tells its parent while a child it
/// collected may still be running.
pub proof fn every_execution_tells_parent_last(s: TaskState)
    requires
        wf(s),
    ensures
        ({
            let x = execution(s);
            let k = x.len() - 2;
            &&& x.len() >= 3
            &&& x[k + 1] == (if parks_on_drop(s) {
                Action::ParkParentSignal
            } else {
                Action::SignalParent
            })
            &&& x[k] == Action::CallDone || x[k] == Action::DiscardDone
            &&& (x[k] == Action::CallDone <==> rank(s.phase) >= 6)
            &&& forall|i: int|
                0 <= i < k ==> #[trigger] x[i] != Action::SignalParent && x[i] != Action::ParkParentSignal
                    && x[i] != Action::CallDone && x[i] != Action::DiscardDone
            &&& exists|i: int| 0 <= i < k && #[trigger] x[i] == Action::DropFuture
            &&& s.has_spawner ==> exists|i: int| 0 <= i < k && #[trigger] x[i] == Action::CancelChildren
            &&& (x[k + 1] == Action::SignalParent && s.has_spawner) ==> {
                &&& s.remaining == 0
                &&& k == 4 + s.collected
                &&& forall|i: int| 4 <= i < k ==> #[trigger] x[i] == Action::AwaitChild
            }
        }),
{
    let x = execution(s);
    let a = Action::AwaitFutureOrCancel;
    let d = Action::DropFuture;
    let c = Action::CancelChildren;
    let tell = if parks_on_drop(s) { Action::ParkParentSignal } else { Action::SignalParent };
    let handled = if rank(s.phase) >= 6 { Action::CallDone } else { Action::DiscardDone };
    let body = if s.phase == Phase::Running {
        if s.has_spawner { seq![d, c] } else { seq![d] }
    } else if s.phase == Phase::Stopping {
        if s.has_spawner { seq![a, d, c] } else { seq![a, d] }
    } else if s.phase == Phase::CancellingChildren {
        seq![a, d, c]
    } else if s.phase == Phase::CollectingChildren {
        seq![a, d, c]
    } else if s.phase == Phase::AwaitingChildren {
        seq![a, d, c, Action::CollectChildren] + child_waits((s.collected - s.remaining) as nat)
    } else {
        opening(s.has_spawner, s.collected)
    };
    assert(x =~= body + seq![handled, tell]);
    assert forall|i: int| 0 <= i < body.len() implies #[trigger] body[i] != Action::SignalParent
        && body[i] != Action::ParkParentSignal && body[i] != Action::CallDone && body[i]
        != Action::DiscardDone by {
        if i >= 4 {
            assert(body[i] == Action::AwaitChild);
        }
    }
    if s.phase == Phase::Running {
        assert(body[0] == d);
        if s.has_spawner {
            assert(body[1] == c);
            assert(x[1] == c);
        }
    } else {
        assert(body[1] == d);
        if s.has_spawner {
            assert(body[2] == c);
            assert(x[2] == c);
        }
    }
    lemma_tail_shape(body, handled, tell);
    if tell == Action::SignalParent && s.has_spawner {
        assert forall|i: int| 4 <= i < x.len() - 2 implies #[trigger] x[i] == Action::AwaitChild by {
            assert(x[i] == body[i]);
        }
    }
}

/// No action of `body` tells the parent or handles `done`, and `body` drops
/// the future early on.
spec fn plain_body(body: Seq<Action>) -> bool {
    &&& forall|i: int|
        0 <= i < body.len() ==> #[trigger] body[i] != Action::SignalParent && body[i]
            != Action::ParkParentSignal && body[i] != Action::CallDone && body[i] != Action::DiscardDone
    &&& exists|i: int| 0 <= i < body.len() && #[trigger] body[i] == Action::DropFuture
}

proof fn lemma_tail_shape(body: Seq<Action>, handled: Action, tell: Action)
    requires
        plain_body(body),
        handled == Action::CallDone || handled == Action::DiscardDone,
    ensures
        ({
            let x = body + seq![handled, tell];
            let k = x.len() - 2;
            &&& x.len() >= 3
            &&& x[k + 1] == tell
            &&& x[k] == handled
            &&& forall|i: int|
                0 <= i < k ==> #[trigger] x[i] != Action::SignalParent && x[i] != Action::ParkParentSignal
                    && x[i] != Action::CallDone && x[i] != Action::DiscardDone
            &&& exists|i: int| 0 <= i < k && #[trigger] x[i] == Action::DropFuture
        }),
{
    let x = body + seq![handled, tell];
    let j = choose|i: int| 0 <= i < body.len() && #[trigger] body[i] == Action::DropFuture;
    assert(x[j] == Action::DropFuture);
    assert forall|i: int| 0 <= i < body.len() implies #[trigger] x[i] != Action::SignalParent && x[i]
        != Action::ParkParentSignal && x[i] != Action::CallDone && x[i] != Action::DiscardDone by {
        assert(x[i] == body[i]);
    }
}

/// Drives the termination of one task.
pub struct Termination {
    phase: Phase,
    has_spawner: bool,
    cause: Option<StopCause>,
    collected: usize,
    remaining: usize,
}

impl View for Termination {
    type V = TaskState;

    closed spec fn view(&self) -> TaskState {
        TaskState {
            phase: self.phase,
            has_spawner: self.has_spawner,
            cause: self.cause,
            collected: self.collected as nat,
            remaining: self.remaining as nat,
        }
    }
}

impl Termination {
    #[verifier::type_invariant]
    closed spec fn termination_invariant(self) -> bool {
        wf(self@)
    }

    /// A running task; `has_spawner` says whether it made a spawner.
    pub fn new(has_spawner: bool) -> (t: Self)
        ensures
            t@ == initial(has_spawner),
            wf(t@),
    {
        Termination { phase: Phase::Running, has_spawner, cause: None, collected: 0, remaining: 0 }
    }

    /// The current phase.
    pub fn phase(&self) -> (p: Phase)
        ensures
            p == self@.phase,
            wf(self@),
    {
        proof {
            use_type_invariant(self);
        }
        self.phase
    }

    /// Why termination began, once it has.
    pub fn cause(&self) -> (c: Option<StopCause>)
        ensures
            c == self@.cause,
    {
        self.cause
    }

    /// The action the task waits on.
    pub fn pending_action(&self) -> (a: Action)
        ensures
            a == pending(self@),
            wf(self@),
    {
        proof {
            use_type_invariant(self);
        }
        match self.phase {
            Phase::Running => Action::AwaitFutureOrCancel,
            Phase::Stopping => Action::DropFuture,
            Phase::CancellingChildren => Action::CancelChildren,
            Phase::CollectingChildren => Action::CollectChildren,
            Phase::AwaitingChildren => Action::AwaitChild,
            Phase::CallingDone => Action::CallDone,
            Phase::SignallingParent => Action::SignalParent,
            Phase::Terminated => Action::Nothing,
        }
    }

    /// What is to be released, in order, if the task is dropped now.
    pub fn release_order(&self) -> (v: Vec<Action>)
        ensures
            v@ == release_on_drop(self@),
            wf(self@),
    {
        proof {
            use_type_invariant(self);
        }
        let mut order: Vec<Action> = Vec::new();
        match self.phase {
            Phase::Terminated => {},
            Phase::SignallingParent => {
                order.push(Action::SignalParent);
            },
            _ => {
                let early = match self.phase {
                    Phase::Running | Phase::Stopping => true,
                    _ => false,
                };
                if early {
                    order.push(Action::DropFuture);
                }
                let parks = self.has_spawner && match self.phase {
                    Phase::CallingDone => false,
                    _ => true,
                };
                if parks {
                    let cancel = match self.phase {
                        Phase::Running | Phase::Stopping | Phase::CancellingChildren => true,
                        _ => false,
                    };
                    if cancel {
                        order.push(Action::CancelChildren);
                    }
                    order.push(Action::DiscardDone);
                    order.push(Action::ParkParentSignal);
                } else {
                    order.push(Action::DiscardDone);
                    order.push(Action::SignalParent);
                }
            },
        }
        proof {
            assert(order@ =~= release_on_drop(self@));
        }
        order
    }

    /// Whether the task has terminated and its parent has been told.
    pub fn is_terminated(&self) -> (b: bool)
        ensures
            b == (self@.phase == Phase::Terminated),
    {
        match self.phase {
            Phase::Terminated => true,
            _ => false,
        }
    }

    /// Takes `e` into account and returns what is to be done next.
    pub fn step(&mut self, e: Event) -> (a: Action)
        ensures
            final(self)@ == next(old(self)@, e),
            a == pending(final(self)@),
            wf(final(self)@),
    {
        proof {
            use_type_invariant(&*self);
            lemma_next_keeps_wf(self@, e);
        }
        let (phase, cause, collected, remaining) = match (self.phase, e) {
            (Phase::Running, Event::FutureFinished) => (
                Phase::Stopping,
                Some(StopCause::FutureFinished),
                self.collected,
                self.remaining,
            ),
            (Phase::Running, Event::CancelReceived) => (
                Phase::Stopping,
                Some(StopCause::Cancelled),
                self.collected,
                self.remaining,
            ),
            (Phase::Stopping, Event::Performed) => (
                if self.has_spawner {
                    Phase::CancellingChildren
                } else {
                    Phase::CallingDone
                },
                self.cause,
                self.collected,
                self.remaining,
            ),
            (Phase::CancellingChildren, Event::Performed) => (
                Phase::CollectingChildren,
                self.cause,
                self.collected,
                self.remaining,
            ),
            (Phase::CollectingChildren, Event::ChildrenCollected(n)) => (
                if n == 0 {
                    Phase::CallingDone
                } else {
                    Phase::AwaitingChildren
                },
                self.cause,
                n,
                n,
            ),
            (Phase::AwaitingChildren, Event::ChildTerminated) => if self.remaining <= 1 {
                (Phase::CallingDone, self.cause, self.collected, 0)
            } else {
                (Phase::AwaitingChildren, self.cause, self.collected, self.remaining - 1)
            },
            (Phase::CallingDone, Event::Performed) => (
                Phase::SignallingParent,
                self.cause,
                self.collected,
                self.remaining,
            ),
            (Phase::SignallingParent, Event::Performed) => (
                Phase::Terminated,
                self.cause,
                self.collected,
                self.remaining,
            ),
            _ => (self.phase, self.cause, self.collected, self.remaining),
        };
        *self = Termination { phase, has_spawner: self.has_spawner, cause, collected, remaining };
        self.pending_action()
    }
}

} // verus!
