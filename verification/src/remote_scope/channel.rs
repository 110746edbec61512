//! Channel ends that remember which channel they were made with.
//!
//! An end can only be made here, by [`oneshot_channel`], and its origin can
//! never be changed afterwards. So two ends with the same origin are the two
//! ends of one call, that is of one channel.

use futures::channel::oneshot::{Receiver, Sender};
use vstd::prelude::*;

verus! {

/// One end of a channel, with the channel it was made with (its origin) and a
/// label that says what the channel is for.
pub struct Labelled<E> {
    pub end: E,
    channel: Ghost<int>,
    origin: Ghost<int>,
}

impl<E> Labelled<E> {
    /// The end itself.
    pub closed spec fn inner(&self) -> E {
        self.end
    }

    /// What the channel of this end is for.
    pub closed spec fn channel(&self) -> int {
        self.channel@
    }

    /// The channel this end was made with: the two ends returned by one call
    /// of [`oneshot_channel`] share it.
    pub closed spec fn origin(&self) -> int {
        self.origin@
    }

    /// This end, labelled `label`; the end and its origin stay as they are.
    pub(crate) fn with_label(self, Ghost(label): Ghost<int>) -> (r: Self)
        ensures
            r.inner() == self.inner(),
            r.channel() == label,
            r.origin() == self.origin(),
    {
        Labelled { end: self.end, channel: Ghost(label), origin: self.origin }
    }
}

/// Calls `futures::channel::oneshot::channel`, which makes a fresh
/// single-message channel and returns its sending and its receiving end. The
/// contract claims only that the two ends it returns share one origin; what a
/// channel does with its ends is not stated.
#[verifier::external_body]
pub(crate) fn oneshot_channel() -> (ends: (Labelled<Sender<()>>, Labelled<Receiver<()>>))
    ensures
        ends.0.origin() == ends.1.origin(),
{
    let (sender, receiver) = futures::channel::oneshot::channel();
    let origin: Ghost<int> = Ghost(arbitrary());
    (
        Labelled { end: sender, channel: origin, origin },
        Labelled { end: receiver, channel: origin, origin },
    )
}

} // verus!
