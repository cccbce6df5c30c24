//! Asset-readiness gate: a two-state machine that holds playback back until
//! the watched batch of audio assets has finished loading.

use vstd::prelude::*;

verus! {

/// Opaque identity of one folder-load request, as the asset service issues it.
#[derive(Clone, Copy, PartialEq, Eq, Structural, Debug)]
pub struct BatchHandle {
    pub id: u64,
}

/// Phase of asset readiness. Starts at `Loading`, flips once to `Ready`,
/// never reverts.
#[derive(Clone, Copy, PartialEq, Eq, Structural, Debug)]
pub enum LoadState {
    Loading,
    Ready,
}

/// One load-progress notification from the asset service, delivered by value
/// into the tick that consumes it.
#[derive(Clone, Copy, PartialEq, Eq, Structural, Debug)]
pub struct LoadNotification {
    /// Which batch the notification is about.
    pub batch: BatchHandle,
    /// Whether that batch has finished loading with all its dependencies.
    /// A partial-progress notification carries `false`.
    pub fully_loaded: bool,
}

impl LoadNotification {
    /// The notification reports that exactly `watched` has finished loading
    /// with all its dependencies.
    pub open spec fn signals_ready(self, watched: BatchHandle) -> bool {
        self.batch == watched && self.fully_loaded
    }
}

/// Gates all playback logic until the watched asset batch is fully resolved.
pub struct LoadGate {
    /// The batch registered at startup; read-only thereafter.
    pub watched: BatchHandle,
    pub state: LoadState,
}

impl LoadGate {
    /// Registers the batch returned by the asset service's load request as
    /// the one being watched; the machine starts in `Loading`.
    pub fn new(watched: BatchHandle) -> (gate: LoadGate)
        ensures
            gate.watched == watched,
            gate.state is Loading,
    {
        LoadGate { watched, state: LoadState::Loading }
    }

    /// Whether the watched batch has been seen to complete.
    pub fn is_ready(&self) -> (ready: bool)
        ensures
            ready == (self.state is Ready),
    {
        match self.state {
            LoadState::Ready => true,
            LoadState::Loading => false,
        }
    }

    /// Consumes one load-completion notification. Returns true, and flips the
    /// state to `Ready`, iff the notification reports the exact watched batch
    /// finished with all its dependencies; a partial or unrelated-batch
    /// notification is ignored. Safe to call zero or many times per tick:
    /// once `Ready`, the state never reverts.
    pub fn poll_readiness(&mut self, event: &LoadNotification) -> (became_ready: bool)
        ensures
            final(self).watched == old(self).watched,
            old(self).state is Ready ==> final(self).state is Ready && !became_ready,
            old(self).state is Loading ==> {
                &&& became_ready == event.signals_ready(old(self).watched)
                &&& (final(self).state is Ready <==> event.signals_ready(old(self).watched))
            },
    {
        match self.state {
            LoadState::Ready => false,
            LoadState::Loading => {
                if event.batch == self.watched && event.fully_loaded {
                    self.state = LoadState::Ready;
                    true
                } else {
                    false
                }
            },
        }
    }

    /// Consumes the tick's whole batch of notifications, in delivery order.
    /// Returns true iff the state is `Ready` afterwards but was not before,
    /// which happens iff some notification signals the watched batch complete.
    pub fn poll_many(&mut self, events: &Vec<LoadNotification>) -> (became_ready: bool)
        ensures
            final(self).watched == old(self).watched,
            old(self).state is Ready ==> final(self).state is Ready && !became_ready,
            old(self).state is Loading ==> {
                &&& (final(self).state is Ready <==> exists|i: int|
                    0 <= i < events@.len() && #[trigger] events@[i].signals_ready(
                        old(self).watched,
                    ))
                &&& became_ready == (final(self).state is Ready)
            },
    {
        let mut became_ready = false;
        let mut i: usize = 0;
        while i < events.len()
            invariant
                i <= events@.len(),
                self.watched == old(self).watched,
                old(self).state is Ready ==> self.state is Ready && !became_ready,
                old(self).state is Loading ==> {
                    &&& (self.state is Ready <==> exists|j: int|
                        0 <= j < i && #[trigger] events@[j].signals_ready(old(self).watched))
                    &&& became_ready == (self.state is Ready)
                },
            decreases events@.len() - i,
        {
            let flipped = self.poll_readiness(&events[i]);
            if flipped {
                became_ready = true;
            }
            i = i + 1;
        }
        became_ready
    }
}

} // verus!
