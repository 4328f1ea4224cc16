//! The vocabulary of actors: what one is, what it can be told and how it can end.

use vstd::prelude::*;

verus! {

/// Something that processes messages one at a time and can be observed from outside.
pub trait Actor {
    /// What the actor processes.
    type Message;

    /// What can be seen of the actor from outside.
    type ObservableState: Clone;

    /// A snapshot of the actor.
    fn observable_state(&self) -> Self::ObservableState;
}

/// Where an actor is in its life.
#[derive(Clone, Copy, Debug, PartialEq, Eq, Structural)]
pub enum ActorState {
    /// Processing a message.
    Processing,
    /// Waiting for a message.
    Idle,
    /// Leaving its messages alone until it is resumed.
    Paused,
    /// Gone.
    Exit,
}

/// How an actor ended.
#[derive(Clone, Copy, Debug, PartialEq, Eq, Structural)]
pub enum ActorExitStatus {
    /// It had nothing left to do.
    Success,
    /// It was asked to quit.
    Quit,
    /// An actor that it sends to is gone.
    DownstreamClosed,
    /// It was killed.
    Killed,
    /// It panicked.
    Panicked,
}

/// What an actor can be told outside of its ordinary messages.
#[derive(Clone, Copy, Debug, PartialEq, Eq, Structural)]
pub enum Command {
    /// Stop processing messages for now.
    Pause,
    /// Process messages again.
    Resume,
    /// End gracefully.
    Quit,
    /// End as a killed actor.
    Kill,
    /// Answer with the observable state.
    Observe,
}

/// How a message is queued.
#[derive(Clone, Copy, Debug, PartialEq, Eq, Structural)]
pub enum Priority {
    /// Ahead of the ordinary messages.
    High,
    /// Behind every message that is pending.
    Low,
}

/// What an observation is worth.
#[derive(Clone, Copy, Debug, PartialEq, Eq, Structural)]
pub enum ObservationType {
    /// The actor answered.
    Alive,
    /// The actor is gone: the state is the last one that it published.
    PostMortem,
    /// The actor did not answer in time: the state is the last one that it published.
    Timeout,
}

/// A snapshot of an actor, and what it is worth.
#[derive(Clone, Debug)]
pub struct Observation<S> {
    pub obs_type: ObservationType,
    pub state: S,
}

} // verus!
