//! The handle of an actor: pausing, ending and observing it.
//!
//! Each method of [`ActorHandle`] that works through the outside world is called again and again:
//! first with [`Event::Called`], then, after each [`Action`] it asked for, with what came back,
//! until it returns.

use tokio::sync::oneshot::error::RecvError;
use tokio::sync::watch;
use tokio::task::JoinError;
use tokio::time::error::Elapsed;
use vstd::prelude::*;
use vstd::string::*;

use crate::actor::Actor;
use crate::actor::ActorExitStatus;
use crate::actor::Command;
use crate::actor::Observation;
use crate::actor::ObservationType;
use crate::actor::Priority;
use crate::external::join_error_is_panic;
use crate::external::latest_value;
use crate::external::quote;
use crate::external::quoted_text;
use crate::supervisor::Supervisor;

verus! {

/// How the task of an actor ended: with the actor's own status, or without it.
pub type Joined = Result<ActorExitStatus, JoinError>;

/// What came of waiting for a reply: a state, no reply because the actor is gone, or no reply in
/// time.
pub type Reply<S> = Result<Result<S, RecvError>, Elapsed>;

/// Outside work that a method of a handle asks for.
#[derive(Clone, Copy, Debug, PartialEq, Eq, Structural)]
pub enum Action {
    /// Activate the kill switch that the actor shares with its neighbours.
    ActivateKillSwitch,
    /// Send a command to the actor, ahead of its ordinary messages.
    SendCommand(Command),
    /// Send a command to the actor with the given priority.
    SendWithPriority(Command, Priority),
    /// Wait until the task of the actor ends.
    AwaitExit,
    /// Wait for the reply to the observation that was sent, for one heartbeat at most.
    AwaitReply,
}

/// What comes back to a method of a handle.
pub enum Event<S> {
    /// The method is called.
    Called,
    /// The kill switch was activated.
    KillSwitchActivated,
    /// The command was handed to the mailbox of the actor, or the mailbox refused it.
    Sent { delivered: bool },
    /// The task of the actor ended.
    Exited(Joined),
    /// The wait for a reply is over.
    Replied(Reply<S>),
}

/// What a method of a handle does next.
pub enum Step<R> {
    /// Asks for outside work, and to be told what came of it.
    Perform(Action),
    /// Returns.
    Return(R),
}

/// The methods that work through the outside world.
#[derive(Clone, Copy, Debug, PartialEq, Eq, Structural)]
pub enum Operation {
    ProcessPendingAndObserve,
    Pause,
    Resume,
    Kill,
    Quit,
    Join,
    Observe,
}

impl Action {
    /// Whether `event` tells what came of this work.
    pub open spec fn answered_by<S>(self, event: Event<S>) -> bool {
        match self {
            Action::ActivateKillSwitch => event is KillSwitchActivated,
            Action::SendCommand(_) => event is Sent,
            Action::SendWithPriority(_, _) => event is Sent,
            Action::AwaitExit => event is Exited,
            Action::AwaitReply => event is Replied,
        }
    }
}

impl Operation {
    /// The outside work of the operation, in order.
    pub open spec fn plan(self) -> Seq<Action> {
        match self {
            Operation::ProcessPendingAndObserve => seq![
                Action::SendWithPriority(Command::Observe, Priority::Low),
                Action::AwaitReply,
            ],
            Operation::Pause => seq![Action::SendCommand(Command::Pause)],
            Operation::Resume => seq![Action::SendCommand(Command::Resume)],
            Operation::Kill => seq![
                Action::ActivateKillSwitch,
                Action::SendCommand(Command::Kill),
                Action::AwaitExit,
            ],
            Operation::Quit => seq![Action::SendCommand(Command::Quit), Action::AwaitExit],
            Operation::Join => seq![Action::AwaitExit],
            Operation::Observe => seq![Action::SendCommand(Command::Observe), Action::AwaitReply],
        }
    }

    /// How much of the plan is done once `event` has come.
    pub open spec fn done<S>(self, event: Event<S>) -> int {
        match event {
            Event::Called => 0,
            Event::KillSwitchActivated => 1,
            Event::Sent { delivered: _ } => if self is Kill {
                2
            } else {
                1
            },
            Event::Exited(_) => self.plan().len() as int,
            Event::Replied(_) => self.plan().len() as int,
        }
    }

    /// Whether `event` can come to the operation: it calls it, or answers work that the operation
    /// asks for.
    pub open spec fn expects<S>(self, event: Event<S>) -> bool {
        ||| event is Called
        ||| 0 < self.done(event) <= self.plan().len() && self.plan()[self.done(event)
            - 1].answered_by(event)
    }

    /// What the operation asks for after `event`, or `None` if it returns.
    pub open spec fn next<S>(self, event: Event<S>) -> Option<Action> {
        if self.done(event) < self.plan().len() {
            Some(self.plan()[self.done(event)])
        } else {
            None
        }
    }

    /// The work that the operation asks for from `event` on, where `world` tells what comes of
    /// each piece of work and `limit` bounds how many pieces are looked at.
    pub open spec fn trace<S>(
        self,
        event: Event<S>,
        world: spec_fn(Action) -> Event<S>,
        limit: nat,
    ) -> Seq<Action>
        decreases limit,
    {
        match self.next(event) {
            Some(action) => if limit == 0 {
                seq![]
            } else {
                seq![action] + self.trace(world(action), world, (limit - 1) as nat)
            },
            None => seq![],
        }
    }
}

impl<R> Step<R> {
    /// Whether the step asks for exactly `next`, or returns where there is nothing to ask for.
    pub open spec fn asks_for(self, next: Option<Action>) -> bool {
        match self {
            Step::Perform(action) => next == Some(action),
            Step::Return(_) => next is None,
        }
    }
}

/// The exit status of an actor whose task ended as `joined` tells.
pub open spec fn exit_status(joined: Joined) -> ActorExitStatus {
    match joined {
        Ok(status) => status,
        Err(err) => failed_exit_status(join_error_is_panic(err)),
    }
}

/// The exit status of an actor whose task ended without one.
pub open spec fn failed_exit_status(is_panic: bool) -> ActorExitStatus {
    if is_panic {
        ActorExitStatus::Panicked
    } else {
        ActorExitStatus::Killed
    }
}

/// The observation to make of `reply`, where `last_state` is the last state that the actor
/// published.
pub open spec fn observation_of<S>(reply: Reply<S>, last_state: S) -> Observation<S> {
    match reply {
        Ok(Ok(state)) => Observation { obs_type: ObservationType::Alive, state },
        Ok(Err(_)) => Observation { obs_type: ObservationType::PostMortem, state: last_state },
        Err(_) => Observation { obs_type: ObservationType::Timeout, state: last_state },
    }
}

/// Whether `state` is a clone of some state. This does not tell which one, nor that the actor
/// published it.
pub open spec fn is_a_clone<S: Clone>(state: S) -> bool {
    exists|original: S| call_ensures(S::clone, (&original,), state)
}

/// The `Debug` text of a handle whose quoted name is `quoted_name`, over several lines where
/// `alternate` is set.
pub open spec fn debug_text_of(quoted_name: Seq<char>, alternate: bool) -> Seq<char> {
    if alternate {
        "ActorHandle {\n    name: "@ + quoted_name + ",\n}"@
    } else {
        "ActorHandle { name: "@ + quoted_name + " }"@
    }
}

/// The exit status of an actor whose task ended without one.
pub fn status_of_failure(is_panic: bool) -> (status: ActorExitStatus)
    ensures
        status == failed_exit_status(is_panic),
{
    if is_panic {
        ActorExitStatus::Panicked
    } else {
        ActorExitStatus::Killed
    }
}

/// The exit status of an actor whose task ended as `joined` tells.
pub fn status_of_exit(joined: Joined) -> (status: ActorExitStatus)
    ensures
        status == exit_status(joined),
{
    match joined {
        Ok(status) => status,
        Err(join_err) => status_of_failure(join_err.is_panic()),
    }
}

/// The observation to make of `reply`, where `last_state` is the last state that the actor
/// published.
pub fn observe_reply<S>(reply: Reply<S>, last_state: S) -> (observation: Observation<S>)
    ensures
        observation == observation_of(reply, last_state),
{
    match reply {
        Ok(Ok(state)) => Observation { obs_type: ObservationType::Alive, state },
        Ok(Err(_)) => Observation { obs_type: ObservationType::PostMortem, state: last_state },
        Err(_) => Observation { obs_type: ObservationType::Timeout, state: last_state },
    }
}

/// The `Debug` text of a handle whose quoted name is `quoted_name`.
pub fn debug_text_with(quoted_name: &str, alternate: bool) -> (text: String)
    ensures
        text@ == debug_text_of(quoted_name@, alternate),
{
    if alternate {
        "ActorHandle {\n    name: ".to_owned().concat(quoted_name).concat(",\n}")
    } else {
        "ActorHandle { name: ".to_owned().concat(quoted_name).concat(" }")
    }
}

/// An address to communicate with an actor.
#[verifier::reject_recursive_types(A)]
pub struct ActorHandle<A: Actor> {
    actor_instance_id: String,
    last_state: watch::Receiver<A::ObservableState>,
}

impl<A: Actor> ActorHandle<A> {
    /// The name of the actor.
    pub closed spec fn actor_instance_id(&self) -> Seq<char> {
        self.actor_instance_id@
    }

    /// Where the actor publishes its state.
    pub closed spec fn last_state(&self) -> watch::Receiver<A::ObservableState> {
        self.last_state
    }

    /// Whether `state` can come of reading the channel to which the actor publishes its state. Which
    /// one does rests on when the channel is read, and is not told.
    pub closed spec fn shows(&self, state: A::ObservableState) -> bool {
        call_ensures(latest_value::<A::ObservableState>, (&self.last_state,), state)
    }

    /// Whether `observation` is one to make of `reply`: it is of the right type and shows the state
    /// that the actor replied with or, without a reply, one that came of reading the channel to
    /// which the actor publishes its state.
    pub open spec fn observes(
        &self,
        reply: Reply<A::ObservableState>,
        observation: Observation<A::ObservableState>,
    ) -> bool {
        &&& observation == observation_of(reply, observation.state)
        &&& observation.obs_type is Alive || self.shows(observation.state)
    }

    /// A handle of the actor `actor_instance_id`, which publishes its state to `last_state`, and
    /// the supervision of that actor.
    pub fn new(
        actor_instance_id: String,
        last_state: watch::Receiver<A::ObservableState>,
    ) -> (spawned: (Self, Supervisor))
        ensures
            spawned.0.actor_instance_id() == actor_instance_id@,
            spawned.0.last_state() == last_state,
            !spawned.1.ticked_once(),
    {
        (ActorHandle { actor_instance_id, last_state }, Supervisor::new())
    }

    /// The `Debug` text of the handle, over several lines where `alternate` is set.
    pub fn debug_text(&self, alternate: bool) -> (text: String)
        ensures
            text@ == debug_text_of(quoted_text(self.actor_instance_id()), alternate),
    {
        let quoted_name = quote(self.actor_instance_id.as_str());
        debug_text_with(quoted_name.as_str(), alternate)
    }

    /// Processes all of the pending messages, and returns a snapshot of the observable state of
    /// the actor after this.
    ///
    /// This method is mostly useful for tests. To observe the state of an actor for ops purpose,
    /// prefer [`observe`](Self::observe).
    ///
    /// It gives up if reaching the end of the messages takes more than a heartbeat.
    pub fn process_pending_and_observe(&self, event: Event<A::ObservableState>) -> (step: Step<
        Observation<A::ObservableState>,
    >)
        requires
            Operation::ProcessPendingAndObserve.expects(event),
        ensures
            step.asks_for(Operation::ProcessPendingAndObserve.next(event)),
            event matches Event::Replied(reply) ==> {
                &&& step matches Step::Return(observation)
                &&& self.observes(reply, observation)
            },
            event matches Event::Replied(Ok(Ok(state))) ==> step == Step::Return(
                (Observation { obs_type: ObservationType::Alive, state }),
            ),
    {
        match event {
            Event::Called => Step::Perform(
                Action::SendWithPriority(Command::Observe, Priority::Low),
            ),
            Event::Replied(reply) => Step::Return(self.wait_for_observable_state_callback(reply)),
            // Even if the mailbox refused the command: the wait tells that the actor is gone.
            _ => Step::Perform(Action::AwaitReply),
        }
    }

    /// Pauses the actor. The actor will stop processing messages, but its work can be resumed by
    /// calling [`resume`](Self::resume).
    pub fn pause(&self, event: Event<A::ObservableState>) -> (step: Step<()>)
        requires
            Operation::Pause.expects(event),
        ensures
            step.asks_for(Operation::Pause.next(event)),
    {
        match event {
            Event::Called => Step::Perform(Action::SendCommand(Command::Pause)),
            _ => Step::Return(()),
        }
    }

    /// Resumes a paused actor.
    pub fn resume(&self, event: Event<A::ObservableState>) -> (step: Step<()>)
        requires
            Operation::Resume.expects(event),
        ensures
            step.asks_for(Operation::Resume.next(event)),
    {
        match event {
            Event::Called => Step::Perform(Action::SendCommand(Command::Resume)),
            _ => Step::Return(()),
        }
    }

    /// Kills the actor. Its finalize function will still be called.
    ///
    /// This also activates the kill switch of the actor.
    ///
    /// The other difference with [`quit`](Self::quit) is the exit status. It is important, as the
    /// finalize logic may behave differently depending on the exit status.
    pub fn kill(&self, event: Event<A::ObservableState>) -> (step: Step<
        (ActorExitStatus, A::ObservableState),
    >)
        requires
            Operation::Kill.expects(event),
        ensures
            step.asks_for(Operation::Kill.next(event)),
            event matches Event::Exited(joined) ==> {
                &&& step matches Step::Return(ended)
                &&& ended.0 == exit_status(joined)
                &&& self.shows(ended.1)
            },
    {
        match event {
            Event::Called => Step::Perform(Action::ActivateKillSwitch),
            Event::KillSwitchActivated => Step::Perform(Action::SendCommand(Command::Kill)),
            Event::Sent { delivered: _ } => self.join(Event::Called),
            _ => self.join(event),
        }
    }

    /// Gracefully quits the actor, regardless of whether there are pending messages or not. Its
    /// finalize function will be called.
    ///
    /// The kill switch is not activated.
    ///
    /// The other difference with [`kill`](Self::kill) is the exit status. It is important, as the
    /// finalize logic may behave differently depending on the exit status.
    pub fn quit(&self, event: Event<A::ObservableState>) -> (step: Step<
        (ActorExitStatus, A::ObservableState),
    >)
        requires
            Operation::Quit.expects(event),
        ensures
            step.asks_for(Operation::Quit.next(event)),
            event matches Event::Exited(joined) ==> {
                &&& step matches Step::Return(ended)
                &&& ended.0 == exit_status(joined)
                &&& self.shows(ended.1)
            },
    {
        match event {
            Event::Called => Step::Perform(Action::SendCommand(Command::Quit)),
            Event::Sent { delivered: _ } => self.join(Event::Called),
            _ => self.join(event),
        }
    }

    /// Waits until the actor exits by itself. This is the equivalent of joining a thread.
    pub fn join(&self, event: Event<A::ObservableState>) -> (step: Step<
        (ActorExitStatus, A::ObservableState),
    >)
        requires
            Operation::Join.expects(event),
        ensures
            step.asks_for(Operation::Join.next(event)),
            event matches Event::Exited(joined) ==> {
                &&& step matches Step::Return(ended)
                &&& ended.0 == exit_status(joined)
                &&& self.shows(ended.1)
            },
    {
        match event {
            Event::Exited(joined) => {
                let status = status_of_exit(joined);
                let observation = self.last_observation();
                Step::Return((status, observation))
            },
            _ => Step::Perform(Action::AwaitExit),
        }
    }

    /// Observes the current state.
    ///
    /// The observation is scheduled as a command, therefore it will be executed after the message
    /// that the actor is processing and after the commands that are queued already.
    pub fn observe(&self, event: Event<A::ObservableState>) -> (step: Step<
        Observation<A::ObservableState>,
    >)
        requires
            Operation::Observe.expects(event),
        ensures
            step.asks_for(Operation::Observe.next(event)),
            event matches Event::Replied(reply) ==> {
                &&& step matches Step::Return(observation)
                &&& self.observes(reply, observation)
            },
            event matches Event::Replied(Ok(Ok(state))) ==> step == Step::Return(
                (Observation { obs_type: ObservationType::Alive, state }),
            ),
    {
        match event {
            Event::Called => Step::Perform(Action::SendCommand(Command::Observe)),
            Event::Replied(reply) => Step::Return(self.wait_for_observable_state_callback(reply)),
            // Even if the mailbox refused the command: the wait tells that the actor is gone.
            _ => Step::Perform(Action::AwaitReply),
        }
    }

    /// The last state that the actor published. Which one that is depends on when it is read: the
    /// contract tells that the state was read from the channel to which the actor publishes, not
    /// which one it is.
    pub fn last_observation(&self) -> (state: A::ObservableState)
        ensures
            self.shows(state),
    {
        latest_value(&self.last_state)
    }

    /// The observation to make of the reply that was waited for.
    pub fn wait_for_observable_state_callback(
        &self,
        reply: Reply<A::ObservableState>,
    ) -> (observation: Observation<A::ObservableState>)
        ensures
            self.observes(reply, observation),
            reply matches Ok(Ok(state)) ==> observation == (Observation {
                obs_type: ObservationType::Alive,
                state,
            }),
    {
        match reply {
            Ok(Ok(state)) => Observation { obs_type: ObservationType::Alive, state },
            missed => observe_reply(missed, self.last_observation()),
        }
    }
}

/// Whatever comes of each piece of work, a refused command included, an operation asks for exactly
/// the work of its plan, in order, and then returns.
pub proof fn law_the_plan_is_carried_out<S>(
    operation: Operation,
    world: spec_fn(Action) -> Event<S>,
    limit: nat,
)
    requires
        forall|action: Action| action.answered_by(#[trigger] world(action)),
        limit >= operation.plan().len(),
    ensures
        operation.trace(Event::Called, world, limit) == operation.plan(),
        operation.next(world(operation.plan().last())) is None,
{
    reveal_with_fuel(Operation::trace, 5);
    let plan = operation.plan();
    assert(forall|i: int| 0 <= i < plan.len() ==> plan[i].answered_by(#[trigger] world(plan[i])));
    assert(operation.trace(Event::Called, world, limit) =~= plan);
}

/// An operation expects whatever comes of the work that it asks for.
pub proof fn law_every_answer_is_expected<S>(
    operation: Operation,
    event: Event<S>,
    answer: Event<S>,
)
    requires
        operation.expects(event),
        operation.next(event) matches Some(action) && action.answered_by(answer),
    ensures
        operation.expects(answer),
        operation.done(answer) == operation.done(event) + 1,
{
}

/// Killing activates the kill switch before anything else; no other operation touches it, quitting
/// in particular.
pub proof fn law_only_kill_activates_the_switch(operation: Operation)
    ensures
        operation is Kill ==> operation.plan().first() == Action::ActivateKillSwitch,
        operation.plan().contains(Action::ActivateKillSwitch) <==> operation is Kill,
{
    if operation is Kill {
        assert(operation.plan()[0] == Action::ActivateKillSwitch);
    }
}

/// Once the command is sent, killing and quitting go on alike.
pub proof fn law_kill_and_quit_agree_after_the_command<S>(event: Event<S>)
    requires
        event is Sent || event is Exited,
    ensures
        Operation::Kill.next(event) == Operation::Quit.next(event),
{
}

/// Once the request is sent, the two ways to observe go on alike: they differ in how the request
/// is queued alone.
pub proof fn law_observing_agrees_after_the_request<S>(event: Event<S>)
    requires
        !(event is Called),
    ensures
        Operation::ProcessPendingAndObserve.next(event) == Operation::Observe.next(event),
        Operation::ProcessPendingAndObserve.expects(event) <==> Operation::Observe.expects(event),
{
}

/// Whether a command was delivered makes no difference to what an operation does next.
pub proof fn law_a_refused_command_changes_nothing<S>(operation: Operation)
    ensures
        operation.next(Event::<S>::Sent { delivered: false }) == operation.next(
            Event::<S>::Sent { delivered: true },
        ),
{
}

/// Killing, quitting and joining return once the task of the actor has ended, and not before.
pub proof fn law_ending_returns_after_the_exit<S>(operation: Operation, event: Event<S>)
    requires
        operation is Kill || operation is Quit || operation is Join,
        operation.expects(event),
    ensures
        operation.next(event) is None <==> event is Exited,
{
}

/// Joining returns only when it is told that the task of the actor has ended: with the exit status
/// that the end makes, whichever it is, and with a state that comes of reading the channel to which
/// the actor publishes.
pub proof fn law_join_returns_what_the_exit_makes<A: Actor>(
    handle: ActorHandle<A>,
    event: Event<A::ObservableState>,
    ended: (ActorExitStatus, A::ObservableState),
)
    requires
        Operation::Join.expects(event),
        call_ensures(ActorHandle::<A>::join, (&handle, event), Step::Return(ended)),
    ensures
        event matches Event::Exited(joined) && ended.0 == exit_status(joined),
        handle.shows(ended.1),
{
}

/// A state that a handle shows is a clone of some state.
pub proof fn law_a_shown_state_is_a_clone<A: Actor>(
    handle: ActorHandle<A>,
    state: A::ObservableState,
)
    requires
        handle.shows(state),
    ensures
        is_a_clone(state),
{
}

/// A task that ended without a status makes its actor panicked if it panicked and killed
/// otherwise; a status of the actor's own is kept.
pub proof fn law_exit_status(joined: Joined)
    ensures
        joined matches Ok(status) ==> exit_status(joined) == status,
        joined matches Err(err) ==> (exit_status(joined) is Panicked <==> join_error_is_panic(err)),
        joined matches Err(err) ==> (exit_status(joined) is Killed <==> !join_error_is_panic(err)),
{
}

/// An observation is alive exactly if the actor replied, and then shows what it replied; otherwise
/// it shows the last published state, and tells a missing actor from a slow one.
pub proof fn law_observation<S>(reply: Reply<S>, last_state: S)
    ensures
        observation_of(reply, last_state).obs_type is Alive <==> reply matches Ok(Ok(_)),
        reply matches Ok(Ok(state)) ==> observation_of(reply, last_state).state == state,
        observation_of(reply, last_state).obs_type is PostMortem <==> reply matches Ok(Err(_)),
        observation_of(reply, last_state).obs_type is Timeout <==> reply is Err,
        !(reply matches Ok(Ok(_))) ==> observation_of(reply, last_state).state == last_state,
{
}

/// Observing asks, waits, and returns the very state that the actor replied with, whichever the
/// actor; without a reply it returns a state read from the channel to which the actor publishes,
/// and tells a missing actor from a slow one.
pub proof fn law_observe<A: Actor>(
    handle: ActorHandle<A>,
    event: Event<A::ObservableState>,
    step: Step<Observation<A::ObservableState>>,
)
    requires
        call_ensures(ActorHandle::<A>::observe, (&handle, event), step),
    ensures
        event is Called ==> step == Step::<Observation<A::ObservableState>>::Perform(
            Action::SendCommand(Command::Observe),
        ),
        event is Sent ==> step == Step::<Observation<A::ObservableState>>::Perform(
            Action::AwaitReply,
        ),
        event matches Event::Replied(Ok(Ok(state))) ==> (step matches Step::Return(observation)
            && observation.obs_type is Alive && observation.state == state),
        event matches Event::Replied(Ok(Err(_))) ==> (step matches Step::Return(observation)
            && observation.obs_type is PostMortem && call_ensures(
            latest_value::<A::ObservableState>,
            (&handle.last_state(),),
            observation.state,
        )),
        event matches Event::Replied(Err(_)) ==> (step matches Step::Return(observation)
            && observation.obs_type is Timeout && call_ensures(
            latest_value::<A::ObservableState>,
            (&handle.last_state(),),
            observation.state,
        )),
        event is Called || event is Sent || event is Replied ==> call_requires(
            ActorHandle::<A>::observe,
            (&handle, event),
        ),
{
}

/// Observing after the pending messages asks at low priority, waits, and returns the very state
/// that the actor replied with, whichever the actor; without a reply it returns a state read from
/// the channel to which the actor publishes, and tells a missing actor from a slow one.
pub proof fn law_process_pending_and_observe<A: Actor>(
    handle: ActorHandle<A>,
    event: Event<A::ObservableState>,
    step: Step<Observation<A::ObservableState>>,
)
    requires
        call_ensures(ActorHandle::<A>::process_pending_and_observe, (&handle, event), step),
    ensures
        event is Called ==> step == Step::<Observation<A::ObservableState>>::Perform(
            Action::SendWithPriority(Command::Observe, Priority::Low),
        ),
        event is Sent ==> step == Step::<Observation<A::ObservableState>>::Perform(
            Action::AwaitReply,
        ),
        event matches Event::Replied(Ok(Ok(state))) ==> (step matches Step::Return(observation)
            && observation.obs_type is Alive && observation.state == state),
        event matches Event::Replied(Ok(Err(_))) ==> (step matches Step::Return(observation)
            && observation.obs_type is PostMortem && call_ensures(
            latest_value::<A::ObservableState>,
            (&handle.last_state(),),
            observation.state,
        )),
        event matches Event::Replied(Err(_)) ==> (step matches Step::Return(observation)
            && observation.obs_type is Timeout && call_ensures(
            latest_value::<A::ObservableState>,
            (&handle.last_state(),),
            observation.state,
        )),
        event is Called || event is Sent || event is Replied ==> call_requires(
            ActorHandle::<A>::process_pending_and_observe,
            (&handle, event),
        ),
{
}

/// Pausing sends the command to pause, and returns whether or not it was delivered.
pub proof fn law_pause<A: Actor>(
    handle: ActorHandle<A>,
    event: Event<A::ObservableState>,
    step: Step<()>,
)
    requires
        call_ensures(ActorHandle::<A>::pause, (&handle, event), step),
    ensures
        event is Called ==> step == Step::<()>::Perform(Action::SendCommand(Command::Pause)),
        event is Sent ==> step is Return,
        event is Called || event is Sent ==> call_requires(
            ActorHandle::<A>::pause,
            (&handle, event),
        ),
{
}

/// Resuming sends the command to resume, and returns whether or not it was delivered.
pub proof fn law_resume<A: Actor>(
    handle: ActorHandle<A>,
    event: Event<A::ObservableState>,
    step: Step<()>,
)
    requires
        call_ensures(ActorHandle::<A>::resume, (&handle, event), step),
    ensures
        event is Called ==> step == Step::<()>::Perform(Action::SendCommand(Command::Resume)),
        event is Sent ==> step is Return,
        event is Called || event is Sent ==> call_requires(
            ActorHandle::<A>::resume,
            (&handle, event),
        ),
{
}

/// Killing activates the kill switch, sends the command to kill, waits for the end of the task and
/// returns what the end tells, with a state read from the channel to which the actor publishes.
pub proof fn law_kill<A: Actor>(
    handle: ActorHandle<A>,
    event: Event<A::ObservableState>,
    step: Step<(ActorExitStatus, A::ObservableState)>,
)
    requires
        call_ensures(ActorHandle::<A>::kill, (&handle, event), step),
    ensures
        event is Called ==> step == Step::<(ActorExitStatus, A::ObservableState)>::Perform(
            Action::ActivateKillSwitch,
        ),
        event is KillSwitchActivated ==> step == Step::<(ActorExitStatus, A::ObservableState)>::Perform(
            Action::SendCommand(Command::Kill),
        ),
        event is Sent ==> step == Step::<(ActorExitStatus, A::ObservableState)>::Perform(
            Action::AwaitExit,
        ),
        event matches Event::Exited(Ok(status)) ==> (step matches Step::Return(ended) && ended.0
            == status),
        event matches Event::Exited(Err(err)) ==> (step matches Step::Return(ended) && (ended.0
            is Panicked <==> join_error_is_panic(err)) && (ended.0 is Killed
            <==> !join_error_is_panic(err))),
        event is Exited ==> (step matches Step::Return(ended) && call_ensures(
            latest_value::<A::ObservableState>,
            (&handle.last_state(),),
            ended.1,
        )),
        event is Called || event is KillSwitchActivated || event is Sent || event is Exited ==> call_requires(
            ActorHandle::<A>::kill,
            (&handle, event),
        ),
{
}

/// Quitting sends the command to quit, waits for the end of the task and returns what the end
/// tells, with a state read from the channel to which the actor publishes.
pub proof fn law_quit<A: Actor>(
    handle: ActorHandle<A>,
    event: Event<A::ObservableState>,
    step: Step<(ActorExitStatus, A::ObservableState)>,
)
    requires
        call_ensures(ActorHandle::<A>::quit, (&handle, event), step),
    ensures
        event is Called ==> step == Step::<(ActorExitStatus, A::ObservableState)>::Perform(
            Action::SendCommand(Command::Quit),
        ),
        event is Sent ==> step == Step::<(ActorExitStatus, A::ObservableState)>::Perform(
            Action::AwaitExit,
        ),
        event matches Event::Exited(Ok(status)) ==> (step matches Step::Return(ended) && ended.0
            == status),
        event matches Event::Exited(Err(err)) ==> (step matches Step::Return(ended) && (ended.0
            is Panicked <==> join_error_is_panic(err)) && (ended.0 is Killed
            <==> !join_error_is_panic(err))),
        event is Exited ==> (step matches Step::Return(ended) && call_ensures(
            latest_value::<A::ObservableState>,
            (&handle.last_state(),),
            ended.1,
        )),
        event is Called || event is Sent || event is Exited ==> call_requires(
            ActorHandle::<A>::quit,
            (&handle, event),
        ),
{
}

/// Joining waits for the end of the task and returns what the end tells, with a state read from the
/// channel to which the actor publishes.
pub proof fn law_join<A: Actor>(
    handle: ActorHandle<A>,
    event: Event<A::ObservableState>,
    step: Step<(ActorExitStatus, A::ObservableState)>,
)
    requires
        call_ensures(ActorHandle::<A>::join, (&handle, event), step),
    ensures
        event is Called ==> step == Step::<(ActorExitStatus, A::ObservableState)>::Perform(
            Action::AwaitExit,
        ),
        event matches Event::Exited(Ok(status)) ==> (step matches Step::Return(ended) && ended.0
            == status),
        event matches Event::Exited(Err(err)) ==> (step matches Step::Return(ended) && (ended.0
            is Panicked <==> join_error_is_panic(err)) && (ended.0 is Killed
            <==> !join_error_is_panic(err))),
        event is Exited ==> (step matches Step::Return(ended) && call_ensures(
            latest_value::<A::ObservableState>,
            (&handle.last_state(),),
            ended.1,
        )),
        event is Called || event is Exited ==> call_requires(
            ActorHandle::<A>::join,
            (&handle, event),
        ),
{
}

/// What is made of a reply without a handle to read from.
pub proof fn law_observe_reply<S>(reply: Reply<S>, last_state: S, observation: Observation<S>)
    requires
        call_ensures(observe_reply::<S>, (reply, last_state), observation),
    ensures
        reply matches Ok(Ok(state)) ==> observation.obs_type is Alive && observation.state == state,
        reply matches Ok(Err(_)) ==> observation.obs_type is PostMortem && observation.state
            == last_state,
        reply is Err ==> observation.obs_type is Timeout && observation.state == last_state,
{
}

/// What is made of a reply through a handle. The reply of a living actor does not depend on the
/// handle.
pub proof fn law_wait_for_observable_state_callback<A: Actor>(
    handle: ActorHandle<A>,
    reply: Reply<A::ObservableState>,
    observation: Observation<A::ObservableState>,
)
    requires
        call_ensures(
            ActorHandle::<A>::wait_for_observable_state_callback,
            (&handle, reply),
            observation,
        ),
    ensures
        reply matches Ok(Ok(state)) ==> observation.obs_type is Alive && observation.state == state,
        reply matches Ok(Err(_)) ==> observation.obs_type is PostMortem,
        reply is Err ==> observation.obs_type is Timeout,
        !(reply matches Ok(Ok(_))) ==> call_ensures(
            latest_value::<A::ObservableState>,
            (&handle.last_state(),),
            observation.state,
        ),
{
}

/// A living actor that is observed through two handles gives the same observation.
pub proof fn law_a_reply_does_not_depend_on_the_handle<A: Actor>(
    handle: ActorHandle<A>,
    other: ActorHandle<A>,
    state: A::ObservableState,
    observation: Observation<A::ObservableState>,
)
    requires
        handle.observes(Ok(Ok(state)), observation),
    ensures
        observation.obs_type is Alive,
        observation.state == state,
        other.observes(Ok(Ok(state)), observation),
{
}

/// The last observation is read from the channel to which the actor publishes.
pub proof fn law_last_observation<A: Actor>(handle: ActorHandle<A>, state: A::ObservableState)
    requires
        call_ensures(ActorHandle::<A>::last_observation, (&handle,), state),
    ensures
        call_ensures(latest_value::<A::ObservableState>, (&handle.last_state(),), state),
{
}

/// A status of the actor's own is kept; without one the actor panicked or was killed, as its task
/// did.
pub proof fn law_status_of_exit(joined: Joined, status: ActorExitStatus)
    requires
        call_ensures(status_of_exit, (joined,), status),
    ensures
        joined matches Ok(own) ==> status == own,
        joined matches Err(err) ==> (status is Panicked <==> join_error_is_panic(err)),
        joined matches Err(err) ==> (status is Killed <==> !join_error_is_panic(err)),
{
}

/// A task that failed panicked or was killed.
pub proof fn law_status_of_failure(is_panic: bool, status: ActorExitStatus)
    requires
        call_ensures(status_of_failure, (is_panic,), status),
    ensures
        status is Panicked <==> is_panic,
        status is Killed <==> !is_panic,
{
}

/// A new handle is that of the actor and the channel that it was made with, and the supervision
/// that comes with it has not started.
pub proof fn law_new_handle<A: Actor>(
    actor_instance_id: String,
    last_state: watch::Receiver<A::ObservableState>,
    spawned: (ActorHandle<A>, Supervisor),
)
    requires
        call_ensures(ActorHandle::<A>::new, (actor_instance_id, last_state), spawned),
    ensures
        spawned.0.actor_instance_id() == actor_instance_id@,
        spawned.0.last_state() == last_state,
        !spawned.1.ticked_once(),
{
}

/// What is observed last through a new handle is read from the channel that it was made with.
pub proof fn law_a_new_handle_reads_its_channel<A: Actor>(
    actor_instance_id: String,
    last_state: watch::Receiver<A::ObservableState>,
    spawned: (ActorHandle<A>, Supervisor),
    state: A::ObservableState,
)
    requires
        call_ensures(ActorHandle::<A>::new, (actor_instance_id, last_state), spawned),
        call_ensures(ActorHandle::<A>::last_observation, (&spawned.0,), state),
    ensures
        call_ensures(latest_value::<A::ObservableState>, (&last_state,), state),
{
}

/// The debug text of a new handle is that of a struct whose one field is the name of the actor,
/// quoted, on one line or over three.
pub proof fn law_debug_text<A: Actor>(
    actor_instance_id: String,
    last_state: watch::Receiver<A::ObservableState>,
    spawned: (ActorHandle<A>, Supervisor),
    alternate: bool,
    text: String,
)
    requires
        call_ensures(ActorHandle::<A>::new, (actor_instance_id, last_state), spawned),
        call_ensures(ActorHandle::<A>::debug_text, (&spawned.0, alternate), text),
    ensures
        !alternate ==> text@ == "ActorHandle { name: "@ + quoted_text(actor_instance_id@) + " }"@,
        alternate ==> text@ == "ActorHandle {\n    name: "@ + quoted_text(actor_instance_id@)
            + ",\n}"@,
{
}

/// The debug text holds the quoted name as it is between what stands before and after every name.
pub proof fn law_debug_text_with(quoted_name: &str, alternate: bool, text: String)
    requires
        call_ensures(debug_text_with, (quoted_name, alternate), text),
    ensures
        !alternate ==> {
            &&& text@.len() == quoted_name@.len() + 22
            &&& text@.subrange(20, text@.len() - 2) == quoted_name@
            &&& text@.take(20) == "ActorHandle { name: "@
            &&& text@.skip(text@.len() - 2) == " }"@
        },
        alternate ==> {
            &&& text@.len() == quoted_name@.len() + 27
            &&& text@.subrange(24, text@.len() - 3) == quoted_name@
            &&& text@.take(24) == "ActorHandle {\n    name: "@
            &&& text@.skip(text@.len() - 3) == ",\n}"@
        },
{
    reveal_strlit("ActorHandle { name: ");
    reveal_strlit(" }");
    reveal_strlit("ActorHandle {\n    name: ");
    reveal_strlit(",\n}");
    if alternate {
        assert(text@.subrange(24, text@.len() - 3) =~= quoted_name@);
        assert(text@.take(24) =~= "ActorHandle {\n    name: "@);
        assert(text@.skip(text@.len() - 3) =~= ",\n}"@);
    } else {
        assert(text@.subrange(20, text@.len() - 2) =~= quoted_name@);
        assert(text@.take(20) =~= "ActorHandle { name: "@);
        assert(text@.skip(text@.len() - 2) =~= " }"@);
    }
}

} // verus!
