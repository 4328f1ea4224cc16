use std::time::Duration;

use quickwit_clients::actor::{
    Actor, ActorExitStatus, Command, Observation, ObservationType, Priority,
};
use quickwit_clients::actor_handle::{
    debug_text_with, observe_reply, status_of_exit, status_of_failure, Action, ActorHandle, Event,
    Joined, Reply, Step,
};
use tokio::runtime::{Builder, Runtime};
use tokio::sync::{mpsc, oneshot, watch};
use tokio::task::JoinHandle;

#[derive(Default)]
struct PanickingActor {
    count: usize,
}

impl Actor for PanickingActor {
    type Message = ();
    type ObservableState = usize;
    fn observable_state(&self) -> usize {
        self.count
    }
}

impl PanickingActor {
    fn process_message(&mut self) -> Result<(), ActorExitStatus> {
        self.count += 1;
        panic!("Oops");
    }
}

#[derive(Default)]
struct ExitActor {
    count: usize,
}

impl Actor for ExitActor {
    type Message = ();
    type ObservableState = usize;
    fn observable_state(&self) -> usize {
        self.count
    }
}

impl ExitActor {
    fn process_message(&mut self) -> Result<(), ActorExitStatus> {
        self.count += 1;
        Err(ActorExitStatus::DownstreamClosed)
    }
}

/// An actor at work. It publishes its state when it is done, panicking or not.
struct Running<A: Actor> {
    actor: A,
    state_tx: watch::Sender<A::ObservableState>,
}

impl<A: Actor> Drop for Running<A> {
    fn drop(&mut self) {
        let _ = self.state_tx.send(self.actor.observable_state());
    }
}

type Process<A> = fn(&mut A) -> Result<(), ActorExitStatus>;

type Spawned<A> = (mpsc::Sender<()>, ActorHandle<A>, JoinHandle<ActorExitStatus>);

fn runtime() -> Runtime {
    Builder::new_current_thread().enable_time().build().unwrap()
}

fn prepare<A: Actor>(actor: A) -> (Running<A>, ActorHandle<A>) {
    let (state_tx, state_rx) = watch::channel(actor.observable_state());
    let (handle, _supervisor) = ActorHandle::new("actor-1".to_string(), state_rx);
    (Running { actor, state_tx }, handle)
}

fn spawn<A>(runtime: &Runtime, actor: A, process: Process<A>) -> Spawned<A>
where
    A: Actor + Send + 'static,
    A::ObservableState: Send + Sync,
{
    let (mailbox, mut inbox) = mpsc::channel(1);
    let (mut running, handle) = prepare(actor);
    let join_handle = runtime.spawn(async move {
        while inbox.recv().await.is_some() {
            if let Err(exit_status) = process(&mut running.actor) {
                return exit_status;
            }
        }
        ActorExitStatus::Success
    });
    (mailbox, handle, join_handle)
}

fn spawn_sync_actor<A>(runtime: &Runtime, actor: A, process: Process<A>) -> Spawned<A>
where
    A: Actor + Send + 'static,
    A::ObservableState: Send + Sync,
{
    let (mailbox, mut inbox) = mpsc::channel(1);
    let (mut running, handle) = prepare(actor);
    let join_handle = runtime.spawn_blocking(move || {
        while inbox.blocking_recv().is_some() {
            if let Err(exit_status) = process(&mut running.actor) {
                return exit_status;
            }
        }
        ActorExitStatus::Success
    });
    (mailbox, handle, join_handle)
}

fn returned<R>(step: Step<R>) -> R {
    match step {
        Step::Return(value) => value,
        Step::Perform(action) => panic!("{:?} is asked for", action),
    }
}

fn asked_for<R>(step: Step<R>) -> Action {
    match step {
        Step::Perform(action) => action,
        Step::Return(_) => panic!("nothing is asked for"),
    }
}

fn join<A: Actor>(
    runtime: &Runtime,
    handle: ActorHandle<A>,
    join_handle: JoinHandle<ActorExitStatus>,
) -> (ActorExitStatus, A::ObservableState) {
    assert_eq!(asked_for(handle.join(Event::Called)), Action::AwaitExit);
    let joined = runtime.block_on(join_handle);
    returned(handle.join(Event::Exited(joined)))
}

fn idle_handle(state: usize) -> (watch::Sender<usize>, ActorHandle<ExitActor>) {
    let (state_tx, state_rx) = watch::channel(state);
    let (handle, _supervisor) = ActorHandle::new("actor-1".to_string(), state_rx);
    (state_tx, handle)
}

fn panicked() -> Joined {
    let runtime = runtime();
    let task: JoinHandle<ActorExitStatus> = runtime.spawn(async { panic!("Oops") });
    runtime.block_on(task)
}

fn cancelled() -> Joined {
    let runtime = runtime();
    let task: JoinHandle<ActorExitStatus> = runtime.spawn(std::future::pending());
    task.abort();
    runtime.block_on(task)
}

fn reply_of_a_gone_actor() -> Reply<usize> {
    runtime().block_on(async {
        let (tx, rx) = oneshot::channel();
        drop(tx);
        tokio::time::timeout(Duration::from_secs(10), rx).await
    })
}

fn reply_of_a_slow_actor() -> Reply<usize> {
    runtime().block_on(async {
        let (_tx, rx) = oneshot::channel();
        tokio::time::timeout(Duration::from_millis(1), rx).await
    })
}

fn reply_of_an_actor(state: usize) -> Reply<usize> {
    runtime().block_on(async {
        let (tx, rx) = oneshot::channel();
        tx.send(state).unwrap();
        tokio::time::timeout(Duration::from_secs(10), rx).await
    })
}

#[test]
fn test_panic_in_async_actor() {
    let runtime = runtime();
    let (mailbox, handle, join_handle) =
        spawn(&runtime, PanickingActor::default(), PanickingActor::process_message);
    runtime.block_on(mailbox.send(())).unwrap();
    let (exit_status, count) = join(&runtime, handle, join_handle);
    assert!(matches!(exit_status, ActorExitStatus::Panicked));
    assert!(matches!(count, 1));
}

#[test]
fn test_panic_in_sync_actor() {
    let runtime = runtime();
    let (mailbox, handle, join_handle) =
        spawn_sync_actor(&runtime, PanickingActor::default(), PanickingActor::process_message);
    runtime.block_on(mailbox.send(())).unwrap();
    let (exit_status, count) = join(&runtime, handle, join_handle);
    assert!(matches!(exit_status, ActorExitStatus::Panicked));
    assert!(matches!(count, 1));
}

#[test]
fn test_exit_in_async_actor() {
    let runtime = runtime();
    let (mailbox, handle, join_handle) =
        spawn(&runtime, ExitActor::default(), ExitActor::process_message);
    runtime.block_on(mailbox.send(())).unwrap();
    let (exit_status, count) = join(&runtime, handle, join_handle);
    assert!(matches!(exit_status, ActorExitStatus::DownstreamClosed));
    assert!(matches!(count, 1));
}

#[test]
fn test_exit_in_sync_actor() {
    let runtime = runtime();
    let (mailbox, handle, join_handle) =
        spawn_sync_actor(&runtime, ExitActor::default(), ExitActor::process_message);
    runtime.block_on(mailbox.send(())).unwrap();
    let (exit_status, count) = join(&runtime, handle, join_handle);
    assert!(matches!(exit_status, ActorExitStatus::DownstreamClosed));
    assert!(matches!(count, 1));
}

#[test]
fn an_actor_that_finishes_keeps_its_status() {
    let runtime = runtime();
    let (mailbox, handle, join_handle) =
        spawn(&runtime, ExitActor::default(), ExitActor::process_message);
    drop(mailbox);
    let (exit_status, count) = join(&runtime, handle, join_handle);
    assert_eq!(exit_status, ActorExitStatus::Success);
    assert_eq!(count, 0);
}

#[test]
fn joining_returns_the_state_at_the_end() {
    let (state_tx, handle) = idle_handle(3);
    assert_eq!(asked_for(handle.join(Event::Called)), Action::AwaitExit);
    state_tx.send(4).unwrap();
    state_tx.send(5).unwrap();
    drop(state_tx);
    assert_eq!(
        returned(handle.join(Event::Exited(panicked()))),
        (ActorExitStatus::Panicked, 5)
    );
}

#[test]
fn exit_statuses() {
    assert_eq!(status_of_exit(Ok(ActorExitStatus::Quit)), ActorExitStatus::Quit);
    assert_eq!(status_of_exit(panicked()), ActorExitStatus::Panicked);
    assert_eq!(status_of_exit(cancelled()), ActorExitStatus::Killed);
    assert_eq!(status_of_failure(true), ActorExitStatus::Panicked);
    assert_eq!(status_of_failure(false), ActorExitStatus::Killed);
}

#[test]
fn kill_activates_the_switch_then_sends_then_joins() {
    let (_state_tx, handle) = idle_handle(7);
    assert_eq!(asked_for(handle.kill(Event::Called)), Action::ActivateKillSwitch);
    assert_eq!(
        asked_for(handle.kill(Event::KillSwitchActivated)),
        Action::SendCommand(Command::Kill)
    );
    for delivered in [true, false] {
        assert_eq!(asked_for(handle.kill(Event::Sent { delivered })), Action::AwaitExit);
    }
    assert_eq!(
        returned(handle.kill(Event::Exited(Ok(ActorExitStatus::Killed)))),
        (ActorExitStatus::Killed, 7)
    );
    assert_eq!(
        returned(handle.kill(Event::Exited(cancelled()))),
        (ActorExitStatus::Killed, 7)
    );
}

#[test]
fn quit_sends_then_joins() {
    let (_state_tx, handle) = idle_handle(7);
    assert_eq!(asked_for(handle.quit(Event::Called)), Action::SendCommand(Command::Quit));
    for delivered in [true, false] {
        assert_eq!(asked_for(handle.quit(Event::Sent { delivered })), Action::AwaitExit);
    }
    assert_eq!(
        returned(handle.quit(Event::Exited(Ok(ActorExitStatus::Quit)))),
        (ActorExitStatus::Quit, 7)
    );
    assert_eq!(
        returned(handle.quit(Event::Exited(panicked()))),
        (ActorExitStatus::Panicked, 7)
    );
}

#[test]
fn pause_and_resume_send_and_return() {
    let (_state_tx, handle) = idle_handle(0);
    assert_eq!(asked_for(handle.pause(Event::Called)), Action::SendCommand(Command::Pause));
    assert_eq!(asked_for(handle.resume(Event::Called)), Action::SendCommand(Command::Resume));
    for delivered in [true, false] {
        returned(handle.pause(Event::Sent { delivered }));
        returned(handle.resume(Event::Sent { delivered }));
    }
}

#[test]
fn observing_asks_and_waits() {
    let (_state_tx, handle) = idle_handle(0);
    assert_eq!(asked_for(handle.observe(Event::Called)), Action::SendCommand(Command::Observe));
    assert_eq!(
        asked_for(handle.process_pending_and_observe(Event::Called)),
        Action::SendWithPriority(Command::Observe, Priority::Low)
    );
    for delivered in [true, false] {
        assert_eq!(asked_for(handle.observe(Event::Sent { delivered })), Action::AwaitReply);
        assert_eq!(
            asked_for(handle.process_pending_and_observe(Event::Sent { delivered })),
            Action::AwaitReply
        );
    }
}

#[test]
fn observations_through_a_handle() {
    let (state_tx, handle) = idle_handle(3);
    state_tx.send(4).unwrap();
    let replies: [fn() -> Reply<usize>; 3] =
        [|| reply_of_an_actor(9), reply_of_a_gone_actor, reply_of_a_slow_actor];
    let expected = [
        (ObservationType::Alive, 9),
        (ObservationType::PostMortem, 4),
        (ObservationType::Timeout, 4),
    ];
    for (reply, (obs_type, state)) in replies.iter().zip(expected) {
        let observed: Observation<usize> = returned(handle.observe(Event::Replied(reply())));
        assert_eq!((observed.obs_type, observed.state), (obs_type, state));
        let pending = returned(handle.process_pending_and_observe(Event::Replied(reply())));
        assert_eq!((pending.obs_type, pending.state), (obs_type, state));
        let waited = handle.wait_for_observable_state_callback(reply());
        assert_eq!((waited.obs_type, waited.state), (obs_type, state));
    }
}

#[test]
fn observations_from_plain_values() {
    let alive = observe_reply(Ok(Ok(1)), 2);
    assert_eq!((alive.obs_type, alive.state), (ObservationType::Alive, 1));
    let gone = observe_reply(reply_of_a_gone_actor(), 2);
    assert_eq!((gone.obs_type, gone.state), (ObservationType::PostMortem, 2));
    let slow = observe_reply(reply_of_a_slow_actor(), 2);
    assert_eq!((slow.obs_type, slow.state), (ObservationType::Timeout, 2));
}

#[test]
fn the_last_observation_is_the_last_published_state() {
    let (state_tx, handle) = idle_handle(3);
    assert_eq!(handle.last_observation(), 3);
    state_tx.send(4).unwrap();
    assert_eq!(handle.last_observation(), 4);
    drop(state_tx);
    assert_eq!(handle.last_observation(), 4);
}

struct Named<'a> {
    name: &'a str,
}

impl std::fmt::Debug for Named<'_> {
    fn fmt(&self, f: &mut std::fmt::Formatter<'_>) -> std::fmt::Result {
        f.debug_struct("ActorHandle").field("name", &self.name).finish()
    }
}

#[test]
fn debug_text_is_that_of_a_struct_with_a_name() {
    for name in ["", "indexer-1", "with \"quotes\"", "two\nlines", "tab\t\\"] {
        let (_state_tx, state_rx) = watch::channel(0usize);
        let (handle, _supervisor) = ActorHandle::<ExitActor>::new(name.to_string(), state_rx);
        assert_eq!(handle.debug_text(false), format!("{:?}", Named { name }));
        assert_eq!(handle.debug_text(true), format!("{:#?}", Named { name }));
    }
    assert_eq!(debug_text_with("\"a\"", false), "ActorHandle { name: \"a\" }");
    assert_eq!(debug_text_with("\"a\"", true), "ActorHandle {\n    name: \"a\",\n}");
}
