//! Watching over an actor: an actor that shows no sign of progress for a heartbeat is killed.

use vstd::prelude::*;

use crate::actor::ActorState;

verus! {

/// What comes back to a supervisor.
#[derive(Clone, Copy, Debug, PartialEq, Eq, Structural)]
pub enum SupervisorEvent {
    /// The supervision starts.
    Spawned,
    /// The heartbeat interval ticked.
    Ticked,
    /// The kill switch was read.
    KillSwitchRead { alive: bool },
    /// The progress of the actor was read: whether it registered activity since the last reading.
    ActivityRead { active: bool },
    /// The state of the actor was read.
    StateRead(ActorState),
    /// The kill switch was activated.
    KillSwitchActivated,
}

/// What a supervisor wants done.
#[derive(Clone, Copy, Debug, PartialEq, Eq, Structural)]
pub enum SupervisorAction {
    /// Wait for the next tick of the heartbeat interval.
    AwaitTick,
    /// Read the kill switch.
    ReadKillSwitch,
    /// Read, and thereby reset, the progress of the actor.
    ReadActivity,
    /// Read the state of the actor.
    ReadState,
    /// The actor timed out: activate its kill switch.
    ActivateKillSwitch,
    /// The supervision is over.
    Stop,
}

/// What a supervisor does next, and whether the first tick is behind it by then.
pub open spec fn supervise(ticked_once: bool, event: SupervisorEvent) -> (bool, SupervisorAction) {
    match event {
        SupervisorEvent::Spawned => (ticked_once, SupervisorAction::AwaitTick),
        // The first tick comes at once; only the later ones tell that a heartbeat has passed.
        SupervisorEvent::Ticked => (
            true,
            if ticked_once {
                SupervisorAction::ReadActivity
            } else {
                SupervisorAction::ReadKillSwitch
            },
        ),
        SupervisorEvent::KillSwitchRead { alive } => (
            ticked_once,
            if alive {
                SupervisorAction::AwaitTick
            } else {
                SupervisorAction::Stop
            },
        ),
        SupervisorEvent::ActivityRead { active } => (
            ticked_once,
            if active {
                SupervisorAction::ReadKillSwitch
            } else {
                SupervisorAction::ReadState
            },
        ),
        SupervisorEvent::StateRead(state) => (
            ticked_once,
            if state == ActorState::Exit {
                SupervisorAction::Stop
            } else {
                SupervisorAction::ActivateKillSwitch
            },
        ),
        SupervisorEvent::KillSwitchActivated => (ticked_once, SupervisorAction::Stop),
    }
}

/// The supervision of one actor, between two events.
#[derive(Debug)]
pub struct Supervisor {
    ticked_once: bool,
}

impl Supervisor {
    /// Whether the first tick of the interval is behind the supervisor.
    pub closed spec fn ticked_once(&self) -> bool {
        self.ticked_once
    }

    /// A supervision that has not started.
    pub fn new() -> (supervisor: Self)
        ensures
            !supervisor.ticked_once(),
    {
        Supervisor { ticked_once: false }
    }

    /// Takes in what came back and says what to do next.
    pub fn next(&mut self, event: SupervisorEvent) -> (action: SupervisorAction)
        ensures
            (final(self).ticked_once(), action) == supervise(old(self).ticked_once(), event),
    {
        match event {
            SupervisorEvent::Spawned => SupervisorAction::AwaitTick,
            SupervisorEvent::Ticked => {
                if self.ticked_once {
                    SupervisorAction::ReadActivity
                } else {
                    self.ticked_once = true;
                    SupervisorAction::ReadKillSwitch
                }
            },
            SupervisorEvent::KillSwitchRead { alive } => {
                if alive {
                    SupervisorAction::AwaitTick
                } else {
                    SupervisorAction::Stop
                }
            },
            SupervisorEvent::ActivityRead { active } => {
                if active {
                    SupervisorAction::ReadKillSwitch
                } else {
                    SupervisorAction::ReadState
                }
            },
            SupervisorEvent::StateRead(state) => {
                if state == ActorState::Exit {
                    SupervisorAction::Stop
                } else {
                    SupervisorAction::ActivateKillSwitch
                }
            },
            SupervisorEvent::KillSwitchActivated => SupervisorAction::Stop,
        }
    }
}

/// What the readings of one heartbeat would show.
pub struct Heartbeat {
    pub alive: bool,
    pub active: bool,
    pub state: ActorState,
}

/// What has become of a supervision.
pub enum Supervision {
    /// It goes on.
    Watching,
    /// It ended in the given heartbeat without touching the kill switch.
    Stopped(nat),
    /// It activated the kill switch in the given heartbeat.
    Killed(nat),
}

/// What has become of a supervision `steps` events after `event`, where `heartbeat` counts the
/// heartbeats that passed with activity and every reading shows what `readings` holds for the
/// heartbeat in which it is taken.
pub open spec fn supervision(
    readings: spec_fn(nat) -> Heartbeat,
    ticked_once: bool,
    event: SupervisorEvent,
    heartbeat: nat,
    steps: nat,
) -> Supervision
    decreases steps,
{
    if steps == 0 {
        Supervision::Watching
    } else {
        let (ticked, action) = supervise(ticked_once, event);
        let left = (steps - 1) as nat;
        let now = match event {
            SupervisorEvent::ActivityRead { active: true } => heartbeat + 1,
            _ => heartbeat,
        };
        match action {
            SupervisorAction::AwaitTick => supervision(
                readings,
                ticked,
                SupervisorEvent::Ticked,
                now,
                left,
            ),
            SupervisorAction::ReadKillSwitch => supervision(
                readings,
                ticked,
                SupervisorEvent::KillSwitchRead { alive: readings(now).alive },
                now,
                left,
            ),
            SupervisorAction::ReadActivity => supervision(
                readings,
                ticked,
                SupervisorEvent::ActivityRead { active: readings(now).active },
                now,
                left,
            ),
            SupervisorAction::ReadState => supervision(
                readings,
                ticked,
                SupervisorEvent::StateRead(readings(now).state),
                now,
                left,
            ),
            SupervisorAction::ActivateKillSwitch => Supervision::Killed(now),
            SupervisorAction::Stop => Supervision::Stopped(now),
        }
    }
}

/// Whether the actor was seen alive and active in each of the first `n` heartbeats.
pub open spec fn active_until(readings: spec_fn(nat) -> Heartbeat, n: nat) -> bool {
    forall|i: nat| i < n ==> (#[trigger] readings(i)).alive && readings(i).active
}

/// Whether heartbeat `n` is the first without activity, the actor not having exited by then.
pub open spec fn times_out_at(readings: spec_fn(nat) -> Heartbeat, n: nat) -> bool {
    &&& active_until(readings, n)
    &&& readings(n).alive
    &&& !readings(n).active
    &&& readings(n).state != ActorState::Exit
}

/// Whether heartbeat `n` is the first to find the kill switch off, or the first without activity,
/// the actor having exited.
pub open spec fn ends_quietly_at(readings: spec_fn(nat) -> Heartbeat, n: nat) -> bool {
    &&& active_until(readings, n)
    &&& readings(n).alive ==> !readings(n).active && readings(n).state == ActorState::Exit
}

/// From the reading of the kill switch in heartbeat `n`, with no heartbeat before it that ended
/// the supervision.
proof fn lemma_supervision_from(readings: spec_fn(nat) -> Heartbeat, n: nat, steps: nat)
    requires
        active_until(readings, n),
    ensures
        match supervision(
            readings,
            true,
            SupervisorEvent::KillSwitchRead { alive: readings(n).alive },
            n,
            steps,
        ) {
            Supervision::Watching => true,
            Supervision::Stopped(m) => ends_quietly_at(readings, m),
            Supervision::Killed(m) => times_out_at(readings, m),
        },
    decreases steps,
{
    reveal_with_fuel(supervision, 5);
    if steps >= 3 && readings(n).alive && readings(n).active {
        assert(active_until(readings, n + 1));
        lemma_supervision_from(readings, n + 1, (steps - 3) as nat);
    }
}

/// Each heartbeat with activity takes three events.
proof fn lemma_supervision_reaches(
    readings: spec_fn(nat) -> Heartbeat,
    n: nat,
    k: nat,
    steps: nat,
)
    requires
        active_until(readings, n),
        k <= n,
        steps >= 3 * (n - k),
    ensures
        supervision(
            readings,
            true,
            SupervisorEvent::KillSwitchRead { alive: readings(k).alive },
            k,
            steps,
        ) == supervision(
            readings,
            true,
            SupervisorEvent::KillSwitchRead { alive: readings(n).alive },
            n,
            (steps - 3 * (n - k)) as nat,
        ),
    decreases n - k,
{
    if k < n {
        assert(readings(k).alive && readings(k).active);
        reveal_with_fuel(supervision, 4);
        lemma_supervision_reaches(readings, n, k + 1, (steps - 3) as nat);
    }
}

/// The kill switch is activated in heartbeat `n` only if the actor was active in every earlier
/// heartbeat, was silent in this one and had not exited.
pub proof fn law_only_a_silent_actor_is_killed(
    readings: spec_fn(nat) -> Heartbeat,
    n: nat,
    steps: nat,
)
    requires
        supervision(readings, false, SupervisorEvent::Spawned, 0, steps) == Supervision::Killed(n),
    ensures
        times_out_at(readings, n),
{
    reveal_with_fuel(supervision, 3);
    assert(steps >= 2);
    lemma_supervision_from(readings, 0, (steps - 2) as nat);
}

/// An actor that goes silent without having exited is killed in its first silent heartbeat.
pub proof fn law_a_silent_actor_is_killed(readings: spec_fn(nat) -> Heartbeat, n: nat)
    requires
        times_out_at(readings, n),
    ensures
        supervision(readings, false, SupervisorEvent::Spawned, 0, 3 * n + 6)
            == Supervision::Killed(n),
{
    lemma_supervision_reaches(readings, n, 0, 3 * n + 4);
    reveal_with_fuel(supervision, 5);
}

/// The supervision ends with the kill switch untouched exactly when it finds the switch off, or
/// the actor silent because it has exited, after nothing but active heartbeats.
pub proof fn law_supervision_ends_quietly(readings: spec_fn(nat) -> Heartbeat, n: nat, steps: nat)
    ensures
        supervision(readings, false, SupervisorEvent::Spawned, 0, steps) == Supervision::Stopped(n)
            ==> ends_quietly_at(readings, n),
        ends_quietly_at(readings, n) && steps >= 3 * n + 6 ==> supervision(
            readings,
            false,
            SupervisorEvent::Spawned,
            0,
            steps,
        ) == Supervision::Stopped(n),
{
    reveal_with_fuel(supervision, 5);
    if steps >= 2 {
        lemma_supervision_from(readings, 0, (steps - 2) as nat);
    }
    if ends_quietly_at(readings, n) && steps >= 3 * n + 6 {
        lemma_supervision_reaches(readings, n, 0, (steps - 2) as nat);
    }
}

/// As long as the actor shows activity and its kill switch is on, the supervision goes on.
pub proof fn law_an_active_actor_is_left_alone(
    readings: spec_fn(nat) -> Heartbeat,
    n: nat,
    steps: nat,
)
    requires
        active_until(readings, n),
        steps <= 3 * n + 2,
    ensures
        supervision(readings, false, SupervisorEvent::Spawned, 0, steps) is Watching,
{
    reveal_with_fuel(supervision, 3);
    if steps >= 2 {
        lemma_watching(readings, 0, n, (steps - 2) as nat);
    }
}

/// Nothing ends the supervision in the heartbeats from `k` on that show activity.
proof fn lemma_watching(readings: spec_fn(nat) -> Heartbeat, k: nat, n: nat, steps: nat)
    requires
        active_until(readings, n),
        k <= n,
        steps <= 3 * (n - k),
    ensures
        supervision(
            readings,
            true,
            SupervisorEvent::KillSwitchRead { alive: readings(k).alive },
            k,
            steps,
        ) is Watching,
    decreases steps,
{
    reveal_with_fuel(supervision, 4);
    if k < n {
        assert(readings(k).alive && readings(k).active);
        if steps >= 3 {
            lemma_watching(readings, k + 1, n, (steps - 3) as nat);
        }
    }
}

/// What a supervisor asks for after each event. The first tick, which comes at once, leads to a
/// look at the kill switch; every later one tells that a heartbeat has passed and leads to a look
/// at the activity. Only the first tick changes the supervisor.
pub proof fn law_next(
    supervisor: &mut Supervisor,
    event: SupervisorEvent,
    action: SupervisorAction,
)
    requires
        call_ensures(Supervisor::next, (supervisor, event), action),
    ensures
        event is Spawned ==> action is AwaitTick,
        event is Ticked && !old(supervisor).ticked_once() ==> action is ReadKillSwitch,
        event is Ticked && old(supervisor).ticked_once() ==> action is ReadActivity,
        event matches SupervisorEvent::KillSwitchRead { alive } ==> (action is AwaitTick <==> alive),
        event matches SupervisorEvent::KillSwitchRead { alive } ==> (action is Stop <==> !alive),
        event matches SupervisorEvent::ActivityRead { active } ==> (action is ReadKillSwitch
            <==> active),
        event matches SupervisorEvent::ActivityRead { active } ==> (action is ReadState <==> !active),
        event matches SupervisorEvent::StateRead(state) ==> (action is Stop <==> state is Exit),
        event matches SupervisorEvent::StateRead(state) ==> (action is ActivateKillSwitch <==> !(
        state is Exit)),
        event is KillSwitchActivated ==> action is Stop,
        final(supervisor).ticked_once() <==> old(supervisor).ticked_once() || event is Ticked,
{
}

/// A new supervisor waits for a tick and, after it, looks at the kill switch.
pub proof fn law_new_supervisor(supervisor: Supervisor)
    requires
        call_ensures(Supervisor::new, (), supervisor),
    ensures
        !supervisor.ticked_once(),
{
}

/// The kill switch is activated only upon reading that the actor has not exited, and the state is
/// read only upon reading that the actor was not active.
pub proof fn law_a_kill_follows_silence(
    supervisor: &mut Supervisor,
    event: SupervisorEvent,
    action: SupervisorAction,
)
    requires
        call_ensures(Supervisor::next, (supervisor, event), action),
    ensures
        action is ActivateKillSwitch ==> (event matches SupervisorEvent::StateRead(state) && !(
        state is Exit)),
        action is ReadState ==> (event matches SupervisorEvent::ActivityRead { active } && !active),
        action is ReadActivity ==> event is Ticked && old(supervisor).ticked_once(),
{
}

} // verus!
