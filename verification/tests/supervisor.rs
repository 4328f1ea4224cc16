use quickwit_clients::actor::ActorState;
use quickwit_clients::supervisor::{Supervisor, SupervisorAction, SupervisorEvent};

/// Runs a supervisor on the readings of each heartbeat: the kill switch, the activity, the state.
/// Returns in which heartbeat it ended and whether it activated the kill switch.
fn run(readings: &[(bool, bool, ActorState)]) -> Option<(usize, bool)> {
    let mut supervisor = Supervisor::new();
    let mut event = SupervisorEvent::Spawned;
    let mut heartbeat = 0;
    let mut killed = false;
    loop {
        let action = supervisor.next(event);
        if event == (SupervisorEvent::ActivityRead { active: true }) {
            heartbeat += 1;
        }
        if heartbeat == readings.len() {
            return None;
        }
        let (alive, active, state) = readings[heartbeat];
        event = match action {
            SupervisorAction::AwaitTick => SupervisorEvent::Ticked,
            SupervisorAction::ReadKillSwitch => SupervisorEvent::KillSwitchRead { alive },
            SupervisorAction::ReadActivity => SupervisorEvent::ActivityRead { active },
            SupervisorAction::ReadState => SupervisorEvent::StateRead(state),
            SupervisorAction::ActivateKillSwitch => {
                killed = true;
                SupervisorEvent::KillSwitchActivated
            }
            SupervisorAction::Stop => return Some((heartbeat, killed)),
        };
    }
}

const ACTIVE: (bool, bool, ActorState) = (true, true, ActorState::Processing);

#[test]
fn an_active_actor_is_left_alone() {
    assert_eq!(run(&[ACTIVE; 20]), None);
}

#[test]
fn a_silent_actor_is_killed_in_its_first_silent_heartbeat() {
    for state in [ActorState::Processing, ActorState::Idle, ActorState::Paused] {
        assert_eq!(run(&[(true, false, state)]), Some((0, true)));
        assert_eq!(run(&[ACTIVE, ACTIVE, (true, false, state), ACTIVE]), Some((2, true)));
    }
}

#[test]
fn an_actor_that_exited_is_not_killed() {
    assert_eq!(run(&[ACTIVE, (true, false, ActorState::Exit)]), Some((1, false)));
    assert_eq!(run(&[(true, true, ActorState::Exit), ACTIVE]), None);
}

#[test]
fn supervision_ends_with_the_kill_switch() {
    assert_eq!(run(&[(false, false, ActorState::Idle)]), Some((0, false)));
    assert_eq!(run(&[ACTIVE, (false, true, ActorState::Idle)]), Some((1, false)));
}

#[test]
fn the_first_tick_is_not_a_heartbeat() {
    let mut supervisor = Supervisor::new();
    assert_eq!(supervisor.next(SupervisorEvent::Spawned), SupervisorAction::AwaitTick);
    assert_eq!(supervisor.next(SupervisorEvent::Ticked), SupervisorAction::ReadKillSwitch);
    assert_eq!(
        supervisor.next(SupervisorEvent::KillSwitchRead { alive: true }),
        SupervisorAction::AwaitTick
    );
    assert_eq!(supervisor.next(SupervisorEvent::Ticked), SupervisorAction::ReadActivity);
    assert_eq!(
        supervisor.next(SupervisorEvent::ActivityRead { active: true }),
        SupervisorAction::ReadKillSwitch
    );
    assert_eq!(
        supervisor.next(SupervisorEvent::KillSwitchRead { alive: true }),
        SupervisorAction::AwaitTick
    );
    assert_eq!(supervisor.next(SupervisorEvent::Ticked), SupervisorAction::ReadActivity);
    assert_eq!(
        supervisor.next(SupervisorEvent::ActivityRead { active: false }),
        SupervisorAction::ReadState
    );
    assert_eq!(
        supervisor.next(SupervisorEvent::StateRead(ActorState::Idle)),
        SupervisorAction::ActivateKillSwitch
    );
    assert_eq!(supervisor.next(SupervisorEvent::KillSwitchActivated), SupervisorAction::Stop);
}
