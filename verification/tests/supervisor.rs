use sidecar_supervisor::channel::{Channel, RecvError, SendError};
use sidecar_supervisor::fault::Fault;
use sidecar_supervisor::launcher::{launch, LaunchReport};
use sidecar_supervisor::signal::TERMINATE;
use sidecar_supervisor::supervisor::{Phase, Reaction, Supervisor};

fn started(pgid: u32) -> Supervisor {
    match Supervisor::start(LaunchReport::Started { pgid }) {
        Ok(supervisor) => supervisor,
        Err(fault) => panic!("{}", fault.message()),
    }
}

#[test]
fn launch_hands_out_the_group() {
    match launch(LaunchReport::Started { pgid: 4321 }) {
        Ok(group) => assert_eq!(group.pgid(), 4321),
        Err(_) => panic!("a started backend is no fault"),
    }
}

#[test]
fn unresolved_executable_is_a_fatal_fault() {
    let outcome = launch(LaunchReport::Unresolved);
    assert_eq!(outcome, Err(Fault::ExecutableNotResolved));
    match Supervisor::start(LaunchReport::Unresolved) {
        Ok(_) => panic!("no supervisor without a backend"),
        Err(fault) => {
            assert_eq!(fault, Fault::ExecutableNotResolved);
            assert!(fault.is_fatal());
        }
    }
}

#[test]
fn refused_spawn_is_a_fatal_fault() {
    let outcome = launch(LaunchReport::SpawnRefused);
    assert_eq!(outcome, Err(Fault::SpawnFailed));
    match Supervisor::start(LaunchReport::SpawnRefused) {
        Ok(_) => panic!("no supervisor without a backend"),
        Err(fault) => {
            assert_eq!(fault, Fault::SpawnFailed);
            assert!(fault.is_fatal());
        }
    }
}

#[test]
fn supervisor_starts_running() {
    let supervisor = started(77);
    assert_eq!(supervisor.phase(), Phase::Running);
    assert_eq!(supervisor.pgid(), 77);
}

#[test]
fn notice_kills_the_group() {
    let mut channel = Channel::create();
    let mut supervisor = started(1000);
    assert_eq!(channel.send(TERMINATE), Ok(()));
    assert_eq!(supervisor.attempt(&mut channel), Reaction::KillGroup { pgid: 1000 });
    assert_eq!(supervisor.phase(), Phase::Terminated);
}

#[test]
fn supervisor_waits_until_something_arrives() {
    let mut channel = Channel::create();
    let mut supervisor = started(5);
    assert_eq!(supervisor.attempt(&mut channel), Reaction::KeepWaiting);
    assert_eq!(supervisor.attempt(&mut channel), Reaction::KeepWaiting);
    assert_eq!(supervisor.phase(), Phase::Running);
    assert_eq!(channel.send(TERMINATE), Ok(()));
    assert_eq!(supervisor.attempt(&mut channel), Reaction::KillGroup { pgid: 5 });
}

#[test]
fn two_notices_give_one_kill() {
    let mut channel = Channel::create();
    let mut supervisor = started(9);
    let mut kills = 0;
    assert_eq!(channel.send(TERMINATE), Ok(()));
    assert_eq!(channel.send(TERMINATE), Err(SendError::Full));
    for _ in 0..4 {
        if let Reaction::KillGroup { pgid } = supervisor.attempt(&mut channel) {
            assert_eq!(pgid, 9);
            kills += 1;
        }
        let _ = channel.send(TERMINATE);
    }
    assert_eq!(kills, 1);
    assert_eq!(supervisor.phase(), Phase::Terminated);
}

#[test]
fn second_notice_is_buffered_and_never_read() {
    let mut channel = Channel::create();
    let mut supervisor = started(9);
    assert_eq!(channel.send(TERMINATE), Ok(()));
    assert_eq!(supervisor.attempt(&mut channel), Reaction::KillGroup { pgid: 9 });
    assert_eq!(channel.send(TERMINATE), Ok(()));
    assert_eq!(supervisor.attempt(&mut channel), Reaction::Finished);
    assert_eq!(channel.send(TERMINATE), Err(SendError::Full));
    assert_eq!(channel.recv(), Ok(TERMINATE));
}

#[test]
fn second_notice_after_exit_is_refused_as_closed() {
    let mut channel = Channel::create();
    let mut supervisor = started(9);
    assert_eq!(channel.send(TERMINATE), Ok(()));
    assert_eq!(supervisor.attempt(&mut channel), Reaction::KillGroup { pgid: 9 });
    channel.drop_receiver();
    assert_eq!(channel.send(TERMINATE), Err(SendError::ChannelClosed));
    assert_eq!(supervisor.attempt(&mut channel), Reaction::Finished);
}

#[test]
fn dropped_sender_unblocks_without_a_kill() {
    let mut channel = Channel::create();
    let mut supervisor = started(9);
    channel.drop_sender();
    assert_eq!(
        supervisor.attempt(&mut channel),
        Reaction::Fail(Fault::ReceiveOnClosedChannel)
    );
    assert_eq!(supervisor.phase(), Phase::Terminated);
    assert_eq!(supervisor.attempt(&mut channel), Reaction::Finished);
}

#[test]
fn unknown_value_fails_loudly_and_ends_the_supervisor() {
    let mut channel = Channel::create();
    let mut supervisor = started(9);
    assert_eq!(channel.send(5), Ok(()));
    assert_eq!(
        supervisor.attempt(&mut channel),
        Reaction::Fail(Fault::UnexpectedValue(5))
    );
    assert_eq!(supervisor.phase(), Phase::Terminated);
    assert_eq!(channel.send(TERMINATE), Ok(()));
    assert_eq!(supervisor.attempt(&mut channel), Reaction::Finished);
}

#[test]
fn react_decides_on_each_answer() {
    assert_eq!(started(3).react(Err(RecvError::Empty)), Reaction::KeepWaiting);
    assert_eq!(started(3).react(Ok(-1)), Reaction::KillGroup { pgid: 3 });
    assert_eq!(started(3).react(Ok(0)), Reaction::Fail(Fault::UnexpectedValue(0)));
    assert_eq!(
        started(3).react(Err(RecvError::ChannelClosed)),
        Reaction::Fail(Fault::ReceiveOnClosedChannel)
    );
}

#[test]
fn finished_supervisor_reacts_to_nothing() {
    let mut supervisor = started(3);
    assert_eq!(supervisor.react(Ok(TERMINATE)), Reaction::KillGroup { pgid: 3 });
    assert_eq!(supervisor.react(Ok(TERMINATE)), Reaction::Finished);
    assert_eq!(supervisor.react(Err(RecvError::Empty)), Reaction::Finished);
    assert_eq!(supervisor.react(Err(RecvError::ChannelClosed)), Reaction::Finished);
    assert_eq!(supervisor.phase(), Phase::Terminated);
}

#[test]
fn no_kill_before_a_notice_was_sent() {
    let mut channel = Channel::create();
    let mut supervisor = started(11);
    for _ in 0..10 {
        assert_eq!(supervisor.attempt(&mut channel), Reaction::KeepWaiting);
    }
    assert_eq!(supervisor.phase(), Phase::Running);
}

#[test]
fn notice_survives_the_sender() {
    let mut channel = Channel::create();
    let mut supervisor = started(21);
    assert_eq!(channel.send(TERMINATE), Ok(()));
    channel.drop_sender();
    assert_eq!(supervisor.attempt(&mut channel), Reaction::KillGroup { pgid: 21 });
    assert_eq!(supervisor.attempt(&mut channel), Reaction::Finished);
}

#[test]
fn receive_completes_once_whatever_is_sent() {
    let values = vec![7, TERMINATE, TERMINATE, 0, TERMINATE];
    let mut channel = Channel::create();
    let mut supervisor = started(2);
    let mut kills = 0;
    let mut faults = 0;
    for value in values {
        let _ = channel.send(value);
        match supervisor.attempt(&mut channel) {
            Reaction::KillGroup { .. } => kills += 1,
            Reaction::Fail(_) => faults += 1,
            Reaction::KeepWaiting | Reaction::Finished => {}
        }
    }
    assert_eq!(kills, 0);
    assert_eq!(faults, 1);
}
