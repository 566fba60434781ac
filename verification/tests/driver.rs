use rust_filestore::exchange::step;
use rust_filestore::exchange::Action;
use rust_filestore::exchange::Event;
use rust_filestore::exchange::Phase;
use rust_filestore::exchange::Role;
use rust_filestore::exchange::Transition;
use rust_filestore::transport::after_read;
use rust_filestore::transport::after_write;
use rust_filestore::transport::receive_buffer;
use rust_filestore::transport::Attempt;
use rust_filestore::transport::IoError;
use rust_filestore::transport::ReceiveStep;
use rust_filestore::transport::SendStep;
use rust_filestore::transport::FRAME_CAPACITY;

fn run(role: Role, events: &[Event]) -> (Phase, Vec<Action>) {
    let mut phase = Phase::Idle;
    let mut actions = Vec::new();
    for event in events {
        let t = step(role, phase, *event);
        phase = t.next;
        actions.push(t.action);
    }
    (phase, actions)
}

#[test]
fn frame_capacity_is_one_mebibyte() {
    assert_eq!(FRAME_CAPACITY, 1 << 20);
    let buffer = receive_buffer(FRAME_CAPACITY);
    assert_eq!(buffer.len(), 1_048_576);
    assert!(buffer.iter().all(|b| *b == 0));
    assert_eq!(receive_buffer(0), Vec::<u8>::new());
    assert_eq!(receive_buffer(3), vec![0, 0, 0]);
}

#[test]
fn a_write_that_moved_bytes_has_sent() {
    assert_eq!(after_write(Attempt::Moved(16)), SendStep::Sent);
    assert_eq!(after_write(Attempt::Moved(0)), SendStep::Sent);
}

#[test]
fn a_blocked_write_is_waited_for() {
    assert_eq!(after_write(Attempt::WouldBlock), SendStep::AwaitWritable);
}

#[test]
fn a_failed_write_aborts_with_its_cause() {
    assert_eq!(
        after_write(Attempt::Failed("connection reset".to_string())),
        SendStep::Abort(IoError { cause: "connection reset".to_string() })
    );
}

#[test]
fn a_read_truncates_the_buffer() {
    assert_eq!(
        after_read(vec![1, 2, 3, 0, 0, 0], Attempt::Moved(3)),
        ReceiveStep::Received(vec![1, 2, 3])
    );
    assert_eq!(after_read(vec![1, 2, 3], Attempt::Moved(0)), ReceiveStep::Received(vec![]));
    assert_eq!(after_read(vec![1, 2, 3], Attempt::Moved(3)), ReceiveStep::Received(vec![1, 2, 3]));
    assert_eq!(after_read(vec![1, 2, 3], Attempt::Moved(9)), ReceiveStep::Received(vec![1, 2, 3]));
}

#[test]
fn a_blocked_read_is_waited_for() {
    assert_eq!(after_read(vec![0; 8], Attempt::WouldBlock), ReceiveStep::AwaitReadable);
}

#[test]
fn a_failed_read_aborts_with_its_cause() {
    assert_eq!(
        after_read(vec![0; 8], Attempt::Failed("broken pipe".to_string())),
        ReceiveStep::Abort(IoError { cause: "broken pipe".to_string() })
    );
}

#[test]
fn client_course() {
    let (phase, actions) = run(
        Role::Client,
        &[
            Event::Started,
            Event::Connected,
            Event::Ready,
            Event::Transferred,
            Event::Ready,
            Event::Transferred,
            Event::Processed,
        ],
    );
    assert_eq!(phase, Phase::Done);
    assert_eq!(
        actions,
        vec![
            Action::Connect,
            Action::AwaitWritable,
            Action::Write,
            Action::AwaitReadable,
            Action::Read,
            Action::Process,
            Action::Close,
        ]
    );
}

#[test]
fn server_course() {
    let (phase, actions) = run(
        Role::Server,
        &[
            Event::Started,
            Event::Connected,
            Event::Ready,
            Event::Transferred,
            Event::Processed,
            Event::Ready,
            Event::Transferred,
        ],
    );
    assert_eq!(phase, Phase::Done);
    assert_eq!(
        actions,
        vec![
            Action::Connect,
            Action::AwaitReadable,
            Action::Read,
            Action::Process,
            Action::AwaitWritable,
            Action::Write,
            Action::Close,
        ]
    );
}

#[test]
fn would_block_is_retried() {
    assert_eq!(
        step(Role::Client, Phase::Sending, Event::WouldBlock),
        Transition { next: Phase::Sending, action: Action::AwaitWritable }
    );
    assert_eq!(
        step(Role::Server, Phase::Receiving, Event::WouldBlock),
        Transition { next: Phase::AwaitingPeer, action: Action::AwaitReadable }
    );
    let (phase, _) = run(
        Role::Client,
        &[
            Event::Started,
            Event::Connected,
            Event::Ready,
            Event::WouldBlock,
            Event::Ready,
            Event::WouldBlock,
            Event::Ready,
            Event::Transferred,
            Event::Ready,
            Event::WouldBlock,
            Event::Ready,
            Event::Transferred,
            Event::Processed,
        ],
    );
    assert_eq!(phase, Phase::Done);
}

#[test]
fn a_fault_fails_every_running_phase() {
    for role in [Role::Client, Role::Server] {
        for phase in [
            Phase::Idle,
            Phase::Connecting,
            Phase::Sending,
            Phase::AwaitingPeer,
            Phase::Receiving,
        ] {
            assert_eq!(
                step(role, phase, Event::Fault),
                Transition { next: Phase::Failed, action: Action::Abort }
            );
        }
    }
}

#[test]
fn an_unexpected_event_fails_the_exchange() {
    assert_eq!(
        step(Role::Client, Phase::Idle, Event::Transferred),
        Transition { next: Phase::Failed, action: Action::Abort }
    );
    assert_eq!(
        step(Role::Server, Phase::AwaitingPeer, Event::Processed),
        Transition { next: Phase::Failed, action: Action::Abort }
    );
}

#[test]
fn terminal_phases_absorb() {
    let events = [
        Event::Started,
        Event::Connected,
        Event::Ready,
        Event::WouldBlock,
        Event::Transferred,
        Event::Processed,
        Event::Fault,
    ];
    for role in [Role::Client, Role::Server] {
        for phase in [Phase::Done, Phase::Failed] {
            assert!(phase.terminal());
            for event in events {
                assert_eq!(step(role, phase, event), Transition { next: phase, action: Action::Rest });
            }
        }
    }
    assert!(!Phase::Idle.terminal());
    assert!(!Phase::Sending.terminal());
}
