use fifo_channel::endpoint::{Action, Endpoint, ErrorClass, Event, Phase, Role, BACKOFF_MS, NODE_MODE};
use fifo_channel::frame::{decode_header, encode_frame};

fn open(delay_ms: u64) -> Action {
    Action::Open { delay_ms }
}

#[test]
fn constants() {
    assert_eq!(BACKOFF_MS, 50);
    assert_eq!(NODE_MODE, 0o666);
}

#[test]
fn new_endpoint_is_closed() {
    let e = Endpoint::new(Role::Receiver);
    assert_eq!(e.phase, Phase::Closed);
    assert_eq!(e.role, Role::Receiver);
    assert!(!e.resume);
}

#[test]
fn sender_waits_for_a_receiver() {
    let mut e = Endpoint::new(Role::Sender);
    assert_eq!(e.begin(), open(0));
    for _ in 0..100 {
        assert_eq!(e.step(Event::OpenFailed(ErrorClass::NoReceiver)), open(BACKOFF_MS));
        assert_eq!(e.phase, Phase::Opening);
    }
    assert_eq!(e.step(Event::Opened), Action::Ready);
    assert_eq!(e.phase, Phase::Idle);
}

#[test]
fn both_roles_create_a_missing_node() {
    for role in [Role::Sender, Role::Receiver] {
        let mut e = Endpoint::new(role);
        assert_eq!(e.begin(), open(0));
        assert_eq!(e.step(Event::OpenFailed(ErrorClass::MissingNode)), Action::CreateNode);
        assert_eq!(e.phase, Phase::Creating);
        assert_eq!(e.step(Event::NodeCreated), open(0));
        assert_eq!(e.step(Event::Opened), Action::Ready);
    }
}

#[test]
fn node_created_by_another_endpoint_is_accepted() {
    let mut e = Endpoint::new(Role::Receiver);
    e.begin();
    e.step(Event::OpenFailed(ErrorClass::MissingNode));
    assert_eq!(e.step(Event::CreateFailed(ErrorClass::NodeExists)), open(0));
    assert_eq!(e.step(Event::Opened), Action::Ready);
}

#[test]
fn other_creation_failure_is_fatal() {
    let mut e = Endpoint::new(Role::Sender);
    e.begin();
    e.step(Event::OpenFailed(ErrorClass::MissingNode));
    assert_eq!(e.step(Event::CreateFailed(ErrorClass::Other)), Action::Fail);
    assert_eq!(e.phase, Phase::Failed);
    assert_eq!(e.begin(), Action::Fail);
}

#[test]
fn other_open_failure_is_fatal() {
    let mut e = Endpoint::new(Role::Sender);
    e.begin();
    assert_eq!(e.step(Event::OpenFailed(ErrorClass::Other)), Action::Fail);
}

#[test]
fn receiver_does_not_wait_for_a_writer_to_open() {
    let mut e = Endpoint::new(Role::Receiver);
    e.begin();
    assert_eq!(e.step(Event::OpenFailed(ErrorClass::NoReceiver)), Action::Fail);
}

#[test]
fn send_recovers_from_a_broken_pipe() {
    let mut e = Endpoint::new(Role::Sender);
    e.begin();
    e.step(Event::Opened);
    assert_eq!(e.begin(), Action::WriteFrame);
    assert_eq!(e.step(Event::TransferFailed(ErrorClass::BrokenPipe)), open(0));
    assert!(e.resume);
    assert_eq!(e.step(Event::OpenFailed(ErrorClass::NoReceiver)), open(BACKOFF_MS));
    assert_eq!(e.step(Event::Opened), Action::WriteFrame);
    assert!(!e.resume);
    assert_eq!(e.step(Event::Transferred), Action::Ready);
    assert_eq!(e.phase, Phase::Idle);
}

#[test]
fn send_fails_on_other_write_errors() {
    let mut e = Endpoint::new(Role::Sender);
    e.begin();
    e.step(Event::Opened);
    e.begin();
    assert_eq!(e.step(Event::TransferFailed(ErrorClass::Other)), Action::Fail);
}

#[test]
fn receive_recovers_from_a_closed_writer() {
    let mut e = Endpoint::new(Role::Receiver);
    e.begin();
    e.step(Event::Opened);
    assert_eq!(e.begin(), Action::ReadHeader);
    for _ in 0..3 {
        assert_eq!(e.step(Event::TransferFailed(ErrorClass::StreamClosed)), open(0));
        assert_eq!(e.step(Event::Opened), Action::ReadHeader);
    }
    assert_eq!(e.step(Event::Transferred), Action::ReadPayload);
    assert_eq!(e.step(Event::Transferred), Action::Ready);
}

#[test]
fn payload_failures_are_not_retried() {
    let mut e = Endpoint::new(Role::Receiver);
    e.begin();
    e.step(Event::Opened);
    e.begin();
    e.step(Event::Transferred);
    assert_eq!(e.step(Event::TransferFailed(ErrorClass::StreamClosed)), Action::Fail);
}

#[test]
fn unexpected_event_is_fatal() {
    let mut e = Endpoint::new(Role::Sender);
    e.begin();
    assert_eq!(e.step(Event::Transferred), Action::Fail);
    let mut idle = Endpoint::new(Role::Receiver);
    idle.begin();
    idle.step(Event::Opened);
    assert_eq!(idle.step(Event::Opened), Action::Fail);
}

#[test]
fn abandoned_operations_start_over() {
    let mut e = Endpoint::new(Role::Receiver);
    e.begin();
    e.step(Event::Opened);
    e.begin();
    assert_eq!(e.begin(), Action::ReadHeader);
    e.step(Event::TransferFailed(ErrorClass::StreamClosed));
    assert_eq!(e.begin(), open(0));
    assert!(e.resume);
    assert_eq!(e.step(Event::Opened), Action::ReadHeader);
    e.step(Event::Transferred);
    assert_eq!(e.begin(), Action::Fail);
}

#[test]
fn hello_scenario() {
    let mut receiver = Endpoint::new(Role::Receiver);
    assert_eq!(receiver.begin(), open(0));
    assert_eq!(receiver.step(Event::OpenFailed(ErrorClass::MissingNode)), Action::CreateNode);
    assert_eq!(receiver.step(Event::NodeCreated), open(0));
    assert_eq!(receiver.step(Event::Opened), Action::Ready);

    let mut sender = Endpoint::new(Role::Sender);
    assert_eq!(sender.begin(), open(0));
    assert_eq!(sender.step(Event::Opened), Action::Ready);

    assert_eq!(sender.begin(), Action::WriteFrame);
    let wire = encode_frame(b"hello");
    assert_eq!(sender.step(Event::Transferred), Action::Ready);

    let width = std::mem::size_of::<usize>();
    assert_eq!(receiver.begin(), Action::ReadHeader);
    assert_eq!(receiver.step(Event::Transferred), Action::ReadPayload);
    let n = decode_header(&wire[..width]);
    assert_eq!(n, 5);
    let payload = wire[width..width + n].to_vec();
    assert_eq!(receiver.step(Event::Transferred), Action::Ready);
    assert_eq!(payload, b"hello".to_vec());
}
