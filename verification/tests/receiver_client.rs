use screencaster::frame::{DecodeError, Frame};
use screencaster::receiver::{caster_endpoint, Received, ReceiverClient, ReceiverState};
use screencaster::wire::frame_message;

fn frame() -> Frame {
    Frame::new(1, 2, vec![10, 20, 30, 40, 50, 60, 70, 80]).unwrap()
}

#[test]
fn receiver_starts_by_asking_for_a_length() {
    let client = ReceiverClient::new();
    assert_eq!(client.current_state(), ReceiverState::AwaitingLength);
    assert_eq!(client.wanted(), Some(4));
    assert!(client.is_running());
}

#[test]
fn receiver_reads_length_then_payload() {
    let mut client = ReceiverClient::new();
    let message = frame_message(&frame().encode()).unwrap();
    assert_eq!(client.receive(&message[..4]), Received::Length);
    assert_eq!(client.current_state(), ReceiverState::AwaitingPayload { length: 24 });
    assert_eq!(client.wanted(), Some(24));
    assert_eq!(client.receive(&message[4..]), Received::Frame(frame()));
    assert_eq!(client.current_state(), ReceiverState::AwaitingLength);
    assert_eq!(client.wanted(), Some(4));
}

#[test]
fn receiver_delivers_frames_one_after_another() {
    let mut client = ReceiverClient::new();
    let first = frame();
    let second = Frame::new(1, 1, vec![9, 8, 7, 6]).unwrap();
    let mut stream = frame_message(&first.encode()).unwrap();
    stream.extend_from_slice(&frame_message(&second.encode()).unwrap());
    let mut at = 0;
    let mut delivered = Vec::new();
    while at < stream.len() {
        let count = client.wanted().unwrap();
        match client.receive(&stream[at..at + count]) {
            Received::Frame(f) => delivered.push(f),
            Received::Length => {}
            other => panic!("unexpected {:?}", other),
        }
        at += count;
    }
    assert_eq!(delivered, vec![first, second]);
}

#[test]
fn receiver_stops_on_short_length() {
    let mut client = ReceiverClient::new();
    assert_eq!(client.receive(&[0, 0, 0]), Received::Failed);
    assert_eq!(client.current_state(), ReceiverState::Stopped);
    assert_eq!(client.wanted(), None);
    assert!(!client.is_running());
}

#[test]
fn receiver_stops_on_short_payload() {
    let mut client = ReceiverClient::new();
    assert_eq!(client.receive(&[0, 0, 0, 24]), Received::Length);
    assert_eq!(client.receive(&[1, 2, 3]), Received::Failed);
    assert_eq!(client.current_state(), ReceiverState::Stopped);
}

#[test]
fn receiver_stops_on_sentinel() {
    let mut client = ReceiverClient::new();
    assert_eq!(client.receive(&[0, 0, 0, 1]), Received::Length);
    assert_eq!(client.receive(&[0]), Received::Closed);
    assert_eq!(client.current_state(), ReceiverState::Stopped);
    assert_eq!(client.wanted(), None);
}

#[test]
fn receiver_drops_undecodable_payload_and_goes_on() {
    let mut client = ReceiverClient::new();
    assert_eq!(client.receive(&[0, 0, 0, 1]), Received::Length);
    assert_eq!(client.receive(&[7]), Received::Undecodable(DecodeError::Truncated));
    assert_eq!(client.current_state(), ReceiverState::AwaitingLength);
    assert_eq!(client.receive(&[0, 0, 0, 0]), Received::Length);
    assert_eq!(client.wanted(), Some(0));
    assert_eq!(client.receive(&[]), Received::Undecodable(DecodeError::Truncated));
    assert_eq!(client.wanted(), Some(4));
}

#[test]
fn receiver_reports_wrong_dimensions() {
    let mut client = ReceiverClient::new();
    let payload = vec![2, 0, 0, 0, 2, 0, 0, 0, 4, 0, 0, 0, 0, 0, 0, 0, 1, 2, 3, 4];
    assert_eq!(client.receive(&[0, 0, 0, 20]), Received::Length);
    assert_eq!(client.receive(&payload), Received::Undecodable(DecodeError::DimensionMismatch));
    assert!(client.is_running());
}

#[test]
fn receiver_ignores_reads_after_the_end() {
    let mut client = ReceiverClient::new();
    client.stop();
    assert_eq!(client.current_state(), ReceiverState::Stopped);
    assert_eq!(client.receive(&[0, 0, 0, 4]), Received::Ignored);
    assert_eq!(client.current_state(), ReceiverState::Stopped);
}

#[test]
fn receiver_stops_when_the_read_fails() {
    let mut client = ReceiverClient::new();
    assert_eq!(client.receive(&[0, 0, 0, 9]), Received::Length);
    client.read_failed();
    assert!(!client.is_running());
    assert_eq!(client.wanted(), None);
}

#[test]
fn endpoint_is_host_and_port() {
    assert_eq!(caster_endpoint("192.168.1.20"), "192.168.1.20:8080");
    assert_eq!(caster_endpoint(""), ":8080");
}
