use peer_handshake::channel::LineBuffer;
use peer_handshake::protocol::{message_for_turn, Direction, HandshakeRun, Role};

#[test]
fn session_full_run_over_in_memory_transport() {
    // Drive both roles against each other, the transport modeled by a line
    // buffer per direction: every scripted line arrives verbatim, both sides
    // take their turns in the fixed order, and both runs succeed.
    let mut init = HandshakeRun::new(Role::Initiator);
    let mut resp = HandshakeRun::new(Role::Responder);
    let mut to_resp = LineBuffer::new();
    let mut to_init = LineBuffer::new();
    let mut init_received: Vec<Vec<u8>> = Vec::new();
    let mut resp_received: Vec<Vec<u8>> = Vec::new();

    while init.is_in_progress() || resp.is_in_progress() {
        if init.next_action() == Some(Direction::Outgoing) {
            to_resp.push_chunk(message_for_turn(init.current_turn()).as_bytes());
            init.record_outcome(true);
        }
        if resp.next_action() == Some(Direction::Incoming) {
            let line = to_resp.take_line().expect("the initiator's line should have arrived");
            resp_received.push(line);
            resp.record_outcome(true);
        }
        if resp.next_action() == Some(Direction::Outgoing) {
            to_init.push_chunk(message_for_turn(resp.current_turn()).as_bytes());
            resp.record_outcome(true);
        }
        if init.next_action() == Some(Direction::Incoming) {
            let line = to_init.take_line().expect("the responder's line should have arrived");
            init_received.push(line);
            init.record_outcome(true);
        }
    }

    assert!(init.is_succeeded());
    assert!(resp.is_succeeded());
    assert_eq!(
        resp_received,
        vec![
            message_for_turn(1).as_bytes().to_vec(),
            message_for_turn(3).as_bytes().to_vec(),
            message_for_turn(5).as_bytes().to_vec(),
        ]
    );
    assert_eq!(
        init_received,
        vec![
            message_for_turn(2).as_bytes().to_vec(),
            message_for_turn(4).as_bytes().to_vec(),
            message_for_turn(6).as_bytes().to_vec(),
        ]
    );
}
