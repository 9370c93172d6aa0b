use peer_handshake::protocol::{direction_for, message_for_turn, Direction, HandshakeRun, Role, TURN_COUNT};

#[test]
fn protocol_messages_are_the_fixed_lines() {
    assert_eq!(message_for_turn(1), "1. Hello! Here are my encryption methods.\n");
    assert_eq!(message_for_turn(2), "2. Hello! Here is my public key\n");
    assert_eq!(message_for_turn(3), "3. Here is encrypted secret-key.\n");
    assert_eq!(message_for_turn(4), "4. Got secret-key.\n");
    assert_eq!(message_for_turn(5), "5. This is encrypted sample message.\n");
    assert_eq!(message_for_turn(6), "6. Verified sample msg. All OK.\n");
}

#[test]
fn protocol_each_message_is_one_line() {
    for turn in 1..=TURN_COUNT {
        let m = message_for_turn(turn);
        assert!(m.ends_with('\n'));
        assert_eq!(m.bytes().filter(|b| *b == b'\n').count(), 1);
        assert!(m.is_ascii());
    }
}

#[test]
fn protocol_responder_runs_in_fixed_order() {
    // Receive, send, receive, send, receive, send — then done with success.
    let mut run = HandshakeRun::new(Role::Responder);
    let expected = [
        Direction::Incoming,
        Direction::Outgoing,
        Direction::Incoming,
        Direction::Outgoing,
        Direction::Incoming,
        Direction::Outgoing,
    ];
    for (i, want) in expected.iter().enumerate() {
        assert_eq!(run.current_turn(), (i + 1) as u8);
        assert_eq!(run.next_action(), Some(*want));
        run.record_outcome(true);
    }
    assert!(run.is_succeeded());
    assert_eq!(run.next_action(), None);
}

#[test]
fn protocol_initiator_runs_complementary_order() {
    let mut run = HandshakeRun::new(Role::Initiator);
    let expected = [
        Direction::Outgoing,
        Direction::Incoming,
        Direction::Outgoing,
        Direction::Incoming,
        Direction::Outgoing,
        Direction::Incoming,
    ];
    for want in expected.iter() {
        assert_eq!(run.next_action(), Some(*want));
        run.record_outcome(true);
    }
    assert!(run.is_succeeded());
}

#[test]
fn protocol_sides_alternate_each_turn() {
    for turn in 1..=TURN_COUNT {
        let a = direction_for(Role::Initiator, turn);
        let b = direction_for(Role::Responder, turn);
        assert_ne!(a, b);
    }
}

#[test]
fn protocol_failure_mid_handshake_aborts() {
    // The peer closing after turn 3 surfaces as a failed read on turn 4:
    // the run aborts, asks for nothing further and never succeeds.
    let mut run = HandshakeRun::new(Role::Initiator);
    run.record_outcome(true);
    run.record_outcome(true);
    run.record_outcome(true);
    assert!(run.is_in_progress());
    run.record_outcome(false);
    assert!(run.has_failed());
    assert!(!run.is_in_progress());
    assert!(!run.is_succeeded());
    assert_eq!(run.next_action(), None);
    assert_eq!(run.current_turn(), 4);
    // Recording anything further leaves the aborted run as it is.
    run.record_outcome(true);
    assert!(run.has_failed());
    assert_eq!(run.next_action(), None);
}

#[test]
fn protocol_failure_on_first_turn_aborts() {
    let mut run = HandshakeRun::new(Role::Responder);
    run.record_outcome(false);
    assert!(run.has_failed());
    assert_eq!(run.next_action(), None);
}
