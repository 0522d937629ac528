use yingzi::relay::{relay_outcome, DirOutcome, Direction};

#[test]
fn forward_hands_back_exactly_the_chunk() {
    let mut d = Direction::new();
    let chunk = vec![0x50u8, 0x49, 0x4e, 0x47];
    let out = d.forward_chunk(&chunk);
    assert_eq!(out, chunk);
    assert_eq!(d.bytes_copied, 4);
}

#[test]
fn forward_empty_chunk() {
    let mut d = Direction::new();
    let out = d.forward_chunk(&Vec::new());
    assert!(out.is_empty());
    assert_eq!(d.bytes_copied, 0);
}

#[test]
fn multi_segment_payload_is_exact_and_in_order() {
    let mut d = Direction::new();
    let payload: Vec<u8> = (0..=255u8).cycle().take(10_000).collect();
    let mut received: Vec<u8> = Vec::new();
    for segment in payload.chunks(1234) {
        let out = d.forward_chunk(&segment.to_vec());
        received.extend_from_slice(&out);
    }
    assert_eq!(received, payload);
    assert_eq!(d.bytes_copied, 10_000);
}

#[test]
fn eof_keeps_the_byte_count() {
    let mut d = Direction::new();
    d.forward_chunk(&vec![1, 2, 3]);
    d.finish_eof();
    assert_eq!(d.bytes_copied, 3);
    assert!(!d.is_open());
}

#[test]
fn half_close_keeps_other_direction_relaying() {
    // The client half-closes after sending B1; the upstream's response B2
    // must still come through in full before the session ends.
    let b1 = vec![10u8, 20, 30];
    let b2 = vec![40u8, 50, 60, 70];

    let mut client_to_server = Direction::new();
    let mut server_to_client = Direction::new();

    let sent = client_to_server.forward_chunk(&b1);
    assert_eq!(sent, b1);
    client_to_server.finish_eof();

    assert!(!client_to_server.is_open());
    assert!(server_to_client.is_open());

    let response = server_to_client.forward_chunk(&b2);
    assert_eq!(response, b2);
    server_to_client.finish_eof();

    let outcome = relay_outcome(&client_to_server, &server_to_client);
    assert_eq!(outcome.inbound_to_outbound, DirOutcome::Done(3));
    assert_eq!(outcome.outbound_to_inbound, DirOutcome::Done(4));
}

#[test]
fn one_direction_failing_leaves_the_other_result_intact() {
    let mut client_to_server = Direction::new();
    let mut server_to_client = Direction::new();

    client_to_server.forward_chunk(&vec![1, 2]);
    client_to_server.finish_error();
    server_to_client.forward_chunk(&vec![9]);
    server_to_client.finish_eof();

    let outcome = relay_outcome(&client_to_server, &server_to_client);
    assert_eq!(outcome.inbound_to_outbound, DirOutcome::Failed(2));
    assert_eq!(outcome.outbound_to_inbound, DirOutcome::Done(1));
}

#[test]
fn ping_pong_scenario() {
    // Single-port deployment: the client sends "PING", the upstream echoes
    // "PONG" and closes; the client must receive exactly "PONG" and the
    // session closes cleanly in both directions.
    let mut client_to_server = Direction::new();
    let mut server_to_client = Direction::new();

    let to_upstream = client_to_server.forward_chunk(&b"PING".to_vec());
    assert_eq!(to_upstream, b"PING".to_vec());

    let to_client = server_to_client.forward_chunk(&b"PONG".to_vec());
    assert_eq!(to_client, b"PONG".to_vec());

    server_to_client.finish_eof();
    client_to_server.finish_eof();

    let outcome = relay_outcome(&client_to_server, &server_to_client);
    assert_eq!(outcome.inbound_to_outbound, DirOutcome::Done(4));
    assert_eq!(outcome.outbound_to_inbound, DirOutcome::Done(4));
}
