use anvel::lan::add_peer;
use anvel::lan::discover_request;
use anvel::lan::encode_transfer;
use anvel::lan::is_discover_request;
use anvel::lan::make_peer;
use anvel::lan::parse_peer_reply;
use anvel::lan::peer_reply;
use anvel::lan::recv_start;
use anvel::lan::recv_step;
use anvel::lan::transfer_name;
use anvel::lan::RecvState;
use anvel::lan::LAN_DISCOVER_PORT;
use anvel::lan::LAN_TRANSFER_PORT;

fn receive_all(frame: &[u8]) -> RecvState {
    let mut state = recv_start();
    let mut pos = 0usize;
    while !state.is_finished() {
        let n = state.bytes_wanted();
        assert!(pos + n <= frame.len(), "frame too short");
        let chunk = frame[pos..pos + n].to_vec();
        pos += n;
        state = recv_step(state, chunk);
    }
    state
}

#[test]
fn ports() {
    assert_eq!(LAN_DISCOVER_PORT, 44444);
    assert_eq!(LAN_TRANSFER_PORT, 44445);
}

#[test]
fn discovery_messages() {
    assert_eq!(discover_request(), b"ANVEL_DISCOVER".to_vec());
    assert_eq!(peer_reply("desk"), b"ANVEL_PEER:desk".to_vec());
    let mut buf = [0u8; 256];
    buf[..14].copy_from_slice(b"ANVEL_DISCOVER");
    assert!(is_discover_request(&buf));
    let mut padded = vec![0u8; 3];
    padded.extend_from_slice(b"ANVEL_DISCOVER and more");
    padded.extend_from_slice(&[0u8; 10]);
    assert!(is_discover_request(&padded));
    assert!(!is_discover_request(b"ANVEL_PEER:desk"));
    assert!(!is_discover_request(&[0u8; 256]));
    assert!(!is_discover_request(b"xANVEL_DISCOVER"));
}

#[test]
fn peer_reply_parsing() {
    assert_eq!(parse_peer_reply(b"ANVEL_PEER:desk"), Some("desk".to_string()));
    assert_eq!(parse_peer_reply(b"ANVEL_PEER:  my laptop \n"), Some("my laptop".to_string()));
    assert_eq!(parse_peer_reply(b"ANVEL_PEER:"), Some(String::new()));
    assert_eq!(parse_peer_reply(b"ANVEL_DISCOVER"), None);
    assert_eq!(parse_peer_reply(b"anvel_peer:x"), None);
    assert_eq!(parse_peer_reply(&peer_reply("host-1")), Some("host-1".to_string()));
}

#[test]
fn peers_are_kept_once_per_address() {
    let mut peers = Vec::new();
    add_peer(&mut peers, make_peer("a", "192.168.1.2"));
    add_peer(&mut peers, make_peer("b", "192.168.1.3"));
    add_peer(&mut peers, make_peer("a-again", "192.168.1.2"));
    let shown: Vec<&str> = peers.iter().map(|p| p.display.as_str()).collect();
    assert_eq!(shown, vec!["a (192.168.1.2)", "b (192.168.1.3)"]);
}

#[test]
fn frame_layout() {
    let f = encode_transfer("ab", &[9, 8, 7]);
    assert_eq!(f, vec![2, 0, 0, 0, b'a', b'b', 3, 0, 0, 0, 0, 0, 0, 0, 9, 8, 7]);
    let f = encode_transfer("", &[]);
    assert_eq!(f, vec![0; 12]);
}

#[test]
fn frame_round_trip() {
    let data: Vec<u8> = (0..1000u32).map(|i| (i * 7 % 256) as u8).collect();
    match receive_all(&encode_transfer("notes ✓.txt", &data)) {
        RecvState::Done { name, data: got } => {
            assert_eq!(name, "notes ✓.txt");
            assert_eq!(got, data);
        },
        other => panic!("unexpected {:?}", other),
    }
    match receive_all(&encode_transfer("", &[])) {
        RecvState::Done { name, data } => {
            assert_eq!(name, "");
            assert!(data.is_empty());
        },
        other => panic!("unexpected {:?}", other),
    }
}

#[test]
fn receiver_refuses_long_names_and_huge_files() {
    let mut frame = vec![0x01, 0x10, 0, 0]; // 4097
    frame.extend(vec![b'x'; 10]);
    match receive_all(&frame) {
        RecvState::Failed { reason } => assert_eq!(reason, "Malformed packet: name too long"),
        other => panic!("unexpected {:?}", other),
    }
    let mut frame = vec![1, 0, 0, 0, b'a'];
    frame.extend_from_slice(&(2147483649u64).to_le_bytes());
    match receive_all(&frame) {
        RecvState::Failed { reason } => assert_eq!(reason, "File too large (>2 GB)"),
        other => panic!("unexpected {:?}", other),
    }
    // exactly 4096 bytes of name are accepted
    let name = "n".repeat(4096);
    match receive_all(&encode_transfer(&name, b"z")) {
        RecvState::Done { name: got, .. } => assert_eq!(got, name),
        other => panic!("unexpected {:?}", other),
    }
}

#[test]
fn receiver_replaces_invalid_utf8_in_names() {
    let frame = vec![2, 0, 0, 0, 0xff, b'a', 0, 0, 0, 0, 0, 0, 0, 0];
    match receive_all(&frame) {
        RecvState::Done { name, .. } => assert_eq!(name, "\u{fffd}a"),
        other => panic!("unexpected {:?}", other),
    }
}

#[test]
fn transfer_names() {
    assert_eq!(transfer_name("/home/u/photo.jpg"), "photo.jpg");
    assert_eq!(transfer_name("/"), "");
}

#[test]
fn peer_reply_trims_unicode_white_space() {
    assert_eq!(
        parse_peer_reply("ANVEL_PEER:\u{3000}\u{a0}host\u{2009}\t\r\n".as_bytes()),
        Some("host".to_string())
    );
    assert_eq!(parse_peer_reply("ANVEL_PEER:a b\u{200b}".as_bytes()), Some("a b\u{200b}".to_string()));
}

#[test]
fn finished_transfer_is_saved_under_its_name() {
    let frame = encode_transfer("a.txt", b"hi");
    let saved = anvel::lan::receive_outcome(receive_all(&frame), "/home/u").unwrap();
    assert_eq!(saved.name, "a.txt");
    assert_eq!(saved.dest, "/home/u/a.txt");
    assert_eq!(saved.data, b"hi".to_vec());
    let mut long = Vec::new();
    long.extend_from_slice(&5000u32.to_le_bytes());
    match anvel::lan::receive_outcome(receive_all(&long), "/home/u") {
        Err(e) => assert_eq!(e, "Malformed packet: name too long"),
        Ok(_) => panic!("a long name must be refused"),
    }
}
