use daemon_session::frames::{parse_frame, ControlFrame};

#[test]
fn data_frame_body_is_exact_bytes() {
    let r = parse_frame(&b"data|ls\n".to_vec());
    match r {
        Some(ControlFrame::Data(b)) => assert_eq!(b, b"ls\n".to_vec()),
        _ => panic!("expected a data frame"),
    }
}

#[test]
fn body_may_contain_separators() {
    // Only the first separator splits: the rest of the message is body.
    let r = parse_frame(&b"data|a|b|c".to_vec());
    match r {
        Some(ControlFrame::Data(b)) => assert_eq!(b, b"a|b|c".to_vec()),
        _ => panic!("expected a data frame"),
    }
}

#[test]
fn end_tunnel_frame_is_the_sentinel() {
    assert!(matches!(parse_frame(&b"END_TUNNEL|".to_vec()), Some(ControlFrame::EndTunnel)));
}

#[test]
fn end_tunnel_body_is_discarded() {
    assert!(matches!(
        parse_frame(&b"END_TUNNEL|ignored".to_vec()),
        Some(ControlFrame::EndTunnel)
    ));
}

#[test]
fn end_tunnel_must_match_exactly() {
    // A tag that merely starts with the sentinel is an ordinary data tag.
    let r = parse_frame(&b"END_TUNNELX|y".to_vec());
    match r {
        Some(ControlFrame::Data(b)) => assert_eq!(b, b"y".to_vec()),
        _ => panic!("expected a data frame"),
    }
}

#[test]
fn empty_tag_is_a_data_frame() {
    let r = parse_frame(&b"|x".to_vec());
    match r {
        Some(ControlFrame::Data(b)) => assert_eq!(b, b"x".to_vec()),
        _ => panic!("expected a data frame"),
    }
}

#[test]
fn empty_body_is_allowed() {
    let r = parse_frame(&b"data|".to_vec());
    match r {
        Some(ControlFrame::Data(b)) => assert!(b.is_empty()),
        _ => panic!("expected a data frame"),
    }
}

#[test]
fn message_without_separator_is_no_frame() {
    assert!(parse_frame(&b"END_TUNNEL".to_vec()).is_none());
    assert!(parse_frame(&b"".to_vec()).is_none());
    assert!(parse_frame(&b"hello".to_vec()).is_none());
}
