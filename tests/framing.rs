use ipset_daemon::framing::{split_lines, trim_end_bytes, LineFramer};

#[test]
fn trims_trailing_blanks_only() {
    assert_eq!(trim_end_bytes(b"  a b \t\r\n"), b"  a b".to_vec());
    assert_eq!(trim_end_bytes(b" \r\n"), Vec::<u8>::new());
    assert_eq!(trim_end_bytes(b""), Vec::<u8>::new());
}

#[test]
fn framer_hands_on_line_at_newline() {
    let mut f = LineFramer::new();
    for b in b"a 1:2:3:4:5:6 \r" {
        assert_eq!(f.push(*b), None);
    }
    assert_eq!(f.push(b'\n'), Some(b"a 1:2:3:4:5:6".to_vec()));
    assert_eq!(f.finish(), None);
}

#[test]
fn framer_flushes_unterminated_tail_once() {
    let mut f = LineFramer::new();
    for b in b"m 10.0.0.1  " {
        assert_eq!(f.push(*b), None);
    }
    assert_eq!(f.finish(), Some(b"m 10.0.0.1".to_vec()));
    assert_eq!(f.finish(), None);
}

#[test]
fn last_line_without_newline_is_dispatched() {
    let lines = split_lines(b"a 00:11:22:33:44:55\r\nd 00:11:22:33:44:55");
    assert_eq!(
        lines,
        vec![b"a 00:11:22:33:44:55".to_vec(), b"d 00:11:22:33:44:55".to_vec()]
    );
}

#[test]
fn empty_lines_are_handed_on() {
    let lines = split_lines(b"\n\r\nx\n");
    assert_eq!(lines, vec![Vec::new(), Vec::new(), b"x".to_vec()]);
}

#[test]
fn blank_tail_is_handed_on_as_empty_line() {
    let lines = split_lines(b"x\n  ");
    assert_eq!(lines, vec![b"x".to_vec(), Vec::new()]);
}

#[test]
fn empty_stream_has_no_lines() {
    assert!(split_lines(b"").is_empty());
}
