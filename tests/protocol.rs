use ipset_daemon::protocol::{
    after_ip_check, bad_request_reply, dispatch, error_reply, not_ip_reply, ok_reply,
    reply_to_lookup, reply_to_member, value_reply, MemberOp, Step,
};

fn bad(line: &[u8]) -> Vec<u8> {
    let mut r = b"1 \"".to_vec();
    r.extend_from_slice(line);
    r.extend_from_slice(b"\": Request doesn't respect the protocol\r\n");
    r
}

#[test]
fn add_with_succeeding_set_replies_zero() {
    let step = dispatch(b"a 00:11:22:33:44:55");
    assert_eq!(step, Step::Member(MemberOp::Add, b"00:11:22:33:44:55".to_vec()));
    assert_eq!(reply_to_member(&Ok(())), b"0\r\n".to_vec());
}

#[test]
fn delete_takes_mac_after_spaces() {
    let step = dispatch(b"d    0a:1b:2c:3d:4e:5f");
    assert_eq!(step, Step::Member(MemberOp::Remove, b"0a:1b:2c:3d:4e:5f".to_vec()));
}

#[test]
fn add_without_space_is_accepted() {
    let step = dispatch(b"a00:11:22:33:44:55");
    assert_eq!(step, Step::Member(MemberOp::Add, b"00:11:22:33:44:55".to_vec()));
}

#[test]
fn lookup_of_invalid_ip_replies_not_an_ip() {
    let step = dispatch(b"m 300.1.1.1");
    assert_eq!(step, Step::CheckIp(b"300.1.1.1".to_vec()));
    // 300.1.1.1 is no IPv4 literal: an octet exceeds 255
    let next = after_ip_check(b"300.1.1.1".to_vec(), false);
    assert_eq!(next, Step::Reply(b"1 Not an IP address\r\n".to_vec()));
}

#[test]
fn lookup_of_valid_ip_replies_mac() {
    let step = dispatch(b"m 192.168.1.10");
    assert_eq!(step, Step::CheckIp(b"192.168.1.10".to_vec()));
    let next = after_ip_check(b"192.168.1.10".to_vec(), true);
    assert_eq!(next, Step::Lookup(b"192.168.1.10".to_vec()));
    let reply = reply_to_lookup(&Ok(b"aa:bb:cc:dd:ee:ff".to_vec()));
    assert_eq!(reply, b"0 aa:bb:cc:dd:ee:ff\r\n".to_vec());
}

#[test]
fn unknown_action_is_bad_request() {
    let line = b"x 00:11:22:33:44:55";
    let step = dispatch(line);
    assert_eq!(step, Step::Reply(bad(line)));
    match step {
        Step::Reply(r) => assert!(r.starts_with(b"1 ")),
        _ => panic!("expected a reply"),
    }
}

#[test]
fn empty_line_is_bad_request() {
    assert_eq!(dispatch(b""), Step::Reply(b"1 \"\": Request doesn't respect the protocol\r\n".to_vec()));
}

#[test]
fn add_without_mac_is_bad_request() {
    let line = b"a not-a-mac";
    assert_eq!(dispatch(line), Step::Reply(bad(line)));
    let line = b"d";
    assert_eq!(dispatch(line), Step::Reply(bad(line)));
}

#[test]
fn member_failure_replies_message() {
    let reply = reply_to_member(&Err(b"Failed to create users in ipset: boom\n".to_vec()));
    assert_eq!(reply, b"1 Failed to create users in ipset: boom\r\n".to_vec());
}

#[test]
fn lookup_failure_replies_message() {
    let reply = reply_to_lookup(&Err(b"MAC cannot be found".to_vec()));
    assert_eq!(reply, b"1 MAC cannot be found\r\n".to_vec());
}

#[test]
fn replies_are_framed() {
    assert_eq!(ok_reply(), b"0\r\n".to_vec());
    assert_eq!(value_reply(b"v"), b"0 v\r\n".to_vec());
    assert_eq!(error_reply(b"oops \r\n"), b"1 oops\r\n".to_vec());
    assert_eq!(not_ip_reply(), b"1 Not an IP address\r\n".to_vec());
    assert_eq!(bad_request_reply(b"zz"), bad(b"zz"));
}
