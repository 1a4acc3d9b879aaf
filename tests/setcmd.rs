use std::collections::HashSet;

use ipset_daemon::protocol::MemberOp;
use ipset_daemon::setcmd::{
    create_failure, create_set_args, decimal_bytes, join_with_spaces, launch_failure,
    lookup_result, member_args, neighbour_args, SetSpec,
};

fn users() -> SetSpec {
    SetSpec { name: b"registered_users".to_vec(), kind: b"hash:mac".to_vec(), maxelem: 65536 }
}

fn words(ws: &[&[u8]]) -> Vec<Vec<u8>> {
    ws.iter().map(|w| w.to_vec()).collect()
}

#[test]
fn decimal_rendering() {
    assert_eq!(decimal_bytes(0), b"0".to_vec());
    assert_eq!(decimal_bytes(65536), b"65536".to_vec());
    assert_eq!(decimal_bytes(u32::MAX), b"4294967295".to_vec());
}

#[test]
fn create_arguments() {
    assert_eq!(
        create_set_args(&users()),
        words(&[b"create", b"-exist", b"registered_users", b"hash:mac", b"maxelem", b"65536"])
    );
}

#[test]
fn member_arguments() {
    assert_eq!(
        member_args(MemberOp::Add, &users(), b"00:11:22:33:44:55"),
        words(&[b"add", b"-exist", b"registered_users", b"00:11:22:33:44:55"])
    );
    assert_eq!(
        member_args(MemberOp::Remove, &users(), b"00:11:22:33:44:55"),
        words(&[b"del", b"-exist", b"registered_users", b"00:11:22:33:44:55"])
    );
}

#[test]
fn neighbour_arguments() {
    assert_eq!(neighbour_args(b"10.0.0.1"), words(&[b"n", b"show", b"to", b"10.0.0.1"]));
}

#[test]
fn joins_with_single_spaces() {
    assert_eq!(join_with_spaces(&words(&[b"a", b"bc", b"d"])), b"a bc d".to_vec());
    assert_eq!(join_with_spaces(&Vec::new()), Vec::<u8>::new());
}

#[test]
fn failure_messages() {
    let args = words(&[b"add", b"-exist", b"s", b"m"]);
    assert_eq!(
        launch_failure(b"/sbin/ipset", &args, b"no such set\n"),
        b"Failed to launch \"/sbin/ipset add -exist s m\": no such set".to_vec()
    );
    assert_eq!(
        create_failure(b"s", b"permission denied \n"),
        b"Failed to create s in ipset: permission denied".to_vec()
    );
}

#[test]
fn lookup_takes_first_mac_of_output() {
    let out = b"10.0.0.1 dev eth0 lladdr aa:bb:cc:dd:ee:ff REACHABLE\n".to_vec();
    assert_eq!(lookup_result(b"10.0.0.1", &Ok(out)), Ok(b"aa:bb:cc:dd:ee:ff".to_vec()));
}

#[test]
fn lookup_without_mac_fails() {
    assert_eq!(
        lookup_result(b"10.0.0.1", &Ok(b"10.0.0.1 dev eth0 FAILED\n".to_vec())),
        Err(b"Failed to launch \"ip n show to 10.0.0.1\": MAC cannot be found".to_vec())
    );
}

#[test]
fn lookup_tool_failure_carries_detail() {
    assert_eq!(
        lookup_result(b"::1", &Err(b"Device not found\n".to_vec())),
        Err(b"Failed to launch \"ip n show to ::1\": Device not found".to_vec())
    );
}

/// A stand-in for the set tool: `-exist` turns "already there" and
/// "already gone" into success.
fn run_stub(set: &mut HashSet<Vec<u8>>, args: &[Vec<u8>]) -> Result<(), String> {
    let tolerant = args.iter().any(|a| a.as_slice() == b"-exist");
    let mac = args.last().unwrap().clone();
    match args[0].as_slice() {
        b"add" => {
            if !set.insert(mac) && !tolerant {
                return Err("already added".to_string());
            }
            Ok(())
        }
        b"del" => {
            if !set.remove(&mac) && !tolerant {
                return Err("not in set".to_string());
            }
            Ok(())
        }
        _ => Err("unknown command".to_string()),
    }
}

#[test]
fn add_remove_add_never_errors() {
    let mut set = HashSet::new();
    let mac = b"00:11:22:33:44:55";
    for op in [MemberOp::Add, MemberOp::Remove, MemberOp::Remove, MemberOp::Add, MemberOp::Add] {
        assert_eq!(run_stub(&mut set, &member_args(op, &users(), mac)), Ok(()));
    }
    assert!(set.contains(&mac.to_vec()));
}
