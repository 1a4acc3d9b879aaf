use vstd::prelude::*;

use crate::bytes::{append_bytes, sub_bytes};
use crate::framing::{trim_end, trim_end_bytes};
use crate::mac::{find_mac, first_mac};

verus! {

pub const ACTION_ADD: u8 = 97;

pub const ACTION_DELETE: u8 = 100;

pub const ACTION_LOOKUP: u8 = 109;

pub const SPACE: u8 = 32;

/// Which change a request asks of the set.
#[derive(Clone, Copy, Debug, PartialEq, Eq, Structural)]
pub enum MemberOp {
    Add,
    Remove,
}

/// What to do next with one request line.
#[derive(Debug, PartialEq, Eq)]
pub enum Step {
    /// Write these bytes back; the request is done.
    Reply(Vec<u8>),
    /// Apply this change for this MAC to the set, then reply with
    /// [`reply_to_member`].
    Member(MemberOp, Vec<u8>),
    /// Find out whether this argument is an IPv4 or IPv6 literal, then go on
    /// with [`after_ip_check`].
    CheckIp(Vec<u8>),
    /// Look up the MAC address of this IP, then reply with
    /// [`reply_to_lookup`].
    Lookup(Vec<u8>),
}

pub ghost enum StepModel {
    Reply(Seq<u8>),
    Member(MemberOp, Seq<u8>),
    CheckIp(Seq<u8>),
    Lookup(Seq<u8>),
}

impl View for Step {
    type V = StepModel;

    open spec fn view(&self) -> StepModel {
        match self {
            Step::Reply(r) => StepModel::Reply(r@),
            Step::Member(op, m) => StepModel::Member(*op, m@),
            Step::CheckIp(a) => StepModel::CheckIp(a@),
            Step::Lookup(a) => StepModel::Lookup(a@),
        }
    }
}

/// `s` without its leading spaces.
pub open spec fn skip_spaces(s: Seq<u8>) -> Seq<u8>
    decreases s.len(),
{
    if s.len() > 0 && s[0] == SPACE {
        skip_spaces(s.drop_first())
    } else {
        s
    }
}

/// What follows the action byte of a line and the spaces after it.
pub open spec fn argument_of(line: Seq<u8>) -> Seq<u8> {
    skip_spaces(line.drop_first())
}

pub open spec fn crlf() -> Seq<u8> {
    seq![13u8, 10u8]
}

/// `0\r\n`
pub open spec fn ok_bytes() -> Seq<u8> {
    seq![48u8] + crlf()
}

/// `0 <value>\r\n`
pub open spec fn value_bytes(v: Seq<u8>) -> Seq<u8> {
    seq![48u8, 32u8] + v + crlf()
}

/// `1 <message>\r\n`, the message without its trailing blanks.
pub open spec fn error_bytes(msg: Seq<u8>) -> Seq<u8> {
    seq![49u8, 32u8] + trim_end(msg) + crlf()
}

/// `Not an IP address`
pub open spec fn not_ip_message() -> Seq<u8> {
    seq![78u8, 111, 116, 32, 97, 110, 32, 73, 80, 32, 97, 100, 100, 114, 101, 115, 115]
}

/// `": Request doesn't respect the protocol`
pub open spec fn bad_request_suffix() -> Seq<u8> {
    seq![
        34u8, 58, 32, 82, 101, 113, 117, 101, 115, 116, 32, 100, 111, 101, 115, 110, 39, 116,
        32, 114, 101, 115, 112, 101, 99, 116, 32, 116, 104, 101, 32, 112, 114, 111, 116, 111,
        99, 111, 108,
    ]
}

/// `1 "<line>": Request doesn't respect the protocol\r\n`
pub open spec fn bad_request_bytes(line: Seq<u8>) -> Seq<u8> {
    error_bytes(seq![34u8] + line + bad_request_suffix())
}

/// The first step for a request line.
pub open spec fn step_of_line(line: Seq<u8>) -> StepModel {
    if line.len() == 0 {
        StepModel::Reply(bad_request_bytes(line))
    } else if line[0] == ACTION_ADD || line[0] == ACTION_DELETE {
        let op = if line[0] == ACTION_ADD {
            MemberOp::Add
        } else {
            MemberOp::Remove
        };
        match first_mac(argument_of(line)) {
            Some(m) => StepModel::Member(op, m),
            None => StepModel::Reply(bad_request_bytes(line)),
        }
    } else if line[0] == ACTION_LOOKUP {
        StepModel::CheckIp(argument_of(line))
    } else {
        StepModel::Reply(bad_request_bytes(line))
    }
}

/// The step after the argument of a lookup was checked for an IP literal.
pub open spec fn step_after_check(arg: Seq<u8>, is_ip: bool) -> StepModel {
    if is_ip {
        StepModel::Lookup(arg)
    } else {
        StepModel::Reply(error_bytes(not_ip_message()))
    }
}

/// The reply once the set was changed, or failed to be.
pub open spec fn member_reply_bytes(r: Result<(), Vec<u8>>) -> Seq<u8> {
    match r {
        Ok(_) => ok_bytes(),
        Err(msg) => error_bytes(msg@),
    }
}

/// The reply once a MAC address was found for an IP, or not.
pub open spec fn lookup_reply_bytes(r: Result<Vec<u8>, Vec<u8>>) -> Seq<u8> {
    match r {
        Ok(mac) => value_bytes(mac@),
        Err(msg) => error_bytes(msg@),
    }
}

fn crlf_vec() -> (r: Vec<u8>)
    ensures
        r@ == crlf(),
{
    let mut r: Vec<u8> = Vec::new();
    r.push(13);
    r.push(10);
    assert(r@ =~= crlf());
    r
}

/// `0\r\n`
pub fn ok_reply() -> (r: Vec<u8>)
    ensures
        r@ == ok_bytes(),
{
    let mut r: Vec<u8> = Vec::new();
    r.push(48);
    let tail = crlf_vec();
    append_bytes(&mut r, tail.as_slice());
    assert(r@ =~= ok_bytes());
    r
}

/// `0 <value>\r\n`
pub fn value_reply(v: &[u8]) -> (r: Vec<u8>)
    ensures
        r@ == value_bytes(v@),
{
    let mut r: Vec<u8> = Vec::new();
    r.push(48);
    r.push(32);
    append_bytes(&mut r, v);
    let tail = crlf_vec();
    append_bytes(&mut r, tail.as_slice());
    assert(r@ =~= value_bytes(v@));
    r
}

/// `1 <message>\r\n`, the message without its trailing blanks.
pub fn error_reply(msg: &[u8]) -> (r: Vec<u8>)
    ensures
        r@ == error_bytes(msg@),
{
    let mut r: Vec<u8> = Vec::new();
    r.push(49);
    r.push(32);
    let trimmed = trim_end_bytes(msg);
    append_bytes(&mut r, trimmed.as_slice());
    let tail = crlf_vec();
    append_bytes(&mut r, tail.as_slice());
    assert(r@ =~= error_bytes(msg@));
    r
}

/// `1 Not an IP address\r\n`
pub fn not_ip_reply() -> (r: Vec<u8>)
    ensures
        r@ == error_bytes(not_ip_message()),
{
    let msg: Vec<u8> = vec![78u8, 111, 116, 32, 97, 110, 32, 73, 80, 32, 97, 100, 100, 114, 101, 115, 115];
    assert(msg@ =~= not_ip_message());
    error_reply(msg.as_slice())
}

/// `1 "<line>": Request doesn't respect the protocol\r\n`
pub fn bad_request_reply(line: &[u8]) -> (r: Vec<u8>)
    ensures
        r@ == bad_request_bytes(line@),
{
    let mut msg: Vec<u8> = Vec::new();
    msg.push(34);
    append_bytes(&mut msg, line);
    let suffix: Vec<u8> = vec![
        34u8, 58, 32, 82, 101, 113, 117, 101, 115, 116, 32, 100, 111, 101, 115, 110, 39, 116,
        32, 114, 101, 115, 112, 101, 99, 116, 32, 116, 104, 101, 32, 112, 114, 111, 116, 111,
        99, 111, 108,
    ];
    assert(suffix@ =~= bad_request_suffix());
    append_bytes(&mut msg, suffix.as_slice());
    assert(msg@ =~= seq![34u8] + line@ + bad_request_suffix());
    error_reply(msg.as_slice())
}

/// The index of the first byte of `line` from `start` on that is not a space.
fn skip_spaces_from(line: &[u8], start: usize) -> (i: usize)
    requires
        start <= line.len(),
    ensures
        start <= i <= line.len(),
        line@.subrange(i as int, line.len() as int) == skip_spaces(
            line@.subrange(start as int, line.len() as int),
        ),
{
    let mut i: usize = start;
    while i < line.len() && line[i] == SPACE
        invariant
            start <= i <= line.len(),
            skip_spaces(line@.subrange(i as int, line.len() as int)) == skip_spaces(
                line@.subrange(start as int, line.len() as int),
            ),
        decreases line.len() - i,
    {
        assert(line@.subrange(i as int, line.len() as int).drop_first() =~= line@.subrange(
            i + 1,
            line.len() as int,
        ));
        i = i + 1;
    }
    i
}

/// Reads one request line, `<action><spaces><argument>`, and says what to
/// do with it: `a <mac>` adds and `d <mac>` removes the first MAC literal of
/// the argument, `m <ip>` looks up the MAC of an IP; anything else is
/// answered as a bad request.
pub fn dispatch(line: &[u8]) -> (s: Step)
    ensures
        s@ == step_of_line(line@),
{
    if line.len() == 0 {
        return Step::Reply(bad_request_reply(line));
    }
    let action = line[0];
    let start = skip_spaces_from(line, 1);
    assert(line@.subrange(1, line.len() as int) =~= line@.drop_first());
    let arg = sub_bytes(line, start, line.len());
    if action == ACTION_ADD || action == ACTION_DELETE {
        let op = if action == ACTION_ADD {
            MemberOp::Add
        } else {
            MemberOp::Remove
        };
        match find_mac(arg.as_slice()) {
            Some(m) => Step::Member(op, m),
            None => Step::Reply(bad_request_reply(line)),
        }
    } else if action == ACTION_LOOKUP {
        Step::CheckIp(arg)
    } else {
        Step::Reply(bad_request_reply(line))
    }
}

/// Goes on with a lookup once its argument was checked: a valid IP literal
/// is looked up, anything else is answered `1 Not an IP address`.
pub fn after_ip_check(arg: Vec<u8>, is_ip: bool) -> (s: Step)
    ensures
        s@ == step_after_check(arg@, is_ip),
{
    if is_ip {
        Step::Lookup(arg)
    } else {
        Step::Reply(not_ip_reply())
    }
}

/// The reply to an add or remove request, from what the set said.
pub fn reply_to_member(r: &Result<(), Vec<u8>>) -> (out: Vec<u8>)
    ensures
        out@ == member_reply_bytes(*r),
{
    match r {
        Ok(_) => ok_reply(),
        Err(msg) => error_reply(msg.as_slice()),
    }
}

/// The reply to a lookup request, from what the lookup found.
pub fn reply_to_lookup(r: &Result<Vec<u8>, Vec<u8>>) -> (out: Vec<u8>)
    ensures
        out@ == lookup_reply_bytes(*r),
{
    match r {
        Ok(mac) => value_reply(mac.as_slice()),
        Err(msg) => error_reply(msg.as_slice()),
    }
}

/// A line that is empty, whose action is not `a`, `d` or `m`, or whose add
/// or remove argument holds no MAC literal, is answered at once as a bad
/// request, and the answer starts with `1 `.
pub proof fn lemma_bad_request_is_error(line: Seq<u8>)
    requires
        line.len() == 0 || (line[0] != ACTION_ADD && line[0] != ACTION_DELETE && line[0]
            != ACTION_LOOKUP) || ((line[0] == ACTION_ADD || line[0] == ACTION_DELETE) && first_mac(
            argument_of(line),
        ) is None),
    ensures
        step_of_line(line) == StepModel::Reply(bad_request_bytes(line)),
        bad_request_bytes(line).len() >= 2,
        bad_request_bytes(line).take(2) == seq![49u8, 32u8],
{
    assert(bad_request_bytes(line).take(2) =~= seq![49u8, 32u8]);
}

} // verus!
