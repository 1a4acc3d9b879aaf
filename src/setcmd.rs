use vstd::prelude::*;

use crate::bytes::{append_bytes, copy_bytes};
use crate::framing::{byte_lines, trim_end, trim_end_bytes};
use crate::mac::{find_mac, first_mac};
use crate::protocol::MemberOp;

verus! {

/// The set that requests change: its name, its type as the set tool
/// spells it, and the most members it may hold.
pub struct SetSpec {
    pub name: Vec<u8>,
    pub kind: Vec<u8>,
    pub maxelem: u32,
}

/// `create`
pub open spec fn create_word() -> Seq<u8> {
    seq![99u8, 114, 101, 97, 116, 101]
}
/// `-exist`
pub open spec fn exist_flag_word() -> Seq<u8> {
    seq![45u8, 101, 120, 105, 115, 116]
}
/// `maxelem`
pub open spec fn maxelem_word() -> Seq<u8> {
    seq![109u8, 97, 120, 101, 108, 101, 109]
}
/// `add`
pub open spec fn add_word() -> Seq<u8> {
    seq![97u8, 100, 100]
}
/// `del`
pub open spec fn del_word() -> Seq<u8> {
    seq![100u8, 101, 108]
}
/// `n`
pub open spec fn neigh_word() -> Seq<u8> {
    seq![110u8]
}
/// `show`
pub open spec fn show_word() -> Seq<u8> {
    seq![115u8, 104, 111, 119]
}
/// `to`
pub open spec fn to_word() -> Seq<u8> {
    seq![116u8, 111]
}
/// `Failed to launch "`
pub open spec fn launch_prefix_word() -> Seq<u8> {
    seq![70u8, 97, 105, 108, 101, 100, 32, 116, 111, 32, 108, 97, 117, 110, 99, 104, 32, 34]
}
/// `Failed to create `
pub open spec fn create_prefix_word() -> Seq<u8> {
    seq![70u8, 97, 105, 108, 101, 100, 32, 116, 111, 32, 99, 114, 101, 97, 116, 101, 32]
}
/// ` in ipset`
pub open spec fn create_suffix_word() -> Seq<u8> {
    seq![32u8, 105, 110, 32, 105, 112, 115, 101, 116]
}
/// `MAC cannot be found`
pub open spec fn no_mac_word() -> Seq<u8> {
    seq![77u8, 65, 67, 32, 99, 97, 110, 110, 111, 116, 32, 98, 101, 32, 102, 111, 117, 110, 100]
}

/// `ip`
pub open spec fn ip_tool_word() -> Seq<u8> {
    seq![105u8, 112]
}

/// `n` in decimal, most significant digit first.
pub open spec fn decimal(n: nat) -> Seq<u8>
    decreases n,
{
    if n < 10 {
        seq![(48 + n) as u8]
    } else {
        decimal(n / 10).push((48 + n % 10) as u8)
    }
}

/// The words joined with one space between each two.
pub open spec fn join_words(ws: Seq<Seq<u8>>) -> Seq<u8>
    decreases ws.len(),
{
    if ws.len() == 0 {
        Seq::empty()
    } else if ws.len() == 1 {
        ws[0]
    } else {
        join_words(ws.drop_last()) + seq![32u8] + ws.last()
    }
}

/// The set tool's arguments that create the set, and succeed when it exists.
pub open spec fn create_args_of(name: Seq<u8>, kind: Seq<u8>, maxelem: nat) -> Seq<Seq<u8>> {
    seq![create_word(), exist_flag_word(), name, kind, maxelem_word(), decimal(maxelem)]
}

/// The set tool's arguments that add a member or remove it, and succeed
/// when it is already there or already gone.
pub open spec fn member_args_of(op: MemberOp, name: Seq<u8>, mac: Seq<u8>) -> Seq<Seq<u8>> {
    let verb = match op {
        MemberOp::Add => add_word(),
        MemberOp::Remove => del_word(),
    };
    seq![verb, exist_flag_word(), name, mac]
}

/// The `ip` tool's arguments that show the neighbour entries of an address.
pub open spec fn neighbour_args_of(ip: Seq<u8>) -> Seq<Seq<u8>> {
    seq![neigh_word(), show_word(), to_word(), ip]
}

/// `Failed to launch "<tool> <args>": <detail>`, the detail without its
/// trailing blanks.
pub open spec fn launch_failure_bytes(tool: Seq<u8>, args: Seq<Seq<u8>>, detail: Seq<u8>) -> Seq<
    u8,
> {
    launch_prefix_word() + join_words(seq![tool] + args) + seq![34u8, 58, 32] + trim_end(detail)
}

/// `Failed to create <name> in ipset: <detail>`, the detail without its
/// trailing blanks.
pub open spec fn create_failure_bytes(name: Seq<u8>, detail: Seq<u8>) -> Seq<u8> {
    create_prefix_word() + name + create_suffix_word() + seq![58u8, 32] + trim_end(detail)
}

/// What a lookup of `ip` answers, from what the `ip` tool did: on success
/// its output's first MAC literal, else the reason it failed.
pub open spec fn lookup_result_of(ip: Seq<u8>, run: Result<Seq<u8>, Seq<u8>>) -> Result<
    Seq<u8>,
    Seq<u8>,
> {
    match run {
        Ok(out) => match first_mac(out) {
            Some(m) => Ok(m),
            None => Err(launch_failure_bytes(ip_tool_word(), neighbour_args_of(ip), no_mac_word())),
        },
        Err(detail) => Err(launch_failure_bytes(ip_tool_word(), neighbour_args_of(ip), detail)),
    }
}

pub open spec fn bytes_result(r: Result<Vec<u8>, Vec<u8>>) -> Result<Seq<u8>, Seq<u8>> {
    match r {
        Ok(v) => Ok(v@),
        Err(e) => Err(e@),
    }
}

fn create_vec() -> (r: Vec<u8>)
    ensures
        r@ == create_word(),
{
    let r: Vec<u8> = vec![99u8, 114, 101, 97, 116, 101];
    assert(r@ =~= create_word());
    r
}

fn exist_flag_vec() -> (r: Vec<u8>)
    ensures
        r@ == exist_flag_word(),
{
    let r: Vec<u8> = vec![45u8, 101, 120, 105, 115, 116];
    assert(r@ =~= exist_flag_word());
    r
}

fn maxelem_vec() -> (r: Vec<u8>)
    ensures
        r@ == maxelem_word(),
{
    let r: Vec<u8> = vec![109u8, 97, 120, 101, 108, 101, 109];
    assert(r@ =~= maxelem_word());
    r
}

fn add_vec() -> (r: Vec<u8>)
    ensures
        r@ == add_word(),
{
    let r: Vec<u8> = vec![97u8, 100, 100];
    assert(r@ =~= add_word());
    r
}

fn del_vec() -> (r: Vec<u8>)
    ensures
        r@ == del_word(),
{
    let r: Vec<u8> = vec![100u8, 101, 108];
    assert(r@ =~= del_word());
    r
}

fn neigh_vec() -> (r: Vec<u8>)
    ensures
        r@ == neigh_word(),
{
    let r: Vec<u8> = vec![110u8];
    assert(r@ =~= neigh_word());
    r
}

fn show_vec() -> (r: Vec<u8>)
    ensures
        r@ == show_word(),
{
    let r: Vec<u8> = vec![115u8, 104, 111, 119];
    assert(r@ =~= show_word());
    r
}

fn to_vec() -> (r: Vec<u8>)
    ensures
        r@ == to_word(),
{
    let r: Vec<u8> = vec![116u8, 111];
    assert(r@ =~= to_word());
    r
}

fn launch_prefix_vec() -> (r: Vec<u8>)
    ensures
        r@ == launch_prefix_word(),
{
    let r: Vec<u8> = vec![70u8, 97, 105, 108, 101, 100, 32, 116, 111, 32, 108, 97, 117, 110, 99, 104, 32, 34];
    assert(r@ =~= launch_prefix_word());
    r
}

fn create_prefix_vec() -> (r: Vec<u8>)
    ensures
        r@ == create_prefix_word(),
{
    let r: Vec<u8> = vec![70u8, 97, 105, 108, 101, 100, 32, 116, 111, 32, 99, 114, 101, 97, 116, 101, 32];
    assert(r@ =~= create_prefix_word());
    r
}

fn create_suffix_vec() -> (r: Vec<u8>)
    ensures
        r@ == create_suffix_word(),
{
    let r: Vec<u8> = vec![32u8, 105, 110, 32, 105, 112, 115, 101, 116];
    assert(r@ =~= create_suffix_word());
    r
}

fn no_mac_vec() -> (r: Vec<u8>)
    ensures
        r@ == no_mac_word(),
{
    let r: Vec<u8> = vec![77u8, 65, 67, 32, 99, 97, 110, 110, 111, 116, 32, 98, 101, 32, 102, 111, 117, 110, 100];
    assert(r@ =~= no_mac_word());
    r
}

fn ip_tool_vec() -> (r: Vec<u8>)
    ensures
        r@ == ip_tool_word(),
{
    let r: Vec<u8> = vec![105u8, 112];
    assert(r@ =~= ip_tool_word());
    r
}

/// `n` in decimal.
pub fn decimal_bytes(n: u32) -> (r: Vec<u8>)
    ensures
        r@ == decimal(n as nat),
    decreases n,
{
    if n < 10 {
        let r: Vec<u8> = vec![(48 + n) as u8];
        assert(r@ =~= decimal(n as nat));
        r
    } else {
        let mut r = decimal_bytes(n / 10);
        r.push((48 + n % 10) as u8);
        r
    }
}

/// The words joined with one space between each two.
pub fn join_with_spaces(ws: &Vec<Vec<u8>>) -> (r: Vec<u8>)
    ensures
        r@ == join_words(byte_lines(ws@)),
{
    let mut r: Vec<u8> = Vec::new();
    let mut i: usize = 0;
    assert(byte_lines(ws@).take(0) =~= Seq::<Seq<u8>>::empty());
    while i < ws.len()
        invariant
            i <= ws.len(),
            r@ == join_words(byte_lines(ws@).take(i as int)),
        decreases ws.len() - i,
    {
        let ghost next = byte_lines(ws@).take(i + 1);
        assert(next.drop_last() =~= byte_lines(ws@).take(i as int));
        if i > 0 {
            r.push(32);
        }
        append_bytes(&mut r, ws[i].as_slice());
        i = i + 1;
        assert(r@ =~= join_words(next));
    }
    assert(byte_lines(ws@).take(i as int) =~= byte_lines(ws@));
    r
}

/// The set tool's arguments that create `set`, and succeed when it exists.
pub fn create_set_args(set: &SetSpec) -> (r: Vec<Vec<u8>>)
    ensures
        byte_lines(r@) == create_args_of(set.name@, set.kind@, set.maxelem as nat),
{
    let mut r: Vec<Vec<u8>> = Vec::new();
    r.push(create_vec());
    r.push(exist_flag_vec());
    r.push(set.name.clone());
    r.push(set.kind.clone());
    r.push(maxelem_vec());
    r.push(decimal_bytes(set.maxelem));
    assert(byte_lines(r@) =~= create_args_of(set.name@, set.kind@, set.maxelem as nat));
    r
}

/// The set tool's arguments that add `mac` to `set` or remove it from
/// there; both succeed when nothing is left to do.
pub fn member_args(op: MemberOp, set: &SetSpec, mac: &[u8]) -> (r: Vec<Vec<u8>>)
    ensures
        byte_lines(r@) == member_args_of(op, set.name@, mac@),
{
    let mut r: Vec<Vec<u8>> = Vec::new();
    match op {
        MemberOp::Add => r.push(add_vec()),
        MemberOp::Remove => r.push(del_vec()),
    }
    r.push(exist_flag_vec());
    r.push(set.name.clone());
    r.push(copy_bytes(mac));
    assert(byte_lines(r@) =~= member_args_of(op, set.name@, mac@));
    r
}

/// The `ip` tool's arguments that show the neighbour entries of `ip`.
pub fn neighbour_args(ip: &[u8]) -> (r: Vec<Vec<u8>>)
    ensures
        byte_lines(r@) == neighbour_args_of(ip@),
{
    let mut r: Vec<Vec<u8>> = Vec::new();
    r.push(neigh_vec());
    r.push(show_vec());
    r.push(to_vec());
    r.push(copy_bytes(ip));
    assert(byte_lines(r@) =~= neighbour_args_of(ip@));
    r
}

/// `Failed to launch "<tool> <args>": <detail>`
pub fn launch_failure(tool: &[u8], args: &Vec<Vec<u8>>, detail: &[u8]) -> (r: Vec<u8>)
    ensures
        r@ == launch_failure_bytes(tool@, byte_lines(args@), detail@),
{
    let mut words: Vec<Vec<u8>> = Vec::new();
    words.push(copy_bytes(tool));
    let mut i: usize = 0;
    assert(byte_lines(words@) =~= seq![tool@] + byte_lines(args@).take(0));
    while i < args.len()
        invariant
            i <= args.len(),
            byte_lines(words@) =~= seq![tool@] + byte_lines(args@).take(i as int),
        decreases args.len() - i,
    {
        let ghost before = words@;
        words.push(args[i].clone());
        assert(byte_lines(words@) =~= byte_lines(before).push(args@[i as int]@));
        assert(byte_lines(args@).take(i + 1) =~= byte_lines(args@).take(i as int).push(args@[i as int]@));
        i = i + 1;
    }
    assert(byte_lines(args@).take(i as int) =~= byte_lines(args@));
    let mut r = launch_prefix_vec();
    let joined = join_with_spaces(&words);
    append_bytes(&mut r, joined.as_slice());
    r.push(34);
    r.push(58);
    r.push(32);
    let trimmed = trim_end_bytes(detail);
    append_bytes(&mut r, trimmed.as_slice());
    assert(r@ =~= launch_failure_bytes(tool@, byte_lines(args@), detail@));
    r
}

/// `Failed to create <name> in ipset: <detail>`
pub fn create_failure(name: &[u8], detail: &[u8]) -> (r: Vec<u8>)
    ensures
        r@ == create_failure_bytes(name@, detail@),
{
    let mut r = create_prefix_vec();
    append_bytes(&mut r, name);
    let suffix = create_suffix_vec();
    append_bytes(&mut r, suffix.as_slice());
    r.push(58);
    r.push(32);
    let trimmed = trim_end_bytes(detail);
    append_bytes(&mut r, trimmed.as_slice());
    assert(r@ =~= create_failure_bytes(name@, detail@));
    r
}

/// What a lookup of `ip` answers, from what the `ip` tool did: `Ok` with
/// its standard output when it ran and succeeded, `Err` with the reason
/// otherwise. A successful run whose output holds no MAC literal fails too.
pub fn lookup_result(ip: &[u8], run: &Result<Vec<u8>, Vec<u8>>) -> (r: Result<Vec<u8>, Vec<u8>>)
    ensures
        bytes_result(r) == lookup_result_of(ip@, bytes_result(*run)),
{
    let tool = ip_tool_vec();
    let args = neighbour_args(ip);
    match run {
        Ok(out) => match find_mac(out.as_slice()) {
            Some(m) => Ok(m),
            None => {
                let reason = no_mac_vec();
                Err(launch_failure(tool.as_slice(), &args, reason.as_slice()))
            },
        },
        Err(detail) => Err(launch_failure(tool.as_slice(), &args, detail.as_slice())),
    }
}

} // verus!
