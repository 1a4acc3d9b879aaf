use vstd::prelude::*;

use crate::bytes::sub_bytes;

verus! {

pub const COLON: u8 = 58;

/// A hexadecimal digit, in either case.
pub open spec fn is_hex(b: u8) -> bool {
    (48 <= b <= 57) || (97 <= b <= 102) || (65 <= b <= 70)
}

/// How many hex digits, at most two, a group starting at `p` takes.
pub open spec fn hex_run(s: Seq<u8>, p: int) -> int {
    if p < 0 || p >= s.len() || !is_hex(s[p]) {
        0
    } else if p + 1 >= s.len() || !is_hex(s[p + 1]) {
        1
    } else {
        2
    }
}

/// Where a MAC literal read from `p` ends, when `k` groups that end in a
/// colon are still to come before the last group; `None` if none is there.
/// Each group takes two digits where two follow, else one.
pub open spec fn mac_end(s: Seq<u8>, p: int, k: nat) -> Option<int>
    decreases k,
{
    let n = hex_run(s, p);
    if n == 0 {
        None
    } else if k == 0 {
        Some(p + n)
    } else if p + n < s.len() && s[p + n] == COLON {
        mac_end(s, p + n + 1, (k - 1) as nat)
    } else {
        None
    }
}

/// The bounds of the leftmost MAC literal of `s` that starts at `i` or later.
pub open spec fn first_mac_from(s: Seq<u8>, i: int) -> Option<(int, int)>
    decreases s.len() - i,
{
    if i < 0 || i >= s.len() {
        None
    } else {
        match mac_end(s, i, 5) {
            Some(e) => Some((i, e)),
            None => first_mac_from(s, i + 1),
        }
    }
}

/// The leftmost MAC literal in `s`: six groups of one or two hex digits
/// joined by colons.
pub open spec fn first_mac(s: Seq<u8>) -> Option<Seq<u8>> {
    match first_mac_from(s, 0) {
        Some((a, e)) => Some(s.subrange(a, e)),
        None => None,
    }
}

/// The bytes of an optional line, as a spec value.
pub open spec fn opt_bytes(o: Option<Vec<u8>>) -> Option<Seq<u8>> {
    match o {
        Some(v) => Some(v@),
        None => None,
    }
}

pub fn is_hex_digit(b: u8) -> (r: bool)
    ensures
        r == is_hex(b),
{
    (48 <= b && b <= 57) || (97 <= b && b <= 102) || (65 <= b && b <= 70)
}

fn hex_run_at(s: &[u8], p: usize) -> (n: usize)
    requires
        p <= s.len(),
    ensures
        n == hex_run(s@, p as int),
        n <= 2,
        p + n <= s.len(),
{
    if p >= s.len() || !is_hex_digit(s[p]) {
        0
    } else if p + 1 >= s.len() || !is_hex_digit(s[p + 1]) {
        1
    } else {
        2
    }
}

/// Where a MAC literal that starts at `start` ends, if one starts there.
pub fn mac_end_at(s: &[u8], start: usize) -> (r: Option<usize>)
    requires
        start <= s.len(),
    ensures
        match r {
            Some(e) => mac_end(s@, start as int, 5) == Some(e as int) && start < e <= s.len(),
            None => mac_end(s@, start as int, 5) is None,
        },
{
    let mut p: usize = start;
    let mut k: usize = 5;
    loop
        invariant
            start <= p <= s.len(),
            k <= 5,
            mac_end(s@, start as int, 5) == mac_end(s@, p as int, k as nat),
        decreases k,
    {
        let n = hex_run_at(s, p);
        if n == 0 {
            return None;
        }
        if k == 0 {
            return Some(p + n);
        }
        if p + n < s.len() && s[p + n] == COLON {
            p = p + n + 1;
            k = k - 1;
        } else {
            return None;
        }
    }
}

/// A copy of the leftmost MAC literal in `s`, if there is one.
pub fn find_mac(s: &[u8]) -> (r: Option<Vec<u8>>)
    ensures
        opt_bytes(r) == first_mac(s@),
{
    let mut i: usize = 0;
    while i < s.len()
        invariant
            i <= s.len(),
            first_mac_from(s@, 0) == first_mac_from(s@, i as int),
        decreases s.len() - i,
    {
        match mac_end_at(s, i) {
            Some(e) => {
                return Some(sub_bytes(s, i, e));
            },
            None => {},
        }
        i = i + 1;
    }
    None
}

} // verus!
