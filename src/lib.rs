//! The core of a daemon that lets clients add MAC addresses to a kernel set,
//! remove them, or look up the MAC of an IP, over a line protocol on TCP:
//! admission control, line framing, the request grammar and its replies,
//! and the command lines handed to the set and neighbour tools.

use vstd::prelude::*;

pub mod bytes;
pub mod framing;
pub mod gate;
pub mod mac;
pub mod protocol;
pub mod setcmd;

verus! {

} // verus!
