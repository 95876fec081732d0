use vstd::prelude::*;

verus! {

/// Protocol version byte of SOCKS5 frames.
pub const VER: u8 = 0x05;

/// Version byte of the username/password sub-negotiation.
pub const UP_VER: u8 = 0x01;

/// Method code that selects username/password authentication.
pub const USER_PASS_METHOD: u8 = 0x02;

/// Status byte of a successful sub-negotiation.
pub const USER_PASS_OK: u8 = 0x00;

/// Status byte sent on a failed sub-negotiation or a refused request.
pub const FAIL: u8 = 0xff;

pub const REQUEST_CMD_CONNECT: u8 = 0x01;
pub const REQUEST_CMD_BIND: u8 = 0x02;
pub const REQUEST_CMD_UDP: u8 = 0x03;

/// Reply code of a request that succeeded.
pub const REP_OK: u8 = 0x00;

pub const ATYPE_IP4: u8 = 0x01;
pub const ATYPE_DOMAINNAME: u8 = 0x03;
pub const ATYPE_IP6: u8 = 0x04;

/// Capacity of one read from a socket.
pub const BUF_SIZE: usize = 10240;

} // verus!
