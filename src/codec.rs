use vstd::prelude::*;

use crate::socks5::{
    ATYPE_IP4, ATYPE_IP6, REP_OK, REQUEST_CMD_CONNECT, UP_VER, USER_PASS_METHOD, VER,
};

verus! {

/// A destination of a CONNECT request, or the bound address of its reply.
#[allow(inconsistent_fields)]
#[derive(Clone, Copy, Debug, PartialEq, Eq)]
pub enum DestinationAddress {
    V4 { addr: [u8; 4], port: u16 },
    V6 { addr: [u8; 16], port: u16 },
}

/// The abstract value of an address: its ATYP code, its address bytes and its port.
pub type AddrView = (u8, Seq<u8>, u16);

impl View for DestinationAddress {
    type V = AddrView;

    open spec fn view(&self) -> AddrView {
        match self {
            DestinationAddress::V4 { addr, port } => (ATYPE_IP4, addr@, *port),
            DestinationAddress::V6 { addr, port } => (ATYPE_IP6, addr@, *port),
        }
    }
}

/// Why a request frame was refused.
#[derive(Clone, Copy, Debug, PartialEq, Eq)]
pub enum RequestError {
    /// The frame ends before a field that it needs.
    Malformed,
    /// VER is not 5.
    BadVersion,
    /// CMD is not CONNECT.
    UnsupportedCommand,
    /// ATYP is neither IPv4 nor IPv6.
    UnsupportedAddressType,
}

/// Why a username/password sub-negotiation was refused.
#[derive(Clone, Copy, Debug, PartialEq, Eq)]
pub enum AuthError {
    /// Wrong version byte, empty username, or a frame that ends early.
    Malformed,
    /// The frame is well formed but the credentials differ from the configured ones.
    Mismatch,
}

/// The number of address bytes that follow an ATYP code.
pub open spec fn addr_width(atyp: u8) -> int {
    if atyp == ATYPE_IP4 {
        4
    } else {
        16
    }
}

/// The big-endian 16-bit value of two bytes.
pub open spec fn be_u16(hi: u8, lo: u8) -> u16 {
    (hi as int * 256 + lo as int) as u16
}

/// The two big-endian bytes of a 16-bit value.
pub open spec fn u16_be_bytes(v: u16) -> Seq<u8> {
    seq![(v / 256) as u8, (v % 256) as u8]
}

// ---------------------------------------------------------------- greeting

/// A greeting `VER NMETHODS METHODS...` that selects username/password.
pub open spec fn greeting_accepted(b: Seq<u8>) -> bool {
    &&& b.len() >= 2
    &&& b[0] == VER
    &&& b[1] != 0
    &&& b.len() >= 2 + b[1]
    &&& b.subrange(2, 2 + b[1] as int).contains(USER_PASS_METHOD)
}

/// Decides whether a greeting is acceptable.
pub fn decode_handshake(buf: &[u8]) -> (r: bool)
    ensures
        r == greeting_accepted(buf@),
{
    if buf.len() < 2 || buf[0] != VER || buf[1] == 0 {
        return false;
    }
    let end: usize = 2 + buf[1] as usize;
    if buf.len() < end {
        return false;
    }
    let ghost methods = buf@.subrange(2, end as int);
    let mut i: usize = 2;
    while i < end
        invariant
            2 <= i <= end <= buf.len(),
            buf@[0] == VER,
            buf@[1] != 0,
            end == 2 + buf@[1],
            methods == buf@.subrange(2, end as int),
            forall|k: int| 2 <= k < i ==> buf@[k] != USER_PASS_METHOD,
        decreases end - i,
    {
        if buf[i] == USER_PASS_METHOD {
            assert(methods[i - 2] == USER_PASS_METHOD);
            assert(methods.contains(USER_PASS_METHOD));
            return true;
        }
        i = i + 1;
    }
    assert forall|k: int| 0 <= k < methods.len() implies methods[k] != USER_PASS_METHOD by {
        assert(methods[k] == buf@[k + 2]);
    }
    false
}

// ---------------------------------------------------------------- sub-negotiation

/// A sub-negotiation `01 ULEN UNAME PLEN PASSWD` whose fields all lie inside the frame.
pub open spec fn auth_well_formed(b: Seq<u8>) -> bool {
    &&& b.len() >= 2
    &&& b[0] == UP_VER
    &&& b[1] != 0
    &&& b.len() >= 3 + b[1]
    &&& b.len() >= 3 + b[1] + b[2 + b[1]]
}

/// The username bytes of a well-formed sub-negotiation.
pub open spec fn auth_user(b: Seq<u8>) -> Seq<u8> {
    b.subrange(2, 2 + b[1] as int)
}

/// The password bytes of a well-formed sub-negotiation.
pub open spec fn auth_pass(b: Seq<u8>) -> Seq<u8> {
    let u = 2 + b[1] as int;
    b.subrange(u + 1, u + 1 + b[u] as int)
}

/// The outcome of a sub-negotiation against configured credentials.
pub open spec fn auth_outcome(b: Seq<u8>, user: Seq<u8>, pass: Seq<u8>) -> Result<(), AuthError> {
    if !auth_well_formed(b) {
        Err(AuthError::Malformed)
    } else if auth_user(b) == user && auth_pass(b) == pass {
        Ok(())
    } else {
        Err(AuthError::Mismatch)
    }
}

/// Whether `a[start..start + b.len()]` equals `b`, byte for byte.
fn bytes_equal_at(a: &[u8], start: usize, b: &[u8]) -> (r: bool)
    requires
        start + b@.len() <= a@.len(),
    ensures
        r == (a@.subrange(start as int, start + b@.len()) == b@),
{
    let a_len = a.len();
    let mut i: usize = 0;
    while i < b.len()
        invariant
            a_len == a@.len(),
            start + b@.len() <= a@.len(),
            0 <= i <= b@.len(),
            forall|k: int| 0 <= k < i ==> a@[start + k] == b@[k],
        decreases b@.len() - i,
    {
        if a[start + i] != b[i] {
            assert(a@.subrange(start as int, start + b@.len())[i as int] != b@[i as int]);
            return false;
        }
        i = i + 1;
    }
    assert(a@.subrange(start as int, start + b@.len()) =~= b@);
    true
}

/// Decodes a sub-negotiation and compares it with the configured credentials.
pub fn decode_user_passwd(buf: &[u8], user: &[u8], pass: &[u8]) -> (r: Result<(), AuthError>)
    ensures
        r == auth_outcome(buf@, user@, pass@),
{
    if buf.len() < 2 || buf[0] != UP_VER || buf[1] == 0 {
        return Err(AuthError::Malformed);
    }
    let ulen: usize = buf[1] as usize;
    let u_end: usize = 2 + ulen;
    if buf.len() < u_end + 1 {
        return Err(AuthError::Malformed);
    }
    let plen: usize = buf[u_end] as usize;
    if buf.len() < u_end + 1 + plen {
        return Err(AuthError::Malformed);
    }
    let user_ok = ulen == user.len() && bytes_equal_at(buf, 2, user);
    let pass_ok = plen == pass.len() && bytes_equal_at(buf, u_end + 1, pass);
    if user_ok && pass_ok {
        Ok(())
    } else {
        Err(AuthError::Mismatch)
    }
}

// ---------------------------------------------------------------- request

/// Why a request frame `VER CMD RSV ATYP DST.ADDR DST.PORT` is refused, if it is.
pub open spec fn request_error(b: Seq<u8>) -> Option<RequestError> {
    if b.len() < 1 {
        Some(RequestError::Malformed)
    } else if b[0] != VER {
        Some(RequestError::BadVersion)
    } else if b.len() < 2 {
        Some(RequestError::Malformed)
    } else if b[1] != REQUEST_CMD_CONNECT {
        Some(RequestError::UnsupportedCommand)
    } else if b.len() < 4 {
        Some(RequestError::Malformed)
    } else if b[3] != ATYPE_IP4 && b[3] != ATYPE_IP6 {
        Some(RequestError::UnsupportedAddressType)
    } else if b.len() < 6 + addr_width(b[3]) {
        Some(RequestError::Malformed)
    } else {
        None
    }
}

/// The destination of a request frame that `request_error` accepts: the
/// address lies at bytes `4..4+w` and the port at the two bytes after it.
pub open spec fn request_dest(b: Seq<u8>) -> AddrView {
    let w = addr_width(b[3]);
    (b[3], b.subrange(4, 4 + w), be_u16(b[4 + w], b[5 + w]))
}

/// Reads the big-endian 16-bit value at `b[i..i+2]`.
fn read_be_u16(b: &[u8], i: usize) -> (r: u16)
    requires
        i + 2 <= b@.len(),
    ensures
        r == be_u16(b@[i as int], b@[i + 1]),
{
    let hi: u16 = b[i] as u16;
    let lo: u16 = b[i + 1] as u16;
    hi * 256 + lo
}

/// Decodes a CONNECT request into the destination to dial.
pub fn decode_request(buf: &[u8]) -> (r: Result<DestinationAddress, RequestError>)
    ensures
        match r {
            Ok(a) => request_error(buf@).is_none() && a@ == request_dest(buf@),
            Err(e) => request_error(buf@) == Some(e),
        },
        r.is_ok() && buf@[3] == ATYPE_IP4 ==> r->Ok_0@.2 == be_u16(buf@[8], buf@[9]),
        r.is_ok() && buf@[3] == ATYPE_IP6 ==> r->Ok_0@.2 == be_u16(buf@[20], buf@[21]),
{
    if buf.len() < 1 {
        return Err(RequestError::Malformed);
    }
    if buf[0] != VER {
        return Err(RequestError::BadVersion);
    }
    if buf.len() < 2 {
        return Err(RequestError::Malformed);
    }
    if buf[1] != REQUEST_CMD_CONNECT {
        return Err(RequestError::UnsupportedCommand);
    }
    if buf.len() < 4 {
        return Err(RequestError::Malformed);
    }
    let atyp = buf[3];
    if atyp != ATYPE_IP4 && atyp != ATYPE_IP6 {
        return Err(RequestError::UnsupportedAddressType);
    }
    let w: usize = if atyp == ATYPE_IP4 { 4 } else { 16 };
    if buf.len() < 6 + w {
        return Err(RequestError::Malformed);
    }
    Ok(decode_addr_at(buf, atyp))
}

/// Reads the address and port that follow an ATYP code at byte 3.
fn decode_addr_at(buf: &[u8], atyp: u8) -> (a: DestinationAddress)
    requires
        atyp == ATYPE_IP4 || atyp == ATYPE_IP6,
        buf@.len() >= 6 + addr_width(atyp),
    ensures
        a@ == (atyp, buf@.subrange(4, 4 + addr_width(atyp)), be_u16(buf@[4 + addr_width(atyp)], buf@[5 + addr_width(atyp)])),
{
    if atyp == ATYPE_IP4 {
        let addr: [u8; 4] = [buf[4], buf[5], buf[6], buf[7]];
        let port = read_be_u16(buf, 8);
        assert(addr@ =~= buf@.subrange(4, 8));
        DestinationAddress::V4 { addr, port }
    } else {
        let addr: [u8; 16] = [
            buf[4], buf[5], buf[6], buf[7], buf[8], buf[9], buf[10], buf[11],
            buf[12], buf[13], buf[14], buf[15], buf[16], buf[17], buf[18], buf[19],
        ];
        let port = read_be_u16(buf, 20);
        assert(addr@ =~= buf@.subrange(4, 20));
        DestinationAddress::V6 { addr, port }
    }
}

// ---------------------------------------------------------------- reply

/// The success reply frame `05 00 00 ATYP BND.ADDR BND.PORT` for a bound address.
pub open spec fn reply_bytes(v: AddrView) -> Seq<u8> {
    seq![VER, REP_OK, 0u8, v.0] + v.1 + u16_be_bytes(v.2)
}

/// The address that a success reply frame carries, if the frame is one.
pub open spec fn reply_decoded(b: Seq<u8>) -> Option<AddrView> {
    if b.len() >= 4 && b[0] == VER && b[1] == REP_OK && b[2] == 0 && (b[3] == ATYPE_IP4
        || b[3] == ATYPE_IP6) && b.len() == 6 + addr_width(b[3]) {
        Some(request_dest(b))
    } else {
        None
    }
}

/// Encodes the success reply for the address that was reached.
pub fn encode_reply(a: &DestinationAddress) -> (r: Vec<u8>)
    ensures
        r@ == reply_bytes(a@),
{
    let mut r: Vec<u8> = Vec::new();
    r.push(VER);
    r.push(REP_OK);
    r.push(0u8);
    match a {
        DestinationAddress::V4 { addr, port } => {
            r.push(ATYPE_IP4);
            let mut i: usize = 0;
            while i < 4
                invariant
                    0 <= i <= 4,
                    r@ == seq![VER, REP_OK, 0u8, ATYPE_IP4] + addr@.subrange(0, i as int),
                decreases 4 - i,
            {
                r.push(addr[i]);
                assert(addr@.subrange(0, i + 1) =~= addr@.subrange(0, i as int).push(addr@[i as int]));
                i = i + 1;
            }
            assert(addr@.subrange(0, 4) =~= addr@);
            r.push((*port / 256) as u8);
            r.push((*port % 256) as u8);
        },
        DestinationAddress::V6 { addr, port } => {
            r.push(ATYPE_IP6);
            let mut i: usize = 0;
            while i < 16
                invariant
                    0 <= i <= 16,
                    r@ == seq![VER, REP_OK, 0u8, ATYPE_IP6] + addr@.subrange(0, i as int),
                decreases 16 - i,
            {
                r.push(addr[i]);
                assert(addr@.subrange(0, i + 1) =~= addr@.subrange(0, i as int).push(addr@[i as int]));
                i = i + 1;
            }
            assert(addr@.subrange(0, 16) =~= addr@);
            r.push((*port / 256) as u8);
            r.push((*port % 256) as u8);
        },
    }
    assert(r@ =~= reply_bytes(a@));
    r
}

/// Decodes a success reply frame back into the address it carries.
pub fn decode_reply(buf: &[u8]) -> (r: Option<DestinationAddress>)
    ensures
        match r {
            Some(a) => reply_decoded(buf@) == Some(a@),
            None => reply_decoded(buf@).is_none(),
        },
{
    if buf.len() < 4 || buf[0] != VER || buf[1] != REP_OK || buf[2] != 0 {
        return None;
    }
    let atyp = buf[3];
    if atyp != ATYPE_IP4 && atyp != ATYPE_IP6 {
        return None;
    }
    let w: usize = if atyp == ATYPE_IP4 { 4 } else { 16 };
    if buf.len() != 6 + w {
        return None;
    }
    Some(decode_addr_at(buf, atyp))
}

/// Decoding the reply frame encoded for an address gives back its ATYP, its
/// address bytes and its port.
pub proof fn lemma_reply_round_trip(a: DestinationAddress)
    ensures
        reply_decoded(reply_bytes(a@)) == Some(a@),
{
    let b = reply_bytes(a@);
    let w = addr_width(a@.0);
    assert(a@.1.len() == w);
    assert(b.subrange(4, 4 + w) =~= a@.1);
    assert(b[4 + w] == (a@.2 / 256) as u8);
    assert(b[5 + w] == (a@.2 % 256) as u8);
    assert(be_u16((a@.2 / 256) as u8, (a@.2 % 256) as u8) == a@.2);
}

} // verus!
