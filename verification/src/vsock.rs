//! Addresses of virtual sockets: a context id and a port, written
//! `vsock:<cid>:<port>` on command lines and in configuration.

use vstd::prelude::*;
use vstd::string::*;
use crate::text::{
    chars_of, decimal_digits, decimal_roundtrip, decimal_string, index_of, index_of_is,
    parse_decimal_u32, parse_u32,
};

verus! {

/// Vsock equivalent of INADDR_ANY: the context id of the current endpoint.
pub const VMADDR_CID_ANY: u32 = 0xffff_ffff;

/// Vsock equivalent of binding on port 0: binds to a random port.
pub const VMADDR_PORT_ANY: u32 = 0xffff_ffff;

/// The text is not the address of a virtual socket.
#[derive(Clone, Copy, Debug, PartialEq, Eq, Structural)]
pub struct AddrParseError;

impl AddrParseError {
    /// The message shown for the error.
    pub fn message(&self) -> (text: String)
        ensures
            text@ == "failed to parse vsock address"@,
    {
        String::from_str("failed to parse vsock address")
    }
}

/// An address associated with a virtual socket.
#[derive(Clone, Copy, Debug, PartialEq, Eq, Structural)]
pub struct SocketAddr {
    pub cid: u32,
    pub port: u32,
}

/// The characters `vsock:` that every address starts with.
pub open spec fn scheme() -> Seq<char> {
    seq!['v', 's', 'o', 'c', 'k', ':']
}

/// The address that a text denotes: `vsock:`, the context id, a colon and
/// the port, both numbers in decimal. Any other text denotes none.
pub open spec fn address_of(text: Seq<char>) -> Option<SocketAddr> {
    if text.len() >= 6 && text.take(6) == scheme() {
        let rest = text.skip(6);
        let colon = index_of(rest, ':');
        if colon < rest.len() {
            match (parse_u32(rest.take(colon)), parse_u32(rest.skip(colon + 1))) {
                (Some(cid), Some(port)) => Some(SocketAddr { cid, port }),
                _ => None,
            }
        } else {
            None
        }
    } else {
        None
    }
}

/// The text of an address: `vsock:`, the context id, a colon and the
/// port, both numbers in decimal without leading zeros.
pub open spec fn text_of(addr: SocketAddr) -> Seq<char> {
    scheme() + decimal_digits(addr.cid as nat) + seq![':'] + decimal_digits(addr.port as nat)
}

impl SocketAddr {
    /// Parses a vsock address from a string of the form `vsock:cid:port`.
    pub fn parse(s: &str) -> (addr: Result<SocketAddr, AddrParseError>)
        ensures
            addr == match address_of(s@) {
                Some(found) => Ok::<SocketAddr, AddrParseError>(found),
                None => Err(AddrParseError),
            },
    {
        let chars = chars_of(s);
        let len: usize = chars.len();
        if len < 6 || chars[0] != 'v' || chars[1] != 's' || chars[2] != 'o' || chars[3] != 'c'
            || chars[4] != 'k' || chars[5] != ':' {
            assert(len >= 6 ==> s@.take(6) != scheme()) by {
                if len >= 6 && s@.take(6) == scheme() {
                    assert(s@.take(6)[0] == 'v' && s@.take(6)[1] == 's' && s@.take(6)[2] == 'o'
                        && s@.take(6)[3] == 'c' && s@.take(6)[4] == 'k' && s@.take(6)[5] == ':');
                }
            }
            return Err(AddrParseError);
        }
        assert(s@.take(6) =~= scheme());
        let ghost rest = s@.skip(6);
        let mut k: usize = 6;
        while k < len && chars[k] != ':'
            invariant
                6 <= k <= len,
                len == chars.len(),
                chars@ == s@,
                rest == s@.skip(6),
                forall|j: int| 0 <= j < k - 6 ==> rest[j] != ':',
            decreases len - k,
        {
            k += 1;
        }
        proof {
            index_of_is(rest, ':', k - 6);
        }
        if k == len {
            return Err(AddrParseError);
        }
        assert(rest.take(k - 6) =~= chars@.subrange(6, k as int));
        assert(rest.skip(k - 6 + 1) =~= chars@.subrange(k + 1, len as int));
        let cid = parse_decimal_u32(&chars, 6, k);
        let port = parse_decimal_u32(&chars, k + 1, len);
        match (cid, port) {
            (Some(cid), Some(port)) => Ok(SocketAddr { cid, port }),
            _ => Err(AddrParseError),
        }
    }

    /// The address as text, `vsock:cid:port`: the text that `parse` reads
    /// back as this address.
    pub fn to_text(&self) -> (text: String)
        ensures
            text@ == text_of(*self),
            address_of(text@) == Some(*self),
    {
        let cid = decimal_string(self.cid);
        let port = decimal_string(self.port);
        proof {
            reveal_strlit("vsock:");
            reveal_strlit(":");
            assert("vsock:"@ =~= scheme());
            assert(":"@ =~= seq![':']);
            address_roundtrip(*self);
        }
        String::from_str("vsock:").concat(cid.as_str()).concat(":").concat(port.as_str())
    }
}

impl std::str::FromStr for SocketAddr {
    type Err = AddrParseError;

    /// Parses a vsock address from a string of the form `vsock:cid:port`.
    fn from_str(s: &str) -> (addr: Result<SocketAddr, AddrParseError>)
        ensures
            addr == match address_of(s@) {
                Some(found) => Ok::<SocketAddr, AddrParseError>(found),
                None => Err(AddrParseError),
            },
    {
        SocketAddr::parse(s)
    }
}

/// The status flags of a descriptor after blocking mode was chosen: the
/// bits of `mask` are set for non-blocking mode and cleared for blocking
/// mode; every other bit stays.
pub open spec fn spec_nonblocking_flags(flags: u32, mask: u32, nonblocking: bool) -> u32 {
    if nonblocking {
        flags | mask
    } else {
        flags & !mask
    }
}

/// The status flags to set on a descriptor so that it is non-blocking or
/// blocking, given the flags it has and the mask of the non-blocking bit.
#[verifier::when_used_as_spec(spec_nonblocking_flags)]
pub fn nonblocking_flags(flags: u32, mask: u32, nonblocking: bool) -> (changed: u32)
    ensures
        changed == spec_nonblocking_flags(flags, mask, nonblocking),
{
    if nonblocking {
        flags | mask
    } else {
        flags & !mask
    }
}

/// Choosing a mode changes no bit outside the mask, sets or clears all
/// bits inside it, and choosing it twice is the same as choosing it once.
pub proof fn nonblocking_flags_touch_only_mask(flags: u32, mask: u32, nonblocking: bool)
    ensures
        spec_nonblocking_flags(flags, mask, nonblocking) & !mask == flags & !mask,
        spec_nonblocking_flags(flags, mask, true) & mask == mask,
        spec_nonblocking_flags(flags, mask, false) & mask == 0,
        spec_nonblocking_flags(spec_nonblocking_flags(flags, mask, nonblocking), mask, nonblocking)
            == spec_nonblocking_flags(flags, mask, nonblocking),
{
    assert((flags | mask) & !mask == flags & !mask) by (bit_vector);
    assert((flags & !mask) & !mask == flags & !mask) by (bit_vector);
    assert((flags | mask) & mask == mask) by (bit_vector);
    assert((flags & !mask) & mask == 0) by (bit_vector);
    assert((flags | mask) | mask == flags | mask) by (bit_vector);
}

/// Anything that can be turned into the address of a virtual socket.
pub trait ToSocketAddr {
    /// The address that the value stands for, if it stands for one.
    spec fn socket_addr(&self) -> Result<SocketAddr, AddrParseError>;

    fn to_socket_addr(&self) -> (addr: Result<SocketAddr, AddrParseError>)
        ensures
            addr == self.socket_addr(),
    ;
}

impl ToSocketAddr for SocketAddr {
    open spec fn socket_addr(&self) -> Result<SocketAddr, AddrParseError> {
        Ok(*self)
    }

    fn to_socket_addr(&self) -> (addr: Result<SocketAddr, AddrParseError>) {
        Ok(*self)
    }
}

impl ToSocketAddr for str {
    open spec fn socket_addr(&self) -> Result<SocketAddr, AddrParseError> {
        match address_of(self@) {
            Some(found) => Ok(found),
            None => Err(AddrParseError),
        }
    }

    fn to_socket_addr(&self) -> (addr: Result<SocketAddr, AddrParseError>) {
        SocketAddr::parse(self)
    }
}

/// Reading the text of an address back gives the address.
pub proof fn address_roundtrip(addr: SocketAddr)
    ensures
        address_of(text_of(addr)) == Some(addr),
{
    let cid = decimal_digits(addr.cid as nat);
    let port = decimal_digits(addr.port as nat);
    let text = text_of(addr);
    let rest = text.skip(6);
    decimal_roundtrip(addr.cid);
    decimal_roundtrip(addr.port);
    assert(text.take(6) =~= scheme());
    assert(rest =~= cid + seq![':'] + port);
    assert forall|j: int| 0 <= j < cid.len() implies rest[j] != ':' by {
        assert(rest[j] == cid[j]);
        assert(cid.contains(cid[j]));
    }
    assert(rest[cid.len() as int] == ':');
    index_of_is(rest, ':', cid.len() as int);
    assert(rest.take(cid.len() as int) =~= cid);
    assert(rest.skip(cid.len() as int + 1) =~= port);
}

} // verus!
