//! Readiness tokens of the forwarding daemon's poll loop and their packing
//! into the 64-bit word that the readiness multiplexer stores per descriptor.

use vstd::prelude::*;

verus! {

/// A tag that identifies one forwarding session for its whole lifetime.
pub type SessionTag = u32;

/// What a ready descriptor of the main poll loop stands for.
#[derive(Clone, Copy, Debug, PartialEq, Eq, Structural)]
pub enum Token {
    /// The control plane queued a new set of ports to listen on.
    UpdatePorts,
    /// The IPv4 loopback listener of a port has a pending connection.
    Ipv4Listener(u16),
    /// The IPv6 loopback listener of a port has a pending connection.
    Ipv6Listener(u16),
    /// The local (TCP) socket of a session is readable.
    LocalSocket(SessionTag),
    /// The remote (vsock) socket of a session is readable.
    RemoteSocket(SessionTag),
}

impl Token {
    /// Position of the variant in the declaration, from zero.
    pub open spec fn index(self) -> nat {
        match self {
            Token::UpdatePorts => 0,
            Token::Ipv4Listener(_) => 1,
            Token::Ipv6Listener(_) => 2,
            Token::LocalSocket(_) => 3,
            Token::RemoteSocket(_) => 4,
        }
    }

    /// The number a variant carries, zero for a variant without data.
    pub open spec fn payload(self) -> nat {
        match self {
            Token::UpdatePorts => 0,
            Token::Ipv4Listener(port) => port as nat,
            Token::Ipv6Listener(port) => port as nat,
            Token::LocalSocket(tag) => tag as nat,
            Token::RemoteSocket(tag) => tag as nat,
        }
    }

    /// The raw word of a token: the payload above the three index bits.
    pub open spec fn raw(self) -> nat {
        self.payload() * 8 + self.index()
    }

    /// The token a raw word decodes to, if its index names a variant and its
    /// payload fits the variant's field.
    pub open spec fn decode(raw: nat) -> Option<Token> {
        let index = raw % 8;
        let payload = raw / 8;
        if index == 0 {
            if payload == 0 { Some(Token::UpdatePorts) } else { None }
        } else if index == 1 {
            if payload <= u16::MAX { Some(Token::Ipv4Listener(payload as u16)) } else { None }
        } else if index == 2 {
            if payload <= u16::MAX { Some(Token::Ipv6Listener(payload as u16)) } else { None }
        } else if index == 3 {
            if payload <= u32::MAX { Some(Token::LocalSocket(payload as u32)) } else { None }
        } else if index == 4 {
            if payload <= u32::MAX { Some(Token::RemoteSocket(payload as u32)) } else { None }
        } else {
            None
        }
    }

    /// Packs the token into the word handed to the readiness multiplexer.
    pub fn as_raw_token(&self) -> (raw: u64)
        ensures
            raw == self.raw(),
    {
        match *self {
            Token::UpdatePorts => 0,
            Token::Ipv4Listener(port) => (port as u64) * 8 + 1,
            Token::Ipv6Listener(port) => (port as u64) * 8 + 2,
            Token::LocalSocket(tag) => (tag as u64) * 8 + 3,
            Token::RemoteSocket(tag) => (tag as u64) * 8 + 4,
        }
    }

    /// Unpacks a word reported by the readiness multiplexer. Words that no
    /// token packs to are rejected.
    pub fn from_raw_token(raw: u64) -> (token: Option<Token>)
        ensures
            token == Token::decode(raw as nat),
    {
        let index: u64 = raw % 8;
        let payload: u64 = raw / 8;
        if index == 0 {
            if payload == 0 { Some(Token::UpdatePorts) } else { None }
        } else if index == 1 {
            if payload <= 0xffff { Some(Token::Ipv4Listener(payload as u16)) } else { None }
        } else if index == 2 {
            if payload <= 0xffff { Some(Token::Ipv6Listener(payload as u16)) } else { None }
        } else if index == 3 {
            if payload <= 0xffff_ffff { Some(Token::LocalSocket(payload as u32)) } else { None }
        } else if index == 4 {
            if payload <= 0xffff_ffff { Some(Token::RemoteSocket(payload as u32)) } else { None }
        } else {
            None
        }
    }
}

/// Packing then unpacking a token gives the token back, so a readiness event
/// is always dispatched to the descriptor it was registered for.
pub proof fn token_roundtrip(token: Token)
    ensures
        Token::decode(token.raw()) == Some(token),
{
}

/// Two tokens with the same raw word are the same token.
pub proof fn token_raw_injective(a: Token, b: Token)
    requires
        a.raw() == b.raw(),
    ensures
        a == b,
{
    token_roundtrip(a);
    token_roundtrip(b);
}

/// A word that decodes packs back to itself.
pub proof fn token_decode_exact(raw: nat, token: Token)
    requires
        Token::decode(raw) == Some(token),
    ensures
        token.raw() == raw,
{
}

} // verus!
