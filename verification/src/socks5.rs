//! The SOCKS5 client handshake as a sans-I/O state machine.
//!
//! The machine is strictly sequential: method negotiation, optional
//! username/password sub-negotiation, connect request, connect reply, and
//! the bound-address tail whose length the reply's address type dictates.
//! Every byte written and every read length is pinned by the contracts, so
//! a driver that follows the returned actions consumes exactly the bytes
//! the protocol specifies — no under- or over-read.

use vstd::prelude::*;

use crate::addr::{IpAddress, SocketAddress};
use crate::types::{creds_of_auth, HandshakeError, HsAction, ProxyAuth};

verus! {

/// Where the handshake stands: which reply it awaits, or how it ended.
#[derive(Debug, Clone, Copy, PartialEq, Eq)]
pub enum Socks5Phase {
    /// Awaiting the 2-byte method-selection reply.
    AwaitMethod,
    /// Awaiting the 2-byte username/password status reply.
    AwaitAuthReply,
    /// Awaiting the first 4 bytes of the connect reply.
    AwaitConnectHead,
    /// Awaiting the rest of the bound address, `count` bytes.
    AwaitBound { count: usize },
    /// Awaiting the 1-byte length of a bound domain name.
    AwaitDomainLen,
    /// The tunnel is established.
    Finished,
    /// The handshake failed.
    Failed,
}

/// The SOCKS5 client handshake for one connection attempt.
pub struct Socks5Handshake {
    /// The target the proxy is asked to connect to.
    pub target: SocketAddress,
    /// Username and password as UTF-8 bytes, when credentials were given.
    pub creds: Option<(Vec<u8>, Vec<u8>)>,
    /// Where the handshake stands.
    pub phase: Socks5Phase,
}

/// Whether given credentials are too long for the wire format, which
/// carries each field's length in one byte.
pub open spec fn auth_too_long(auth: Option<ProxyAuth>) -> bool {
    match creds_of_auth(auth) {
        Some(c) => c.0.len() > 255 || c.1.len() > 255,
        None => false,
    }
}

/// The method-negotiation greeting: version `0x05` and the offered
/// methods — no-auth alone, or username/password and no-auth.
pub open spec fn greeting_bytes(has_auth: bool) -> Seq<u8> {
    if has_auth {
        seq![5u8, 2u8, 0u8, 2u8]
    } else {
        seq![5u8, 1u8, 0u8]
    }
}

/// The username/password sub-negotiation request: auth version `0x01`,
/// then each field length-prefixed.
pub open spec fn auth_request_bytes(user: Seq<u8>, pass: Seq<u8>) -> Seq<u8>
    recommends
        user.len() <= 255,
        pass.len() <= 255,
{
    seq![1u8, user.len() as u8] + user + seq![pass.len() as u8] + pass
}

/// The big-endian bytes of 16-bit groups.
pub open spec fn groups_be_bytes(segs: Seq<u16>) -> Seq<u8>
    decreases segs.len(),
{
    if segs.len() == 0 {
        Seq::empty()
    } else {
        seq![(segs[0] >> 8) as u8, (segs[0] & 0xff) as u8] + groups_be_bytes(segs.drop_first())
    }
}

/// The address part of a connect request: type `0x01` plus four octets
/// for IPv4, type `0x04` plus sixteen bytes for IPv6.
pub open spec fn addr_request_bytes(ip: IpAddress) -> Seq<u8> {
    match ip {
        IpAddress::V4(oct) => seq![1u8] + oct@,
        IpAddress::V6(seg) => seq![4u8] + groups_be_bytes(seg@),
    }
}

/// The connect request: version, CONNECT, reserved, address, port
/// big-endian.
pub open spec fn connect_request_bytes(t: SocketAddress) -> Seq<u8> {
    seq![5u8, 1u8, 0u8] + addr_request_bytes(t.ip) + seq![
        (t.port >> 8) as u8,
        (t.port & 0xff) as u8,
    ]
}

proof fn lemma_groups_be_bytes_push(segs: Seq<u16>, g: u16)
    ensures
        groups_be_bytes(segs.push(g)) == groups_be_bytes(segs) + seq![
            (g >> 8) as u8,
            (g & 0xff) as u8,
        ],
    decreases segs.len(),
{
    if segs.len() == 0 {
        assert(segs.push(g).drop_first() =~= Seq::<u16>::empty());
        assert(groups_be_bytes(Seq::<u16>::empty()) =~= Seq::<u8>::empty());
        assert(segs.push(g)[0] == g);
        assert(groups_be_bytes(segs.push(g)) =~= groups_be_bytes(segs) + seq![
            (g >> 8) as u8,
            (g & 0xff) as u8,
        ]);
    } else {
        assert(segs.push(g).drop_first() =~= segs.drop_first().push(g));
        lemma_groups_be_bytes_push(segs.drop_first(), g);
        assert(segs.push(g)[0] == segs[0]);
        assert(groups_be_bytes(segs.push(g)) =~= groups_be_bytes(segs) + seq![
            (g >> 8) as u8,
            (g & 0xff) as u8,
        ]);
    }
}

/// Builds the method-negotiation greeting.
fn build_greeting(has_auth: bool) -> (r: Vec<u8>)
    ensures
        r@ == greeting_bytes(has_auth),
{
    let mut v: Vec<u8> = Vec::new();
    v.push(5);
    if has_auth {
        v.push(2);
        v.push(0);
        v.push(2);
        assert(v@ =~= greeting_bytes(true));
    } else {
        v.push(1);
        v.push(0);
        assert(v@ =~= greeting_bytes(false));
    }
    v
}

/// Builds the username/password sub-negotiation request.
fn build_auth_request(user: &Vec<u8>, pass: &Vec<u8>) -> (r: Vec<u8>)
    requires
        user@.len() <= 255,
        pass@.len() <= 255,
    ensures
        r@ == auth_request_bytes(user@, pass@),
{
    let mut v: Vec<u8> = Vec::new();
    v.push(1);
    v.push(user.len() as u8);
    let mut u = user.clone();
    v.append(&mut u);
    v.push(pass.len() as u8);
    let mut p = pass.clone();
    v.append(&mut p);
    assert(v@ =~= auth_request_bytes(user@, pass@));
    v
}

/// Builds the connect request for the target.
fn build_connect_request(t: &SocketAddress) -> (r: Vec<u8>)
    ensures
        r@ == connect_request_bytes(*t),
{
    let mut v: Vec<u8> = Vec::new();
    v.push(5);
    v.push(1);
    v.push(0);
    match &t.ip {
        IpAddress::V4(oct) => {
            v.push(1);
            v.push(oct[0]);
            v.push(oct[1]);
            v.push(oct[2]);
            v.push(oct[3]);
        },
        IpAddress::V6(seg) => {
            v.push(4);
            let mut i: usize = 0;
            while i < 8
                invariant
                    0 <= i <= 8,
                    v@ =~= seq![5u8, 1u8, 0u8, 4u8] + groups_be_bytes(seg@.subrange(0, i as int)),
                decreases 8 - i,
            {
                let g = seg[i];
                v.push((g >> 8) as u8);
                v.push((g & 0xff) as u8);
                proof {
                    assert(seg@.subrange(0, i + 1 as int).drop_last() =~= seg@.subrange(
                        0,
                        i as int,
                    ));
                    assert(seg@.subrange(0, i as int).push(g) =~= seg@.subrange(0, i + 1 as int));
                    lemma_groups_be_bytes_push(seg@.subrange(0, i as int), g);
                }
                i = i + 1;
            }
            assert(seg@.subrange(0, 8) =~= seg@);
        },
    }
    v.push((t.port >> 8) as u8);
    v.push((t.port & 0xff) as u8);
    assert(v@ =~= connect_request_bytes(*t));
    v
}

impl Socks5Handshake {
    /// Credential bytes as sequences.
    pub open spec fn creds_view(&self) -> Option<(Seq<u8>, Seq<u8>)> {
        match self.creds {
            Some(c) => Some((c.0@, c.1@)),
            None => None,
        }
    }

    /// The username bytes, empty when no credentials were given.
    pub open spec fn creds_user(&self) -> Seq<u8> {
        match self.creds {
            Some(c) => c.0@,
            None => Seq::empty(),
        }
    }

    /// The password bytes, empty when no credentials were given.
    pub open spec fn creds_pass(&self) -> Seq<u8> {
        match self.creds {
            Some(c) => c.1@,
            None => Seq::empty(),
        }
    }

    /// Both credential fields fit their one-byte length prefixes.
    pub open spec fn wf(&self) -> bool {
        match self.creds {
            Some(c) => c.0@.len() <= 255 && c.1@.len() <= 255,
            None => true,
        }
    }

    /// Whether the machine still awaits proxy bytes.
    pub open spec fn awaiting(&self) -> bool {
        !(self.phase is Finished) && !(self.phase is Failed)
    }

    /// How many bytes the machine expects to be fed next.
    pub open spec fn expected_read_len(&self) -> nat {
        match self.phase {
            Socks5Phase::AwaitMethod => 2,
            Socks5Phase::AwaitAuthReply => 2,
            Socks5Phase::AwaitConnectHead => 4,
            Socks5Phase::AwaitBound { count } => count as nat,
            Socks5Phase::AwaitDomainLen => 1,
            Socks5Phase::Finished => 0,
            Socks5Phase::Failed => 0,
        }
    }

    /// Starts a SOCKS5 handshake towards `target`.  Fails only when a
    /// credential field cannot be carried by the wire format; otherwise
    /// the first action writes the method-negotiation greeting and reads
    /// the 2-byte reply.
    pub fn start(target: &SocketAddress, auth: &Option<ProxyAuth>) -> (res: Result<
        (Socks5Handshake, HsAction),
        HandshakeError,
    >)
        ensures
            match res {
                Ok(pair) => {
                    let m = pair.0;
                    let act = pair.1;
                    &&& !auth_too_long(*auth)
                    &&& m.wf()
                    &&& m.phase is AwaitMethod
                    &&& m.target == *target
                    &&& m.creds_view() == creds_of_auth(*auth)
                    &&& act matches HsAction::Send { data, read_len } && data@ == greeting_bytes(
                        auth is Some,
                    ) && read_len == 2
                },
                Err(e) => auth_too_long(*auth) && e == HandshakeError::CredentialsTooLong,
            },
    {
        let creds: Option<(Vec<u8>, Vec<u8>)> = match auth {
            Some(a) => {
                let u = a.username.as_str().as_bytes_vec();
                let p = a.password.as_str().as_bytes_vec();
                if u.len() > 255 || p.len() > 255 {
                    return Err(HandshakeError::CredentialsTooLong);
                }
                Some((u, p))
            },
            None => None,
        };
        let has_auth = creds.is_some();
        let machine = Socks5Handshake { target: *target, creds, phase: Socks5Phase::AwaitMethod };
        let greeting = build_greeting(has_auth);
        Ok((machine, HsAction::Send { data: greeting, read_len: 2 }))
    }

    /// Feeds the machine the bytes it asked for and advances it one
    /// protocol step.  The ensures clause is the protocol: which reply
    /// bytes are accepted, what is written next, how many bytes are read
    /// next, and which error ends the handshake.
    pub fn step(&mut self, input: &[u8]) -> (act: HsAction)
        requires
            old(self).wf(),
            old(self).awaiting(),
            input@.len() == old(self).expected_read_len(),
        ensures
            final(self).wf(),
            final(self).target == old(self).target,
            final(self).creds_view() == old(self).creds_view(),
            match old(self).phase {
                Socks5Phase::AwaitMethod => {
                    if input@[0] != 5 {
                        (act matches HsAction::Fail { error } && error
                            == HandshakeError::InvalidVersion) && final(self).phase is Failed
                    } else if old(self).creds_view() is Some && input@[1] == 2 {
                        (act matches HsAction::Send { data, read_len } && data@
                            == auth_request_bytes(old(self).creds_user(), old(self).creds_pass())
                            && read_len == 2) && final(self).phase is AwaitAuthReply
                    } else if input@[1] == 0 {
                        (act matches HsAction::Send { data, read_len } && data@
                            == connect_request_bytes(old(self).target) && read_len == 4)
                            && final(self).phase is AwaitConnectHead
                    } else {
                        (act matches HsAction::Fail { error } && error
                            == HandshakeError::NoAcceptableMethod) && final(self).phase is Failed
                    }
                },
                Socks5Phase::AwaitAuthReply => {
                    if input@[1] != 0 {
                        (act matches HsAction::Fail { error } && error
                            == HandshakeError::AuthenticationFailed) && final(self).phase is Failed
                    } else {
                        (act matches HsAction::Send { data, read_len } && data@
                            == connect_request_bytes(old(self).target) && read_len == 4)
                            && final(self).phase is AwaitConnectHead
                    }
                },
                Socks5Phase::AwaitConnectHead => {
                    if input@[0] != 5 {
                        (act matches HsAction::Fail { error } && error
                            == HandshakeError::InvalidVersion) && final(self).phase is Failed
                    } else if input@[1] != 0 {
                        (act matches HsAction::Fail { error } && error
                            matches HandshakeError::ConnectRefused { code } && code == input@[1])
                            && final(self).phase is Failed
                    } else if input@[3] == 1 {
                        (act matches HsAction::ReadMore { read_len } && read_len == 6) && (
                        final(self).phase matches Socks5Phase::AwaitBound { count } && count == 6)
                    } else if input@[3] == 4 {
                        (act matches HsAction::ReadMore { read_len } && read_len == 18) && (
                        final(self).phase matches Socks5Phase::AwaitBound { count } && count == 18)
                    } else if input@[3] == 3 {
                        (act matches HsAction::ReadMore { read_len } && read_len == 1)
                            && final(self).phase is AwaitDomainLen
                    } else {
                        (act matches HsAction::Fail { error } && error
                            == HandshakeError::UnknownAddressType) && final(self).phase is Failed
                    }
                },
                Socks5Phase::AwaitDomainLen => {
                    (act matches HsAction::ReadMore { read_len } && read_len == input@[0] + 2) && (
                    final(self).phase matches Socks5Phase::AwaitBound { count } && count == input@[0] + 2)
                },
                Socks5Phase::AwaitBound { count: _ } => act is Done && final(self).phase is Finished,
                Socks5Phase::Finished => false,
                Socks5Phase::Failed => false,
            },
    {
        let ph = self.phase;
        match ph {
            Socks5Phase::AwaitMethod => {
                if input[0] != 5 {
                    self.phase = Socks5Phase::Failed;
                    return HsAction::Fail { error: HandshakeError::InvalidVersion };
                }
                let use_auth = match &self.creds {
                    Some(_) => input[1] == 2,
                    None => false,
                };
                if use_auth {
                    let request = match &self.creds {
                        Some(c) => build_auth_request(&c.0, &c.1),
                        None => Vec::new(),
                    };
                    self.phase = Socks5Phase::AwaitAuthReply;
                    HsAction::Send { data: request, read_len: 2 }
                } else if input[1] == 0 {
                    let request = build_connect_request(&self.target);
                    self.phase = Socks5Phase::AwaitConnectHead;
                    HsAction::Send { data: request, read_len: 4 }
                } else {
                    self.phase = Socks5Phase::Failed;
                    HsAction::Fail { error: HandshakeError::NoAcceptableMethod }
                }
            },
            Socks5Phase::AwaitAuthReply => {
                if input[1] != 0 {
                    self.phase = Socks5Phase::Failed;
                    HsAction::Fail { error: HandshakeError::AuthenticationFailed }
                } else {
                    let request = build_connect_request(&self.target);
                    self.phase = Socks5Phase::AwaitConnectHead;
                    HsAction::Send { data: request, read_len: 4 }
                }
            },
            Socks5Phase::AwaitConnectHead => {
                if input[0] != 5 {
                    self.phase = Socks5Phase::Failed;
                    HsAction::Fail { error: HandshakeError::InvalidVersion }
                } else if input[1] != 0 {
                    self.phase = Socks5Phase::Failed;
                    HsAction::Fail { error: HandshakeError::ConnectRefused { code: input[1] } }
                } else if input[3] == 1 {
                    self.phase = Socks5Phase::AwaitBound { count: 6 };
                    HsAction::ReadMore { read_len: 6 }
                } else if input[3] == 4 {
                    self.phase = Socks5Phase::AwaitBound { count: 18 };
                    HsAction::ReadMore { read_len: 18 }
                } else if input[3] == 3 {
                    self.phase = Socks5Phase::AwaitDomainLen;
                    HsAction::ReadMore { read_len: 1 }
                } else {
                    self.phase = Socks5Phase::Failed;
                    HsAction::Fail { error: HandshakeError::UnknownAddressType }
                }
            },
            Socks5Phase::AwaitDomainLen => {
                let n: usize = (input[0] as usize) + 2;
                self.phase = Socks5Phase::AwaitBound { count: n };
                HsAction::ReadMore { read_len: n }
            },
            Socks5Phase::AwaitBound { count: _ } => {
                self.phase = Socks5Phase::Finished;
                HsAction::Done
            },
            Socks5Phase::Finished => {
                proof {
                    assert(false);
                }
                HsAction::Done
            },
            Socks5Phase::Failed => {
                proof {
                    assert(false);
                }
                HsAction::Done
            },
        }
    }
}

} // verus!

