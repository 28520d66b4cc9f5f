//! The HTTP CONNECT client handshake as a sans-I/O state machine.
//!
//! One request is written — the CONNECT line, a Host header, and a Basic
//! Proxy-Authorization header when credentials are present — and the
//! response is then read one byte at a time until its headers end with
//! `\r\n\r\n`.  A hard cap bounds the accumulated response, so a proxy
//! that never terminates its headers fails cleanly instead of growing
//! memory without bound.

use vstd::prelude::*;

use crate::addr::{dec_digits, format_dec, format_ip, ip_text, spec_find_byte, SocketAddress};
use crate::types::{creds_of_auth, HandshakeError, HsAction, ProxyAuth};

verus! {

/// What `base64::engine::general_purpose::STANDARD` encodes given bytes
/// to: a function of the input alone.
pub uninterp spec fn base64_of(data: Seq<u8>) -> Seq<u8>;

/// Relies on base64's `Engine::encode` with the `STANDARD` engine: the
/// standard alphabet with padding, deterministic in the input bytes.
#[verifier::external_body]
fn base64_encode(data: &Vec<u8>) -> (r: Vec<u8>)
    ensures
        r@ == base64_of(data@),
{
    base64::engine::Engine::encode(&base64::engine::general_purpose::STANDARD, data.as_slice())
        .into_bytes()
}

/// The maximum response size accepted before the header terminator.
pub open spec fn response_cap() -> nat {
    8192
}

/// `CONNECT ` as bytes.
pub open spec fn connect_word() -> Seq<u8> {
    seq![67u8, 79u8, 78u8, 78u8, 69u8, 67u8, 84u8, 32u8]
}

/// ` HTTP/1.1\r\n` as bytes.
pub open spec fn http_version_tail() -> Seq<u8> {
    seq![32u8, 72u8, 84u8, 84u8, 80u8, 47u8, 49u8, 46u8, 49u8, 13u8, 10u8]
}

/// `Host: ` as bytes.
pub open spec fn host_word() -> Seq<u8> {
    seq![72u8, 111u8, 115u8, 116u8, 58u8, 32u8]
}

/// `Proxy-Authorization: Basic ` as bytes.
pub open spec fn proxy_auth_word() -> Seq<u8> {
    seq![
        80u8,
        114u8,
        111u8,
        120u8,
        121u8,
        45u8,
        65u8,
        117u8,
        116u8,
        104u8,
        111u8,
        114u8,
        105u8,
        122u8,
        97u8,
        116u8,
        105u8,
        111u8,
        110u8,
        58u8,
        32u8,
        66u8,
        97u8,
        115u8,
        105u8,
        99u8,
        32u8,
    ]
}

/// `\r\n` as bytes.
pub open spec fn crlf() -> Seq<u8> {
    seq![13u8, 10u8]
}

/// `host:port` for the target, as the request writes it.
pub open spec fn host_port_text(t: SocketAddress) -> Seq<u8> {
    ip_text(t.ip) + seq![58u8] + dec_digits(t.port as nat)
}

/// The whole CONNECT request: request line, Host header, the Basic
/// authorization header when credentials are present, and the blank line.
pub open spec fn http_request_bytes(t: SocketAddress, creds: Option<(Seq<u8>, Seq<u8>)>) -> Seq<
    u8,
> {
    connect_word() + host_port_text(t) + http_version_tail() + host_word() + host_port_text(t)
        + crlf() + (match creds {
        Some(c) => proxy_auth_word() + base64_of(c.0 + seq![58u8] + c.1) + crlf(),
        None => Seq::empty(),
    }) + crlf()
}

/// Whether the response's headers are complete: it ends in `\r\n\r\n`.
pub open spec fn ends_with_terminator(s: Seq<u8>) -> bool {
    s.len() >= 4 && s[s.len() - 4] == 13 && s[s.len() - 3] == 10 && s[s.len() - 2] == 13 && s[
        s.len() - 1
    ] == 10
}

/// `HTTP/1.1 200` as bytes.
pub open spec fn status_200_v11() -> Seq<u8> {
    seq![72u8, 84u8, 84u8, 80u8, 47u8, 49u8, 46u8, 49u8, 32u8, 50u8, 48u8, 48u8]
}

/// `HTTP/1.0 200` as bytes.
pub open spec fn status_200_v10() -> Seq<u8> {
    seq![72u8, 84u8, 84u8, 80u8, 47u8, 49u8, 46u8, 48u8, 32u8, 50u8, 48u8, 48u8]
}

/// Whether the response starts with an accepted status line.
pub open spec fn status_ok(s: Seq<u8>) -> bool {
    s.len() >= 12 && (s.subrange(0, 12) == status_200_v11() || s.subrange(0, 12)
        == status_200_v10())
}

/// The first line of the response: everything before the first `\n`, a
/// trailing `\r` removed.
pub open spec fn first_line(s: Seq<u8>) -> Seq<u8> {
    match spec_find_byte(s, 0, 10) {
        None => s,
        Some(i) => if i > 0 && s[i - 1] == 13 {
            s.subrange(0, i - 1)
        } else {
            s.subrange(0, i)
        },
    }
}

/// Appends `src` to `dst`.
fn push_all(dst: &mut Vec<u8>, src: &[u8])
    ensures
        final(dst)@ == old(dst)@ + src@,
{
    let mut k: usize = 0;
    while k < src.len()
        invariant
            0 <= k <= src@.len(),
            dst@ =~= old(dst)@ + src@.subrange(0, k as int),
        decreases src@.len() - k,
    {
        dst.push(src[k]);
        k = k + 1;
    }
    assert(dst@ =~= old(dst)@ + src@);
}

/// Builds the CONNECT request for the target and credentials.
#[verifier::rlimit(100)]
fn build_http_request(t: &SocketAddress, auth: &Option<ProxyAuth>) -> (r: Vec<u8>)
    ensures
        r@ == http_request_bytes(*t, creds_of_auth(*auth)),
{
    let mut host_port = format_ip(&t.ip);
    host_port.push(58);
    let mut port_digits = format_dec(t.port);
    host_port.append(&mut port_digits);
    assert(host_port@ =~= host_port_text(*t));

    let mut v: Vec<u8> = Vec::new();
    v.push(67);
    v.push(79);
    v.push(78);
    v.push(78);
    v.push(69);
    v.push(67);
    v.push(84);
    v.push(32);
    assert(v@ =~= connect_word());
    push_all(&mut v, host_port.as_slice());
    v.push(32);
    v.push(72);
    v.push(84);
    v.push(84);
    v.push(80);
    v.push(47);
    v.push(49);
    v.push(46);
    v.push(49);
    v.push(13);
    v.push(10);
    v.push(72);
    v.push(111);
    v.push(115);
    v.push(116);
    v.push(58);
    v.push(32);
    assert(v@ =~= connect_word() + host_port_text(*t) + http_version_tail() + host_word());
    push_all(&mut v, host_port.as_slice());
    v.push(13);
    v.push(10);
    assert(v@ =~= connect_word() + host_port_text(*t) + http_version_tail() + host_word()
        + host_port_text(*t) + crlf());
    match auth {
        Some(a) => {
            let mut cred_bytes = a.username.as_str().as_bytes_vec();
            cred_bytes.push(58);
            let mut pass_bytes = a.password.as_str().as_bytes_vec();
            cred_bytes.append(&mut pass_bytes);
            assert(cred_bytes@ =~= vstd::utf8::encode_utf8(a.username@) + seq![58u8]
                + vstd::utf8::encode_utf8(a.password@));
            let encoded = base64_encode(&cred_bytes);
            v.push(80);
            v.push(114);
            v.push(111);
            v.push(120);
            v.push(121);
            v.push(45);
            v.push(65);
            v.push(117);
            v.push(116);
            v.push(104);
            v.push(111);
            v.push(114);
            v.push(105);
            v.push(122);
            v.push(97);
            v.push(116);
            v.push(105);
            v.push(111);
            v.push(110);
            v.push(58);
            v.push(32);
            v.push(66);
            v.push(97);
            v.push(115);
            v.push(105);
            v.push(99);
            v.push(32);
            push_all(&mut v, encoded.as_slice());
            v.push(13);
            v.push(10);
            assert(v@ =~= connect_word() + host_port_text(*t) + http_version_tail() + host_word()
                + host_port_text(*t) + crlf() + (proxy_auth_word() + base64_of(
                vstd::utf8::encode_utf8(a.username@) + seq![58u8] + vstd::utf8::encode_utf8(
                    a.password@,
                ),
            ) + crlf()));
        },
        None => {},
    }
    v.push(13);
    v.push(10);
    assert(v@ =~= http_request_bytes(*t, creds_of_auth(*auth)));
    v
}

/// Where the HTTP CONNECT handshake stands.
#[derive(Debug, Clone, Copy, PartialEq, Eq)]
pub enum HttpPhase {
    /// Reading the response byte by byte.
    AwaitingResponse,
    /// The tunnel is established.
    Finished,
    /// The handshake failed.
    Failed,
}

/// The HTTP CONNECT client handshake for one connection attempt.
pub struct HttpHandshake {
    /// The response bytes accumulated so far.
    pub response: Vec<u8>,
    /// Where the handshake stands.
    pub phase: HttpPhase,
}

impl HttpHandshake {
    /// The accumulated response never exceeds the cap while reading.
    pub open spec fn wf(&self) -> bool {
        self.phase is AwaitingResponse ==> self.response@.len() <= response_cap()
    }

    /// Starts an HTTP CONNECT handshake towards `target`.  The first
    /// action writes the whole request and reads one response byte.
    pub fn start(target: &SocketAddress, auth: &Option<ProxyAuth>) -> (res: (
        HttpHandshake,
        HsAction,
    ))
        ensures
            ({
                let m = res.0;
                let act = res.1;
                &&& m.wf()
                &&& m.phase is AwaitingResponse
                &&& m.response@ == Seq::<u8>::empty()
                &&& act matches HsAction::Send { data, read_len } && data@ == http_request_bytes(
                    *target,
                    creds_of_auth(*auth),
                ) && read_len == 1
            }),
    {
        let request = build_http_request(target, auth);
        let machine = HttpHandshake { response: Vec::new(), phase: HttpPhase::AwaitingResponse };
        (machine, HsAction::Send { data: request, read_len: 1 })
    }

    /// Feeds the machine one response byte.  When the terminator is seen,
    /// the status line decides between success and a failure that carries
    /// that line; a response that outgrows the cap without terminating
    /// fails with `ResponseTooLarge`; otherwise one more byte is read.
    pub fn step(&mut self, byte: u8) -> (act: HsAction)
        requires
            old(self).wf(),
            old(self).phase is AwaitingResponse,
        ensures
            final(self).wf(),
            final(self).response@ == old(self).response@ + seq![byte],
            ({
                let resp = old(self).response@ + seq![byte];
                if ends_with_terminator(resp) {
                    if status_ok(resp) {
                        act is Done && final(self).phase is Finished
                    } else {
                        (act matches HsAction::Fail { error } && error
                            matches HandshakeError::HttpStatusRejected { line } && line@
                            == first_line(resp)) && final(self).phase is Failed
                    }
                } else if resp.len() > response_cap() {
                    (act matches HsAction::Fail { error } && error
                        == HandshakeError::ResponseTooLarge) && final(self).phase is Failed
                } else {
                    (act matches HsAction::ReadMore { read_len } && read_len == 1)
                        && final(self).phase is AwaitingResponse
                }
            }),
    {
        let ghost resp = old(self).response@ + seq![byte];
        self.response.push(byte);
        assert(self.response@ =~= resp);
        let n = self.response.len();
        let terminated = n >= 4 && self.response[n - 4] == 13 && self.response[n - 3] == 10 && self.response[n - 2] == 13 && self.response[n - 1] == 10;
        assert(terminated == ends_with_terminator(resp));
        if terminated {
            if self.status_ok_x() {
                self.phase = HttpPhase::Finished;
                HsAction::Done
            } else {
                let line = self.first_line_x();
                self.phase = HttpPhase::Failed;
                HsAction::Fail { error: HandshakeError::HttpStatusRejected { line } }
            }
        } else if n > 8192 {
            self.phase = HttpPhase::Failed;
            HsAction::Fail { error: HandshakeError::ResponseTooLarge }
        } else {
            HsAction::ReadMore { read_len: 1 }
        }
    }

    /// Whether the accumulated response starts with an accepted status
    /// line.
    fn status_ok_x(&self) -> (r: bool)
        ensures
            r == status_ok(self.response@),
    {
        let resp = &self.response;
        if resp.len() < 12 {
            return false;
        }
        let common = resp[0] == 72 && resp[1] == 84 && resp[2] == 84 && resp[3] == 80 && resp[4] == 47 && resp[5] == 49 && resp[6] == 46 && resp[8] == 32 && resp[9] == 50 && resp[10] == 48 && resp[11] == 48;
        let minor = resp[7];
        let r = common && (minor == 49 || minor == 48);
        proof {
            if r {
                if minor == 49 {
                    assert(resp@.subrange(0, 12) =~= status_200_v11());
                } else {
                    assert(resp@.subrange(0, 12) =~= status_200_v10());
                }
            } else {
                assert(resp@.subrange(0, 12) != status_200_v11() && resp@.subrange(0, 12)
                    != status_200_v10()) by {
                    if resp@.subrange(0, 12) == status_200_v11() {
                        assert(resp@[7] == status_200_v11()[7]);
                    }
                    if resp@.subrange(0, 12) == status_200_v10() {
                        assert(resp@[7] == status_200_v10()[7]);
                    }
                }
            }
        }
        r
    }

    /// The first line of the accumulated response.
    fn first_line_x(&self) -> (r: Vec<u8>)
        ensures
            r@ == first_line(self.response@),
    {
        let resp = &self.response;
        let mut nl: usize = 0;
        while nl < resp.len() && resp[nl] != 10
            invariant
                0 <= nl <= resp@.len(),
                spec_find_byte(resp@, 0, 10) == spec_find_byte(resp@, nl as int, 10),
            decreases resp@.len() - nl,
        {
            nl = nl + 1;
        }
        let found = nl < resp.len();
        let end: usize = if !found {
            resp.len()
        } else if nl > 0 && resp[nl - 1] == 13 {
            nl - 1
        } else {
            nl
        };
        let mut out: Vec<u8> = Vec::new();
        let mut k: usize = 0;
        while k < end
            invariant
                0 <= k <= end <= resp@.len(),
                out@ =~= resp@.subrange(0, k as int),
            decreases end - k,
        {
            out.push(resp[k]);
            k = k + 1;
        }
        proof {
            if !found {
                assert(resp@.subrange(0, resp@.len() as int) =~= resp@);
            }
        }
        out
    }
}

} // verus!
