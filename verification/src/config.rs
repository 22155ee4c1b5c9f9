//! What the proxy is started with.

use vstd::prelude::*;
use vstd::string::StrSliceExecFns;
use crate::field::bytes_of;

verus! {

/// A version of the TLS protocol.
#[derive(Clone, Copy, Debug, PartialEq, Eq, Structural)]
pub enum TlsVersion {
    Tls10,
    Tls11,
    Tls12,
    Tls13,
}

/// The application protocols that are offered, in order of preference.
#[derive(Clone, Copy, Debug, PartialEq, Eq, Structural)]
pub enum Alpn {
    /// HTTP/1.1 only.
    H1,
    /// HTTP/2 only.
    H2,
    /// HTTP/2 first, then HTTP/1.1.
    H2H1,
}

/// What is asked of a client's handshake.
#[derive(Debug)]
pub struct TlsPolicy {
    /// The oldest protocol version that is accepted.
    pub min_version: TlsVersion,
    /// The application protocols that are offered.
    pub alpn: Alpn,
    /// The cipher suites that are accepted, separated by colons.
    pub ciphersuites: &'static str,
    /// Whether the client's certificate is verified against the trust root.
    pub verify_peer: bool,
    /// Whether a client without a certificate is turned away.
    pub fail_if_no_peer_cert: bool,
    /// What sessions are scoped by, so that one domain's sessions are not
    /// resumed on another.
    pub session_id_context: Vec<u8>,
}

/// The cipher suites that are accepted.
pub open spec fn accepted_ciphersuites() -> Seq<char> {
    "TLS_AES_128_GCM_SHA256:TLS_AES_256_GCM_SHA384:TLS_CHACHA20_POLY1305_SHA256"@
}

/// The policy for the listener of `domain`: TLS 1.3 or newer, HTTP/2 before
/// HTTP/1.1, three cipher suites, a verified client certificate, and
/// sessions scoped by the domain's name.
pub fn tls_policy(domain: &str) -> (policy: TlsPolicy)
    ensures
        policy.min_version == TlsVersion::Tls13,
        policy.alpn == Alpn::H2H1,
        policy.ciphersuites@ == accepted_ciphersuites(),
        policy.verify_peer,
        policy.fail_if_no_peer_cert,
        policy.session_id_context@ == bytes_of(domain@),
{
    TlsPolicy {
        min_version: TlsVersion::Tls13,
        alpn: Alpn::H2H1,
        ciphersuites: "TLS_AES_128_GCM_SHA256:TLS_AES_256_GCM_SHA384:TLS_CHACHA20_POLY1305_SHA256",
        verify_peer: true,
        fail_if_no_peer_cert: true,
        session_id_context: domain.as_bytes_vec(),
    }
}

/// Where the text behind the last colon of `address` begins: 0 where it
/// holds no colon.
pub open spec fn port_start(address: Seq<char>) -> int
    decreases address.len(),
{
    if address.len() == 0 {
        0
    } else if address.last() == ':' {
        address.len() as int
    } else {
        port_start(address.drop_last())
    }
}

/// The port of a listen address such as `0.0.0.0:6189`: what stands behind
/// its last colon, or all of it where there is none.
pub open spec fn port_of(address: Seq<char>) -> Seq<char> {
    address.skip(port_start(address))
}

/// `port_start` lies within the text, just behind a colon or at the start,
/// and no colon follows it.
pub proof fn law_port_behind_last_colon(address: Seq<char>)
    ensures
        0 <= port_start(address) <= address.len(),
        port_start(address) > 0 ==> address[port_start(address) - 1] == ':',
        forall|i: int| port_start(address) <= i < address.len() ==> address[i] != ':',
        port_start(address) == 0 ==> forall|i: int| 0 <= i < address.len() ==> address[i] != ':',
    decreases address.len(),
{
    if address.len() > 0 && address.last() != ':' {
        let front = address.drop_last();
        law_port_behind_last_colon(front);
        assert forall|i: int| port_start(address) <= i < address.len() implies address[i]
            != ':' by {
            if i < front.len() {
                assert(front[i] == address[i]);
            }
        }
        if port_start(address) > 0 {
            assert(front[port_start(front) - 1] == address[port_start(address) - 1]);
        }
    }
}

/// The port that a listen address names.
pub fn listen_port(address: &str) -> (port: String)
    ensures
        port@ == port_of(address@),
{
    let len = address.unicode_len();
    let mut start: usize = len;
    assert(address@.take(len as int) == address@);
    while start > 0 && address.get_char(start - 1) != ':'
        invariant
            start <= len,
            len == address@.len(),
            port_start(address@) == port_start(address@.take(start as int)),
        decreases start,
    {
        proof {
            let here = address@.take(start as int);
            assert(here.last() == address@[start - 1]);
            assert(here.drop_last() == address@.take(start - 1));
        }
        start -= 1;
    }
    proof {
        let here = address@.take(start as int);
        if start > 0 {
            assert(here.last() == address@[start - 1]);
        }
        assert(port_start(here) == start);
    }
    address.substring_char(start, len).to_owned()
}

} // verus!
