//! The proxy: one upstream, one domain, and what it decides for each
//! request.

use vstd::prelude::*;
use pingora_http::{RequestHeader, ResponseHeader};
use crate::access_log::{access_log_line, record, recorded_status, response_code};
use crate::field::{bytes_of, valid_value};
use crate::header::{lookup, request_fields, request_path, request_uri_path, response_fields, response_status};
use crate::orchestrator::{actions, transition, Action, Event, Failure, Phase, State};
use crate::redirect::{
    in_redirect_set, is_redirect, location, location_key, redirect, redirect_paths, redirect_target,
    target, lemma_redirect_names, MOVED_PERMANENTLY,
};
use crate::rewrite::{rewrite_outcome, rewrite_request, rewritten, HeaderRewriteFailure};

verus! {

/// A resolved network address.
#[derive(Clone, Copy, Debug, PartialEq, Eq)]
pub enum Address {
    V4 { octets: [u8; 4], port: u16 },
    V6 { segments: [u16; 8], port: u16, flowinfo: u32, scope_id: u32 },
}

/// The server that requests are forwarded to.
#[derive(Clone, Copy, Debug, PartialEq, Eq)]
pub struct Upstream {
    pub dest_addr: Address,
}

/// How the upstream is reached.
#[derive(Debug)]
pub struct Peer {
    /// Where to connect.
    pub address: Address,
    /// Whether to speak TLS on that connection.
    pub tls: bool,
    /// The server name to ask for, where TLS is spoken.
    pub sni: String,
}

/// The proxy's configuration, fixed when it starts.
pub struct Proxy {
    pub upstream: Upstream,
    pub listen_port: String,
    pub domain: String,
}

/// What the redirect responder owes for a request to `path`: nothing where
/// the path is not redirected; else the redirect to the fixed target on
/// `domain`, or a failure where the domain cannot stand in a header.
pub open spec fn filtered(
    domain: Seq<char>,
    path: Seq<char>,
    res: Result<Option<ResponseHeader>, HeaderRewriteFailure>,
) -> bool {
    if !redirect_paths().contains(path) {
        res == Ok::<Option<ResponseHeader>, HeaderRewriteFailure>(None)
    } else if !valid_value(bytes_of(domain)) {
        res == Err::<Option<ResponseHeader>, HeaderRewriteFailure>(
            HeaderRewriteFailure::IllegalLocation,
        )
    } else {
        res matches Ok(Some(resp)) && is_redirect(
            resp,
            bytes_of(domain),
            bytes_of(redirect_target()),
        )
    }
}

/// What the driver reports once the redirect responder has spoken.
pub open spec fn filter_outcome(res: Result<Option<ResponseHeader>, HeaderRewriteFailure>) -> Event {
    match res {
        Ok(Some(_)) => Event::Matched,
        Ok(None) => Event::Declined,
        Err(_) => Event::Failed(Failure::HeaderRewriteFailure),
    }
}

/// What the driver reports once the rewrite engine has run.
pub open spec fn rewrite_event_of(res: Result<(), HeaderRewriteFailure>) -> Event {
    match res {
        Ok(_) => Event::Rewritten,
        Err(_) => Event::Failed(Failure::HeaderRewriteFailure),
    }
}

/// The event that stands for the redirect responder's answer.
pub fn filter_event(res: &Result<Option<ResponseHeader>, HeaderRewriteFailure>) -> (event: Event)
    ensures
        event == filter_outcome(*res),
{
    match res {
        Ok(Some(_)) => Event::Matched,
        Ok(None) => Event::Declined,
        Err(_) => Event::Failed(Failure::HeaderRewriteFailure),
    }
}

/// The event that stands for the rewrite engine's result.
pub fn rewrite_event(res: &Result<(), HeaderRewriteFailure>) -> (event: Event)
    ensures
        event == rewrite_event_of(*res),
{
    match res {
        Ok(_) => Event::Rewritten,
        Err(_) => Event::Failed(Failure::HeaderRewriteFailure),
    }
}

impl Proxy {
    /// The state of a connection that is ready for a request.
    pub fn new_ctx(&self) -> (state: State)
        ensures
            state == (State { phase: Phase::ParsingRequest, status: 0, fatal: false }),
            state.wf(),
    {
        State { phase: Phase::ParsingRequest, status: 0, fatal: false }
    }

    /// How to reach the upstream: at its one address, in plain HTTP.
    pub fn upstream_peer(&self) -> (peer: Peer)
        ensures
            peer.address == self.upstream.dest_addr,
            !peer.tls,
            peer.sni@ == Seq::<char>::empty(),
    {
        Peer { address: self.upstream.dest_addr, tls: false, sni: String::new() }
    }

    /// Answers a request to `path` where the path is redirected.
    pub fn redirect_for(&self, path: &str) -> (res: Result<Option<ResponseHeader>, HeaderRewriteFailure>)
        ensures
            filtered(self.domain@, path@, res),
    {
        if !in_redirect_set(path) {
            return Ok(None);
        }
        proof {
            lemma_target_valid();
        }
        match redirect(self.domain.as_str(), target()) {
            Ok(resp) => Ok(Some(resp)),
            Err(e) => Err(e),
        }
    }

    /// Answers the request where its path is redirected: the response that
    /// is to be written in place of the upstream's.
    pub fn request_filter(&self, req: &RequestHeader) -> (res: Result<
        Option<ResponseHeader>,
        HeaderRewriteFailure,
    >)
        ensures
            filtered(self.domain@, request_path(*req), res),
    {
        let path = request_uri_path(req);
        self.redirect_for(path.as_str())
    }

    /// Rewrites a request that is about to go upstream: its cookie headers
    /// are merged and the forwarded headers added. Either both are done, or
    /// the request is left as it was.
    pub fn upstream_request_filter(&self, req: &mut RequestHeader) -> (res: Result<
        (),
        HeaderRewriteFailure,
    >)
        ensures
            res == rewrite_outcome(request_fields(*old(req)), bytes_of(self.listen_port@)),
            res.is_ok() ==> request_fields(*final(req)) == rewritten(
                request_fields(*old(req)),
                bytes_of(self.listen_port@),
            ),
            res.is_err() ==> request_fields(*final(req)) == request_fields(*old(req)),
            request_path(*final(req)) == request_path(*old(req)),
    {
        rewrite_request(req, self.listen_port.as_str())
    }

    /// The access log's line for a request: its summary and the status of
    /// the response that was written, 0 where none was.
    pub fn logging(&self, summary: &str, response: Option<&ResponseHeader>) -> (line: String)
        ensures
            line@ == record(summary@, recorded_status(response)),
    {
        access_log_line(summary, response_code(response))
    }
}

/// The redirect target can stand in a header.
pub proof fn lemma_target_valid()
    ensures
        valid_value(bytes_of(redirect_target())),
{
    reveal_strlit("remote.php/dav/");
    vstd::string::is_ascii_spec_bytes("remote.php/dav/");
}

/// A request whose path is redirected is answered with status 301 and the
/// location `https://{domain}/{target}`, and is never forwarded: the
/// responder's answer takes the connection past the upstream, and no later
/// step asks for it. This holds for every domain that can stand in a header.
pub proof fn law_redirected_request(
    domain: Seq<char>,
    path: Seq<char>,
    res: Result<Option<ResponseHeader>, HeaderRewriteFailure>,
    state: State,
    events: Seq<Event>,
)
    requires
        redirect_paths().contains(path),
        valid_value(bytes_of(domain)),
        filtered(domain, path, res),
        state.phase is Filtering,
    ensures
        res matches Ok(Some(resp)) && response_status(resp) == MOVED_PERMANENTLY && lookup(
            response_fields(resp),
            location_key(),
        ) == seq![location(bytes_of(domain), bytes_of(redirect_target()))],
        filter_outcome(res) == Event::Matched,
        !actions(transition(state, filter_outcome(res)).0, events).contains(Action::Forward),
{
    lemma_redirect_names();
    crate::orchestrator::law_redirect_skips_upstream(state, events);
}

} // verus!
