//! The redirect responder: a fixed set of well-known paths is answered with a
//! permanent redirect, without a word to the upstream.

use vstd::prelude::*;
use pingora_http::ResponseHeader;
use crate::field::{
    append_bytes, bytes_of, field_key, is_valid_value, lemma_valid_concat, same_text, valid_name,
    valid_value, MAX_NAMES,
};
use crate::header::{
    inserted, no_fields, response_build, response_fields, response_insert, response_status,
};
use crate::rewrite::HeaderRewriteFailure;

verus! {

/// The status of a permanent redirect.
pub const MOVED_PERMANENTLY: u16 = 301;

/// The request paths that are answered with a redirect.
pub open spec fn redirect_paths() -> Set<Seq<char>> {
    set!["/.well-known/carddav"@, "/.well-known/caldav"@]
}

/// Where the redirected paths lead, below the domain's root.
pub open spec fn redirect_target() -> Seq<char> {
    "remote.php/dav/"@
}

/// The key of the header that says where to go.
pub open spec fn location_key() -> Seq<char> {
    field_key("location"@)
}

/// The key of the header that names the server.
pub open spec fn server_key() -> Seq<char> {
    field_key("Server"@)
}

/// The key of the header that gives the body's length.
pub open spec fn content_length_key() -> Seq<char> {
    field_key("Content-Length"@)
}

/// The address a redirect sends the client to: `https://`, the domain, a
/// slash, and the target.
pub open spec fn location(domain: Seq<u8>, target: Seq<u8>) -> Seq<u8> {
    bytes_of("https://"@) + domain + bytes_of("/"@) + target
}

/// The fields of a redirect: the location, the domain as the server's name,
/// and a body length of zero.
pub open spec fn redirect_fields(domain: Seq<u8>, target: Seq<u8>) -> Map<Seq<char>, Seq<Seq<u8>>> {
    inserted(
        inserted(inserted(no_fields(), location_key(), location(domain, target)), server_key(), domain),
        content_length_key(),
        bytes_of("0"@),
    )
}

/// Whether `resp` is the redirect to `target` on `domain`.
pub open spec fn is_redirect(resp: ResponseHeader, domain: Seq<u8>, target: Seq<u8>) -> bool {
    &&& response_status(resp) == MOVED_PERMANENTLY
    &&& response_fields(resp) == redirect_fields(domain, target)
}

/// Tests whether `path` is one of the redirected paths.
pub fn in_redirect_set(path: &str) -> (hit: bool)
    ensures
        hit == redirect_paths().contains(path@),
{
    same_text(path, "/.well-known/carddav") || same_text(path, "/.well-known/caldav")
}

/// The target of every redirect.
pub fn target() -> (path: &'static str)
    ensures
        path@ == redirect_target(),
{
    "remote.php/dav/"
}

/// The names that a redirect writes are legal, their keys differ, and the
/// fixed parts of its values are legal.
pub proof fn lemma_redirect_names()
    ensures
        valid_name("location"@),
        valid_name("Server"@),
        valid_name("Content-Length"@),
        location_key().len() == 8,
        server_key().len() == 6,
        content_length_key().len() == 14,
        valid_value(bytes_of("https://"@)),
        valid_value(bytes_of("/"@)),
        valid_value(bytes_of("0"@)),
{
    reveal_strlit("location");
    reveal_strlit("Server");
    reveal_strlit("Content-Length");
    reveal_strlit("https://");
    reveal_strlit("/");
    reveal_strlit("0");
    vstd::string::is_ascii_spec_bytes("https://");
    vstd::string::is_ascii_spec_bytes("/");
    vstd::string::is_ascii_spec_bytes("0");
}

/// The keys that a redirect writes under, spelled out.
pub proof fn law_redirect_keys()
    ensures
        location_key() == "location"@,
        server_key() == "server"@,
        content_length_key() == "content-length"@,
{
    reveal_strlit("location");
    reveal_strlit("Server");
    reveal_strlit("Content-Length");
    reveal_strlit("server");
    reveal_strlit("content-length");
    assert(location_key() =~= "location"@);
    assert(server_key() =~= "server"@);
    assert(content_length_key() =~= "content-length"@);
}

/// A location is legal exactly when the domain and the target are.
pub proof fn lemma_location_valid(domain: Seq<u8>, target: Seq<u8>)
    ensures
        valid_value(location(domain, target)) <==> (valid_value(domain) && valid_value(target)),
{
    lemma_redirect_names();
    lemma_valid_concat(bytes_of("https://"@), domain);
    lemma_valid_concat(bytes_of("https://"@) + domain, bytes_of("/"@));
    lemma_valid_concat(bytes_of("https://"@) + domain + bytes_of("/"@), target);
}

/// Builds the redirect to `path` on `domain`: status 301, the location, the
/// domain as the server's name, and a body length of zero. It fails only
/// where the domain or the path holds a byte that no header value may hold.
pub fn redirect(domain: &str, path: &str) -> (res: Result<ResponseHeader, HeaderRewriteFailure>)
    ensures
        res.is_ok() <==> (valid_value(bytes_of(domain@)) && valid_value(bytes_of(path@))),
        res matches Ok(resp) ==> is_redirect(resp, bytes_of(domain@), bytes_of(path@)),
        res matches Err(e) ==> e == HeaderRewriteFailure::IllegalLocation,
{
    proof {
        lemma_redirect_names();
        lemma_location_valid(bytes_of(domain@), bytes_of(path@));
    }
    if !is_valid_value(domain.as_bytes()) || !is_valid_value(path.as_bytes()) {
        return Err(HeaderRewriteFailure::IllegalLocation);
    }
    let mut loc: Vec<u8> = Vec::new();
    append_bytes(&mut loc, "https://".as_bytes());
    append_bytes(&mut loc, domain.as_bytes());
    append_bytes(&mut loc, "/".as_bytes());
    append_bytes(&mut loc, path.as_bytes());
    assert(loc@ == location(bytes_of(domain@), bytes_of(path@)));
    let mut resp = match response_build(MOVED_PERMANENTLY, Some(0)) {
        Ok(resp) => resp,
        // not reached: 301 is a status
        Err(_) => {
            return Err(HeaderRewriteFailure::IllegalLocation);
        },
    };
    insert_legal(&mut resp, "location", loc.as_slice());
    insert_legal(&mut resp, "Server", domain.as_bytes());
    insert_legal(&mut resp, "Content-Length", "0".as_bytes());
    Ok(resp)
}

/// Sets a header whose name and value are known to be legal.
fn insert_legal(resp: &mut ResponseHeader, name: &str, value: &[u8])
    requires
        valid_name(name@),
        valid_value(value@),
        response_fields(*old(resp)).dom().finite(),
        response_fields(*old(resp)).dom().len() < MAX_NAMES,
    ensures
        response_fields(*final(resp)) == inserted(response_fields(*old(resp)), field_key(name@), value@),
        response_status(*final(resp)) == response_status(*old(resp)),
{
    // a legal name and a legal value are never refused
    let _ = response_insert(resp, name, value);
}

/// Answering the same request twice gives the same answer: two redirects
/// for one domain and one target agree in status and in every field.
pub proof fn law_redirect_repeats(first: ResponseHeader, second: ResponseHeader, domain: Seq<u8>, target: Seq<u8>)
    requires
        is_redirect(first, domain, target),
        is_redirect(second, domain, target),
    ensures
        response_status(first) == response_status(second),
        response_fields(first) == response_fields(second),
{
}

} // verus!
