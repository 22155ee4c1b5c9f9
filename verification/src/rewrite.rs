//! The header rewrite engine: what is done to a request before it is sent
//! upstream. Duplicate cookie headers are merged into one, and headers that
//! describe the client-facing leg are added.

use vstd::prelude::*;
use pingora_http::RequestHeader;
use crate::field::{
    append_bytes, bytes_of, field_key, is_valid_value, valid_name, valid_value, value_byte, MAX_NAMES,
};
use crate::header::{
    appended, inserted, lookup, request_append, request_fields, request_insert, request_names_len,
    request_path, request_values, views,
};

verus! {

/// Why a header could not be written.
#[derive(Clone, Copy, Debug, PartialEq, Eq, Structural)]
pub enum HeaderRewriteFailure {
    /// The header holds too many distinct names to take another.
    TooManyNames,
    /// The listen port holds a byte that no header value may hold.
    IllegalPort,
    /// A cookie value holds a byte that no header value may hold.
    IllegalCookie,
    /// The domain or the redirect target holds such a byte.
    IllegalLocation,
}

/// The key of the cookie header.
pub open spec fn cookie_key() -> Seq<char> {
    field_key("cookie"@)
}

/// The key of the header that carries the protocol the client spoke.
pub open spec fn proto_key() -> Seq<char> {
    field_key("X-Forwarded-Proto"@)
}

/// The key of the header that carries the scheme the client asked by.
pub open spec fn scheme_key() -> Seq<char> {
    field_key("X-Forwarded-Scheme"@)
}

/// The key of the header that carries the port the client connected to.
pub open spec fn port_key() -> Seq<char> {
    field_key("X-Forwarded-Port"@)
}

/// The scheme of the client-facing leg.
pub open spec fn https() -> Seq<u8> {
    bytes_of("https"@)
}

/// What stands between two merged cookie values: a semicolon and a space.
pub open spec fn separator() -> Seq<u8> {
    bytes_of("; "@)
}

/// The separator's two bytes.
pub proof fn lemma_separator()
    ensures
        separator() == seq![59u8, 32u8],
{
    reveal_strlit("; ");
    vstd::string::is_ascii_spec_bytes("; ");
    assert(separator() =~= seq![59u8, 32u8]);
}

/// The values joined in their order, with the separator between neighbours.
pub open spec fn joined(values: Seq<Seq<u8>>) -> Seq<u8>
    decreases values.len(),
{
    if values.len() == 0 {
        Seq::empty()
    } else if values.len() == 1 {
        values[0]
    } else {
        joined(values.drop_last()) + separator() + values.last()
    }
}

/// Joining never loses or invents an illegal byte: the joined value is legal
/// exactly when every single value is.
pub proof fn law_joined_legal(values: Seq<Seq<u8>>)
    ensures
        valid_value(joined(values)) <==> forall|i: int|
            0 <= i < values.len() ==> valid_value(#[trigger] values[i]),
    decreases values.len(),
{
    if values.len() == 0 {
    } else if values.len() == 1 {
    } else {
        let front = values.drop_last();
        let head = joined(front);
        let whole = joined(values);
        law_joined_legal(front);
        lemma_separator();
        assert(whole == head + separator() + values.last());
        assert(value_byte(59u8) && value_byte(32u8));
        if valid_value(whole) {
            assert forall|i: int| 0 <= i < values.len() implies valid_value(
                #[trigger] values[i],
            ) by {
                if i < values.len() - 1 {
                    assert forall|j: int| 0 <= j < head.len() implies value_byte(
                        #[trigger] head[j],
                    ) by {
                        assert(whole[j] == head[j]);
                    }
                    assert(front[i] == values[i]);
                } else {
                    assert forall|j: int| 0 <= j < values[i].len() implies value_byte(
                        #[trigger] values[i][j],
                    ) by {
                        assert(whole[head.len() + 2 + j] == values[i][j]);
                    }
                }
            }
        }
        if forall|i: int| 0 <= i < values.len() ==> valid_value(#[trigger] values[i]) {
            assert forall|i: int| 0 <= i < front.len() implies valid_value(
                #[trigger] front[i],
            ) by {
                assert(front[i] == values[i]);
            }
            assert(valid_value(values[values.len() - 1]));
            assert forall|j: int| 0 <= j < whole.len() implies value_byte(#[trigger] whole[j]) by {
                if j < head.len() {
                    assert(whole[j] == head[j]);
                } else if j < head.len() + 2 {
                    assert(whole[j] == separator()[j - head.len()]);
                } else {
                    assert(whole[j] == values.last()[j - head.len() - 2]);
                }
            }
        }
    }
}

/// Joins cookie values into the one value that is sent upstream.
pub fn join_cookies(values: &Vec<Vec<u8>>) -> (out: Vec<u8>)
    ensures
        out@ == joined(views(values@)),
{
    let mut out: Vec<u8> = Vec::new();
    let mut i: usize = 0;
    while i < values.len()
        invariant
            i <= values.len(),
            out@ == joined(views(values@).take(i as int)),
        decreases values.len() - i,
    {
        if i > 0 {
            append_bytes(&mut out, "; ".as_bytes());
        }
        append_bytes(&mut out, values[i].as_slice());
        proof {
            let now = views(values@).take(i as int + 1);
            assert(now.drop_last() == views(values@).take(i as int));
            assert(now.last() == values[i as int]@);
        }
        i += 1;
    }
    proof {
        assert(views(values@).take(i as int) == views(values@));
    }
    out
}

/// The one cookie value to send for the values that a request carries: none
/// where it carries none, and a failure where the joined value holds a byte
/// that no header value may hold.
pub open spec fn cookie_to_send(values: Seq<Seq<u8>>) -> Result<Option<Seq<u8>>, HeaderRewriteFailure> {
    if values.len() == 0 {
        Ok(None)
    } else if !valid_value(joined(values)) {
        Err(HeaderRewriteFailure::IllegalCookie)
    } else {
        Ok(Some(joined(values)))
    }
}

/// Decides on the one cookie value to send for the values of a request.
pub fn merged_cookie(values: &Vec<Vec<u8>>) -> (res: Result<Option<Vec<u8>>, HeaderRewriteFailure>)
    ensures
        match res {
            Ok(Some(value)) => cookie_to_send(views(values@)) == Ok::<
                Option<Seq<u8>>,
                HeaderRewriteFailure,
            >(Some(value@)),
            Ok(None) => cookie_to_send(views(values@)) == Ok::<Option<Seq<u8>>, HeaderRewriteFailure>(
                None,
            ),
            Err(e) => cookie_to_send(views(values@)) == Err::<Option<Seq<u8>>, HeaderRewriteFailure>(
                e,
            ),
        },
{
    if values.len() == 0 {
        return Ok(None);
    }
    let value = join_cookies(values);
    if !is_valid_value(value.as_slice()) {
        return Err(HeaderRewriteFailure::IllegalCookie);
    }
    Ok(Some(value))
}

/// The fields after the cookie merge: where cookie values are present, the
/// joined value is the only one under the cookie key; where none is, nothing
/// changes.
pub open spec fn merged(fields: Map<Seq<char>, Seq<Seq<u8>>>) -> Map<Seq<char>, Seq<Seq<u8>>> {
    let cookies = lookup(fields, cookie_key());
    if cookies.len() == 0 {
        fields
    } else {
        inserted(fields, cookie_key(), joined(cookies))
    }
}

/// The fields after the forwarded headers were added behind whatever was
/// already stored under their keys.
pub open spec fn forwarded(fields: Map<Seq<char>, Seq<Seq<u8>>>, port: Seq<u8>) -> Map<
    Seq<char>,
    Seq<Seq<u8>>,
> {
    appended(appended(appended(fields, proto_key(), https()), scheme_key(), https()), port_key(), port)
}

/// Whether the cookie merge succeeds on `fields`, and why not.
pub open spec fn merge_outcome(fields: Map<Seq<char>, Seq<Seq<u8>>>) -> Result<
    (),
    HeaderRewriteFailure,
> {
    let cookies = lookup(fields, cookie_key());
    if cookies.len() == 0 {
        Ok(())
    } else if fields.dom().len() >= MAX_NAMES {
        Err(HeaderRewriteFailure::TooManyNames)
    } else if !valid_value(joined(cookies)) {
        Err(HeaderRewriteFailure::IllegalCookie)
    } else {
        Ok(())
    }
}

/// Whether the forwarded headers can be added to `fields`, and why not.
pub open spec fn forward_outcome(fields: Map<Seq<char>, Seq<Seq<u8>>>, port: Seq<u8>) -> Result<
    (),
    HeaderRewriteFailure,
> {
    if fields.dom().len() + 3 > MAX_NAMES {
        Err(HeaderRewriteFailure::TooManyNames)
    } else if !valid_value(port) {
        Err(HeaderRewriteFailure::IllegalPort)
    } else {
        Ok(())
    }
}

/// The names that the engine writes are legal, and their keys differ.
pub proof fn lemma_rewrite_names()
    ensures
        valid_name("cookie"@),
        valid_name("X-Forwarded-Proto"@),
        valid_name("X-Forwarded-Scheme"@),
        valid_name("X-Forwarded-Port"@),
        cookie_key().len() == 6,
        proto_key().len() == 17,
        scheme_key().len() == 18,
        port_key().len() == 16,
        valid_value(https()),
{
    reveal_strlit("cookie");
    reveal_strlit("X-Forwarded-Proto");
    reveal_strlit("X-Forwarded-Scheme");
    reveal_strlit("X-Forwarded-Port");
    reveal_strlit("https");
    vstd::string::is_ascii_spec_bytes("https");
}

/// The keys that the engine writes under, spelled out.
pub proof fn law_rewrite_keys()
    ensures
        cookie_key() == "cookie"@,
        proto_key() == "x-forwarded-proto"@,
        scheme_key() == "x-forwarded-scheme"@,
        port_key() == "x-forwarded-port"@,
{
    reveal_strlit("cookie");
    reveal_strlit("X-Forwarded-Proto");
    reveal_strlit("X-Forwarded-Scheme");
    reveal_strlit("X-Forwarded-Port");
    reveal_strlit("x-forwarded-proto");
    reveal_strlit("x-forwarded-scheme");
    reveal_strlit("x-forwarded-port");
    assert(cookie_key() =~= "cookie"@);
    assert(proto_key() =~= "x-forwarded-proto"@);
    assert(scheme_key() =~= "x-forwarded-scheme"@);
    assert(port_key() =~= "x-forwarded-port"@);
}

/// Merges the request's cookie headers into one. A request without cookie
/// headers is left as it is; on failure the request is left as it was.
pub fn merge_cookies(req: &mut RequestHeader) -> (res: Result<(), HeaderRewriteFailure>)
    ensures
        res == merge_outcome(request_fields(*old(req))),
        res.is_ok() ==> request_fields(*final(req)) == merged(request_fields(*old(req))),
        res.is_err() ==> request_fields(*final(req)) == request_fields(*old(req)),
        request_path(*final(req)) == request_path(*old(req)),
{
    proof {
        lemma_rewrite_names();
    }
    let names = request_names_len(req);
    let cookies = request_values(req, "cookie");
    if cookies.len() > 0 && names >= MAX_NAMES {
        return Err(HeaderRewriteFailure::TooManyNames);
    }
    match merged_cookie(&cookies) {
        Ok(Some(value)) => {
            // a legal name and a legal value are never refused
            let _ = request_insert(req, "cookie", value.as_slice());
            Ok(())
        },
        Ok(None) => Ok(()),
        Err(e) => Err(e),
    }
}

/// Adds the forwarded headers: protocol and scheme `https`, and the port the
/// client connected to. They are added behind same-named headers that the
/// request may already carry, never in their place. On failure the request
/// is left as it was.
pub fn inject_forwarded(req: &mut RequestHeader, listen_port: &str) -> (res: Result<
    (),
    HeaderRewriteFailure,
>)
    ensures
        res == forward_outcome(request_fields(*old(req)), bytes_of(listen_port@)),
        res.is_ok() ==> request_fields(*final(req)) == forwarded(
            request_fields(*old(req)),
            bytes_of(listen_port@),
        ),
        res.is_err() ==> request_fields(*final(req)) == request_fields(*old(req)),
        request_path(*final(req)) == request_path(*old(req)),
{
    proof {
        lemma_rewrite_names();
    }
    let names = request_names_len(req);
    if names > MAX_NAMES - 3 {
        return Err(HeaderRewriteFailure::TooManyNames);
    }
    let port = listen_port.as_bytes();
    if !is_valid_value(port) {
        return Err(HeaderRewriteFailure::IllegalPort);
    }
    let https = "https".as_bytes();
    append_legal(req, "X-Forwarded-Proto", https);
    append_legal(req, "X-Forwarded-Scheme", https);
    append_legal(req, "X-Forwarded-Port", port);
    Ok(())
}

/// Adds a header whose name and value are known to be legal.
fn append_legal(req: &mut RequestHeader, name: &str, value: &[u8])
    requires
        valid_name(name@),
        valid_value(value@),
        request_fields(*old(req)).dom().finite(),
        request_fields(*old(req)).dom().len() < MAX_NAMES,
    ensures
        request_fields(*final(req)) == appended(request_fields(*old(req)), field_key(name@), value@),
        request_path(*final(req)) == request_path(*old(req)),
{
    // a legal name and a legal value are never refused
    let _ = request_append(req, name, value);
}

/// The fields of a request after both transformations.
pub open spec fn rewritten(fields: Map<Seq<char>, Seq<Seq<u8>>>, port: Seq<u8>) -> Map<
    Seq<char>,
    Seq<Seq<u8>>,
> {
    forwarded(merged(fields), port)
}

/// Whether both transformations succeed on `fields`, and why not. A full
/// header is named first, then an illegal port, then an illegal cookie.
pub open spec fn rewrite_outcome(fields: Map<Seq<char>, Seq<Seq<u8>>>, port: Seq<u8>) -> Result<
    (),
    HeaderRewriteFailure,
> {
    if forward_outcome(fields, port).is_err() {
        forward_outcome(fields, port)
    } else {
        merge_outcome(fields)
    }
}

/// Rewrites a request that is about to go upstream: merges its cookie
/// headers, then adds the forwarded headers. Either both are done, or the
/// request is left as it was.
pub fn rewrite_request(req: &mut RequestHeader, listen_port: &str) -> (res: Result<
    (),
    HeaderRewriteFailure,
>)
    ensures
        res == rewrite_outcome(request_fields(*old(req)), bytes_of(listen_port@)),
        res.is_ok() ==> request_fields(*final(req)) == rewritten(
            request_fields(*old(req)),
            bytes_of(listen_port@),
        ),
        res.is_err() ==> request_fields(*final(req)) == request_fields(*old(req)),
        request_path(*final(req)) == request_path(*old(req)),
{
    let names = request_names_len(req);
    if names > MAX_NAMES - 3 {
        return Err(HeaderRewriteFailure::TooManyNames);
    }
    if !is_valid_value(listen_port.as_bytes()) {
        return Err(HeaderRewriteFailure::IllegalPort);
    }
    match merge_cookies(req) {
        Ok(()) => {},
        Err(e) => {
            return Err(e);
        },
    }
    proof {
        lemma_merged_names(request_fields(*old(req)));
    }
    inject_forwarded(req, listen_port)
}

/// The cookie merge adds no name to a header that holds finitely many.
pub proof fn lemma_merged_names(fields: Map<Seq<char>, Seq<Seq<u8>>>)
    requires
        fields.dom().finite(),
    ensures
        merged(fields).dom().finite(),
        merged(fields).dom().len() == fields.dom().len(),
{
    let cookies = lookup(fields, cookie_key());
    if cookies.len() != 0 {
        assert(fields.dom().contains(cookie_key()));
        assert(merged(fields).dom() =~= fields.dom());
    }
}

/// After the rewrite a request carries its cookie values in one header, in
/// the order in which they came; a request without cookies gets none.
pub proof fn law_one_cookie_header(fields: Map<Seq<char>, Seq<Seq<u8>>>, port: Seq<u8>)
    ensures
        lookup(fields, cookie_key()).len() > 0 ==> lookup(rewritten(fields, port), cookie_key())
            == seq![joined(lookup(fields, cookie_key()))],
        lookup(fields, cookie_key()).len() == 0 ==> lookup(rewritten(fields, port), cookie_key())
            == Seq::<Seq<u8>>::empty(),
        lookup(fields, cookie_key()).len() == 0 ==> (rewritten(fields, port).dom().contains(
            cookie_key(),
        ) <==> fields.dom().contains(cookie_key())),
{
    lemma_rewrite_names();
}

/// After the rewrite the last value under each forwarded key is the
/// proxy's own, whatever the request carried there before: those values
/// stay in front of it.
pub proof fn law_forwarded_headers(fields: Map<Seq<char>, Seq<Seq<u8>>>, port: Seq<u8>)
    ensures
        lookup(rewritten(fields, port), proto_key()) == lookup(fields, proto_key()).push(https()),
        lookup(rewritten(fields, port), scheme_key()) == lookup(fields, scheme_key()).push(https()),
        lookup(rewritten(fields, port), port_key()) == lookup(fields, port_key()).push(port),
{
    lemma_rewrite_names();
}

/// The rewrite alters no header but the cookie and the three forwarded ones.
pub proof fn law_other_headers_kept(fields: Map<Seq<char>, Seq<Seq<u8>>>, port: Seq<u8>, key: Seq<char>)
    requires
        key != cookie_key(),
        key != proto_key(),
        key != scheme_key(),
        key != port_key(),
    ensures
        rewritten(fields, port).dom().contains(key) <==> fields.dom().contains(key),
        lookup(rewritten(fields, port), key) == lookup(fields, key),
{
}

/// The two transformations do not depend on each other's order.
pub proof fn law_order_independent(fields: Map<Seq<char>, Seq<Seq<u8>>>, port: Seq<u8>)
    ensures
        forwarded(merged(fields), port) == merged(forwarded(fields, port)),
{
    lemma_rewrite_names();
    let a = forwarded(merged(fields), port);
    let b = merged(forwarded(fields, port));
    assert(lookup(forwarded(fields, port), cookie_key()) == lookup(fields, cookie_key()));
    assert(a =~= b);
}

/// Where in the joined value the value at `index` begins.
pub open spec fn offset(values: Seq<Seq<u8>>, index: int) -> int {
    if index == 0 {
        0
    } else {
        (joined(values.take(index)).len() + separator().len()) as int
    }
}

/// Merging drops no cookie value: each one stands in the joined value, whole
/// and in its place.
pub proof fn law_no_cookie_dropped(values: Seq<Seq<u8>>, index: int)
    requires
        0 <= index < values.len(),
    ensures
        0 <= offset(values, index),
        offset(values, index) + values[index].len() <= joined(values).len(),
        joined(values).subrange(offset(values, index), offset(values, index) + values[index].len())
            == values[index],
    decreases values.len(),
{
    lemma_separator();
    if values.len() == 1 {
        assert(values.take(0) == Seq::<Seq<u8>>::empty());
    } else {
        let front = values.drop_last();
        if index == values.len() - 1 {
            assert(values.take(index) == front);
        } else {
            law_no_cookie_dropped(front, index);
            assert(front.take(index) == values.take(index));
            assert(front[index] == values[index]);
        }
    }
}

} // verus!
