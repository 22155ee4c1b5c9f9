//! Request and response headers as `pingora-http` holds them, and what this
//! library takes on trust about them.
//!
//! A header's fields are modelled as a map from a name's key to the values
//! stored under it, oldest first. Nothing in this file is proved: each
//! contract restates what the `pingora-http` and `http` sources show.

use vstd::prelude::*;
use crate::field::{field_key, valid_name, valid_value, MAX_NAMES};

verus! {

/// `pingora_http::RequestHeader`, carried through as it is.
#[verifier::external_type_specification]
#[verifier::external_body]
pub struct ExRequestHeader(pingora_http::RequestHeader);

/// `pingora_http::ResponseHeader`, carried through as it is.
#[verifier::external_type_specification]
#[verifier::external_body]
pub struct ExResponseHeader(pingora_http::ResponseHeader);

/// `pingora_error::Error`, with which the header types refuse a field.
#[verifier::external_type_specification]
#[verifier::external_body]
pub struct ExError(pingora_error::Error);

/// The fields of a request header: for each key, the values stored under it
/// in the order in which they were added.
pub uninterp spec fn request_fields(req: pingora_http::RequestHeader) -> Map<Seq<char>, Seq<Seq<u8>>>;

/// The path of a request's URI.
pub uninterp spec fn request_path(req: pingora_http::RequestHeader) -> Seq<char>;

/// The fields of a response header, as `request_fields` gives a request's.
pub uninterp spec fn response_fields(resp: pingora_http::ResponseHeader) -> Map<Seq<char>, Seq<Seq<u8>>>;

/// The status code of a response header.
pub uninterp spec fn response_status(resp: pingora_http::ResponseHeader) -> u16;

/// The byte sequences that `values` holds.
pub open spec fn views(values: Seq<Vec<u8>>) -> Seq<Seq<u8>> {
    Seq::new(values.len(), |i: int| values[i]@)
}

/// A header without fields.
pub open spec fn no_fields() -> Map<Seq<char>, Seq<Seq<u8>>> {
    Map::empty()
}

/// Whether `fields` holds exactly `n` distinct keys.
pub open spec fn counted(fields: Map<Seq<char>, Seq<Seq<u8>>>, n: nat) -> bool {
    fields.dom().finite() && fields.dom().len() == n
}

/// The values that `fields` holds under `key`; none where the key is absent.
pub open spec fn lookup(fields: Map<Seq<char>, Seq<Seq<u8>>>, key: Seq<char>) -> Seq<Seq<u8>> {
    if fields.dom().contains(key) {
        fields[key]
    } else {
        Seq::empty()
    }
}

/// `fields` with `value` as the only value under `key`.
pub open spec fn inserted(
    fields: Map<Seq<char>, Seq<Seq<u8>>>,
    key: Seq<char>,
    value: Seq<u8>,
) -> Map<Seq<char>, Seq<Seq<u8>>> {
    fields.insert(key, seq![value])
}

/// `fields` with `value` added after the values already under `key`.
pub open spec fn appended(
    fields: Map<Seq<char>, Seq<Seq<u8>>>,
    key: Seq<char>,
    value: Seq<u8>,
) -> Map<Seq<char>, Seq<Seq<u8>>> {
    fields.insert(key, lookup(fields, key).push(value))
}

/// Calls `http::HeaderMap::keys_len` on the request's header map: the number
/// of distinct names it holds, which is finite.
#[verifier::external_body]
pub(crate) fn request_names_len(req: &pingora_http::RequestHeader) -> (n: usize)
    ensures
        counted(request_fields(*req), n as nat),
{
    req.headers.keys_len()
}

/// Calls `http::HeaderMap::get_all` on the request's header map and copies
/// out the bytes of each value with `http::HeaderValue::as_bytes`: the
/// values stored under the name's key, in the order in which they were
/// added.
#[verifier::external_body]
pub(crate) fn request_values(req: &pingora_http::RequestHeader, name: &str) -> (values: Vec<Vec<u8>>)
    requires
        valid_name(name@),
    ensures
        views(values@) == lookup(request_fields(*req), field_key(name@)),
{
    let mut values = Vec::new();
    for value in req.headers.get_all(name).iter() {
        values.push(value.as_bytes().to_vec());
    }
    values
}

/// Calls `http::Uri::path` on the request's URI.
#[verifier::external_body]
pub(crate) fn request_uri_path(req: &pingora_http::RequestHeader) -> (path: String)
    ensures
        path@ == request_path(*req),
{
    req.uri.path().to_string()
}

/// Calls `pingora_http::RequestHeader::insert_header`. It succeeds exactly
/// when the name and the value are legal; it then leaves `value` as the only
/// value under the name's key and touches no other key. On failure the
/// fields are as before. The header map panics when it would have to grow
/// past 32768 slots; with fewer than `MAX_NAMES` names it never has to.
#[verifier::external_body]
pub(crate) fn request_insert(req: &mut pingora_http::RequestHeader, name: &str, value: &[u8]) -> (res: Result<(), Box<pingora_error::Error>>)
    requires
        request_fields(*old(req)).dom().finite(),
        request_fields(*old(req)).dom().len() < MAX_NAMES,
    ensures
        res.is_ok() <==> (valid_name(name@) && valid_value(value@)),
        res.is_ok() ==> request_fields(*final(req)) == inserted(
            request_fields(*old(req)),
            field_key(name@),
            value@,
        ),
        res.is_err() ==> request_fields(*final(req)) == request_fields(*old(req)),
        request_path(*final(req)) == request_path(*old(req)),
{
    req.insert_header(name.to_string(), value)
}

/// Calls `pingora_http::RequestHeader::append_header`. It succeeds exactly
/// when the name and the value are legal; it then adds `value` after the
/// values already under the name's key and touches no other key. On failure
/// the fields are as before. The flag tells whether the key was present.
/// It panics where `insert_header` does.
#[verifier::external_body]
pub(crate) fn request_append(req: &mut pingora_http::RequestHeader, name: &str, value: &[u8]) -> (res: Result<bool, Box<pingora_error::Error>>)
    requires
        request_fields(*old(req)).dom().finite(),
        request_fields(*old(req)).dom().len() < MAX_NAMES,
    ensures
        res.is_ok() <==> (valid_name(name@) && valid_value(value@)),
        res matches Ok(present) ==> present == request_fields(*old(req)).dom().contains(field_key(name@)),
        res.is_ok() ==> request_fields(*final(req)) == appended(
            request_fields(*old(req)),
            field_key(name@),
            value@,
        ),
        res.is_err() ==> request_fields(*final(req)) == request_fields(*old(req)),
        request_path(*final(req)) == request_path(*old(req)),
{
    req.append_header(name.to_string(), value)
}

/// Calls `pingora_http::ResponseHeader::build` with a numeric status. It
/// succeeds exactly for a status from 100 to 999 and gives a header with
/// that status and no fields.
#[verifier::external_body]
pub(crate) fn response_build(status: u16, size_hint: Option<usize>) -> (res: Result<pingora_http::ResponseHeader, Box<pingora_error::Error>>)
    ensures
        res.is_ok() <==> 100 <= status <= 999,
        res matches Ok(resp) ==> response_status(resp) == status,
        res matches Ok(resp) ==> response_fields(resp) == no_fields(),
{
    pingora_http::ResponseHeader::build(status, size_hint)
}

/// Calls `pingora_http::ResponseHeader::insert_header`, which treats a
/// response's fields as `request_insert` says of a request's, and keeps the
/// status.
#[verifier::external_body]
pub(crate) fn response_insert(resp: &mut pingora_http::ResponseHeader, name: &str, value: &[u8]) -> (res: Result<(), Box<pingora_error::Error>>)
    requires
        response_fields(*old(resp)).dom().finite(),
        response_fields(*old(resp)).dom().len() < MAX_NAMES,
    ensures
        res.is_ok() <==> (valid_name(name@) && valid_value(value@)),
        res.is_ok() ==> response_fields(*final(resp)) == inserted(
            response_fields(*old(resp)),
            field_key(name@),
            value@,
        ),
        res.is_err() ==> response_fields(*final(resp)) == response_fields(*old(resp)),
        response_status(*final(resp)) == response_status(*old(resp)),
{
    resp.insert_header(name.to_string(), value)
}

/// Calls `http::StatusCode::as_u16` on the response's status.
#[verifier::external_body]
pub(crate) fn response_status_code(resp: &pingora_http::ResponseHeader) -> (code: u16)
    ensures
        code == response_status(*resp),
{
    resp.status.as_u16()
}

} // verus!
