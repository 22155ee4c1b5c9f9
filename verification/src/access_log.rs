//! The access log: one line for each request, with the status that the
//! client was answered with.

use vstd::prelude::*;
use vstd::string::StringExecFns;
use pingora_http::ResponseHeader;
use crate::header::{response_status, response_status_code};

verus! {

/// The numeral for a digit.
pub open spec fn digit(d: nat) -> Seq<char> {
    if d == 0 {
        "0"@
    } else if d == 1 {
        "1"@
    } else if d == 2 {
        "2"@
    } else if d == 3 {
        "3"@
    } else if d == 4 {
        "4"@
    } else if d == 5 {
        "5"@
    } else if d == 6 {
        "6"@
    } else if d == 7 {
        "7"@
    } else if d == 8 {
        "8"@
    } else {
        "9"@
    }
}

/// A number in decimal, without leading zeros.
pub open spec fn decimal(n: nat) -> Seq<char>
    decreases n,
{
    if n < 10 {
        digit(n)
    } else {
        decimal(n / 10) + digit(n % 10)
    }
}

/// What stands between the request's summary and the status.
pub open spec fn label() -> Seq<char> {
    " response code: "@
}

/// The line that records a request: its summary, the label, and the status
/// in decimal.
pub open spec fn record(summary: Seq<char>, code: u16) -> Seq<char> {
    summary + label() + decimal(code as nat)
}

/// The status that is recorded for a request: that of the response that was
/// written, and 0 where none was.
pub open spec fn recorded_status(response: Option<&ResponseHeader>) -> u16 {
    match response {
        Some(resp) => response_status(*resp),
        None => 0,
    }
}

fn numeral(d: u16) -> (text: &'static str)
    requires
        d < 10,
    ensures
        text@ == digit(d as nat),
{
    if d == 0 {
        "0"
    } else if d == 1 {
        "1"
    } else if d == 2 {
        "2"
    } else if d == 3 {
        "3"
    } else if d == 4 {
        "4"
    } else if d == 5 {
        "5"
    } else if d == 6 {
        "6"
    } else if d == 7 {
        "7"
    } else if d == 8 {
        "8"
    } else {
        "9"
    }
}

/// Writes `n` in decimal behind `out`.
pub fn write_decimal(out: &mut String, n: u16)
    ensures
        final(out)@ == old(out)@ + decimal(n as nat),
    decreases n,
{
    if n >= 10 {
        write_decimal(out, n / 10);
    }
    out.append(numeral(n % 10));
}

/// The status to record for a request.
pub fn response_code(response: Option<&ResponseHeader>) -> (code: u16)
    ensures
        code == recorded_status(response),
{
    match response {
        Some(resp) => response_status_code(resp),
        None => 0,
    }
}

/// The access log's line for a request.
pub fn access_log_line(summary: &str, code: u16) -> (line: String)
    ensures
        line@ == record(summary@, code),
{
    let mut line = summary.to_owned();
    line.append(" response code: ");
    write_decimal(&mut line, code);
    line
}

} // verus!
