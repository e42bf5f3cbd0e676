//! The callback handler's logic: the log record written for each request,
//! and the fixed acknowledgment returned.
//!
//! The handler itself performs no I/O. It turns the parts of a request into
//! the ordered list of log lines for the caller to emit, and builds the
//! response. A body that is not valid UTF-8 is left out of the log; nothing
//! else about the request can fail.

use crate::clock;
use crate::clock::rfc3339_utc_shaped;
use crate::responses::CallbackResponse;
use crate::text;
use vstd::prelude::*;
use vstd::string::StringExecFns;
use vstd::utf8::{decode_utf8, valid_utf8};

verus! {

/// One header, pretty-printed: an indented, quoted name and value.
pub open spec fn header_line_spec(name: Seq<char>, value: Seq<char>) -> Seq<char> {
    "    \""@ + name + "\": \""@ + value + "\",\n"@
}

/// All headers, one pretty-printed line each, in request order.
pub open spec fn headers_pretty(hs: Seq<(Seq<char>, Seq<char>)>) -> Seq<char>
    decreases hs.len(),
{
    if hs.len() == 0 {
        Seq::empty()
    } else {
        header_line_spec(hs[0].0, hs[0].1) + headers_pretty(hs.drop_first())
    }
}

/// The headers as one braced block.
pub open spec fn headers_block_spec(hs: Seq<(Seq<char>, Seq<char>)>) -> Seq<char> {
    "{\n"@ + headers_pretty(hs) + "}"@
}

/// Pretty-printing works header by header: extending the list by one pair
/// appends that pair's line to the block.
pub proof fn lemma_headers_pretty_push(hs: Seq<(Seq<char>, Seq<char>)>, p: (Seq<char>, Seq<char>))
    ensures
        headers_pretty(hs.push(p)) == headers_pretty(hs) + header_line_spec(p.0, p.1),
    decreases hs.len(),
{
    if hs.len() == 0 {
        assert(hs.push(p).drop_first() =~= hs);
        assert(headers_pretty(hs.push(p)) =~= headers_pretty(hs) + header_line_spec(p.0, p.1));
    } else {
        assert(hs.push(p).drop_first() =~= hs.drop_first().push(p));
        lemma_headers_pretty_push(hs.drop_first(), p);
        assert(headers_pretty(hs.push(p)) =~= headers_pretty(hs) + header_line_spec(p.0, p.1));
    }
}

/// The log record for one callback request: a start marker, the method, the
/// source address, the headers, the body when it decodes as UTF-8, and an
/// end marker, in that order.
pub open spec fn callback_log_spec(
    method: Seq<char>,
    headers: Seq<(Seq<char>, Seq<char>)>,
    source_ip: Seq<char>,
    body: Seq<u8>,
) -> Seq<Seq<char>> {
    let base = seq![
        "=== Incoming Request ==="@,
        "Method: "@ + method,
        "Source Ip: "@ + source_ip,
        "Headers: "@ + headers_block_spec(headers),
    ];
    let with_body = if valid_utf8(body) {
        base.push("Body: "@ + decode_utf8(body))
    } else {
        base
    };
    with_body.push("=== End Request ==="@)
}

/// The log record has a fixed shape: five lines, or six when the body is
/// valid UTF-8, and the body appears in the log exactly in that case.
pub proof fn lemma_callback_log_shape(
    method: Seq<char>,
    headers: Seq<(Seq<char>, Seq<char>)>,
    source_ip: Seq<char>,
    body: Seq<u8>,
)
    ensures
        valid_utf8(body) <==> callback_log_spec(method, headers, source_ip, body).len() == 6,
        !valid_utf8(body) <==> callback_log_spec(method, headers, source_ip, body).len() == 5,
        callback_log_spec(method, headers, source_ip, body)[0] == "=== Incoming Request ==="@,
        callback_log_spec(method, headers, source_ip, body)[1] == "Method: "@ + method,
        callback_log_spec(method, headers, source_ip, body)[2] == "Source Ip: "@ + source_ip,
        callback_log_spec(method, headers, source_ip, body)[3] == "Headers: "@
            + headers_block_spec(headers),
        valid_utf8(body) ==> callback_log_spec(method, headers, source_ip, body)[4] == "Body: "@
            + decode_utf8(body),
        callback_log_spec(method, headers, source_ip, body).last() == "=== End Request ==="@,
{
}

/// Renders the headers as one braced block, one line per pair.
pub fn render_headers(headers: &Vec<(String, String)>) -> (r: String)
    ensures
        r@ == headers_block_spec(headers.deep_view()),
{
    let mut out = String::from_str("{\n");
    let mut i: usize = 0;
    while i < headers.len()
        invariant
            0 <= i <= headers@.len(),
            out@ == "{\n"@ + headers_pretty(headers.deep_view().take(i as int)),
        decreases headers@.len() - i,
    {
        let pair = &headers[i];
        out.append("    \"");
        out.append(pair.0.as_str());
        out.append("\": \"");
        out.append(pair.1.as_str());
        out.append("\",\n");
        proof {
            lemma_headers_pretty_push(
                headers.deep_view().take(i as int),
                headers.deep_view()[i as int],
            );
            assert(headers.deep_view().take(i + 1) =~= headers.deep_view().take(i as int).push(
                headers.deep_view()[i as int],
            ));
            assert(out@ =~= "{\n"@ + headers_pretty(headers.deep_view().take(i + 1)));
        }
        i += 1;
    }
    out.append("}");
    proof {
        assert(headers.deep_view().take(headers@.len() as int) =~= headers.deep_view());
        assert(out@ =~= headers_block_spec(headers.deep_view()));
    }
    out
}

/// Handles a callback request: returns the log lines to emit, in order, and
/// the fixed acknowledgment with the current time as an RFC 3339 timestamp.
/// Every method and every body, valid UTF-8 or not, is accepted.
pub fn log_callback(
    method: &str,
    headers: &Vec<(String, String)>,
    source_ip: &str,
    body: &Vec<u8>,
) -> (r: (Vec<String>, CallbackResponse))
    ensures
        r.0.deep_view() == callback_log_spec(method@, headers.deep_view(), source_ip@, body@),
        r.1.status@ == "success"@,
        r.1.message@ == "callback received"@,
        rfc3339_utc_shaped(r.1.timestamp@),
{
    let mut lines: Vec<String> = Vec::new();
    lines.push(String::from_str("=== Incoming Request ==="));
    let mut method_line = String::from_str("Method: ");
    method_line.append(method);
    lines.push(method_line);
    let mut ip_line = String::from_str("Source Ip: ");
    ip_line.append(source_ip);
    lines.push(ip_line);
    let mut header_line = String::from_str("Headers: ");
    let block = render_headers(headers);
    header_line.append(block.as_str());
    lines.push(header_line);
    match text::bytes_to_utf8(body) {
        Some(decoded) => {
            let mut body_line = String::from_str("Body: ");
            body_line.append(decoded.as_str());
            lines.push(body_line);
        },
        None => {},
    }
    lines.push(String::from_str("=== End Request ==="));
    proof {
        assert(lines.deep_view() =~= callback_log_spec(
            method@,
            headers.deep_view(),
            source_ip@,
            body@,
        ));
    }
    let response = CallbackResponse {
        status: String::from_str("success"),
        message: String::from_str("callback received"),
        timestamp: clock::now_rfc3339(),
    };
    (lines, response)
}

} // verus!
