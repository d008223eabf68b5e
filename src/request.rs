//! The decisions of one call: classifying the transport's outcome, decoding
//! the envelope, and turning a nonzero business code into an error.

use vstd::prelude::*;
use crate::diagnostic::{extract_excerpt, Excerpt, floor_boundary, window_high, window_low};
use crate::error::{BpiError, code_text};
use crate::json::{json_error_text, lossy_text, utf8_lossy};
use crate::response::BpiResponse;
use vstd::string::*;
use vstd::utf8::encode_utf8;

verus! {

/// A status in 200..=299.
pub open spec fn is_success_status(status: u16) -> bool {
    200 <= status <= 299
}

/// What becomes of a sent request: a transport failure, or the status the
/// server answered with. Only a success status goes on to the body.
pub open spec fn sent_outcome(sent: Result<u16, String>) -> Result<(), BpiError> {
    match sent {
        Err(detail) => Err(BpiError::Network { message: detail }),
        Ok(status) => if is_success_status(status) {
            Ok(())
        } else {
            Err(BpiError::Http { status })
        },
    }
}

/// Classifies the outcome of sending a request. On `Ok(())` the caller reads
/// the body; on an error the call ends there and the body is never read.
pub fn on_sent(sent: Result<u16, String>) -> (r: Result<(), BpiError>)
    ensures
        r == sent_outcome(sent),
{
    match sent {
        Err(detail) => Err(BpiError::network(detail)),
        Ok(status) => if 200 <= status && status <= 299 {
            Ok(())
        } else {
            Err(BpiError::http(status))
        },
    }
}

/// A status outside 200..=299 ends the call with an HTTP failure that
/// carries exactly that status, whatever the body holds: the body is not read
/// and not parsed.
pub proof fn lemma_http_failure_keeps_status(status: u16)
    requires
        !is_success_status(status),
    ensures
        sent_outcome(Ok(status)) == Err::<(), BpiError>(BpiError::Http { status }),
{
}

/// The prefix of the message of a failed body read.
pub open spec fn body_failure_prefix() -> Seq<char> {
    "获取响应体失败: "@
}

/// Classifies the outcome of reading the body: a failed read is a network
/// failure too.
pub fn on_body(body: Result<Vec<u8>, String>) -> (r: Result<Vec<u8>, BpiError>)
    ensures
        body is Ok ==> r is Ok && r->Ok_0 == body->Ok_0,
        body is Err ==> r is Err && r->Err_0 is Network && r->Err_0->Network_message@
            == body_failure_prefix() + body->Err_0@,
{
    match body {
        Ok(bytes) => Ok(bytes),
        Err(detail) => {
            let mut message = "获取响应体失败: ".to_owned();
            message.append(detail.as_str());
            Err(BpiError::network(message))
        },
    }
}

/// A message that stands for "no message": empty, or the literal `"0"`.
pub open spec fn is_blank_message(m: Seq<char>) -> bool {
    m.len() == 0 || m == "0"@
}

/// The message of a business failure: the server's own where it gave one,
/// else the code table's.
pub open spec fn business_message(code: i32, m: Seq<char>) -> Seq<char> {
    if is_blank_message(m) {
        code_text(code)
    } else {
        m
    }
}

/// Passes an envelope with `code == 0` through unchanged; any other code
/// becomes a business failure, and the payload is dropped.
pub fn check_business<T>(resp: BpiResponse<T>) -> (r: Result<BpiResponse<T>, BpiError>)
    ensures
        resp.code == 0 ==> r == Ok::<BpiResponse<T>, BpiError>(resp),
        resp.code != 0 ==> r is Err && r->Err_0 is Api && r->Err_0->Api_code == resp.code
            && r->Err_0->Api_message@ == business_message(resp.code, resp.message@),
{
    if resp.code == 0 {
        return Ok(resp);
    }
    let empty = String::new();
    let zero = "0".to_owned();
    proof {
        assert(resp.message@.len() == 0 ==> resp.message@ =~= empty@);
    }
    if resp.message == empty || resp.message == zero {
        Err(BpiError::from_code(resp.code))
    } else {
        Err(BpiError::from_code_message(resp.code, resp.message))
    }
}

/// The failure offset that a one-based column stands for.
pub open spec fn column_offset(column: usize) -> int {
    if column >= 1 { column - 1 } else { 0 }
}

/// Finishes decoding a body: `parsed` is what parsing `raw` as an envelope
/// gave. A parse failure becomes a decode failure; with `diagnostics` on, it
/// comes with the excerpt of the lossily decoded body around the failure
/// column. A parsed envelope goes through [`check_business`].
pub fn decode_envelope<T>(
    raw: &[u8],
    parsed: Result<BpiResponse<T>, serde_json::Error>,
    diagnostics: bool,
) -> (r: (Result<BpiResponse<T>, BpiError>, Option<Excerpt>))
    ensures
        parsed is Ok ==> r.1 is None && (match parsed {
            Ok(resp) => (resp.code == 0 ==> r.0 == Ok::<BpiResponse<T>, BpiError>(resp)) && (
            resp.code != 0 ==> r.0 is Err && r.0->Err_0 is Api && r.0->Err_0->Api_code
                == resp.code && r.0->Err_0->Api_message@ == business_message(
                resp.code,
                resp.message@,
            )),
            Err(_) => true,
        }),
        parsed is Err ==> r.0 is Err && r.0->Err_0 is Parse && (r.1 is Some <==> diagnostics) && (
        match r.1 {
            Some(x) => {
                let b = encode_utf8(lossy_text(raw@));
                let off = column_offset(r.0->Err_0->Parse_column);
                &&& x.start == floor_boundary(b, window_low(off))
                &&& x.end == floor_boundary(b, window_high(b.len() as int, off))
                &&& x.start <= x.end <= b.len()
                &&& encode_utf8(x.context@) == b.subrange(x.start as int, x.end as int)
            },
            None => true,
        }),
{
    match parsed {
        Ok(resp) => (check_business(resp), None),
        Err(e) => {
            let line = e.line();
            let column = e.column();
            let message = json_error_text(&e);
            let excerpt = if diagnostics {
                let text = utf8_lossy(raw);
                let offset: usize = if column >= 1 { column - 1 } else { 0 };
                Some(extract_excerpt(text.as_str(), offset))
            } else {
                None
            };
            (Err(BpiError::Parse { line, column, message }), excerpt)
        },
    }
}

} // verus!
