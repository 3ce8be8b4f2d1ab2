//! The two endpoints that touch no record: a fixed greeting, by which a
//! client tells that the server runs, and an echo.

use crate::http::{text_response, Body, BodyView, Response, ResponseView, OK};
use vstd::prelude::*;

verus! {

/// The response that hands the bytes `body` back.
pub open spec fn spec_echo(body: Seq<u8>) -> ResponseView {
    ResponseView { status: OK as int, body: BodyView::Bytes(body) }
}

/// Answers a request for the root: status 200 and always the same text.
pub fn hello() -> (r: Response)
    ensures
        r@ == text_response(OK as int, "Server is running successfully"@),
{
    Response::text(OK, "Server is running successfully".to_owned())
}

/// Hands a request's body back: status 200 and the body as it was sent,
/// byte for byte, whether or not the bytes are text.
pub fn echo(req_body: Vec<u8>) -> (r: Response)
    ensures
        r@ == spec_echo(req_body@),
        r.status == 200,
        r.body matches Body::Bytes(bytes) && bytes@ == req_body@,
{
    Response { status: OK, body: Body::Bytes(req_body) }
}

} // verus!
