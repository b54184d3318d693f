//! One request, from route to reply: the instruction pages, the conversion,
//! and the decisions around the state-store forward, whose HTTP call the
//! caller makes.

use vstd::prelude::*;
use vstd::utf8::{encode_utf8, is_ascii_chars, is_ascii_chars_encode_utf8};

use crate::codec::{convert_image, converted, ConvertError};
use crate::response::{Response, STATUS_NOT_FOUND, STATUS_OK};
use crate::routes::{route, route_of, Method, Route};

verus! {

/// Why a request ended without a reply.
#[derive(Clone, Copy, Debug, PartialEq, Eq, Structural)]
pub enum ServiceError {
    /// A recognised image could not be converted.
    Convert(ConvertError),
    /// The state store could not be reached or its reply not read.
    Transport,
}

/// The POST the state-store route sends downstream.
#[derive(Debug)]
pub struct ForwardRequest {
    pub url: String,
    pub content_type: String,
    pub body: String,
    /// The body's length in bytes.
    pub content_length: usize,
}

/// What the caller does next for a request.
#[derive(Debug)]
pub enum Action {
    /// Send this reply.
    Reply(Response),
    /// Send this request to the state store, then pass its outcome to
    /// `forward_reply`.
    Forward(ForwardRequest),
    /// End the request without a reply.
    Fail(ServiceError),
}

pub open spec fn instructions_text() -> Seq<char> {
    "Try POSTing data to /grayscale such as: `curl http://localhost:9005/ -X POST --data-binary '@my_img.png'`"@
}

pub open spec fn state_instructions_text() -> Seq<char> {
    "Try saving state by POSTing data to /v1.0/state/statestore such as: `curl -X POST -H \"Content-Type: application/json\" -d '[{ \"key\": \"name\", \"value\": \"Bruce\"}]' http://localhost:9005/v1.0/state/statestore`"@
}

pub open spec fn state_store_url() -> Seq<char> {
    "http://localhost:3503/v1.0/state/statestore"@
}

pub open spec fn forward_body() -> Seq<char> {
    "[{ \"key\": \"name\", \"value\": \"Bruce Wayne\"}]"@
}

pub open spec fn json_content_type() -> Seq<char> {
    "application/json"@
}

pub open spec fn ok_text() -> Seq<char> {
    "OK"@
}

/// The usage text served at GET "/".
pub fn instructions() -> (r: Response)
    ensures
        r.status == STATUS_OK,
        r.body@ == instructions_text(),
        r.body@.len() > 0,
{
    proof {
        reveal_strlit(
            "Try POSTing data to /grayscale such as: `curl http://localhost:9005/ -X POST --data-binary '@my_img.png'`",
        );
    }
    Response::ok(
        "Try POSTing data to /grayscale such as: `curl http://localhost:9005/ -X POST --data-binary '@my_img.png'`".to_owned(),
    )
}

/// The usage text served at GET "/v1.0/state/statestore".
pub fn state_instructions() -> (r: Response)
    ensures
        r.status == STATUS_OK,
        r.body@ == state_instructions_text(),
        r.body@.len() > 0,
{
    proof {
        reveal_strlit(
            "Try saving state by POSTing data to /v1.0/state/statestore such as: `curl -X POST -H \"Content-Type: application/json\" -d '[{ \"key\": \"name\", \"value\": \"Bruce\"}]' http://localhost:9005/v1.0/state/statestore`",
        );
    }
    Response::ok(
        "Try saving state by POSTing data to /v1.0/state/statestore such as: `curl -X POST -H \"Content-Type: application/json\" -d '[{ \"key\": \"name\", \"value\": \"Bruce\"}]' http://localhost:9005/v1.0/state/statestore`".to_owned(),
    )
}

/// The fixed JSON document the state-store route sends, with its target.
pub fn forward_request() -> (r: ForwardRequest)
    ensures
        r.url@ == state_store_url(),
        r.content_type@ == json_content_type(),
        r.body@ == forward_body(),
        r.content_length == encode_utf8(r.body@).len(),
{
    let body: &str = "[{ \"key\": \"name\", \"value\": \"Bruce Wayne\"}]";
    proof {
        reveal_strlit("[{ \"key\": \"name\", \"value\": \"Bruce Wayne\"}]");
        assert(is_ascii_chars(body@));
        is_ascii_chars_encode_utf8(body@);
    }
    let content_length = body.len();
    ForwardRequest {
        url: "http://localhost:3503/v1.0/state/statestore".to_owned(),
        content_type: "application/json".to_owned(),
        body: body.to_owned(),
        content_length,
    }
}

/// The reply once the state store has answered (`Some`, with its body text)
/// or could not be reached (`None`). Its body is not relayed: the caller
/// gets "OK" whatever the store said.
pub fn forward_reply(downstream: Option<String>) -> (r: Result<Response, ServiceError>)
    ensures
        downstream is Some <==> r is Ok,
        r matches Ok(resp) ==> resp.status == STATUS_OK && resp.body@ == ok_text(),
        r matches Err(e) ==> e == ServiceError::Transport,
{
    match downstream {
        Some(_) => Ok(Response::ok("OK".to_owned())),
        None => Err(ServiceError::Transport),
    }
}

/// Handles one request: routes it and, for an upload, converts the image.
/// Unmatched method and path pairs get an empty 404. A recognised image
/// that cannot be decoded or re-encoded ends the request with
/// `Action::Fail` and no reply (see `converted`).
pub fn grayscale(method: Method, path: &str, body: &[u8]) -> (r: Action)
    ensures
        route_of(method, path@) == Route::Instructions ==> (r matches Action::Reply(resp)
            && resp.status == STATUS_OK && resp.body@ == instructions_text()
            && resp.body@.len() > 0),
        route_of(method, path@) == Route::StateInstructions ==> (r matches Action::Reply(resp)
            && resp.status == STATUS_OK && resp.body@ == state_instructions_text()
            && resp.body@.len() > 0),
        route_of(method, path@) == Route::NotFound ==> (r matches Action::Reply(resp)
            && resp.status == STATUS_NOT_FOUND && resp.body@.len() == 0),
        route_of(method, path@) == Route::StateForward ==> (r matches Action::Forward(f)
            && f.url@ == state_store_url() && f.content_type@ == json_content_type()
            && f.body@ == forward_body() && f.content_length
            == encode_utf8(f.body@).len()),
        route_of(method, path@) == Route::Convert ==> match r {
            Action::Reply(resp) => converted(body@, Ok(resp)),
            Action::Fail(e) => e matches ServiceError::Convert(c) && converted(body@, Err(c)),
            Action::Forward(_) => false,
        },
{
    match route(method, path) {
        Route::Instructions => Action::Reply(instructions()),
        Route::StateInstructions => Action::Reply(state_instructions()),
        Route::StateForward => Action::Forward(forward_request()),
        Route::NotFound => Action::Reply(Response::not_found()),
        Route::Convert => match convert_image(body) {
            Ok(resp) => Action::Reply(resp),
            Err(e) => Action::Fail(ServiceError::Convert(e)),
        },
    }
}

} // verus!
