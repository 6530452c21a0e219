//! The client configuration and the response pipeline.
//!
//! The network exchange itself lives outside this library; what stands
//! here is everything that can be said of a response once its status,
//! header and body are in hand.  The order is fixed: the status class is
//! judged first, then the content type, and only then is the body parsed
//! as JSON and the envelope inspected — an error response commonly has a
//! body of a different shape, and must be reported as a status error,
//! not a parse error.

use vstd::prelude::*;

use crate::envelope::{decode_envelope, envelope_wf, handle_bungie_response, BungieResponse,
    PlatformErrorCodes};
use crate::error::{DecodeError, Error};
use crate::json::{jview, spec_lookup, Json, JsonValue};
use crate::transport::{content_type_ok, is_client_error, is_server_error, status_proceeds,
    validate_content_type, validate_status, RawResponse};
use crate::wire::{json_text, parse_json};

verus! {

/// Holds the key a client will authenticate with.
pub struct BungieClientBuilder {
    pub api_key: String,
}

impl BungieClientBuilder {
    pub fn new(api_key: String) -> (r: BungieClientBuilder)
        ensures
            r.api_key == api_key,
    {
        BungieClientBuilder { api_key }
    }
}

/// What the whole pipeline promises of a raw response: which outcome is
/// owed for every combination of status, header, body text and envelope.
pub open spec fn response_outcome_ok(response: RawResponse, r: Result<JsonValue, Error>) -> bool {
    match r {
        Ok(payload) => {
            &&& status_proceeds(response.status)
            &&& content_type_ok(response.content_type)
            &&& json_text(response.body@) matches Some(doc) && envelope_wf(doc)
            &&& json_text(response.body@) matches Some(Json::Obj(fields))
                && spec_lookup(fields, "Response"@) == Some(jview(payload))
                && spec_lookup(fields, "ErrorCode"@)
                    == Some(Json::Int(crate::envelope::SUCCESS_CODE as int))
        },
        Err(Error::ClientError(res)) => is_client_error(response.status) && res == response,
        Err(Error::ServerError(res)) => is_server_error(response.status) && res == response,
        Err(Error::InvalidContentType(observed)) => {
            &&& status_proceeds(response.status)
            &&& !content_type_ok(response.content_type)
            &&& response.content_type matches Some(v) && observed@ == v@
        },
        Err(Error::SerdeJson(e)) => {
            &&& status_proceeds(response.status)
            &&& content_type_ok(response.content_type)
            &&& match json_text(response.body@) {
                Option::None => e.path@.len() == 0,
                Some(doc) => !envelope_wf(doc) && crate::envelope::envelope_err_ok(doc, e),
            }
        },
        Err(Error::Bungie(code)) => {
            &&& status_proceeds(response.status)
            &&& content_type_ok(response.content_type)
            &&& json_text(response.body@) matches Some(doc) && envelope_wf(doc)
            &&& code !is Success && code.wf()
            &&& json_text(response.body@) matches Some(Json::Obj(fields))
                && spec_lookup(fields, "ErrorCode"@) matches Some(Json::Int(n))
                && code == PlatformErrorCodes::spec_of_code(n)
        },
        Err(Error::NoResponse) => false,
    }
}

/// Validates a raw response and decodes its body into the envelope.
pub fn process_response(response: RawResponse) -> (r: Result<BungieResponse<JsonValue>, Error>)
    ensures
        match r {
            Ok(env) => {
                &&& status_proceeds(response.status)
                &&& content_type_ok(response.content_type)
                &&& json_text(response.body@) matches Some(doc) && envelope_wf(doc)
                    && (doc matches Json::Obj(fields)
                    && crate::envelope::envelope_matches(fields, env))
                &&& env.error_code.wf()
            },
            Err(Error::ClientError(res)) => is_client_error(response.status) && res == response,
            Err(Error::ServerError(res)) => is_server_error(response.status) && res == response,
            Err(Error::InvalidContentType(observed)) => {
                &&& status_proceeds(response.status)
                &&& !content_type_ok(response.content_type)
                &&& response.content_type matches Some(v) && observed@ == v@
            },
            Err(Error::SerdeJson(e)) => {
                &&& status_proceeds(response.status)
                &&& content_type_ok(response.content_type)
                &&& match json_text(response.body@) {
                    Option::None => e.path@.len() == 0,
                    Some(doc) => !envelope_wf(doc) && crate::envelope::envelope_err_ok(doc, e),
                }
            },
            Err(Error::Bungie(_)) => false,
            Err(Error::NoResponse) => false,
        },
{
    let response = match validate_status(response) {
        Ok(res) => res,
        Err(e) => {
            return Err(e);
        },
    };
    let response = match validate_content_type(response) {
        Ok(res) => res,
        Err(e) => {
            return Err(e);
        },
    };
    let doc = match parse_json(response.body.as_str()) {
        Ok(doc) => doc,
        Err(message) => {
            return Err(Error::SerdeJson(DecodeError { path: String::new(), message }));
        },
    };
    match decode_envelope(&doc) {
        Ok(env) => Ok(env),
        Err(e) => Err(Error::SerdeJson(e)),
    }
}

/// The full pipeline: gate the response, decode the envelope, and unwrap
/// its payload or surface the typed error it calls for.
pub fn get_bungie_response(response: RawResponse) -> (r: Result<JsonValue, Error>)
    ensures
        response_outcome_ok(response, r),
{
    let env = match process_response(response) {
        Ok(env) => env,
        Err(e) => {
            return Err(e);
        },
    };
    handle_bungie_response(env)
}

} // verus!
