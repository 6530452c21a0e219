//! The response envelope.
//!
//! Every normal endpoint wraps its payload in a common object carrying a
//! platform status code.  Decoding strips that wrapper: a success code
//! hands the payload through, any other code becomes a typed error that
//! keeps the exact numeric code, recognized or not.

use vstd::prelude::*;

use crate::error::{DecodeError, Error};
use crate::json::{jview, spec_lookup, Json, JsonValue};

verus! {

/// The platform status code: an open enumeration.  One reserved value
/// means success; every other integer, including ones unknown to this
/// client, is preserved verbatim as `Unknown`.
#[derive(Debug, Clone, Copy, PartialEq, Eq)]
pub enum PlatformErrorCodes {
    Success,
    Unknown(u32),
}

/// The reserved success code.
pub const SUCCESS_CODE: u32 = 1;

impl PlatformErrorCodes {
    /// The numeric code this value stands for.
    pub open spec fn spec_code(self) -> int {
        match self {
            PlatformErrorCodes::Success => SUCCESS_CODE as int,
            PlatformErrorCodes::Unknown(c) => c as int,
        }
    }

    /// The value a numeric code decodes to.
    pub open spec fn spec_of_code(code: int) -> PlatformErrorCodes {
        if code == SUCCESS_CODE as int {
            PlatformErrorCodes::Success
        } else {
            PlatformErrorCodes::Unknown(code as u32)
        }
    }

    /// A decoded code never holds the success value under `Unknown`.
    pub open spec fn wf(self) -> bool {
        self matches PlatformErrorCodes::Unknown(c) ==> c != SUCCESS_CODE
    }

    /// Decodes a numeric code: the reserved value yields `Success`, any
    /// other integer is preserved as `Unknown` with that exact integer.
    pub fn from_code(code: u32) -> (r: PlatformErrorCodes)
        ensures
            r == PlatformErrorCodes::spec_of_code(code as int),
            r.wf(),
    {
        if code == SUCCESS_CODE {
            PlatformErrorCodes::Success
        } else {
            PlatformErrorCodes::Unknown(code)
        }
    }

    /// Re-encodes the code: `Success` as the reserved value, `Unknown`
    /// as the integer it carries.
    pub fn code(&self) -> (r: u32)
        ensures
            r as int == self.spec_code(),
    {
        match self {
            PlatformErrorCodes::Success => SUCCESS_CODE,
            PlatformErrorCodes::Unknown(c) => *c,
        }
    }

    /// Decoding a code and re-encoding it yields the code unchanged, and
    /// a well-formed value re-encodes to the code it decodes from.
    pub proof fn lemma_code_round_trip(code: u32, v: PlatformErrorCodes)
        requires
            v.wf(),
        ensures
            PlatformErrorCodes::spec_of_code(code as int).spec_code() == code as int,
            PlatformErrorCodes::spec_of_code(v.spec_code()) == v,
    {
    }
}

/// The universal wire wrapper of every API call.
#[derive(Debug)]
pub struct BungieResponse<T> {
    pub response: T,
    pub error_code: PlatformErrorCodes,
    pub throttle_seconds: i32,
    pub error_status: String,
    pub message: String,
    pub message_data: Vec<(String, String)>,
    pub detailed_error_trace: Option<String>,
}

/// Whether `k` is one of the envelope's own field names; the envelope
/// rejects any field beyond this set.
pub open spec fn envelope_key(k: Seq<char>) -> bool {
    ||| k == "Response"@
    ||| k == "ErrorCode"@
    ||| k == "ThrottleSeconds"@
    ||| k == "ErrorStatus"@
    ||| k == "Message"@
    ||| k == "MessageData"@
    ||| k == "DetailedErrorTrace"@
}

/// Whether every value of a string-to-string mapping object is a string.
pub open spec fn string_map_wf(md: Seq<(Seq<char>, Json)>) -> bool {
    forall|i: int| 0 <= i < md.len() ==> (#[trigger] md[i]).1 is Str
}

/// Whether a document has the envelope shape: an object with exactly the
/// envelope fields, each of its wire type, the diagnostic trace optional.
pub open spec fn envelope_wf(j: Json) -> bool {
    &&& j matches Json::Obj(fields)
    &&& spec_lookup(fields, "Response"@) is Some
    &&& spec_lookup(fields, "ErrorCode"@) matches Some(Json::Int(code)) && 0 <= code <= u32::MAX
    &&& spec_lookup(fields, "ThrottleSeconds"@) matches Some(Json::Int(t)) && i32::MIN <= t
        <= i32::MAX
    &&& spec_lookup(fields, "ErrorStatus"@) matches Some(Json::Str(_))
    &&& spec_lookup(fields, "Message"@) matches Some(Json::Str(_))
    &&& spec_lookup(fields, "MessageData"@) matches Some(Json::Obj(md)) && string_map_wf(md)
    &&& match spec_lookup(fields, "DetailedErrorTrace"@) {
        Option::None => true,
        Some(Json::Null) => true,
        Some(Json::Str(_)) => true,
        _ => false,
    }
    &&& forall|i: int| 0 <= i < fields.len() ==> envelope_key((#[trigger] fields[i]).0)
}

/// The mathematical shape of a decoded string-to-string mapping.
pub open spec fn string_pairs_view(v: Seq<(String, String)>) -> Seq<(Seq<char>, Json)> {
    Seq::new(v.len(), |i: int| (v[i].0@, Json::Str(v[i].1@)))
}

/// How a decoded envelope relates to the document it came from.
pub open spec fn envelope_matches(fields: Seq<(Seq<char>, Json)>, env: BungieResponse<JsonValue>) -> bool {
    &&& spec_lookup(fields, "Response"@) == Some(jview(env.response))
    &&& spec_lookup(fields, "ErrorCode"@) matches Some(Json::Int(code))
        && env.error_code == PlatformErrorCodes::spec_of_code(code)
    &&& spec_lookup(fields, "ThrottleSeconds"@) == Some(Json::Int(env.throttle_seconds as int))
    &&& spec_lookup(fields, "ErrorStatus"@) == Some(Json::Str(env.error_status@))
    &&& spec_lookup(fields, "Message"@) == Some(Json::Str(env.message@))
    &&& spec_lookup(fields, "MessageData"@) matches Some(Json::Obj(md))
        && string_pairs_view(env.message_data@) == md
    &&& match env.detailed_error_trace {
        Some(s) => spec_lookup(fields, "DetailedErrorTrace"@) == Some(Json::Str(s@)),
        Option::None => spec_lookup(fields, "DetailedErrorTrace"@) is None
            || spec_lookup(fields, "DetailedErrorTrace"@) == Some(Json::Null),
    }
}

/// What an envelope decode failure names: its path is empty only when
/// the document is no object at all; otherwise it points at an envelope
/// field that is indeed not decodable, or at a field beyond the
/// envelope's own set.
pub open spec fn envelope_err_ok(j: Json, e: DecodeError) -> bool {
    &&& !(j matches Json::Obj(_)) ==> e.path@.len() == 0
    &&& j matches Json::Obj(fields) ==> (
        (e.path@ == "Response"@ && spec_lookup(fields, "Response"@) is None)
        || (e.path@ == "ErrorCode"@ && !(spec_lookup(fields, "ErrorCode"@)
            matches Some(Json::Int(code)) && 0 <= code <= u32::MAX))
        || (e.path@ == "ThrottleSeconds"@ && !(spec_lookup(fields, "ThrottleSeconds"@)
            matches Some(Json::Int(t)) && i32::MIN <= t <= i32::MAX))
        || (e.path@ == "ErrorStatus"@
            && !(spec_lookup(fields, "ErrorStatus"@) matches Some(Json::Str(_))))
        || (e.path@ == "Message"@
            && !(spec_lookup(fields, "Message"@) matches Some(Json::Str(_))))
        || (e.path@ == "MessageData"@ && !(match spec_lookup(fields, "MessageData"@) {
            Some(Json::Obj(md)) => string_map_wf(md),
            _ => false,
        }))
        || (e.path@ == "DetailedErrorTrace"@
            && !(match spec_lookup(fields, "DetailedErrorTrace"@) {
            Option::None => true,
            Some(Json::Null) => true,
            Some(Json::Str(_)) => true,
            _ => false,
        }))
        || (exists|i: int| 0 <= i < fields.len() && (#[trigger] fields[i]).0 == e.path@
            && !envelope_key(fields[i].0)))
}

/// Decodes the envelope object.  Fails, naming the offending field, on a
/// document that is not an object, lacks a required field, gives a field
/// the wrong wire type, or carries a field beyond the envelope's own.
#[verifier::loop_isolation(false)]
pub fn decode_envelope(j: &JsonValue) -> (r: Result<BungieResponse<JsonValue>, DecodeError>)
    ensures
        r is Ok <==> envelope_wf(jview(*j)),
        r matches Ok(env) ==> (jview(*j) matches Json::Obj(fields) && envelope_matches(fields, env)
            && env.error_code.wf()),
        r matches Err(e) ==> envelope_err_ok(jview(*j), e),
{
    let fields = match j {
        JsonValue::Obj(fields) => fields,
        _ => {
            return Err(DecodeError {
                path: String::new(),
                message: "an envelope object".to_owned(),
            });
        },
    };
    let ghost gf = jview(*j)->Obj_0;

    let response = match j.get("Response") {
        Some(v) => v.duplicate(),
        Option::None => {
            return Err(decode_error("Response", "a payload field"));
        },
    };
    let error_code = match j.get("ErrorCode") {
        Some(v) => {
            match v.to_i64() {
                Some(n) if 0 <= n && n <= u32::MAX as i64 => {
                    PlatformErrorCodes::from_code(n as u32)
                },
                _ => {
                    return Err(decode_error("ErrorCode", "a 32-bit unsigned integer"));
                },
            }
        },
        Option::None => {
            return Err(decode_error("ErrorCode", "a 32-bit unsigned integer"));
        },
    };
    let throttle_seconds = match j.get("ThrottleSeconds") {
        Some(v) => {
            match v.to_i64() {
                Some(n) if i32::MIN as i64 <= n && n <= i32::MAX as i64 => n as i32,
                _ => {
                    return Err(decode_error("ThrottleSeconds", "a 32-bit integer"));
                },
            }
        },
        Option::None => {
            return Err(decode_error("ThrottleSeconds", "a 32-bit integer"));
        },
    };
    let error_status = match j.get("ErrorStatus") {
        Some(JsonValue::Str(s)) => s.clone(),
        _ => {
            return Err(decode_error("ErrorStatus", "a string"));
        },
    };
    let message = match j.get("Message") {
        Some(JsonValue::Str(s)) => s.clone(),
        _ => {
            return Err(decode_error("Message", "a string"));
        },
    };
    let message_data = match j.get("MessageData") {
        Some(md) => {
            match md {
                JsonValue::Obj(entries) => {
                    let ghost gmd = jview(*md)->Obj_0;
                    let mut out: Vec<(String, String)> = Vec::new();
                    let mut i: usize = 0;
                    while i < entries.len()
                        invariant
                            i <= entries.len(),
                            out@.len() == i,
                            forall|k: int| 0 <= k < i
                                ==> (#[trigger] out@[k]).0@ == gmd[k].0
                                    && gmd[k].1 == Json::Str(out@[k].1@),
                        decreases entries.len() - i,
                    {
                        proof {
                            assert(gmd[i as int]
                                == (entries@[i as int].0@, jview(entries@[i as int].1)));
                        }
                        match &entries[i].1 {
                            JsonValue::Str(s) => {
                                out.push((entries[i].0.clone(), s.clone()));
                            },
                            _ => {
                                return Err(decode_error("MessageData", "string values"));
                            },
                        }
                        i = i + 1;
                    }
                    proof {
                        assert(string_pairs_view(out@) =~= gmd);
                    }
                    out
                },
                _ => {
                    return Err(decode_error("MessageData", "a string mapping object"));
                },
            }
        },
        Option::None => {
            return Err(decode_error("MessageData", "a string mapping object"));
        },
    };
    let detailed_error_trace = match j.get("DetailedErrorTrace") {
        Some(JsonValue::Str(s)) => Some(s.clone()),
        Some(JsonValue::Null) => Option::None,
        Option::None => Option::None,
        _ => {
            return Err(decode_error("DetailedErrorTrace", "a string or null"));
        },
    };

    // The envelope rejects any field beyond its own set.
    let mut i: usize = 0;
    while i < fields.len()
        invariant
            i <= fields.len(),
            gf.len() == fields@.len(),
            forall|k: int| 0 <= k < gf.len()
                ==> #[trigger] gf[k] == (fields@[k].0@, jview(fields@[k].1)),
            forall|k: int| 0 <= k < i ==> envelope_key((#[trigger] gf[k]).0),
        decreases fields.len() - i,
    {
        let name = fields[i].0.as_str();
        if !(crate::json::str_eq(name, "Response") || crate::json::str_eq(name, "ErrorCode")
            || crate::json::str_eq(name, "ThrottleSeconds")
            || crate::json::str_eq(name, "ErrorStatus") || crate::json::str_eq(name, "Message")
            || crate::json::str_eq(name, "MessageData")
            || crate::json::str_eq(name, "DetailedErrorTrace")) {
            proof {
                assert(gf[i as int].0 == fields@[i as int].0@);
                assert(!envelope_key(gf[i as int].0));
                assert(!envelope_wf(jview(*j)));
            }
            return Err(DecodeError {
                path: fields[i].0.clone(),
                message: "only envelope fields".to_owned(),
            });
        }
        i = i + 1;
    }

    Ok(BungieResponse {
        response,
        error_code,
        throttle_seconds,
        error_status,
        message,
        message_data,
        detailed_error_trace,
    })
}

/// Unwraps a decoded envelope: the success code hands the payload
/// through; any other code, recognized or not, becomes an error that
/// preserves the code.
pub fn handle_bungie_response<T>(de: BungieResponse<T>) -> (r: Result<T, Error>)
    ensures
        match r {
            Ok(v) => de.error_code is Success && v == de.response,
            Err(e) => de.error_code !is Success && (e matches Error::Bungie(code)
                && code == de.error_code),
        },
{
    match de.error_code {
        PlatformErrorCodes::Success => Ok(de.response),
        code => Err(Error::Bungie(code)),
    }
}

fn decode_error(path: &str, expected: &str) -> (r: DecodeError)
    ensures
        r.path@ == path@,
        r.message@ == expected@,
{
    DecodeError { path: path.to_owned(), message: expected.to_owned() }
}


/// The wire image of an envelope around an already-encoded payload.
pub open spec fn envelope_json(env: BungieResponse<JsonValue>) -> Json {
    Json::Obj(
        seq![
            ("Response"@, jview(env.response)),
            ("ErrorCode"@, Json::Int(env.error_code.spec_code())),
            ("ThrottleSeconds"@, Json::Int(env.throttle_seconds as int)),
            ("ErrorStatus"@, Json::Str(env.error_status@)),
            ("Message"@, Json::Str(env.message@)),
            ("MessageData"@, Json::Obj(string_pairs_view(env.message_data@))),
            ("DetailedErrorTrace"@, (match env.detailed_error_trace {
                Some(s) => Json::Str(s@),
                Option::None => Json::Null,
            })),
        ],
    )
}

/// Re-encodes an envelope to its wire object.
pub fn encode_envelope(env: &BungieResponse<JsonValue>) -> (r: JsonValue)
    ensures
        jview(r) == envelope_json(*env),
{
    let mut fields: Vec<(String, JsonValue)> = Vec::new();
    fields.push(("Response".to_owned(), env.response.duplicate()));
    fields.push(("ErrorCode".to_owned(), JsonValue::Int(env.error_code.code() as i64)));
    fields.push(("ThrottleSeconds".to_owned(), JsonValue::Int(env.throttle_seconds as i64)));
    fields.push(("ErrorStatus".to_owned(), JsonValue::Str(env.error_status.clone())));
    fields.push(("Message".to_owned(), JsonValue::Str(env.message.clone())));
    let mut md: Vec<(String, JsonValue)> = Vec::new();
    let mut i: usize = 0;
    while i < env.message_data.len()
        invariant
            i <= env.message_data.len(),
            md@.len() == i,
            forall|k: int| 0 <= k < i
                ==> (#[trigger] md@[k]).0@ == env.message_data@[k].0@
                    && jview(md@[k].1) == Json::Str(env.message_data@[k].1@),
        decreases env.message_data.len() - i,
    {
        md.push((env.message_data[i].0.clone(), JsonValue::Str(env.message_data[i].1.clone())));
        i = i + 1;
    }
    let md_json = JsonValue::Obj(md);
    proof {
        assert(jview(md_json)->Obj_0 =~= string_pairs_view(env.message_data@));
    }
    fields.push(("MessageData".to_owned(), md_json));
    fields.push(("DetailedErrorTrace".to_owned(), match &env.detailed_error_trace {
        Some(s) => JsonValue::Str(s.clone()),
        Option::None => JsonValue::Null,
    }));
    let r = JsonValue::Obj(fields);
    proof {
        assert(jview(fields@[0].1) == envelope_json(*env)->Obj_0[0].1);
        assert(jview(fields@[1].1) == envelope_json(*env)->Obj_0[1].1);
        assert(jview(fields@[2].1) == envelope_json(*env)->Obj_0[2].1);
        assert(jview(fields@[3].1) == envelope_json(*env)->Obj_0[3].1);
        assert(jview(fields@[4].1) == envelope_json(*env)->Obj_0[4].1);
        assert(jview(fields@[5].1) == envelope_json(*env)->Obj_0[5].1);
        assert(jview(fields@[6].1) == envelope_json(*env)->Obj_0[6].1);
        assert(jview(r)->Obj_0 =~= envelope_json(*env)->Obj_0);
    }
    r
}

/// Decoding the encoded image of an envelope yields an envelope whose
/// every field carries the same content: in particular the payload's
/// shape and the exact numeric status code survive.
pub proof fn lemma_envelope_round_trip(env: BungieResponse<JsonValue>, w: BungieResponse<JsonValue>)
    requires
        env.error_code.wf(),
        envelope_json(env) matches Json::Obj(fields) && envelope_matches(fields, w),
    ensures
        envelope_wf(envelope_json(env)),
        jview(w.response) == jview(env.response),
        w.error_code == env.error_code,
        w.throttle_seconds == env.throttle_seconds,
        w.error_status@ == env.error_status@,
        w.message@ == env.message@,
        string_pairs_view(w.message_data@) == string_pairs_view(env.message_data@),
        (match env.detailed_error_trace {
            Some(s) => w.detailed_error_trace matches Some(t) && t@ == s@,
            Option::None => w.detailed_error_trace is None,
        }),
{
    reveal_strlit("Response");
    reveal_strlit("ErrorCode");
    reveal_strlit("ThrottleSeconds");
    reveal_strlit("ErrorStatus");
    reveal_strlit("Message");
    reveal_strlit("MessageData");
    reveal_strlit("DetailedErrorTrace");
    let fields = envelope_json(env)->Obj_0;
    assert("Response"@.len() == 8);
    assert("ErrorCode"@.len() == 9);
    assert("ThrottleSeconds"@.len() == 15);
    assert("ErrorStatus"@.len() == 11);
    assert("Message"@.len() == 7);
    assert("MessageData"@.len() == 11);
    assert("DetailedErrorTrace"@.len() == 18);
    assert(("ErrorStatus"@)[0] != ("MessageData"@)[0]);
    crate::codecs::lemma_lookup_at(fields, 0);
    crate::codecs::lemma_lookup_at(fields, 1);
    crate::codecs::lemma_lookup_at(fields, 2);
    crate::codecs::lemma_lookup_at(fields, 3);
    crate::codecs::lemma_lookup_at(fields, 4);
    crate::codecs::lemma_lookup_at(fields, 5);
    crate::codecs::lemma_lookup_at(fields, 6);
    PlatformErrorCodes::lemma_code_round_trip(0, env.error_code);
    assert(string_map_wf(string_pairs_view(env.message_data@)));
}

} // verus!
