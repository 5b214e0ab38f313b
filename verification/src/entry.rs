use vstd::prelude::*;
use vstd::string::StringExecFns;

use crate::adapter::{generate_detective_request, known_detective_type};
use crate::codec::{decode_request, encode_response, parsed_request, parsed_response};
use crate::envelope::{
    EXIT_CODE_FAILURE, EXIT_CODE_INTERNAL_ERROR, EXIT_CODE_SUCCESS, MatcherRequest, WasmResponse,
    WasmResponseView,
};
use crate::validate::{validate_wasm_request, validation_error};

verus! {

/// The response envelope this module reports an outcome with: code and
/// message as given, the payload echoed, the secondary payload absent.
pub open spec fn response_of(payload: Seq<u8>, code: i32, msg: Seq<char>) -> WasmResponseView {
    WasmResponseView { output_payload: payload, output_step: None, exit_code: code, exit_msg: msg }
}

/// What the matching verdict on a valid request turns into: the payload is
/// echoed whatever the engine said, a satisfied match reports success, an
/// unsatisfied one failure, and an engine error is passed on as an internal
/// error with the engine's description.
pub open spec fn match_outcome(
    payload: Seq<u8>,
    verdict: Result<bool, Seq<char>>,
    v: WasmResponseView,
) -> bool {
    match verdict {
        Ok(true) => v == response_of(payload, EXIT_CODE_SUCCESS, "completed detective run"@),
        Ok(false) => v == response_of(payload, EXIT_CODE_FAILURE, "completed detective run"@),
        Err(e) => v == response_of(payload, EXIT_CODE_INTERNAL_ERROR, e),
    }
}

/// The account of an invocation that ends before the matching engine is
/// consulted: which response envelope the module owes the host for request
/// bytes it could not carry to a match.
///
/// A request that does not decode is answered with an internal error whose
/// message reports the decode failure; nothing is echoed. A decoded request
/// that fails a structural check is answered with an internal error naming
/// that check and is not evaluated further. A valid request whose detective
/// type's wire value names no variant of the enumeration, or whose negation
/// flag was never set, would have made the projection to the engine unsound
/// and is likewise answered with an internal error.
pub open spec fn early_outcome(input: Seq<u8>, v: WasmResponseView) -> bool {
    match parsed_request(input) {
        Err(cause) => v == response_of(
            Seq::<u8>::empty(),
            EXIT_CODE_INTERNAL_ERROR,
            "unable to read request: "@ + cause,
        ),
        Ok(req) => match validation_error(req) {
            Some(cause) => v == response_of(
                Seq::<u8>::empty(),
                EXIT_CODE_INTERNAL_ERROR,
                "step validation failed: "@ + cause,
            ),
            None => {
                ||| (!known_detective_type(req.step->0.match_type) && v == response_of(
                    Seq::<u8>::empty(),
                    EXIT_CODE_INTERNAL_ERROR,
                    "step validation failed: "@ + "detective type is not recognized"@,
                ))
                ||| (known_detective_type(req.step->0.match_type) && req.step->0.negate is None
                    && v == response_of(
                    Seq::<u8>::empty(),
                    EXIT_CODE_INTERNAL_ERROR,
                    "step validation failed: "@ + "detective negate must be set"@,
                ))
            },
        },
    }
}

/// Law: when the engine finds a valid request's condition satisfied, the
/// response envelope reports success and echoes the request payload exactly.
pub proof fn lemma_satisfied_match_reports_success(payload: Seq<u8>, v: WasmResponseView)
    requires
        match_outcome(payload, Ok(true), v),
    ensures
        v.exit_code == EXIT_CODE_SUCCESS,
        v.output_payload == payload,
        v.exit_msg == "completed detective run"@,
{
}

/// Law: when the engine finds a valid request's condition unsatisfied, the
/// response envelope reports failure and still echoes the request payload
/// exactly.
pub proof fn lemma_unsatisfied_match_reports_failure(payload: Seq<u8>, v: WasmResponseView)
    requires
        match_outcome(payload, Ok(false), v),
    ensures
        v.exit_code == EXIT_CODE_FAILURE,
        v.output_payload == payload,
        v.exit_msg == "completed detective run"@,
{
}

/// Reports a failure of the invocation itself: nothing echoed, an internal
/// error, and the given prefix followed by the given cause as the message.
fn fail_response(prefix: &str, cause: &String) -> (resp: WasmResponse)
    ensures
        resp@ == response_of(Seq::<u8>::empty(), EXIT_CODE_INTERNAL_ERROR, prefix@ + cause@),
{
    let mut msg = prefix.to_string();
    msg.append(cause.as_str());
    let resp = WasmResponse {
        output_payload: Vec::new(),
        output_step: None,
        exit_code: EXIT_CODE_INTERNAL_ERROR,
        exit_msg: msg,
    };
    resp
}

/// Carries one serialized request envelope up to the doorstep of the
/// matching engine: decode, validate, and project.
///
/// When any of that fails, the module's answer is already settled, and the
/// serialized response envelope comes back as the `Err` value, as
/// [`early_outcome`] says. Otherwise the engine's argument shape comes back,
/// drawn from the decoded request as [`generate_detective_request`] says,
/// and the caller owes the engine's verdict to [`respond_with_verdict`].
pub fn prepare_request(input: &[u8]) -> (r: Result<MatcherRequest, Vec<u8>>)
    ensures
        match r {
            Ok(m) => {
                &&& parsed_request(input@) matches Ok(req)
                &&& validation_error(req) is None
                &&& known_detective_type(req.step->0.match_type)
                &&& req.step->0.negate is Some
                &&& m.match_type == req.step->0.match_type
                &&& m.data@ == req.input_payload
                &&& m.path@ == req.step->0.path->0
                &&& m.args.deep_view() == req.step->0.args
                &&& m.negate == req.step->0.negate->0
            },
            Err(out) => parsed_response(out@) matches Some(v) && early_outcome(input@, v),
        },
{
    let req = match decode_request(input) {
        Ok(r) => r,
        Err(e) => {
            let resp = fail_response("unable to read request: ", &e);
            return Err(encode_response(&resp));
        },
    };
    if let Err(cause) = validate_wasm_request(&req) {
        let resp = fail_response("step validation failed: ", &cause);
        return Err(encode_response(&resp));
    }
    match generate_detective_request(&req) {
        Ok(m) => Ok(m),
        Err(cause) => {
            let resp = fail_response("step validation failed: ", &cause);
            Err(encode_response(&resp))
        },
    }
}

/// Builds the response envelope that reports the engine's verdict on a valid
/// request, echoing the payload on success, failure and engine error alike.
pub fn build_match_response(payload: Vec<u8>, verdict: Result<bool, String>) -> (resp: WasmResponse)
    ensures
        resp@.output_payload == payload@,
        resp@.output_step is None,
        match verdict {
            Ok(true) => resp@.exit_code == EXIT_CODE_SUCCESS
                && resp@.exit_msg == "completed detective run"@,
            Ok(false) => resp@.exit_code == EXIT_CODE_FAILURE
                && resp@.exit_msg == "completed detective run"@,
            Err(e) => resp@.exit_code == EXIT_CODE_INTERNAL_ERROR && resp@.exit_msg == e@,
        },
{
    match verdict {
        Ok(matched) => {
            let exit_code: i32 = if matched {
                EXIT_CODE_SUCCESS
            } else {
                EXIT_CODE_FAILURE
            };
            WasmResponse {
                output_payload: payload,
                output_step: None,
                exit_code,
                exit_msg: "completed detective run".to_string(),
            }
        },
        Err(e) => WasmResponse {
            output_payload: payload,
            output_step: None,
            exit_code: EXIT_CODE_INTERNAL_ERROR,
            exit_msg: e,
        },
    }
}

/// Serializes the module's answer for a request that reached the matching
/// engine: whatever the verdict, the payload is echoed and the outcome is
/// reported as [`match_outcome`] says.
pub fn respond_with_verdict(payload: Vec<u8>, verdict: Result<bool, String>) -> (out: Vec<u8>)
    ensures
        parsed_response(out@) matches Some(v) && match_outcome(
            payload@,
            match verdict {
                Ok(b) => Ok(b),
                Err(e) => Err(e@),
            },
            v,
        ),
{
    let resp = build_match_response(payload, verdict);
    encode_response(&resp)
}

} // verus!
