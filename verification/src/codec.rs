use vstd::prelude::*;

use crate::envelope::{DetectiveStep, WasmRequest, WasmRequestView, WasmResponse, WasmResponseView};

verus! {

/// What the wire schema reads out of `bytes`: the request envelope, or the
/// description of why the bytes decode to none.
pub uninterp spec fn parsed_request(bytes: Seq<u8>) -> Result<WasmRequestView, Seq<char>>;

/// The bytes the wire schema writes for the response envelope `resp`.
pub uninterp spec fn encoded_response(resp: WasmResponseView) -> Seq<u8>;

/// The response envelope, if any, that the wire schema reads out of `bytes`.
pub uninterp spec fn parsed_response(bytes: Seq<u8>) -> Option<WasmResponseView>;

/// Relies on protobuf's `Message::parse_from_bytes` for the request envelope:
/// parsing is a function of the input bytes alone, and either yields one
/// structured message or an error. The detective configuration is taken as
/// present exactly when the step carries the detective variant, with the
/// detective type kept as its raw wire value.
#[verifier::external_body]
pub(crate) fn decode_request(bytes: &[u8]) -> (r: Result<WasmRequest, String>)
    ensures
        match r {
            Ok(req) => parsed_request(bytes@) == Ok::<WasmRequestView, Seq<char>>(req@),
            Err(e) => parsed_request(bytes@) == Err::<WasmRequestView, Seq<char>>(e@),
        },
{
    match <protos::sp_wsm::WASMRequest as protobuf::Message>::parse_from_bytes(bytes) {
        Ok(m) => {
            let step = if m.step.has_detective() {
                let d = m.step.detective();
                Some(DetectiveStep { match_type: d.type_.value(), path: d.path.clone(), args: d.args.clone(), negate: d.negate })
            } else {
                None
            };
            Ok(WasmRequest { input_payload: m.input_payload, step })
        },
        Err(e) => Err(e.to_string()),
    }
}

/// Relies on protobuf's `Message::write_to_bytes` for the response envelope:
/// serialization is a function of the message alone, and parsing the produced
/// bytes yields the same message back. Serializing cannot fail here: the
/// message has no required fields and is written into a fresh vector.
#[verifier::external_body]
pub(crate) fn encode_response(resp: &WasmResponse) -> (r: Vec<u8>)
    ensures
        r@ == encoded_response(resp@),
        parsed_response(r@) == Some(resp@),
{
    let mut m = protos::sp_wsm::WASMResponse::new();
    m.output_payload = resp.output_payload.clone();
    m.output_step = resp.output_step.clone();
    m.exit_code = protobuf::EnumOrUnknown::from_i32(resp.exit_code);
    m.exit_msg = resp.exit_msg.clone();
    protobuf::Message::write_to_bytes(&m).unwrap()
}

/// Relies on protobuf's `Message::parse_from_bytes` for the response
/// envelope, as [`decode_request`] does for the request envelope, with the
/// exit code kept as its raw wire value.
#[verifier::external_body]
pub(crate) fn decode_response(bytes: &[u8]) -> (r: Result<WasmResponse, String>)
    ensures
        r matches Ok(resp) ==> parsed_response(bytes@) == Some(resp@),
        r is Err <==> parsed_response(bytes@) is None,
{
    match <protos::sp_wsm::WASMResponse as protobuf::Message>::parse_from_bytes(bytes) {
        Ok(m) => Ok(WasmResponse {
            output_payload: m.output_payload,
            output_step: m.output_step,
            exit_code: m.exit_code.value(),
            exit_msg: m.exit_msg,
        }),
        Err(e) => Err(e.to_string()),
    }
}

/// Encoding a response envelope and decoding the produced bytes yields the
/// same envelope: outcome code, message and payloads all survive the trip.
pub fn response_round_trip(resp: &WasmResponse) -> (r: WasmResponse)
    ensures
        r@ == resp@,
{
    let bytes = encode_response(resp);
    match decode_response(bytes.as_slice()) {
        Ok(decoded) => decoded,
        Err(_) => vstd::pervasive::unreached(),
    }
}

} // verus!
