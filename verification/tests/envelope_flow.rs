use detective::adapter::generate_detective_request;
use detective::entry::{prepare_request, respond_with_verdict};
use detective::envelope::{
    DetectiveStep, WasmRequest, EXIT_CODE_FAILURE, EXIT_CODE_INTERNAL_ERROR, EXIT_CODE_SUCCESS,
};
use detective::validate::validate_wasm_request;
use protobuf::Message;

const STRING_EQUAL: i32 = 1005;

fn request_bytes(
    payload: &[u8],
    type_: i32,
    path: Option<&str>,
    args: &[&str],
    negate: Option<bool>,
) -> Vec<u8> {
    let mut detective_step = protos::sp_steps_detective::DetectiveStep::new();
    detective_step.type_ = protobuf::EnumOrUnknown::from_i32(type_);
    detective_step.path = path.map(|p| p.to_string());
    detective_step.args = args.iter().map(|a| a.to_string()).collect();
    detective_step.negate = negate;
    let mut step = protos::sp_pipeline::PipelineStep::new();
    step.set_detective(detective_step);
    let mut request = protos::sp_wsm::WASMRequest::new();
    request.step = protobuf::MessageField::some(step);
    request.input_payload = payload.to_vec();
    request.write_to_bytes().unwrap()
}

fn parse_response(bytes: &[u8]) -> protos::sp_wsm::WASMResponse {
    protos::sp_wsm::WASMResponse::parse_from_bytes(bytes).unwrap()
}

fn model_request(
    payload: &[u8],
    type_: i32,
    path: Option<&str>,
    args: &[&str],
    negate: Option<bool>,
) -> WasmRequest {
    WasmRequest {
        input_payload: payload.to_vec(),
        step: Some(DetectiveStep {
            match_type: type_,
            path: path.map(|p| p.to_string()),
            args: args.iter().map(|a| a.to_string()).collect(),
            negate,
        }),
    }
}

#[test]
fn validate_rejects_empty_payload() {
    let req = model_request(b"", STRING_EQUAL, Some("a"), &[], Some(false));
    assert_eq!(
        validate_wasm_request(&req),
        Err("input cannot be empty".to_string())
    );
}

#[test]
fn validate_rejects_missing_detective() {
    let req = WasmRequest {
        input_payload: b"hello".to_vec(),
        step: None,
    };
    assert_eq!(
        validate_wasm_request(&req),
        Err("detective is required".to_string())
    );
}

#[test]
fn validate_rejects_unknown_type() {
    let req = model_request(b"hello", 0, Some("a"), &[], Some(false));
    assert_eq!(
        validate_wasm_request(&req),
        Err("detective type cannot be unknown".to_string())
    );
}

#[test]
fn validate_rejects_absent_path() {
    let req = model_request(b"hello", STRING_EQUAL, None, &[], Some(false));
    assert_eq!(
        validate_wasm_request(&req),
        Err("detective path must be set".to_string())
    );
}

#[test]
fn validate_rejects_empty_path() {
    let req = model_request(b"hello", STRING_EQUAL, Some(""), &[], Some(false));
    assert_eq!(
        validate_wasm_request(&req),
        Err("detective path cannot be empty".to_string())
    );
}

#[test]
fn validate_accepts_well_formed_request() {
    let req = model_request(b"hello", STRING_EQUAL, Some("a"), &["1"], Some(false));
    assert_eq!(validate_wasm_request(&req), Ok(()));
}

#[test]
fn validation_priority_payload_before_detective() {
    let req = WasmRequest {
        input_payload: Vec::new(),
        step: None,
    };
    assert_eq!(
        validate_wasm_request(&req),
        Err("input cannot be empty".to_string())
    );
}

#[test]
fn adapter_projects_all_five_fields() {
    let req = model_request(b"hello", STRING_EQUAL, Some("a.b"), &["1", "2"], Some(true));
    let m = generate_detective_request(&req).unwrap();
    assert_eq!(m.match_type, STRING_EQUAL);
    assert_eq!(m.data, b"hello".to_vec());
    assert_eq!(m.path, "a.b");
    assert_eq!(m.args, vec!["1".to_string(), "2".to_string()]);
    assert!(m.negate);
}

#[test]
fn adapter_rejects_unrecognized_type_value() {
    let req = model_request(b"hello", 999999, Some("a"), &[], Some(false));
    match generate_detective_request(&req) {
        Err(e) => assert_eq!(e, "detective type is not recognized"),
        Ok(_) => panic!("an unrecognized type value must not be projected"),
    }
}

#[test]
fn adapter_rejects_missing_negate() {
    let req = model_request(b"hello", STRING_EQUAL, Some("a"), &[], None);
    match generate_detective_request(&req) {
        Err(e) => assert_eq!(e, "detective negate must be set"),
        Ok(_) => panic!("a request without a negation flag must not be projected"),
    }
}

#[test]
fn prepare_reports_decode_failure() {
    // 0xff is no valid field tag, so decoding must fail.
    let out = prepare_request(&[0xffu8]).unwrap_err();
    let resp = parse_response(&out);
    assert_eq!(resp.exit_code.value(), EXIT_CODE_INTERNAL_ERROR);
    assert!(resp.exit_msg.starts_with("unable to read request: "));
    assert!(resp.output_payload.is_empty());
    assert!(resp.output_step.is_none());
}

#[test]
fn prepare_reports_empty_payload() {
    let bytes = request_bytes(b"", STRING_EQUAL, Some("a"), &[], Some(false));
    let out = prepare_request(&bytes).unwrap_err();
    let resp = parse_response(&out);
    assert_eq!(resp.exit_code.value(), EXIT_CODE_INTERNAL_ERROR);
    assert_eq!(resp.exit_msg, "step validation failed: input cannot be empty");
    assert!(resp.output_payload.is_empty());
}

#[test]
fn prepare_reports_empty_path_scenario() {
    let bytes = request_bytes(b"hello", STRING_EQUAL, Some(""), &[], Some(false));
    let out = prepare_request(&bytes).unwrap_err();
    let resp = parse_response(&out);
    assert_eq!(resp.exit_code.value(), EXIT_CODE_INTERNAL_ERROR);
    assert_eq!(
        resp.exit_msg,
        "step validation failed: detective path cannot be empty"
    );
}

#[test]
fn prepare_reports_missing_negate() {
    let bytes = request_bytes(b"hello", STRING_EQUAL, Some("a"), &[], None);
    let out = prepare_request(&bytes).unwrap_err();
    let resp = parse_response(&out);
    assert_eq!(resp.exit_code.value(), EXIT_CODE_INTERNAL_ERROR);
    assert_eq!(
        resp.exit_msg,
        "step validation failed: detective negate must be set"
    );
}

#[test]
fn prepare_hands_over_valid_request() {
    let payload = b"{\"a\":1}";
    let bytes = request_bytes(payload, STRING_EQUAL, Some("a"), &["1"], Some(false));
    let m = prepare_request(&bytes).unwrap();
    assert_eq!(m.match_type, STRING_EQUAL);
    assert_eq!(m.data, payload.to_vec());
    assert_eq!(m.path, "a");
    assert_eq!(m.args, vec!["1".to_string()]);
    assert!(!m.negate);
}

#[test]
fn satisfied_match_reports_success_and_echo() {
    let payload = b"{\"a\":1}";
    let bytes = request_bytes(payload, STRING_EQUAL, Some("a"), &["1"], Some(false));
    let m = prepare_request(&bytes).unwrap();
    let out = respond_with_verdict(m.data, Ok(true));
    let resp = parse_response(&out);
    assert_eq!(resp.exit_code.value(), EXIT_CODE_SUCCESS);
    assert_eq!(resp.exit_msg, "completed detective run");
    assert_eq!(resp.output_payload, payload.to_vec());
    assert!(resp.output_step.is_none());
}

#[test]
fn unsatisfied_match_reports_failure_and_echo() {
    let payload = b"{\"a\":2}";
    let out = respond_with_verdict(payload.to_vec(), Ok(false));
    let resp = parse_response(&out);
    assert_eq!(resp.exit_code.value(), EXIT_CODE_FAILURE);
    assert_eq!(resp.exit_msg, "completed detective run");
    assert_eq!(resp.output_payload, payload.to_vec());
}

#[test]
fn engine_error_reports_internal_error_and_echo() {
    let payload = b"not json";
    let out = respond_with_verdict(payload.to_vec(), Err("no match func found".to_string()));
    let resp = parse_response(&out);
    assert_eq!(resp.exit_code.value(), EXIT_CODE_INTERNAL_ERROR);
    assert_eq!(resp.exit_msg, "no match func found");
    assert_eq!(resp.output_payload, payload.to_vec());
}
