use detective::bridge::MemoryBridge;
use detective::codec::response_round_trip;
use detective::envelope::{WasmResponse, EXIT_CODE_SUCCESS, EXIT_CODE_UNSET};

#[test]
fn response_envelope_round_trips() {
    let resp = WasmResponse {
        output_payload: b"{\"a\":1}".to_vec(),
        output_step: Some(b"aux".to_vec()),
        exit_code: EXIT_CODE_SUCCESS,
        exit_msg: "completed detective run".to_string(),
    };
    let back = response_round_trip(&resp);
    assert_eq!(back.output_payload, resp.output_payload);
    assert_eq!(back.output_step, resp.output_step);
    assert_eq!(back.exit_code, resp.exit_code);
    assert_eq!(back.exit_msg, resp.exit_msg);
}

#[test]
fn response_envelope_round_trips_at_defaults() {
    let resp = WasmResponse {
        output_payload: Vec::new(),
        output_step: None,
        exit_code: EXIT_CODE_UNSET,
        exit_msg: String::new(),
    };
    let back = response_round_trip(&resp);
    assert_eq!(back.output_payload, resp.output_payload);
    assert_eq!(back.output_step, resp.output_step);
    assert_eq!(back.exit_code, resp.exit_code);
    assert_eq!(back.exit_msg, resp.exit_msg);
}

#[test]
fn allocate_hands_out_zero_filled_buffers() {
    let mut bridge = MemoryBridge::new();
    let h = bridge.allocate(4);
    assert_eq!(bridge.read(h), &vec![0u8, 0, 0, 0]);
}

#[test]
fn released_buffer_leaves_no_observable_trace() {
    let mut bridge = MemoryBridge::new();
    let first = bridge.allocate(4);
    let second = bridge.allocate(2);
    bridge.write(first, vec![1, 2, 3, 4]);
    bridge.write(second, vec![9, 9]);
    bridge.release(first);
    let third = bridge.allocate(3);
    assert_ne!(third, first);
    assert_ne!(third, second);
    assert_eq!(bridge.read(second), &vec![9u8, 9]);
    assert_eq!(bridge.read(third), &vec![0u8, 0, 0]);
}

#[test]
fn write_replaces_only_the_named_buffer() {
    let mut bridge = MemoryBridge::new();
    let first = bridge.allocate(1);
    let second = bridge.allocate(1);
    bridge.write(first, vec![7]);
    assert_eq!(bridge.read(first), &vec![7u8]);
    assert_eq!(bridge.read(second), &vec![0u8]);
}
