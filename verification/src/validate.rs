use vstd::prelude::*;
use vstd::string::StrSliceExecFns;

use crate::envelope::{DETECTIVE_TYPE_UNKNOWN, WasmRequest, WasmRequestView};

verus! {

/// The first failing structural check of a request envelope, or `None` when
/// it is fit for matching. The checks, in priority order: non-empty payload,
/// detective configuration present, detective type not the unknown sentinel,
/// path present, path non-empty.
pub open spec fn validation_error(r: WasmRequestView) -> Option<Seq<char>> {
    if r.input_payload.len() == 0 {
        Some("input cannot be empty"@)
    } else if r.step is None {
        Some("detective is required"@)
    } else if r.step->0.match_type == DETECTIVE_TYPE_UNKNOWN {
        Some("detective type cannot be unknown"@)
    } else if r.step->0.path is None {
        Some("detective path must be set"@)
    } else if r.step->0.path->0.len() == 0 {
        Some("detective path cannot be empty"@)
    } else {
        None
    }
}

/// A request envelope is valid for matching iff no structural check fails.
pub open spec fn valid_request(r: WasmRequestView) -> bool {
    validation_error(r) is None
}

/// Checks the structural preconditions on a decoded request envelope, in
/// priority order, and reports the first failure as a descriptive message.
pub fn validate_wasm_request(req: &WasmRequest) -> (r: Result<(), String>)
    ensures
        match r {
            Ok(()) => valid_request(req@),
            Err(m) => validation_error(req@) == Some(m@),
        },
{
    if req.input_payload.len() == 0 {
        return Err("input cannot be empty".to_string());
    }
    let step = match &req.step {
        Some(s) => s,
        None => {
            return Err("detective is required".to_string());
        },
    };
    if step.match_type == DETECTIVE_TYPE_UNKNOWN {
        return Err("detective type cannot be unknown".to_string());
    }
    let path = match &step.path {
        Some(p) => p,
        None => {
            return Err("detective path must be set".to_string());
        },
    };
    if path.as_str().unicode_len() == 0 {
        return Err("detective path cannot be empty".to_string());
    }
    Ok(())
}

} // verus!
