use vstd::prelude::*;

use crate::envelope::{MatcherRequest, WasmRequest};
use crate::validate::valid_request;

verus! {

/// Whether a wire value names a variant of the detective-type enumeration.
pub uninterp spec fn known_detective_type(code: i32) -> bool;

/// Relies on protobuf's `Enum::from_i32` for the detective-type enumeration:
/// whether a wire value names a variant is a function of the value alone.
#[verifier::external_body]
pub(crate) fn detective_type_is_known(code: i32) -> (r: bool)
    ensures
        r == known_detective_type(code),
{
    <protos::sp_steps_detective::DetectiveType as protobuf::Enum>::from_i32(code).is_some()
}

/// Projects a valid request envelope into the argument shape the matching
/// engine consumes. The projection fails, instead of assuming more than
/// validation guaranteed, when the detective type's wire value names no
/// variant of the enumeration or when the negation flag was never set.
pub fn generate_detective_request(req: &WasmRequest) -> (r: Result<MatcherRequest, String>)
    requires
        valid_request(req@),
    ensures
        match r {
            Ok(m) => {
                &&& known_detective_type(req@.step->0.match_type)
                &&& req@.step->0.negate is Some
                &&& m.match_type == req@.step->0.match_type
                &&& m.data@ == req@.input_payload
                &&& m.path@ == req@.step->0.path->0
                &&& m.args.deep_view() == req@.step->0.args
                &&& m.negate == req@.step->0.negate->0
            },
            Err(e) => {
                ||| (!known_detective_type(req@.step->0.match_type)
                    && e@ == "detective type is not recognized"@)
                ||| (known_detective_type(req@.step->0.match_type)
                    && req@.step->0.negate is None
                    && e@ == "detective negate must be set"@)
            },
        },
{
    let step = match &req.step {
        Some(s) => s,
        None => vstd::pervasive::unreached(),
    };
    if !detective_type_is_known(step.match_type) {
        return Err("detective type is not recognized".to_string());
    }
    let negate = match step.negate {
        Some(b) => b,
        None => {
            return Err("detective negate must be set".to_string());
        },
    };
    let path = match &step.path {
        Some(p) => p.clone(),
        None => vstd::pervasive::unreached(),
    };
    let m = MatcherRequest {
        match_type: step.match_type,
        data: req.input_payload.clone(),
        path,
        args: step.args.clone(),
        negate,
    };
    Ok(m)
}

} // verus!
