use vstd::prelude::*;

verus! {

/// Wire value the detective-type enumeration reserves as its invalid sentinel.
pub const DETECTIVE_TYPE_UNKNOWN: i32 = 0;

/// Wire value of the unset exit outcome of a response envelope.
pub const EXIT_CODE_UNSET: i32 = 0;

/// Wire value of the exit outcome reporting a satisfied match.
pub const EXIT_CODE_SUCCESS: i32 = 1;

/// Wire value of the exit outcome reporting an unsatisfied match.
pub const EXIT_CODE_FAILURE: i32 = 2;

/// Wire value of the exit outcome reporting a decode, validation or engine
/// failure.
pub const EXIT_CODE_INTERNAL_ERROR: i32 = 3;

/// The detective configuration a request envelope may carry: which check to
/// run, where in the payload to look, auxiliary arguments, and whether the
/// engine is to invert its verdict.
#[derive(Debug)]
pub struct DetectiveStep {
    /// Wire value of the detective type; `DETECTIVE_TYPE_UNKNOWN` is invalid.
    pub match_type: i32,
    /// Selector into the payload; required and non-empty for a valid request.
    pub path: Option<String>,
    /// Auxiliary string arguments; may be empty.
    pub args: Vec<String>,
    /// Negation flag, passed through to the engine; required for matching.
    pub negate: Option<bool>,
}

/// Mathematical model of a [`DetectiveStep`].
pub ghost struct DetectiveStepView {
    pub match_type: i32,
    pub path: Option<Seq<char>>,
    pub args: Seq<Seq<char>>,
    pub negate: Option<bool>,
}

impl View for DetectiveStep {
    type V = DetectiveStepView;

    open spec fn view(&self) -> DetectiveStepView {
        DetectiveStepView {
            match_type: self.match_type,
            path: self.path.deep_view(),
            args: self.args.deep_view(),
            negate: self.negate,
        }
    }
}

/// A decoded request envelope: the payload to evaluate and the step
/// configuration, which must carry the detective variant to be usable.
#[derive(Debug)]
pub struct WasmRequest {
    /// The data the detective rule is evaluated against; must be non-empty.
    pub input_payload: Vec<u8>,
    /// The detective configuration; `None` when the step carried none.
    pub step: Option<DetectiveStep>,
}

/// Mathematical model of a [`WasmRequest`].
pub ghost struct WasmRequestView {
    pub input_payload: Seq<u8>,
    pub step: Option<DetectiveStepView>,
}

impl View for WasmRequest {
    type V = WasmRequestView;

    open spec fn view(&self) -> WasmRequestView {
        WasmRequestView {
            input_payload: self.input_payload@,
            step: match self.step {
                Some(s) => Some(s@),
                None => None,
            },
        }
    }
}

/// A response envelope: the exit outcome, a human-readable message, the
/// echoed payload (left empty when the request could not even be decoded),
/// and a reserved secondary payload this module never fills.
#[derive(Debug)]
pub struct WasmResponse {
    /// Echo of the request payload; empty on an early decode failure.
    pub output_payload: Vec<u8>,
    /// Reserved secondary payload; always absent in this module.
    pub output_step: Option<Vec<u8>>,
    /// One of the `EXIT_CODE_*` wire values.
    pub exit_code: i32,
    /// Human-readable account of the outcome.
    pub exit_msg: String,
}

/// Mathematical model of a [`WasmResponse`].
pub ghost struct WasmResponseView {
    pub output_payload: Seq<u8>,
    pub output_step: Option<Seq<u8>>,
    pub exit_code: i32,
    pub exit_msg: Seq<char>,
}

impl View for WasmResponse {
    type V = WasmResponseView;

    open spec fn view(&self) -> WasmResponseView {
        WasmResponseView {
            output_payload: self.output_payload@,
            output_step: match self.output_step {
                Some(p) => Some(p@),
                None => None,
            },
            exit_code: self.exit_code,
            exit_msg: self.exit_msg@,
        }
    }
}

/// The argument shape the matching engine consumes: the five fields of a
/// valid request, with every required option resolved.
#[derive(Debug)]
pub struct MatcherRequest {
    /// Wire value of a recognized, non-sentinel detective type.
    pub match_type: i32,
    /// The payload bytes the rule is evaluated against.
    pub data: Vec<u8>,
    /// The selector into the payload; non-empty.
    pub path: String,
    /// Auxiliary string arguments.
    pub args: Vec<String>,
    /// Whether the engine is to invert its verdict.
    pub negate: bool,
}

} // verus!
