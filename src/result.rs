//! The boundary-safe result record and the transform entry point.

use vstd::prelude::*;
use vstd::utf8::{decode_utf8, encode_utf8, valid_utf8};

use crate::options::{plan_options, CTransformOptions};
use crate::pipeline::{
    fallback_path, options_config, outcome_view, planned_config, run_stages, stages_result, StageFailure,
    StageOutcome,
};
use crate::text::decode_utf8_text;

verus! {

/// The record handed back for each transform call: output text and its
/// byte length on success, an error message otherwise.
#[derive(Debug)]
pub struct TransformResult {
    /// The transformed code, free of nul bytes.
    pub output: Option<String>,
    /// Byte length of `output` in UTF-8; zero when there is no output.
    pub output_len: usize,
    /// What went wrong, when there is no output.
    pub error: Option<String>,
    /// Zero on success, one on failure.
    pub success: i32,
}

/// The characters of the decimal digit `d`.
pub open spec fn digit_char(d: int) -> char {
    seq!['0', '1', '2', '3', '4', '5', '6', '7', '8', '9'][d]
}

/// The decimal numeral of `n`, without leading zeros.
pub open spec fn decimal(n: nat) -> Seq<char>
    decreases n,
{
    if n < 10 {
        seq![digit_char(n as int)]
    } else {
        decimal(n / 10) + seq![digit_char((n % 10) as int)]
    }
}

/// The text of the single decimal digit `d`.
fn digit_text(d: usize) -> (r: &'static str)
    requires
        d < 10,
    ensures
        r@ == seq![digit_char(d as int)],
{
    match d {
        0 => {
            proof {
                reveal_strlit("0");
            }
            "0"
        },
        1 => {
            proof {
                reveal_strlit("1");
            }
            "1"
        },
        2 => {
            proof {
                reveal_strlit("2");
            }
            "2"
        },
        3 => {
            proof {
                reveal_strlit("3");
            }
            "3"
        },
        4 => {
            proof {
                reveal_strlit("4");
            }
            "4"
        },
        5 => {
            proof {
                reveal_strlit("5");
            }
            "5"
        },
        6 => {
            proof {
                reveal_strlit("6");
            }
            "6"
        },
        7 => {
            proof {
                reveal_strlit("7");
            }
            "7"
        },
        8 => {
            proof {
                reveal_strlit("8");
            }
            "8"
        },
        _ => {
            proof {
                reveal_strlit("9");
            }
            "9"
        },
    }
}

/// The decimal numeral of `n`.
fn decimal_text(n: usize) -> (r: String)
    ensures
        r@ == decimal(n as nat),
    decreases n,
{
    if n < 10 {
        String::from_str(digit_text(n))
    } else {
        let mut s = decimal_text(n / 10);
        s.append(digit_text(n % 10));
        s
    }
}

/// The message that a failure is reported with.
pub open spec fn message_of(f: StageFailure) -> Seq<char> {
    match f {
        StageFailure::NullInput => "source is null"@,
        StageFailure::InvalidInputEncoding => "Invalid UTF-8 in source"@,
        StageFailure::ParseFailed(n) => "Parser errors: "@ + decimal(n as nat) + " errors found"@,
        StageFailure::SemanticFailed(n) => "Semantic errors: "@ + decimal(n as nat)
            + " errors found"@,
        StageFailure::TransformFailed(n) => "Transformer errors: "@ + decimal(n as nat)
            + " errors found"@,
        StageFailure::OutputEncodingFailed => "Failed to create output string: nul byte in output"@,
    }
}

fn counted_message(prefix: &str, n: usize) -> (r: String)
    ensures
        r@ == prefix@ + decimal(n as nat) + " errors found"@,
{
    let mut m = String::from_str(prefix);
    let digits = decimal_text(n);
    m.append(digits.as_str());
    m.append(" errors found");
    m
}

/// The human-readable message for a failure.
pub fn failure_message(f: StageFailure) -> (r: String)
    ensures
        r@ == message_of(f),
{
    match f {
        StageFailure::NullInput => String::from_str("source is null"),
        StageFailure::InvalidInputEncoding => String::from_str("Invalid UTF-8 in source"),
        StageFailure::ParseFailed(n) => counted_message("Parser errors: ", n),
        StageFailure::SemanticFailed(n) => counted_message("Semantic errors: ", n),
        StageFailure::TransformFailed(n) => counted_message("Transformer errors: ", n),
        StageFailure::OutputEncodingFailed => String::from_str(
            "Failed to create output string: nul byte in output",
        ),
    }
}

/// Whether the UTF-8 encoding of `s` holds a zero byte.
pub fn has_nul_byte(s: &str) -> (r: bool)
    ensures
        r == encode_utf8(s@).contains(0u8),
{
    let bytes = s.as_bytes();
    let mut i: usize = 0;
    while i < bytes.len()
        invariant
            bytes@ == encode_utf8(s@),
            i <= bytes@.len(),
            forall|j: int| 0 <= j < i ==> bytes@[j] != 0u8,
        decreases bytes@.len() - i,
    {
        if bytes[i] == 0u8 {
            assert(bytes@[i as int] == 0u8);
            return true;
        }
        i = i + 1;
    }
    false
}

/// A record that reports `f`.
pub open spec fn is_failure_record(r: TransformResult, f: StageFailure) -> bool {
    &&& r.output is None
    &&& r.output_len == 0
    &&& r.error matches Some(m) && m@ == message_of(f)
    &&& r.success == 1
}

impl TransformResult {
    /// Exactly one of output and error is present; success is reported
    /// exactly when output is, with its UTF-8 byte length, and the output
    /// holds no nul byte.
    pub open spec fn wf(&self) -> bool {
        &&& self.output is Some <==> self.error is None
        &&& self.success == 0 <==> self.output is Some
        &&& self.success == 0 || self.success == 1
        &&& self.output matches Some(s) ==> {
            &&& self.output_len == encode_utf8(s@).len()
            &&& !encode_utf8(s@).contains(0u8)
        }
        &&& self.output is None ==> self.output_len == 0
    }
}

fn failure_record(f: StageFailure) -> (r: TransformResult)
    ensures
        is_failure_record(r, f),
{
    TransformResult { output: None, output_len: 0, error: Some(failure_message(f)), success: 1 }
}

/// The record that a pipeline result is reported with: generated text that
/// holds a nul byte is an output encoding failure.
pub open spec fn packaged(r: TransformResult, o: Result<Seq<char>, StageFailure>) -> bool {
    match o {
        Ok(g) => if encode_utf8(g).contains(0u8) {
            is_failure_record(r, StageFailure::OutputEncodingFailed)
        } else {
            &&& r.output matches Some(s) && s@ == g
            &&& r.output_len == encode_utf8(g).len()
            &&& r.error is None
            &&& r.success == 0
        },
        Err(f) => is_failure_record(r, f),
    }
}

/// Packs a pipeline outcome into a result record. Generated text that holds
/// a nul byte cannot be handed over, and is reported as an output encoding
/// failure although every stage succeeded.
pub fn package_result(outcome: StageOutcome) -> (r: TransformResult)
    ensures
        r.wf(),
        packaged(r, outcome_view(outcome)),
{
    match outcome {
        StageOutcome::Success(s) => {
            if has_nul_byte(s.as_str()) {
                failure_record(StageFailure::OutputEncodingFailed)
            } else {
                let len = s.as_str().as_bytes().len();
                TransformResult { output: Some(s), output_len: len, error: None, success: 0 }
            }
        },
        StageOutcome::Failure(f) => failure_record(f),
    }
}

/// The message for a missing source names the null input.
pub proof fn null_input_message_mentions_null()
    ensures
        message_of(StageFailure::NullInput).subrange(10, 14) == "null"@,
{
    reveal_strlit("source is null");
    reveal_strlit("null");
    assert(message_of(StageFailure::NullInput).subrange(10, 14) =~= "null"@);
}

/// The path that a file path field stands for.
pub open spec fn path_of(file_path: Option<&[u8]>) -> Seq<char> {
    match file_path {
        Some(b) => if valid_utf8(b@) {
            decode_utf8(b@)
        } else {
            fallback_path()
        },
        None => fallback_path(),
    }
}

pub open spec fn opts_of(options: Option<&CTransformOptions>) -> Option<CTransformOptions> {
    match options {
        Some(o) => Some(*o),
        None => None,
    }
}

/// Turns the bytes of a file path into the path used to pick the source
/// type: the decoded path, or `input.js` when it is absent or not UTF-8.
fn path_text(file_path: Option<&[u8]>) -> (r: &str)
    ensures
        r@ == path_of(file_path),
{
    proof {
        reveal_strlit("input.js");
    }
    match file_path {
        Some(b) => match decode_utf8_text(b) {
            Some(p) => p,
            None => {
                assert("input.js"@ =~= fallback_path());
                "input.js"
            },
        },
        None => {
            assert("input.js"@ =~= fallback_path());
            "input.js"
        },
    }
}

/// Transforms JavaScript or TypeScript source text.
///
/// `source` is the text as UTF-8 bytes, or nothing when the caller gave
/// none; `file_path` picks the source type by its extension; `options`
/// selects the configuration (see `plan_options`). Missing or undecodable
/// source is reported before any stage runs; otherwise the stages run in
/// order and the first that reports errors decides the failure.
pub fn transformjs_transform(
    source: Option<&[u8]>,
    file_path: Option<&[u8]>,
    options: Option<&CTransformOptions>,
) -> (r: TransformResult)
    ensures
        r.wf(),
        source is None ==> is_failure_record(r, StageFailure::NullInput),
        source matches Some(b) && !valid_utf8(b@) ==> is_failure_record(
            r,
            StageFailure::InvalidInputEncoding,
        ),
        source is Some && valid_utf8(source->0@) ==> packaged(
            r,
            stages_result(
                decode_utf8(source->0@),
                path_of(file_path),
                options_config(opts_of(options)),
            ),
        ),
{
    let bytes = match source {
        Some(b) => b,
        None => {
            return failure_record(StageFailure::NullInput);
        },
    };
    let text = match decode_utf8_text(bytes) {
        Some(t) => t,
        None => {
            return failure_record(StageFailure::InvalidInputEncoding);
        },
    };
    let path = path_text(file_path);
    let plan = plan_options(options);
    let outcome = run_stages(text, path, &plan);
    package_result(outcome)
}

} // verus!
