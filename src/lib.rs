//! JavaScript/TypeScript transformation behind a flat, boundary-safe interface:
//! a policy table that turns a flat options record into a transformer
//! configuration, a pipeline that stops at the first stage reporting errors,
//! and a result record that always holds exactly one of output or error text.

mod options;
mod oxc;
mod pipeline;
mod result;
mod text;

pub use options::{plan_options, Baseline, CTransformOptions, OptionsPlan, TransformHelperLoaderMode};
pub use pipeline::{run_stages, stage_failure, Stage, StageFailure, StageOutcome};
pub use oxc::{ConfigModel, ModuleFormat};
pub use result::{failure_message, has_nul_byte, package_result, transformjs_transform, TransformResult};
