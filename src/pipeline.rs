//! The four pipeline stages, run in order, stopping at the first that
//! reports errors.

use vstd::prelude::*;

use crate::options::{
    default_target, requested_target, text_of, Baseline, CTransformOptions, OptionsPlan,
    TransformHelperLoaderMode,
};
use crate::oxc::{
    analyze, baseline_config, generate, generated_text, new_arena, parse, parse_error_count,
    resolve_target, semantic_error_count, target_resolves, transform, transform_error_count,
    ConfigModel, ModuleFormat, TransformConfig,
};

verus! {

/// A pipeline stage that can report errors.
#[derive(Clone, Copy, Debug, PartialEq, Eq, Structural)]
pub enum Stage {
    Parse,
    Semantic,
    Transform,
}

/// Why a call produced no output.
#[derive(Clone, Copy, Debug, PartialEq, Eq, Structural)]
pub enum StageFailure {
    /// No source text was given.
    NullInput,
    /// The source bytes are not valid UTF-8.
    InvalidInputEncoding,
    /// The parser reported this many errors.
    ParseFailed(usize),
    /// Semantic analysis reported this many errors.
    SemanticFailed(usize),
    /// The transformer reported this many errors.
    TransformFailed(usize),
    /// The generated text holds a nul byte and cannot cross the boundary.
    OutputEncodingFailed,
}

/// What the pipeline produced.
#[derive(Debug)]
pub enum StageOutcome {
    Success(String),
    Failure(StageFailure),
}

pub open spec fn outcome_view(o: StageOutcome) -> Result<Seq<char>, StageFailure> {
    match o {
        StageOutcome::Success(s) => Ok(s@),
        StageOutcome::Failure(f) => Err(f),
    }
}

/// The failure that a stage with `errors` errors stands for.
pub open spec fn failure_for(stage: Stage, errors: usize) -> StageFailure {
    match stage {
        Stage::Parse => StageFailure::ParseFailed(errors),
        Stage::Semantic => StageFailure::SemanticFailed(errors),
        Stage::Transform => StageFailure::TransformFailed(errors),
    }
}

/// Whether the pipeline stops after `stage` reported `errors` errors, and
/// with what failure.
pub fn stage_failure(stage: Stage, errors: usize) -> (r: Option<StageFailure>)
    ensures
        errors == 0 ==> r is None,
        errors > 0 ==> r == Some(failure_for(stage, errors)),
{
    if errors == 0 {
        None
    } else {
        match stage {
            Stage::Parse => Some(StageFailure::ParseFailed(errors)),
            Stage::Semantic => Some(StageFailure::SemanticFailed(errors)),
            Stage::Transform => Some(StageFailure::TransformFailed(errors)),
        }
    }
}

/// The configuration a plan describes, given its baseline, target text,
/// fallback and settings. The module format is CommonJS whatever the rest.
pub open spec fn config_from(
    baseline: Baseline,
    target: Option<Seq<char>>,
    enable_all_on_target_failure: bool,
    jsx_development: bool,
    helper_loader_mode: TransformHelperLoaderMode,
    legacy_decorators: bool,
) -> ConfigModel {
    let resolved = target is Some && target_resolves(target->0);
    ConfigModel {
        baseline: if target is Some && !resolved && enable_all_on_target_failure {
            Baseline::EnableAll
        } else {
            baseline
        },
        env_target: if resolved {
            target
        } else {
            None
        },
        module: Some(ModuleFormat::CommonJs),
        jsx_development: Some(jsx_development),
        helper_loader_mode: Some(helper_loader_mode),
        legacy_decorators: if legacy_decorators {
            Some(true)
        } else {
            None
        },
    }
}

pub open spec fn planned_config(p: OptionsPlan) -> ConfigModel {
    config_from(
        p.baseline,
        text_of(p.target),
        p.enable_all_on_target_failure,
        p.jsx_development,
        p.helper_loader_mode,
        p.legacy_decorators,
    )
}

/// The configuration that an options record, or its absence, stands for
/// (the policy table of `plan_options`, followed through to the build).
pub open spec fn options_config(opts: Option<CTransformOptions>) -> ConfigModel {
    match opts {
        None => config_from(
            Baseline::Minimal,
            Some(default_target()),
            true,
            false,
            TransformHelperLoaderMode::Runtime,
            true,
        ),
        Some(o) => config_from(
            if o.jsx_enabled != 0 || o.typescript_enabled != 0 {
                Baseline::Minimal
            } else {
                Baseline::EnableAll
            },
            requested_target(o.target),
            false,
            o.jsx_enabled != 0 && o.jsx_development != 0,
            o.helper_loader_mode,
            false,
        ),
    }
}

/// The module format is CommonJS for every options record and for none,
/// whatever its target and whether that target resolves.
pub proof fn commonjs_on_every_path(opts: Option<CTransformOptions>)
    ensures
        options_config(opts).module == Some(ModuleFormat::CommonJs),
{
}

/// Builds the transformer configuration that a plan describes: the
/// baseline; the target's feature set where it resolves, else every
/// transform where the plan asks for that fallback; the plan's settings;
/// and CommonJS modules, set after the last step that can replace them.
pub(crate) fn build_transform_options(plan: &OptionsPlan) -> (r: TransformConfig)
    ensures
        r.model() == planned_config(*plan),
{
    let mut config = baseline_config(plan.baseline);
    match &plan.target {
        Some(target) => match resolve_target(target.as_str()) {
            Some(env) => config.set_env(env),
            None => {
                if plan.enable_all_on_target_failure {
                    config = baseline_config(Baseline::EnableAll);
                }
            },
        },
        None => {},
    }
    config.set_jsx_development(plan.jsx_development);
    config.set_helper_loader_mode(plan.helper_loader_mode);
    if plan.legacy_decorators {
        config.set_legacy_decorators(true);
    }
    config.set_module(ModuleFormat::CommonJs);
    config
}

/// What the stages give for `source` and `path` under `config`: the failure
/// of the first stage that reports errors, or the generated text.
pub open spec fn stages_result(source: Seq<char>, path: Seq<char>, config: ConfigModel) -> Result<
    Seq<char>,
    StageFailure,
> {
    if parse_error_count(source, path) > 0 {
        Err(StageFailure::ParseFailed(parse_error_count(source, path)))
    } else if semantic_error_count(source, path) > 0 {
        Err(StageFailure::SemanticFailed(semantic_error_count(source, path)))
    } else if transform_error_count(source, path, config) > 0 {
        Err(StageFailure::TransformFailed(transform_error_count(source, path, config)))
    } else {
        Ok(generated_text(source, path, config))
    }
}

/// The path that a call without a usable file path is treated as.
pub open spec fn fallback_path() -> Seq<char> {
    seq!['i', 'n', 'p', 'u', 't', '.', 'j', 's']
}

/// Runs parse, analysis, transform and code generation on `source`, in an
/// arena made for this call alone, and stops at the first stage that
/// reports errors. `path` selects the source type by its extension.
pub fn run_stages(source: &str, path: &str, plan: &OptionsPlan) -> (r: StageOutcome)
    ensures
        outcome_view(r) == stages_result(source@, path@, planned_config(*plan)),
{
    let arena = new_arena();
    let (mut parsed, parse_errors) = parse(&arena, source, path);
    if let Some(f) = stage_failure(Stage::Parse, parse_errors) {
        return StageOutcome::Failure(f);
    }
    let (analysis, semantic_errors) = analyze(&parsed);
    if let Some(f) = stage_failure(Stage::Semantic, semantic_errors) {
        return StageOutcome::Failure(f);
    }
    let config = build_transform_options(plan);
    let transform_errors = transform(&arena, &mut parsed, path, &config, analysis);
    if let Some(f) = stage_failure(Stage::Transform, transform_errors) {
        return StageOutcome::Failure(f);
    }
    StageOutcome::Success(generate(&parsed))
}

} // verus!
