//! The transformer's types and calls, and the records that tie each value
//! handed between the stages to the source, path and configuration it came
//! from.

use vstd::prelude::*;

use oxc_allocator::Allocator;
use oxc_ast::ast::Program;
use oxc_semantic::Scoping;
use oxc_span::SourceType;
use oxc_transformer::{EnvOptions, TransformOptions};

use crate::options::{Baseline, TransformHelperLoaderMode};

verus! {

#[verifier::external_type_specification]
#[verifier::external_body]
pub struct ExAllocator(oxc_allocator::Allocator);

#[verifier::external_type_specification]
#[verifier::external_body]
pub struct ExProgram<'a>(oxc_ast::ast::Program<'a>);

#[verifier::external_type_specification]
#[verifier::external_body]
pub struct ExScoping(oxc_semantic::Scoping);

#[verifier::external_type_specification]
#[verifier::external_body]
pub struct ExTransformOptions(oxc_transformer::TransformOptions);

#[verifier::external_type_specification]
#[verifier::external_body]
pub struct ExEnvOptions(oxc_transformer::EnvOptions);

/// Module output format of a configuration.
#[derive(Clone, Copy, Debug, PartialEq, Eq, Structural)]
pub enum ModuleFormat {
    Preserve,
    Esm,
    CommonJs,
}

/// What a transformer configuration was built from: its baseline and each
/// setting applied on top of it (`None` where the baseline's value stands).
pub struct ConfigModel {
    pub baseline: Baseline,
    /// The target whose resolved feature set replaced the baseline's.
    pub env_target: Option<Seq<char>>,
    pub module: Option<ModuleFormat>,
    pub jsx_development: Option<bool>,
    pub helper_loader_mode: Option<TransformHelperLoaderMode>,
    pub legacy_decorators: Option<bool>,
}

/// The number of errors the parser reports for `source`, with the source
/// type that `path` implies.
pub uninterp spec fn parse_error_count(source: Seq<char>, path: Seq<char>) -> usize;

/// The number of errors semantic analysis reports for the program parsed
/// from `source` and `path`.
pub uninterp spec fn semantic_error_count(source: Seq<char>, path: Seq<char>) -> usize;

/// The number of errors the transformer reports on that program under a
/// configuration built as `config` describes.
pub uninterp spec fn transform_error_count(
    source: Seq<char>,
    path: Seq<char>,
    config: ConfigModel,
) -> usize;

/// The code printed from that program once transformed under `config`.
pub uninterp spec fn generated_text(source: Seq<char>, path: Seq<char>, config: ConfigModel) -> Seq<
    char,
>;

/// Whether a comma-separated target list resolves to a feature set.
pub uninterp spec fn target_resolves(target: Seq<char>) -> bool;

pub open spec fn fresh_model(baseline: Baseline) -> ConfigModel {
    ConfigModel {
        baseline,
        env_target: None,
        module: None,
        jsx_development: None,
        helper_loader_mode: None,
        legacy_decorators: None,
    }
}

/// A transformer configuration with a record of how it was built.
pub struct TransformConfig {
    options: TransformOptions,
    model: Ghost<ConfigModel>,
}

/// A feature set resolved from a target list.
pub struct ResolvedEnv {
    env: EnvOptions,
    target: Ghost<Seq<char>>,
}

/// A parsed program with the source and path it was parsed from, and the
/// configuration it was transformed under, if it was.
pub struct Parsed<'a> {
    program: Program<'a>,
    source: Ghost<Seq<char>>,
    path: Ghost<Seq<char>>,
    transformed: Ghost<Option<ConfigModel>>,
}

/// Scope information built from the program parsed from a source and path.
pub struct Analysis {
    scoping: Scoping,
    source: Ghost<Seq<char>>,
    path: Ghost<Seq<char>>,
}

impl TransformConfig {
    pub closed spec fn model(&self) -> ConfigModel {
        self.model@
    }
}

impl ResolvedEnv {
    pub closed spec fn target(&self) -> Seq<char> {
        self.target@
    }
}

impl<'a> Parsed<'a> {
    pub closed spec fn source(&self) -> Seq<char> {
        self.source@
    }

    pub closed spec fn path(&self) -> Seq<char> {
        self.path@
    }

    pub closed spec fn transformed_with(&self) -> Option<ConfigModel> {
        self.transformed@
    }
}

impl Analysis {
    pub closed spec fn source(&self) -> Seq<char> {
        self.source@
    }

    pub closed spec fn path(&self) -> Seq<char> {
        self.path@
    }
}

/// Relies on `Allocator::default`: a fresh, empty arena.
#[verifier::external_body]
pub(crate) fn new_arena() -> Allocator {
    Allocator::default()
}

/// Relies on `Parser::parse`, with the source type that
/// `SourceType::from_path` gives for `path` (its default for an unknown
/// extension): the program and the number of error-severity diagnostics.
#[verifier::external_body]
fn parse_raw<'a>(arena: &'a Allocator, source: &'a str, path: &str) -> (r: (Program<'a>, usize))
    ensures
        r.1 == parse_error_count(source@, path@),
{
    let source_type = SourceType::from_path(std::path::Path::new(path)).unwrap_or_default();
    let ret = oxc_parser::Parser::new(arena, source, source_type).parse();
    let errors = ret.diagnostics.errors().count();
    (ret.program, errors)
}

/// Relies on `SemanticBuilder::build`: the scope information of the program
/// and the number of error-severity diagnostics.
#[verifier::external_body]
fn analyze_raw(parsed: &Parsed) -> (r: (Scoping, usize))
    requires
        parsed.transformed_with() is None,
    ensures
        r.1 == semantic_error_count(parsed.source(), parsed.path()),
{
    let ret = oxc_semantic::SemanticBuilder::new().build(&parsed.program);
    let errors = ret.diagnostics.errors().count();
    (ret.semantic.into_scoping(), errors)
}

/// Relies on `Transformer::build_with_scoping`: transforms the program in
/// place and gives the number of error-severity diagnostics.
#[verifier::external_body]
fn transform_raw<'a>(
    arena: &'a Allocator,
    parsed: &mut Parsed<'a>,
    path: &str,
    config: &TransformConfig,
    analysis: Analysis,
) -> (r: usize)
    requires
        old(parsed).transformed_with() is None,
        path@ == old(parsed).path(),
        analysis.source() == old(parsed).source(),
        analysis.path() == old(parsed).path(),
    ensures
        final(parsed).source() == old(parsed).source(),
        final(parsed).path() == old(parsed).path(),
        r == transform_error_count(old(parsed).source(), old(parsed).path(), config.model()),
{
    let path = std::path::Path::new(path);
    let transformer = oxc_transformer::Transformer::new(arena, path, &config.options);
    let ret = transformer.build_with_scoping(analysis.scoping, &mut parsed.program);
    ret.diagnostics.errors().count()
}

/// Relies on `Codegen::build`: the source text printed from the program.
#[verifier::external_body]
pub(crate) fn generate(parsed: &Parsed) -> (r: String)
    requires
        parsed.transformed_with() is Some,
    ensures
        r@ == generated_text(parsed.source(), parsed.path(), parsed.transformed_with()->0),
{
    oxc_codegen::Codegen::new().build(&parsed.program).code
}

/// Relies on `TransformOptions::enable_all`: every ready transform enabled.
#[verifier::external_body]
fn enable_all_options() -> TransformOptions {
    TransformOptions::enable_all()
}

/// Relies on `TransformOptions::default`: the minimal configuration.
#[verifier::external_body]
fn minimal_options() -> TransformOptions {
    TransformOptions::default()
}

/// Relies on `EnvOptions::from_target`: the feature set that a
/// comma-separated target list implies, or the reason it does not resolve.
#[verifier::external_body]
fn env_from_target(target: &str) -> (r: Result<EnvOptions, String>)
    ensures
        r is Ok <==> target_resolves(target@),
{
    EnvOptions::from_target(target)
}

/// Relies on the public field `TransformOptions::env`.
#[verifier::external_body]
fn set_env_raw(options: &mut TransformOptions, env: EnvOptions) {
    options.env = env;
}

/// Relies on the public field `EnvOptions::module`.
#[verifier::external_body]
fn set_module_raw(options: &mut TransformOptions, module: ModuleFormat) {
    options.env.module = match module {
        ModuleFormat::Preserve => oxc_transformer::Module::Preserve,
        ModuleFormat::Esm => oxc_transformer::Module::Esm,
        ModuleFormat::CommonJs => oxc_transformer::Module::CommonJS,
    };
}

/// Relies on the public field `JsxOptions::development`.
#[verifier::external_body]
fn set_jsx_development_raw(options: &mut TransformOptions, development: bool) {
    options.jsx.development = development;
}

/// Relies on the public field `HelperLoaderOptions::mode`.
#[verifier::external_body]
fn set_helper_loader_mode_raw(options: &mut TransformOptions, mode: TransformHelperLoaderMode) {
    options.helper_loader.mode = match mode {
        TransformHelperLoaderMode::Runtime => oxc_transformer::HelperLoaderMode::Runtime,
        TransformHelperLoaderMode::External => oxc_transformer::HelperLoaderMode::External,
    };
}

/// Relies on the public fields `DecoratorOptions::legacy` and
/// `emit_decorator_metadata`.
#[verifier::external_body]
fn set_legacy_decorators_raw(options: &mut TransformOptions, on: bool) {
    options.decorator.legacy = on;
    options.decorator.emit_decorator_metadata = on;
}

/// A configuration at the given baseline, with nothing applied on top.
pub(crate) fn baseline_config(baseline: Baseline) -> (r: TransformConfig)
    ensures
        r.model() == fresh_model(baseline),
{
    let options = match baseline {
        Baseline::EnableAll => enable_all_options(),
        Baseline::Minimal => minimal_options(),
    };
    TransformConfig { options, model: Ghost(fresh_model(baseline)) }
}

/// Resolves a target list to its feature set.
pub(crate) fn resolve_target(target: &str) -> (r: Option<ResolvedEnv>)
    ensures
        r is Some <==> target_resolves(target@),
        r matches Some(e) ==> e.target() == target@,
{
    match env_from_target(target) {
        Ok(env) => Some(ResolvedEnv { env, target: Ghost(target@) }),
        Err(_) => None,
    }
}

impl TransformConfig {
    /// Replaces the feature set, module format included.
    pub(crate) fn set_env(&mut self, env: ResolvedEnv)
        ensures
            final(self).model() == (ConfigModel {
                env_target: Some(env.target()),
                module: None,
                ..old(self).model()
            }),
    {
        set_env_raw(&mut self.options, env.env);
        self.model = Ghost(ConfigModel { env_target: Some(env.target@), module: None, ..self.model@ });
    }

    pub(crate) fn set_module(&mut self, module: ModuleFormat)
        ensures
            final(self).model() == (ConfigModel { module: Some(module), ..old(self).model() }),
    {
        set_module_raw(&mut self.options, module);
        self.model = Ghost(ConfigModel { module: Some(module), ..self.model@ });
    }

    pub(crate) fn set_jsx_development(&mut self, development: bool)
        ensures
            final(self).model() == (ConfigModel {
                jsx_development: Some(development),
                ..old(self).model()
            }),
    {
        set_jsx_development_raw(&mut self.options, development);
        self.model = Ghost(ConfigModel { jsx_development: Some(development), ..self.model@ });
    }

    pub(crate) fn set_helper_loader_mode(&mut self, mode: TransformHelperLoaderMode)
        ensures
            final(self).model() == (ConfigModel {
                helper_loader_mode: Some(mode),
                ..old(self).model()
            }),
    {
        set_helper_loader_mode_raw(&mut self.options, mode);
        self.model = Ghost(ConfigModel { helper_loader_mode: Some(mode), ..self.model@ });
    }

    pub(crate) fn set_legacy_decorators(&mut self, on: bool)
        ensures
            final(self).model() == (ConfigModel { legacy_decorators: Some(on), ..old(self).model() }),
    {
        set_legacy_decorators_raw(&mut self.options, on);
        self.model = Ghost(ConfigModel { legacy_decorators: Some(on), ..self.model@ });
    }
}

/// Parses `source` with the source type that `path` implies.
pub(crate) fn parse<'a>(arena: &'a Allocator, source: &'a str, path: &str) -> (r: (
    Parsed<'a>,
    usize,
))
    ensures
        r.0.source() == source@,
        r.0.path() == path@,
        r.0.transformed_with() is None,
        r.1 == parse_error_count(source@, path@),
{
    let (program, errors) = parse_raw(arena, source, path);
    (
        Parsed {
            program,
            source: Ghost(source@),
            path: Ghost(path@),
            transformed: Ghost(None),
        },
        errors,
    )
}

/// Builds the scope information of a parsed, untransformed program.
pub(crate) fn analyze(parsed: &Parsed) -> (r: (Analysis, usize))
    requires
        parsed.transformed_with() is None,
    ensures
        r.0.source() == parsed.source(),
        r.0.path() == parsed.path(),
        r.1 == semantic_error_count(parsed.source(), parsed.path()),
{
    let (scoping, errors) = analyze_raw(parsed);
    (Analysis { scoping, source: Ghost(parsed.source@), path: Ghost(parsed.path@) }, errors)
}

/// Transforms a parsed program in place under `config`.
pub(crate) fn transform<'a>(
    arena: &'a Allocator,
    parsed: &mut Parsed<'a>,
    path: &str,
    config: &TransformConfig,
    analysis: Analysis,
) -> (r: usize)
    requires
        old(parsed).transformed_with() is None,
        path@ == old(parsed).path(),
        analysis.source() == old(parsed).source(),
        analysis.path() == old(parsed).path(),
    ensures
        final(parsed).source() == old(parsed).source(),
        final(parsed).path() == old(parsed).path(),
        final(parsed).transformed_with() == Some(config.model()),
        r == transform_error_count(old(parsed).source(), old(parsed).path(), config.model()),
{
    let errors = transform_raw(arena, parsed, path, config, analysis);
    parsed.transformed = Ghost(Some(config.model@));
    errors
}

} // verus!
