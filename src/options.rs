use vstd::prelude::*;
use vstd::utf8::{decode_utf8, valid_utf8};

use crate::text::decode_utf8_text;

verus! {

/// How runtime helpers used by lowered code reach the output.
#[derive(Clone, Copy, Debug, PartialEq, Eq, Structural)]
pub enum TransformHelperLoaderMode {
    /// Helpers are inlined into the output.
    Runtime,
    /// Helpers are imported from an external module.
    External,
}

/// The caller's flat options record, with its text fields as raw bytes.
///
/// The integer flags follow the foreign convention: zero is off, anything
/// else is on. `target` is a comma-separated list of environment names.
#[derive(Debug)]
pub struct CTransformOptions {
    pub jsx_enabled: i32,
    pub jsx_development: i32,
    pub typescript_enabled: i32,
    pub helper_loader_mode: TransformHelperLoaderMode,
    pub target: Option<Vec<u8>>,
}

/// The configuration a plan starts from before its own settings are layered on.
#[derive(Clone, Copy, Debug, PartialEq, Eq, Structural)]
pub enum Baseline {
    /// Every transform that the transformer has ready.
    EnableAll,
    /// The transformer's minimal default configuration.
    Minimal,
}

/// What the transformer configuration is built from.
///
/// The module format is not part of the plan: every configuration built from
/// a plan emits CommonJS-style modules.
#[derive(Debug)]
pub struct OptionsPlan {
    pub baseline: Baseline,
    /// Environment target to resolve; on success its feature set replaces
    /// the baseline's.
    pub target: Option<String>,
    /// When resolving `target` fails, restart from every transform enabled
    /// (otherwise the baseline's environment is kept).
    pub enable_all_on_target_failure: bool,
    pub jsx_development: bool,
    pub helper_loader_mode: TransformHelperLoaderMode,
    /// Turn on legacy decorator lowering with metadata emission.
    pub legacy_decorators: bool,
}

/// The target named in the default policy.
pub open spec fn default_target() -> Seq<char> {
    seq!['e', 's', '2', '0', '2', '0']
}

/// The target text that a raw target field asks for: present, valid UTF-8
/// and non-empty, else nothing.
pub open spec fn requested_target(t: Option<Vec<u8>>) -> Option<Seq<char>> {
    match t {
        Some(b) => if valid_utf8(b@) && decode_utf8(b@).len() > 0 {
            Some(decode_utf8(b@))
        } else {
            None
        },
        None => None,
    }
}

pub open spec fn text_of(t: Option<String>) -> Option<Seq<char>> {
    match t {
        Some(s) => Some(s@),
        None => None,
    }
}

/// The policy table: the plan for an options record, or for its absence.
pub open spec fn plan_matches(opts: Option<CTransformOptions>, p: OptionsPlan) -> bool {
    match opts {
        None => {
            &&& p.baseline == Baseline::Minimal
            &&& text_of(p.target) == Some(default_target())
            &&& p.enable_all_on_target_failure
            &&& !p.jsx_development
            &&& p.helper_loader_mode == TransformHelperLoaderMode::Runtime
            &&& p.legacy_decorators
        },
        Some(o) => {
            &&& p.baseline == (if o.jsx_enabled != 0 || o.typescript_enabled != 0 {
                Baseline::Minimal
            } else {
                Baseline::EnableAll
            })
            &&& text_of(p.target) == requested_target(o.target)
            &&& !p.enable_all_on_target_failure
            &&& p.jsx_development == (o.jsx_enabled != 0 && o.jsx_development != 0)
            &&& p.helper_loader_mode == o.helper_loader_mode
            &&& !p.legacy_decorators
        },
    }
}

/// Turns the caller's options record, or its absence, into a plan.
pub fn plan_options(opts: Option<&CTransformOptions>) -> (p: OptionsPlan)
    ensures
        plan_matches(
            match opts {
                Some(o) => Some(*o),
                None => None,
            },
            p,
        ),
{
    match opts {
        None => {
            let target = String::from_str("es2020");
            proof {
                reveal_strlit("es2020");
                assert(target@ =~= default_target());
            }
            OptionsPlan {
                baseline: Baseline::Minimal,
                target: Some(target),
                enable_all_on_target_failure: true,
                jsx_development: false,
                helper_loader_mode: TransformHelperLoaderMode::Runtime,
                legacy_decorators: true,
            }
        },
        Some(o) => {
            let baseline = if o.jsx_enabled != 0 || o.typescript_enabled != 0 {
                Baseline::Minimal
            } else {
                Baseline::EnableAll
            };
            let target = match &o.target {
                Some(b) => match decode_utf8_text(b.as_slice()) {
                    Some(s) => if s.is_empty() {
                        None
                    } else {
                        Some(s.to_owned())
                    },
                    None => None,
                },
                None => None,
            };
            OptionsPlan {
                baseline,
                target,
                enable_all_on_target_failure: false,
                jsx_development: o.jsx_enabled != 0 && o.jsx_development != 0,
                helper_loader_mode: o.helper_loader_mode,
                legacy_decorators: false,
            }
        },
    }
}

} // verus!
