//! Per-request configuration of the hint engine.

use vstd::prelude::*;

verus! {

/// Which kinds of hints a request asks for, and how long a rendered type may be.
#[derive(Clone, Copy, Debug, PartialEq, Eq)]
pub struct InlayHintsConfig {
    pub type_hints: bool,
    pub parameter_hints: bool,
    pub chaining_hints: bool,
    pub max_length: Option<usize>,
}

impl Default for InlayHintsConfig {
    /// Every kind of hint, and no limit on the length of a label.
    fn default() -> (config: Self)
        ensures
            config.type_hints,
            config.parameter_hints,
            config.chaining_hints,
            config.max_length is None,
    {
        Self { type_hints: true, parameter_hints: true, chaining_hints: true, max_length: None }
    }
}

} // verus!
