//! Per-workspace defaults.

use vstd::prelude::*;
use crate::types::manifest::{DepthPolicy, FilterPolicy, LfsPolicy};

verus! {

/// The defaults that a workspace applies to newly registered repositories.
#[derive(Debug, Clone, Copy, PartialEq, Eq, Structural)]
pub struct Config {
    pub default_lfs: LfsPolicy,
    pub default_depth: DepthPolicy,
    pub default_filter: FilterPolicy,
}

impl View for Config {
    type V = Config;

    open spec fn view(&self) -> Config {
        *self
    }
}

impl DeepView for Config {
    type V = Config;

    open spec fn deep_view(&self) -> Config {
        *self
    }
}

impl Default for Config {
    /// Pointer files only, a hundred commits of history, no filter.
    fn default() -> (r: Self)
        ensures
            r == (Config {
                default_lfs: LfsPolicy::Minimal,
                default_depth: DepthPolicy::Depth(100),
                default_filter: FilterPolicy::NoFilter,
            }),
    {
        Config {
            default_lfs: LfsPolicy::Minimal,
            default_depth: DepthPolicy::Depth(100),
            default_filter: FilterPolicy::NoFilter,
        }
    }
}

} // verus!
