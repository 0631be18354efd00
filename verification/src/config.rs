//! The part of the bundler's configuration that decides what a build does.

use vstd::prelude::*;

verus! {

/// The optimisation level of a build.
#[derive(Clone, Copy, Debug, PartialEq, Eq, Structural)]
pub enum Mode {
    Development,
    Production,
}

/// Whether script chunks are accompanied by a source map.
#[derive(Clone, Copy, Debug, PartialEq, Eq, Structural)]
pub enum DevtoolConfig {
    Off,
    SourceMap,
}

/// The options that the output pipeline reads.
#[derive(Clone, Copy, Debug, PartialEq, Eq, Structural)]
pub struct Config {
    pub mode: Mode,
    pub minify: bool,
    pub devtool: DevtoolConfig,
}

impl Config {
    /// Dead exports are eliminated only in a production build.
    pub open spec fn spec_tree_shakes(&self) -> bool {
        self.mode == Mode::Production
    }

    /// Minification needs both the flag and a production build.
    pub open spec fn spec_minifies(&self) -> bool {
        self.minify && self.mode == Mode::Production
    }

    /// Source maps are written only when the devtool option selects them.
    pub open spec fn spec_writes_sourcemap(&self) -> bool {
        self.devtool == DevtoolConfig::SourceMap
    }

    #[verifier::when_used_as_spec(spec_tree_shakes)]
    pub fn tree_shakes(&self) -> (b: bool)
        ensures
            b == self.spec_tree_shakes(),
    {
        self.mode == Mode::Production
    }

    #[verifier::when_used_as_spec(spec_minifies)]
    pub fn minifies(&self) -> (b: bool)
        ensures
            b == self.spec_minifies(),
    {
        self.minify && self.mode == Mode::Production
    }

    #[verifier::when_used_as_spec(spec_writes_sourcemap)]
    pub fn writes_sourcemap(&self) -> (b: bool)
        ensures
            b == self.spec_writes_sourcemap(),
    {
        self.devtool == DevtoolConfig::SourceMap
    }
}

} // verus!
