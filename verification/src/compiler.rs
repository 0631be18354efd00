//! The entry points of the output pipeline.
//!
//! A [`Compiler`] holds the configuration and starts the runs: a full
//! build, a development rebuild of chunks that are rendered already, and an
//! incremental rebuild that patches a running client.

use vstd::prelude::*;

use crate::config::Config;
use crate::hot_update::{HotUpdateRun, HotUpdateRunView, UpdateResult};
use crate::pipeline::{dev_rebuild_stages, full_build_stages, BuildRun, BuildRunView};

verus! {

/// The output pipeline for one configuration.
#[derive(Clone, Copy, Debug, PartialEq, Eq, Structural)]
pub struct Compiler {
    pub config: Config,
}

impl Compiler {
    pub fn new(config: Config) -> (compiler: Compiler)
        ensures
            compiler.config == config,
    {
        Compiler { config }
    }

    /// Starts a full build. The run asks for the stages of the full build
    /// in order: tree shaking in a production build, grouping, the
    /// transform of all modules, the output directory, rendering,
    /// minification where the flag is set in a production build, the probe
    /// for missing assets, the writing of the chunks, and the copying of
    /// assets and by the copy rules.
    pub fn generate(&self) -> (run: BuildRun)
        ensures
            run@ == BuildRunView::start(full_build_stages(self.config)),
    {
        BuildRun::full_build(&self.config)
    }

    /// Starts a development rebuild for chunk ASTs that are rendered
    /// already. The run asks only for the end of a build: the output
    /// directory, the probe for missing assets, the writing of the script
    /// chunks, and the copying of assets and by the copy rules.
    pub fn emit_dev_chunks(&self) -> (run: BuildRun)
        ensures
            run@ == BuildRunView::start(dev_rebuild_stages()),
    {
        BuildRun::dev_rebuild()
    }

    /// Starts an incremental rebuild after a change to `updated_modules`,
    /// for a client that holds the build with hash `last_full_hash`. The
    /// run ends with the hash to hand to the next rebuild.
    pub fn generate_hot_update_chunks(
        &self,
        updated_modules: UpdateResult,
        last_full_hash: u64,
    ) -> (run: HotUpdateRun)
        ensures
            run@ == HotUpdateRunView::start(updated_modules.modified.deep_view(), last_full_hash),
    {
        HotUpdateRun::new(updated_modules, last_full_hash)
    }
}

} // verus!
