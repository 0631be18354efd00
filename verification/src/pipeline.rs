//! The order of a build's stages, and the run that walks a driver through
//! them.
//!
//! A build alternates work that only the driver can do (transforming
//! modules, rendering, writing files) with decisions about what comes next.
//! The decisions live here: a [`BuildRun`] names the next stage, the driver
//! performs it and reports back, and the run answers with the stage after
//! that, with `Finish`, or with `Abort` on the first failure.

use vstd::prelude::*;

use crate::config::{Config, Mode};

verus! {

/// One stage of a build. How a single chunk is treated inside
/// `MinifyChunks`, `EmitChunks` and `EmitScriptChunks` is decided in
/// [`crate::emit`].
#[derive(Clone, Copy, Debug, PartialEq, Eq, Structural)]
pub enum Stage {
    /// Remove dead exports from the module graph.
    TreeShake,
    /// Recompute the chunk graph from the module graph.
    GroupChunks,
    /// Run every module's transform.
    TransformAll,
    /// Create the output directory and its parents if they are missing.
    EnsureOutputDir,
    /// Render each chunk to its output AST.
    RenderChunks,
    /// Minify each output AST in place.
    MinifyChunks,
    /// Generate and write the code of every chunk.
    EmitChunks,
    /// Generate and write the code of the script chunks only.
    EmitScriptChunks,
    /// Find out which asset sources exist.
    ProbeAssets,
    /// Copy each asset to its place in the output tree.
    CopyAssets,
    /// Apply the configured copy rules.
    CopyConfigured,
}

/// Why a run was aborted.
#[derive(Clone, Copy, Debug, PartialEq, Eq, Structural)]
pub enum BuildFailure {
    /// The driver reported that this stage failed.
    StageFailed(Stage),
    /// The source of the asset with this index is missing.
    AssetNotFound(usize),
    /// The driver answered a stage with an event that does not belong to it.
    UnexpectedEvent(Stage),
}

/// What the driver is to do next.
#[derive(Clone, Copy, Debug, PartialEq, Eq, Structural)]
pub enum BuildAction {
    Perform(Stage),
    Finish,
    Abort(BuildFailure),
}

/// What the driver reports after performing a stage.
#[derive(Clone, Debug, PartialEq, Eq)]
pub enum BuildEvent {
    /// The stage was performed.
    Done,
    /// The stage failed.
    Failed,
    /// The answer to `ProbeAssets`: for each asset, in the order of the
    /// asset list, whether its source exists.
    AssetsProbed(Vec<bool>),
}

/// The stages of a full build, in order. Tree shaking belongs to production
/// builds only; minification needs the flag as well. The assets are probed
/// before the first chunk is written, so that a build with a missing asset
/// leaves no bundle behind.
pub open spec fn full_build_stages(config: Config) -> Seq<Stage> {
    (if config.tree_shakes() {
        seq![Stage::TreeShake]
    } else {
        Seq::<Stage>::empty()
    }) + seq![
        Stage::GroupChunks,
        Stage::TransformAll,
        Stage::EnsureOutputDir,
        Stage::RenderChunks,
    ] + (if config.minifies() {
        seq![Stage::MinifyChunks]
    } else {
        Seq::<Stage>::empty()
    }) + seq![Stage::ProbeAssets, Stage::EmitChunks, Stage::CopyAssets, Stage::CopyConfigured]
}

/// The stages of a development rebuild: the tail of a full build, for chunk
/// ASTs that are already rendered. Nothing is shaken, grouped, transformed
/// or minified, and stylesheet chunks are not written.
pub open spec fn dev_rebuild_stages() -> Seq<Stage> {
    seq![
        Stage::EnsureOutputDir,
        Stage::ProbeAssets,
        Stage::EmitScriptChunks,
        Stage::CopyAssets,
        Stage::CopyConfigured,
    ]
}

/// Whether a stage treats the chunks one by one.
pub open spec fn is_chunk_stage(stage: Stage) -> bool {
    stage == Stage::RenderChunks || stage == Stage::MinifyChunks || stage == Stage::EmitChunks
        || stage == Stage::EmitScriptChunks
}

/// The index of the first asset whose source is missing.
pub open spec fn first_missing(present: Seq<bool>) -> Option<int> {
    present.index_of_first(false)
}

/// The mathematical state of a run: the pipeline, how many of its stages
/// are done, and the failure that ended it, if any.
pub struct BuildRunView {
    pub stages: Seq<Stage>,
    pub position: nat,
    pub failure: Option<BuildFailure>,
}

impl BuildRunView {
    /// A run that has not performed anything yet.
    pub open spec fn start(stages: Seq<Stage>) -> BuildRunView {
        BuildRunView { stages, position: 0, failure: None }
    }

    /// The run waits for the outcome of a stage.
    pub open spec fn running(self) -> bool {
        self.failure is None && self.position < self.stages.len()
    }

    /// Every stage was performed.
    pub open spec fn finished(self) -> bool {
        self.failure is None && self.position >= self.stages.len()
    }

    /// What the driver is asked to do in this state.
    pub open spec fn action(self) -> BuildAction {
        match self.failure {
            Some(failure) => BuildAction::Abort(failure),
            None => if self.position < self.stages.len() {
                BuildAction::Perform(self.stages[self.position as int])
            } else {
                BuildAction::Finish
            },
        }
    }

    /// The state after the driver's report. A finished or aborted run stays
    /// as it is. Otherwise the run moves on to the next stage when the
    /// current one was performed, and is aborted when it failed, when an
    /// asset is missing, or when the report does not fit the stage.
    pub open spec fn step(self, event: BuildEvent) -> BuildRunView {
        if !self.running() {
            self
        } else {
            let stage = self.stages[self.position as int];
            let next = BuildRunView { position: self.position + 1, ..self };
            match event {
                BuildEvent::Failed => self.abort(BuildFailure::StageFailed(stage)),
                BuildEvent::Done => if stage == Stage::ProbeAssets {
                    self.abort(BuildFailure::UnexpectedEvent(stage))
                } else {
                    next
                },
                BuildEvent::AssetsProbed(present) => if stage != Stage::ProbeAssets {
                    self.abort(BuildFailure::UnexpectedEvent(stage))
                } else {
                    match first_missing(present@) {
                        Some(index) => self.abort(BuildFailure::AssetNotFound(index as usize)),
                        None => next,
                    }
                },
            }
        }
    }

    pub open spec fn abort(self, failure: BuildFailure) -> BuildRunView {
        BuildRunView { failure: Some(failure), ..self }
    }

    /// The state after a sequence of reports.
    pub open spec fn run(self, events: Seq<BuildEvent>) -> BuildRunView
        decreases events.len(),
    {
        if events.len() == 0 {
            self
        } else {
            self.run(events.drop_last()).step(events.last())
        }
    }

    /// Everything the driver is asked to do in the course of a sequence of
    /// reports: the first action, and the answer to each report.
    pub open spec fn trace(self, events: Seq<BuildEvent>) -> Seq<BuildAction> {
        Seq::new(events.len() + 1, |i: int| self.run(events.take(i)).action())
    }
}

/// A build in progress.
#[derive(Clone, Debug)]
pub struct BuildRun {
    stages: Vec<Stage>,
    position: usize,
    failure: Option<BuildFailure>,
}

impl View for BuildRun {
    type V = BuildRunView;

    closed spec fn view(&self) -> BuildRunView {
        BuildRunView {
            stages: self.stages@,
            position: self.position as nat,
            failure: self.failure,
        }
    }
}

/// The index of the first `false` in `present`.
pub fn first_missing_asset(present: &Vec<bool>) -> (missing: Option<usize>)
    ensures
        match missing {
            Some(index) => first_missing(present@) == Some(index as int),
            None => first_missing(present@) is None,
        },
{
    let mut i: usize = 0;
    while i < present.len()
        invariant
            i <= present.len(),
            forall|j: int| 0 <= j < i ==> present@[j],
        decreases present.len() - i,
    {
        if !present[i] {
            proof {
                present@.index_of_first_ensures(false);
            }
            return Some(i);
        }
        i += 1;
    }
    proof {
        present@.index_of_first_ensures(false);
    }
    None
}

impl BuildRun {
    /// A run of the full build's stages for `config`, before its first stage.
    pub fn full_build(config: &Config) -> (run: BuildRun)
        ensures
            run@ == BuildRunView::start(full_build_stages(*config)),
    {
        let mut stages: Vec<Stage> = Vec::new();
        if config.tree_shakes() {
            stages.push(Stage::TreeShake);
        }
        stages.push(Stage::GroupChunks);
        stages.push(Stage::TransformAll);
        stages.push(Stage::EnsureOutputDir);
        stages.push(Stage::RenderChunks);
        if config.minifies() {
            stages.push(Stage::MinifyChunks);
        }
        stages.push(Stage::ProbeAssets);
        stages.push(Stage::EmitChunks);
        stages.push(Stage::CopyAssets);
        stages.push(Stage::CopyConfigured);
        assert(stages@ =~= full_build_stages(*config));
        BuildRun { stages, position: 0, failure: None }
    }

    /// A run of the development rebuild's stages, before its first stage.
    pub fn dev_rebuild() -> (run: BuildRun)
        ensures
            run@ == BuildRunView::start(dev_rebuild_stages()),
    {
        let mut stages: Vec<Stage> = Vec::new();
        stages.push(Stage::EnsureOutputDir);
        stages.push(Stage::ProbeAssets);
        stages.push(Stage::EmitScriptChunks);
        stages.push(Stage::CopyAssets);
        stages.push(Stage::CopyConfigured);
        assert(stages@ =~= dev_rebuild_stages());
        BuildRun { stages, position: 0, failure: None }
    }

    /// What the driver is to do now.
    pub fn action(&self) -> (action: BuildAction)
        ensures
            action == self@.action(),
    {
        match self.failure {
            Some(failure) => BuildAction::Abort(failure),
            None => if self.position < self.stages.len() {
                BuildAction::Perform(self.stages[self.position])
            } else {
                BuildAction::Finish
            },
        }
    }

    /// Takes the driver's report on the stage it was asked to perform, and
    /// returns what it is to do next.
    pub fn advance(&mut self, event: BuildEvent) -> (action: BuildAction)
        ensures
            final(self)@ == old(self)@.step(event),
            action == final(self)@.action(),
    {
        if self.failure.is_none() && self.position < self.stages.len() {
            let stage = self.stages[self.position];
            match event {
                BuildEvent::Failed => {
                    self.failure = Some(BuildFailure::StageFailed(stage));
                },
                BuildEvent::Done => {
                    if stage == Stage::ProbeAssets {
                        self.failure = Some(BuildFailure::UnexpectedEvent(stage));
                    } else {
                        self.position = self.position + 1;
                    }
                },
                BuildEvent::AssetsProbed(present) => {
                    if stage != Stage::ProbeAssets {
                        self.failure = Some(BuildFailure::UnexpectedEvent(stage));
                    } else {
                        match first_missing_asset(&present) {
                            Some(index) => {
                                self.failure = Some(BuildFailure::AssetNotFound(index));
                            },
                            None => {
                                self.position = self.position + 1;
                            },
                        }
                    }
                },
            }
        }
        self.action()
    }

    /// Whether every stage was performed.
    pub fn is_finished(&self) -> (b: bool)
        ensures
            b == self@.finished(),
    {
        self.failure.is_none() && self.position >= self.stages.len()
    }

    /// The failure that ended the run, if it was aborted.
    pub fn failure(&self) -> (failure: Option<BuildFailure>)
        ensures
            failure == self@.failure,
    {
        self.failure
    }
}

/// Running a sequence of reports in two parts gives the same state as
/// running it whole.
pub proof fn lemma_run_split(state: BuildRunView, first: Seq<BuildEvent>, rest: Seq<BuildEvent>)
    ensures
        state.run(first + rest) == state.run(first).run(rest),
    decreases rest.len(),
{
    if rest.len() == 0 {
        assert(first + rest =~= first);
    } else {
        assert((first + rest).drop_last() =~= first + rest.drop_last());
        assert((first + rest).last() == rest.last());
        lemma_run_split(state, first, rest.drop_last());
    }
}

/// A finished or aborted run does not change any more, whatever the driver
/// reports.
pub proof fn lemma_ended_run_stays(state: BuildRunView, events: Seq<BuildEvent>)
    requires
        !state.running(),
    ensures
        state.run(events) == state,
    decreases events.len(),
{
    if events.len() > 0 {
        lemma_ended_run_stays(state, events.drop_last());
    }
}

/// After any reports, a run that began at the first stage still has its
/// pipeline, has come no further than one stage per report, and, while it
/// is running, has performed exactly one stage per report.
pub proof fn lemma_run_position(stages: Seq<Stage>, events: Seq<BuildEvent>)
    ensures
        ({
            let state = BuildRunView::start(stages).run(events);
            &&& state.stages == stages
            &&& state.position <= stages.len()
            &&& state.position <= events.len()
            &&& state.running() ==> state.position == events.len()
            &&& state.finished() ==> state.position == stages.len()
        }),
    decreases events.len(),
{
    if events.len() > 0 {
        lemma_run_position(stages, events.drop_last());
    }
}

/// The stages are performed in the order of the pipeline, each at most
/// once: whenever the request that follows the first `i` reports is a
/// stage, it is the stage at index `i`.
pub proof fn lemma_stages_in_order(stages: Seq<Stage>, events: Seq<BuildEvent>, i: int)
    requires
        0 <= i <= events.len(),
    ensures
        BuildRunView::start(stages).trace(events)[i] is Perform ==> i < stages.len()
            && BuildRunView::start(stages).trace(events)[i] == BuildAction::Perform(stages[i]),
{
    lemma_run_position(stages, events.take(i));
}

/// A run reports success only after every stage of the pipeline was
/// requested, in order: if the request after the first `n` reports is
/// `Finish`, the requests before it begin with the whole pipeline.
pub proof fn lemma_finish_follows_all_stages(
    stages: Seq<Stage>,
    events: Seq<BuildEvent>,
    n: int,
    k: int,
)
    requires
        0 <= n <= events.len(),
        BuildRunView::start(stages).trace(events)[n] == BuildAction::Finish,
        0 <= k < stages.len(),
    ensures
        k < n,
        BuildRunView::start(stages).trace(events)[k] == BuildAction::Perform(stages[k]),
{
    let start = BuildRunView::start(stages);
    lemma_run_position(stages, events.take(n));
    lemma_run_position(stages, events.take(k));
    let before = start.run(events.take(k));
    if !before.running() {
        // An ended run stays as it is, so it would not be at the end of the
        // pipeline after n reports either.
        assert(events.take(n) =~= events.take(k) + events.subrange(k, n));
        lemma_run_split(start, events.take(k), events.subrange(k, n));
        lemma_ended_run_stays(before, events.subrange(k, n));
    }
}

/// The first failure ends the run: once a request is `Abort`, every later
/// request is the same `Abort`, and the run never reports success.
pub proof fn lemma_abort_is_final(
    stages: Seq<Stage>,
    events: Seq<BuildEvent>,
    i: int,
    j: int,
)
    requires
        0 <= i <= j <= events.len(),
        BuildRunView::start(stages).trace(events)[i] is Abort,
    ensures
        BuildRunView::start(stages).trace(events)[j] == BuildRunView::start(stages).trace(
            events,
        )[i],
{
    let start = BuildRunView::start(stages);
    assert(events.take(j) =~= events.take(i) + events.subrange(i, j));
    lemma_run_split(start, events.take(i), events.subrange(i, j));
    lemma_ended_run_stays(start.run(events.take(i)), events.subrange(i, j));
}

/// A stage that fails aborts the run at once, with that stage as the
/// reason.
pub proof fn lemma_failed_stage_aborts(stages: Seq<Stage>, events: Seq<BuildEvent>, i: int)
    requires
        0 <= i < events.len(),
        BuildRunView::start(stages).trace(events)[i] is Perform,
        events[i] == BuildEvent::Failed,
    ensures
        i < stages.len(),
        BuildRunView::start(stages).trace(events)[i + 1] == BuildAction::Abort(
            BuildFailure::StageFailed(stages[i]),
        ),
{
    lemma_run_position(stages, events.take(i));
    assert(events.take(i + 1).drop_last() =~= events.take(i));
}

/// A missing asset source aborts the build before it can report success:
/// when the answer to `ProbeAssets` names an asset as missing, every later
/// request is `Abort` with the first missing asset as the reason, and none
/// is `Finish`.
pub proof fn lemma_missing_asset_aborts(
    stages: Seq<Stage>,
    events: Seq<BuildEvent>,
    i: int,
    j: int,
)
    requires
        0 <= i < j <= events.len(),
        BuildRunView::start(stages).trace(events)[i] == BuildAction::Perform(Stage::ProbeAssets),
        events[i] matches BuildEvent::AssetsProbed(present) && present@.contains(false),
    ensures
        events[i] matches BuildEvent::AssetsProbed(present) && first_missing(present@) is Some
            && BuildRunView::start(stages).trace(events)[j] == BuildAction::Abort(
            BuildFailure::AssetNotFound(first_missing(present@)->0 as usize),
        ),
{
    let present = events[i]->AssetsProbed_0;
    present@.index_of_first_ensures(false);
    lemma_run_position(stages, events.take(i));
    assert(events.take(i + 1).drop_last() =~= events.take(i));
    lemma_abort_is_final(stages, events, i + 1, j);
}

/// Whether a stage writes chunks or assets into the output directory, or
/// reports the build as complete.
pub open spec fn writes_bundle(action: BuildAction) -> bool {
    action == BuildAction::Perform(Stage::EmitChunks) || action == BuildAction::Perform(
        Stage::EmitScriptChunks,
    ) || action == BuildAction::Perform(Stage::CopyAssets) || action == BuildAction::Perform(
        Stage::CopyConfigured,
    ) || action == BuildAction::Finish
}

/// A full build with a missing asset source leaves no bundle behind: it
/// writes no chunk, copies no asset and does not report success, neither
/// before the assets are probed nor after.
pub proof fn lemma_missing_asset_leaves_no_bundle(
    config: Config,
    events: Seq<BuildEvent>,
    i: int,
    j: int,
)
    requires
        0 <= i < events.len(),
        0 <= j <= events.len(),
        BuildRunView::start(full_build_stages(config)).trace(events)[i] == BuildAction::Perform(
            Stage::ProbeAssets,
        ),
        events[i] matches BuildEvent::AssetsProbed(present) && present@.contains(false),
    ensures
        !writes_bundle(BuildRunView::start(full_build_stages(config)).trace(events)[j]),
{
    let stages = full_build_stages(config);
    lemma_stages_in_order(stages, events, i);
    lemma_stages_in_order(stages, events, j);
    lemma_run_position(stages, events.take(j));
    if j > i {
        lemma_missing_asset_aborts(stages, events, i, j);
    }
}

/// A development rebuild with a missing asset source writes no chunk,
/// copies no asset and does not report success.
pub proof fn lemma_missing_asset_stops_dev_rebuild(events: Seq<BuildEvent>, i: int, j: int)
    requires
        0 <= i < events.len(),
        0 <= j <= events.len(),
        BuildRunView::start(dev_rebuild_stages()).trace(events)[i] == BuildAction::Perform(
            Stage::ProbeAssets,
        ),
        events[i] matches BuildEvent::AssetsProbed(present) && present@.contains(false),
    ensures
        !writes_bundle(BuildRunView::start(dev_rebuild_stages()).trace(events)[j]),
{
    let stages = dev_rebuild_stages();
    lemma_stages_in_order(stages, events, i);
    lemma_stages_in_order(stages, events, j);
    lemma_run_position(stages, events.take(j));
    if j > i {
        lemma_missing_asset_aborts(stages, events, i, j);
    }
}

/// No stage occurs twice in the pipeline of a full build.
pub proof fn lemma_full_build_stages_distinct(config: Config)
    ensures
        full_build_stages(config).no_duplicates(),
{
}

/// The pipeline of a full build transforms the modules at exactly one
/// place, and that place lies before every stage that treats the chunks one
/// by one.
pub proof fn lemma_transform_is_hoisted(config: Config)
    ensures
        ({
            let stages = full_build_stages(config);
            let at: int = if config.tree_shakes() {
                2
            } else {
                1
            };
            &&& stages[at] == Stage::TransformAll
            &&& forall|k: int|
                0 <= k < stages.len() && stages[k] == Stage::TransformAll ==> k == at
            &&& forall|k: int| 0 <= k < stages.len() && is_chunk_stage(#[trigger] stages[k]) ==> at < k
        }),
{
}

/// However many chunks hold a module, a full build transforms it once: the
/// transform of all modules is requested at most once in a run, so two
/// requests for it are the same request.
pub proof fn lemma_transform_requested_once(
    config: Config,
    events: Seq<BuildEvent>,
    i: int,
    j: int,
)
    requires
        0 <= i <= events.len(),
        0 <= j <= events.len(),
        BuildRunView::start(full_build_stages(config)).trace(events)[i] == BuildAction::Perform(
            Stage::TransformAll,
        ),
        BuildRunView::start(full_build_stages(config)).trace(events)[j] == BuildAction::Perform(
            Stage::TransformAll,
        ),
    ensures
        i == j,
{
    let stages = full_build_stages(config);
    lemma_stages_in_order(stages, events, i);
    lemma_stages_in_order(stages, events, j);
    lemma_transform_is_hoisted(config);
}

/// In a full build the transform of all modules is requested before any
/// stage that treats the chunks one by one, and before success is reported.
pub proof fn lemma_transform_precedes_chunk_work(config: Config, events: Seq<BuildEvent>, j: int)
    requires
        0 <= j <= events.len(),
        ({
            let request = BuildRunView::start(full_build_stages(config)).trace(events)[j];
            request == BuildAction::Finish || (request matches BuildAction::Perform(stage)
                && is_chunk_stage(stage))
        }),
    ensures
        exists|i: int|
            0 <= i < j && #[trigger] BuildRunView::start(full_build_stages(config)).trace(
                events,
            )[i] == BuildAction::Perform(Stage::TransformAll),
{
    let stages = full_build_stages(config);
    let start = BuildRunView::start(stages);
    let at: int = if config.tree_shakes() {
        2
    } else {
        1
    };
    lemma_transform_is_hoisted(config);
    lemma_stages_in_order(stages, events, j);
    lemma_run_position(stages, events.take(j));
    if start.trace(events)[j] == BuildAction::Finish {
        lemma_finish_follows_all_stages(stages, events, j, at);
    } else {
        assert(at < j);
        lemma_run_position(stages, events.take(at));
        let before = start.run(events.take(at));
        if !before.running() {
            assert(events.take(j) =~= events.take(at) + events.subrange(at, j));
            lemma_run_split(start, events.take(at), events.subrange(at, j));
            lemma_ended_run_stays(before, events.subrange(at, j));
        }
    }
    assert(start.trace(events)[at] == BuildAction::Perform(Stage::TransformAll));
}

/// Minification is requested only where the flag is set and the build is a
/// production build, and tree shaking only in a production build.
pub proof fn lemma_optimisations_need_production(config: Config, events: Seq<BuildEvent>, i: int)
    requires
        0 <= i <= events.len(),
    ensures
        BuildRunView::start(full_build_stages(config)).trace(events)[i] == BuildAction::Perform(
            Stage::MinifyChunks,
        ) ==> config.minify && config.mode == Mode::Production,
        BuildRunView::start(full_build_stages(config)).trace(events)[i] == BuildAction::Perform(
            Stage::TreeShake,
        ) ==> config.mode == Mode::Production,
{
    lemma_stages_in_order(full_build_stages(config), events, i);
}

/// A development rebuild never shakes, groups, transforms, renders or
/// minifies: it requests only the stages of its own pipeline.
pub proof fn lemma_dev_rebuild_is_the_tail(events: Seq<BuildEvent>, i: int)
    requires
        0 <= i <= events.len(),
    ensures
        BuildRunView::start(dev_rebuild_stages()).trace(events)[i] matches BuildAction::Perform(
            stage,
        ) ==> stage == Stage::EnsureOutputDir || stage == Stage::EmitScriptChunks || stage
            == Stage::ProbeAssets || stage == Stage::CopyAssets || stage == Stage::CopyConfigured,
{
    lemma_stages_in_order(dev_rebuild_stages(), events, i);
}

} // verus!
