//! The incremental rebuild: what changed since the build a client holds,
//! and which patches bring the client up to date.
//!
//! A rebuild compares the full hash of the new build with that of the build
//! before. Equal hashes mean that nothing changed, and nothing is written.
//! Otherwise the chunks whose names are gone are reported as removed, the
//! chunks that hold a modified module are rendered again, and a manifest
//! lists both. Patches and manifest are named after the hash of the build
//! before, which is the one the client knows.

use vstd::prelude::*;

use crate::chunk_graph::{chunk_names, ChunkGraph};
use crate::diff::{modified_chunk_names, modified_chunks, removed_chunk_names, removed_chunks};
use crate::manifest::{HotUpdateManifest, ManifestView};
use crate::naming::{
    hot_update_chunk_name,
    hot_update_manifest_name,
    to_hot_update_chunk_name,
    to_hot_update_manifest_name,
};

verus! {

/// What changed in the module graph since the build before.
#[derive(Clone, Debug, PartialEq, Eq)]
pub struct UpdateResult {
    /// The ids of the modules whose content changed.
    pub modified: Vec<String>,
}

fn clone_strings(items: &Vec<String>) -> (copy: Vec<String>)
    ensures
        copy.deep_view() == items.deep_view(),
{
    let mut copy: Vec<String> = Vec::new();
    let mut i: usize = 0;
    while i < items.len()
        invariant
            i <= items.len(),
            copy.deep_view() == items.deep_view().take(i as int),
        decreases items.len() - i,
    {
        let ghost before = copy.deep_view();
        copy.push(items[i].clone());
        assert(copy.deep_view() =~= before.push(items[i as int]@));
        i += 1;
        assert(copy.deep_view() =~= items.deep_view().take(i as int));
    }
    assert(items.deep_view().take(i as int) =~= items.deep_view());
    copy
}

/// One step of an incremental rebuild.
#[derive(Clone, Copy, Debug, PartialEq, Eq, Structural)]
pub enum HotUpdateStep {
    /// Take down the chunk names of the build before.
    SnapshotChunkNames,
    /// Recompute the chunk graph from the module graph.
    GroupChunks,
    /// Run every module's transform.
    TransformAll,
    /// Compute the full hash of the new build.
    ComputeFullHash,
    /// Create the output directory and its parents if they are missing.
    EnsureOutputDir,
    /// Read the new chunk graph.
    ReadChunkGraph,
    /// Render one modified chunk and write it as a patch.
    WritePatch,
    /// Write the manifest.
    WriteManifest,
}

/// Why a rebuild was aborted.
#[derive(Clone, Copy, Debug, PartialEq, Eq, Structural)]
pub enum HotUpdateFailure {
    /// The driver reported that this step failed.
    StepFailed(HotUpdateStep),
    /// The driver answered this step with an event that does not belong to
    /// it.
    UnexpectedEvent(HotUpdateStep),
}

/// What the driver reports after performing a step.
#[derive(Debug, PartialEq, Eq)]
pub enum HotUpdateEvent {
    /// The step was performed.
    Done,
    /// The step failed.
    Failed,
    /// The answer to `SnapshotChunkNames`.
    ChunkNames(Vec<String>),
    /// The answer to `ComputeFullHash`.
    FullHash(u64),
    /// The answer to `ReadChunkGraph`.
    Graph(ChunkGraph),
}

/// What the driver is to do next.
#[derive(Clone, Debug, PartialEq, Eq)]
pub enum HotUpdateAction {
    SnapshotChunkNames,
    GroupChunks,
    TransformAll,
    ComputeFullHash,
    EnsureOutputDir,
    ReadChunkGraph,
    /// Render the chunk named `chunk` for the modified modules and write
    /// its code to `filename`.
    WritePatch { chunk: String, filename: String },
    /// Write the text of `manifest` to `filename`.
    WriteManifest { filename: String, manifest: HotUpdateManifest },
    /// The rebuild is complete; the hash is the one to start the next
    /// rebuild from.
    Finish(u64),
    Abort(HotUpdateFailure),
}

/// What an action is, mathematically.
pub enum HotUpdateActionView {
    SnapshotChunkNames,
    GroupChunks,
    TransformAll,
    ComputeFullHash,
    EnsureOutputDir,
    ReadChunkGraph,
    WritePatch { chunk: Seq<char>, filename: Seq<char> },
    WriteManifest { filename: Seq<char>, manifest: ManifestView },
    Finish(u64),
    Abort(HotUpdateFailure),
}

impl View for HotUpdateAction {
    type V = HotUpdateActionView;

    open spec fn view(&self) -> HotUpdateActionView {
        match self {
            HotUpdateAction::SnapshotChunkNames => HotUpdateActionView::SnapshotChunkNames,
            HotUpdateAction::GroupChunks => HotUpdateActionView::GroupChunks,
            HotUpdateAction::TransformAll => HotUpdateActionView::TransformAll,
            HotUpdateAction::ComputeFullHash => HotUpdateActionView::ComputeFullHash,
            HotUpdateAction::EnsureOutputDir => HotUpdateActionView::EnsureOutputDir,
            HotUpdateAction::ReadChunkGraph => HotUpdateActionView::ReadChunkGraph,
            HotUpdateAction::WritePatch { chunk, filename } => HotUpdateActionView::WritePatch {
                chunk: chunk@,
                filename: filename@,
            },
            HotUpdateAction::WriteManifest {
                filename,
                manifest,
            } => HotUpdateActionView::WriteManifest { filename: filename@, manifest: manifest@ },
            HotUpdateAction::Finish(hash) => HotUpdateActionView::Finish(*hash),
            HotUpdateAction::Abort(failure) => HotUpdateActionView::Abort(*failure),
        }
    }
}

/// The step at a position of a rebuild that writes `patches` patches: six
/// steps that every changed build takes, then one patch for each modified
/// chunk, then the manifest.
pub open spec fn step_at(position: nat, patches: nat) -> HotUpdateStep {
    if position == 0 {
        HotUpdateStep::SnapshotChunkNames
    } else if position == 1 {
        HotUpdateStep::GroupChunks
    } else if position == 2 {
        HotUpdateStep::TransformAll
    } else if position == 3 {
        HotUpdateStep::ComputeFullHash
    } else if position == 4 {
        HotUpdateStep::EnsureOutputDir
    } else if position == 5 {
        HotUpdateStep::ReadChunkGraph
    } else if position < 6 + patches {
        HotUpdateStep::WritePatch
    } else {
        HotUpdateStep::WriteManifest
    }
}

/// The mathematical state of a rebuild.
pub struct HotUpdateRunView {
    /// The ids of the modules that changed.
    pub modified_modules: Seq<Seq<char>>,
    /// The full hash of the build before.
    pub last_full_hash: u64,
    /// How many steps are done.
    pub position: nat,
    /// How the rebuild ended, once it has: with the hash to go on from, or
    /// with a failure.
    pub outcome: Option<Result<u64, HotUpdateFailure>>,
    /// The chunk names of the build before, once they are taken down.
    pub previous_names: Seq<Seq<char>>,
    /// The full hash of the new build, once it is computed.
    pub full_hash: u64,
    /// The names of the modified chunks, once the new graph is read.
    pub modified_chunks: Seq<Seq<char>>,
    /// The names of the removed chunks, once the new graph is read.
    pub removed_chunks: Seq<Seq<char>>,
}

impl HotUpdateRunView {
    /// A rebuild that has not performed anything yet.
    pub open spec fn start(
        modified_modules: Seq<Seq<char>>,
        last_full_hash: u64,
    ) -> HotUpdateRunView {
        HotUpdateRunView {
            modified_modules,
            last_full_hash,
            position: 0,
            outcome: None,
            previous_names: Seq::empty(),
            full_hash: last_full_hash,
            modified_chunks: Seq::empty(),
            removed_chunks: Seq::empty(),
        }
    }

    /// The rebuild waits for the outcome of a step.
    pub open spec fn running(self) -> bool {
        self.outcome is None
    }

    /// The step the rebuild is at.
    pub open spec fn current_step(self) -> HotUpdateStep {
        step_at(self.position, self.modified_chunks.len())
    }

    /// What the manifest of the rebuild lists.
    pub open spec fn manifest(self) -> ManifestView {
        ManifestView {
            modified_chunks: self.modified_chunks,
            removed_chunks: self.removed_chunks,
        }
    }

    /// What the driver is asked to do in this state. Patches and manifest
    /// are named after the hash of the build before.
    pub open spec fn action(self) -> HotUpdateActionView {
        match self.outcome {
            Some(Ok(hash)) => HotUpdateActionView::Finish(hash),
            Some(Err(failure)) => HotUpdateActionView::Abort(failure),
            None => match self.current_step() {
                HotUpdateStep::SnapshotChunkNames => HotUpdateActionView::SnapshotChunkNames,
                HotUpdateStep::GroupChunks => HotUpdateActionView::GroupChunks,
                HotUpdateStep::TransformAll => HotUpdateActionView::TransformAll,
                HotUpdateStep::ComputeFullHash => HotUpdateActionView::ComputeFullHash,
                HotUpdateStep::EnsureOutputDir => HotUpdateActionView::EnsureOutputDir,
                HotUpdateStep::ReadChunkGraph => HotUpdateActionView::ReadChunkGraph,
                HotUpdateStep::WritePatch => {
                    let chunk = self.modified_chunks[self.position - 6];
                    HotUpdateActionView::WritePatch {
                        chunk,
                        filename: hot_update_chunk_name(chunk, self.last_full_hash),
                    }
                },
                HotUpdateStep::WriteManifest => HotUpdateActionView::WriteManifest {
                    filename: hot_update_manifest_name(self.last_full_hash),
                    manifest: self.manifest(),
                },
            },
        }
    }

    pub open spec fn end(self, outcome: Result<u64, HotUpdateFailure>) -> HotUpdateRunView {
        HotUpdateRunView { outcome: Some(outcome), ..self }
    }

    /// The state after the driver's report. A rebuild that has ended stays
    /// as it is. A step that failed, or a report that does not fit the
    /// step, aborts the rebuild. A full hash equal to that of the build
    /// before ends the rebuild at once, with that hash and with nothing
    /// written. The new chunk graph fixes the modified and the removed
    /// chunks. The rebuild finishes with the new hash when the manifest is
    /// written.
    pub open spec fn step(self, event: HotUpdateEvent) -> HotUpdateRunView {
        if !self.running() {
            self
        } else {
            let step = self.current_step();
            let next = HotUpdateRunView { position: self.position + 1, ..self };
            let unexpected = self.end(Err(HotUpdateFailure::UnexpectedEvent(step)));
            match event {
                HotUpdateEvent::Failed => self.end(Err(HotUpdateFailure::StepFailed(step))),
                HotUpdateEvent::Done => if step == HotUpdateStep::GroupChunks || step
                    == HotUpdateStep::TransformAll || step == HotUpdateStep::EnsureOutputDir
                    || step == HotUpdateStep::WritePatch {
                    next
                } else if step == HotUpdateStep::WriteManifest {
                    self.end(Ok(self.full_hash))
                } else {
                    unexpected
                },
                HotUpdateEvent::ChunkNames(names) => if step == HotUpdateStep::SnapshotChunkNames {
                    HotUpdateRunView { previous_names: names.deep_view(), ..next }
                } else {
                    unexpected
                },
                HotUpdateEvent::FullHash(hash) => if step == HotUpdateStep::ComputeFullHash {
                    if hash == self.last_full_hash {
                        HotUpdateRunView { full_hash: hash, ..self }.end(Ok(hash))
                    } else {
                        HotUpdateRunView { full_hash: hash, ..next }
                    }
                } else {
                    unexpected
                },
                HotUpdateEvent::Graph(graph) => if step == HotUpdateStep::ReadChunkGraph {
                    HotUpdateRunView {
                        modified_chunks: modified_chunk_names(graph@, self.modified_modules),
                        removed_chunks: removed_chunk_names(
                            self.previous_names,
                            chunk_names(graph@),
                        ),
                        ..next
                    }
                } else {
                    unexpected
                },
            }
        }
    }

    /// The state after a sequence of reports.
    pub open spec fn run(self, events: Seq<HotUpdateEvent>) -> HotUpdateRunView
        decreases events.len(),
    {
        if events.len() == 0 {
            self
        } else {
            self.run(events.drop_last()).step(events.last())
        }
    }

    /// Everything the driver is asked to do in the course of a sequence of
    /// reports: the first action, and the answer to each report.
    pub open spec fn trace(self, events: Seq<HotUpdateEvent>) -> Seq<HotUpdateActionView> {
        Seq::new(events.len() + 1, |i: int| self.run(events.take(i)).action())
    }
}

#[derive(Clone, Copy, Debug, PartialEq, Eq, Structural)]
enum Phase {
    Snapshot,
    Group,
    Transform,
    Hash,
    OutputDir,
    Graph,
    Emit,
}

/// An incremental rebuild in progress.
#[derive(Debug)]
pub struct HotUpdateRun {
    modified_modules: Vec<String>,
    last_full_hash: u64,
    phase: Phase,
    /// The number of patches written, from `Phase::Emit` on.
    patch: usize,
    outcome: Option<Result<u64, HotUpdateFailure>>,
    previous_names: Vec<String>,
    full_hash: u64,
    modified_chunks: Vec<String>,
    removed_chunks: Vec<String>,
}

impl View for HotUpdateRun {
    type V = HotUpdateRunView;

    closed spec fn view(&self) -> HotUpdateRunView {
        HotUpdateRunView {
            modified_modules: self.modified_modules.deep_view(),
            last_full_hash: self.last_full_hash,
            position: match self.phase {
                Phase::Snapshot => 0,
                Phase::Group => 1,
                Phase::Transform => 2,
                Phase::Hash => 3,
                Phase::OutputDir => 4,
                Phase::Graph => 5,
                Phase::Emit => 6 + self.patch as nat,
            },
            outcome: self.outcome,
            previous_names: self.previous_names.deep_view(),
            full_hash: self.full_hash,
            modified_chunks: self.modified_chunks.deep_view(),
            removed_chunks: self.removed_chunks.deep_view(),
        }
    }
}

impl HotUpdateRun {
    /// A rebuild after a change to `updated_modules`, for a client that
    /// holds the build with hash `last_full_hash`, before its first step.
    pub fn new(updated_modules: UpdateResult, last_full_hash: u64) -> (run: HotUpdateRun)
        ensures
            run@ == HotUpdateRunView::start(updated_modules.modified.deep_view(), last_full_hash),
    {
        let run = HotUpdateRun {
            modified_modules: updated_modules.modified,
            last_full_hash,
            phase: Phase::Snapshot,
            patch: 0,
            outcome: None,
            previous_names: Vec::new(),
            full_hash: last_full_hash,
            modified_chunks: Vec::new(),
            removed_chunks: Vec::new(),
        };
        assert(run.previous_names.deep_view() =~= Seq::<Seq<char>>::empty());
        assert(run.modified_chunks.deep_view() =~= Seq::<Seq<char>>::empty());
        assert(run.removed_chunks.deep_view() =~= Seq::<Seq<char>>::empty());
        run
    }

    fn current_step(&self) -> (step: HotUpdateStep)
        ensures
            step == self@.current_step(),
    {
        match self.phase {
            Phase::Snapshot => HotUpdateStep::SnapshotChunkNames,
            Phase::Group => HotUpdateStep::GroupChunks,
            Phase::Transform => HotUpdateStep::TransformAll,
            Phase::Hash => HotUpdateStep::ComputeFullHash,
            Phase::OutputDir => HotUpdateStep::EnsureOutputDir,
            Phase::Graph => HotUpdateStep::ReadChunkGraph,
            Phase::Emit => if self.patch < self.modified_chunks.len() {
                HotUpdateStep::WritePatch
            } else {
                HotUpdateStep::WriteManifest
            },
        }
    }

    /// What the driver is to do now.
    pub fn action(&self) -> (action: HotUpdateAction)
        ensures
            action@ == self@.action(),
    {
        match self.outcome {
            Some(Ok(hash)) => HotUpdateAction::Finish(hash),
            Some(Err(failure)) => HotUpdateAction::Abort(failure),
            None => match self.current_step() {
                HotUpdateStep::SnapshotChunkNames => HotUpdateAction::SnapshotChunkNames,
                HotUpdateStep::GroupChunks => HotUpdateAction::GroupChunks,
                HotUpdateStep::TransformAll => HotUpdateAction::TransformAll,
                HotUpdateStep::ComputeFullHash => HotUpdateAction::ComputeFullHash,
                HotUpdateStep::EnsureOutputDir => HotUpdateAction::EnsureOutputDir,
                HotUpdateStep::ReadChunkGraph => HotUpdateAction::ReadChunkGraph,
                HotUpdateStep::WritePatch => {
                    let chunk = self.modified_chunks[self.patch].clone();
                    let filename = to_hot_update_chunk_name(&chunk, self.last_full_hash);
                    HotUpdateAction::WritePatch { chunk, filename }
                },
                HotUpdateStep::WriteManifest => HotUpdateAction::WriteManifest {
                    filename: to_hot_update_manifest_name(self.last_full_hash),
                    manifest: HotUpdateManifest {
                        modified_chunks: clone_strings(&self.modified_chunks),
                        removed_chunks: clone_strings(&self.removed_chunks),
                    },
                },
            },
        }
    }

    /// Takes the driver's report on the step it was asked to perform, and
    /// returns what it is to do next.
    pub fn advance(&mut self, event: HotUpdateEvent) -> (action: HotUpdateAction)
        ensures
            final(self)@ == old(self)@.step(event),
            action@ == final(self)@.action(),
    {
        if self.outcome.is_none() {
            let step = self.current_step();
            let unexpected = Some(Err(HotUpdateFailure::UnexpectedEvent(step)));
            match event {
                HotUpdateEvent::Failed => {
                    self.outcome = Some(Err(HotUpdateFailure::StepFailed(step)));
                },
                HotUpdateEvent::Done => match self.phase {
                    Phase::Group => {
                        self.phase = Phase::Transform;
                    },
                    Phase::Transform => {
                        self.phase = Phase::Hash;
                    },
                    Phase::OutputDir => {
                        self.phase = Phase::Graph;
                    },
                    Phase::Emit => {
                        if self.patch < self.modified_chunks.len() {
                            self.patch = self.patch + 1;
                        } else {
                            self.outcome = Some(Ok(self.full_hash));
                        }
                    },
                    _ => {
                        self.outcome = unexpected;
                    },
                },
                HotUpdateEvent::ChunkNames(names) => match self.phase {
                    Phase::Snapshot => {
                        self.previous_names = names;
                        self.phase = Phase::Group;
                    },
                    _ => {
                        self.outcome = unexpected;
                    },
                },
                HotUpdateEvent::FullHash(hash) => match self.phase {
                    Phase::Hash => {
                        self.full_hash = hash;
                        if hash == self.last_full_hash {
                            self.outcome = Some(Ok(hash));
                        } else {
                            self.phase = Phase::OutputDir;
                        }
                    },
                    _ => {
                        self.outcome = unexpected;
                    },
                },
                HotUpdateEvent::Graph(graph) => match self.phase {
                    Phase::Graph => {
                        self.modified_chunks = modified_chunks(&graph, &self.modified_modules);
                        self.removed_chunks = removed_chunks(&self.previous_names, &graph);
                        self.patch = 0;
                        self.phase = Phase::Emit;
                    },
                    _ => {
                        self.outcome = unexpected;
                    },
                },
            }
        }
        self.action()
    }

    /// How the rebuild ended, if it has: with the hash to start the next
    /// rebuild from, or with the failure that aborted it.
    pub fn outcome(&self) -> (outcome: Option<Result<u64, HotUpdateFailure>>)
        ensures
            outcome == self@.outcome,
    {
        self.outcome
    }
}

/// Running a sequence of reports in two parts gives the same state as
/// running it whole.
pub proof fn lemma_rebuild_split(
    state: HotUpdateRunView,
    first: Seq<HotUpdateEvent>,
    rest: Seq<HotUpdateEvent>,
)
    ensures
        state.run(first + rest) == state.run(first).run(rest),
    decreases rest.len(),
{
    if rest.len() == 0 {
        assert(first + rest =~= first);
    } else {
        assert((first + rest).drop_last() =~= first + rest.drop_last());
        assert((first + rest).last() == rest.last());
        lemma_rebuild_split(state, first, rest.drop_last());
    }
}

/// A rebuild that has ended does not change any more, whatever the driver
/// reports.
pub proof fn lemma_ended_rebuild_stays(state: HotUpdateRunView, events: Seq<HotUpdateEvent>)
    requires
        !state.running(),
    ensures
        state.run(events) == state,
    decreases events.len(),
{
    if events.len() > 0 {
        lemma_ended_rebuild_stays(state, events.drop_last());
    }
}

/// What is known of a rebuild after any reports: it is still the rebuild
/// for the same modules and the same previous hash; while it is running it
/// has performed exactly one step per report, and what it holds is what the
/// driver reported at the steps that ask for it.
pub proof fn lemma_rebuild_position(
    modified_modules: Seq<Seq<char>>,
    last_full_hash: u64,
    events: Seq<HotUpdateEvent>,
)
    ensures
        ({
            let state = HotUpdateRunView::start(modified_modules, last_full_hash).run(events);
            &&& state.modified_modules == modified_modules
            &&& state.last_full_hash == last_full_hash
            &&& state.running() ==> {
                &&& state.position == events.len()
                &&& events.len() >= 1 ==> (events[0] matches HotUpdateEvent::ChunkNames(names)
                    && state.previous_names == names.deep_view())
                &&& events.len() >= 4 ==> (events[3] matches HotUpdateEvent::FullHash(hash)
                    && hash != last_full_hash && state.full_hash == hash)
                &&& events.len() >= 6 ==> (events[5] matches HotUpdateEvent::Graph(graph)
                    && state.modified_chunks == modified_chunk_names(graph@, modified_modules)
                    && state.removed_chunks == removed_chunk_names(
                    state.previous_names,
                    chunk_names(graph@),
                ))
                &&& events.len() < 6 ==> state.modified_chunks.len() == 0
                &&& state.position <= 6 + state.modified_chunks.len()
            }
        }),
    decreases events.len(),
{
    if events.len() > 0 {
        lemma_rebuild_position(modified_modules, last_full_hash, events.drop_last());
        let before = HotUpdateRunView::start(modified_modules, last_full_hash).run(
            events.drop_last(),
        );
        let state = before.step(events.last());
        if state.running() {
            assert(before.running());
            if events.len() >= 2 {
                assert(events.drop_last()[0] == events[0]);
            }
            if events.len() >= 5 {
                assert(events.drop_last()[3] == events[3]);
            }
            if events.len() >= 7 {
                assert(events.drop_last()[5] == events[5]);
            }
        }
    }
}

/// The steps of a rebuild come in a fixed order, each at most once: the
/// chunk names are taken down first, then the chunks are grouped, the
/// modules transformed and the full hash computed. However many chunks hold
/// a module, a rebuild transforms it once.
pub proof fn lemma_rebuild_steps_in_order(
    modified_modules: Seq<Seq<char>>,
    last_full_hash: u64,
    events: Seq<HotUpdateEvent>,
    i: int,
)
    requires
        0 <= i <= events.len(),
    ensures
        ({
            let request = HotUpdateRunView::start(modified_modules, last_full_hash).trace(
                events,
            )[i];
            &&& request == HotUpdateActionView::SnapshotChunkNames <==> i == 0
            &&& request == HotUpdateActionView::GroupChunks ==> i == 1
            &&& request == HotUpdateActionView::TransformAll ==> i == 2
            &&& request == HotUpdateActionView::ComputeFullHash ==> i == 3
            &&& request == HotUpdateActionView::EnsureOutputDir ==> i == 4
            &&& request == HotUpdateActionView::ReadChunkGraph ==> i == 5
            &&& request is WritePatch || request is WriteManifest ==> i >= 6
        }),
{
    lemma_rebuild_position(modified_modules, last_full_hash, events.take(i));
    if i == 0 {
        assert(events.take(0) =~= Seq::<HotUpdateEvent>::empty());
    }
}

/// A rebuild whose full hash equals that of the build before writes
/// nothing and returns that hash: no request of the run asks for the output
/// directory, a patch or the manifest, and every request after the hash is
/// `Finish` with the unchanged hash.
pub proof fn lemma_unchanged_hash_writes_nothing(
    modified_modules: Seq<Seq<char>>,
    last_full_hash: u64,
    events: Seq<HotUpdateEvent>,
    i: int,
    j: int,
)
    requires
        0 <= i < events.len(),
        0 <= j <= events.len(),
        HotUpdateRunView::start(modified_modules, last_full_hash).trace(events)[i]
            == HotUpdateActionView::ComputeFullHash,
        events[i] == HotUpdateEvent::FullHash(last_full_hash),
    ensures
        ({
            let request = HotUpdateRunView::start(modified_modules, last_full_hash).trace(
                events,
            )[j];
            &&& request != HotUpdateActionView::EnsureOutputDir
            &&& !(request is WritePatch)
            &&& !(request is WriteManifest)
            &&& j > i ==> request == HotUpdateActionView::Finish(last_full_hash)
        }),
{
    let start = HotUpdateRunView::start(modified_modules, last_full_hash);
    lemma_rebuild_steps_in_order(modified_modules, last_full_hash, events, i);
    lemma_rebuild_steps_in_order(modified_modules, last_full_hash, events, j);
    lemma_rebuild_position(modified_modules, last_full_hash, events.take(i));
    assert(events.take(i + 1).drop_last() =~= events.take(i));
    let ended = start.run(events.take(i + 1));
    assert(ended.outcome == Some(Ok::<u64, HotUpdateFailure>(last_full_hash)));
    if j > i {
        assert(events.take(j) =~= events.take(i + 1) + events.subrange(i + 1, j));
        lemma_rebuild_split(start, events.take(i + 1), events.subrange(i + 1, j));
        lemma_ended_rebuild_stays(ended, events.subrange(i + 1, j));
    }
}

/// Patches and manifest are named after the hash of the build before, never
/// after the new one, and a patch is written for a modified chunk only.
pub proof fn lemma_patches_are_keyed_by_previous_hash(
    modified_modules: Seq<Seq<char>>,
    last_full_hash: u64,
    events: Seq<HotUpdateEvent>,
    i: int,
)
    requires
        0 <= i <= events.len(),
    ensures
        ({
            let request = HotUpdateRunView::start(modified_modules, last_full_hash).trace(
                events,
            )[i];
            &&& request matches HotUpdateActionView::WritePatch { chunk, filename } ==> {
                &&& filename == hot_update_chunk_name(chunk, last_full_hash)
                &&& events[5] matches HotUpdateEvent::Graph(graph) && modified_chunk_names(
                    graph@,
                    modified_modules,
                )[i - 6] == chunk
            }
            &&& request matches HotUpdateActionView::WriteManifest { filename, manifest }
                ==> (filename == hot_update_manifest_name(last_full_hash))
        }),
{
    lemma_rebuild_position(modified_modules, last_full_hash, events.take(i));
    lemma_rebuild_steps_in_order(modified_modules, last_full_hash, events, i);
    if i >= 6 {
        assert(events.take(i)[5] == events[5]);
    }
}

/// The manifest lists exactly what the rebuild found: as modified the
/// chunks of the new graph that hold a modified module, as removed the
/// names that were taken down before the rebuild and are not in the new
/// graph.
pub proof fn lemma_manifest_lists_the_difference(
    modified_modules: Seq<Seq<char>>,
    last_full_hash: u64,
    events: Seq<HotUpdateEvent>,
    i: int,
)
    requires
        0 <= i <= events.len(),
        HotUpdateRunView::start(modified_modules, last_full_hash).trace(events)[i] is WriteManifest,
    ensures
        i >= 6,
        events[0] matches HotUpdateEvent::ChunkNames(names) && events[5] matches HotUpdateEvent::Graph(
            graph,
        ) && HotUpdateRunView::start(modified_modules, last_full_hash).trace(events)[i]
            == (HotUpdateActionView::WriteManifest {
            filename: hot_update_manifest_name(last_full_hash),
            manifest: ManifestView {
                modified_chunks: modified_chunk_names(graph@, modified_modules),
                removed_chunks: removed_chunk_names(names.deep_view(), chunk_names(graph@)),
            },
        }),
{
    lemma_rebuild_position(modified_modules, last_full_hash, events.take(i));
    lemma_rebuild_steps_in_order(modified_modules, last_full_hash, events, i);
    assert(events.take(i)[0] == events[0]);
    assert(events.take(i)[5] == events[5]);
}

/// The first failure ends the rebuild: once a request is `Abort`, every
/// later request is the same `Abort`.
pub proof fn lemma_rebuild_abort_is_final(
    modified_modules: Seq<Seq<char>>,
    last_full_hash: u64,
    events: Seq<HotUpdateEvent>,
    i: int,
    j: int,
)
    requires
        0 <= i <= j <= events.len(),
        HotUpdateRunView::start(modified_modules, last_full_hash).trace(events)[i] is Abort,
    ensures
        HotUpdateRunView::start(modified_modules, last_full_hash).trace(events)[j]
            == HotUpdateRunView::start(modified_modules, last_full_hash).trace(events)[i],
{
    let start = HotUpdateRunView::start(modified_modules, last_full_hash);
    assert(events.take(j) =~= events.take(i) + events.subrange(i, j));
    lemma_rebuild_split(start, events.take(i), events.subrange(i, j));
    lemma_ended_rebuild_stays(start.run(events.take(i)), events.subrange(i, j));
}

/// A rebuild that finds a changed hash and meets no failure returns the new
/// hash: when the manifest is written, the next request is `Finish` with
/// the hash that the driver computed.
pub proof fn lemma_changed_rebuild_returns_new_hash(
    modified_modules: Seq<Seq<char>>,
    last_full_hash: u64,
    events: Seq<HotUpdateEvent>,
    i: int,
)
    requires
        0 <= i < events.len(),
        HotUpdateRunView::start(modified_modules, last_full_hash).trace(events)[i] is WriteManifest,
        events[i] == HotUpdateEvent::Done,
    ensures
        events[3] matches HotUpdateEvent::FullHash(hash) && hash != last_full_hash
            && HotUpdateRunView::start(modified_modules, last_full_hash).trace(events)[i + 1]
            == HotUpdateActionView::Finish(hash),
{
    lemma_rebuild_position(modified_modules, last_full_hash, events.take(i));
    lemma_rebuild_steps_in_order(modified_modules, last_full_hash, events, i);
    assert(events.take(i + 1).drop_last() =~= events.take(i));
    assert(events.take(i)[3] == events[3]);
}

} // verus!
