use mako::chunk_graph::{Chunk, ChunkGraph};
use mako::compiler::Compiler;
use mako::config::{Config, DevtoolConfig, Mode};
use mako::diff::{is_modified, modified_chunks, removed_chunks};
use mako::hot_update::{
    HotUpdateAction, HotUpdateEvent, HotUpdateFailure, HotUpdateRun, HotUpdateStep, UpdateResult,
};
use mako::manifest::HotUpdateManifest;

fn strings(items: &[&str]) -> Vec<String> {
    items.iter().map(|item| item.to_string()).collect()
}

fn graph(chunks: &[(&str, &[&str])]) -> ChunkGraph {
    let mut graph = ChunkGraph::new();
    for (name, modules) in chunks {
        assert!(graph.add_chunk(Chunk::new(name.to_string(), strings(modules))));
    }
    graph
}

fn start(modified: &[&str], last_full_hash: u64) -> HotUpdateRun {
    let compiler = Compiler::new(Config {
        mode: Mode::Development,
        minify: false,
        devtool: DevtoolConfig::SourceMap,
    });
    compiler.generate_hot_update_chunks(UpdateResult { modified: strings(modified) }, last_full_hash)
}

/// Takes a run up to the request for the full hash.
fn run_up_to_hash(modified: &[&str], previous: &[&str], last_full_hash: u64) -> HotUpdateRun {
    let mut run = start(modified, last_full_hash);
    assert_eq!(run.action(), HotUpdateAction::SnapshotChunkNames);
    assert_eq!(
        run.advance(HotUpdateEvent::ChunkNames(strings(previous))),
        HotUpdateAction::GroupChunks
    );
    assert_eq!(run.advance(HotUpdateEvent::Done), HotUpdateAction::TransformAll);
    assert_eq!(run.advance(HotUpdateEvent::Done), HotUpdateAction::ComputeFullHash);
    run
}

#[test]
fn a_chunk_that_is_gone_is_removed_and_not_modified() {
    let previous = strings(&["main.js", "foo.js"]);
    let current = graph(&[("main.js", &["a", "b"])]);
    let modified_modules = strings(&["a"]);
    let removed = removed_chunks(&previous, &current);
    let modified = modified_chunks(&current, &modified_modules);
    assert_eq!(removed, strings(&["foo.js"]));
    assert!(!modified.contains(&"foo.js".to_string()));
    assert_eq!(modified, strings(&["main.js"]));
}

#[test]
fn removed_chunks_are_the_previous_names_that_are_gone() {
    let current = graph(&[("b.js", &["m"]), ("d.js", &["n"])]);
    assert_eq!(
        removed_chunks(&strings(&["a.js", "b.js", "c.js", "d.js", "e.js"]), &current),
        strings(&["a.js", "c.js", "e.js"])
    );
    assert_eq!(removed_chunks(&strings(&["b.js", "d.js"]), &current), strings(&[]));
    assert_eq!(removed_chunks(&vec![], &current), strings(&[]));
    assert_eq!(removed_chunks(&strings(&["a.js"]), &ChunkGraph::new()), strings(&["a.js"]));
}

#[test]
fn a_module_in_two_chunks_modifies_both() {
    let current = graph(&[
        ("a.js", &["shared", "only-a"]),
        ("b.js", &["only-b", "shared"]),
        ("c.js", &["only-c"]),
    ]);
    assert_eq!(modified_chunks(&current, &strings(&["shared"])), strings(&["a.js", "b.js"]));
    assert_eq!(modified_chunks(&current, &strings(&["only-c", "only-a"])), strings(&["a.js", "c.js"]));
    assert_eq!(modified_chunks(&current, &strings(&["unknown"])), strings(&[]));
    assert_eq!(modified_chunks(&current, &vec![]), strings(&[]));
}

#[test]
fn a_chunk_is_modified_if_it_holds_a_modified_module() {
    let chunk = Chunk::new("a.js".to_string(), strings(&["x", "y"]));
    assert!(is_modified(&chunk, &strings(&["z", "y"])));
    assert!(!is_modified(&chunk, &strings(&["z"])));
    assert!(!is_modified(&chunk, &vec![]));
}

#[test]
fn an_unchanged_hash_writes_nothing_and_returns_the_same_hash() {
    let mut run = run_up_to_hash(&["a"], &["main.js"], 12345);
    assert_eq!(run.outcome(), None);
    assert_eq!(run.advance(HotUpdateEvent::FullHash(12345)), HotUpdateAction::Finish(12345));
    assert_eq!(run.outcome(), Some(Ok(12345)));
    assert_eq!(run.advance(HotUpdateEvent::Done), HotUpdateAction::Finish(12345));
    assert_eq!(run.advance(HotUpdateEvent::Graph(graph(&[("x.js", &["a"])]))), HotUpdateAction::Finish(12345));
    assert_eq!(run.advance(HotUpdateEvent::FullHash(777)), HotUpdateAction::Finish(12345));
}

#[test]
fn a_changed_build_is_patched_under_the_previous_hash() {
    let mut run = run_up_to_hash(&["src/a.ts", "src/style.css"], &["main.js", "foo.js", "main.css"], 12345);
    assert_eq!(run.advance(HotUpdateEvent::FullHash(67890)), HotUpdateAction::EnsureOutputDir);
    assert_eq!(run.advance(HotUpdateEvent::Done), HotUpdateAction::ReadChunkGraph);
    let current = graph(&[
        ("main.js", &["src/index.ts", "src/a.ts"]),
        ("lazy", &["src/a.ts"]),
        ("vendor.js", &["node_modules/x"]),
        ("main.css", &["src/style.css"]),
    ]);
    assert_eq!(
        run.advance(HotUpdateEvent::Graph(current)),
        HotUpdateAction::WritePatch {
            chunk: "main.js".to_string(),
            filename: "main.12345.hot-update.js".to_string(),
        }
    );
    assert_eq!(
        run.advance(HotUpdateEvent::Done),
        HotUpdateAction::WritePatch {
            chunk: "lazy".to_string(),
            filename: "lazy.12345.hot-update".to_string(),
        }
    );
    assert_eq!(
        run.advance(HotUpdateEvent::Done),
        HotUpdateAction::WritePatch {
            chunk: "main.css".to_string(),
            filename: "main.12345.hot-update.css".to_string(),
        }
    );
    let manifest = HotUpdateManifest {
        modified_chunks: strings(&["main.js", "lazy", "main.css"]),
        removed_chunks: strings(&["foo.js"]),
    };
    assert_eq!(
        run.advance(HotUpdateEvent::Done),
        HotUpdateAction::WriteManifest {
            filename: "12345.hot-update.json".to_string(),
            manifest: manifest.clone(),
        }
    );
    assert_eq!(
        manifest.to_json().unwrap(),
        r#"{"c":["main.js","lazy","main.css"],"r":["foo.js"]}"#
    );
    assert_eq!(run.outcome(), None);
    assert_eq!(run.advance(HotUpdateEvent::Done), HotUpdateAction::Finish(67890));
    assert_eq!(run.outcome(), Some(Ok(67890)));
    assert_eq!(run.advance(HotUpdateEvent::Done), HotUpdateAction::Finish(67890));
}

#[test]
fn a_changed_build_without_modified_chunks_writes_only_the_manifest() {
    let mut run = run_up_to_hash(&["gone"], &["old.js"], 1);
    run.advance(HotUpdateEvent::FullHash(2));
    run.advance(HotUpdateEvent::Done);
    assert_eq!(
        run.advance(HotUpdateEvent::Graph(graph(&[("new.js", &["m"])]))),
        HotUpdateAction::WriteManifest {
            filename: "1.hot-update.json".to_string(),
            manifest: HotUpdateManifest {
                modified_chunks: vec![],
                removed_chunks: strings(&["old.js"]),
            },
        }
    );
    assert_eq!(run.advance(HotUpdateEvent::Done), HotUpdateAction::Finish(2));
}

#[test]
fn a_failed_transform_aborts_the_rebuild() {
    let mut run = start(&["a"], 5);
    run.advance(HotUpdateEvent::ChunkNames(vec![]));
    run.advance(HotUpdateEvent::Done);
    let aborted =
        HotUpdateAction::Abort(HotUpdateFailure::StepFailed(HotUpdateStep::TransformAll));
    assert_eq!(run.advance(HotUpdateEvent::Failed), aborted);
    assert_eq!(run.outcome(), Some(Err(HotUpdateFailure::StepFailed(HotUpdateStep::TransformAll))));
    assert_eq!(run.advance(HotUpdateEvent::FullHash(5)), aborted);
    assert_eq!(run.advance(HotUpdateEvent::Done), aborted);
}

#[test]
fn a_failed_patch_aborts_before_the_manifest() {
    let mut run = run_up_to_hash(&["m"], &[], 1);
    run.advance(HotUpdateEvent::FullHash(2));
    run.advance(HotUpdateEvent::Done);
    let action = run.advance(HotUpdateEvent::Graph(graph(&[("a.js", &["m"]), ("b.js", &["m"])])));
    assert!(matches!(action, HotUpdateAction::WritePatch { .. }));
    let aborted = HotUpdateAction::Abort(HotUpdateFailure::StepFailed(HotUpdateStep::WritePatch));
    assert_eq!(run.advance(HotUpdateEvent::Failed), aborted);
    assert_eq!(run.advance(HotUpdateEvent::Done), aborted);
}

#[test]
fn a_failed_manifest_aborts_the_rebuild() {
    let mut run = run_up_to_hash(&[], &[], 1);
    run.advance(HotUpdateEvent::FullHash(2));
    run.advance(HotUpdateEvent::Done);
    let action = run.advance(HotUpdateEvent::Graph(ChunkGraph::new()));
    assert!(matches!(action, HotUpdateAction::WriteManifest { .. }));
    assert_eq!(
        run.advance(HotUpdateEvent::Failed),
        HotUpdateAction::Abort(HotUpdateFailure::StepFailed(HotUpdateStep::WriteManifest))
    );
}

#[test]
fn reports_that_do_not_fit_the_step_abort_the_rebuild() {
    let mut run = start(&[], 1);
    assert_eq!(
        run.advance(HotUpdateEvent::Done),
        HotUpdateAction::Abort(HotUpdateFailure::UnexpectedEvent(
            HotUpdateStep::SnapshotChunkNames
        ))
    );
    let mut run = start(&[], 1);
    run.advance(HotUpdateEvent::ChunkNames(vec![]));
    assert_eq!(
        run.advance(HotUpdateEvent::FullHash(3)),
        HotUpdateAction::Abort(HotUpdateFailure::UnexpectedEvent(HotUpdateStep::GroupChunks))
    );
    let mut run = run_up_to_hash(&[], &[], 1);
    assert_eq!(
        run.advance(HotUpdateEvent::Done),
        HotUpdateAction::Abort(HotUpdateFailure::UnexpectedEvent(HotUpdateStep::ComputeFullHash))
    );
    let mut run = run_up_to_hash(&[], &[], 1);
    run.advance(HotUpdateEvent::FullHash(2));
    run.advance(HotUpdateEvent::Done);
    assert_eq!(
        run.advance(HotUpdateEvent::ChunkNames(vec![])),
        HotUpdateAction::Abort(HotUpdateFailure::UnexpectedEvent(HotUpdateStep::ReadChunkGraph))
    );
}

#[test]
fn two_rebuilds_in_a_row_hand_the_hash_on() {
    let mut first = run_up_to_hash(&["a"], &["main.js"], 10);
    first.advance(HotUpdateEvent::FullHash(20));
    first.advance(HotUpdateEvent::Done);
    first.advance(HotUpdateEvent::Graph(graph(&[("main.js", &["a"])])));
    first.advance(HotUpdateEvent::Done);
    assert_eq!(first.advance(HotUpdateEvent::Done), HotUpdateAction::Finish(20));
    let next_hash = first.outcome().unwrap().unwrap();
    let mut second = run_up_to_hash(&[], &["main.js"], next_hash);
    assert_eq!(second.advance(HotUpdateEvent::FullHash(20)), HotUpdateAction::Finish(20));
}
