use mako::compiler::Compiler;
use mako::config::{Config, DevtoolConfig, Mode};
use mako::pipeline::{
    first_missing_asset, BuildAction, BuildEvent, BuildFailure, BuildRun, Stage,
};

fn compiler(mode: Mode, minify: bool) -> Compiler {
    Compiler::new(Config { mode, minify, devtool: DevtoolConfig::Off })
}

/// Drives a run with `Done` for every stage and all assets present, and
/// returns the stages it asked for.
fn stages_of(mut run: BuildRun) -> Vec<Stage> {
    let mut stages = Vec::new();
    let mut action = run.action();
    loop {
        match action {
            BuildAction::Perform(stage) => {
                stages.push(stage);
                let event = if stage == Stage::ProbeAssets {
                    BuildEvent::AssetsProbed(vec![true, true])
                } else {
                    BuildEvent::Done
                };
                action = run.advance(event);
            }
            BuildAction::Finish => {
                assert!(run.is_finished());
                assert_eq!(run.failure(), None);
                return stages;
            }
            BuildAction::Abort(failure) => panic!("aborted: {:?}", failure),
        }
    }
}

#[test]
fn development_build_stages() {
    assert_eq!(
        stages_of(compiler(Mode::Development, false).generate()),
        vec![
            Stage::GroupChunks,
            Stage::TransformAll,
            Stage::EnsureOutputDir,
            Stage::RenderChunks,
            Stage::ProbeAssets,
            Stage::EmitChunks,
            Stage::CopyAssets,
            Stage::CopyConfigured,
        ]
    );
}

#[test]
fn production_build_stages_with_minification() {
    assert_eq!(
        stages_of(compiler(Mode::Production, true).generate()),
        vec![
            Stage::TreeShake,
            Stage::GroupChunks,
            Stage::TransformAll,
            Stage::EnsureOutputDir,
            Stage::RenderChunks,
            Stage::MinifyChunks,
            Stage::ProbeAssets,
            Stage::EmitChunks,
            Stage::CopyAssets,
            Stage::CopyConfigured,
        ]
    );
}

#[test]
fn production_build_without_the_flag_shakes_but_does_not_minify() {
    let stages = stages_of(compiler(Mode::Production, false).generate());
    assert_eq!(stages[0], Stage::TreeShake);
    assert!(!stages.contains(&Stage::MinifyChunks));
    assert_eq!(stages.len(), 9);
}

#[test]
fn development_build_with_the_flag_neither_shakes_nor_minifies() {
    let stages = stages_of(compiler(Mode::Development, true).generate());
    assert!(!stages.contains(&Stage::MinifyChunks));
    assert!(!stages.contains(&Stage::TreeShake));
    assert_eq!(stages.len(), 8);
}

#[test]
fn modules_are_transformed_once_and_before_the_chunks_are_treated() {
    for mode in [Mode::Development, Mode::Production] {
        for minify in [false, true] {
            let stages = stages_of(compiler(mode, minify).generate());
            let transforms: Vec<usize> = stages
                .iter()
                .enumerate()
                .filter(|(_, stage)| **stage == Stage::TransformAll)
                .map(|(index, _)| index)
                .collect();
            assert_eq!(transforms.len(), 1);
            for chunk_stage in [Stage::RenderChunks, Stage::MinifyChunks, Stage::EmitChunks] {
                if let Some(index) = stages.iter().position(|stage| *stage == chunk_stage) {
                    assert!(transforms[0] < index);
                }
            }
        }
    }
}

#[test]
fn dev_rebuild_is_the_end_of_a_build() {
    assert_eq!(
        stages_of(compiler(Mode::Development, true).emit_dev_chunks()),
        vec![
            Stage::EnsureOutputDir,
            Stage::ProbeAssets,
            Stage::EmitScriptChunks,
            Stage::CopyAssets,
            Stage::CopyConfigured,
        ]
    );
    assert_eq!(
        stages_of(compiler(Mode::Production, true).emit_dev_chunks()),
        stages_of(BuildRun::dev_rebuild())
    );
}

#[test]
fn a_failed_stage_aborts_the_build_at_once() {
    let mut run = compiler(Mode::Development, false).generate();
    assert_eq!(run.action(), BuildAction::Perform(Stage::GroupChunks));
    assert_eq!(run.advance(BuildEvent::Done), BuildAction::Perform(Stage::TransformAll));
    let aborted = BuildAction::Abort(BuildFailure::StageFailed(Stage::TransformAll));
    assert_eq!(run.advance(BuildEvent::Failed), aborted);
    assert_eq!(run.failure(), Some(BuildFailure::StageFailed(Stage::TransformAll)));
    assert!(!run.is_finished());
    assert_eq!(run.advance(BuildEvent::Done), aborted);
    assert_eq!(run.advance(BuildEvent::AssetsProbed(vec![])), aborted);
    assert_eq!(run.action(), aborted);
}

fn run_at_probe() -> BuildRun {
    let mut run = compiler(Mode::Development, false).generate();
    let mut action = run.action();
    while action != BuildAction::Perform(Stage::ProbeAssets) {
        action = run.advance(BuildEvent::Done);
    }
    run
}

#[test]
fn a_missing_asset_aborts_the_build_before_success() {
    let mut run = run_at_probe();
    let aborted = BuildAction::Abort(BuildFailure::AssetNotFound(1));
    assert_eq!(run.advance(BuildEvent::AssetsProbed(vec![true, false, true, false])), aborted);
    assert!(!run.is_finished());
    assert_eq!(run.advance(BuildEvent::Done), aborted);
    assert_eq!(run.advance(BuildEvent::Done), aborted);
    assert_eq!(run.advance(BuildEvent::AssetsProbed(vec![true])), aborted);
}

#[test]
fn a_missing_asset_is_found_before_a_chunk_is_written() {
    for dev in [false, true] {
        let mut run = if dev {
            BuildRun::dev_rebuild()
        } else {
            compiler(Mode::Production, true).generate()
        };
        let mut asked = vec![];
        let mut action = run.action();
        while let BuildAction::Perform(stage) = action {
            asked.push(stage);
            action = run.advance(if stage == Stage::ProbeAssets {
                BuildEvent::AssetsProbed(vec![false])
            } else {
                BuildEvent::Done
            });
        }
        assert_eq!(action, BuildAction::Abort(BuildFailure::AssetNotFound(0)));
        assert_eq!(asked.last(), Some(&Stage::ProbeAssets));
        for written in [
            Stage::EmitChunks,
            Stage::EmitScriptChunks,
            Stage::CopyAssets,
            Stage::CopyConfigured,
        ] {
            assert!(!asked.contains(&written));
        }
    }
}

#[test]
fn present_assets_are_copied() {
    let mut run = run_at_probe();
    assert_eq!(
        run.advance(BuildEvent::AssetsProbed(vec![true, true, true])),
        BuildAction::Perform(Stage::EmitChunks)
    );
    assert_eq!(run.advance(BuildEvent::Done), BuildAction::Perform(Stage::CopyAssets));
    assert_eq!(run.advance(BuildEvent::Done), BuildAction::Perform(Stage::CopyConfigured));
    assert_eq!(run.advance(BuildEvent::Done), BuildAction::Finish);
    assert!(run.is_finished());
}

#[test]
fn a_build_without_assets_goes_on() {
    let mut run = run_at_probe();
    assert_eq!(
        run.advance(BuildEvent::AssetsProbed(vec![])),
        BuildAction::Perform(Stage::EmitChunks)
    );
}

#[test]
fn a_report_that_does_not_fit_the_stage_aborts() {
    let mut run = run_at_probe();
    assert_eq!(
        run.advance(BuildEvent::Done),
        BuildAction::Abort(BuildFailure::UnexpectedEvent(Stage::ProbeAssets))
    );
    let mut run = compiler(Mode::Production, true).generate();
    assert_eq!(
        run.advance(BuildEvent::AssetsProbed(vec![true])),
        BuildAction::Abort(BuildFailure::UnexpectedEvent(Stage::TreeShake))
    );
}

#[test]
fn a_finished_build_stays_finished() {
    let mut run = BuildRun::dev_rebuild();
    let mut action = run.action();
    while let BuildAction::Perform(stage) = action {
        action = run.advance(if stage == Stage::ProbeAssets {
            BuildEvent::AssetsProbed(vec![])
        } else {
            BuildEvent::Done
        });
    }
    assert_eq!(action, BuildAction::Finish);
    assert_eq!(run.advance(BuildEvent::Failed), BuildAction::Finish);
    assert_eq!(run.advance(BuildEvent::Done), BuildAction::Finish);
    assert!(run.is_finished());
}

#[test]
fn a_failed_copy_aborts_after_the_chunks_were_written() {
    let mut run = run_at_probe();
    run.advance(BuildEvent::AssetsProbed(vec![true]));
    assert_eq!(run.advance(BuildEvent::Done), BuildAction::Perform(Stage::CopyAssets));
    assert_eq!(
        run.advance(BuildEvent::Failed),
        BuildAction::Abort(BuildFailure::StageFailed(Stage::CopyAssets))
    );
}

#[test]
fn first_missing_asset_is_the_first_false() {
    assert_eq!(first_missing_asset(&vec![]), None);
    assert_eq!(first_missing_asset(&vec![true, true]), None);
    assert_eq!(first_missing_asset(&vec![false]), Some(0));
    assert_eq!(first_missing_asset(&vec![true, true, false, false]), Some(2));
}
