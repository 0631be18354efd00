//! What a build does with a single chunk: whether its output AST is
//! minified, and which files its code is written to.
//!
//! The chunks of a build are independent of each other, so a driver may
//! treat them in parallel; each decision here depends on one chunk alone.

use vstd::prelude::*;

use crate::config::{Config, DevtoolConfig, Mode};
use crate::naming::{sourcemap_name, to_sourcemap_name};
use crate::pipeline::Stage;

verus! {

/// The kind of output AST that a chunk was rendered to.
#[derive(Clone, Copy, Debug, PartialEq, Eq, Structural)]
pub enum AstKind {
    Script,
    Css,
    /// Anything else: such a chunk is neither minified nor written.
    Other,
}

/// The minifier that suits an output AST.
#[derive(Clone, Copy, Debug, PartialEq, Eq, Structural)]
pub enum Minifier {
    Script,
    Stylesheet,
}

/// What a written file holds.
#[derive(Clone, Copy, Debug, PartialEq, Eq, Structural)]
pub enum Artifact {
    /// The generated code of the chunk.
    Code,
    /// The source map of the generated code.
    SourceMap,
}

/// A file to write, below the output directory.
#[derive(Clone, Debug, PartialEq, Eq)]
pub struct OutputFile {
    pub filename: String,
    pub artifact: Artifact,
}

/// What an output file is, mathematically.
pub struct OutputFileView {
    pub filename: Seq<char>,
    pub artifact: Artifact,
}

impl View for OutputFile {
    type V = OutputFileView;

    open spec fn view(&self) -> OutputFileView {
        OutputFileView { filename: self.filename@, artifact: self.artifact }
    }
}

impl DeepView for OutputFile {
    type V = OutputFileView;

    open spec fn deep_view(&self) -> OutputFileView {
        self@
    }
}

/// The minifier to run on an output AST of `kind`, if any. Minification
/// needs the flag and a production build; scripts and stylesheets have a
/// minifier each, other ASTs pass through untouched.
pub open spec fn minifier_of(config: Config, kind: AstKind) -> Option<Minifier> {
    if !config.minifies() {
        None
    } else {
        match kind {
            AstKind::Script => Some(Minifier::Script),
            AstKind::Css => Some(Minifier::Stylesheet),
            AstKind::Other => None,
        }
    }
}

/// The files that `stage` writes for a chunk of `kind` whose path below the
/// output directory is `path`. A script is written to its path, with its
/// source map beside it where the devtool option selects source maps. A
/// stylesheet is written to its path, without a source map, by a full build
/// only. Nothing else is written.
pub open spec fn output_files(
    config: Config,
    stage: Stage,
    kind: AstKind,
    path: Seq<char>,
) -> Seq<OutputFileView> {
    let code = OutputFileView { filename: path, artifact: Artifact::Code };
    let map = OutputFileView { filename: sourcemap_name(path), artifact: Artifact::SourceMap };
    if stage != Stage::EmitChunks && stage != Stage::EmitScriptChunks {
        Seq::empty()
    } else {
        match kind {
            AstKind::Script => if config.writes_sourcemap() {
                seq![code, map]
            } else {
                seq![code]
            },
            AstKind::Css => if stage == Stage::EmitChunks {
                seq![code]
            } else {
                Seq::empty()
            },
            AstKind::Other => Seq::empty(),
        }
    }
}

/// The minifier to run on an output AST of `kind`, if any.
pub fn minifier_for(config: &Config, kind: AstKind) -> (minifier: Option<Minifier>)
    ensures
        minifier == minifier_of(*config, kind),
{
    if !config.minifies() {
        None
    } else {
        match kind {
            AstKind::Script => Some(Minifier::Script),
            AstKind::Css => Some(Minifier::Stylesheet),
            AstKind::Other => None,
        }
    }
}

/// The files that `stage` writes for a chunk of `kind` at `path`.
pub fn chunk_outputs(config: &Config, stage: Stage, kind: AstKind, path: &String) -> (files: Vec<
    OutputFile,
>)
    ensures
        files.deep_view() == output_files(*config, stage, kind, path@),
{
    let mut files: Vec<OutputFile> = Vec::new();
    let full = stage == Stage::EmitChunks;
    if full || stage == Stage::EmitScriptChunks {
        match kind {
            AstKind::Script => {
                files.push(OutputFile { filename: path.clone(), artifact: Artifact::Code });
                if config.writes_sourcemap() {
                    files.push(
                        OutputFile {
                            filename: to_sourcemap_name(path),
                            artifact: Artifact::SourceMap,
                        },
                    );
                }
            },
            AstKind::Css => {
                if full {
                    files.push(OutputFile { filename: path.clone(), artifact: Artifact::Code });
                }
            },
            AstKind::Other => {},
        }
    }
    assert(files.deep_view() =~= output_files(*config, stage, kind, path@));
    files
}

/// A build that is not a production build never minifies, whatever the
/// flag says; nor does a production build without the flag.
pub proof fn lemma_minification_needs_production(config: Config, kind: AstKind)
    ensures
        config.mode == Mode::Development ==> minifier_of(config, kind) is None,
        !config.minify ==> minifier_of(config, kind) is None,
        minifier_of(config, kind) is Some ==> config.minify && config.mode == Mode::Production
            && kind != AstKind::Other,
{
}

/// A source map is written for scripts only, and only where the devtool
/// option selects it; a development rebuild writes no stylesheet.
pub proof fn lemma_output_files_by_kind(
    config: Config,
    stage: Stage,
    kind: AstKind,
    path: Seq<char>,
    i: int,
)
    requires
        0 <= i < output_files(config, stage, kind, path).len(),
    ensures
        stage == Stage::EmitChunks || stage == Stage::EmitScriptChunks,
        kind != AstKind::Other,
        kind == AstKind::Css ==> stage == Stage::EmitChunks,
        output_files(config, stage, kind, path)[i].artifact == Artifact::SourceMap ==> kind
            == AstKind::Script && config.devtool == DevtoolConfig::SourceMap,
{
}

} // verus!
