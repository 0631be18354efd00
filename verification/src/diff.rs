//! The difference between two builds: which chunks are gone, and which
//! hold a module that changed.

use vstd::prelude::*;

use crate::chunk_graph::{chunk_names, Chunk, ChunkGraph, ChunkView};

verus! {

/// Whether `chunk` bundles one of the modified modules.
pub open spec fn chunk_is_modified(chunk: ChunkView, modified_modules: Seq<Seq<char>>) -> bool {
    exists|i: int|
        0 <= i < modified_modules.len() && chunk.modules.contains(#[trigger] modified_modules[i])
}

/// The names of the chunks that bundle a modified module, in the order of
/// the chunks.
pub open spec fn modified_chunk_names(
    chunks: Seq<ChunkView>,
    modified_modules: Seq<Seq<char>>,
) -> Seq<Seq<char>> {
    chunk_names(chunks.filter(|chunk: ChunkView| chunk_is_modified(chunk, modified_modules)))
}

/// The names that were there before and are not there now, in their order
/// before.
pub open spec fn removed_chunk_names(
    previous: Seq<Seq<char>>,
    current: Seq<Seq<char>>,
) -> Seq<Seq<char>> {
    previous.filter(|name: Seq<char>| !current.contains(name))
}

proof fn lemma_filter_step<A>(items: Seq<A>, keep: spec_fn(A) -> bool, i: int)
    requires
        0 <= i < items.len(),
    ensures
        items.take(i + 1).filter(keep) == if keep(items[i]) {
            items.take(i).filter(keep).push(items[i])
        } else {
            items.take(i).filter(keep)
        },
{
    reveal(Seq::filter);
    assert(items.take(i + 1).drop_last() =~= items.take(i));
}

/// Filtering keeps exactly the items that pass the test.
proof fn lemma_filter_membership<A>(items: Seq<A>, keep: spec_fn(A) -> bool, item: A)
    ensures
        items.filter(keep).contains(item) <==> items.contains(item) && keep(item),
    decreases items.len(),
{
    reveal(Seq::filter);
    if items.len() > 0 {
        let front = items.drop_last();
        lemma_filter_membership(front, keep, item);
        if front.filter(keep).contains(item) {
            let at = choose|i: int| 0 <= i < front.filter(keep).len() && front.filter(keep)[i] == item;
            assert(items.filter(keep)[at] == item);
            let source = choose|i: int| 0 <= i < front.len() && front[i] == item;
            assert(items[source] == item);
        }
        if items.filter(keep).contains(item) && !front.filter(keep).contains(item) {
            let at = choose|i: int| 0 <= i < items.filter(keep).len() && items.filter(keep)[i] == item;
            if at < front.filter(keep).len() {
                assert(front.filter(keep)[at] == item);
            }
            assert(items.last() == item);
        }
        if items.contains(item) && keep(item) {
            let source = choose|i: int| 0 <= i < items.len() && items[i] == item;
            if source < front.len() {
                assert(front[source] == item);
                let at = choose|i: int|
                    0 <= i < front.filter(keep).len() && front.filter(keep)[i] == item;
                assert(items.filter(keep)[at] == item);
            } else {
                assert(items.filter(keep).last() == item);
            }
        }
    }
}

/// Whether `chunk` bundles one of the modules in `modified_modules`.
pub fn is_modified(chunk: &Chunk, modified_modules: &Vec<String>) -> (modified: bool)
    ensures
        modified == chunk_is_modified(chunk@, modified_modules.deep_view()),
{
    let mut i: usize = 0;
    while i < modified_modules.len()
        invariant
            i <= modified_modules.len(),
            forall|j: int|
                0 <= j < i ==> !chunk@.modules.contains(#[trigger] modified_modules.deep_view()[j]),
        decreases modified_modules.len() - i,
    {
        if chunk.has_module(&modified_modules[i]) {
            assert(chunk@.modules.contains(modified_modules.deep_view()[i as int]));
            return true;
        }
        i += 1;
    }
    false
}

/// The names of the chunks of `graph` that bundle one of the modules in
/// `modified_modules`.
pub fn modified_chunks(graph: &ChunkGraph, modified_modules: &Vec<String>) -> (names: Vec<String>)
    ensures
        names.deep_view() == modified_chunk_names(graph@, modified_modules.deep_view()),
{
    let chunks = graph.get_chunks();
    let ghost keep = |chunk: ChunkView| chunk_is_modified(chunk, modified_modules.deep_view());
    let mut names: Vec<String> = Vec::new();
    let mut i: usize = 0;
    proof {
        reveal(Seq::filter);
        assert(chunk_names(graph@.take(0).filter(keep)) =~= names.deep_view());
    }
    while i < chunks.len()
        invariant
            i <= chunks.len(),
            chunks.deep_view() == graph@,
            keep == |chunk: ChunkView| chunk_is_modified(chunk, modified_modules.deep_view()),
            names.deep_view() == chunk_names(graph@.take(i as int).filter(keep)),
        decreases chunks.len() - i,
    {
        proof {
            lemma_filter_step(graph@, keep, i as int);
            assert(graph@[i as int] == chunks[i as int]@);
        }
        if is_modified(&chunks[i], modified_modules) {
            let ghost before = names.deep_view();
            names.push(chunks[i].filename());
            assert(names.deep_view() =~= before.push(chunks[i as int]@.filename));
            assert(names.deep_view() =~= chunk_names(graph@.take(i + 1).filter(keep)));
        }
        i += 1;
    }
    assert(graph@.take(i as int) =~= graph@);
    names
}

/// The names in `previous` that no chunk of `graph` has.
pub fn removed_chunks(previous: &Vec<String>, graph: &ChunkGraph) -> (names: Vec<String>)
    ensures
        names.deep_view() == removed_chunk_names(previous.deep_view(), chunk_names(graph@)),
{
    let ghost current = chunk_names(graph@);
    let ghost keep = |name: Seq<char>| !current.contains(name);
    let mut names: Vec<String> = Vec::new();
    let mut i: usize = 0;
    proof {
        reveal(Seq::filter);
        assert(previous.deep_view().take(0).filter(keep) =~= names.deep_view());
    }
    while i < previous.len()
        invariant
            i <= previous.len(),
            current == chunk_names(graph@),
            keep == |name: Seq<char>| !current.contains(name),
            names.deep_view() == previous.deep_view().take(i as int).filter(keep),
        decreases previous.len() - i,
    {
        proof {
            lemma_filter_step(previous.deep_view(), keep, i as int);
        }
        if graph.get_chunk_by_name(&previous[i]).is_none() {
            let ghost before = names.deep_view();
            names.push(previous[i].clone());
            assert(names.deep_view() =~= before.push(previous[i as int]@));
        }
        i += 1;
    }
    assert(previous.deep_view().take(i as int) =~= previous.deep_view());
    names
}

/// A chunk that was there before the rebuild and is gone after it is
/// reported as removed, and not as modified; and nothing else is reported
/// as removed.
pub proof fn lemma_removed_chunks_are_the_missing_ones(
    previous: Seq<Seq<char>>,
    chunks: Seq<ChunkView>,
    modified_modules: Seq<Seq<char>>,
    name: Seq<char>,
)
    ensures
        removed_chunk_names(previous, chunk_names(chunks)).contains(name) <==> previous.contains(
            name,
        ) && !chunk_names(chunks).contains(name),
        modified_chunk_names(chunks, modified_modules).contains(name) ==> chunk_names(
            chunks,
        ).contains(name),
        previous.contains(name) && !chunk_names(chunks).contains(name) ==> !modified_chunk_names(
            chunks,
            modified_modules,
        ).contains(name),
{
    let current = chunk_names(chunks);
    lemma_filter_membership(previous, |name: Seq<char>| !current.contains(name), name);
    let keep = |chunk: ChunkView| chunk_is_modified(chunk, modified_modules);
    let kept = chunks.filter(keep);
    if chunk_names(kept).contains(name) {
        let at = choose|i: int| 0 <= i < chunk_names(kept).len() && chunk_names(kept)[i] == name;
        lemma_filter_membership(chunks, keep, kept[at]);
        let source = choose|i: int| 0 <= i < chunks.len() && chunks[i] == kept[at];
        assert(chunk_names(chunks)[source] == name);
    }
}

/// A chunk is reported as modified exactly if it is in the new graph and
/// bundles a modified module.
pub proof fn lemma_modified_chunks_hold_modified_modules(
    chunks: Seq<ChunkView>,
    modified_modules: Seq<Seq<char>>,
    name: Seq<char>,
)
    ensures
        modified_chunk_names(chunks, modified_modules).contains(name) <==> exists|i: int|
            0 <= i < chunks.len() && (#[trigger] chunks[i]).filename == name && chunk_is_modified(
                chunks[i],
                modified_modules,
            ),
{
    let keep = |chunk: ChunkView| chunk_is_modified(chunk, modified_modules);
    let kept = chunks.filter(keep);
    if chunk_names(kept).contains(name) {
        let at = choose|i: int| 0 <= i < chunk_names(kept).len() && chunk_names(kept)[i] == name;
        lemma_filter_membership(chunks, keep, kept[at]);
        let source = choose|i: int| 0 <= i < chunks.len() && chunks[i] == kept[at];
        assert(chunks[source].filename == name && chunk_is_modified(chunks[source], modified_modules));
    }
    if exists|i: int|
        0 <= i < chunks.len() && (#[trigger] chunks[i]).filename == name && chunk_is_modified(
            chunks[i],
            modified_modules,
        ) {
        let source = choose|i: int|
            0 <= i < chunks.len() && (#[trigger] chunks[i]).filename == name && chunk_is_modified(
                chunks[i],
                modified_modules,
            );
        lemma_filter_membership(chunks, keep, chunks[source]);
        let at = choose|i: int| 0 <= i < kept.len() && kept[i] == chunks[source];
        assert(chunk_names(kept)[at] == name);
    }
}

} // verus!
