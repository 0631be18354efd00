//! Chunks and the chunk graph, as far as the output pipeline reads them.
//!
//! A chunk is a named unit of output that bundles modules; the chunk graph
//! holds the chunks of the current build under pairwise distinct names.

use vstd::prelude::*;

verus! {

/// A named unit of output and the ids of the modules it bundles.
#[derive(Clone, Debug, PartialEq, Eq)]
pub struct Chunk {
    pub filename: String,
    pub modules: Vec<String>,
}

/// What a chunk is, mathematically.
pub struct ChunkView {
    pub filename: Seq<char>,
    pub modules: Seq<Seq<char>>,
}

impl View for Chunk {
    type V = ChunkView;

    open spec fn view(&self) -> ChunkView {
        ChunkView { filename: self.filename@, modules: self.modules.deep_view() }
    }
}

impl DeepView for Chunk {
    type V = ChunkView;

    open spec fn deep_view(&self) -> ChunkView {
        self@
    }
}

/// The names of a sequence of chunks, in their order.
pub open spec fn chunk_names(chunks: Seq<ChunkView>) -> Seq<Seq<char>> {
    chunks.map_values(|chunk: ChunkView| chunk.filename)
}

/// Whether `text` is among `items`.
pub fn contains_string(items: &Vec<String>, text: &String) -> (found: bool)
    ensures
        found == items.deep_view().contains(text@),
{
    let mut i: usize = 0;
    while i < items.len()
        invariant
            i <= items.len(),
            forall|j: int| 0 <= j < i ==> items.deep_view()[j] != text@,
        decreases items.len() - i,
    {
        if items[i] == *text {
            assert(items.deep_view()[i as int] == text@);
            return true;
        }
        i += 1;
    }
    false
}

impl Chunk {
    pub fn new(filename: String, modules: Vec<String>) -> (chunk: Chunk)
        ensures
            chunk.filename == filename,
            chunk.modules == modules,
    {
        Chunk { filename, modules }
    }

    /// The name of the file the chunk is written to.
    pub fn filename(&self) -> (name: String)
        ensures
            name@ == self@.filename,
    {
        self.filename.clone()
    }

    /// Whether the chunk bundles the module `id`.
    pub fn has_module(&self, id: &String) -> (found: bool)
        ensures
            found == self@.modules.contains(id@),
    {
        contains_string(&self.modules, id)
    }
}

/// The chunks of a build, in the order in which they were grouped. No two
/// of them have the same name.
#[derive(Debug, PartialEq, Eq)]
pub struct ChunkGraph {
    chunks: Vec<Chunk>,
}

impl View for ChunkGraph {
    type V = Seq<ChunkView>;

    closed spec fn view(&self) -> Seq<ChunkView> {
        self.chunks.deep_view()
    }
}

impl ChunkGraph {
    #[verifier::type_invariant]
    spec fn names_are_distinct(&self) -> bool {
        chunk_names(self.chunks.deep_view()).no_duplicates()
    }

    /// A graph without chunks.
    pub fn new() -> (graph: ChunkGraph)
        ensures
            graph@ == Seq::<ChunkView>::empty(),
    {
        let graph = ChunkGraph { chunks: Vec::new() };
        assert(graph.chunks.deep_view() =~= Seq::<ChunkView>::empty());
        graph
    }

    /// The index of the chunk named `name`.
    fn position(&self, name: &String) -> (found: Option<usize>)
        ensures
            match found {
                Some(i) => i < self@.len() && self@[i as int].filename == name@,
                None => !chunk_names(self@).contains(name@),
            },
    {
        let mut i: usize = 0;
        while i < self.chunks.len()
            invariant
                i <= self.chunks.len(),
                forall|j: int| 0 <= j < i ==> chunk_names(self@)[j] != name@,
            decreases self.chunks.len() - i,
        {
            if self.chunks[i].filename == *name {
                return Some(i);
            }
            i += 1;
        }
        None
    }

    /// Adds `chunk` behind the others, unless its name is taken: then the
    /// graph stays as it is and the result is `false`.
    pub fn add_chunk(&mut self, chunk: Chunk) -> (added: bool)
        ensures
            added == !chunk_names(old(self)@).contains(chunk@.filename),
            final(self)@ == if added {
                old(self)@.push(chunk@)
            } else {
                old(self)@
            },
    {
        proof {
            use_type_invariant(&*self);
        }
        match self.position(&chunk.filename) {
            Some(i) => {
                assert(chunk_names(self@)[i as int] == chunk@.filename);
                return false;
            },
            None => {},
        }
        let ghost before = self.chunks.deep_view();
        let mut chunks = Vec::new();
        std::mem::swap(&mut chunks, &mut self.chunks);
        chunks.push(chunk);
        assert(chunks.deep_view() =~= before.push(chunk@));
        assert(chunk_names(before.push(chunk@)) =~= chunk_names(before).push(chunk@.filename));
        self.chunks = chunks;
        true
    }

    /// The number of chunks.
    pub fn len(&self) -> (n: usize)
        ensures
            n == self@.len(),
    {
        self.chunks.len()
    }

    /// The chunks, in order.
    pub fn get_chunks(&self) -> (chunks: &Vec<Chunk>)
        ensures
            chunks.deep_view() == self@,
    {
        &self.chunks
    }

    /// The names of the chunks, in order. No name occurs twice.
    pub fn chunk_names(&self) -> (names: Vec<String>)
        ensures
            names.deep_view() == chunk_names(self@),
            names.deep_view().no_duplicates(),
    {
        proof {
            use_type_invariant(self);
        }
        let mut names: Vec<String> = Vec::new();
        let mut i: usize = 0;
        while i < self.chunks.len()
            invariant
                i <= self.chunks.len(),
                names.deep_view() == chunk_names(self@).take(i as int),
            decreases self.chunks.len() - i,
        {
            let ghost before = names.deep_view();
            names.push(self.chunks[i].filename.clone());
            assert(names.deep_view() =~= before.push(self.chunks[i as int].filename@));
            assert(chunk_names(self@)[i as int] == self.chunks[i as int].filename@);
            i += 1;
            assert(names.deep_view() =~= chunk_names(self@).take(i as int));
        }
        assert(chunk_names(self@).take(i as int) =~= chunk_names(self@));
        names
    }

    /// The chunk named `name`, if the graph holds one. It is the only chunk
    /// of that name.
    pub fn get_chunk_by_name(&self, name: &String) -> (found: Option<&Chunk>)
        ensures
            found is Some <==> chunk_names(self@).contains(name@),
            found matches Some(chunk) ==> chunk@.filename == name@ && forall|j: int|
                0 <= j < self@.len() ==> (#[trigger] self@[j].filename == name@ <==> self@[j]
                    == chunk@),
    {
        proof {
            use_type_invariant(self);
        }
        match self.position(name) {
            Some(i) => {
                assert(self@[i as int] == self.chunks[i as int]@);
                assert(chunk_names(self@)[i as int] == name@);
                assert forall|j: int| 0 <= j < self@.len() && #[trigger] self@[j].filename
                    == name@ implies self@[j] == self@[i as int] by {
                    assert(chunk_names(self@)[j] == chunk_names(self@)[i as int]);
                }
                Some(&self.chunks[i])
            },
            None => None,
        }
    }
}

} // verus!
