//! The input store: authoritative storage for externally supplied facts —
//! file text, file path, file-to-root membership, each root's file set, the
//! local and library root lists, library symbol indices, and the crate graph.
//! Reads never fail: an unknown id reads as an empty or default value.
use vstd::prelude::*;
use crate::idmap::{Dup, IdMap};
use crate::ids::{CrateId, FileId, SourceRootId};
use crate::symbols::{FileSymbolView, SymbolIndex};

verus! {

/// The path-to-file map a journal of insertions and removals denotes; the
/// latest entry for each path wins.
pub open spec fn journal_view(s: Seq<(String, Option<u32>)>) -> Map<Seq<char>, u32>
    decreases s.len(),
{
    if s.len() == 0 {
        Map::empty()
    } else {
        let m = journal_view(s.drop_last());
        match s.last().1 {
            Some(f) => m.insert(s.last().0@, f),
            None => m.remove(s.last().0@),
        }
    }
}

/// The latest journal entry for a path decides its presence and value.
proof fn lemma_journal_get(s: Seq<(String, Option<u32>)>, p: Seq<char>, i: int)
    requires
        0 <= i < s.len(),
        s[i].0@ == p,
        forall|j: int| i < j < s.len() ==> s[j].0@ != p,
    ensures
        match s[i].1 {
            Some(f) => journal_view(s).contains_key(p) && journal_view(s)[p] == f,
            None => !journal_view(s).contains_key(p),
        },
    decreases s.len(),
{
    if i < s.len() - 1 {
        assert(s.drop_last()[i] == s[i]);
        lemma_journal_get(s.drop_last(), p, i);
    }
}

/// A path no journal entry mentions is absent.
proof fn lemma_journal_absent(s: Seq<(String, Option<u32>)>, p: Seq<char>)
    requires
        forall|i: int| 0 <= i < s.len() ==> s[i].0@ != p,
    ensures
        !journal_view(s).contains_key(p),
    decreases s.len(),
{
    if s.len() > 0 {
        lemma_journal_absent(s.drop_last(), p);
    }
}

/// Two journals with view-equal paths and equal values denote the same map.
proof fn lemma_journal_congruence(a: Seq<(String, Option<u32>)>, b: Seq<(String, Option<u32>)>)
    requires
        a.len() == b.len(),
        forall|i: int| 0 <= i < a.len() ==> a[i].0@ == b[i].0@ && a[i].1 == b[i].1,
    ensures
        journal_view(a) == journal_view(b),
    decreases a.len(),
{
    if a.len() > 0 {
        assert(forall|i: int| 0 <= i < a.len() - 1
            ==> a.drop_last()[i].0@ == b.drop_last()[i].0@
                && a.drop_last()[i].1 == b.drop_last()[i].1);
        lemma_journal_congruence(a.drop_last(), b.drop_last());
        assert(a[a.len() - 1].0@ == b[b.len() - 1].0@);
        assert(a[a.len() - 1].1 == b[b.len() - 1].1);
    }
}

/// One source root's file set: a mapping from relative path to file id.
/// Stored as a journal of insertions and removals; its view is the map the
/// journal denotes.
#[derive(Debug)]
pub struct SourceRoot {
    entries: Vec<(String, Option<u32>)>,
}

impl View for SourceRoot {
    type V = Map<Seq<char>, u32>;

    closed spec fn view(&self) -> Map<Seq<char>, u32> {
        journal_view(self.entries@)
    }
}

impl SourceRoot {
    pub fn new() -> (r: SourceRoot)
        ensures
            r@ == Map::<Seq<char>, u32>::empty(),
    {
        SourceRoot { entries: Vec::new() }
    }

    /// Binds the path to the file id.
    pub fn insert(&mut self, path: String, file: FileId)
        ensures
            final(self)@ == old(self)@.insert(path@, file.0),
    {
        proof {
            assert(self.entries@.push((path, Some(file.0))).drop_last() =~= self.entries@);
        }
        self.entries.push((path, Some(file.0)));
    }

    /// Removes the path from the file set.
    pub fn remove(&mut self, path: String)
        ensures
            final(self)@ == old(self)@.remove(path@),
    {
        proof {
            assert(self.entries@.push((path, None)).drop_last() =~= self.entries@);
        }
        self.entries.push((path, None));
    }

    /// Looks a path up; `None` exactly when the root does not track it.
    pub fn get(&self, path: &String) -> (r: Option<FileId>)
        ensures
            match r {
                Some(f) => self@.contains_key(path@) && self@[path@] == f.0,
                None => !self@.contains_key(path@),
            },
    {
        let n = self.entries.len();
        let mut i = n;
        while i > 0
            invariant
                i <= n,
                n == self.entries@.len(),
                forall|j: int| i <= j < n ==> self.entries@[j].0@ != path@,
            decreases i,
        {
            i = i - 1;
            if self.entries[i].0 == *path {
                proof {
                    lemma_journal_get(self.entries@, path@, i as int);
                }
                return match self.entries[i].1 {
                    Some(f) => Some(FileId(f)),
                    None => None,
                };
            }
        }
        proof {
            lemma_journal_absent(self.entries@, path@);
        }
        None
    }
}

impl Dup for SourceRoot {
    fn dup(&self) -> (r: SourceRoot)
        ensures
            r@ == self@,
    {
        let n = self.entries.len();
        let mut entries: Vec<(String, Option<u32>)> = Vec::new();
        let mut i: usize = 0;
        while i < n
            invariant
                i <= n,
                n == self.entries@.len(),
                entries@.len() == i,
                forall|j: int| 0 <= j < i ==> entries@[j].0@ == self.entries@[j].0@
                    && entries@[j].1 == self.entries@[j].1,
            decreases n - i,
        {
            let p = self.entries[i].0.clone();
            entries.push((p, self.entries[i].1));
            i = i + 1;
        }
        proof {
            lemma_journal_congruence(entries@, self.entries@);
        }
        SourceRoot { entries }
    }
}

impl Dup for SymbolIndex {
    fn dup(&self) -> (r: SymbolIndex)
        ensures
            r@ == self@,
    {
        self.duplicate()
    }
}

/// A named edge of the crate graph.
#[derive(Debug)]
pub struct Dependency {
    pub crate_id: CrateId,
    pub name: String,
}

#[verifier::ext_equal]
pub ghost struct DependencyView {
    pub crate_id: CrateId,
    pub name: Seq<char>,
}

impl View for Dependency {
    type V = DependencyView;

    open spec fn view(&self) -> DependencyView {
        DependencyView { crate_id: self.crate_id, name: self.name@ }
    }
}

/// One compilation unit: its root file and its dependency edges.
#[derive(Debug)]
pub struct CrateData {
    pub root_file: FileId,
    pub deps: Vec<Dependency>,
}

#[verifier::ext_equal]
pub ghost struct CrateDataView {
    pub root_file: FileId,
    pub deps: Seq<DependencyView>,
}

impl View for CrateData {
    type V = CrateDataView;

    open spec fn view(&self) -> CrateDataView {
        CrateDataView {
            root_file: self.root_file,
            deps: self.deps@.map_values(|d: Dependency| d@),
        }
    }
}

impl Dup for CrateData {
    fn dup(&self) -> (r: CrateData)
        ensures
            r@ == self@,
    {
        let n = self.deps.len();
        let mut deps: Vec<Dependency> = Vec::new();
        let mut i: usize = 0;
        while i < n
            invariant
                i <= n,
                n == self.deps@.len(),
                deps@.len() == i,
                forall|j: int| 0 <= j < i ==> deps@[j]@ == self.deps@[j]@,
            decreases n - i,
        {
            deps.push(Dependency {
                crate_id: self.deps[i].crate_id,
                name: self.deps[i].name.clone(),
            });
            i = i + 1;
        }
        let r = CrateData { root_file: self.root_file, deps };
        proof {
            assert(r@.deps =~= self@.deps);
            assert(r@ =~= self@);
        }
        r
    }
}

/// The crate graph: crates are numbered in creation order, so a `CrateId` is
/// an index into the sequence of crates.
#[derive(Debug)]
pub struct CrateGraph {
    crates: Vec<CrateData>,
}

impl View for CrateGraph {
    type V = Seq<CrateDataView>;

    closed spec fn view(&self) -> Seq<CrateDataView> {
        self.crates@.map_values(|c: CrateData| c@)
    }
}

/// The crates whose root file is the given one, in id order.
pub open spec fn crates_with_root(crates: Seq<CrateDataView>, file: FileId) -> Seq<CrateId>
    decreases crates.len(),
{
    if crates.len() == 0 {
        Seq::empty()
    } else {
        let rest = crates_with_root(crates.drop_last(), file);
        if crates.last().root_file == file {
            rest.push(CrateId((crates.len() - 1) as u32))
        } else {
            rest
        }
    }
}

impl CrateGraph {
    pub fn new() -> (r: CrateGraph)
        ensures
            r@ == Seq::<CrateDataView>::empty(),
    {
        CrateGraph { crates: Vec::new() }
    }

    /// Adds a crate with the given root file and no dependencies; its id is
    /// the next free number.
    pub fn add_crate_root(&mut self, file_id: FileId) -> (r: CrateId)
        requires
            old(self)@.len() < u32::MAX,
        ensures
            r.0 == old(self)@.len(),
            final(self)@ == old(self)@.push(CrateDataView {
                root_file: file_id,
                deps: Seq::empty(),
            }),
    {
        let id = CrateId(self.crates.len() as u32);
        self.crates.push(CrateData { root_file: file_id, deps: Vec::new() });
        proof {
            assert(self@ =~~= old(self)@.push(CrateDataView {
                root_file: file_id,
                deps: Seq::empty(),
            }));
        }
        id
    }

    /// Adds a named dependency edge from one crate to another.
    pub fn add_dep(&mut self, from: CrateId, name: String, to: CrateId)
        requires
            from.0 < old(self)@.len(),
        ensures
            final(self)@ == old(self)@.update(from.0 as int, CrateDataView {
                root_file: old(self)@[from.0 as int].root_file,
                deps: old(self)@[from.0 as int].deps.push(DependencyView {
                    crate_id: to,
                    name: name@,
                }),
            }),
    {
        let i = from.0 as usize;
        let mut data = self.crates[i].dup();
        let ghost before = data@;
        data.deps.push(Dependency { crate_id: to, name });
        proof {
            assert(data@.deps =~= before.deps.push(data.deps@.last()@));
        }
        self.crates.set(i, data);
        proof {
            assert(final(self)@ =~= old(self)@.update(from.0 as int, final(self)@[from.0 as int]));
        }
    }

    /// How many crates the graph holds.
    pub fn len(&self) -> (r: usize)
        ensures
            r == self@.len(),
    {
        self.crates.len()
    }

    /// The root file of a crate that is in the graph.
    pub fn crate_root(&self, crate_id: CrateId) -> (r: FileId)
        requires
            crate_id.0 < self@.len(),
        ensures
            r == self@[crate_id.0 as int].root_file,
    {
        self.crates[crate_id.0 as usize].root_file
    }

    /// All crates whose root file is the given one.
    pub fn crates_for_root(&self, file_id: FileId) -> (r: Vec<CrateId>)
        ensures
            r@ == crates_with_root(self@, file_id),
    {
        let n = self.crates.len();
        let mut out: Vec<CrateId> = Vec::new();
        let mut i: usize = 0;
        while i < n
            invariant
                i <= n,
                n == self@.len(),
                out@ == crates_with_root(self@.take(i as int), file_id),
            decreases n - i,
        {
            proof {
                assert(self@.take(i + 1 as int).drop_last() =~= self@.take(i as int));
            }
            if self.crates[i].root_file == file_id {
                out.push(CrateId(i as u32));
            }
            i = i + 1;
        }
        proof {
            assert(self@.take(n as int) =~= self@);
        }
        out
    }
}

impl Dup for CrateGraph {
    fn dup(&self) -> (r: CrateGraph)
        ensures
            r@ == self@,
    {
        let n = self.crates.len();
        let mut crates: Vec<CrateData> = Vec::new();
        let mut i: usize = 0;
        while i < n
            invariant
                i <= n,
                n == self.crates@.len(),
                crates@.len() == i,
                forall|j: int| 0 <= j < i ==> crates@[j]@ == self.crates@[j]@,
            decreases n - i,
        {
            crates.push(self.crates[i].dup());
            i = i + 1;
        }
        let r = CrateGraph { crates };
        proof {
            assert(r@ =~= self@);
        }
        r
    }
}

/// The whole input store, seen as one mathematical record.
#[verifier::ext_equal]
pub ghost struct StateView {
    /// Each file's text; an untracked file reads as empty.
    pub texts: Map<u32, Seq<char>>,
    /// Each file's relative path within its root.
    pub paths: Map<u32, Seq<char>>,
    /// Each file's owning source root.
    pub file_roots: Map<u32, u32>,
    /// Each root's file set, keyed by relative path.
    pub roots: Map<u32, Map<Seq<char>, u32>>,
    /// The local (workspace) roots, in declaration order.
    pub local_roots: Seq<SourceRootId>,
    /// The library roots, in declaration order.
    pub library_roots: Seq<SourceRootId>,
    /// Each library root's prebuilt symbol index.
    pub lib_symbols: Map<u32, Seq<FileSymbolView>>,
    /// The crate graph.
    pub crate_graph: Seq<CrateDataView>,
}

impl StateView {
    /// A file's text; empty when the file is untracked or removed.
    pub open spec fn text_of(self, file: FileId) -> Seq<char> {
        if self.texts.contains_key(file.0) {
            self.texts[file.0]
        } else {
            Seq::empty()
        }
    }

    /// A file's relative path; empty when never set.
    pub open spec fn path_of(self, file: FileId) -> Seq<char> {
        if self.paths.contains_key(file.0) {
            self.paths[file.0]
        } else {
            Seq::empty()
        }
    }

    /// A file's owning root; the zero root when never set.
    pub open spec fn root_of(self, file: FileId) -> SourceRootId {
        if self.file_roots.contains_key(file.0) {
            SourceRootId(self.file_roots[file.0])
        } else {
            SourceRootId(0)
        }
    }

    /// A root's file set; empty when the root was never declared.
    pub open spec fn files_of(self, root: SourceRootId) -> Map<Seq<char>, u32> {
        if self.roots.contains_key(root.0) {
            self.roots[root.0]
        } else {
            Map::empty()
        }
    }

    /// A library root's symbols; empty when no index was installed.
    pub open spec fn lib_symbols_of(self, root: SourceRootId) -> Seq<FileSymbolView> {
        if self.lib_symbols.contains_key(root.0) {
            self.lib_symbols[root.0]
        } else {
            Seq::empty()
        }
    }
}

/// The input store. All mutation goes through the change-application
/// protocol; snapshots read it through view-level contracts.
#[derive(Debug)]
pub struct InputState {
    texts: IdMap<String>,
    paths: IdMap<String>,
    file_roots: IdMap<u32>,
    roots: IdMap<SourceRoot>,
    local_roots: Vec<SourceRootId>,
    library_roots: Vec<SourceRootId>,
    lib_symbols: IdMap<SymbolIndex>,
    crate_graph: CrateGraph,
}

impl View for InputState {
    type V = StateView;

    closed spec fn view(&self) -> StateView {
        StateView {
            texts: self.texts@,
            paths: self.paths@,
            file_roots: self.file_roots@,
            roots: self.roots@,
            local_roots: self.local_roots@,
            library_roots: self.library_roots@,
            lib_symbols: self.lib_symbols@,
            crate_graph: self.crate_graph@,
        }
    }
}

/// The empty store's view.
pub open spec fn empty_state() -> StateView {
    StateView {
        texts: Map::empty(),
        paths: Map::empty(),
        file_roots: Map::empty(),
        roots: Map::empty(),
        local_roots: Seq::empty(),
        library_roots: Seq::empty(),
        lib_symbols: Map::empty(),
        crate_graph: Seq::empty(),
    }
}

impl InputState {
    pub fn new() -> (r: InputState)
        ensures
            r@ == empty_state(),
    {
        let r = InputState {
            texts: IdMap::new(),
            paths: IdMap::new(),
            file_roots: IdMap::new(),
            roots: IdMap::new(),
            local_roots: Vec::new(),
            library_roots: Vec::new(),
            lib_symbols: IdMap::new(),
            crate_graph: CrateGraph::new(),
        };
        proof {
            assert(r@ =~= empty_state());
        }
        r
    }

    /// Overwrites a file's text.
    pub fn set_text(&mut self, file: FileId, text: String)
        ensures
            final(self)@ == (StateView { texts: old(self)@.texts.insert(file.0, text@), ..old(self)@ }),
    {
        self.texts.set(file.0, text);
        proof {
            assert(final(self)@ =~= (StateView {
                texts: old(self)@.texts.insert(file.0, final(self)@.texts[file.0]),
                ..old(self)@
            }));
        }
    }

    /// Overwrites a file's relative path.
    pub fn set_path(&mut self, file: FileId, path: String)
        ensures
            final(self)@ == (StateView { paths: old(self)@.paths.insert(file.0, path@), ..old(self)@ }),
    {
        self.paths.set(file.0, path);
    }

    /// Overwrites a file's owning root.
    pub fn set_file_root(&mut self, file: FileId, root: SourceRootId)
        ensures
            final(self)@ == (StateView {
                file_roots: old(self)@.file_roots.insert(file.0, root.0),
                ..old(self)@
            }),
    {
        self.file_roots.set(file.0, root.0);
    }

    /// Declares a root with an empty file set, overwriting any earlier set.
    pub fn declare_root(&mut self, root: SourceRootId)
        ensures
            final(self)@ == (StateView {
                roots: old(self)@.roots.insert(root.0, Map::empty()),
                ..old(self)@
            }),
    {
        self.roots.set(root.0, SourceRoot::new());
    }

    /// Appends a root to the local-root list.
    pub fn push_local_root(&mut self, root: SourceRootId)
        ensures
            final(self)@ == (StateView {
                local_roots: old(self)@.local_roots.push(root),
                ..old(self)@
            }),
    {
        self.local_roots.push(root);
    }

    /// Appends a root to the library-root list.
    pub fn push_library_root(&mut self, root: SourceRootId)
        ensures
            final(self)@ == (StateView {
                library_roots: old(self)@.library_roots.push(root),
                ..old(self)@
            }),
    {
        self.library_roots.push(root);
    }

    /// Binds a path to a file in a root's file set.
    pub fn insert_root_path(&mut self, root: SourceRootId, path: String, file: FileId)
        ensures
            final(self)@ == (StateView {
                roots: old(self)@.roots.insert(
                    root.0,
                    old(self)@.files_of(root).insert(path@, file.0),
                ),
                ..old(self)@
            }),
    {
        let mut files = match self.roots.get(root.0) {
            Some(r) => r.dup(),
            None => SourceRoot::new(),
        };
        files.insert(path, file);
        self.roots.set(root.0, files);
    }

    /// Removes a path from a root's file set.
    pub fn remove_root_path(&mut self, root: SourceRootId, path: String)
        ensures
            final(self)@ == (StateView {
                roots: old(self)@.roots.insert(
                    root.0,
                    old(self)@.files_of(root).remove(path@),
                ),
                ..old(self)@
            }),
    {
        let mut files = match self.roots.get(root.0) {
            Some(r) => r.dup(),
            None => SourceRoot::new(),
        };
        files.remove(path);
        self.roots.set(root.0, files);
    }

    /// Installs a library root's prebuilt symbol index.
    pub fn set_lib_symbols(&mut self, root: SourceRootId, index: SymbolIndex)
        ensures
            final(self)@ == (StateView {
                lib_symbols: old(self)@.lib_symbols.insert(root.0, index@),
                ..old(self)@
            }),
    {
        self.lib_symbols.set(root.0, index);
    }

    /// Replaces the crate graph wholesale.
    pub fn set_crate_graph(&mut self, graph: CrateGraph)
        ensures
            final(self)@ == (StateView { crate_graph: graph@, ..old(self)@ }),
    {
        self.crate_graph = graph;
    }

    /// A file's text, empty for an untracked or removed file.
    pub fn file_text(&self, file: FileId) -> (r: String)
        ensures
            r@ == self@.text_of(file),
    {
        match self.texts.get(file.0) {
            Some(t) => t.clone(),
            None => String::new(),
        }
    }

    /// A file's relative path, empty when never set.
    pub fn file_relative_path(&self, file: FileId) -> (r: String)
        ensures
            r@ == self@.path_of(file),
    {
        match self.paths.get(file.0) {
            Some(p) => p.clone(),
            None => String::new(),
        }
    }

    /// A file's owning root, the zero root when never set.
    pub fn file_source_root(&self, file: FileId) -> (r: SourceRootId)
        ensures
            r == self@.root_of(file),
    {
        match self.file_roots.get(file.0) {
            Some(r) => SourceRootId(*r),
            None => SourceRootId(0),
        }
    }

    /// Looks a path up in a root's file set.
    pub fn file_for_path(&self, root: SourceRootId, path: &String) -> (r: Option<FileId>)
        ensures
            match r {
                Some(f) => self@.files_of(root).contains_key(path@)
                    && self@.files_of(root)[path@] == f.0,
                None => !self@.files_of(root).contains_key(path@),
            },
    {
        match self.roots.get(root.0) {
            Some(files) => files.get(path),
            None => None,
        }
    }

    /// The local roots, in declaration order.
    pub fn local_roots(&self) -> (r: Vec<SourceRootId>)
        ensures
            r@ == self@.local_roots,
    {
        copy_root_ids(&self.local_roots)
    }

    /// The library roots, in declaration order.
    pub fn library_roots(&self) -> (r: Vec<SourceRootId>)
        ensures
            r@ == self@.library_roots,
    {
        copy_root_ids(&self.library_roots)
    }

    /// A library root's symbol index, when one was installed.
    pub fn library_index(&self, root: SourceRootId) -> (r: Option<&SymbolIndex>)
        ensures
            match r {
                Some(ix) => self@.lib_symbols.contains_key(root.0)
                    && ix@ == self@.lib_symbols[root.0],
                None => !self@.lib_symbols.contains_key(root.0),
            },
    {
        self.lib_symbols.get(root.0)
    }

    /// The crate graph, for direct reads.
    pub fn crate_graph(&self) -> (r: &CrateGraph)
        ensures
            r@ == self@.crate_graph,
    {
        &self.crate_graph
    }

    /// A copy whose view equals this store's view; snapshots read the copy.
    pub fn duplicate(&self) -> (r: InputState)
        ensures
            r@ == self@,
    {
        let r = InputState {
            texts: self.texts.duplicate(),
            paths: self.paths.duplicate(),
            file_roots: self.file_roots.duplicate(),
            roots: self.roots.duplicate(),
            local_roots: copy_root_ids(&self.local_roots),
            library_roots: copy_root_ids(&self.library_roots),
            lib_symbols: self.lib_symbols.duplicate(),
            crate_graph: self.crate_graph.dup(),
        };
        proof {
            assert(r@ =~= self@);
        }
        r
    }
}

/// An element-for-element copy of a root-id list.
fn copy_root_ids(v: &Vec<SourceRootId>) -> (r: Vec<SourceRootId>)
    ensures
        r@ == v@,
{
    let n = v.len();
    let mut out: Vec<SourceRootId> = Vec::new();
    let mut i: usize = 0;
    while i < n
        invariant
            i <= n,
            n == v@.len(),
            out@ == v@.take(i as int),
        decreases n - i,
    {
        out.push(v[i]);
        proof {
            assert(out@ =~= v@.take(i + 1 as int));
        }
        i = i + 1;
    }
    proof {
        assert(v@.take(n as int) =~= v@);
    }
    out
}

} // verus!
