//! The host: the single owner of the mutable analysis state. Applying a
//! change batch first cancels all outstanding snapshots, then performs the
//! batch's mutations in protocol order, and advances the revision exactly
//! once.
use vstd::prelude::*;
use crate::cancellation::CancelFlag;
use crate::change::{AddFile, AddFileView, AnalysisChange, ChangeView, LibraryDataView, RemoveFileView};
use crate::ids::{FileId, SourceRootId};
use crate::input::{empty_state, InputState, StateView};
use crate::snapshot::Analysis;

verus! {

/// Declaring one root: an empty file set, and membership in the local-root
/// list when the root is local.
pub open spec fn sv_apply_new_root(sv: StateView, root: SourceRootId, is_local: bool) -> StateView {
    let sv1 = StateView { roots: sv.roots.insert(root.0, Map::empty()), ..sv };
    if is_local {
        StateView { local_roots: sv1.local_roots.push(root), ..sv1 }
    } else {
        sv1
    }
}

pub open spec fn sv_apply_new_roots(sv: StateView, s: Seq<(SourceRootId, bool)>) -> StateView
    decreases s.len(),
{
    if s.len() == 0 {
        sv
    } else {
        sv_apply_new_root(sv_apply_new_roots(sv, s.drop_last()), s.last().0, s.last().1)
    }
}

/// Adding one file: its text, path and owning root are set, and its path
/// joins the root's file set.
pub open spec fn sv_apply_add(sv: StateView, root: SourceRootId, f: AddFileView) -> StateView {
    StateView {
        texts: sv.texts.insert(f.file_id.0, f.text),
        paths: sv.paths.insert(f.file_id.0, f.path),
        file_roots: sv.file_roots.insert(f.file_id.0, root.0),
        roots: sv.roots.insert(root.0, sv.files_of(root).insert(f.path, f.file_id.0)),
        ..sv
    }
}

pub open spec fn sv_apply_adds(sv: StateView, s: Seq<(SourceRootId, AddFileView)>) -> StateView
    decreases s.len(),
{
    if s.len() == 0 {
        sv
    } else {
        sv_apply_add(sv_apply_adds(sv, s.drop_last()), s.last().0, s.last().1)
    }
}

/// Removing one file: its text becomes empty and its path leaves the root's
/// file set; its id, path and root membership stay, as a tombstone.
pub open spec fn sv_apply_remove(sv: StateView, root: SourceRootId, f: RemoveFileView) -> StateView {
    StateView {
        texts: sv.texts.insert(f.file_id.0, Seq::empty()),
        roots: sv.roots.insert(root.0, sv.files_of(root).remove(f.path)),
        ..sv
    }
}

pub open spec fn sv_apply_removes(sv: StateView, s: Seq<(SourceRootId, RemoveFileView)>) -> StateView
    decreases s.len(),
{
    if s.len() == 0 {
        sv
    } else {
        sv_apply_remove(sv_apply_removes(sv, s.drop_last()), s.last().0, s.last().1)
    }
}

/// Replacing one already tracked file's text.
pub open spec fn sv_apply_text(sv: StateView, file: FileId, text: Seq<char>) -> StateView {
    StateView { texts: sv.texts.insert(file.0, text), ..sv }
}

pub open spec fn sv_apply_texts(sv: StateView, s: Seq<(FileId, Seq<char>)>) -> StateView
    decreases s.len(),
{
    if s.len() == 0 {
        sv
    } else {
        sv_apply_text(sv_apply_texts(sv, s.drop_last()), s.last().0, s.last().1)
    }
}

/// Installing one library: its root is registered as a library root with an
/// empty file set, its prebuilt symbol index is installed, and its files are
/// added as any other files are.
pub open spec fn sv_apply_library(sv: StateView, lib: LibraryDataView) -> StateView {
    let sv1 = StateView {
        library_roots: sv.library_roots.push(lib.root_id),
        roots: sv.roots.insert(lib.root_id.0, Map::empty()),
        lib_symbols: sv.lib_symbols.insert(lib.root_id.0, lib.symbols),
        ..sv
    };
    sv_apply_adds(sv1, lib.files.map_values(|f: AddFileView| (lib.root_id, f)))
}

pub open spec fn sv_apply_libraries(sv: StateView, s: Seq<LibraryDataView>) -> StateView
    decreases s.len(),
{
    if s.len() == 0 {
        sv
    } else {
        sv_apply_library(sv_apply_libraries(sv, s.drop_last()), s.last())
    }
}

/// The whole batch, in protocol order: new roots, added files, removed
/// files, text replacements, libraries, and last the crate graph.
pub open spec fn apply_change_spec(sv: StateView, c: ChangeView) -> StateView {
    let s1 = sv_apply_new_roots(sv, c.new_roots);
    let s2 = sv_apply_adds(s1, c.added);
    let s3 = sv_apply_removes(s2, c.removed);
    let s4 = sv_apply_texts(s3, c.files_changed);
    let s5 = sv_apply_libraries(s4, c.libraries);
    match c.crate_graph {
        Some(g) => StateView { crate_graph: g, ..s5 },
        None => s5,
    }
}

/// The current state of the world: the input store, the revision counter,
/// and the cancellation flag shared with the current snapshot generation.
#[derive(Debug)]
pub struct AnalysisHost {
    state: InputState,
    revision: u64,
    flag: CancelFlag,
}

impl AnalysisHost {
    /// The current store contents.
    pub closed spec fn state_view(&self) -> StateView {
        self.state@
    }

    /// The revision: how many batches have been applied so far.
    pub closed spec fn revision_spec(&self) -> u64 {
        self.revision
    }

    /// An empty world at revision zero.
    pub fn new() -> (r: AnalysisHost)
        ensures
            r.state_view() == empty_state(),
            r.revision_spec() == 0,
    {
        AnalysisHost { state: InputState::new(), revision: 0, flag: CancelFlag::new() }
    }

    /// The revision counter; it only ever grows, by one per applied batch.
    pub fn revision(&self) -> (r: u64)
        ensures
            r == self.revision_spec(),
    {
        self.revision
    }

    /// A snapshot of the current state, to query for semantic information.
    /// It observes exactly the state as of the current revision, and is
    /// canceled when a later batch is applied.
    pub fn analysis(&self) -> (r: Analysis)
        ensures
            r.state_view() == self.state_view(),
            r.revision_spec() == self.revision_spec(),
    {
        Analysis::from_parts(self.state.duplicate(), self.revision, self.flag.share())
    }

    /// Applies a change batch. Outstanding snapshots are canceled before the
    /// first mutation; the mutations run in protocol order; the revision
    /// advances exactly once, after all of them.
    pub fn apply_change(&mut self, change: AnalysisChange)
        requires
            old(self).revision_spec() < u64::MAX,
        ensures
            final(self).state_view() == apply_change_spec(old(self).state_view(), change@),
            final(self).revision_spec() == old(self).revision_spec() + 1,
    {
        let ghost cv = change@;
        // Cancel in-flight reads before any mutation becomes visible.
        self.flag.raise();
        self.flag = CancelFlag::new();

        let AnalysisChange { new_roots, added, removed, files_changed, libraries_added, crate_graph } =
            change;

        let ghost sv0 = self.state@;
        let mut i: usize = 0;
        let n1 = new_roots.len();
        while i < n1
            invariant
                i <= n1,
                n1 == new_roots@.len(),
                new_roots@ == cv.new_roots,
                self.revision == old(self).revision,
                self.state@ == sv_apply_new_roots(sv0, cv.new_roots.take(i as int)),
            decreases n1 - i,
        {
            proof {
                assert(cv.new_roots.take(i + 1 as int).drop_last() =~= cv.new_roots.take(i as int));
            }
            let (root_id, is_local) = new_roots[i];
            self.state.declare_root(root_id);
            if is_local {
                self.state.push_local_root(root_id);
            }
            proof {
                assert(self.state@ =~~= sv_apply_new_roots(sv0, cv.new_roots.take(i + 1 as int)));
            }
            i = i + 1;
        }
        proof {
            assert(cv.new_roots.take(n1 as int) =~= cv.new_roots);
        }

        let ghost sv1 = self.state@;
        let n2 = added.len();
        let mut i: usize = 0;
        while i < n2
            invariant
                i <= n2,
                n2 == added@.len(),
                cv.added.len() == n2,
                forall|j: int| 0 <= j < n2 ==> cv.added[j] == (added@[j].0, added@[j].1@),
                self.revision == old(self).revision,
                self.state@ == sv_apply_adds(sv1, cv.added.take(i as int)),
            decreases n2 - i,
        {
            proof {
                assert(cv.added.take(i + 1 as int).drop_last() =~= cv.added.take(i as int));
                assert(cv.added[i as int] == (added@[i as int].0, added@[i as int].1@));
            }
            let root_id = added[i].0;
            apply_one_add(&mut self.state, root_id, &added[i].1);
            i = i + 1;
        }
        proof {
            assert(cv.added.take(n2 as int) =~= cv.added);
        }

        let ghost sv2 = self.state@;
        let n3 = removed.len();
        let mut i: usize = 0;
        while i < n3
            invariant
                i <= n3,
                n3 == removed@.len(),
                cv.removed.len() == n3,
                forall|j: int| 0 <= j < n3 ==> cv.removed[j] == (removed@[j].0, removed@[j].1@),
                self.revision == old(self).revision,
                self.state@ == sv_apply_removes(sv2, cv.removed.take(i as int)),
            decreases n3 - i,
        {
            proof {
                assert(cv.removed.take(i + 1 as int).drop_last() =~= cv.removed.take(i as int));
                assert(cv.removed[i as int] == (removed@[i as int].0, removed@[i as int].1@));
            }
            let root_id = removed[i].0;
            let file_id = removed[i].1.file_id;
            let path = removed[i].1.path.clone();
            self.state.set_text(file_id, String::new());
            self.state.remove_root_path(root_id, path);
            proof {
                assert(self.state@ =~~= sv_apply_removes(sv2, cv.removed.take(i + 1 as int)));
            }
            i = i + 1;
        }
        proof {
            assert(cv.removed.take(n3 as int) =~= cv.removed);
        }

        let ghost sv3 = self.state@;
        let n4 = files_changed.len();
        let mut i: usize = 0;
        while i < n4
            invariant
                i <= n4,
                n4 == files_changed@.len(),
                cv.files_changed.len() == n4,
                forall|j: int| 0 <= j < n4
                    ==> cv.files_changed[j] == (files_changed@[j].0, files_changed@[j].1@),
                self.revision == old(self).revision,
                self.state@ == sv_apply_texts(sv3, cv.files_changed.take(i as int)),
            decreases n4 - i,
        {
            proof {
                assert(cv.files_changed.take(i + 1 as int).drop_last()
                    =~= cv.files_changed.take(i as int));
                assert(cv.files_changed[i as int]
                    == (files_changed@[i as int].0, files_changed@[i as int].1@));
            }
            let file_id = files_changed[i].0;
            let text = files_changed[i].1.clone();
            self.state.set_text(file_id, text);
            proof {
                assert(self.state@ =~~= sv_apply_texts(sv3, cv.files_changed.take(i + 1 as int)));
            }
            i = i + 1;
        }
        proof {
            assert(cv.files_changed.take(n4 as int) =~= cv.files_changed);
        }

        let ghost sv4 = self.state@;
        let n5 = libraries_added.len();
        let mut i: usize = 0;
        while i < n5
            invariant
                i <= n5,
                n5 == libraries_added@.len(),
                cv.libraries.len() == n5,
                forall|j: int| 0 <= j < n5 ==> cv.libraries[j] == libraries_added@[j]@,
                self.revision == old(self).revision,
                self.state@ == sv_apply_libraries(sv4, cv.libraries.take(i as int)),
            decreases n5 - i,
        {
            proof {
                assert(cv.libraries.take(i + 1 as int).drop_last() =~= cv.libraries.take(i as int));
                assert(cv.libraries[i as int] == libraries_added@[i as int]@);
            }
            apply_one_library(&mut self.state, &libraries_added[i]);
            i = i + 1;
        }
        proof {
            assert(cv.libraries.take(n5 as int) =~= cv.libraries);
        }

        match crate_graph {
            Some(graph) => {
                self.state.set_crate_graph(graph);
            }
            None => {}
        }
        proof {
            assert(self.state@ =~~= apply_change_spec(sv0, cv));
        }

        // One batch, one revision step, after every mutation.
        self.revision = self.revision + 1;
    }
}

/// Adds one file: text, path and owning root, then the root's file set.
fn apply_one_add(state: &mut InputState, root: SourceRootId, f: &AddFile)
    ensures
        final(state)@ == sv_apply_add(old(state)@, root, f@),
{
    state.set_text(f.file_id, f.text.clone());
    state.set_path(f.file_id, f.path.clone());
    state.set_file_root(f.file_id, root);
    state.insert_root_path(root, f.path.clone(), f.file_id);
    proof {
        assert(final(state)@ =~~= sv_apply_add(old(state)@, root, f@));
    }
}

/// Installs one library: root registration, symbol index, then its files.
fn apply_one_library(state: &mut InputState, lib: &crate::change::LibraryData)
    ensures
        final(state)@ == sv_apply_library(old(state)@, lib@),
{
    state.push_library_root(lib.root_id);
    state.declare_root(lib.root_id);
    state.set_lib_symbols(lib.root_id, lib.symbol_index.duplicate());
    let ghost sv1 = state@;
    let ghost files_v = lib@.files.map_values(|f: AddFileView| (lib@.root_id, f));
    let n = lib.files.len();
    let mut i: usize = 0;
    while i < n
        invariant
            i <= n,
            n == lib.files@.len(),
            files_v == lib@.files.map_values(|f: AddFileView| (lib@.root_id, f)),
            files_v.len() == n,
            forall|j: int| 0 <= j < n ==> files_v[j] == (lib.root_id, lib.files@[j]@),
            state@ == sv_apply_adds(sv1, files_v.take(i as int)),
        decreases n - i,
    {
        proof {
            assert(files_v.take(i + 1 as int).drop_last() =~= files_v.take(i as int));
        }
        apply_one_add(state, lib.root_id, &lib.files[i]);
        i = i + 1;
    }
    proof {
        assert(files_v.take(n as int) =~= files_v);
        assert(final(state)@ =~~= sv_apply_library(old(state)@, lib@));
    }
}

} // verus!
