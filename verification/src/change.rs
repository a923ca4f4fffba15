//! Change batches: an ordered, write-once description of mutations that the
//! host applies atomically, advancing the revision exactly once per batch.
use vstd::prelude::*;
use crate::ids::{FileId, SourceRootId};
use crate::input::{CrateDataView, CrateGraph};
use crate::symbols::{FileSymbolView, SymbolIndex};

verus! {

/// A file to add: its id, its path within the root, and its initial text.
#[derive(Debug)]
pub struct AddFile {
    pub file_id: FileId,
    pub path: String,
    pub text: String,
}

#[verifier::ext_equal]
pub ghost struct AddFileView {
    pub file_id: FileId,
    pub path: Seq<char>,
    pub text: Seq<char>,
}

impl View for AddFile {
    type V = AddFileView;

    open spec fn view(&self) -> AddFileView {
        AddFileView { file_id: self.file_id, path: self.path@, text: self.text@ }
    }
}

/// A file to remove: its id stays allocated, its path leaves the root.
#[derive(Debug)]
pub struct RemoveFile {
    pub file_id: FileId,
    pub path: String,
}

#[verifier::ext_equal]
pub ghost struct RemoveFileView {
    pub file_id: FileId,
    pub path: Seq<char>,
}

impl View for RemoveFile {
    type V = RemoveFileView;

    open spec fn view(&self) -> RemoveFileView {
        RemoveFileView { file_id: self.file_id, path: self.path@ }
    }
}

/// A fully prebuilt library: a root, its immutable file set, and its
/// precomputed symbol index, supplied together.
#[derive(Debug)]
pub struct LibraryData {
    pub root_id: SourceRootId,
    pub files: Vec<AddFile>,
    pub symbol_index: SymbolIndex,
}

#[verifier::ext_equal]
pub ghost struct LibraryDataView {
    pub root_id: SourceRootId,
    pub files: Seq<AddFileView>,
    pub symbols: Seq<FileSymbolView>,
}

impl View for LibraryData {
    type V = LibraryDataView;

    open spec fn view(&self) -> LibraryDataView {
        LibraryDataView {
            root_id: self.root_id,
            files: self.files@.map_values(|f: AddFile| f@),
            symbols: self.symbol_index@,
        }
    }
}

impl LibraryData {
    /// Packages a library root: the files it holds and the symbol index the
    /// indexing collaborator computed for exactly those files.
    pub fn prepare(
        root_id: SourceRootId,
        files: Vec<(FileId, String, String)>,
        symbol_index: SymbolIndex,
    ) -> (r: LibraryData)
        ensures
            r@.root_id == root_id,
            r@.files.len() == files@.len(),
            forall|i: int| 0 <= i < files@.len() ==> r@.files[i] == (AddFileView {
                file_id: files@[i].0,
                path: files@[i].1@,
                text: files@[i].2@,
            }),
            r@.symbols == symbol_index@,
    {
        let n = files.len();
        let mut added: Vec<AddFile> = Vec::new();
        let mut i: usize = 0;
        while i < n
            invariant
                i <= n,
                n == files@.len(),
                added@.len() == i,
                forall|j: int| 0 <= j < i ==> added@[j]@ == (AddFileView {
                    file_id: files@[j].0,
                    path: files@[j].1@,
                    text: files@[j].2@,
                }),
            decreases n - i,
        {
            added.push(AddFile {
                file_id: files[i].0,
                path: files[i].1.clone(),
                text: files[i].2.clone(),
            });
            i = i + 1;
        }
        LibraryData { root_id, files: added, symbol_index }
    }
}

/// An ordered batch of mutations. Applying it through the host is
/// all-or-nothing: no reader observes a partial subset of its effects.
#[derive(Debug)]
pub struct AnalysisChange {
    pub new_roots: Vec<(SourceRootId, bool)>,
    pub added: Vec<(SourceRootId, AddFile)>,
    pub removed: Vec<(SourceRootId, RemoveFile)>,
    pub files_changed: Vec<(FileId, String)>,
    pub libraries_added: Vec<LibraryData>,
    pub crate_graph: Option<CrateGraph>,
}

#[verifier::ext_equal]
pub ghost struct ChangeView {
    pub new_roots: Seq<(SourceRootId, bool)>,
    pub added: Seq<(SourceRootId, AddFileView)>,
    pub removed: Seq<(SourceRootId, RemoveFileView)>,
    pub files_changed: Seq<(FileId, Seq<char>)>,
    pub libraries: Seq<LibraryDataView>,
    pub crate_graph: Option<Seq<CrateDataView>>,
}

impl View for AnalysisChange {
    type V = ChangeView;

    open spec fn view(&self) -> ChangeView {
        ChangeView {
            new_roots: self.new_roots@,
            added: self.added@.map_values(|e: (SourceRootId, AddFile)| (e.0, e.1@)),
            removed: self.removed@.map_values(|e: (SourceRootId, RemoveFile)| (e.0, e.1@)),
            files_changed: self.files_changed@.map_values(|e: (FileId, String)| (e.0, e.1@)),
            libraries: self.libraries_added@.map_values(|l: LibraryData| l@),
            crate_graph: match self.crate_graph {
                Some(g) => Some(g@),
                None => None,
            },
        }
    }
}

/// The empty batch's view.
pub open spec fn empty_change() -> ChangeView {
    ChangeView {
        new_roots: Seq::empty(),
        added: Seq::empty(),
        removed: Seq::empty(),
        files_changed: Seq::empty(),
        libraries: Seq::empty(),
        crate_graph: None,
    }
}

impl AnalysisChange {
    pub fn new() -> (r: AnalysisChange)
        ensures
            r@ == empty_change(),
    {
        let r = AnalysisChange {
            new_roots: Vec::new(),
            added: Vec::new(),
            removed: Vec::new(),
            files_changed: Vec::new(),
            libraries_added: Vec::new(),
            crate_graph: None,
        };
        proof {
            assert(r@ =~~= empty_change());
        }
        r
    }

    /// Declares a root; a local root also joins the local-root list.
    pub fn add_root(&mut self, root_id: SourceRootId, is_local: bool)
        ensures
            final(self)@ == (ChangeView {
                new_roots: old(self)@.new_roots.push((root_id, is_local)),
                ..old(self)@
            }),
    {
        self.new_roots.push((root_id, is_local));
        proof {
            assert(final(self)@ =~~= (ChangeView {
                new_roots: old(self)@.new_roots.push((root_id, is_local)),
                ..old(self)@
            }));
        }
    }

    /// Schedules a file to be added to a root with the given path and text.
    pub fn add_file(&mut self, root_id: SourceRootId, file_id: FileId, path: String, text: String)
        ensures
            final(self)@ == (ChangeView {
                added: old(self)@.added.push((root_id, AddFileView {
                    file_id,
                    path: path@,
                    text: text@,
                })),
                ..old(self)@
            }),
    {
        let ghost pv = path@;
        let ghost tv = text@;
        self.added.push((root_id, AddFile { file_id, path, text }));
        proof {
            assert(final(self)@ =~~= (ChangeView {
                added: old(self)@.added.push((root_id, AddFileView {
                    file_id,
                    path: pv,
                    text: tv,
                })),
                ..old(self)@
            }));
        }
    }

    /// Schedules a text replacement for an already tracked file.
    pub fn change_file(&mut self, file_id: FileId, new_text: String)
        ensures
            final(self)@ == (ChangeView {
                files_changed: old(self)@.files_changed.push((file_id, new_text@)),
                ..old(self)@
            }),
    {
        let ghost tv = new_text@;
        self.files_changed.push((file_id, new_text));
        proof {
            assert(final(self)@ =~~= (ChangeView {
                files_changed: old(self)@.files_changed.push((file_id, tv)),
                ..old(self)@
            }));
        }
    }

    /// Schedules a file's removal: its text becomes empty and its path leaves
    /// the root's file set; the id stays allocated.
    pub fn remove_file(&mut self, root_id: SourceRootId, file_id: FileId, path: String)
        ensures
            final(self)@ == (ChangeView {
                removed: old(self)@.removed.push((root_id, RemoveFileView { file_id, path: path@ })),
                ..old(self)@
            }),
    {
        let ghost pv = path@;
        self.removed.push((root_id, RemoveFile { file_id, path }));
        proof {
            assert(final(self)@ =~~= (ChangeView {
                removed: old(self)@.removed.push((root_id, RemoveFileView { file_id, path: pv })),
                ..old(self)@
            }));
        }
    }

    /// Schedules a prebuilt library's installation.
    pub fn add_library(&mut self, data: LibraryData)
        ensures
            final(self)@ == (ChangeView {
                libraries: old(self)@.libraries.push(data@),
                ..old(self)@
            }),
    {
        let ghost dv = data@;
        self.libraries_added.push(data);
        proof {
            assert(final(self)@ =~~= (ChangeView {
                libraries: old(self)@.libraries.push(dv),
                ..old(self)@
            }));
        }
    }

    /// Schedules a wholesale crate-graph replacement.
    pub fn set_crate_graph(&mut self, graph: CrateGraph)
        ensures
            final(self)@ == (ChangeView { crate_graph: Some(graph@), ..old(self)@ }),
    {
        let ghost gv = graph@;
        self.crate_graph = Some(graph);
        proof {
            assert(final(self)@ =~~= (ChangeView { crate_graph: Some(gv), ..old(self)@ }));
        }
    }
}

} // verus!
