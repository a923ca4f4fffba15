//! Snapshots: immutable, point-in-time views of the analysis state. A
//! snapshot observes exactly one revision; once the host starts a newer
//! batch, every read through the snapshot fails with `Canceled` instead of
//! returning data, so no reader ever mixes two revisions.
use vstd::prelude::*;
use crate::cancellation::{BaseDatabase, Cancelable, CancelFlag, Canceled};
use crate::engine::{
    approx_resolve, find_all_refs_at, rename_at, resolve_callable_at, spec_approx_resolve,
    spec_find_all_refs, spec_resolve_callable,
};
use crate::facts::{spec_facts_of, SyntaxFacts, WorldFacts};
use crate::ids::{CrateId, FileId, FilePosition, FileRange, SourceRootId};
use crate::input::{crates_with_root, InputState, StateView};
use crate::navigation::{
    Diagnostic, NavigationTarget, NavigationTargetView, RangeInfo, ReferenceResolution,
    SourceFileEdit,
};
use crate::present::{diagnostics_for, diagnostics_ok, hover_at, spec_hover, spec_type_of, type_of_range};
use crate::symbols::{
    FileSymbol, FileSymbolView, FnSignatureInfo, Query, spec_query_search, SymbolIndex,
};
use crate::text::TextRange;

verus! {

/// A read-only view of the world state at one revision. Obtained from the
/// host; never mutated; discarded after one logical query.
#[derive(Debug)]
pub struct Analysis {
    state: InputState,
    revision: u64,
    flag: CancelFlag,
}

impl BaseDatabase for Analysis {
    fn is_canceled(&self) -> bool {
        self.flag.is_raised()
    }
}

impl Analysis {
    /// The store contents this snapshot observes, fixed at creation.
    pub closed spec fn state_view(&self) -> StateView {
        self.state@
    }

    /// The revision this snapshot was taken at.
    pub closed spec fn revision_spec(&self) -> u64 {
        self.revision
    }

    pub(crate) fn from_parts(state: InputState, revision: u64, flag: CancelFlag) -> (r: Analysis)
        ensures
            r.state_view() == state@,
            r.revision_spec() == revision,
    {
        Analysis { state, revision, flag }
    }

    /// The revision this snapshot observes.
    pub fn revision(&self) -> (r: u64)
        ensures
            r == self.revision_spec(),
    {
        self.revision
    }

    /// The text of a file: empty for an untracked or removed id, never a
    /// fault. This read is infallible, as it performs no traversal.
    pub fn file_text(&self, file_id: FileId) -> (r: String)
        ensures
            r@ == self.state_view().text_of(file_id),
    {
        self.state.file_text(file_id)
    }

    /// A file's relative path within its root, empty when never set.
    pub fn file_relative_path(&self, file_id: FileId) -> (r: String)
        ensures
            r@ == self.state_view().path_of(file_id),
    {
        self.state.file_relative_path(file_id)
    }

    /// A file's owning source root, the zero root when never set.
    pub fn file_source_root(&self, file_id: FileId) -> (r: SourceRootId)
        ensures
            r == self.state_view().root_of(file_id),
    {
        self.state.file_source_root(file_id)
    }

    /// The file a path maps to in a root's file set, if any.
    pub fn file_for_path(&self, root: SourceRootId, path: &String) -> (r: Option<FileId>)
        ensures
            match r {
                Some(f) => self.state_view().files_of(root).contains_key(path@)
                    && self.state_view().files_of(root)[path@] == f.0,
                None => !self.state_view().files_of(root).contains_key(path@),
            },
    {
        self.state.file_for_path(root, path)
    }

    /// The root file of the given crate. Asking about a crate outside the
    /// graph is caller misuse.
    pub fn crate_root(&self, crate_id: CrateId) -> (r: Cancelable<FileId>)
        requires
            crate_id.0 < self.state_view().crate_graph.len(),
        ensures
            r matches Ok(f) ==> f == self.state_view().crate_graph[crate_id.0 as int].root_file,
    {
        let c = self.check_canceled();
        if c.is_err() {
            return Err(Canceled);
        }
        Ok(self.state.crate_graph().crate_root(crate_id))
    }

    /// The crates whose root file is the root of the module tree containing
    /// the queried file; the module-graph collaborator supplies that root.
    pub fn crate_for(&self, module_root: FileId) -> (r: Cancelable<Vec<CrateId>>)
        ensures
            r matches Ok(v) ==> v@ == crates_with_root(self.state_view().crate_graph, module_root),
    {
        let c = self.check_canceled();
        if c.is_err() {
            return Err(Canceled);
        }
        Ok(self.state.crate_graph().crates_for_root(module_root))
    }
}


/// All library symbols, in library-root order.
pub open spec fn spec_lib_symbols(sv: StateView, roots: Seq<SourceRootId>) -> Seq<FileSymbolView>
    decreases roots.len(),
{
    if roots.len() == 0 {
        Seq::empty()
    } else {
        spec_lib_symbols(sv, roots.drop_last()) + sv.lib_symbols_of(roots.last())
    }
}

/// What approximate resolution observes through a snapshot: the facts of
/// the position's file, or nothing when the collaborators reported none.
pub open spec fn spec_world_resolve(
    files: Seq<(FileId, SyntaxFacts)>,
    index: Seq<FileSymbolView>,
    position: FilePosition,
) -> Option<(TextRange, Seq<NavigationTargetView>)> {
    match spec_facts_of(files, position.file_id) {
        Some(fi) => spec_approx_resolve(files[fi].1, index, position.file_id, position.offset),
        None => None,
    }
}

/// Find-all-references through a snapshot: empty without facts.
pub open spec fn spec_world_refs(
    files: Seq<(FileId, SyntaxFacts)>,
    position: FilePosition,
) -> Seq<(FileId, TextRange)> {
    match spec_facts_of(files, position.file_id) {
        Some(fi) => spec_find_all_refs(files[fi].1, position.file_id, position.offset),
        None => Seq::empty(),
    }
}

impl Analysis {
    /// Resolves the reference at the position to definitions; local scope
    /// resolution is authoritative, the index fallback approximate.
    pub fn approximately_resolve_symbol(
        &self,
        position: FilePosition,
        world: &WorldFacts,
    ) -> (r: Cancelable<Option<ReferenceResolution>>)
        ensures
            r matches Ok(v) ==> match v {
                Some(rr) => {
                    &&& spec_world_resolve(world.files@, world.index@, position) matches Some(s)
                    &&& rr.reference_range == s.0
                    &&& rr.resolves_to@.map_values(|t: NavigationTarget| t@) == s.1
                },
                None => spec_world_resolve(world.files@, world.index@, position) is None,
            },
    {
        let c = self.check_canceled();
        if c.is_err() {
            return Err(Canceled);
        }
        match world.facts_of(position.file_id) {
            Some(facts) => Ok(approx_resolve(facts, &world.index, position.file_id, position.offset)),
            None => Ok(None),
        }
    }

    /// Finds all usages of the binding at the position, within its file.
    pub fn find_all_refs(&self, position: FilePosition, world: &WorldFacts) -> (r: Cancelable<
        Vec<(FileId, TextRange)>,
    >)
        ensures
            r matches Ok(v) ==> v@ == spec_world_refs(world.files@, position),
    {
        let c = self.check_canceled();
        if c.is_err() {
            return Err(Canceled);
        }
        match world.facts_of(position.file_id) {
            Some(facts) => Ok(find_all_refs_at(facts, position.file_id, position.offset)),
            None => Ok(Vec::new()),
        }
    }

    /// The edits renaming the binding at the position to the new name; zero
    /// edits mean nothing to rename.
    pub fn rename(&self, position: FilePosition, new_name: &str, world: &WorldFacts) -> (r:
        Cancelable<Vec<SourceFileEdit>>)
        ensures
            r matches Ok(v) ==> {
                let refs = spec_world_refs(world.files@, position);
                &&& v@.len() == refs.len()
                &&& forall|i: int| 0 <= i < refs.len() ==> {
                    &&& (#[trigger] v@[i]).file_id == refs[i].0
                    &&& v@[i].edit.atoms@.len() == 1
                    &&& v@[i].edit.atoms@[0].delete == refs[i].1
                    &&& v@[i].edit.atoms@[0].insert@ == new_name@
                }
            },
    {
        let c = self.check_canceled();
        if c.is_err() {
            return Err(Canceled);
        }
        match world.facts_of(position.file_id) {
            Some(facts) => Ok(rename_at(facts, position.file_id, position.offset, new_name)),
            None => Ok(Vec::new()),
        }
    }

    /// Computes the called function's signature and the cursor's parameter
    /// slot for the call around the position.
    pub fn resolve_callable(&self, position: FilePosition, world: &WorldFacts) -> (r: Cancelable<
        Option<(FnSignatureInfo, Option<usize>)>,
    >)
        requires
            position.offset < u32::MAX,
        ensures
            r matches Ok(v) ==> match spec_facts_of(world.files@, position.file_id) {
                Some(fi) => match v {
                    Some(p) => {
                        &&& spec_resolve_callable(
                            world.files@[fi].1,
                            world.index@,
                            self.state_view().text_of(position.file_id),
                            position.offset,
                        ) matches Some(s)
                        &&& p.0@ == s.0
                        &&& match (p.1, s.1) {
                            (Some(a), Some(b)) => a as int == b,
                            (None, None) => true,
                            _ => false,
                        }
                    },
                    None => spec_resolve_callable(
                        world.files@[fi].1,
                        world.index@,
                        self.state_view().text_of(position.file_id),
                        position.offset,
                    ) is None,
                },
                None => v is None,
            },
    {
        let c = self.check_canceled();
        if c.is_err() {
            return Err(Canceled);
        }
        match world.facts_of(position.file_id) {
            Some(facts) => {
                let text = self.state.file_text(position.file_id);
                Ok(resolve_callable_at(facts, &world.index, text.as_str(), position.offset))
            }
            None => Ok(None),
        }
    }

    /// The diagnostics of one file, module-graph fixes included.
    pub fn diagnostics(&self, file_id: FileId, world: &WorldFacts) -> (r: Cancelable<
        Vec<Diagnostic>,
    >)
        ensures
            r matches Ok(v) ==> match spec_facts_of(world.files@, file_id) {
                Some(fi) => diagnostics_ok(
                    v@,
                    world.files@[fi].1,
                    file_id,
                    self.state_view().root_of(file_id),
                ),
                None => v@.len() == 0,
            },
    {
        let c = self.check_canceled();
        if c.is_err() {
            return Err(Canceled);
        }
        match world.facts_of(file_id) {
            Some(facts) => {
                let source_root = self.state.file_source_root(file_id);
                Ok(diagnostics_for(facts, file_id, source_root))
            }
            None => Ok(Vec::new()),
        }
    }

    /// The inferred type of the smallest node covering the range.
    pub fn type_of(&self, frange: FileRange, world: &WorldFacts) -> (r: Cancelable<Option<String>>)
        requires
            frange.range.wf(),
        ensures
            r matches Ok(v) ==> match spec_facts_of(world.files@, frange.file_id) {
                Some(fi) => match v {
                    Some(t) => spec_type_of(world.files@[fi].1, frange.range) == Some(t@),
                    None => spec_type_of(world.files@[fi].1, frange.range) is None,
                },
                None => v is None,
            },
    {
        let c = self.check_canceled();
        if c.is_err() {
            return Err(Canceled);
        }
        match world.facts_of(frange.file_id) {
            Some(facts) => Ok(type_of_range(facts, &frange.range)),
            None => Ok(None),
        }
    }

    /// A short text describing the element at the position.
    pub fn hover(&self, position: FilePosition, world: &WorldFacts) -> (r: Cancelable<
        Option<RangeInfo<String>>,
    >)
        ensures
            r matches Ok(v) ==> match spec_facts_of(world.files@, position.file_id) {
                Some(fi) => match v {
                    Some(ri) => {
                        &&& spec_hover(
                            world.files@[fi].1,
                            world.files@,
                            world.index@,
                            position.file_id,
                            position.offset,
                        ) matches Some(h)
                        &&& ri.range == h.0
                        &&& ri.info@ == h.1
                    },
                    None => spec_hover(
                        world.files@[fi].1,
                        world.files@,
                        world.index@,
                        position.file_id,
                        position.offset,
                    ) is None,
                },
                None => v is None,
            },
    {
        let c = self.check_canceled();
        if c.is_err() {
            return Err(Canceled);
        }
        match world.facts_of(position.file_id) {
            Some(facts) => Ok(hover_at(facts, world, position.file_id, position.offset)),
            None => Ok(None),
        }
    }

    /// The `mod name;` declaration that created the module of the
    /// position's file; at most one entry.
    pub fn parent_module(&self, position: FilePosition, world: &WorldFacts) -> (r: Cancelable<
        Vec<NavigationTarget>,
    >)
        ensures
            r matches Ok(v) ==> match spec_facts_of(world.files@, position.file_id) {
                Some(fi) => match world.files@[fi].1.parent_module {
                    Some(p) => v@.len() == 1 && v@[0]@ == (NavigationTargetView {
                        file_id: p.file_id,
                        name: p.name@,
                        kind: crate::symbols::SyntaxKind::Module,
                        range: p.name_range,
                        ptr: None,
                    }),
                    None => v@.len() == 0,
                },
                None => v@.len() == 0,
            },
    {
        let c = self.check_canceled();
        if c.is_err() {
            return Err(Canceled);
        }
        let mut out: Vec<NavigationTarget> = Vec::new();
        match world.facts_of(position.file_id) {
            Some(facts) => {
                match &facts.parent_module {
                    Some(p) => {
                        out.push(NavigationTarget {
                            file_id: p.file_id,
                            name: p.name.clone(),
                            kind: crate::symbols::SyntaxKind::Module,
                            range: p.name_range,
                            ptr: None,
                        });
                    }
                    None => {}
                }
            }
            None => {}
        }
        Ok(out)
    }

    /// Searches for symbols: the library indices when the query asks for
    /// libraries, else the world's local index.
    pub fn symbol_search(&self, query: Query, world: &WorldFacts) -> (r: Cancelable<
        Vec<NavigationTarget>,
    >)
        ensures
            r matches Ok(v) ==> v@.map_values(|t: NavigationTarget| t@) == {
                let syms = if query@.libs {
                    spec_lib_symbols(self.state_view(), self.state_view().library_roots)
                } else {
                    world.index@
                };
                spec_query_search(syms, query@).map_values(
                    |s: FileSymbolView| crate::navigation::spec_target_of_symbol(s),
                )
            },
    {
        let c = self.check_canceled();
        if c.is_err() {
            return Err(Canceled);
        }
        let mut hits: Vec<FileSymbol> = Vec::new();
        if query.is_libs() {
            let ghost sv = self.state_view();
            let roots = self.state.library_roots();
            let nr = roots.len();
            let mut combined: Vec<FileSymbol> = Vec::new();
            let mut i: usize = 0;
            while i < nr
                invariant
                    i <= nr,
                    nr == roots@.len(),
                    roots@ == sv.library_roots,
                    sv == self.state@,
                    combined@.map_values(|s: FileSymbol| s@)
                        == spec_lib_symbols(sv, roots@.take(i as int)),
                decreases nr - i,
            {
                proof {
                    assert(roots@.take(i + 1 as int).drop_last() =~= roots@.take(i as int));
                }
                match self.state.library_index(roots[i]) {
                    Some(ix) => {
                        let mut dup = ix.duplicate();
                        let ghost pre = combined@.map_values(|s: FileSymbol| s@);
                        let ghost add = dup.symbols@.map_values(|s: FileSymbol| s@);
                        combined.append(&mut dup.symbols);
                        proof {
                            assert(combined@.map_values(|s: FileSymbol| s@) =~= pre + add);
                            assert(combined@.map_values(|s: FileSymbol| s@)
                                =~= spec_lib_symbols(sv, roots@.take(i + 1 as int)));
                        }
                    }
                    None => {
                        proof {
                            assert(combined@.map_values(|s: FileSymbol| s@)
                                + Seq::<FileSymbolView>::empty()
                                =~= combined@.map_values(|s: FileSymbol| s@));
                            assert(combined@.map_values(|s: FileSymbol| s@)
                                =~= spec_lib_symbols(sv, roots@.take(i + 1 as int)));
                        }
                    }
                }
                i = i + 1;
            }
            proof {
                assert(roots@.take(nr as int) =~= roots@);
            }
            let ghost combined_v = combined@.map_values(|s: FileSymbol| s@);
            let lib_index = SymbolIndex::new(combined);
            proof {
                assert(lib_index@ == combined_v);
            }
            lib_index.search_into(&query, &mut hits);
        } else {
            world.index.search_into(&query, &mut hits);
        }
        let nh = hits.len();
        let mut out: Vec<NavigationTarget> = Vec::new();
        let ghost hits_v = hits@.map_values(|s: FileSymbol| s@);
        let mut k: usize = 0;
        while k < nh
            invariant
                k <= nh,
                nh == hits@.len(),
                hits_v == hits@.map_values(|s: FileSymbol| s@),
                out@.len() == k,
                forall|j: int| 0 <= j < k ==> out@[j]@
                    == crate::navigation::spec_target_of_symbol(hits_v[j]),
            decreases nh - k,
        {
            out.push(NavigationTarget::from_symbol(&hits[k]));
            k = k + 1;
        }
        proof {
            assert(out@.map_values(|t: NavigationTarget| t@) =~= hits_v.map_values(
                |s: FileSymbolView| crate::navigation::spec_target_of_symbol(s),
            ));
        }
        Ok(out)
    }
}

} // verus!
