//! The engine's cross-cutting guarantees, stated and proved over the same
//! specifications its public contracts use.
use vstd::prelude::*;
use crate::change::{ChangeView, RemoveFileView};
use crate::engine::{
    spec_approx_resolve, spec_find_all_refs, spec_find_binding, spec_local_target,
};
use crate::facts::SyntaxFacts;
use crate::host::{apply_change_spec, sv_apply_adds, sv_apply_libraries, sv_apply_new_roots, sv_apply_remove, sv_apply_removes, sv_apply_texts};
use crate::ids::{FileId, SourceRootId};
use crate::input::StateView;
use crate::navigation::spec_apply_atom;
use crate::resolve::{spec_local_resolve, spec_min_cover, spec_name_ref_ranges};
use crate::symbols::FileSymbolView;
use crate::text::TextRange;

verus! {

/// Revision monotonicity: applying a batch advances the revision by exactly
/// one, so over any run of batches the observed revisions are strictly
/// increasing and never repeat.
pub proof fn lemma_revisions_strictly_increase(revs: Seq<u64>)
    requires
        forall|i: int| 0 <= i < revs.len() - 1 ==> #[trigger] revs[i + 1] == revs[i] + 1,
    ensures
        forall|i: int, j: int| 0 <= i < j < revs.len() ==> revs[i] < revs[j],
{
    assert forall|i: int, j: int| 0 <= i < j < revs.len() implies revs[i] < revs[j] by {
        lemma_revision_gap(revs, i, j);
    }
}

proof fn lemma_revision_gap(revs: Seq<u64>, i: int, j: int)
    requires
        forall|q: int| 0 <= q < revs.len() - 1 ==> #[trigger] revs[q + 1] == revs[q] + 1,
        0 <= i < j < revs.len(),
    ensures
        revs[i] < revs[j],
    decreases j - i,
{
    if j == i + 1 {
        assert(revs[i + 1] == revs[i] + 1);
    } else {
        lemma_revision_gap(revs, i, j - 1);
        assert(revs[j - 1 + 1] == revs[j - 1] + 1);
    }
}

/// Removal leaves a tombstone: after removing a file from a root, the
/// file's text reads as empty and its path is gone from the root's file
/// set, while the id stays readable — its path and root membership are
/// untouched.
pub proof fn lemma_removal_leaves_tombstone(sv: StateView, root: SourceRootId, f: RemoveFileView)
    ensures
        sv_apply_remove(sv, root, f).text_of(f.file_id) == Seq::<char>::empty(),
        !sv_apply_remove(sv, root, f).files_of(root).contains_key(f.path),
        sv_apply_remove(sv, root, f).path_of(f.file_id) == sv.path_of(f.file_id),
        sv_apply_remove(sv, root, f).root_of(f.file_id) == sv.root_of(f.file_id),
{
}

/// A batch holding exactly one removal does exactly that removal.
pub proof fn lemma_remove_only_batch(sv: StateView, root: SourceRootId, f: RemoveFileView)
    ensures
        apply_change_spec(
            sv,
            ChangeView {
                new_roots: Seq::empty(),
                added: Seq::empty(),
                removed: seq![(root, f)],
                files_changed: Seq::empty(),
                libraries: Seq::empty(),
                crate_graph: None,
            },
        ) == sv_apply_remove(sv, root, f),
{
    let rem = seq![(root, f)];
    assert(rem.drop_last() =~= Seq::<(SourceRootId, RemoveFileView)>::empty());
    assert(rem.last() == (root, f));
    let c = ChangeView {
        new_roots: Seq::empty(),
        added: Seq::empty(),
        removed: rem,
        files_changed: Seq::empty(),
        libraries: Seq::empty(),
        crate_graph: None,
    };
    assert(sv_apply_new_roots(sv, c.new_roots) == sv);
    assert(sv_apply_adds(sv, c.added) == sv);
    assert(sv_apply_removes(sv, rem.drop_last()) == sv);
    assert(sv_apply_removes(sv, rem) == sv_apply_remove(sv, root, f));
    let after = sv_apply_remove(sv, root, f);
    assert(sv_apply_texts(after, c.files_changed) == after);
    assert(sv_apply_libraries(after, c.libraries) == after);
    assert(apply_change_spec(sv, c) == after);
}

/// Resolution precedence: when the reference under the cursor resolves
/// locally, that single binding is the whole result, whatever the symbol
/// index holds for the same name.
pub proof fn lemma_local_resolution_precedence(
    facts: SyntaxFacts,
    syms: Seq<FileSymbolView>,
    file_id: FileId,
    offset: u32,
    i: int,
    b: int,
)
    requires
        spec_min_cover(spec_name_ref_ranges(facts.name_refs@), offset) == Some(i),
        0 <= i < facts.name_refs@.len(),
        spec_local_resolve(facts.bindings@, facts.name_refs@[i].range) == Some(b),
        0 <= b < facts.bindings@.len(),
    ensures
        spec_approx_resolve(facts, syms, file_id, offset) matches Some(s) && {
            &&& s.0 == facts.name_refs@[i].range
            &&& s.1.len() == 1
            &&& s.1[0] == spec_local_target(file_id, facts.bindings@[b])
        },
{
}

/// Find-all-references soundness of count: a binding referenced N times in
/// its file yields exactly N + 1 ranges — its declaration and each
/// reference — regardless of how the result was assembled.
pub proof fn lemma_find_all_refs_count(facts: SyntaxFacts, file_id: FileId, offset: u32, b: int)
    requires
        spec_find_binding(facts, offset) == Some(b),
        0 <= b < facts.bindings@.len(),
    ensures
        spec_find_all_refs(facts, file_id, offset).len() == 1 + facts.bindings@[b].refs@.len(),
        spec_find_all_refs(facts, file_id, offset)[0] == (file_id, facts.bindings@[b].name_range),
        forall|j: int| 0 <= j < facts.bindings@[b].refs@.len()
            ==> spec_find_all_refs(facts, file_id, offset)[1 + j]
                == (file_id, facts.bindings@[b].refs@[j]),
{
}

/// Rename idempotence: replacing a range with exactly the characters it
/// already holds reproduces the text unchanged; so edits renaming a binding
/// to its existing name, applied in any order, leave the file identical.
pub proof fn lemma_rename_idempotent(text: Seq<char>, delete: TextRange, insert: Seq<char>)
    requires
        delete.wf(),
        delete.end <= text.len(),
        insert == text.subrange(delete.start as int, delete.end as int),
    ensures
        spec_apply_atom(text, delete, insert) == text,
{
    assert(spec_apply_atom(text, delete, insert) =~= text);
}

} // verus!
