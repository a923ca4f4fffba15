//! Diagnostics with fixes, type-at-range, and hover text.
use vstd::prelude::*;
use crate::facts::{NodeFact, Problem, SyntaxFacts, TypeFact, WorldFacts};
use crate::ids::{FileId, FilePosition, SourceRootId};
use crate::navigation::{
    AtomTextEdit, Diagnostic, FileSystemEdit, LocalEdit, NavigationTarget, NavigationTargetView,
    RangeInfo, Severity, SourceChange, TextEdit,
};
use crate::engine::{approx_resolve, spec_approx_resolve};
use crate::paths::{rel_join, spec_path_join};
use crate::resolve::{
    all_node_ranges, expr_ranges, min_containing, min_cover, node_ranges, spec_all_node_ranges,
    spec_expr_ranges, spec_min_containing, spec_min_cover, spec_node_ranges,
};
use crate::symbols::SyntaxKind;
use crate::text::TextRange;
use vstd::string::StringExecFns;

verus! {

/// The replacements an edit makes, as ranges and character sequences.
pub open spec fn atoms_view(atoms: Seq<AtomTextEdit>) -> Seq<(TextRange, Seq<char>)> {
    atoms.map_values(|a: AtomTextEdit| (a.delete, a.insert@))
}

/// A copy of a text edit with the same replacements.
fn dup_edit(edit: &TextEdit) -> (r: TextEdit)
    ensures
        atoms_view(r.atoms@) == atoms_view(edit.atoms@),
{
    let n = edit.atoms.len();
    let mut atoms: Vec<AtomTextEdit> = Vec::new();
    let mut i: usize = 0;
    while i < n
        invariant
            i <= n,
            n == edit.atoms@.len(),
            atoms@.len() == i,
            forall|j: int| 0 <= j < i ==> (#[trigger] atoms@[j]).delete == edit.atoms@[j].delete
                && atoms@[j].insert@ == edit.atoms@[j].insert@,
        decreases n - i,
    {
        atoms.push(AtomTextEdit {
            delete: edit.atoms[i].delete,
            insert: edit.atoms[i].insert.clone(),
        });
        i = i + 1;
    }
    let r = TextEdit { atoms };
    proof {
        assert(atoms_view(r.atoms@) =~= atoms_view(edit.atoms@));
    }
    r
}


/// What the diagnostics of one file must hold: the collaborator's
/// structural diagnostics in order, each fix wrapped for this file, then
/// one error per module problem with its filesystem fix.
pub open spec fn diagnostics_ok(
    r: Seq<Diagnostic>,
    facts: SyntaxFacts,
    file_id: FileId,
    source_root: SourceRootId,
) -> bool {
    &&& r.len() == facts.diagnostics@.len() + facts.problems@.len()
    &&& forall|i: int| 0 <= i < facts.diagnostics@.len() ==> {
            let d = facts.diagnostics@[i];
            &&& (#[trigger] r[i]).range == d.range
            &&& r[i].message@ == d.message@
            &&& r[i].severity == d.severity
            &&& match d.fix {
                Some(e) => r[i].fix matches Some(f) && {
                    &&& f.label@ == e.label@
                    &&& f.source_file_edits@.len() == 1
                    &&& f.source_file_edits@[0].file_id == file_id
                    &&& atoms_view(f.source_file_edits@[0].edit.atoms@) == atoms_view(e.edit.atoms@)
                    &&& f.file_system_edits@.len() == 0
                    &&& f.cursor_position == match e.cursor_position {
                        Some(o) => Some(FilePosition { file_id, offset: o }),
                        None => None::<FilePosition>,
                    }
                },
                None => r[i].fix is None,
            }
        }
    &&& forall|j: int| #![trigger r[facts.diagnostics@.len() + j]]
            0 <= j < facts.problems@.len() ==> {
            let p = facts.problems@[j];
            let k = facts.diagnostics@.len() + j;
            &&& r[k].range == p.name_range
            &&& r[k].severity == Severity::Error
            &&& match p.problem {
                Problem::UnresolvedModule { candidate } => {
                    &&& r[k].message@ == "unresolved module"@
                    &&& r[k].fix matches Some(f) && {
                        &&& f.label@ == "create module"@
                        &&& f.source_file_edits@.len() == 0
                        &&& f.file_system_edits@.len() == 1
                        &&& f.file_system_edits@[0] matches FileSystemEdit::CreateFile {
                            source_root: sr,
                            path,
                        } && sr == source_root && path@ == candidate@
                        &&& f.cursor_position is None
                    }
                },
                Problem::NotDirOwner { move_to, candidate } => {
                    &&& r[k].message@ == "can't declare module at this location"@
                    &&& r[k].fix matches Some(f) && {
                        &&& f.label@ == "move file and create module"@
                        &&& f.source_file_edits@.len() == 0
                        &&& f.file_system_edits@.len() == 2
                        &&& f.file_system_edits@[0] matches FileSystemEdit::MoveFile {
                            src,
                            dst_source_root,
                            dst_path,
                        } && src == file_id && dst_source_root == source_root
                            && dst_path@ == move_to@
                        &&& f.file_system_edits@[1] matches FileSystemEdit::CreateFile {
                            source_root: sr,
                            path,
                        } && sr == source_root && path@ == spec_path_join(move_to@, candidate@)
                        &&& f.cursor_position is None
                    }
                },
            }
        }
}

/// The diagnostics of one file: the editor-level collaborator's structural
/// diagnostics first, each fix wrapped as a single-file source change, then
/// one error per module-graph problem, with a filesystem fix: an unresolved
/// module gets a file created at its candidate path; a misplaced module
/// owner gets moved and the module file created beside it.
pub fn diagnostics_for(facts: &SyntaxFacts, file_id: FileId, source_root: SourceRootId) -> (r: Vec<
    Diagnostic,
>)
    ensures
        diagnostics_ok(r@, *facts, file_id, source_root),
{
    let nd = facts.diagnostics.len();
    let mut out: Vec<Diagnostic> = Vec::new();
    let mut i: usize = 0;
    while i < nd
        invariant
            i <= nd,
            nd == facts.diagnostics@.len(),
            out@.len() == i,
            forall|q: int| 0 <= q < i ==> {
                let d = facts.diagnostics@[q];
                &&& (#[trigger] out@[q]).range == d.range
                &&& out@[q].message@ == d.message@
                &&& out@[q].severity == d.severity
                &&& match d.fix {
                    Some(e) => out@[q].fix matches Some(f) && {
                        &&& f.label@ == e.label@
                        &&& f.source_file_edits@.len() == 1
                        &&& f.source_file_edits@[0].file_id == file_id
                        &&& atoms_view(f.source_file_edits@[0].edit.atoms@)
                            == atoms_view(e.edit.atoms@)
                        &&& f.file_system_edits@.len() == 0
                        &&& f.cursor_position == match e.cursor_position {
                            Some(o) => Some(FilePosition { file_id, offset: o }),
                            None => None::<FilePosition>,
                        }
                    },
                    None => out@[q].fix is None,
                }
            },
        decreases nd - i,
    {
        let d = &facts.diagnostics[i];
        let fix = match &d.fix {
            Some(e) => {
                let local = LocalEdit {
                    label: e.label.clone(),
                    edit: dup_edit(&e.edit),
                    cursor_position: e.cursor_position,
                };
                Some(SourceChange::from_local_edit(file_id, local))
            }
            None => None,
        };
        out.push(Diagnostic {
            message: d.message.clone(),
            range: d.range,
            fix,
            severity: d.severity,
        });
        i = i + 1;
    }

    let np = facts.problems.len();
    let mut j: usize = 0;
    while j < np
        invariant
            j <= np,
            np == facts.problems@.len(),
            nd == facts.diagnostics@.len(),
            out@.len() == nd + j,
            forall|q: int| 0 <= q < nd ==> {
                let d = facts.diagnostics@[q];
                &&& (#[trigger] out@[q]).range == d.range
                &&& out@[q].message@ == d.message@
                &&& out@[q].severity == d.severity
                &&& match d.fix {
                    Some(e) => out@[q].fix matches Some(f) && {
                        &&& f.label@ == e.label@
                        &&& f.source_file_edits@.len() == 1
                        &&& f.source_file_edits@[0].file_id == file_id
                        &&& atoms_view(f.source_file_edits@[0].edit.atoms@)
                            == atoms_view(e.edit.atoms@)
                        &&& f.file_system_edits@.len() == 0
                        &&& f.cursor_position == match e.cursor_position {
                            Some(o) => Some(FilePosition { file_id, offset: o }),
                            None => None::<FilePosition>,
                        }
                    },
                    None => out@[q].fix is None,
                }
            },
            forall|q: int| #![trigger out@[nd + q]] 0 <= q < j ==> {
                let p = facts.problems@[q];
                let k = nd + q;
                &&& out@[k].range == p.name_range
                &&& out@[k].severity == Severity::Error
                &&& match p.problem {
                    Problem::UnresolvedModule { candidate } => {
                        &&& out@[k].message@ == "unresolved module"@
                        &&& out@[k].fix matches Some(f) && {
                            &&& f.label@ == "create module"@
                            &&& f.source_file_edits@.len() == 0
                            &&& f.file_system_edits@.len() == 1
                            &&& f.file_system_edits@[0] matches FileSystemEdit::CreateFile {
                                source_root: sr,
                                path,
                            } && sr == source_root && path@ == candidate@
                            &&& f.cursor_position is None
                        }
                    },
                    Problem::NotDirOwner { move_to, candidate } => {
                        &&& out@[k].message@ == "can't declare module at this location"@
                        &&& out@[k].fix matches Some(f) && {
                            &&& f.label@ == "move file and create module"@
                            &&& f.source_file_edits@.len() == 0
                            &&& f.file_system_edits@.len() == 2
                            &&& f.file_system_edits@[0] matches FileSystemEdit::MoveFile {
                                src,
                                dst_source_root,
                                dst_path,
                            } && src == file_id && dst_source_root == source_root
                                && dst_path@ == move_to@
                            &&& f.file_system_edits@[1] matches FileSystemEdit::CreateFile {
                                source_root: sr,
                                path,
                            } && sr == source_root && path@ == spec_path_join(move_to@, candidate@)
                            &&& f.cursor_position is None
                        }
                    },
                }
            },
        decreases np - j,
    {
        let p = &facts.problems[j];
        let diag = match &p.problem {
            Problem::UnresolvedModule { candidate } => {
                let mut file_system_edits: Vec<FileSystemEdit> = Vec::new();
                file_system_edits.push(FileSystemEdit::CreateFile {
                    source_root,
                    path: candidate.clone(),
                });
                let fix = SourceChange {
                    label: String::from_str("create module"),
                    source_file_edits: Vec::new(),
                    file_system_edits,
                    cursor_position: None,
                };
                Diagnostic {
                    range: p.name_range,
                    message: String::from_str("unresolved module"),
                    severity: Severity::Error,
                    fix: Some(fix),
                }
            }
            Problem::NotDirOwner { move_to, candidate } => {
                let mut file_system_edits: Vec<FileSystemEdit> = Vec::new();
                file_system_edits.push(FileSystemEdit::MoveFile {
                    src: file_id,
                    dst_source_root: source_root,
                    dst_path: move_to.clone(),
                });
                file_system_edits.push(FileSystemEdit::CreateFile {
                    source_root,
                    path: rel_join(move_to.as_str(), candidate.as_str()),
                });
                let fix = SourceChange {
                    label: String::from_str("move file and create module"),
                    source_file_edits: Vec::new(),
                    file_system_edits,
                    cursor_position: None,
                };
                Diagnostic {
                    range: p.name_range,
                    message: String::from_str("can't declare module at this location"),
                    severity: Severity::Error,
                    fix: Some(fix),
                }
            }
        };
        out.push(diag);
        j = j + 1;
    }
    out
}

/// The first inference entry for exactly this range.
pub open spec fn spec_type_lookup(ts: Seq<TypeFact>, range: TextRange) -> Option<int>
    decreases ts.len(),
{
    if ts.len() == 0 {
        None
    } else if ts.first().range == range {
        Some(0int)
    } else {
        match spec_type_lookup(ts.drop_first(), range) {
            Some(i) => Some(i + 1),
            None => None,
        }
    }
}

proof fn lemma_type_lookup_at(ts: Seq<TypeFact>, range: TextRange, i: int)
    requires
        0 <= i < ts.len(),
        ts[i].range == range,
        forall|j: int| 0 <= j < i ==> ts[j].range != range,
    ensures
        spec_type_lookup(ts, range) == Some(i),
    decreases ts.len(),
{
    if i > 0 {
        lemma_type_lookup_at(ts.drop_first(), range, i - 1);
    }
}

proof fn lemma_type_lookup_absent(ts: Seq<TypeFact>, range: TextRange)
    requires
        forall|j: int| 0 <= j < ts.len() ==> ts[j].range != range,
    ensures
        spec_type_lookup(ts, range) == None::<int>,
    decreases ts.len(),
{
    if ts.len() > 0 {
        lemma_type_lookup_absent(ts.drop_first(), range);
    }
}

/// Type-at-range: the smallest node fully covering the range, if it sits
/// inside a function definition, looked up in the inference results; absent
/// inference data yields no result, not an error.
pub open spec fn spec_type_of(facts: SyntaxFacts, range: TextRange) -> Option<Seq<char>> {
    match spec_min_containing(spec_all_node_ranges(facts.nodes@), range) {
        None => None,
        Some(n) => {
            let nrange = facts.nodes@[n].range;
            match spec_min_containing(spec_node_ranges(facts.nodes@, SyntaxKind::FnDef), nrange) {
                None => None,
                Some(_) => match spec_type_lookup(facts.types@, nrange) {
                    Some(t) => Some(facts.types@[t].ty@),
                    None => None,
                },
            }
        },
    }
}

/// The inferred type of the smallest node covering the range.
#[verifier::loop_isolation(false)]
pub fn type_of_range(facts: &SyntaxFacts, range: &TextRange) -> (r: Option<String>)
    requires
        range.wf(),
    ensures
        match r {
            Some(t) => spec_type_of(*facts, *range) == Some(t@),
            None => spec_type_of(*facts, *range) is None,
        },
{
    let nranges = all_node_ranges(&facts.nodes);
    let n = match min_containing(&nranges, range) {
        Some(n) => n,
        None => {
            return None;
        }
    };
    let nrange = facts.nodes[n].range;
    proof {
        assert(nrange.wf());
    }
    let fns = node_ranges(&facts.nodes, SyntaxKind::FnDef);
    if min_containing(&fns, &nrange).is_none() {
        return None;
    }
    let nt = facts.types.len();
    let mut t: usize = 0;
    while t < nt
        invariant
            t <= nt,
            nt == facts.types@.len(),
            forall|j: int| 0 <= j < t ==> facts.types@[j].range != nrange,
        decreases nt - t,
    {
        if facts.types[t].range == nrange {
            proof {
                lemma_type_lookup_at(facts.types@, nrange, t as int);
            }
            return Some(facts.types[t].ty.clone());
        }
        t = t + 1;
    }
    proof {
        lemma_type_lookup_absent(facts.types@, nrange);
    }
    None
}

/// A one-line signature for a declaration node: its keyword and its name.
pub open spec fn spec_description(n: NodeFact) -> Option<Seq<char>> {
    match n.name {
        None => None,
        Some(name) => match n.kind {
            SyntaxKind::FnDef => Some("fn "@ + name@),
            SyntaxKind::StructDef => Some("struct "@ + name@),
            SyntaxKind::EnumDef => Some("enum "@ + name@),
            SyntaxKind::TraitDef => Some("trait "@ + name@),
            SyntaxKind::Module => Some("mod "@ + name@),
            SyntaxKind::TypeDef => Some("type "@ + name@),
            SyntaxKind::ConstDef => Some("const "@ + name@),
            SyntaxKind::StaticDef => Some("static "@ + name@),
            _ => None,
        },
    }
}

fn description_of(n: &NodeFact) -> (r: Option<String>)
    ensures
        match r {
            Some(s) => spec_description(*n) == Some(s@),
            None => spec_description(*n) is None,
        },
{
    let name = match &n.name {
        Some(name) => name,
        None => {
            return None;
        }
    };
    let prefix: &str = match n.kind {
        SyntaxKind::FnDef => "fn ",
        SyntaxKind::StructDef => "struct ",
        SyntaxKind::EnumDef => "enum ",
        SyntaxKind::TraitDef => "trait ",
        SyntaxKind::Module => "mod ",
        SyntaxKind::TypeDef => "type ",
        SyntaxKind::ConstDef => "const ",
        SyntaxKind::StaticDef => "static ",
        _ => {
            return None;
        }
    };
    Some(String::from_str(prefix).concat(name.as_str()))
}

/// The doc comment a node carries, when it is non-empty.
pub open spec fn spec_docs(n: NodeFact) -> Option<Seq<char>> {
    match n.docs {
        Some(d) => Some(d@),
        None => None,
    }
}

/// Signature and doc text joined for display: the signature fenced as code,
/// the docs below; a missing half is simply omitted; both missing is no
/// text.
pub open spec fn spec_doc_text(desc: Option<Seq<char>>, docs: Option<Seq<char>>) -> Option<
    Seq<char>,
> {
    match (desc, docs) {
        (Some(d), Some(o)) => Some("```rust\n"@ + d + "\n```\n\n"@ + o),
        (Some(d), None) => Some("```rust\n"@ + d + "\n```"@),
        (None, Some(o)) => Some(o),
        (None, None) => None,
    }
}

/// The first node with exactly this kind and range.
pub open spec fn spec_node_for(nodes: Seq<NodeFact>, kind: SyntaxKind, range: TextRange) -> Option<
    int,
>
    decreases nodes.len(),
{
    if nodes.len() == 0 {
        None
    } else if nodes.first().kind == kind && nodes.first().range == range {
        Some(0int)
    } else {
        match spec_node_for(nodes.drop_first(), kind, range) {
            Some(i) => Some(i + 1),
            None => None,
        }
    }
}

proof fn lemma_node_for_at(nodes: Seq<NodeFact>, kind: SyntaxKind, range: TextRange, i: int)
    requires
        0 <= i < nodes.len(),
        nodes[i].kind == kind && nodes[i].range == range,
        forall|j: int| 0 <= j < i ==> !(nodes[j].kind == kind && nodes[j].range == range),
    ensures
        spec_node_for(nodes, kind, range) == Some(i),
    decreases nodes.len(),
{
    if i > 0 {
        lemma_node_for_at(nodes.drop_first(), kind, range, i - 1);
    }
}

proof fn lemma_node_for_absent(nodes: Seq<NodeFact>, kind: SyntaxKind, range: TextRange)
    requires
        forall|j: int| 0 <= j < nodes.len() ==> !(nodes[j].kind == kind && nodes[j].range == range),
    ensures
        spec_node_for(nodes, kind, range) == None::<int>,
    decreases nodes.len(),
{
    if nodes.len() > 0 {
        lemma_node_for_absent(nodes.drop_first(), kind, range);
    }
}

/// The display text for one navigation target: found by kind and range in
/// its file's facts, formatted as signature plus docs.
pub open spec fn spec_doc_text_for(
    files: Seq<(FileId, SyntaxFacts)>,
    nav: NavigationTargetView,
) -> Option<Seq<char>> {
    match crate::facts::spec_facts_of(files, nav.file_id) {
        None => None,
        Some(fi) => {
            let nodes = files[fi].1.nodes@;
            match spec_node_for(nodes, nav.kind, nav.range) {
                None => None,
                Some(ni) => spec_doc_text(spec_description(nodes[ni]), spec_docs(nodes[ni])),
            }
        },
    }
}

#[verifier::loop_isolation(false)]
fn doc_text_for(world: &WorldFacts, nav: &NavigationTarget) -> (r: Option<String>)
    ensures
        match r {
            Some(s) => spec_doc_text_for(world.files@, nav@) == Some(s@),
            None => spec_doc_text_for(world.files@, nav@) is None,
        },
{
    let facts = match world.facts_of(nav.file_id) {
        Some(f) => f,
        None => {
            return None;
        }
    };
    let nn = facts.nodes.len();
    let mut found: Option<usize> = None;
    let mut i: usize = 0;
    while i < nn
        invariant
            i <= nn,
            nn == facts.nodes@.len(),
            found is None,
            forall|j: int| 0 <= j < i
                ==> !(facts.nodes@[j].kind == nav.kind && facts.nodes@[j].range == nav.range),
        decreases nn - i,
    {
        if facts.nodes[i].kind == nav.kind && facts.nodes[i].range == nav.range {
            proof {
                lemma_node_for_at(facts.nodes@, nav.kind, nav.range, i as int);
            }
            let node = &facts.nodes[i];
            let desc = description_of(node);
            let docs = match &node.docs {
                Some(d) => Some(d.clone()),
                None => None,
            };
            return match (desc, docs) {
                (Some(d), Some(o)) => Some(
                    String::from_str("```rust\n").concat(d.as_str()).concat("\n```\n\n").concat(
                        o.as_str(),
                    ),
                ),
                (Some(d), None) => Some(
                    String::from_str("```rust\n").concat(d.as_str()).concat("\n```"),
                ),
                (None, Some(o)) => Some(o),
                (None, None) => None,
            };
        }
        i = i + 1;
    }
    proof {
        lemma_node_for_absent(facts.nodes@, nav.kind, nav.range);
    }
    None
}

/// The display texts of the targets that have one, in target order.
pub open spec fn spec_hover_texts(
    files: Seq<(FileId, SyntaxFacts)>,
    targets: Seq<NavigationTargetView>,
) -> Seq<Seq<char>>
    decreases targets.len(),
{
    if targets.len() == 0 {
        Seq::empty()
    } else {
        let rest = spec_hover_texts(files, targets.drop_last());
        match spec_doc_text_for(files, targets.last()) {
            Some(t) => rest.push(t),
            None => rest,
        }
    }
}

/// Sections joined with a horizontal rule between them.
pub open spec fn spec_join_sections(texts: Seq<Seq<char>>) -> Seq<char>
    decreases texts.len(),
{
    if texts.len() == 0 {
        Seq::empty()
    } else if texts.len() == 1 {
        texts[0]
    } else {
        spec_join_sections(texts.drop_last()) + "\n\n---\n"@ + texts.last()
    }
}

/// Hover: approximate resolution first; when that yields definitions, their
/// signature-plus-docs texts joined with rules, at the reference's range.
/// Only when resolution yields nothing does hover fall back to the inferred
/// type of the expression under the cursor, at that expression's range.
pub open spec fn spec_hover(
    facts: SyntaxFacts,
    files: Seq<(FileId, SyntaxFacts)>,
    syms: Seq<crate::symbols::FileSymbolView>,
    file_id: FileId,
    offset: u32,
) -> Option<(TextRange, Seq<char>)> {
    match spec_approx_resolve(facts, syms, file_id, offset) {
        Some(s) => {
            let texts = spec_hover_texts(files, s.1);
            if texts.len() == 0 {
                None
            } else {
                Some((s.0, spec_join_sections(texts)))
            }
        },
        None => match spec_min_cover(spec_expr_ranges(facts.nodes@), offset) {
            Some(e) => {
                let erange = facts.nodes@[e].range;
                match spec_type_of(facts, erange) {
                    Some(t) => Some((erange, t)),
                    None => None,
                }
            },
            None => None,
        },
    }
}

/// A short text describing the element at the position.
pub fn hover_at(facts: &SyntaxFacts, world: &WorldFacts, file_id: FileId, offset: u32) -> (r:
    Option<RangeInfo<String>>)
    ensures
        match r {
            Some(ri) => {
                &&& spec_hover(*facts, world.files@, world.index@, file_id, offset) matches Some(h)
                &&& ri.range == h.0
                &&& ri.info@ == h.1
            },
            None => spec_hover(*facts, world.files@, world.index@, file_id, offset) is None,
        },
{
    match approx_resolve(facts, &world.index, file_id, offset) {
        Some(rr) => {
            let ghost targets = rr.resolves_to@.map_values(|t: NavigationTarget| t@);
            let nt = rr.resolves_to.len();
            let mut texts: Vec<String> = Vec::new();
            let mut k: usize = 0;
            while k < nt
                invariant
                    k <= nt,
                    nt == rr.resolves_to@.len(),
                    targets == rr.resolves_to@.map_values(|t: NavigationTarget| t@),
                    texts@.map_values(|s: String| s@)
                        == spec_hover_texts(world.files@, targets.take(k as int)),
                decreases nt - k,
            {
                proof {
                    assert(targets.take(k + 1 as int).drop_last() =~= targets.take(k as int));
                    assert(targets.take(k + 1 as int).last() == targets[k as int]);
                }
                match doc_text_for(world, &rr.resolves_to[k]) {
                    Some(t) => {
                        texts.push(t);
                        proof {
                            assert(texts@.map_values(|s: String| s@)
                                =~= spec_hover_texts(world.files@, targets.take(k + 1 as int)));
                        }
                    }
                    None => {
                        proof {
                            assert(texts@.map_values(|s: String| s@)
                                =~= spec_hover_texts(world.files@, targets.take(k + 1 as int)));
                        }
                    }
                }
                k = k + 1;
            }
            proof {
                assert(targets.take(nt as int) =~= targets);
            }
            if texts.len() == 0 {
                return None;
            }
            let ghost texts_v = texts@.map_values(|s: String| s@);
            let mut joined = texts[0].clone();
            let n = texts.len();
            let mut i: usize = 1;
            proof {
                assert(texts_v.take(1) =~= seq![texts_v[0]]);
            }
            while i < n
                invariant
                    1 <= i <= n,
                    n == texts@.len(),
                    n >= 1,
                    texts_v == texts@.map_values(|s: String| s@),
                    joined@ == spec_join_sections(texts_v.take(i as int)),
                decreases n - i,
            {
                proof {
                    assert(texts_v.take(i + 1 as int).drop_last() =~= texts_v.take(i as int));
                    assert(texts_v.take(i + 1 as int).last() == texts_v[i as int]);
                }
                joined = joined.concat("\n\n---\n").concat(texts[i].as_str());
                i = i + 1;
            }
            proof {
                assert(texts_v.take(n as int) =~= texts_v);
            }
            Some(RangeInfo::new(rr.reference_range, joined))
        }
        None => {
            let exprs = expr_ranges(&facts.nodes);
            match min_cover(&exprs, offset) {
                Some(e) => {
                    let erange = facts.nodes[e].range;
                    proof {
                        assert(erange.wf());
                    }
                    match type_of_range(facts, &erange) {
                        Some(t) => Some(RangeInfo::new(erange, t)),
                        None => None,
                    }
                }
                None => None,
            }
        }
    }
}

} // verus!
