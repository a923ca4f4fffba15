//! The resolution algorithms: cursor position to definition, to reference
//! set, to rename edits, and to call-parameter slot. Each is a pure function
//! of the collaborator facts, the symbol index, and the file text.
use vstd::prelude::*;
use crate::facts::{BindingFact, CallFact, ModTarget, SyntaxFacts};
use crate::ids::FileId;
use crate::navigation::{
    LocalSyntaxPtr, NavigationTarget, NavigationTargetView, ReferenceResolution, SourceFileEdit,
    spec_target_of_symbol, TextEditBuilder,
};
use crate::resolve::{
    binding_ranges, call_ranges, exact_lookup, local_resolve, min_cover, mod_decl_ranges,
    name_ref_ranges, spec_binding_ranges, spec_call_ranges, spec_exact_lookup, spec_local_resolve,
    spec_min_cover, spec_mod_decl_ranges, spec_name_ref_ranges,
};
use crate::symbols::{FileSymbol, FileSymbolView, FnSignatureInfo, FnSignatureView, SymbolIndex, SyntaxKind};
use crate::text::TextRange;
use vstd::string::StrSliceExecFns;

verus! {

/// How many index hits an exact lookup considers.
pub open spec fn lookup_limit() -> int {
    4
}

/// The target an exact local resolution yields: the binding pattern itself,
/// with its pointer, since scope resolution proved it.
pub open spec fn spec_local_target(file_id: FileId, b: BindingFact) -> NavigationTargetView {
    NavigationTargetView {
        file_id,
        name: b.name@,
        kind: SyntaxKind::Name,
        range: b.pat_range,
        ptr: Some(LocalSyntaxPtr { kind: SyntaxKind::BindPat, range: b.pat_range }),
    }
}

/// The target a `mod name;` declaration resolves to: the pulled-in module
/// file, with a synthetic empty range.
pub open spec fn spec_module_target(t: ModTarget) -> NavigationTargetView {
    NavigationTargetView {
        file_id: t.file_id,
        name: t.name@,
        kind: SyntaxKind::Module,
        range: TextRange { start: 0, end: 0 },
        ptr: None,
    }
}

/// Approximate symbol resolution. A name reference under the cursor is
/// resolved locally first; a local hit is authoritative and alone. Otherwise
/// the reference's text is looked up exactly in the index, capped at four
/// hits. A `mod name;` declaration under the cursor resolves to its target
/// module file. Anything else yields no result.
pub open spec fn spec_approx_resolve(
    facts: SyntaxFacts,
    syms: Seq<FileSymbolView>,
    file_id: FileId,
    offset: u32,
) -> Option<(TextRange, Seq<NavigationTargetView>)> {
    match spec_min_cover(spec_name_ref_ranges(facts.name_refs@), offset) {
        Some(i) => {
            let nr = facts.name_refs@[i];
            match spec_local_resolve(facts.bindings@, nr.range) {
                Some(b) => Some((nr.range, seq![spec_local_target(file_id, facts.bindings@[b])])),
                None => Some((
                    nr.range,
                    spec_exact_lookup(syms, nr.text@, lookup_limit()).map_values(
                        |s: FileSymbolView| spec_target_of_symbol(s),
                    ),
                )),
            }
        },
        None => match spec_min_cover(spec_mod_decl_ranges(facts.mod_decls@), offset) {
            Some(i) => {
                let d = facts.mod_decls@[i];
                if d.has_semi {
                    match d.target {
                        Some(t) => Some((d.name_range, seq![spec_module_target(t)])),
                        None => None,
                    }
                } else {
                    None
                }
            },
            None => None,
        },
    }
}

/// Resolves the reference or declared name at the offset to definitions.
pub fn approx_resolve(
    facts: &SyntaxFacts,
    index: &SymbolIndex,
    file_id: FileId,
    offset: u32,
) -> (r: Option<ReferenceResolution>)
    ensures
        match r {
            Some(rr) => {
                &&& spec_approx_resolve(*facts, index@, file_id, offset) matches Some(s)
                &&& rr.reference_range == s.0
                &&& rr.resolves_to@.map_values(|t: NavigationTarget| t@) == s.1
            },
            None => spec_approx_resolve(*facts, index@, file_id, offset) is None,
        },
{
    let nr_ranges = name_ref_ranges(&facts.name_refs);
    match min_cover(&nr_ranges, offset) {
        Some(i) => {
            let nr_range = facts.name_refs[i].range;
            let mut rr = ReferenceResolution::new(nr_range);
            match local_resolve(&facts.bindings, &nr_range) {
                Some(b) => {
                    let binding = &facts.bindings[b];
                    rr.resolves_to.push(NavigationTarget {
                        file_id,
                        name: binding.name.clone(),
                        kind: SyntaxKind::Name,
                        range: binding.pat_range,
                        ptr: Some(LocalSyntaxPtr {
                            kind: SyntaxKind::BindPat,
                            range: binding.pat_range,
                        }),
                    });
                    proof {
                        assert(rr.resolves_to@.map_values(|t: NavigationTarget| t@)
                            =~= seq![spec_local_target(file_id, facts.bindings@[b as int])]);
                    }
                    Some(rr)
                }
                None => {
                    let hits = exact_lookup(index, &facts.name_refs[i].text, 4);
                    let n = hits.len();
                    let mut k: usize = 0;
                    while k < n
                        invariant
                            k <= n,
                            n == hits@.len(),
                            rr.reference_range == nr_range,
                            rr.resolves_to@.len() == k,
                            forall|j: int| 0 <= j < k ==> rr.resolves_to@[j]@
                                == spec_target_of_symbol(hits@[j]@),
                        decreases n - k,
                    {
                        rr.resolves_to.push(NavigationTarget::from_symbol(&hits[k]));
                        k = k + 1;
                    }
                    proof {
                        assert(rr.resolves_to@.map_values(|t: NavigationTarget| t@)
                            =~= hits@.map_values(|s: FileSymbol| s@).map_values(
                                |s: FileSymbolView| spec_target_of_symbol(s)));
                    }
                    Some(rr)
                }
            }
        }
        None => {
            let md_ranges = mod_decl_ranges(&facts.mod_decls);
            match min_cover(&md_ranges, offset) {
                Some(i) => {
                    let d = &facts.mod_decls[i];
                    if d.has_semi {
                        match &d.target {
                            Some(t) => {
                                let mut rr = ReferenceResolution::new(d.name_range);
                                rr.resolves_to.push(NavigationTarget {
                                    file_id: t.file_id,
                                    name: t.name.clone(),
                                    kind: SyntaxKind::Module,
                                    range: TextRange::zero(),
                                    ptr: None,
                                });
                                proof {
                                    assert(rr.resolves_to@.map_values(|t: NavigationTarget| t@)
                                        =~= seq![spec_module_target(
                                            facts.mod_decls@[i as int].target.unwrap(),
                                        )]);
                                }
                                Some(rr)
                            }
                            None => None,
                        }
                    } else {
                        None
                    }
                }
                None => None,
            }
        }
    }
}

/// The binding find-all-references targets: the binding pattern under the
/// cursor, or else the one the name reference under the cursor locally
/// resolves to. No index fallback: this operation is sound, not approximate.
pub open spec fn spec_find_binding(facts: SyntaxFacts, offset: u32) -> Option<int> {
    match spec_min_cover(spec_binding_ranges(facts.bindings@), offset) {
        Some(i) => Some(i),
        None => match spec_min_cover(spec_name_ref_ranges(facts.name_refs@), offset) {
            Some(nr) => spec_local_resolve(facts.bindings@, facts.name_refs@[nr].range),
            None => None,
        },
    }
}

/// All references of the binding at the cursor: the declaration's name range
/// first, then every reference range the scope builder reports, all within
/// the queried file.
pub open spec fn spec_find_all_refs(
    facts: SyntaxFacts,
    file_id: FileId,
    offset: u32,
) -> Seq<(FileId, TextRange)> {
    match spec_find_binding(facts, offset) {
        None => Seq::empty(),
        Some(b) => seq![(file_id, facts.bindings@[b].name_range)]
            + facts.bindings@[b].refs@.map_values(|r: TextRange| (file_id, r)),
    }
}

/// Finds all usages of the binding at the offset. When a binding is found
/// with N references, the result holds exactly N + 1 ranges: the declaration
/// and each reference.
pub fn find_all_refs_at(facts: &SyntaxFacts, file_id: FileId, offset: u32) -> (r: Vec<
    (FileId, TextRange),
>)
    ensures
        r@ == spec_find_all_refs(*facts, file_id, offset),
        spec_find_binding(*facts, offset) matches Some(b)
            ==> r@.len() == 1 + facts.bindings@[b].refs@.len(),
        spec_find_binding(*facts, offset) is None ==> r@.len() == 0,
{
    let b_ranges = binding_ranges(&facts.bindings);
    let found: Option<usize> = match min_cover(&b_ranges, offset) {
        Some(i) => Some(i),
        None => {
            let nr_ranges = name_ref_ranges(&facts.name_refs);
            match min_cover(&nr_ranges, offset) {
                Some(nr) => local_resolve(&facts.bindings, &facts.name_refs[nr].range),
                None => None,
            }
        }
    };
    let mut out: Vec<(FileId, TextRange)> = Vec::new();
    match found {
        None => out,
        Some(b) => {
            let binding = &facts.bindings[b];
            out.push((file_id, binding.name_range));
            let n = binding.refs.len();
            let mut k: usize = 0;
            while k < n
                invariant
                    k <= n,
                    n == binding.refs@.len(),
                    binding == &facts.bindings@[b as int],
                    out@.len() == 1 + k,
                    out@[0] == (file_id, binding.name_range),
                    forall|j: int| 0 <= j < k ==> out@[1 + j] == (file_id, binding.refs@[j]),
                decreases n - k,
            {
                out.push((file_id, binding.refs[k]));
                k = k + 1;
            }
            proof {
                assert(out@ =~= spec_find_all_refs(*facts, file_id, offset));
            }
            out
        }
    }
}

/// The edits renaming the binding at the offset: one single-range
/// replacement per reported range, each inserting the new name. Zero edits
/// mean "nothing to rename", not an error.
pub fn rename_at(facts: &SyntaxFacts, file_id: FileId, offset: u32, new_name: &str) -> (r: Vec<
    SourceFileEdit,
>)
    ensures
        ({
            let refs = spec_find_all_refs(*facts, file_id, offset);
            &&& r@.len() == refs.len()
            &&& forall|i: int| 0 <= i < refs.len() ==> {
                &&& (#[trigger] r@[i]).file_id == refs[i].0
                &&& r@[i].edit.atoms@.len() == 1
                &&& r@[i].edit.atoms@[0].delete == refs[i].1
                &&& r@[i].edit.atoms@[0].insert@ == new_name@
            }
        }),
{
    let ghost refs_spec = spec_find_all_refs(*facts, file_id, offset);
    let refs = find_all_refs_at(facts, file_id, offset);
    let n = refs.len();
    let mut out: Vec<SourceFileEdit> = Vec::new();
    let mut i: usize = 0;
    while i < n
        invariant
            i <= n,
            n == refs@.len(),
            refs@ == refs_spec,
            out@.len() == i,
            forall|j: int| 0 <= j < i ==> {
                &&& (#[trigger] out@[j]).file_id == refs_spec[j].0
                &&& out@[j].edit.atoms@.len() == 1
                &&& out@[j].edit.atoms@[0].delete == refs_spec[j].1
                &&& out@[j].edit.atoms@[0].insert@ == new_name@
            },
        decreases n - i,
    {
        let mut builder = TextEditBuilder::new();
        builder.replace(refs[i].1, String::from_str(new_name));
        out.push(SourceFileEdit { file_id: refs[i].0, edit: builder.finish() });
        i = i + 1;
    }
    out
}

/// The commas in a sequence of characters.
pub open spec fn spec_commas(s: Seq<char>) -> int {
    s.filter(|c: char| c == ',').len() as int
}

proof fn lemma_commas_push(s: Seq<char>, x: char)
    ensures
        spec_commas(s.push(x)) == if x == ',' {
            spec_commas(s) + 1
        } else {
            spec_commas(s)
        },
{
    assert(s.push(x).drop_last() =~= s);
    reveal(Seq::filter);
}

/// The comma count between two offsets of a text, both clamped into range.
pub open spec fn spec_commas_between(text: Seq<char>, from: u32, to: u32) -> int {
    let end = if to as int <= text.len() { to as int } else { text.len() as int };
    let start = if from as int <= end { from as int } else { end };
    spec_commas(text.subrange(start, end))
}

/// Counts the comma tokens in the raw text between two offsets. A textual
/// heuristic: commas inside nested calls or string literals count too; this
/// approximation is part of the call-parameter contract, not a defect.
pub fn commas_between(text: &str, from: u32, to: u32) -> (r: u32)
    ensures
        r as int == spec_commas_between(text@, from, to),
        r <= to,
{
    let len = text.unicode_len();
    let end: usize = if (to as usize) <= len { to as usize } else { len };
    let start: usize = if (from as usize) <= end { from as usize } else { end };
    let mut count: u32 = 0;
    let mut j = start;
    while j < end
        invariant
            start <= j <= end,
            end <= text@.len(),
            end <= to as usize,
            count as int == spec_commas(text@.subrange(start as int, j as int)),
            count as int <= j - start,
        decreases end - j,
    {
        let c = text.get_char(j);
        proof {
            assert(text@.subrange(start as int, j + 1 as int).drop_last()
                =~= text@.subrange(start as int, j as int));
            assert(text@.subrange(start as int, j + 1 as int).last() == text@[j as int]);
            assert(text@.subrange(start as int, j + 1 as int)
                =~= text@.subrange(start as int, j as int).push(text@[j as int]));
            lemma_commas_push(text@.subrange(start as int, j as int), text@[j as int]);
        }
        if c == ',' {
            count = count + 1;
        }
        j = j + 1;
    }
    proof {
        assert(spec_commas_between(text@, from, to)
            == spec_commas(text@.subrange(start as int, end as int)));
    }
    count
}

/// The call the cursor is in: the smallest enclosing plain call if any,
/// else the smallest enclosing method call.
pub open spec fn spec_call_at(calls: Seq<CallFact>, offset: u32) -> Option<int> {
    match spec_min_cover(spec_call_ranges(calls, SyntaxKind::CallExpr), offset) {
        Some(i) => Some(i),
        None => spec_min_cover(spec_call_ranges(calls, SyntaxKind::MethodCallExpr), offset),
    }
}

/// The first index hit that is a function definition with a known signature.
pub open spec fn spec_first_fn(hits: Seq<FileSymbolView>) -> Option<int>
    decreases hits.len(),
{
    if hits.len() == 0 {
        None
    } else if hits.first().kind == SyntaxKind::FnDef && hits.first().signature is Some {
        Some(0int)
    } else {
        match spec_first_fn(hits.drop_first()) {
            Some(i) => Some(i + 1),
            None => None,
        }
    }
}

proof fn lemma_first_fn_at(hits: Seq<FileSymbolView>, i: int)
    requires
        0 <= i < hits.len(),
        hits[i].kind == SyntaxKind::FnDef && hits[i].signature is Some,
        forall|j: int| 0 <= j < i
            ==> !(hits[j].kind == SyntaxKind::FnDef && hits[j].signature is Some),
    ensures
        spec_first_fn(hits) == Some(i),
    decreases hits.len(),
{
    if i > 0 {
        lemma_first_fn_at(hits.drop_first(), i - 1);
    }
}

proof fn lemma_first_fn_absent(hits: Seq<FileSymbolView>)
    requires
        forall|j: int| 0 <= j < hits.len()
            ==> !(hits[j].kind == SyntaxKind::FnDef && hits[j].signature is Some),
    ensures
        spec_first_fn(hits) == None::<int>,
    decreases hits.len(),
{
    if hits.len() > 0 {
        lemma_first_fn_absent(hits.drop_first());
    }
}

/// Which parameter slot the cursor sits on. With exactly one parameter and
/// no receiver the slot is 0. With more, the commas between the argument
/// list's start and the cursor are counted, plus one for a method call's
/// implicit receiver in slot 0. A single-parameter method call and a
/// zero-parameter function report no slot.
pub open spec fn spec_current_param(
    sig: FnSignatureView,
    arg_start: Option<u32>,
    text: Seq<char>,
    offset: u32,
) -> Option<int> {
    let num = sig.params.len();
    if num == 1 && !sig.has_self {
        Some(0int)
    } else if num > 1 {
        match arg_start {
            Some(st) => Some(
                spec_commas_between(text, st, offset) + if sig.has_self {
                    1int
                } else {
                    0int
                },
            ),
            None => None,
        }
    } else {
        None
    }
}

/// Call-parameter resolution: the signature of the called function, found
/// by exact index lookup of the callee name, and the cursor's parameter
/// slot within the call.
pub open spec fn spec_resolve_callable(
    facts: SyntaxFacts,
    syms: Seq<FileSymbolView>,
    text: Seq<char>,
    offset: u32,
) -> Option<(FnSignatureView, Option<int>)> {
    match spec_call_at(facts.calls@, offset) {
        None => None,
        Some(c) => {
            let call = facts.calls@[c];
            match call.callee {
                None => None,
                Some(name) => {
                    let hits = spec_exact_lookup(syms, name@, lookup_limit());
                    match spec_first_fn(hits) {
                        None => None,
                        Some(k) => {
                            let sig = hits[k].signature.unwrap();
                            Some((
                                sig,
                                spec_current_param(sig, call.arg_list_start, text, offset),
                            ))
                        },
                    }
                },
            }
        },
    }
}

/// Resolves the call around the cursor to a signature and parameter slot.
#[verifier::loop_isolation(false)]
pub fn resolve_callable_at(
    facts: &SyntaxFacts,
    index: &SymbolIndex,
    text: &str,
    offset: u32,
) -> (r: Option<(FnSignatureInfo, Option<usize>)>)
    requires
        offset < u32::MAX,
    ensures
        match r {
            Some(p) => {
                &&& spec_resolve_callable(*facts, index@, text@, offset) matches Some(s)
                &&& p.0@ == s.0
                &&& match (p.1, s.1) {
                    (Some(a), Some(b)) => a as int == b,
                    (None, None) => true,
                    _ => false,
                }
            },
            None => spec_resolve_callable(*facts, index@, text@, offset) is None,
        },
{
    let plain = call_ranges(&facts.calls, SyntaxKind::CallExpr);
    let c = match min_cover(&plain, offset) {
        Some(i) => Some(i),
        None => {
            let methods = call_ranges(&facts.calls, SyntaxKind::MethodCallExpr);
            min_cover(&methods, offset)
        }
    };
    let ci = match c {
        Some(i) => i,
        None => {
            return None;
        }
    };
    let call = &facts.calls[ci];
    let name = match &call.callee {
        Some(n) => n,
        None => {
            return None;
        }
    };
    let hits = exact_lookup(index, name, 4);
    let ghost hits_v = hits@.map_values(|s: FileSymbol| s@);
    let n = hits.len();
    let mut k: usize = 0;
    while k < n
        invariant
            k <= n,
            n == hits@.len(),
            hits_v == hits@.map_values(|s: FileSymbol| s@),
            forall|j: int| 0 <= j < k
                ==> !(hits_v[j].kind == SyntaxKind::FnDef && hits_v[j].signature is Some),
        decreases n - k,
    {
        let is_fn = match hits[k].kind {
            SyntaxKind::FnDef => true,
            _ => false,
        };
        if is_fn && hits[k].signature.is_some() {
            proof {
                lemma_first_fn_at(hits_v, k as int);
            }
            let sig = match &hits[k].signature {
                Some(s) => s.duplicate(),
                None => {
                    return None;
                }
            };
            let num = sig.params.len();
            let current: Option<usize> = if num == 1 && !sig.has_self {
                Some(0)
            } else if num > 1 {
                match call.arg_list_start {
                    Some(st) => {
                        let commas = commas_between(text, st, offset);
                        proof {
                            assert(commas < u32::MAX);
                        }
                        if sig.has_self {
                            Some((commas + 1) as usize)
                        } else {
                            Some(commas as usize)
                        }
                    }
                    None => None,
                }
            } else {
                None
            };
            return Some((sig, current));
        }
        k = k + 1;
    }
    proof {
        lemma_first_fn_absent(hits_v);
    }
    None
}

} // verus!
