//! Node location: finding the smallest syntax element that a cursor offset
//! or a range touches, and first-match scans over collaborator facts.
use vstd::prelude::*;
use crate::facts::{BindingFact, CallFact, ModDeclFact, NameRefFact, NodeFact};
use crate::symbols::{FileSymbol, FileSymbolView, SymbolIndex, SyntaxKind};
use crate::text::TextRange;

verus! {

/// A range that covers no offset and contains no range; entries filtered
/// out of a location scan are mapped to it.
pub open spec fn never_range() -> TextRange {
    TextRange { start: 1, end: 0 }
}

/// The smallest range covering the offset; the earliest listed wins ties,
/// so for nested nodes of equal extent the facts' order decides.
pub open spec fn spec_min_cover(ranges: Seq<TextRange>, offset: u32) -> Option<int>
    decreases ranges.len(),
{
    if ranges.len() == 0 {
        None
    } else {
        let rest = spec_min_cover(ranges.drop_last(), offset);
        let l = ranges.len() - 1;
        if ranges[l].spec_covers(offset) {
            match rest {
                None => Some(l),
                Some(i) => if ranges[l].spec_len() < ranges[i].spec_len() {
                    Some(l)
                } else {
                    Some(i)
                },
            }
        } else {
            rest
        }
    }
}

/// The smallest range fully containing the given range; the earliest listed
/// wins ties.
pub open spec fn spec_min_containing(ranges: Seq<TextRange>, range: TextRange) -> Option<int>
    decreases ranges.len(),
{
    if ranges.len() == 0 {
        None
    } else {
        let rest = spec_min_containing(ranges.drop_last(), range);
        let l = ranges.len() - 1;
        if ranges[l].spec_contains_range(range) {
            match rest {
                None => Some(l),
                Some(i) => if ranges[l].spec_len() < ranges[i].spec_len() {
                    Some(l)
                } else {
                    Some(i)
                },
            }
        } else {
            rest
        }
    }
}

/// The index of the smallest listed range covering the offset.
pub fn min_cover(ranges: &Vec<TextRange>, offset: u32) -> (r: Option<usize>)
    ensures
        match r {
            Some(i) => i < ranges@.len() && ranges@[i as int].spec_covers(offset)
                && spec_min_cover(ranges@, offset) == Some(i as int),
            None => spec_min_cover(ranges@, offset) is None,
        },
{
    let n = ranges.len();
    let mut best: Option<usize> = None;
    let mut i: usize = 0;
    while i < n
        invariant
            i <= n,
            n == ranges@.len(),
            match best {
                Some(b) => b < i && ranges@[b as int].spec_covers(offset)
                    && spec_min_cover(ranges@.take(i as int), offset) == Some(b as int),
                None => spec_min_cover(ranges@.take(i as int), offset) is None,
            },
        decreases n - i,
    {
        proof {
            assert(ranges@.take(i + 1 as int).drop_last() =~= ranges@.take(i as int));
        }
        if ranges[i].covers(offset) {
            best = match best {
                None => Some(i),
                Some(b) => {
                    if ranges[i].end - ranges[i].start < ranges[b].end - ranges[b].start {
                        Some(i)
                    } else {
                        Some(b)
                    }
                }
            };
        }
        i = i + 1;
    }
    proof {
        assert(ranges@.take(n as int) =~= ranges@);
    }
    best
}

/// The index of the smallest listed range containing the given range.
pub fn min_containing(ranges: &Vec<TextRange>, range: &TextRange) -> (r: Option<usize>)
    requires
        range.wf(),
    ensures
        match r {
            Some(i) => i < ranges@.len() && ranges@[i as int].spec_contains_range(*range)
                && spec_min_containing(ranges@, *range) == Some(i as int),
            None => spec_min_containing(ranges@, *range) is None,
        },
{
    let n = ranges.len();
    let mut best: Option<usize> = None;
    let mut i: usize = 0;
    while i < n
        invariant
            i <= n,
            n == ranges@.len(),
            range.wf(),
            match best {
                Some(b) => b < i && ranges@[b as int].spec_contains_range(*range)
                    && spec_min_containing(ranges@.take(i as int), *range) == Some(b as int),
                None => spec_min_containing(ranges@.take(i as int), *range) is None,
            },
        decreases n - i,
    {
        proof {
            assert(ranges@.take(i + 1 as int).drop_last() =~= ranges@.take(i as int));
        }
        if ranges[i].contains_range(range) {
            proof {
                assert(ranges@[i as int].start <= range.start <= range.end
                    <= ranges@[i as int].end);
            }
            best = match best {
                None => Some(i),
                Some(b) => {
                    proof {
                        assert(ranges@[b as int].start <= range.start <= range.end
                            <= ranges@[b as int].end);
                    }
                    if ranges[i].end - ranges[i].start < ranges[b].end - ranges[b].start {
                        Some(i)
                    } else {
                        Some(b)
                    }
                }
            };
        }
        i = i + 1;
    }
    proof {
        assert(ranges@.take(n as int) =~= ranges@);
    }
    best
}

/// The ranges of the name-reference tokens.
pub open spec fn spec_name_ref_ranges(s: Seq<NameRefFact>) -> Seq<TextRange> {
    s.map_values(|f: NameRefFact| f.range)
}

pub fn name_ref_ranges(s: &Vec<NameRefFact>) -> (r: Vec<TextRange>)
    ensures
        r@ == spec_name_ref_ranges(s@),
{
    let n = s.len();
    let mut out: Vec<TextRange> = Vec::new();
    let mut i: usize = 0;
    while i < n
        invariant
            i <= n,
            n == s@.len(),
            out@ == spec_name_ref_ranges(s@.take(i as int)),
        decreases n - i,
    {
        out.push(s[i].range);
        proof {
            assert(out@ =~= spec_name_ref_ranges(s@.take(i + 1 as int)));
        }
        i = i + 1;
    }
    proof {
        assert(s@.take(n as int) =~= s@);
    }
    out
}

/// The ranges of the binding patterns.
pub open spec fn spec_binding_ranges(s: Seq<BindingFact>) -> Seq<TextRange> {
    s.map_values(|f: BindingFact| f.pat_range)
}

pub fn binding_ranges(s: &Vec<BindingFact>) -> (r: Vec<TextRange>)
    ensures
        r@ == spec_binding_ranges(s@),
{
    let n = s.len();
    let mut out: Vec<TextRange> = Vec::new();
    let mut i: usize = 0;
    while i < n
        invariant
            i <= n,
            n == s@.len(),
            out@ == spec_binding_ranges(s@.take(i as int)),
        decreases n - i,
    {
        out.push(s[i].pat_range);
        proof {
            assert(out@ =~= spec_binding_ranges(s@.take(i + 1 as int)));
        }
        i = i + 1;
    }
    proof {
        assert(s@.take(n as int) =~= s@);
    }
    out
}

/// The ranges of the module-declaration name tokens.
pub open spec fn spec_mod_decl_ranges(s: Seq<ModDeclFact>) -> Seq<TextRange> {
    s.map_values(|f: ModDeclFact| f.name_range)
}

pub fn mod_decl_ranges(s: &Vec<ModDeclFact>) -> (r: Vec<TextRange>)
    ensures
        r@ == spec_mod_decl_ranges(s@),
{
    let n = s.len();
    let mut out: Vec<TextRange> = Vec::new();
    let mut i: usize = 0;
    while i < n
        invariant
            i <= n,
            n == s@.len(),
            out@ == spec_mod_decl_ranges(s@.take(i as int)),
        decreases n - i,
    {
        out.push(s[i].name_range);
        proof {
            assert(out@ =~= spec_mod_decl_ranges(s@.take(i + 1 as int)));
        }
        i = i + 1;
    }
    proof {
        assert(s@.take(n as int) =~= s@);
    }
    out
}

/// The ranges of the calls of one kind; other calls never match.
pub open spec fn spec_call_ranges(s: Seq<CallFact>, kind: SyntaxKind) -> Seq<TextRange> {
    s.map_values(|f: CallFact| if f.kind == kind {
        f.range
    } else {
        never_range()
    })
}

pub fn call_ranges(s: &Vec<CallFact>, kind: SyntaxKind) -> (r: Vec<TextRange>)
    ensures
        r@ == spec_call_ranges(s@, kind),
{
    let n = s.len();
    let mut out: Vec<TextRange> = Vec::new();
    let mut i: usize = 0;
    while i < n
        invariant
            i <= n,
            n == s@.len(),
            out@ == spec_call_ranges(s@.take(i as int), kind),
        decreases n - i,
    {
        if s[i].kind == kind {
            out.push(s[i].range);
        } else {
            out.push(TextRange { start: 1, end: 0 });
        }
        proof {
            assert(out@ =~= spec_call_ranges(s@.take(i + 1 as int), kind));
        }
        i = i + 1;
    }
    proof {
        assert(s@.take(n as int) =~= s@);
    }
    out
}

/// The ranges of the nodes of one kind; other nodes never match.
pub open spec fn spec_node_ranges(s: Seq<NodeFact>, kind: SyntaxKind) -> Seq<TextRange> {
    s.map_values(|f: NodeFact| if f.kind == kind {
        f.range
    } else {
        never_range()
    })
}

pub fn node_ranges(s: &Vec<NodeFact>, kind: SyntaxKind) -> (r: Vec<TextRange>)
    ensures
        r@ == spec_node_ranges(s@, kind),
{
    let n = s.len();
    let mut out: Vec<TextRange> = Vec::new();
    let mut i: usize = 0;
    while i < n
        invariant
            i <= n,
            n == s@.len(),
            out@ == spec_node_ranges(s@.take(i as int), kind),
        decreases n - i,
    {
        if s[i].kind == kind {
            out.push(s[i].range);
        } else {
            out.push(TextRange { start: 1, end: 0 });
        }
        proof {
            assert(out@ =~= spec_node_ranges(s@.take(i + 1 as int), kind));
        }
        i = i + 1;
    }
    proof {
        assert(s@.take(n as int) =~= s@);
    }
    out
}

/// The ranges of every node.
pub open spec fn spec_all_node_ranges(s: Seq<NodeFact>) -> Seq<TextRange> {
    s.map_values(|f: NodeFact| f.range)
}

pub fn all_node_ranges(s: &Vec<NodeFact>) -> (r: Vec<TextRange>)
    ensures
        r@ == spec_all_node_ranges(s@),
{
    let n = s.len();
    let mut out: Vec<TextRange> = Vec::new();
    let mut i: usize = 0;
    while i < n
        invariant
            i <= n,
            n == s@.len(),
            out@ == spec_all_node_ranges(s@.take(i as int)),
        decreases n - i,
    {
        out.push(s[i].range);
        proof {
            assert(out@ =~= spec_all_node_ranges(s@.take(i + 1 as int)));
        }
        i = i + 1;
    }
    proof {
        assert(s@.take(n as int) =~= s@);
    }
    out
}

/// The ranges of the expression nodes.
pub open spec fn spec_expr_ranges(s: Seq<NodeFact>) -> Seq<TextRange> {
    s.map_values(|f: NodeFact| if f.kind.spec_is_expr() {
        f.range
    } else {
        never_range()
    })
}

pub fn expr_ranges(s: &Vec<NodeFact>) -> (r: Vec<TextRange>)
    ensures
        r@ == spec_expr_ranges(s@),
{
    let n = s.len();
    let mut out: Vec<TextRange> = Vec::new();
    let mut i: usize = 0;
    while i < n
        invariant
            i <= n,
            n == s@.len(),
            out@ == spec_expr_ranges(s@.take(i as int)),
        decreases n - i,
    {
        if s[i].kind.is_expr() {
            out.push(s[i].range);
        } else {
            out.push(TextRange { start: 1, end: 0 });
        }
        proof {
            assert(out@ =~= spec_expr_ranges(s@.take(i + 1 as int)));
        }
        i = i + 1;
    }
    proof {
        assert(s@.take(n as int) =~= s@);
    }
    out
}

/// The binding a reference range resolves to: the first binding whose
/// reference set contains the range.
pub open spec fn spec_local_resolve(bs: Seq<BindingFact>, r: TextRange) -> Option<int>
    decreases bs.len(),
{
    if bs.len() == 0 {
        None
    } else if bs.first().refs@.contains(r) {
        Some(0int)
    } else {
        match spec_local_resolve(bs.drop_first(), r) {
            Some(i) => Some(i + 1),
            None => None,
        }
    }
}

proof fn lemma_local_resolve_first(bs: Seq<BindingFact>, r: TextRange, i: int)
    requires
        0 <= i < bs.len(),
        bs[i].refs@.contains(r),
        forall|j: int| 0 <= j < i ==> !bs[j].refs@.contains(r),
    ensures
        spec_local_resolve(bs, r) == Some(i),
    decreases bs.len(),
{
    if i > 0 {
        lemma_local_resolve_first(bs.drop_first(), r, i - 1);
    }
}

proof fn lemma_local_resolve_absent(bs: Seq<BindingFact>, r: TextRange)
    requires
        forall|i: int| 0 <= i < bs.len() ==> !bs[i].refs@.contains(r),
    ensures
        spec_local_resolve(bs, r) == None::<int>,
    decreases bs.len(),
{
    if bs.len() > 0 {
        lemma_local_resolve_absent(bs.drop_first(), r);
    }
}

/// Whether a list of ranges holds the given one.
fn ranges_contain(refs: &Vec<TextRange>, r: &TextRange) -> (res: bool)
    ensures
        res == refs@.contains(*r),
{
    let n = refs.len();
    let mut i: usize = 0;
    while i < n
        invariant
            i <= n,
            n == refs@.len(),
            forall|j: int| 0 <= j < i ==> refs@[j] != *r,
        decreases n - i,
    {
        if refs[i] == *r {
            return true;
        }
        i = i + 1;
    }
    false
}

/// Resolves a reference range against the bindings, first match wins.
pub fn local_resolve(bs: &Vec<BindingFact>, r: &TextRange) -> (res: Option<usize>)
    ensures
        match res {
            Some(i) => i < bs@.len() && bs@[i as int].refs@.contains(*r)
                && spec_local_resolve(bs@, *r) == Some(i as int),
            None => spec_local_resolve(bs@, *r) is None,
        },
{
    let n = bs.len();
    let mut i: usize = 0;
    while i < n
        invariant
            i <= n,
            n == bs@.len(),
            forall|j: int| 0 <= j < i ==> !bs@[j].refs@.contains(*r),
        decreases n - i,
    {
        if ranges_contain(&bs[i].refs, r) {
            proof {
                lemma_local_resolve_first(bs@, *r, i as int);
            }
            return Some(i);
        }
        i = i + 1;
    }
    proof {
        lemma_local_resolve_absent(bs@, *r);
    }
    None
}

/// The symbols whose name equals the query, in index order.
pub open spec fn sym_matches(syms: Seq<FileSymbolView>, name: Seq<char>) -> Seq<FileSymbolView> {
    syms.filter(|s: FileSymbolView| s.name == name)
}

/// Exact, case-sensitive lookup: the symbols whose name equals the query,
/// in index order, capped at `limit`.
pub open spec fn spec_exact_lookup(
    syms: Seq<FileSymbolView>,
    name: Seq<char>,
    limit: int,
) -> Seq<FileSymbolView> {
    let all = sym_matches(syms, name);
    if all.len() <= limit {
        all
    } else {
        all.take(limit)
    }
}

/// Runs the exact lookup against an index, returning copies of the matches.
pub fn exact_lookup(index: &SymbolIndex, name: &String, limit: usize) -> (r: Vec<FileSymbol>)
    ensures
        r@.map_values(|s: FileSymbol| s@) == spec_exact_lookup(index@, name@, limit as int),
{
    let n = index.symbols.len();
    let mut out: Vec<FileSymbol> = Vec::new();
    let mut i: usize = 0;
    while i < n
        invariant
            i <= n,
            n == index.symbols@.len(),
            out@.len() <= limit,
            out@.map_values(|s: FileSymbol| s@) == spec_exact_lookup(
                index.symbols@.take(i as int).map_values(|s: FileSymbol| s@),
                name@,
                limit as int,
            ),
        decreases n - i,
    {
        let ghost pre = index.symbols@.take(i as int).map_values(|s: FileSymbol| s@);
        let ghost post = index.symbols@.take(i + 1 as int).map_values(|s: FileSymbol| s@);
        proof {
            assert(post.drop_last() =~= pre);
            assert(post.last() == index.symbols@[i as int]@);
            assert(post =~= pre.push(index.symbols@[i as int]@));
            lemma_filter_push(pre, index.symbols@[i as int]@, name@);
        }
        let ghost x = index.symbols@[i as int]@;
        proof {
            lemma_filter_push(pre, x, name@);
        }
        if index.symbols[i].name == *name && out.len() < limit {
            proof {
                assert(out@.map_values(|s: FileSymbol| s@).len() == out@.len());
                if sym_matches(pre, name@).len() > limit as int {
                    assert(spec_exact_lookup(pre, name@, limit as int)
                        == sym_matches(pre, name@).take(limit as int));
                    assert(out@.len() == limit);
                }
                assert(sym_matches(pre, name@).len() == out@.len());
                assert(sym_matches(post, name@) == sym_matches(pre, name@).push(x));
            }
            out.push(index.symbols[i].duplicate());
            proof {
                assert(out@.map_values(|s: FileSymbol| s@) =~= sym_matches(pre, name@).push(x));
                assert(spec_exact_lookup(post, name@, limit as int) == sym_matches(post, name@));
            }
        } else {
            proof {
                if x.name == name@ {
                    assert(sym_matches(post, name@) == sym_matches(pre, name@).push(x));
                    assert(sym_matches(pre, name@).len() >= limit as int);
                    assert(sym_matches(post, name@).take(limit as int)
                        =~= sym_matches(pre, name@).take(limit as int));
                    assert(sym_matches(pre, name@).take(limit as int)
                        =~= spec_exact_lookup(pre, name@, limit as int));
                    assert(spec_exact_lookup(post, name@, limit as int)
                        == sym_matches(post, name@).take(limit as int));
                } else {
                    assert(sym_matches(post, name@) == sym_matches(pre, name@));
                }
            }
        }
        i = i + 1;
    }
    proof {
        assert(index.symbols@.take(n as int) =~= index.symbols@);
    }
    out
}

/// Filtering distributes over appending one element.
proof fn lemma_filter_push(s: Seq<FileSymbolView>, x: FileSymbolView, name: Seq<char>)
    ensures
        sym_matches(s.push(x), name) == if x.name == name {
            sym_matches(s, name).push(x)
        } else {
            sym_matches(s, name)
        },
{
    assert(s.push(x).drop_last() =~= s);
    reveal(Seq::filter);
}

} // verus!
