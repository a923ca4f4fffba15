//! Name-based symbol lookup: the kinds of syntax nodes the engine tags
//! locations with, per-file symbols, and the query that searches them.
use vstd::prelude::*;
use crate::ids::FileId;
use crate::text::TextRange;

verus! {

/// The closed set of syntax-node kinds the engine distinguishes.
#[derive(Clone, Copy, Debug, PartialEq, Eq, Hash, Structural)]
pub enum SyntaxKind {
    /// A declared name token.
    Name,
    /// A name-reference token.
    NameRef,
    /// A binding pattern introducing a local name.
    BindPat,
    /// A function definition.
    FnDef,
    /// A struct definition.
    StructDef,
    /// An enum definition.
    EnumDef,
    /// A trait definition.
    TraitDef,
    /// A module declaration or definition.
    Module,
    /// A type alias.
    TypeDef,
    /// A constant item.
    ConstDef,
    /// A static item.
    StaticDef,
    /// A plain call expression.
    CallExpr,
    /// A method-call expression.
    MethodCallExpr,
    /// Any other expression node.
    OtherExpr,
    /// Any other node.
    Other,
}

impl SyntaxKind {
    /// The kinds that are expression nodes.
    pub open spec fn spec_is_expr(self) -> bool {
        self == SyntaxKind::CallExpr || self == SyntaxKind::MethodCallExpr
            || self == SyntaxKind::OtherExpr
    }

    pub fn is_expr(&self) -> (r: bool)
        ensures
            r == self.spec_is_expr(),
    {
        match self {
            SyntaxKind::CallExpr => true,
            SyntaxKind::MethodCallExpr => true,
            SyntaxKind::OtherExpr => true,
            _ => false,
        }
    }

    /// The kinds a types-only symbol query keeps.
    pub open spec fn spec_is_type(self) -> bool {
        self == SyntaxKind::StructDef || self == SyntaxKind::EnumDef
            || self == SyntaxKind::TraitDef || self == SyntaxKind::TypeDef
    }

    pub fn is_type(&self) -> (r: bool)
        ensures
            r == self.spec_is_type(),
    {
        match self {
            SyntaxKind::StructDef => true,
            SyntaxKind::EnumDef => true,
            SyntaxKind::TraitDef => true,
            SyntaxKind::TypeDef => true,
            _ => false,
        }
    }
}

/// What the case-folding collaborator returns for a sequence of characters;
/// a pure function of the characters alone.
pub uninterp spec fn lower_of(s: Seq<char>) -> Seq<char>;

/// Relies on `str::to_lowercase`: the result depends on the characters alone.
#[verifier::external_body]
pub(crate) fn lowercase(s: &str) -> (r: String)
    ensures
        r@ == lower_of(s@),
{
    s.to_lowercase()
}

/// Call-signature facts about one function definition: its name, a display
/// label, one entry per parameter (an implicit receiver occupies slot 0),
/// and its doc text.
#[derive(Debug)]
pub struct FnSignatureInfo {
    pub name: String,
    pub label: String,
    pub params: Vec<String>,
    pub has_self: bool,
    pub doc: Option<String>,
}

#[verifier::ext_equal]
pub ghost struct FnSignatureView {
    pub name: Seq<char>,
    pub label: Seq<char>,
    pub params: Seq<Seq<char>>,
    pub has_self: bool,
    pub doc: Option<Seq<char>>,
}

impl View for FnSignatureInfo {
    type V = FnSignatureView;

    open spec fn view(&self) -> FnSignatureView {
        FnSignatureView {
            name: self.name@,
            label: self.label@,
            params: self.params.deep_view(),
            has_self: self.has_self,
            doc: match self.doc {
                Some(d) => Some(d@),
                None => None,
            },
        }
    }
}

impl FnSignatureInfo {
    pub fn duplicate(&self) -> (r: FnSignatureInfo)
        ensures
            r@ == self@,
    {
        let mut params: Vec<String> = Vec::new();
        let mut i: usize = 0;
        while i < self.params.len()
            invariant
                i <= self.params@.len(),
                params@.len() == i,
                forall|j: int| 0 <= j < i ==> params@[j]@ == self.params@[j]@,
            decreases self.params@.len() - i,
        {
            params.push(self.params[i].clone());
            i = i + 1;
        }
        proof {
            assert forall|j: int| 0 <= j < params@.len() implies
                params.deep_view()[j] == self.params.deep_view()[j] by {
                assert(params@[j]@ == self.params@[j]@);
            }
            assert(params.deep_view() =~= self.params.deep_view());
        }
        let r = FnSignatureInfo {
            name: self.name.clone(),
            label: self.label.clone(),
            params,
            has_self: self.has_self,
            doc: match &self.doc {
                Some(d) => Some(d.clone()),
                None => None,
            },
        };
        proof {
            assert(r@ =~= self@);
        }
        r
    }
}

/// One entry of a symbol index: where a named declaration lives.
#[derive(Debug)]
pub struct FileSymbol {
    pub file_id: FileId,
    pub name: String,
    pub kind: SyntaxKind,
    pub range: TextRange,
    /// Call-signature facts, present for function definitions.
    pub signature: Option<FnSignatureInfo>,
}

#[verifier::ext_equal]
pub ghost struct FileSymbolView {
    pub file_id: FileId,
    pub name: Seq<char>,
    pub kind: SyntaxKind,
    pub range: TextRange,
    pub signature: Option<FnSignatureView>,
}

impl View for FileSymbol {
    type V = FileSymbolView;

    open spec fn view(&self) -> FileSymbolView {
        FileSymbolView {
            file_id: self.file_id,
            name: self.name@,
            kind: self.kind,
            range: self.range,
            signature: match self.signature {
                Some(s) => Some(s@),
                None => None,
            },
        }
    }
}

impl FileSymbol {
    pub fn duplicate(&self) -> (r: FileSymbol)
        ensures
            r@ == self@,
    {
        let r = FileSymbol {
            file_id: self.file_id,
            name: self.name.clone(),
            kind: self.kind,
            range: self.range,
            signature: match &self.signature {
                Some(s) => Some(s.duplicate()),
                None => None,
            },
        };
        proof {
            assert(r@ =~= self@);
        }
        r
    }
}

/// A searchable list of symbols, in declaration order.
#[derive(Debug)]
pub struct SymbolIndex {
    pub symbols: Vec<FileSymbol>,
}

impl View for SymbolIndex {
    type V = Seq<FileSymbolView>;

    open spec fn view(&self) -> Seq<FileSymbolView> {
        self.symbols@.map_values(|s: FileSymbol| s@)
    }
}

impl SymbolIndex {
    pub fn new(symbols: Vec<FileSymbol>) -> (r: SymbolIndex)
        ensures
            r@ == symbols@.map_values(|s: FileSymbol| s@),
    {
        SymbolIndex { symbols }
    }

    pub fn len(&self) -> (r: usize)
        ensures
            r == self@.len(),
    {
        self.symbols.len()
    }

    pub fn duplicate(&self) -> (r: SymbolIndex)
        ensures
            r@ == self@,
    {
        let mut symbols: Vec<FileSymbol> = Vec::new();
        let mut i: usize = 0;
        while i < self.symbols.len()
            invariant
                i <= self.symbols@.len(),
                symbols@.len() == i,
                forall|j: int| 0 <= j < i ==> symbols@[j]@ == self.symbols@[j]@,
            decreases self.symbols@.len() - i,
        {
            symbols.push(self.symbols[i].duplicate());
            i = i + 1;
        }
        proof {
            assert(symbols@.map_values(|s: FileSymbol| s@)
                =~= self.symbols@.map_values(|s: FileSymbol| s@));
        }
        SymbolIndex { symbols }
    }
}


/// Whether `needle` occurs contiguously in `hay`.
pub open spec fn spec_contains_seq(hay: Seq<char>, needle: Seq<char>) -> bool {
    exists|i: int|
        0 <= i && i + needle.len() <= hay.len() && #[trigger] hay.subrange(i, i + needle.len())
            == needle
}

/// Substring search over characters.
pub fn contains_chars(hay: &str, needle: &str) -> (r: bool)
    ensures
        r == spec_contains_seq(hay@, needle@),
{
    let hn = hay.unicode_len();
    let nn = needle.unicode_len();
    if nn > hn {
        proof {
            assert(!spec_contains_seq(hay@, needle@));
        }
        return false;
    }
    let mut i: usize = 0;
    while i <= hn - nn
        invariant
            nn <= hn,
            hn == hay@.len(),
            nn == needle@.len(),
            i <= hn - nn + 1,
            forall|q: int| 0 <= q < i
                ==> #[trigger] hay@.subrange(q, q + needle@.len()) != needle@,
        decreases hn - nn + 1 - i,
    {
        let mut j: usize = 0;
        let mut matched = true;
        while j < nn && matched
            invariant
                nn <= hn,
                hn == hay@.len(),
                nn == needle@.len(),
                i + nn <= hn,
                j <= nn,
                matched ==> forall|q: int| 0 <= q < j ==> hay@[i + q] == needle@[q],
                !matched ==> exists|q: int| 0 <= q < nn && #[trigger] hay@[i + q] != needle@[q],
            decreases nn - j + if matched { 1int } else { 0int },
        {
            if hay.get_char(i + j) != needle.get_char(j) {
                matched = false;
            } else {
                j = j + 1;
            }
        }
        if matched {
            proof {
                assert(hay@.subrange(i as int, i + needle@.len()) =~= needle@);
            }
            return true;
        }
        proof {
            let q = choose|q: int| 0 <= q < nn && #[trigger] hay@[i + q] != needle@[q];
            assert(hay@.subrange(i as int, i + needle@.len())[q] == hay@[i + q]);
            assert(hay@.subrange(i as int, i + needle@.len()) != needle@);
        }
        i = i + 1;
    }
    proof {
        assert forall|q: int| 0 <= q && q + needle@.len() <= hay@.len() implies
            #[trigger] hay@.subrange(q, q + needle@.len()) != needle@ by {
            assert(q < i);
        }
    }
    false
}

/// A symbol query: the raw text, its case-folded form, and the search
/// switches — types only, library roots, exact matching, and a result cap.
#[derive(Debug)]
pub struct Query {
    query: String,
    lowercased: String,
    only_types: bool,
    libs: bool,
    exact: bool,
    limit: usize,
}

#[verifier::ext_equal]
pub ghost struct QueryView {
    pub query: Seq<char>,
    pub lowercased: Seq<char>,
    pub only_types: bool,
    pub libs: bool,
    pub exact: bool,
    pub limit: int,
}

impl View for Query {
    type V = QueryView;

    closed spec fn view(&self) -> QueryView {
        QueryView {
            query: self.query@,
            lowercased: self.lowercased@,
            only_types: self.only_types,
            libs: self.libs,
            exact: self.exact,
            limit: self.limit as int,
        }
    }
}

impl Query {
    /// A fresh query: everything matching the text, case-insensitively,
    /// with no cap.
    pub fn new(query: String) -> (r: Query)
        ensures
            r@.query == query@,
            r@.lowercased == lower_of(query@),
            !r@.only_types,
            !r@.libs,
            !r@.exact,
            r@.limit == usize::MAX as int,
    {
        let lowercased = lowercase(query.as_str());
        Query {
            query,
            lowercased,
            only_types: false,
            libs: false,
            exact: false,
            limit: usize::MAX,
        }
    }

    /// Keeps only type declarations.
    pub fn only_types(&mut self)
        ensures
            final(self)@ == (QueryView { only_types: true, ..old(self)@ }),
    {
        self.only_types = true;
    }

    /// Searches the library roots instead of the local ones.
    pub fn libs(&mut self)
        ensures
            final(self)@ == (QueryView { libs: true, ..old(self)@ }),
    {
        self.libs = true;
    }

    /// Requires the name to equal the query text exactly.
    pub fn exact(&mut self)
        ensures
            final(self)@ == (QueryView { exact: true, ..old(self)@ }),
    {
        self.exact = true;
    }

    /// Caps the number of results.
    pub fn limit(&mut self, limit: usize)
        ensures
            final(self)@ == (QueryView { limit: limit as int, ..old(self)@ }),
    {
        self.limit = limit
    }

    /// Reads the libs switch.
    pub fn is_libs(&self) -> (r: bool)
        ensures
            r == self@.libs,
    {
        self.libs
    }
}

/// Whether a symbol satisfies a query: the types-only switch filters by
/// kind; an exact query compares names; otherwise the case-folded query
/// must occur in the case-folded name.
pub open spec fn spec_query_matches(q: QueryView, s: FileSymbolView) -> bool {
    &&& (q.only_types ==> s.kind.spec_is_type())
    &&& if q.exact {
        s.name == q.query
    } else {
        spec_contains_seq(lower_of(s.name), q.lowercased)
    }
}

/// The symbols a query selects from an index, in order, capped at its
/// limit.
pub open spec fn spec_query_search(syms: Seq<FileSymbolView>, q: QueryView) -> Seq<FileSymbolView> {
    let all = syms.filter(|s: FileSymbolView| spec_query_matches(q, s));
    if all.len() <= q.limit {
        all
    } else {
        all.take(q.limit)
    }
}

proof fn lemma_query_filter_push(s: Seq<FileSymbolView>, x: FileSymbolView, q: QueryView)
    ensures
        s.push(x).filter(|v: FileSymbolView| spec_query_matches(q, v)) == if spec_query_matches(
            q,
            x,
        ) {
            s.filter(|v: FileSymbolView| spec_query_matches(q, v)).push(x)
        } else {
            s.filter(|v: FileSymbolView| spec_query_matches(q, v))
        },
{
    assert(s.push(x).drop_last() =~= s);
    reveal(Seq::filter);
}

impl SymbolIndex {
    /// Runs a query against this index, filling `out` with the matches
    /// until the cap is reached.
    #[verifier::loop_isolation(false)]
    pub fn search_into(&self, q: &Query, out: &mut Vec<FileSymbol>)
        requires
            old(out)@.len() == 0,
        ensures
            final(out)@.map_values(|s: FileSymbol| s@) == spec_query_search(self@, q@),
    {
        let ghost qv = q@;
        let ghost pre0 = old(out)@.map_values(|s: FileSymbol| s@);
        proof {
            assert(pre0.len() == 0);
            assert(pre0 =~= Seq::<FileSymbolView>::empty());
        }
        let n = self.symbols.len();
        let mut i: usize = 0;
        while i < n
            invariant
                i <= n,
                n == self.symbols@.len(),
                out@.map_values(|s: FileSymbol| s@).len() <= qv.limit,
                out@.map_values(|s: FileSymbol| s@) == {
                    let all = pre0 + self.symbols@.take(i as int).map_values(
                        |s: FileSymbol| s@,
                    ).filter(|v: FileSymbolView| spec_query_matches(qv, v));
                    if all.len() <= qv.limit {
                        all
                    } else {
                        all.take(qv.limit)
                    }
                },
            decreases n - i,
        {
            let ghost seen = self.symbols@.take(i as int).map_values(|s: FileSymbol| s@);
            let ghost seen1 = self.symbols@.take(i + 1 as int).map_values(|s: FileSymbol| s@);
            let ghost x = self.symbols@[i as int]@;
            proof {
                assert(seen1.drop_last() =~= seen);
                assert(seen1 =~= seen.push(x));
                lemma_query_filter_push(seen, x, qv);
            }
            let sym = &self.symbols[i];
            let kind_ok = if self.symbols[i].kind.is_type() {
                true
            } else {
                !q.only_types
            };
            let name_ok = if q.exact {
                sym.name == q.query
            } else {
                let lowered = lowercase(sym.name.as_str());
                contains_chars(lowered.as_str(), q.lowercased.as_str())
            };
            let is_match = kind_ok && name_ok;
            proof {
                assert(is_match == spec_query_matches(qv, x));
            }
            if is_match && out.len() < q.limit {
                out.push(sym.duplicate());
                proof {
                    let f = |v: FileSymbolView| spec_query_matches(qv, v);
                    assert(out@.map_values(|s: FileSymbol| s@)
                        =~= (pre0 + seen.filter(f)).push(x));
                    assert((pre0 + seen1.filter(f)) =~= (pre0 + seen.filter(f)).push(x));
                }
            } else {
                proof {
                    let f = |v: FileSymbolView| spec_query_matches(qv, v);
                    if is_match {
                        assert((pre0 + seen.filter(f)).len() >= qv.limit);
                        assert((pre0 + seen1.filter(f)).take(qv.limit)
                            =~= (pre0 + seen.filter(f)).take(qv.limit));
                        assert((pre0 + seen.filter(f)).take(qv.limit)
                            =~= out@.map_values(|s: FileSymbol| s@));
                    } else {
                        assert((pre0 + seen1.filter(f)) =~= (pre0 + seen.filter(f)));
                    }
                }
            }
            i = i + 1;
        }
        proof {
            assert(self.symbols@.take(n as int) =~= self.symbols@);
            let f = |v: FileSymbolView| spec_query_matches(qv, v);
            assert(pre0 + self@.filter(f) =~= self@.filter(f));
            if self@.filter(f).len() > qv.limit {
                assert((pre0 + self@.filter(f)).take(qv.limit) =~= self@.filter(f).take(qv.limit));
            }
        }
    }
}

} // verus!
