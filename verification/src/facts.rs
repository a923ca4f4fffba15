//! What the external collaborators report about one parsed file, as plain
//! values: the parser's node structure, the scope builder's bindings and
//! reference sets, the type-inference results, the module graph's problems,
//! and the per-file symbols. The resolution engine is verified over these
//! facts; producing them is the collaborators' concern.
use vstd::prelude::*;
use crate::ids::FileId;
use crate::navigation::{LocalEdit, Severity};
use crate::symbols::{FileSymbol, SyntaxKind};
use crate::text::TextRange;

verus! {

/// One syntax node the engine can land on: its kind and range, the declared
/// name it carries (for declaration kinds), and its doc-comment text when it
/// has one.
#[derive(Debug)]
pub struct NodeFact {
    pub kind: SyntaxKind,
    pub range: TextRange,
    pub name: Option<String>,
    pub docs: Option<String>,
}

/// One name-reference token.
#[derive(Debug)]
pub struct NameRefFact {
    pub text: String,
    pub range: TextRange,
}

/// One binding pattern, with what the scope builder reports about it: the
/// range of the whole pattern, the range of the declared name inside it, and
/// the ranges of every reference that resolves to it within this file.
#[derive(Debug)]
pub struct BindingFact {
    pub name: String,
    pub pat_range: TextRange,
    pub name_range: TextRange,
    pub refs: Vec<TextRange>,
}

/// One call or method-call expression: its range, the callee's name
/// reference when one exists, and where its argument list starts.
#[derive(Debug)]
pub struct CallFact {
    /// `CallExpr` or `MethodCallExpr`.
    pub kind: SyntaxKind,
    pub range: TextRange,
    pub callee: Option<String>,
    pub arg_list_start: Option<u32>,
}

/// The file a `mod name;` declaration pulls in, when the module graph
/// resolves it.
#[derive(Debug)]
pub struct ModTarget {
    pub file_id: FileId,
    pub name: String,
}

/// One module declaration: its name token, whether it is a `mod name;`
/// declaration (as opposed to an inline module), and its resolved target.
#[derive(Debug)]
pub struct ModDeclFact {
    pub name: String,
    pub name_range: TextRange,
    pub has_semi: bool,
    pub target: Option<ModTarget>,
}

/// One problem the module-graph collaborator reports at a module-name token.
#[derive(Debug)]
pub enum Problem {
    /// The declared module has no file; `candidate` is where one could be
    /// created.
    UnresolvedModule { candidate: String },
    /// The file does not own a directory and cannot declare the module;
    /// it should move to `move_to`, and the module file would then live at
    /// `move_to` joined with `candidate`.
    NotDirOwner { move_to: String, candidate: String },
}

/// A problem together with the module-name token it is reported at.
#[derive(Debug)]
pub struct ProblemFact {
    pub name_range: TextRange,
    pub problem: Problem,
}

/// One inference result: the type the inference collaborator assigned to
/// the node at exactly this range.
#[derive(Debug)]
pub struct TypeFact {
    pub range: TextRange,
    pub ty: String,
}

/// One structural diagnostic the editor-level collaborator reports, with an
/// optional textual fix.
#[derive(Debug)]
pub struct EditorDiagnostic {
    pub range: TextRange,
    pub message: String,
    pub severity: Severity,
    pub fix: Option<LocalEdit>,
}

/// The `mod name;` declaration that created this file's module, when the
/// module graph knows one: where it stands and what it is named.
#[derive(Debug)]
pub struct ParentModuleFact {
    pub file_id: FileId,
    pub name: String,
    pub name_range: TextRange,
}

/// Everything the collaborators report about one file.
#[derive(Debug)]
pub struct SyntaxFacts {
    /// Syntax nodes, outermost first for nodes of equal extent.
    pub nodes: Vec<NodeFact>,
    /// Name-reference tokens, in text order.
    pub name_refs: Vec<NameRefFact>,
    /// Binding patterns with their reference sets.
    pub bindings: Vec<BindingFact>,
    /// Call and method-call expressions.
    pub calls: Vec<CallFact>,
    /// Module declarations.
    pub mod_decls: Vec<ModDeclFact>,
    /// Module-graph problems.
    pub problems: Vec<ProblemFact>,
    /// Inference results, keyed by node range.
    pub types: Vec<TypeFact>,
    /// Structural diagnostics.
    pub diagnostics: Vec<EditorDiagnostic>,
    /// This file's own symbols, for the local symbol index.
    pub symbols: Vec<FileSymbol>,
    /// The declaration that created this file's module, if any.
    pub parent_module: Option<ParentModuleFact>,
    /// The root file of the module tree this file belongs to, if known.
    pub module_root: Option<FileId>,
}

impl SyntaxFacts {
    /// Facts for a file nothing is known about.
    pub fn empty() -> (r: SyntaxFacts)
        ensures
            r.nodes@.len() == 0,
            r.name_refs@.len() == 0,
            r.bindings@.len() == 0,
            r.calls@.len() == 0,
            r.mod_decls@.len() == 0,
            r.problems@.len() == 0,
            r.types@.len() == 0,
            r.diagnostics@.len() == 0,
            r.symbols@.len() == 0,
            r.parent_module is None,
            r.module_root is None,
    {
        SyntaxFacts {
            nodes: Vec::new(),
            name_refs: Vec::new(),
            bindings: Vec::new(),
            calls: Vec::new(),
            mod_decls: Vec::new(),
            problems: Vec::new(),
            types: Vec::new(),
            diagnostics: Vec::new(),
            symbols: Vec::new(),
            parent_module: None,
            module_root: None,
        }
    }
}

/// The collaborators' view of the whole world: per-file facts, and the
/// global symbol index over the local roots.
#[derive(Debug)]
pub struct WorldFacts {
    pub files: Vec<(FileId, SyntaxFacts)>,
    pub index: crate::symbols::SymbolIndex,
}

/// The facts recorded for a file: the first entry wins.
pub open spec fn spec_facts_of(files: Seq<(FileId, SyntaxFacts)>, file: FileId) -> Option<int>
    decreases files.len(),
{
    if files.len() == 0 {
        None
    } else if files.first().0 == file {
        Some(0int)
    } else {
        match spec_facts_of(files.drop_first(), file) {
            Some(i) => Some(i + 1),
            None => None,
        }
    }
}

/// The first index whose key matches is the one the recursion names.
pub proof fn lemma_facts_of_first(files: Seq<(FileId, SyntaxFacts)>, file: FileId, i: int)
    requires
        0 <= i < files.len(),
        files[i].0 == file,
        forall|j: int| 0 <= j < i ==> files[j].0 != file,
    ensures
        spec_facts_of(files, file) == Some(i),
    decreases files.len(),
{
    if i > 0 {
        lemma_facts_of_first(files.drop_first(), file, i - 1);
    }
}

/// No entry, no facts.
pub proof fn lemma_facts_of_absent(files: Seq<(FileId, SyntaxFacts)>, file: FileId)
    requires
        forall|i: int| 0 <= i < files.len() ==> files[i].0 != file,
    ensures
        spec_facts_of(files, file) == None::<int>,
    decreases files.len(),
{
    if files.len() > 0 {
        lemma_facts_of_absent(files.drop_first(), file);
    }
}

impl WorldFacts {
    /// The facts for a file; `None` when the collaborators reported none.
    pub fn facts_of(&self, file: FileId) -> (r: Option<&SyntaxFacts>)
        ensures
            match r {
                Some(f) => {
                    &&& spec_facts_of(self.files@, file) matches Some(i)
                    &&& 0 <= i < self.files@.len()
                    &&& self.files@[spec_facts_of(self.files@, file).unwrap()].1 == *f
                },
                None => spec_facts_of(self.files@, file) is None,
            },
    {
        let n = self.files.len();
        let mut i: usize = 0;
        while i < n
            invariant
                i <= n,
                n == self.files@.len(),
                forall|j: int| 0 <= j < i ==> self.files@[j].0 != file,
            decreases n - i,
        {
            if self.files[i].0 == file {
                proof {
                    lemma_facts_of_first(self.files@, file, i as int);
                }
                return Some(&self.files[i].1);
            }
            i = i + 1;
        }
        proof {
            lemma_facts_of_absent(self.files@, file);
        }
        None
    }
}

} // verus!
