//! Incremental semantic-analysis engine: a mutable host applies batched
//! changes to a model of files, source roots and crates, while immutable
//! snapshots answer point-in-time queries (go-to-definition, find-references,
//! rename, call-parameter position, diagnostics with fixes, hover) and abort
//! with a cancellation signal once a new batch supersedes them.
use vstd::prelude::*;

pub mod cancellation;
pub mod change;
pub mod engine;
pub mod facts;
pub mod host;
pub mod idmap;
pub mod ids;
pub mod input;
pub mod laws;
pub mod navigation;
pub mod paths;
pub mod present;
pub mod resolve;
pub mod snapshot;
pub mod symbols;
pub mod text;

pub use crate::cancellation::{BaseDatabase, Cancelable, Canceled, CancelFlag};
pub use crate::change::{AddFile, AnalysisChange, LibraryData, RemoveFile};
pub use crate::facts::{
    BindingFact, CallFact, EditorDiagnostic, ModDeclFact, ModTarget, NameRefFact, NodeFact,
    ParentModuleFact, Problem, ProblemFact, SyntaxFacts, TypeFact, WorldFacts,
};
pub use crate::host::AnalysisHost;
pub use crate::ids::{CrateId, FileId, FilePosition, FileRange, SourceRootId};
pub use crate::input::{CrateData, CrateGraph, Dependency, InputState, SourceRoot};
pub use crate::navigation::{
    apply_atom_edit, AtomTextEdit, Diagnostic, FileSystemEdit, LocalEdit, LocalSyntaxPtr,
    NavigationTarget, RangeInfo, ReferenceResolution, Severity, SourceChange, SourceFileEdit,
    TextEdit, TextEditBuilder,
};
pub use crate::snapshot::Analysis;
pub use crate::symbols::{FileSymbol, FnSignatureInfo, Query, SymbolIndex, SyntaxKind};
pub use crate::text::TextRange;

verus! {

} // verus!
