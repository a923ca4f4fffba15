//! The records queries return: resolved locations, user-facing edits, and
//! diagnostics.
use vstd::prelude::*;
use crate::ids::{FileId, FilePosition, SourceRootId};
use crate::symbols::{FileSymbol, FileSymbolView, SyntaxKind};
use crate::text::TextRange;

verus! {

/// A pointer to a syntax node: its kind and its range identify it within
/// one parse of its file.
#[derive(Clone, Copy, Debug, PartialEq, Eq, Structural)]
pub struct LocalSyntaxPtr {
    pub kind: SyntaxKind,
    pub range: TextRange,
}

/// An element the caller can navigate to: a file, a display name, a node
/// kind and a range. The pointer is present exactly when the location came
/// from exact scope-based resolution; an index-based result is approximate
/// and carries none.
#[derive(Debug)]
pub struct NavigationTarget {
    pub file_id: FileId,
    pub name: String,
    pub kind: SyntaxKind,
    pub range: TextRange,
    pub ptr: Option<LocalSyntaxPtr>,
}

#[verifier::ext_equal]
pub ghost struct NavigationTargetView {
    pub file_id: FileId,
    pub name: Seq<char>,
    pub kind: SyntaxKind,
    pub range: TextRange,
    pub ptr: Option<LocalSyntaxPtr>,
}

impl View for NavigationTarget {
    type V = NavigationTargetView;

    open spec fn view(&self) -> NavigationTargetView {
        NavigationTargetView {
            file_id: self.file_id,
            name: self.name@,
            kind: self.kind,
            range: self.range,
            ptr: self.ptr,
        }
    }
}

/// The approximate target an index symbol denotes: no pointer, since the
/// index is name-based, not proven by scope resolution.
pub open spec fn spec_target_of_symbol(s: FileSymbolView) -> NavigationTargetView {
    NavigationTargetView {
        file_id: s.file_id,
        name: s.name,
        kind: s.kind,
        range: s.range,
        ptr: None,
    }
}

impl NavigationTarget {
    pub(crate) fn from_symbol(symbol: &FileSymbol) -> (r: NavigationTarget)
        ensures
            r@ == spec_target_of_symbol(symbol@),
    {
        NavigationTarget {
            file_id: symbol.file_id,
            name: symbol.name.clone(),
            kind: symbol.kind,
            range: symbol.range,
            ptr: None,
        }
    }

    pub fn name(&self) -> (r: &String)
        ensures
            r@ == self@.name,
    {
        &self.name
    }

    pub fn kind(&self) -> (r: SyntaxKind)
        ensures
            r == self@.kind,
    {
        self.kind
    }

    pub fn file_id(&self) -> (r: FileId)
        ensures
            r == self@.file_id,
    {
        self.file_id
    }

    pub fn range(&self) -> (r: TextRange)
        ensures
            r == self@.range,
    {
        self.range
    }

    /// The node pointer, present only for exact scope-based results.
    pub fn ptr(&self) -> (r: Option<LocalSyntaxPtr>)
        ensures
            r == self@.ptr,
    {
        self.ptr
    }
}

/// A range annotated with what was found there.
#[derive(Debug)]
pub struct RangeInfo<T> {
    pub range: TextRange,
    pub info: T,
}

impl<T> RangeInfo<T> {
    pub fn new(range: TextRange, info: T) -> (r: RangeInfo<T>)
        ensures
            r.range == range,
            r.info == info,
    {
        RangeInfo { range, info }
    }
}

/// The result of approximate symbol resolution: the reference's own range,
/// and what it resolves to.
#[derive(Debug)]
pub struct ReferenceResolution {
    /// The range of the reference itself, so the caller learns what token
    /// its offset touched.
    pub reference_range: TextRange,
    /// The definitions the reference resolves to.
    pub resolves_to: Vec<NavigationTarget>,
}

impl ReferenceResolution {
    pub(crate) fn new(reference_range: TextRange) -> (r: ReferenceResolution)
        ensures
            r.reference_range == reference_range,
            r.resolves_to@.len() == 0,
    {
        ReferenceResolution { reference_range, resolves_to: Vec::new() }
    }
}

/// One atomic replacement: delete a range, insert a string at its start.
#[derive(Debug)]
pub struct AtomTextEdit {
    pub delete: TextRange,
    pub insert: String,
}

/// What applying one atom to a text yields.
pub open spec fn spec_apply_atom(text: Seq<char>, delete: TextRange, insert: Seq<char>) -> Seq<char>
    recommends
        delete.wf(),
        delete.end <= text.len(),
{
    text.take(delete.start as int) + insert + text.skip(delete.end as int)
}

/// A text edit: atomic replacements at pairwise disjoint, ascending ranges.
#[derive(Debug)]
pub struct TextEdit {
    pub atoms: Vec<AtomTextEdit>,
}

/// Replaces one range of a text.
pub fn apply_atom_edit(text: &str, delete: TextRange, insert: &str) -> (r: String)
    requires
        delete.wf(),
        delete.end <= text@.len(),
    ensures
        r@ == spec_apply_atom(text@, delete, insert@),
{
    let head = text.substring_char(0, delete.start as usize);
    let tail = text.substring_char(delete.end as usize, text.unicode_len());
    let r = String::from_str(head).concat(insert).concat(tail);
    proof {
        assert(r@ =~= spec_apply_atom(text@, delete, insert@));
    }
    r
}

/// Collects atomic replacements into a text edit.
#[derive(Debug)]
pub struct TextEditBuilder {
    pub atoms: Vec<AtomTextEdit>,
}

impl TextEditBuilder {
    pub fn new() -> (r: TextEditBuilder)
        ensures
            r.atoms@.len() == 0,
    {
        TextEditBuilder { atoms: Vec::new() }
    }

    /// Records the replacement of a range by a string.
    pub fn replace(&mut self, range: TextRange, replace_with: String)
        ensures
            final(self).atoms@ == old(self).atoms@.push(AtomTextEdit {
                delete: range,
                insert: replace_with,
            }),
    {
        self.atoms.push(AtomTextEdit { delete: range, insert: replace_with });
    }

    pub fn finish(self) -> (r: TextEdit)
        ensures
            r.atoms@ == self.atoms@,
    {
        TextEdit { atoms: self.atoms }
    }
}

/// A filesystem-level edit a fix may carry.
#[derive(Debug)]
pub enum FileSystemEdit {
    /// Create an empty file at the path, inside the source root.
    CreateFile { source_root: SourceRootId, path: String },
    /// Move a file into a source root under a new path.
    MoveFile { src: FileId, dst_source_root: SourceRootId, dst_path: String },
}

/// Edits to one file's text.
#[derive(Debug)]
pub struct SourceFileEdit {
    pub file_id: FileId,
    pub edit: TextEdit,
}

/// A named, user-facing change: text edits, filesystem edits, and an
/// optional cursor position to place afterwards.
#[derive(Debug)]
pub struct SourceChange {
    pub label: String,
    pub source_file_edits: Vec<SourceFileEdit>,
    pub file_system_edits: Vec<FileSystemEdit>,
    pub cursor_position: Option<FilePosition>,
}

/// How serious a diagnostic is.
#[derive(Clone, Copy, Debug, PartialEq, Eq, Structural)]
pub enum Severity {
    Error,
    WeakWarning,
}

/// A reported problem: its range, message, severity, and an optional fix.
#[derive(Debug)]
pub struct Diagnostic {
    pub message: String,
    pub range: TextRange,
    pub fix: Option<SourceChange>,
    pub severity: Severity,
}

/// A local edit as the editor-level collaborator reports it: a label, a
/// text edit, and an optional cursor position.
#[derive(Debug)]
pub struct LocalEdit {
    pub label: String,
    pub edit: TextEdit,
    pub cursor_position: Option<u32>,
}

impl SourceChange {
    /// Wraps a collaborator-reported local edit of one file into a source
    /// change touching exactly that file.
    pub(crate) fn from_local_edit(file_id: FileId, edit: LocalEdit) -> (r: SourceChange)
        ensures
            r.label@ == edit.label@,
            r.source_file_edits@.len() == 1,
            r.source_file_edits@[0].file_id == file_id,
            r.source_file_edits@[0].edit.atoms@ == edit.edit.atoms@,
            r.file_system_edits@.len() == 0,
            r.cursor_position == match edit.cursor_position {
                Some(offset) => Some(FilePosition { file_id, offset }),
                None => None::<FilePosition>,
            },
    {
        let cursor_position = match edit.cursor_position {
            Some(offset) => Some(FilePosition { file_id, offset }),
            None => None,
        };
        let file_edit = SourceFileEdit { file_id, edit: edit.edit };
        let mut source_file_edits = Vec::new();
        source_file_edits.push(file_edit);
        SourceChange {
            label: edit.label,
            source_file_edits,
            file_system_edits: Vec::new(),
            cursor_position,
        }
    }
}

} // verus!
