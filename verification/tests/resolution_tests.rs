use ra_analysis::{
    apply_atom_edit, AnalysisChange, AnalysisHost, BindingFact, CallFact, FileId, FilePosition,
    FileRange, FileSymbol, FileSystemEdit, FnSignatureInfo, ModDeclFact, ModTarget, NameRefFact,
    NodeFact, Problem, ProblemFact, Severity, SourceRootId, SymbolIndex, SyntaxFacts, SyntaxKind,
    TextRange, TypeFact, WorldFacts,
};

fn range(start: u32, end: u32) -> TextRange {
    TextRange { start, end }
}

fn world_with(file_id: FileId, facts: SyntaxFacts, index: Vec<FileSymbol>) -> WorldFacts {
    WorldFacts { files: vec![(file_id, facts)], index: SymbolIndex::new(index) }
}

fn fn_symbol(file_id: FileId, name: &str, at: TextRange, sig: Option<FnSignatureInfo>) -> FileSymbol {
    FileSymbol {
        file_id,
        name: String::from(name),
        kind: SyntaxKind::FnDef,
        range: at,
        signature: sig,
    }
}

/// Facts for `fn main() { let x = 1; x + x; }`: the binding `x` at 16..17
/// with references at 23..24 and 27..28.
fn binding_facts() -> SyntaxFacts {
    let mut facts = SyntaxFacts::empty();
    facts.bindings.push(BindingFact {
        name: String::from("x"),
        pat_range: range(16, 17),
        name_range: range(16, 17),
        refs: vec![range(23, 24), range(27, 28)],
    });
    facts.name_refs.push(NameRefFact { text: String::from("x"), range: range(23, 24) });
    facts.name_refs.push(NameRefFact { text: String::from("x"), range: range(27, 28) });
    facts
}

#[test]
fn local_resolution_takes_precedence_over_index() {
    let file = FileId(1);
    // The index also knows an `x`, in another file; the local binding wins.
    let decoy = fn_symbol(FileId(2), "x", range(0, 1), None);
    let world = world_with(file, binding_facts(), vec![decoy]);
    let host = AnalysisHost::new();
    let snap = host.analysis();

    let rr = snap
        .approximately_resolve_symbol(FilePosition { file_id: file, offset: 23 }, &world)
        .unwrap()
        .unwrap();
    assert_eq!(rr.reference_range, range(23, 24));
    assert_eq!(rr.resolves_to.len(), 1);
    assert_eq!(rr.resolves_to[0].file_id(), file);
    assert_eq!(rr.resolves_to[0].name().as_str(), "x");
    assert_eq!(rr.resolves_to[0].range(), range(16, 17));
    // An exact scope-based result carries its node pointer.
    assert!(rr.resolves_to[0].ptr().is_some());
}

#[test]
fn index_fallback_caps_at_four_results() {
    let file = FileId(1);
    let mut facts = SyntaxFacts::empty();
    facts.name_refs.push(NameRefFact { text: String::from("foo"), range: range(5, 8) });
    let mut index = Vec::new();
    let mut i: u32 = 0;
    while i < 6 {
        index.push(fn_symbol(FileId(10 + i), "foo", range(0, 3), None));
        i += 1;
    }
    let world = world_with(file, facts, index);
    let host = AnalysisHost::new();
    let snap = host.analysis();

    let rr = snap
        .approximately_resolve_symbol(FilePosition { file_id: file, offset: 6 }, &world)
        .unwrap()
        .unwrap();
    assert_eq!(rr.resolves_to.len(), 4);
    // Index-based results are approximate: no node pointer.
    assert!(rr.resolves_to[0].ptr().is_none());
    assert_eq!(rr.resolves_to[0].file_id(), FileId(10));
}

#[test]
fn mod_declaration_resolves_to_target_file() {
    let file = FileId(1);
    let mut facts = SyntaxFacts::empty();
    facts.mod_decls.push(ModDeclFact {
        name: String::from("missing"),
        name_range: range(4, 11),
        has_semi: true,
        target: Some(ModTarget { file_id: FileId(3), name: String::from("missing") }),
    });
    let world = world_with(file, facts, Vec::new());
    let host = AnalysisHost::new();
    let snap = host.analysis();

    let rr = snap
        .approximately_resolve_symbol(FilePosition { file_id: file, offset: 7 }, &world)
        .unwrap()
        .unwrap();
    assert_eq!(rr.reference_range, range(4, 11));
    assert_eq!(rr.resolves_to.len(), 1);
    assert_eq!(rr.resolves_to[0].file_id(), FileId(3));
    assert_eq!(rr.resolves_to[0].kind(), SyntaxKind::Module);
    assert_eq!(rr.resolves_to[0].range(), range(0, 0));
}

#[test]
fn find_all_refs_returns_declaration_plus_each_reference() {
    let file = FileId(1);
    let world = world_with(file, binding_facts(), Vec::new());
    let host = AnalysisHost::new();
    let snap = host.analysis();

    // On the binding pattern itself.
    let refs = snap.find_all_refs(FilePosition { file_id: file, offset: 16 }, &world).unwrap();
    assert_eq!(refs.len(), 3);
    assert_eq!(refs[0], (file, range(16, 17)));
    assert_eq!(refs[1], (file, range(23, 24)));
    assert_eq!(refs[2], (file, range(27, 28)));

    // On a reference that locally resolves to the binding.
    let via_ref = snap.find_all_refs(FilePosition { file_id: file, offset: 27 }, &world).unwrap();
    assert_eq!(via_ref.len(), 3);
    assert_eq!(via_ref[0], (file, range(16, 17)));
}

#[test]
fn rename_to_same_name_reproduces_text() {
    let file = FileId(1);
    let text = "fn main() { let x = 1; x + x; }";
    let world = world_with(file, binding_facts(), Vec::new());
    let host = AnalysisHost::new();
    let snap = host.analysis();

    let edits = snap.rename(FilePosition { file_id: file, offset: 16 }, "x", &world).unwrap();
    assert_eq!(edits.len(), 3);
    let mut applied = String::from(text);
    for edit in &edits {
        assert_eq!(edit.edit.atoms.len(), 1);
        let atom = &edit.edit.atoms[0];
        applied = apply_atom_edit(&applied, atom.delete, &atom.insert);
    }
    assert_eq!(applied, text);
}

#[test]
fn rename_replaces_every_range() {
    let file = FileId(1);
    let text = "fn main() { let x = 1; x + x; }";
    let world = world_with(file, binding_facts(), Vec::new());
    let host = AnalysisHost::new();
    let snap = host.analysis();

    let edits = snap.rename(FilePosition { file_id: file, offset: 16 }, "y", &world).unwrap();
    let mut applied = String::from(text);
    for edit in &edits {
        let atom = &edit.edit.atoms[0];
        applied = apply_atom_edit(&applied, atom.delete, &atom.insert);
    }
    assert_eq!(applied, "fn main() { let y = 1; y + y; }");
}

#[test]
fn resolve_callable_counts_commas() {
    let file = FileId(1);
    // `f(a, b, c)` with the cursor after `c`, at offset 9.
    let text = "f(a, b, c)";
    let mut facts = SyntaxFacts::empty();
    facts.calls.push(CallFact {
        kind: SyntaxKind::CallExpr,
        range: range(0, 10),
        callee: Some(String::from("f")),
        arg_list_start: Some(1),
    });
    let sig = FnSignatureInfo {
        name: String::from("f"),
        label: String::from("fn f(a, b, c)"),
        params: vec![String::from("a"), String::from("b"), String::from("c")],
        has_self: false,
        doc: None,
    };
    let index = vec![fn_symbol(FileId(2), "f", range(0, 13), Some(sig))];
    let world = world_with(file, facts, index);

    let mut host = AnalysisHost::new();
    let mut change = AnalysisChange::new();
    change.add_root(SourceRootId(1), true);
    change.add_file(SourceRootId(1), file, String::from("a.rs"), String::from(text));
    host.apply_change(change);
    let snap = host.analysis();

    let (sig, current) = snap
        .resolve_callable(FilePosition { file_id: file, offset: 9 }, &world)
        .unwrap()
        .unwrap();
    assert_eq!(sig.name, "f");
    assert_eq!(current, Some(2));
}

#[test]
fn method_call_receiver_occupies_slot_zero() {
    let file = FileId(1);
    // `o.f(x)` with the cursor just inside the parentheses, at offset 4; the
    // parameter list holds the receiver at slot 0 and `x` at slot 1, so the
    // first declared parameter besides the receiver is the current one.
    let text = "o.f(x)";
    let mut facts = SyntaxFacts::empty();
    facts.calls.push(CallFact {
        kind: SyntaxKind::MethodCallExpr,
        range: range(0, 6),
        callee: Some(String::from("f")),
        arg_list_start: Some(3),
    });
    let sig = FnSignatureInfo {
        name: String::from("f"),
        label: String::from("fn f(&self, x)"),
        params: vec![String::from("&self"), String::from("x")],
        has_self: true,
        doc: None,
    };
    let index = vec![fn_symbol(FileId(2), "f", range(0, 14), Some(sig))];
    let world = world_with(file, facts, index);

    let mut host = AnalysisHost::new();
    let mut change = AnalysisChange::new();
    change.add_root(SourceRootId(1), true);
    change.add_file(SourceRootId(1), file, String::from("a.rs"), String::from(text));
    host.apply_change(change);
    let snap = host.analysis();

    let (sig, current) = snap
        .resolve_callable(FilePosition { file_id: file, offset: 4 }, &world)
        .unwrap()
        .unwrap();
    assert_eq!(current, Some(1));
    assert_eq!(sig.params[current.unwrap()], "x");
}

#[test]
fn zero_and_single_parameter_calls() {
    let file = FileId(1);
    let mut facts = SyntaxFacts::empty();
    facts.calls.push(CallFact {
        kind: SyntaxKind::CallExpr,
        range: range(0, 5),
        callee: Some(String::from("g")),
        arg_list_start: Some(1),
    });
    let sig = FnSignatureInfo {
        name: String::from("g"),
        label: String::from("fn g(only)"),
        params: vec![String::from("only")],
        has_self: false,
        doc: None,
    };
    let index = vec![fn_symbol(FileId(2), "g", range(0, 10), Some(sig))];
    let world = world_with(file, facts, index);
    let host = AnalysisHost::new();
    let snap = host.analysis();

    let (_, current) = snap
        .resolve_callable(FilePosition { file_id: file, offset: 2 }, &world)
        .unwrap()
        .unwrap();
    // Exactly one parameter and no receiver: slot 0 without counting.
    assert_eq!(current, Some(0));
}

#[test]
fn unresolved_module_diagnostic_creates_candidate_file() {
    let file = FileId(1);
    let mut facts = SyntaxFacts::empty();
    facts.problems.push(ProblemFact {
        name_range: range(4, 11),
        problem: Problem::UnresolvedModule { candidate: String::from("missing.rs") },
    });
    let world = world_with(file, facts, Vec::new());

    let mut host = AnalysisHost::new();
    let mut change = AnalysisChange::new();
    change.add_root(SourceRootId(1), true);
    change.add_file(SourceRootId(1), file, String::from("lib.rs"), String::from("mod missing;"));
    host.apply_change(change);
    let snap = host.analysis();

    let diags = snap.diagnostics(file, &world).unwrap();
    assert_eq!(diags.len(), 1);
    let diag = &diags[0];
    assert_eq!(diag.message, "unresolved module");
    assert_eq!(diag.range, range(4, 11));
    assert!(matches!(diag.severity, Severity::Error));
    let fix = diag.fix.as_ref().unwrap();
    assert_eq!(fix.label, "create module");
    assert_eq!(fix.source_file_edits.len(), 0);
    assert_eq!(fix.file_system_edits.len(), 1);
    match &fix.file_system_edits[0] {
        FileSystemEdit::CreateFile { source_root, path } => {
            assert_eq!(*source_root, SourceRootId(1));
            assert_eq!(path.as_str(), "missing.rs");
        }
        _ => panic!("expected a create-file fix"),
    }
    assert!(fix.cursor_position.is_none());
}

#[test]
fn misplaced_module_owner_moves_and_creates() {
    let file = FileId(1);
    let mut facts = SyntaxFacts::empty();
    facts.problems.push(ProblemFact {
        name_range: range(4, 7),
        problem: Problem::NotDirOwner {
            move_to: String::from("foo"),
            candidate: String::from("bar.rs"),
        },
    });
    let world = world_with(file, facts, Vec::new());

    let mut host = AnalysisHost::new();
    let mut change = AnalysisChange::new();
    change.add_root(SourceRootId(1), true);
    change.add_file(SourceRootId(1), file, String::from("foo.rs"), String::from("mod bar;"));
    host.apply_change(change);
    let snap = host.analysis();

    let diags = snap.diagnostics(file, &world).unwrap();
    assert_eq!(diags.len(), 1);
    assert_eq!(diags[0].message, "can't declare module at this location");
    let fix = diags[0].fix.as_ref().unwrap();
    assert_eq!(fix.label, "move file and create module");
    assert_eq!(fix.file_system_edits.len(), 2);
    match &fix.file_system_edits[0] {
        FileSystemEdit::MoveFile { src, dst_source_root, dst_path } => {
            assert_eq!(*src, file);
            assert_eq!(*dst_source_root, SourceRootId(1));
            assert_eq!(dst_path.as_str(), "foo");
        }
        _ => panic!("expected a move-file fix first"),
    }
    match &fix.file_system_edits[1] {
        FileSystemEdit::CreateFile { source_root, path } => {
            assert_eq!(*source_root, SourceRootId(1));
            assert_eq!(path.as_str(), "foo/bar.rs");
        }
        _ => panic!("expected a create-file fix second"),
    }
}

/// The facts for the hover example: a `main` holding the call `foo()` at
/// 95..100, whose inferred type is `u32`.
fn hover_facts() -> SyntaxFacts {
    let mut facts = SyntaxFacts::empty();
    facts.nodes.push(NodeFact {
        kind: SyntaxKind::FnDef,
        range: range(55, 120),
        name: Some(String::from("main")),
        docs: None,
    });
    facts.nodes.push(NodeFact {
        kind: SyntaxKind::CallExpr,
        range: range(95, 100),
        name: None,
        docs: None,
    });
    facts.name_refs.push(NameRefFact { text: String::from("foo"), range: range(95, 98) });
    facts.types.push(TypeFact { range: range(95, 100), ty: String::from("u32") });
    facts
}

#[test]
fn hover_shows_type_of_an_expression() {
    let file = FileId(1);
    let world = world_with(file, hover_facts(), Vec::new());
    let host = AnalysisHost::new();
    let snap = host.analysis();

    let hover = snap.hover(FilePosition { file_id: file, offset: 100 }, &world).unwrap().unwrap();
    assert_eq!(hover.range, TextRange::from_to(95, 100));
    assert_eq!(hover.info, "u32");
}

#[test]
fn hover_joins_several_definitions() {
    let file = FileId(1);
    let mut facts = SyntaxFacts::empty();
    facts.name_refs.push(NameRefFact { text: String::from("dual"), range: range(5, 9) });
    facts.nodes.push(NodeFact {
        kind: SyntaxKind::FnDef,
        range: range(20, 40),
        name: Some(String::from("dual")),
        docs: None,
    });
    facts.nodes.push(NodeFact {
        kind: SyntaxKind::StructDef,
        range: range(50, 70),
        name: Some(String::from("dual")),
        docs: None,
    });
    let index = vec![
        fn_symbol(file, "dual", range(20, 40), None),
        FileSymbol {
            file_id: file,
            name: String::from("dual"),
            kind: SyntaxKind::StructDef,
            range: range(50, 70),
            signature: None,
        },
    ];
    let world = world_with(file, facts, index);
    let host = AnalysisHost::new();
    let snap = host.analysis();

    let hover = snap.hover(FilePosition { file_id: file, offset: 7 }, &world).unwrap().unwrap();
    assert_eq!(hover.range, range(5, 9));
    assert_eq!(hover.info, "```rust\nfn dual\n```\n\n---\n```rust\nstruct dual\n```");
}

#[test]
fn hover_prefers_resolved_definitions() {
    let file = FileId(1);
    let mut facts = hover_facts();
    facts.nodes.push(NodeFact {
        kind: SyntaxKind::FnDef,
        range: range(13, 38),
        name: Some(String::from("foo")),
        docs: Some(String::from("Returns one.")),
    });
    let index = vec![fn_symbol(file, "foo", range(13, 38), None)];
    let world = world_with(file, facts, index);
    let host = AnalysisHost::new();
    let snap = host.analysis();

    // On the reference itself, resolution wins over the type fallback.
    let hover = snap.hover(FilePosition { file_id: file, offset: 96 }, &world).unwrap().unwrap();
    assert_eq!(hover.range, range(95, 98));
    assert_eq!(hover.info, "```rust\nfn foo\n```\n\nReturns one.");
}

#[test]
fn type_of_range_reads_inference() {
    let file = FileId(1);
    let world = world_with(file, hover_facts(), Vec::new());
    let host = AnalysisHost::new();
    let snap = host.analysis();

    let ty = snap
        .type_of(FileRange { file_id: file, range: range(95, 100) }, &world)
        .unwrap();
    assert_eq!(ty, Some(String::from("u32")));
    // A range outside any function has no inferred type.
    let none = snap.type_of(FileRange { file_id: file, range: range(0, 3) }, &world).unwrap();
    assert_eq!(none, None);
}

#[test]
fn parent_module_reports_declaration() {
    let file = FileId(2);
    let mut facts = SyntaxFacts::empty();
    facts.parent_module = Some(ra_analysis::ParentModuleFact {
        file_id: FileId(1),
        name: String::from("submod"),
        name_range: range(4, 10),
    });
    let world = world_with(file, facts, Vec::new());
    let host = AnalysisHost::new();
    let snap = host.analysis();

    let parents = snap
        .parent_module(FilePosition { file_id: file, offset: 0 }, &world)
        .unwrap();
    assert_eq!(parents.len(), 1);
    assert_eq!(parents[0].file_id(), FileId(1));
    assert_eq!(parents[0].name().as_str(), "submod");
    assert_eq!(parents[0].kind(), SyntaxKind::Module);
    assert_eq!(parents[0].range(), range(4, 10));
}
