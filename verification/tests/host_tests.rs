use ra_analysis::{
    Analysis, AnalysisChange, AnalysisHost, CrateGraph, CrateId, FileId, LibraryData, Query,
    SourceRootId, SymbolIndex, SyntaxFacts, SyntaxKind, WorldFacts,
};
use ra_analysis::{FilePosition, FileSymbol, TextRange};

fn empty_world() -> WorldFacts {
    WorldFacts { files: Vec::new(), index: SymbolIndex::new(Vec::new()) }
}

fn is_send<T: Send>() {}

#[test]
fn analysis_is_send() {
    is_send::<Analysis>();
}

#[test]
fn revision_advances_once_per_batch() {
    let mut host = AnalysisHost::new();
    assert_eq!(host.revision(), 0);
    host.apply_change(AnalysisChange::new());
    assert_eq!(host.revision(), 1);
    let mut change = AnalysisChange::new();
    change.add_root(SourceRootId(1), true);
    change.add_file(
        SourceRootId(1),
        FileId(7),
        String::from("foo.rs"),
        String::from("fn foo() {}"),
    );
    host.apply_change(change);
    assert_eq!(host.revision(), 2);
    host.apply_change(AnalysisChange::new());
    assert_eq!(host.revision(), 3);
}

#[test]
fn snapshot_sees_pre_batch_state() {
    let mut host = AnalysisHost::new();
    let mut change = AnalysisChange::new();
    change.add_root(SourceRootId(1), true);
    change.add_file(SourceRootId(1), FileId(7), String::from("a.rs"), String::from("old text"));
    host.apply_change(change);

    let snap = host.analysis();
    assert_eq!(snap.file_text(FileId(7)), "old text");

    let mut edit = AnalysisChange::new();
    edit.change_file(FileId(7), String::from("new text"));
    host.apply_change(edit);

    // The old snapshot still observes its own revision's data.
    assert_eq!(snap.file_text(FileId(7)), "old text");
    // A fresh snapshot observes the new batch.
    let fresh = host.analysis();
    assert_eq!(fresh.file_text(FileId(7)), "new text");
    assert!(snap.revision() < fresh.revision());
}

#[test]
fn read_canceled_by_concurrent_batch() {
    let mut host = AnalysisHost::new();
    let mut change = AnalysisChange::new();
    change.add_root(SourceRootId(1), true);
    change.add_file(SourceRootId(1), FileId(7), String::from("a.rs"), String::from("fn a() {}"));
    host.apply_change(change);

    let world = empty_world();
    let snap = host.analysis();
    let position = FilePosition { file_id: FileId(7), offset: 0 };
    // The read starts fine.
    assert!(snap.find_all_refs(position, &world).is_ok());
    // A batch lands mid-read.
    host.apply_change(AnalysisChange::new());
    // Continuing the same read yields cancellation, not stale data.
    assert!(snap.find_all_refs(position, &world).is_err());
    assert!(snap.diagnostics(FileId(7), &world).is_err());
    // A fresh snapshot works again.
    let fresh = host.analysis();
    assert!(fresh.find_all_refs(position, &world).is_ok());
}

#[test]
fn removal_leaves_tombstone() {
    let mut host = AnalysisHost::new();
    let mut change = AnalysisChange::new();
    change.add_root(SourceRootId(1), true);
    change.add_file(SourceRootId(1), FileId(7), String::from("foo.rs"), String::from("fn f() {}"));
    host.apply_change(change);

    let before = host.analysis();
    assert_eq!(before.file_text(FileId(7)), "fn f() {}");
    assert_eq!(before.file_for_path(SourceRootId(1), &String::from("foo.rs")), Some(FileId(7)));

    let mut removal = AnalysisChange::new();
    removal.remove_file(SourceRootId(1), FileId(7), String::from("foo.rs"));
    host.apply_change(removal);

    let after = host.analysis();
    // Text reads as empty, the path is gone from the root's file set,
    // and the id stays valid to query.
    assert_eq!(after.file_text(FileId(7)), "");
    assert_eq!(after.file_for_path(SourceRootId(1), &String::from("foo.rs")), None);
    assert_eq!(after.file_relative_path(FileId(7)), "foo.rs");
    assert_eq!(after.file_source_root(FileId(7)), SourceRootId(1));
}

#[test]
fn add_then_change_in_one_batch_keeps_later_text() {
    let mut host = AnalysisHost::new();
    let mut change = AnalysisChange::new();
    change.add_root(SourceRootId(1), true);
    change.add_file(SourceRootId(1), FileId(7), String::from("a.rs"), String::from("first"));
    change.change_file(FileId(7), String::from("second"));
    host.apply_change(change);
    assert_eq!(host.analysis().file_text(FileId(7)), "second");
}

#[test]
fn crate_graph_roots_and_deps() {
    let mut graph = CrateGraph::new();
    let c0 = graph.add_crate_root(FileId(1));
    let c1 = graph.add_crate_root(FileId(2));
    graph.add_dep(c0, String::from("other"), c1);

    let mut host = AnalysisHost::new();
    let mut change = AnalysisChange::new();
    change.set_crate_graph(graph);
    host.apply_change(change);

    let snap = host.analysis();
    assert_eq!(snap.crate_root(c0), Ok(FileId(1)));
    assert_eq!(snap.crate_root(c1), Ok(FileId(2)));
    let crates = snap.crate_for(FileId(2)).unwrap();
    assert_eq!(crates, vec![CrateId(1)]);
    assert_eq!(snap.crate_for(FileId(9)).unwrap(), vec![]);
}

#[test]
fn library_installs_files_and_symbols() {
    let symbol = FileSymbol {
        file_id: FileId(20),
        name: String::from("z"),
        kind: SyntaxKind::FnDef,
        range: TextRange { start: 7, end: 8 },
        signature: None,
    };
    let data = LibraryData::prepare(
        SourceRootId(9),
        vec![(FileId(20), String::from("lib.rs"), String::from("pub fn z() {}"))],
        SymbolIndex::new(vec![symbol]),
    );
    let mut host = AnalysisHost::new();
    let mut change = AnalysisChange::new();
    change.add_library(data);
    host.apply_change(change);

    let snap = host.analysis();
    assert_eq!(snap.file_text(FileId(20)), "pub fn z() {}");
    assert_eq!(snap.file_for_path(SourceRootId(9), &String::from("lib.rs")), Some(FileId(20)));

    let mut query = Query::new(String::from("z"));
    query.exact();
    query.libs();
    let hits = snap.symbol_search(query, &empty_world()).unwrap();
    assert_eq!(hits.len(), 1);
    assert_eq!(hits[0].name().as_str(), "z");
    assert_eq!(hits[0].file_id(), FileId(20));
    assert_eq!(hits[0].kind(), SyntaxKind::FnDef);
}

#[test]
fn symbol_search_is_case_insensitive_without_exact() {
    let symbol = FileSymbol {
        file_id: FileId(1),
        name: String::from("MyFooBar"),
        kind: SyntaxKind::StructDef,
        range: TextRange { start: 0, end: 8 },
        signature: None,
    };
    let world = WorldFacts { files: Vec::new(), index: SymbolIndex::new(vec![symbol]) };
    let host = AnalysisHost::new();
    let snap = host.analysis();

    let query = Query::new(String::from("FOO"));
    let hits = snap.symbol_search(query, &world).unwrap();
    assert_eq!(hits.len(), 1);
    assert_eq!(hits[0].name().as_str(), "MyFooBar");

    let miss = Query::new(String::from("quux"));
    assert_eq!(snap.symbol_search(miss, &world).unwrap().len(), 0);
}

#[test]
fn empty_facts_answer_nothing() {
    let host = AnalysisHost::new();
    let snap = host.analysis();
    let world = empty_world();
    let position = FilePosition { file_id: FileId(3), offset: 5 };
    assert!(snap.approximately_resolve_symbol(position, &world).unwrap().is_none());
    assert_eq!(snap.find_all_refs(position, &world).unwrap().len(), 0);
    assert_eq!(snap.rename(position, "y", &world).unwrap().len(), 0);
    assert_eq!(snap.diagnostics(FileId(3), &world).unwrap().len(), 0);
    assert!(snap.parent_module(position, &world).unwrap().is_empty());
}
