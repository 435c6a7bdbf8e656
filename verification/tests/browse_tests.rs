use alphaview::browse::{has_arw_extension, select_arw_files, FolderEntry};

fn entry(path: &str, name: &str, is_file: bool) -> FolderEntry {
    FolderEntry { path: path.to_string(), file_name: name.to_string(), is_file }
}

#[test]
fn arw_extension_any_case() {
    assert!(has_arw_extension("DSC00001.ARW"));
    assert!(has_arw_extension("shot.arw"));
    assert!(has_arw_extension("x.Arw"));
    assert!(has_arw_extension("a.b.aRw"));
}

#[test]
fn other_extensions_rejected() {
    assert!(!has_arw_extension("DSC00001.JPG"));
    assert!(!has_arw_extension("DSC00001.ARW.xmp"));
    assert!(!has_arw_extension("DSC00001arw"));
    assert!(!has_arw_extension("photo.arwx"));
    assert!(!has_arw_extension(""));
}

#[test]
fn hidden_name_has_no_extension() {
    // A name whose only dot leads it has no extension.
    assert!(!has_arw_extension(".arw"));
    assert!(!has_arw_extension(".ARW"));
    assert!(has_arw_extension("..arw"));
}

#[test]
fn non_ascii_letters_do_not_match() {
    assert!(!has_arw_extension("x.ärw"));
    assert!(!has_arw_extension("ß.aw"));
    assert!(has_arw_extension("é.arw"));
}

#[test]
fn selection_keeps_arw_files_in_order() {
    let entries = vec![
        entry("/p/b.ARW", "b.ARW", true),
        entry("/p/notes.txt", "notes.txt", true),
        entry("/p/dir.arw", "dir.arw", false),
        entry("/p/a.arw", "a.arw", true),
        entry("/p/c.jpg", "c.jpg", true),
    ];
    assert_eq!(select_arw_files(&entries), vec!["/p/b.ARW".to_string(), "/p/a.arw".to_string()]);
}

#[test]
fn selection_of_empty_listing_is_empty() {
    assert_eq!(select_arw_files(&Vec::new()), Vec::<String>::new());
}

#[test]
fn selection_is_entry_by_entry() {
    let a = vec![entry("/x/1.arw", "1.arw", true), entry("/x/2.png", "2.png", true)];
    let b = vec![entry("/x/3.ARW", "3.ARW", true)];
    let mut ab = Vec::new();
    ab.extend(a.iter().map(|e| entry(&e.path, &e.file_name, e.is_file)));
    ab.extend(b.iter().map(|e| entry(&e.path, &e.file_name, e.is_file)));
    let mut joined = select_arw_files(&a);
    joined.extend(select_arw_files(&b));
    assert_eq!(select_arw_files(&ab), joined);
}
