use ratatui_explorer::build_listing;
use ratatui_explorer::name_is_hidden;
use ratatui_explorer::FileKind;
use ratatui_explorer::RawEntry;

fn entry(name: &str, is_dir: bool, is_hidden: bool) -> RawEntry {
    RawEntry {
        name: name.to_string(),
        path: format!("/tmp/x/{}", name),
        is_dir,
        is_hidden,
        file_type: Some(if is_dir { FileKind::Directory } else { FileKind::Regular }),
    }
}

#[test]
fn directories_come_first_each_group_sorted() {
    let children = vec![
        entry("b.txt", false, false),
        entry("zz", true, false),
        entry("a.txt", false, false),
        entry("A", true, false),
    ];
    let files = build_listing("/tmp/x", children, false);
    let names: Vec<&str> = files.iter().map(|f| f.name()).collect();
    assert_eq!(names, vec!["../", "A/", "zz/", "a.txt", "b.txt"]);
}

#[test]
fn no_parent_entry_at_root() {
    let children = vec![entry("a.txt", false, false), entry("B", true, false)];
    let files = build_listing("/", children, false);
    let names: Vec<&str> = files.iter().map(|f| f.name()).collect();
    assert_eq!(names, vec!["B/", "a.txt"]);
}

#[test]
fn parent_entry_fields() {
    let files = build_listing("/tmp/x", vec![], false);
    assert_eq!(files.len(), 1);
    let parent = &files[0];
    assert_eq!(parent.name(), "../");
    assert_eq!(parent.path(), "/tmp");
    assert!(parent.is_dir());
    assert!(!parent.is_hidden());
    assert!(parent.file_type().is_none());
    assert!(!parent.is_file());
}

#[test]
fn hidden_entries_filtered_unless_shown() {
    let children = vec![
        entry("visible.txt", false, false),
        entry(".secret", false, true),
        entry(".config", true, true),
    ];
    let files = build_listing("/tmp/x", children.clone(), false);
    let names: Vec<&str> = files.iter().map(|f| f.name()).collect();
    assert_eq!(names, vec!["../", "visible.txt"]);

    let files = build_listing("/tmp/x", children, true);
    let names: Vec<&str> = files.iter().map(|f| f.name()).collect();
    assert_eq!(names, vec!["../", ".config/", ".secret", "visible.txt"]);
}

#[test]
fn directory_names_get_separator_suffix() {
    let children = vec![entry("docs", true, false), entry("docs.txt", false, false)];
    let files = build_listing("/", children, false);
    assert_eq!(files[0].name(), "docs/");
    assert!(files[0].is_dir());
    assert_eq!(files[1].name(), "docs.txt");
    assert!(!files[1].is_dir());
}

#[test]
fn sort_is_case_sensitive_byte_wise() {
    let children = vec![
        entry("a.txt", false, false),
        entry("B.txt", false, false),
        entry("Z.txt", false, false),
    ];
    let files = build_listing("/", children, false);
    let names: Vec<&str> = files.iter().map(|f| f.name()).collect();
    // Uppercase letters precede lowercase ones in codepoint order.
    assert_eq!(names, vec!["B.txt", "Z.txt", "a.txt"]);
}

#[test]
fn sort_prefix_precedes_extension() {
    let children = vec![entry("abc", false, false), entry("ab", false, false)];
    let files = build_listing("/", children, false);
    let names: Vec<&str> = files.iter().map(|f| f.name()).collect();
    assert_eq!(names, vec!["ab", "abc"]);
}

#[test]
fn entry_getters_carry_raw_data() {
    let children = vec![RawEntry {
        name: "link".to_string(),
        path: "/somewhere/link".to_string(),
        is_dir: false,
        is_hidden: false,
        file_type: Some(FileKind::Symlink),
    }];
    let files = build_listing("/", children, false);
    assert_eq!(files[0].name(), "link");
    assert_eq!(files[0].path(), "/somewhere/link");
    assert_eq!(files[0].file_type(), Some(FileKind::Symlink));
    assert!(!files[0].is_file());
}

#[test]
fn hidden_name_convention() {
    assert!(name_is_hidden(".git"));
    assert!(name_is_hidden("."));
    assert!(!name_is_hidden("git"));
    assert!(!name_is_hidden(""));
    assert!(!name_is_hidden("a.hidden"));
}

#[test]
fn sort_follows_codepoint_order_beyond_ascii() {
    let children = vec![
        entry("\u{00e9}clair", false, false),
        entry("zebra", false, false),
        entry("Apple", false, false),
    ];
    let files = build_listing("/", children, false);
    let names: Vec<&str> = files.iter().map(|f| f.name()).collect();
    // 'A' (0x41) < 'z' (0x7A) < 'é' (0xE9), by codepoint and equally by
    // UTF-8 byte order.
    assert_eq!(names, vec!["Apple", "zebra", "\u{00e9}clair"]);
}
