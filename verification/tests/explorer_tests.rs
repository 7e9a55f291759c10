use ratatui_explorer::FileExplorer;
use ratatui_explorer::FileKind;
use ratatui_explorer::Input;
use ratatui_explorer::ListError;
use ratatui_explorer::RawEntry;

fn entry(dir: &str, name: &str, is_dir: bool, is_hidden: bool) -> RawEntry {
    RawEntry {
        name: name.to_string(),
        path: format!("{}/{}", dir, name),
        is_dir,
        is_hidden,
        file_type: Some(if is_dir { FileKind::Directory } else { FileKind::Regular }),
    }
}

/// The children of the example directory `/tmp/x`: a file, a directory, and
/// a hidden file.
fn tmp_x_children() -> Vec<RawEntry> {
    vec![
        entry("/tmp/x", "b.txt", false, false),
        entry("/tmp/x", "A", true, false),
        entry("/tmp/x", ".hidden", false, true),
    ]
}

#[test]
fn scenario_listing_and_toggle() {
    let mut fe = FileExplorer::new("/tmp/x".to_string(), tmp_x_children());
    let names: Vec<&str> = fe.files().iter().map(|f| f.name()).collect();
    assert_eq!(names, vec!["../", "A/", "b.txt"]);
    assert_eq!(fe.selected_idx(), 0);
    assert_eq!(fe.current().name(), "../");
    assert!(!fe.show_hidden());

    assert!(fe.handle(Input::Down).is_none());
    assert!(fe.handle(Input::Down).is_none());
    assert_eq!(fe.current().name(), "b.txt");

    let req = fe.handle(Input::ToggleShowHidden).expect("toggle requests a listing");
    assert_eq!(req.dir, "/tmp/x");
    assert!(req.show_hidden);
    // Until the commit, nothing changed.
    assert_eq!(fe.current().name(), "b.txt");
    assert!(!fe.show_hidden());

    fe.apply_listing(req, Ok(tmp_x_children())).expect("commit succeeds");
    let names: Vec<&str> = fe.files().iter().map(|f| f.name()).collect();
    assert_eq!(names, vec!["../", "A/", ".hidden", "b.txt"]);
    assert_eq!(fe.selected_idx(), 0);
    assert!(fe.show_hidden());
}

#[test]
fn scenario_enter_child() {
    let mut fe = FileExplorer::new("/tmp/x".to_string(), tmp_x_children());
    fe.handle(Input::Down);
    assert_eq!(fe.current().name(), "A/");

    let req = fe.handle(Input::Right).expect("entering a directory requests a listing");
    assert_eq!(req.dir, "/tmp/x/A");
    let inner = vec![entry("/tmp/x/A", "inner.txt", false, false)];
    fe.apply_listing(req, Ok(inner)).expect("commit succeeds");

    assert_eq!(fe.cwd(), "/tmp/x/A");
    assert_eq!(fe.selected_idx(), 0);
    let names: Vec<&str> = fe.files().iter().map(|f| f.name()).collect();
    assert_eq!(names, vec!["../", "inner.txt"]);
}

#[test]
fn up_and_down_wrap() {
    let mut fe = FileExplorer::new("/tmp/x".to_string(), tmp_x_children());
    assert_eq!(fe.files().len(), 3);
    assert_eq!(fe.selected_idx(), 0);
    fe.handle(Input::Up);
    assert_eq!(fe.selected_idx(), 2);
    fe.handle(Input::Down);
    assert_eq!(fe.selected_idx(), 0);
    fe.handle(Input::Down);
    assert_eq!(fe.selected_idx(), 1);
    fe.handle(Input::Up);
    assert_eq!(fe.selected_idx(), 0);
}

#[test]
fn home_and_end_jump() {
    let mut fe = FileExplorer::new("/tmp/x".to_string(), tmp_x_children());
    fe.handle(Input::End);
    assert_eq!(fe.selected_idx(), 2);
    fe.handle(Input::Home);
    assert_eq!(fe.selected_idx(), 0);
}

#[test]
fn page_moves_clamp_never_wrap() {
    // 29 files plus the parent entry: 30 entries, indices 0..=29.
    let mut children = Vec::new();
    for i in 0..29 {
        children.push(entry("/tmp/x", &format!("f{:02}", i), false, false));
    }
    let mut fe = FileExplorer::new("/tmp/x".to_string(), children);
    assert_eq!(fe.files().len(), 30);

    // Page down from 0 moves by the page size (12).
    fe.handle(Input::PageDown);
    assert_eq!(fe.selected_idx(), 12);
    fe.handle(Input::PageDown);
    assert_eq!(fe.selected_idx(), 24);
    // Near the end, a page down clamps to the last index.
    fe.handle(Input::PageDown);
    assert_eq!(fe.selected_idx(), 29);
    fe.handle(Input::PageDown);
    assert_eq!(fe.selected_idx(), 29);

    // Page up below the page size clamps to 0.
    fe.handle(Input::PageUp);
    assert_eq!(fe.selected_idx(), 17);
    fe.handle(Input::PageUp);
    assert_eq!(fe.selected_idx(), 5);
    fe.handle(Input::PageUp);
    assert_eq!(fe.selected_idx(), 0);
    fe.handle(Input::PageUp);
    assert_eq!(fe.selected_idx(), 0);
}

#[test]
fn enter_child_on_file_is_noop() {
    let mut fe = FileExplorer::new("/tmp/x".to_string(), tmp_x_children());
    fe.handle(Input::End);
    assert_eq!(fe.current().name(), "b.txt");
    let before: Vec<String> = fe.files().iter().map(|f| f.name().to_string()).collect();

    assert!(fe.handle(Input::Right).is_none());

    assert_eq!(fe.cwd(), "/tmp/x");
    assert_eq!(fe.selected_idx(), 2);
    let after: Vec<String> = fe.files().iter().map(|f| f.name().to_string()).collect();
    assert_eq!(before, after);
}

#[test]
fn enter_parent_at_root_is_noop() {
    let children = vec![entry("", "etc", true, false)];
    let mut fe = FileExplorer::new("/".to_string(), children);
    assert!(fe.handle(Input::Left).is_none());
    assert_eq!(fe.cwd(), "/");
    assert_eq!(fe.selected_idx(), 0);
}

#[test]
fn enter_parent_requests_parent_listing() {
    let mut fe = FileExplorer::new("/tmp/x".to_string(), tmp_x_children());
    let req = fe.handle(Input::Left).expect("a parent exists");
    assert_eq!(req.dir, "/tmp");
    assert!(!req.show_hidden);
    // Nothing changed before the commit.
    assert_eq!(fe.cwd(), "/tmp/x");

    let siblings = vec![entry("/tmp", "x", true, false)];
    fe.apply_listing(req, Ok(siblings)).expect("commit succeeds");
    assert_eq!(fe.cwd(), "/tmp");
    let names: Vec<&str> = fe.files().iter().map(|f| f.name()).collect();
    assert_eq!(names, vec!["../", "x/"]);
}

#[test]
fn toggling_twice_restores_entries() {
    let mut fe = FileExplorer::new("/tmp/x".to_string(), tmp_x_children());
    let before: Vec<String> = fe.files().iter().map(|f| f.name().to_string()).collect();

    let req = fe.handle(Input::ToggleShowHidden).unwrap();
    fe.apply_listing(req, Ok(tmp_x_children())).unwrap();
    assert!(fe.show_hidden());

    let req = fe.handle(Input::ToggleShowHidden).unwrap();
    assert!(!req.show_hidden);
    fe.apply_listing(req, Ok(tmp_x_children())).unwrap();
    assert!(!fe.show_hidden());

    let after: Vec<String> = fe.files().iter().map(|f| f.name().to_string()).collect();
    assert_eq!(before, after);
    assert_eq!(fe.selected_idx(), 0);
}

#[test]
fn failed_relist_preserves_state() {
    let mut fe = FileExplorer::new("/tmp/x".to_string(), tmp_x_children());
    fe.handle(Input::Down);
    let before: Vec<String> = fe.files().iter().map(|f| f.name().to_string()).collect();

    let req = fe.handle(Input::ToggleShowHidden).unwrap();
    let r = fe.apply_listing(req, Err(ListError::NotFound));
    assert_eq!(r, Err(ListError::NotFound));

    assert_eq!(fe.cwd(), "/tmp/x");
    assert_eq!(fe.selected_idx(), 1);
    assert!(!fe.show_hidden());
    let after: Vec<String> = fe.files().iter().map(|f| f.name().to_string()).collect();
    assert_eq!(before, after);
}

#[test]
fn each_error_kind_round_trips() {
    let mut fe = FileExplorer::new("/tmp/x".to_string(), tmp_x_children());
    for e in [ListError::NotFound, ListError::PermissionDenied, ListError::Other] {
        let req = fe.set_show_hidden(true);
        assert_eq!(fe.apply_listing(req, Err(e)), Err(e));
        assert!(!fe.show_hidden());
    }
}

#[test]
fn set_cwd_and_set_show_hidden_requests() {
    let mut fe = FileExplorer::new("/tmp/x".to_string(), tmp_x_children());
    let req = fe.set_cwd("/var/log".to_string());
    assert_eq!(req.dir, "/var/log");
    assert!(!req.show_hidden);
    let children = vec![entry("/var/log", "syslog", false, false)];
    fe.apply_listing(req, Ok(children)).unwrap();
    assert_eq!(fe.cwd(), "/var/log");
    let names: Vec<&str> = fe.files().iter().map(|f| f.name()).collect();
    assert_eq!(names, vec!["../", "syslog"]);

    let req = fe.set_show_hidden(true);
    assert_eq!(req.dir, "/var/log");
    assert!(req.show_hidden);
}

#[test]
fn set_selected_idx_moves_selection() {
    let mut fe = FileExplorer::new("/tmp/x".to_string(), tmp_x_children());
    fe.set_selected_idx(2);
    assert_eq!(fe.selected_idx(), 2);
    assert_eq!(fe.current().name(), "b.txt");
    fe.set_selected_idx(0);
    assert_eq!(fe.current().name(), "../");
}

#[test]
fn empty_listing_at_root_is_explicit() {
    let mut fe = FileExplorer::new("/".to_string(), Vec::new());
    assert_eq!(fe.files().len(), 0);
    assert_eq!(fe.selected_idx(), 0);
    // Every selection move is a no-op on an empty listing.
    for input in [Input::Up, Input::Down, Input::Home, Input::End, Input::PageUp, Input::PageDown] {
        assert!(fe.handle(input).is_none());
        assert_eq!(fe.selected_idx(), 0);
    }
    // Entering the selected entry has nothing to enter.
    assert!(fe.handle(Input::Right).is_none());
}

#[test]
fn noop_command_changes_nothing() {
    let mut fe = FileExplorer::new("/tmp/x".to_string(), tmp_x_children());
    fe.handle(Input::Down);
    assert!(fe.handle(Input::NoOp).is_none());
    assert_eq!(fe.selected_idx(), 1);
    assert_eq!(fe.cwd(), "/tmp/x");
}
