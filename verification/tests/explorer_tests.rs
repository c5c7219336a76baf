use anvel::explorer::FileExplorer;
use anvel::explorer::FileOperation;
use anvel::explorer::LanServerMsg;
use anvel::explorer::LanTransferState;
use anvel::explorer::MenuAction;
use anvel::explorer::MenuEffect;
use anvel::explorer::PasteStep;
use anvel::explorer::RenameStep;
use anvel::explorer::ViewMode;
use anvel::lan::make_peer;
use anvel::listing::DirEntry;
use anvel::listing::SortBy;
use anvel::theme::Rgb;

fn entry(dir: &str, name: &str, is_dir: bool) -> DirEntry {
    DirEntry {
        name: name.to_string(),
        path: format!("{}/{}", dir, name),
        is_dir,
        size: 10,
        modified: None,
        extension: name.rsplit_once('.').map(|(_, x)| x.to_string()).unwrap_or_default(),
    }
}

fn loaded(home: &str, names: &[(&str, bool)]) -> FileExplorer {
    let mut ex = FileExplorer::new(home);
    let listing = names.iter().map(|(n, d)| entry(home, n, *d)).collect();
    ex.load_directory(Ok(listing));
    ex
}

#[test]
fn new_explorer_starts_at_home() {
    let ex = FileExplorer::new("/home/u");
    assert_eq!(ex.current_path(), "/home/u");
    assert!(ex.entries().is_empty());
    assert!(!ex.can_go_back());
    assert!(!ex.can_go_forward());
    assert_eq!(ex.sort_by(), SortBy::Name);
    assert_eq!(ex.view_mode(), ViewMode::Details);
    assert!(ex.dark_mode());
    assert!(!ex.show_hidden());
}

#[test]
fn load_directory_sorts_filters_and_hides() {
    let ex = loaded("/h", &[("b.txt", false), (".cache", true), ("Docs", true), ("a.rs", false)]);
    let names: Vec<&str> = ex.entries().iter().map(|e| e.name.as_str()).collect();
    assert_eq!(names, vec!["Docs", "a.rs", "b.txt"]);
    assert_eq!(ex.filtered_entries(), &vec![0, 1, 2]);
    assert_eq!(ex.selected_file(), None);
    assert_eq!(ex.error_message(), &None);
}

#[test]
fn load_directory_error_keeps_rows() {
    let mut ex = loaded("/h", &[("a", false)]);
    ex.select(0);
    ex.load_directory(Err("permission denied".to_string()));
    assert!(ex.entries().is_empty());
    assert_eq!(ex.filtered_entries(), &vec![0]);
    assert_eq!(ex.error_message().as_deref(), Some("Failed to read directory: permission denied"));
    assert_eq!(ex.selected_file(), None);
}

#[test]
fn navigation_history() {
    let mut ex = FileExplorer::new("/a");
    assert!(ex.navigate_to("/a/b".to_string()));
    assert!(ex.navigate_to("/a/b/c".to_string()));
    assert!(!ex.navigate_to("/a/b/c".to_string()));
    assert!(ex.go_back());
    assert_eq!(ex.current_path(), "/a/b");
    assert!(ex.go_back());
    assert_eq!(ex.current_path(), "/a");
    assert!(!ex.go_back());
    assert!(ex.go_forward());
    assert_eq!(ex.current_path(), "/a/b");
    // moving from the middle drops the forward history
    assert!(ex.navigate_to("/x".to_string()));
    assert!(!ex.can_go_forward());
    assert!(ex.go_back());
    assert_eq!(ex.current_path(), "/a/b");
    assert!(ex.go_back());
    assert_eq!(ex.current_path(), "/a");
}

#[test]
fn navigate_to_same_path_components() {
    let mut ex = FileExplorer::new("/a/b");
    // a trailing slash names the same path
    assert!(!ex.navigate_to("/a/b/".to_string()));
    assert_eq!(ex.current_path(), "/a/b");
}

#[test]
fn go_up_moves_to_parent() {
    let mut ex = FileExplorer::new("/a/b");
    assert!(ex.go_up());
    assert_eq!(ex.current_path(), "/a");
    assert!(ex.go_up());
    assert_eq!(ex.current_path(), "/");
    assert!(!ex.go_up());
    assert_eq!(ex.current_path(), "/");
    assert!(ex.go_back());
    assert_eq!(ex.current_path(), "/a");
}

#[test]
fn copy_cut_paste() {
    let mut ex = loaded("/h", &[("x.txt", false), ("y.txt", false)]);
    ex.copy_file();
    assert!(ex.clipboard().is_none());
    ex.select(1);
    ex.copy_file();
    assert_eq!(ex.clipboard(), &Some(("/h/y.txt".to_string(), FileOperation::Copy)));
    assert_eq!(ex.notifications().last().unwrap().message, "Copied \"y.txt\"");
    assert_eq!(ex.notifications().last().unwrap().color, Rgb { r: 80, g: 180, b: 120 });
    ex.navigate_to("/other".to_string());
    match ex.paste_file() {
        PasteStep::Go { source, dest, op } => {
            assert_eq!(source, "/h/y.txt");
            assert_eq!(dest, "/other/y.txt");
            assert_eq!(op, FileOperation::Copy);
        },
        other => panic!("unexpected {:?}", other),
    }
    // copying keeps the clipboard
    assert!(ex.clipboard().is_some());
    assert_eq!(ex.notifications().last().unwrap().message, "Pasted successfully");
    ex.select(0);
    let mut ex2 = loaded("/h", &[("x.txt", false)]);
    ex2.select(0);
    ex2.cut_file();
    assert_eq!(ex2.notifications().last().unwrap().message, "Cut \"x.txt\"");
    assert_eq!(ex2.notifications().last().unwrap().color, Rgb { r: 210, g: 160, b: 50 });
    match ex2.paste_file() {
        PasteStep::Go { op, .. } => assert_eq!(op, FileOperation::Cut),
        other => panic!("unexpected {:?}", other),
    }
    // moving empties the clipboard
    assert!(ex2.clipboard().is_none());
    assert!(matches!(ex2.paste_file(), PasteStep::Nothing));
}

#[test]
fn paste_unnamed_source() {
    let mut ex = FileExplorer::new("/h");
    ex.load_directory(Ok(vec![DirEntry {
        name: "root".to_string(),
        path: "/".to_string(),
        is_dir: true,
        size: 0,
        modified: None,
        extension: String::new(),
    }]));
    ex.select(0);
    ex.copy_file();
    assert!(matches!(ex.paste_file(), PasteStep::Unnamed));
}

#[test]
fn delete_flow() {
    let mut ex = loaded("/h", &[("dir", true), ("f.txt", false)]);
    assert!(ex.delete_target().is_none());
    ex.select(1);
    let t = ex.delete_target().unwrap();
    assert_eq!(t.path, "/h/f.txt");
    assert!(!t.is_dir);
    assert_eq!(t.name, "f.txt");
    assert!(!ex.finish_delete(&t.name, Err("busy".to_string())));
    assert_eq!(ex.error_message().as_deref(), Some("Failed to delete: busy"));
    assert_eq!(ex.selected_file(), Some(1));
    assert!(ex.finish_delete(&t.name, Ok(())));
    assert_eq!(ex.selected_file(), None);
    assert_eq!(ex.notifications().last().unwrap().message, "Deleted \"f.txt\"");
    assert_eq!(ex.notifications().last().unwrap().color, Rgb { r: 210, g: 70, b: 70 });
}

#[test]
fn new_folder_candidates() {
    let mut ex = FileExplorer::new("/h");
    assert_eq!(ex.new_folder_candidate(0), "/h/New Folder");
    assert_eq!(ex.new_folder_candidate(1), "/h/New Folder (1)");
    assert_eq!(ex.new_folder_candidate(12), "/h/New Folder (12)");
    assert!(ex.folder_created());
    assert_eq!(ex.notifications().last().unwrap().message, "Created \"New Folder\"");
}

#[test]
fn rename_flow() {
    let mut ex = loaded("/h", &[("a.txt", false), ("b.txt", false)]);
    ex.open_context_menu(1, 1, 5);
    ex.menu_action(Some(MenuAction::Rename), false, 6);
    assert_eq!(ex.renaming(), &Some((1, "b.txt".to_string())));
    ex.set_rename_text("c.txt".to_string());
    assert_eq!(ex.renaming(), &Some((1, "c.txt".to_string())));
    match ex.finish_rename(1, "c.txt") {
        RenameStep::Move { from, to } => {
            assert_eq!(from, "/h/b.txt");
            assert_eq!(to, "/h/c.txt");
        },
        other => panic!("unexpected {:?}", other),
    }
    assert!(ex.renaming().is_none());
    assert!(matches!(ex.finish_rename(0, ""), RenameStep::Skip));
    assert!(matches!(ex.finish_rename(7, "x"), RenameStep::Skip));
}

#[test]
fn search_and_sort_changes() {
    let mut ex = loaded("/h", &[("apple", false), ("Banana", false), ("cherry", true)]);
    ex.set_search_query("AN".to_string());
    let shown: Vec<&str> = ex.filtered_entries().iter().map(|&i| ex.entries()[i].name.as_str()).collect();
    assert_eq!(shown, vec!["Banana"]);
    ex.set_sort(SortBy::Size);
    assert_eq!(ex.sort_by(), SortBy::Size);
    assert!(ex.toggle_hidden());
    assert!(ex.show_hidden());
    ex.set_view_mode(ViewMode::List);
    assert_eq!(ex.view_mode(), ViewMode::List);
}

#[test]
fn notifications_expire_after_five_seconds() {
    let mut ex = FileExplorer::new("/h");
    ex.tick(1_000);
    ex.push_notification("one".to_string(), Rgb { r: 1, g: 2, b: 3 }, 1_000);
    ex.tick(3_000_000_000);
    ex.push_notification("two".to_string(), Rgb { r: 1, g: 2, b: 3 }, 3_000_000_000);
    assert_eq!(ex.notifications().len(), 2);
    ex.tick(5_000_000_999);
    assert_eq!(ex.notifications().len(), 2);
    ex.tick(5_000_001_000);
    let left: Vec<&str> = ex.notifications().iter().map(|n| n.message.as_str()).collect();
    assert_eq!(left, vec!["two"]);
    ex.tick(8_000_000_000);
    assert!(ex.notifications().is_empty());
}

#[test]
fn context_menu_actions() {
    let mut ex = loaded("/h", &[("docs", true), ("r.pdf", false)]);
    // opening a folder navigates
    ex.open_context_menu(0, 0, 1);
    assert!(matches!(ex.menu_action(Some(MenuAction::Open), false, 2), MenuEffect::Reload));
    assert_eq!(ex.current_path(), "/h/docs");
    assert!(ex.context_menu().is_none());

    let mut ex = loaded("/h", &[("docs", true), ("r.pdf", false)]);
    ex.open_context_menu(1, 1, 1);
    // the opening click does not close it
    assert!(matches!(ex.menu_action(None, true, 1), MenuEffect::Nothing));
    assert!(ex.context_menu().is_some());
    // a later click outside does
    assert!(matches!(ex.menu_action(None, true, 2), MenuEffect::Nothing));
    assert!(ex.context_menu().is_none());

    ex.open_context_menu(1, 1, 3);
    match ex.menu_action(Some(MenuAction::Open), false, 3) {
        MenuEffect::OpenFile(p) => assert_eq!(p, "/h/r.pdf"),
        other => panic!("unexpected {:?}", other),
    }
    ex.open_context_menu(1, 1, 3);
    match ex.menu_action(Some(MenuAction::ShareLink), false, 3) {
        MenuEffect::CopyText(t) => assert_eq!(t, anvel::format::share_link("r.pdf")),
        other => panic!("unexpected {:?}", other),
    }
    assert_eq!(ex.notifications().last().unwrap().message, "Share link copied to clipboard");
    ex.open_context_menu(0, 0, 3);
    assert!(matches!(ex.menu_action(Some(MenuAction::ShareLan), false, 3), MenuEffect::Nothing));
    assert_eq!(ex.notifications().last().unwrap().message, "LAN send: select a file, not a folder");
    ex.open_context_menu(1, 1, 3);
    match ex.menu_action(Some(MenuAction::ShareLan), false, 3) {
        MenuEffect::StartDiscovery(p) => assert_eq!(p, "/h/r.pdf"),
        other => panic!("unexpected {:?}", other),
    }
    assert!(matches!(ex.lan_state(), LanTransferState::Discovering));
    ex.open_context_menu(1, 1, 3);
    ex.menu_action(Some(MenuAction::Properties), false, 3);
    assert_eq!(ex.properties_dialog().as_deref(), Some("/h/r.pdf"));
    ex.close_properties();
    assert!(ex.properties_dialog().is_none());
    ex.open_context_menu(1, 1, 3);
    match ex.menu_action(Some(MenuAction::Delete), false, 3) {
        MenuEffect::Delete(Some(t)) => assert_eq!(t.path, "/h/r.pdf"),
        other => panic!("unexpected {:?}", other),
    }
    ex.open_context_menu(0, 0, 3);
    ex.menu_action(Some(MenuAction::Cut), false, 3);
    assert_eq!(ex.clipboard(), &Some(("/h/docs".to_string(), FileOperation::Cut)));
    ex.open_context_menu(1, 1, 3);
    match ex.menu_action(Some(MenuAction::Paste), false, 3) {
        MenuEffect::Paste(PasteStep::Go { dest, .. }) => assert_eq!(dest, "/h/docs"),
        other => panic!("unexpected {:?}", other),
    }
}

#[test]
fn menu_for_missing_entry_closes() {
    let mut ex = loaded("/h", &[("a", false)]);
    ex.open_context_menu(0, 9, 1);
    assert_eq!(ex.menu_target(), None);
    assert!(ex.context_menu().is_none());
    ex.open_context_menu(0, 0, 1);
    assert_eq!(ex.menu_target(), Some(0));
}

#[test]
fn lan_states() {
    let mut ex = FileExplorer::new("/h");
    assert!(ex.start_lan_send(make_peer("pc", "10.0.0.2")).is_none());
    ex.start_lan_discover("/h/f.bin".to_string());
    assert_eq!(ex.lan_file_path().as_deref(), Some("/h/f.bin"));
    ex.lan_peers_found(vec![make_peer("pc", "10.0.0.2")]);
    match ex.lan_state() {
        LanTransferState::Ready(peers) => assert_eq!(peers[0].display, "pc (10.0.0.2)"),
        other => panic!("unexpected {:?}", other),
    }
    let (path, addr) = ex.start_lan_send(make_peer("pc", "10.0.0.2")).unwrap();
    assert_eq!(path, "/h/f.bin");
    assert_eq!(addr, "10.0.0.2");
    assert!(matches!(ex.lan_state(), LanTransferState::Sending { peer_name } if peer_name == "pc (10.0.0.2)"));
    ex.lan_transfer_finished(Ok(()));
    assert!(matches!(ex.lan_state(), LanTransferState::Done(m) if m == "File sent successfully!"));
    ex.lan_transfer_finished(Err("Cannot connect to peer: refused".to_string()));
    assert!(matches!(ex.lan_state(), LanTransferState::Failed(m) if m == "Cannot connect to peer: refused"));
    ex.close_lan_dialog();
    assert!(matches!(ex.lan_state(), LanTransferState::Idle));
    assert!(ex.lan_file_path().is_none());
}

#[test]
fn lan_server_messages() {
    let mut ex = FileExplorer::new("/home/u");
    let reload = ex.lan_server_message(LanServerMsg::FileReceived { name: "a.txt".to_string(), dest: "/home/u/a.txt".to_string() }, 0);
    assert!(reload);
    assert_eq!(ex.notifications().last().unwrap().message, "📥 Received \"a.txt\" → /home/u");
    ex.navigate_to("/tmp".to_string());
    let reload = ex.lan_server_message(LanServerMsg::FileReceived { name: "b".to_string(), dest: "/home/u/b".to_string() }, 0);
    assert!(!reload);
    let reload = ex.lan_server_message(LanServerMsg::Error("boom".to_string()), 0);
    assert!(!reload);
    assert_eq!(ex.notifications().last().unwrap().message, "LAN error: boom");
    assert_eq!(ex.notifications().last().unwrap().color, Rgb { r: 210, g: 70, b: 70 });
}

#[test]
fn navigating_to_the_shown_folder_or_twice_changes_nothing() {
    let mut ex = FileExplorer::new("/home/u");
    assert!(!ex.navigate_to("/home/u".to_string()));
    assert!(!ex.can_go_back());
    assert!(ex.navigate_to("/home/u/docs".to_string()));
    assert!(!ex.navigate_to("/home/u/docs".to_string()));
    assert_eq!(ex.current_path(), "/home/u/docs");
    assert!(ex.go_back());
    assert_eq!(ex.current_path(), "/home/u");
    assert!(!ex.can_go_back());
}

#[test]
fn rescan_is_offered_after_peers_or_failure() {
    let mut ex = FileExplorer::new("/h");
    assert!(!ex.rescan_offered());
    assert_eq!(ex.rescan(), None);
    ex.start_lan_discover("/h/f.bin".to_string());
    assert!(!ex.rescan_offered());
    assert_eq!(ex.rescan(), None);
    ex.lan_peers_found(vec![make_peer("pc", "10.0.0.2")]);
    assert!(ex.rescan_offered());
    assert_eq!(ex.rescan(), Some("/h/f.bin".to_string()));
    assert!(matches!(ex.lan_state(), LanTransferState::Discovering));
    ex.lan_transfer_finished(Err("Cannot connect to peer".to_string()));
    assert!(ex.rescan_offered());
    ex.close_lan_dialog();
    assert!(!ex.rescan_offered());
    assert_eq!(ex.rescan(), None);
}

#[test]
fn received_file_notice_is_stamped_when_it_arrives() {
    let mut ex = FileExplorer::new("/home/u");
    ex.tick(1_000);
    // the window stayed idle for a minute before the file arrived
    let reload = ex.lan_server_message(
        LanServerMsg::FileReceived { name: "a.txt".to_string(), dest: "/tmp/a.txt".to_string() },
        60_000_000_000,
    );
    assert!(!reload);
    assert_eq!(ex.notifications().last().unwrap().created, 60_000_000_000);
    ex.tick(60_000_000_001);
    assert_eq!(ex.notifications().len(), 1);
    ex.tick(64_999_999_999);
    assert_eq!(ex.notifications().len(), 1);
    ex.tick(65_000_000_000);
    assert!(ex.notifications().is_empty());
}

#[test]
fn opening_a_row_moves_into_folders_and_opens_files() {
    let mut ex = loaded("/h", &[("docs", true), ("a.txt", false)]);
    match ex.open_row(1) {
        MenuEffect::OpenFile(p) => assert_eq!(p, "/h/a.txt"),
        other => panic!("unexpected {:?}", other),
    }
    assert_eq!(ex.current_path(), "/h");
    assert!(matches!(ex.open_row(7), MenuEffect::Nothing));
    assert!(matches!(ex.open_row(0), MenuEffect::Reload));
    assert_eq!(ex.current_path(), "/h/docs");
    assert!(ex.can_go_back());
}
