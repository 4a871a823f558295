use partial_commander::app::{App, NavError};
use partial_commander::browser::Browser;
use partial_commander::listing::{Entry, EntryKind, Scan};
use partial_commander::location::Location;
use partial_commander::pane::{Folder, UiData};
use partial_commander::sniff::FileSample;

fn s(x: &str) -> String {
    x.to_string()
}

fn names(xs: &[&str]) -> Vec<String> {
    xs.iter().map(|x| s(x)).collect()
}

fn loc(parts: &[&str]) -> Location {
    Location::new(s("/"), s("/"), names(parts))
}

fn dir(name: &str) -> Entry {
    Entry::new(s(name), EntryKind::Directory)
}

fn file(name: &str) -> Entry {
    Entry::new(s(name), EntryKind::File)
}

#[test]
fn cyclic_selection() {
    let mut f = Folder::new(names(&["x", "y", "z"]));
    assert_eq!(f.selected(), None);
    f.previous();
    assert_eq!(f.selected(), Some(0));
    f.select(Some(2));
    f.next();
    assert_eq!(f.selected(), Some(0));
    f.previous();
    assert_eq!(f.selected(), Some(2));
    let mut g = Folder::new(names(&["x", "y", "z"]));
    g.next();
    assert_eq!(g.selected(), Some(0));
    g.next();
    assert_eq!(g.selected(), Some(1));
}

#[test]
fn empty_pane_ignores_moves() {
    let mut f = Folder::new(vec![]);
    f.next();
    assert_eq!(f.selected(), None);
    f.previous();
    assert_eq!(f.selected(), None);
}

#[test]
fn select_clamps_one_past_end() {
    let mut f = Folder::new(names(&["x", "y"]));
    f.select(Some(9));
    assert_eq!(f.selected(), Some(2));
    f.next();
    assert_eq!(f.selected(), Some(0));
    f.select(Some(2));
    f.previous();
    assert_eq!(f.selected(), Some(1));
    f.select(None);
    assert_eq!(f.selected(), None);
    f.select(Some(1));
    f.unselect();
    assert_eq!(f.selected(), None);
}

#[test]
fn set_items_resets_cursor() {
    let mut f = Folder::new(names(&["x", "y"]));
    f.select(Some(1));
    f.set_items(names(&["p"]));
    assert_eq!(f.selected(), None);
    assert_eq!(f.items(), &names(&["p"]));
}

#[test]
fn browser_descend_ascend_returns_to_start() {
    // `/a` holds the directory `b` and the file `c.txt`; `/` holds `a`.
    let app = App::new(loc(&["a"]), false);
    let a_scan = Scan::Entries(vec![dir("b"), file("c.txt")]);
    let root_scan = Scan::Entries(vec![dir("a")]);
    let mut b = Browser::new(app, &a_scan, &root_scan);
    assert_eq!(b.current.items(), &names(&["b/", "c.txt"]));
    assert_eq!(b.current.selected(), Some(0));
    assert_eq!(b.parent.items(), &names(&["a/"]));
    assert_eq!(b.parent.selected(), Some(0));

    let b_scan = Scan::Entries(vec![file("inner")]);
    assert!(b.descend(&a_scan, &b_scan));
    assert_eq!(b.app.current_path().text(), "/a/b");
    assert_eq!(b.parent.items(), &names(&["b/", "c.txt"]));
    assert_eq!(b.parent.selected(), Some(0));
    assert_eq!(b.current.items(), &names(&["inner"]));
    assert_eq!(b.current.selected(), Some(0));

    assert!(b.ascend(&b_scan, &root_scan));
    assert_eq!(b.app.current_path().text(), "/a");
    assert_eq!(b.current.items(), &names(&["b/", "c.txt"]));
    assert_eq!(b.current.selected(), Some(0));
    assert_eq!(b.parent.items(), &names(&["a/"]));
    assert_eq!(b.parent.selected(), Some(0));
}

#[test]
fn browser_history_restores_selection_of_b() {
    // Starting at `/a` with `b` selected, ascending records `/a/b`; coming
    // back into `/a` puts the cursor on `b` again.
    let app = App::new(loc(&["a"]), false);
    let a_scan = Scan::Entries(vec![file("c.txt"), dir("b")]);
    let root_scan = Scan::Entries(vec![dir("a")]);
    let mut b = Browser::new(app, &a_scan, &root_scan);
    b.move_next();
    assert_eq!(b.current.selected(), Some(1));
    assert!(b.ascend(&a_scan, &Scan::NotADirectory));
    assert_eq!(b.app.current_path().text(), "/");
    assert_eq!(b.app.history().len(), 1);
    assert_eq!(b.app.history()[0].text(), "/a/b");
    assert_eq!(b.parent.items().len(), 0);
    assert_eq!(b.current.items(), &names(&["a/"]));
    assert!(b.descend(&root_scan, &a_scan));
    assert_eq!(b.app.current_path().text(), "/a");
    assert_eq!(b.current.selected(), Some(1));
    assert_eq!(b.current.items()[1], "b/");
    assert_eq!(b.app.history().len(), 0);
}

#[test]
fn browser_stays_on_failed_moves() {
    let app = App::new(loc(&[]), false);
    let root_scan = Scan::Entries(vec![file("f")]);
    let mut b = Browser::new(app, &root_scan, &Scan::NotADirectory);
    assert!(!b.ascend(&root_scan, &Scan::NotADirectory));
    assert!(!b.descend(&root_scan, &Scan::NotADirectory));
    assert_eq!(b.app.current_path().text(), "/");
    b.move_previous();
    assert_eq!(b.current.selected(), Some(0));
    b.current.unselect();
    assert!(!b.descend(&root_scan, &Scan::NotADirectory));
}

#[test]
fn preview_memo_skips_unchanged_selection() {
    let mut ui = UiData::new();
    assert!(ui.child_is_folder);
    assert_eq!(ui.preview_due(Some(0), true), None);
    assert_eq!(ui.preview_due(Some(0), false), Some(0));
    assert_eq!(ui.preview_due(Some(2), true), Some(2));
    assert_eq!(ui.current_last_selected, 2);
    assert_eq!(ui.preview_due(Some(2), true), None);
    assert_eq!(ui.preview_due(None, false), None);
}

#[test]
fn refresh_preview_of_directory_and_file() {
    let app = App::new(loc(&["a"]), false);
    let a_scan = Scan::Entries(vec![dir("b"), file("c.txt")]);
    let b_scan = Scan::Entries(vec![file("x")]);
    let mut ui = UiData::new();
    ui.refresh_preview(&app, 0, &a_scan, &b_scan, &None);
    assert!(ui.child_is_folder);
    assert_eq!(ui.child_list, Ok(names(&["x"])));
    let sample = FileSample { head: b"hello\n".to_vec(), lines: vec![Some(s("hello"))] };
    ui.refresh_preview(&app, 1, &a_scan, &Scan::NotADirectory, &Some(sample));
    assert!(!ui.child_is_folder);
    assert_eq!(ui.child_content, Some(names(&["hello"])));
    ui.refresh_preview(&app, 4, &a_scan, &Scan::NotADirectory, &None);
    assert_eq!(ui.child_content, None);
    let dirs = App::new(loc(&["a"]), true);
    ui.refresh_preview(&dirs, 4, &a_scan, &b_scan, &None);
    assert_eq!(ui.child_list, Err(NavError::NotFound));
}
