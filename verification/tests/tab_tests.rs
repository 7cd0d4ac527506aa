use marcos::entry::Entry;
use marcos::entry::EntryKind;
use marcos::errors::IoErrorKind;
use marcos::fs_path::AbsPath;
use marcos::listing::DirView;
use marcos::tab::BackStep;
use marcos::tab::Tab;

fn path(components: &[&str]) -> AbsPath {
    let mut v: Vec<String> = Vec::new();
    for c in components {
        v.push((*c).to_string());
    }
    AbsPath::from_components(v)
}

fn entry(dir: &AbsPath, name: &str, kind: EntryKind) -> Entry {
    Entry::new(dir.child(name.to_string()), kind)
}

fn home_u_tab() -> Tab {
    // A tab opened at /home/u listing [docs, notes.txt], in that order.
    let home_u = path(&["home", "u"]);
    let docs = entry(&home_u, "docs", EntryKind::Directory);
    let notes = entry(&home_u, "notes.txt", EntryKind::File);
    let current = DirView::new(path(&["home", "u"]), vec![docs, notes]);
    let home = path(&["home"]);
    let u = entry(&home, "u", EntryKind::Directory);
    let parent = DirView::new(path(&["home"]), vec![u]);
    Tab::open("1".to_string(), current, Some(parent))
}

#[test]
fn open_selects_first_entry_and_previews_it() {
    let tab = home_u_tab();
    assert_eq!(tab.current_view.selected_index, 0);
    let preview = tab.preview_target.as_ref().unwrap();
    assert_eq!(preview.name().unwrap(), "docs");
    assert_eq!(preview.kind, EntryKind::Directory);
    assert!(tab.parent_view.as_ref().unwrap().path.same_as(&path(&["home"])));
}

#[test]
fn scenario_browse_descend_into_docs() {
    // Opened at /home/u with [docs, notes.txt]: initial cursor on docs.
    let mut tab = home_u_tab();
    assert_eq!(tab.current_view.selected_index, 0);
    assert_eq!(tab.preview_target.as_ref().unwrap().name().unwrap(), "docs");

    // MoveDown: cursor on notes.txt.
    tab.move_selection(1);
    assert_eq!(tab.current_view.selected_index, 1);
    assert_eq!(tab.preview_target.as_ref().unwrap().name().unwrap(), "notes.txt");

    // Enter on a file: no target, no state change.
    assert!(tab.enter_target().is_none());
    let before_sel = tab.current_view.selected_index;
    let r = tab.enter(None);
    assert!(r.is_ok());
    assert_eq!(tab.current_view.selected_index, before_sel);
    assert!(tab.current_view.path.same_as(&path(&["home", "u"])));
    assert_eq!(tab.preview_target.as_ref().unwrap().name().unwrap(), "notes.txt");

    // MoveUp: back on docs.
    tab.move_selection(-1);
    assert_eq!(tab.current_view.selected_index, 0);

    // Enter on docs (a directory): re-based onto /home/u/docs.
    let target = tab.enter_target().unwrap();
    assert!(target.same_as(&path(&["home", "u", "docs"])));
    let docs_path = path(&["home", "u", "docs"]);
    let readme = entry(&docs_path, "readme", EntryKind::File);
    let loaded = DirView::new(path(&["home", "u", "docs"]), vec![readme]);
    let r = tab.enter(Some(Ok(loaded)));
    assert!(r.is_ok());
    assert!(tab.current_view.path.same_as(&path(&["home", "u", "docs"])));
    assert!(tab.parent_view.as_ref().unwrap().path.same_as(&path(&["home", "u"])));
    // The new parent listing is the pre-enter current listing, unchanged.
    let parent = tab.parent_view.as_ref().unwrap();
    assert_eq!(parent.entries.len(), 2);
    assert_eq!(parent.entries[0].name().unwrap(), "docs");
    assert_eq!(parent.entries[1].name().unwrap(), "notes.txt");
    assert_eq!(parent.selected_index, 0);
}

#[test]
fn enter_then_go_back_restores_current_view() {
    let mut tab = home_u_tab();
    tab.move_selection(1);
    tab.move_selection(-1);
    let sel_before = tab.current_view.selected_index;

    let docs_path = path(&["home", "u", "docs"]);
    let readme = entry(&docs_path, "readme", EntryKind::File);
    let loaded = DirView::new(path(&["home", "u", "docs"]), vec![readme]);
    tab.enter(Some(Ok(loaded))).unwrap();

    // Going back needs the listing of /home re-read.
    let step = tab.go_back_step();
    let q = match step {
        BackStep::Load(q) => q,
        _ => panic!("expected a load request"),
    };
    assert!(q.same_as(&path(&["home"])));
    let home = path(&["home"]);
    let u = entry(&home, "u", EntryKind::Directory);
    let reloaded = DirView::new(path(&["home"]), vec![u]);
    tab.go_back_finish(Ok(reloaded)).unwrap();

    assert!(tab.current_view.path.same_as(&path(&["home", "u"])));
    assert_eq!(tab.current_view.selected_index, sel_before);
    assert_eq!(tab.current_view.entries.len(), 2);
    assert_eq!(tab.preview_target.as_ref().unwrap().name().unwrap(), "docs");
}

#[test]
fn scenario_go_back_at_root_is_a_no_op() {
    let root = AbsPath::root();
    let bin = entry(&root, "bin", EntryKind::Directory);
    let current = DirView::new(AbsPath::root(), vec![bin]);
    let mut tab = Tab::open("1".to_string(), current, None);
    let step = tab.go_back_step();
    assert!(matches!(step, BackStep::NoParent));
    assert!(tab.current_view.path.same_as(&AbsPath::root()));
    assert_eq!(tab.current_view.selected_index, 0);
}

#[test]
fn go_back_onto_a_root_parent_needs_no_read() {
    // Browsing /home with parent /, the root: going back re-bases in place.
    let root = AbsPath::root();
    let home_entry = entry(&root, "home", EntryKind::Directory);
    let parent = DirView::new(AbsPath::root(), vec![home_entry]);
    let home = path(&["home"]);
    let u = entry(&home, "u", EntryKind::Directory);
    let current = DirView::new(path(&["home"]), vec![u]);
    let mut tab = Tab::open("1".to_string(), current, Some(parent));
    let step = tab.go_back_step();
    assert!(matches!(step, BackStep::Rebased));
    assert!(tab.current_view.path.same_as(&AbsPath::root()));
    assert!(tab.parent_view.is_none());
    assert_eq!(tab.preview_target.as_ref().unwrap().name().unwrap(), "home");
}

#[test]
fn scenario_enter_denied_leaves_tab_unchanged() {
    let mut tab = home_u_tab();
    assert!(tab.enter_target().is_some());
    let r = tab.enter(Some(Err(IoErrorKind::PermissionDenied)));
    let e = r.unwrap_err();
    assert!(e.path.same_as(&path(&["home", "u", "docs"])));
    assert_eq!(e.cause, IoErrorKind::PermissionDenied);
    assert!(tab.current_view.path.same_as(&path(&["home", "u"])));
    assert_eq!(tab.current_view.selected_index, 0);
    assert_eq!(tab.current_view.entries.len(), 2);
    assert!(tab.parent_view.as_ref().unwrap().path.same_as(&path(&["home"])));
}

#[test]
fn go_back_read_failure_rolls_the_rebase_back() {
    let mut tab = home_u_tab();
    let step = tab.go_back_step();
    assert!(matches!(step, BackStep::Load(_)));
    let r = tab.go_back_finish(Err(IoErrorKind::NotFound));
    let e = r.unwrap_err();
    assert!(e.path.same_as(&AbsPath::root()));
    assert_eq!(e.cause, IoErrorKind::NotFound);
    assert!(tab.current_view.path.same_as(&path(&["home", "u"])));
    assert!(tab.parent_view.as_ref().unwrap().path.same_as(&path(&["home"])));
}

#[test]
fn refresh_keeps_the_selected_entry_where_still_present() {
    let mut tab = home_u_tab();
    tab.move_selection(1);  // cursor on notes.txt

    // The directory changed: docs vanished, a new zette appeared first.
    let home_u = path(&["home", "u"]);
    let zette = entry(&home_u, "zette", EntryKind::File);
    let notes = entry(&home_u, "notes.txt", EntryKind::File);
    let new_current = DirView::new(path(&["home", "u"]), vec![zette, notes]);
    let home = path(&["home"]);
    let u = entry(&home, "u", EntryKind::Directory);
    let v = entry(&home, "v", EntryKind::Directory);
    let new_parent = DirView::new(path(&["home"]), vec![v, u]);

    tab.refresh(Ok(new_current), Some(Ok(new_parent))).unwrap();
    // notes.txt is still listed: the cursor follows it to index 1.
    assert_eq!(tab.current_view.selected_index, 1);
    assert_eq!(tab.preview_target.as_ref().unwrap().name().unwrap(), "notes.txt");
    // The parent's selected path /home/u moved to index 1 as well.
    assert_eq!(tab.parent_view.as_ref().unwrap().selected_index, 1);
}

#[test]
fn refresh_resets_selection_when_the_entry_is_gone() {
    let mut tab = home_u_tab();
    tab.move_selection(1);  // cursor on notes.txt
    let home_u = path(&["home", "u"]);
    let zette = entry(&home_u, "zette", EntryKind::File);
    let new_current = DirView::new(path(&["home", "u"]), vec![zette]);
    let home = path(&["home"]);
    let u = entry(&home, "u", EntryKind::Directory);
    let new_parent = DirView::new(path(&["home"]), vec![u]);
    tab.refresh(Ok(new_current), Some(Ok(new_parent))).unwrap();
    assert_eq!(tab.current_view.selected_index, 0);
    assert_eq!(tab.preview_target.as_ref().unwrap().name().unwrap(), "zette");
}

#[test]
fn refresh_failure_leaves_the_tab_unchanged() {
    let mut tab = home_u_tab();
    tab.move_selection(1);
    let home = path(&["home"]);
    let u = entry(&home, "u", EntryKind::Directory);
    let new_parent = DirView::new(path(&["home"]), vec![u]);
    let r = tab.refresh(Err(IoErrorKind::Other), Some(Ok(new_parent)));
    let e = r.unwrap_err();
    assert!(e.path.same_as(&path(&["home", "u"])));
    assert_eq!(e.cause, IoErrorKind::Other);
    assert_eq!(tab.current_view.selected_index, 1);
    assert_eq!(tab.current_view.entries.len(), 2);
}
