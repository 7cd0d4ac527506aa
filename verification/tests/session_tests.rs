use marcos::entry::Entry;
use marcos::entry::EntryKind;
use marcos::errors::IoErrorKind;
use marcos::fs_path::AbsPath;
use marcos::input::Key;
use marcos::input::Mode;
use marcos::listing::DirView;
use marcos::session::Effect;
use marcos::session::NavKind;
use marcos::session::Session;
use marcos::tab::Tab;

fn path(components: &[&str]) -> AbsPath {
    let mut v: Vec<String> = Vec::new();
    for c in components {
        v.push((*c).to_string());
    }
    AbsPath::from_components(v)
}

fn entry(dir: &AbsPath, name: &str, kind: EntryKind) -> Entry {
    Entry::new(dir.child(name.to_string()), kind)
}

fn home_u_session() -> Session {
    let home_u = path(&["home", "u"]);
    let docs = entry(&home_u, "docs", EntryKind::Directory);
    let notes = entry(&home_u, "notes.txt", EntryKind::File);
    let current = DirView::new(path(&["home", "u"]), vec![docs, notes]);
    let home = path(&["home"]);
    let u = entry(&home, "u", EntryKind::Directory);
    let parent = DirView::new(path(&["home"]), vec![u]);
    Session::new(Tab::open("1".to_string(), current, Some(parent)))
}

#[test]
fn keys_move_the_cursor_and_enter_descends() {
    let mut s = home_u_session();
    assert!(matches!(s.on_key(Key::Char('j')), Effect::Idle));
    assert_eq!(s.registry.focused().current_view.selected_index, 1);
    assert!(matches!(s.on_key(Key::Char('k')), Effect::Idle));
    assert_eq!(s.registry.focused().current_view.selected_index, 0);

    let eff = s.on_key(Key::Enter);
    let (p, nav) = match eff {
        Effect::Load(p, nav) => (p, nav),
        _ => panic!("expected a load request"),
    };
    assert!(p.same_as(&path(&["home", "u", "docs"])));
    assert_eq!(nav, NavKind::Enter);

    let docs_path = path(&["home", "u", "docs"]);
    let readme = entry(&docs_path, "readme", EntryKind::File);
    let loaded = DirView::new(path(&["home", "u", "docs"]), vec![readme]);
    s.on_load(NavKind::Enter, Ok(loaded));
    assert!(s.last_error.is_none());
    let tab = s.registry.focused();
    assert!(tab.current_view.path.same_as(&path(&["home", "u", "docs"])));
    assert!(tab.parent_view.as_ref().unwrap().path.same_as(&path(&["home", "u"])));
}

#[test]
fn enter_on_a_file_asks_for_nothing() {
    let mut s = home_u_session();
    s.on_key(Key::Char('j'));  // cursor on notes.txt, a file
    let eff = s.on_key(Key::Enter);
    assert!(matches!(eff, Effect::Idle));
    let tab = s.registry.focused();
    assert!(tab.current_view.path.same_as(&path(&["home", "u"])));
    assert_eq!(tab.current_view.selected_index, 1);
}

#[test]
fn back_asks_for_the_grandparent_and_rebases() {
    let mut s = home_u_session();
    let eff = s.on_key(Key::Char('h'));
    let (p, nav) = match eff {
        Effect::Load(p, nav) => (p, nav),
        _ => panic!("expected a load request"),
    };
    assert!(p.same_as(&AbsPath::root()));
    assert_eq!(nav, NavKind::Back);

    let root = AbsPath::root();
    let home_entry = entry(&root, "home", EntryKind::Directory);
    let loaded = DirView::new(AbsPath::root(), vec![home_entry]);
    s.on_load(NavKind::Back, Ok(loaded));
    assert!(s.last_error.is_none());
    let tab = s.registry.focused();
    assert!(tab.current_view.path.same_as(&path(&["home"])));
    assert!(tab.parent_view.as_ref().unwrap().path.same_as(&AbsPath::root()));
}

#[test]
fn a_failed_load_reaches_the_status_line_and_changes_nothing() {
    let mut s = home_u_session();
    let eff = s.on_key(Key::Enter);
    assert!(matches!(eff, Effect::Load(_, NavKind::Enter)));
    s.on_load(NavKind::Enter, Err(IoErrorKind::PermissionDenied));
    let e = s.last_error.as_ref().unwrap();
    assert!(e.path.same_as(&path(&["home", "u", "docs"])));
    assert_eq!(e.cause, IoErrorKind::PermissionDenied);
    let tab = s.registry.focused();
    assert!(tab.current_view.path.same_as(&path(&["home", "u"])));
    assert_eq!(tab.current_view.selected_index, 0);
}

#[test]
fn command_mode_swallows_quit_and_toggles_back() {
    let mut s = home_u_session();
    assert_eq!(s.mode, Mode::Normal);
    assert!(matches!(s.on_key(Key::Char(':')), Effect::Idle));
    assert_eq!(s.mode, Mode::Command);
    // In command mode 'q' is raw text, never Quit.
    assert!(matches!(s.on_key(Key::Char('q')), Effect::Idle));
    assert_eq!(s.mode, Mode::Command);
    assert!(matches!(s.on_key(Key::Escape), Effect::Idle));
    assert_eq!(s.mode, Mode::Normal);
    assert!(matches!(s.on_key(Key::Char('q')), Effect::QuitRequested));
}

#[test]
fn digit_keys_switch_between_tabs() {
    let mut s = home_u_session();
    let other = path(&["srv"]);
    let logs = entry(&other, "logs", EntryKind::Directory);
    let current = DirView::new(path(&["srv"]), vec![logs]);
    let root = AbsPath::root();
    let srv = entry(&root, "srv", EntryKind::Directory);
    let parent = DirView::new(AbsPath::root(), vec![srv]);
    s.registry.add(Tab::open("2".to_string(), current, Some(parent))).unwrap();

    assert!(matches!(s.on_key(Key::Char('2')), Effect::Idle));
    assert_eq!(s.registry.focused().id, "2");
    assert!(matches!(s.on_key(Key::Char('1')), Effect::Idle));
    assert_eq!(s.registry.focused().id, "1");
    // A digit with no tab behind it changes nothing.
    assert!(matches!(s.on_key(Key::Char('7')), Effect::Idle));
    assert_eq!(s.registry.focused().id, "1");
}
