use tmux_workspace::protocol::{Action, PaneRecord, WindowRecord};
use tmux_workspace::request::{default_layout_checksum, in_tmux, ClientLocation};
use tmux_workspace::topology::{Pane, Session, Tmux, Window, WindowChoice};

fn records(indices: &[i32]) -> Vec<PaneRecord> {
    indices.iter().map(|i| PaneRecord { index: *i }).collect()
}

fn window(session: &str, name: &str, indices: &[i32]) -> Window {
    Window::from_interface(
        WindowRecord { name: name.to_string(), panes: indices.len() as i32 },
        session.to_string(),
        records(indices),
    )
}

fn session(name: &str, windows: &[&str]) -> Session {
    Session {
        windows: windows.iter().map(|w| window(name, w, &[0])).collect(),
        name: name.to_string(),
    }
}

fn typed(target: &str, line: &str) -> Action {
    Action::SendKeys { target: target.to_string(), keys: vec![line.to_string(), "Enter".to_string()] }
}

#[test]
fn window_record_is_stored_sanitized() {
    let w = window("my proj", "coc.nvim", &[0, 1]);
    assert_eq!(w.name, "coc-nvim");
    assert_eq!(w.session_name, "my-proj");
    assert_eq!(w.number_of_panes, 2);
    assert_eq!(
        w.panes,
        vec![
            Pane { session_name: "my-proj".to_string(), window_name: "coc-nvim".to_string(), index: 0 },
            Pane { session_name: "my-proj".to_string(), window_name: "coc-nvim".to_string(), index: 1 },
        ]
    );
}

#[test]
fn pane_record_keeps_its_index() {
    let p = Pane::from_interface(PaneRecord { index: 7 }, "s.x", "w y");
    assert_eq!(p, Pane { session_name: "s-x".to_string(), window_name: "w-y".to_string(), index: 7 });
    let list = Pane::from_interface_list(records(&[0, 1, 2]), "s", "w");
    assert_eq!(list.iter().map(|p| p.index).collect::<Vec<i32>>(), vec![0, 1, 2]);
    assert!(Pane::from_interface_list(vec![], "s", "w").is_empty());
}

#[test]
fn panes_are_ordered_by_reported_index() {
    let list = Pane::from_interface_list(records(&[3, 1, 2, -4, 1, 0]), "s", "w");
    assert_eq!(list.iter().map(|p| p.index).collect::<Vec<i32>>(), vec![-4, 0, 1, 1, 2, 3]);
    let mut w = window("s", "w", &[9, 7, 8]);
    assert_eq!(w.panes.iter().map(|p| p.index).collect::<Vec<i32>>(), vec![7, 8, 9]);
    w.reload_panes(records(&[2, 0]));
    assert_eq!(w.panes.iter().map(|p| p.index).collect::<Vec<i32>>(), vec![0, 2]);
}

#[test]
fn get_pane_goes_by_reported_index() {
    let w = window("s", "w", &[0, 2, 5, 2]);
    assert_eq!(w.get_pane(2).map(|p| p.index), Some(2));
    assert!(std::ptr::eq(w.get_pane(2).unwrap(), &w.panes[1]));
    assert_eq!(w.get_pane(5).map(|p| p.index), Some(5));
    assert!(w.get_pane(1).is_none());
    assert!(w.get_pane(-1).is_none());
}

#[test]
fn commands_go_to_the_pane_of_their_position() {
    let w = window("s", "w", &[0, 2]);
    let plan = w.initial_command(vec!["a".to_string(), "b".to_string(), "c".to_string(), "d".to_string()]);
    assert_eq!(plan, vec![typed("s:w.0", "a"), typed("s:w.2", "c")]);
}

#[test]
fn no_commands_or_no_panes_means_no_dispatch() {
    assert!(window("s", "w", &[0, 1]).initial_command(vec![]).is_empty());
    assert!(window("s", "w", &[]).initial_command(vec!["a".to_string()]).is_empty());
    assert!(window("s", "w", &[1]).initial_command(vec!["a".to_string()]).is_empty());
}

#[test]
fn attach_outside_and_switch_inside() {
    let w = window("proj", "main", &[0]);
    assert_eq!(
        w.attach(ClientLocation::Outside),
        Action::AttachSession { target: "proj:main.0".to_string() }
    );
    assert_eq!(
        w.attach(ClientLocation::Inside),
        Action::SwitchClient { target: "proj:main.0".to_string() }
    );
}

#[test]
fn indicator_decides_the_location() {
    assert_eq!(in_tmux(Some("/tmp/tmux-1000/default,5,0".to_string())), ClientLocation::Inside);
    assert_eq!(in_tmux(Some(String::new())), ClientLocation::Inside);
    assert_eq!(in_tmux(None), ClientLocation::Outside);
}

#[test]
fn window_operations_address_pane_zero() {
    let w = window("proj", "main", &[3, 4]);
    assert_eq!(w.target(4), "proj:main.4");
    assert_eq!(
        w.split_window("/src"),
        Action::SplitWindow { target: "proj:main.0".to_string(), dir: "/src".to_string() }
    );
    assert_eq!(w.list_panes(), Action::ListPanes { target: "proj:main.0".to_string() });
    assert_eq!(
        w.send_keys(vec!["ls", "Enter"]),
        Action::SendKeys {
            target: "proj:main.0".to_string(),
            keys: vec!["ls".to_string(), "Enter".to_string()],
        }
    );
    assert_eq!(w.panes[1].send_keys(vec!["x"]), Action::SendKeys {
        target: "proj:main.4".to_string(),
        keys: vec!["x".to_string()],
    });
    assert_eq!(
        Tmux::send_keys("a b", "c.d", 1, vec![]),
        Action::SendKeys { target: "a-b:c-d.1".to_string(), keys: vec![] }
    );
}

#[test]
fn reload_replaces_panes_and_count() {
    let mut w = window("s", "w", &[0]);
    w.reload_panes(records(&[0, 1, 2]));
    assert_eq!(w.number_of_panes, 3);
    assert_eq!(w.panes.iter().map(|p| p.index).collect::<Vec<i32>>(), vec![0, 1, 2]);
    assert!(w.panes.iter().all(|p| p.session_name == "s" && p.window_name == "w"));
    w.reload_panes(vec![]);
    assert_eq!(w.number_of_panes, 0);
    assert!(w.panes.is_empty());
}

#[test]
fn windows_are_found_by_sanitized_name() {
    let s = session("proj", &["bash", "coc.nvim", "bash"]);
    assert_eq!(s.window_position("coc.nvim"), Some(1));
    assert_eq!(s.window_position("coc-nvim"), Some(1));
    assert_eq!(s.window_position("coc nvim"), Some(1));
    assert_eq!(s.window_position("bash"), Some(0));
    assert_eq!(s.window_position("zsh"), None);
    assert!(s.has_window("coc.nvim"));
    assert!(!s.has_window("nvim"));
    assert_eq!(s.find_window("coc.nvim").map(|w| w.name.as_str()), Some("coc-nvim"));
    assert!(s.find_window("other").is_none());
}

#[test]
fn session_builds_its_operations() {
    let s = session("proj", &["bash"]);
    assert_eq!(s.target("my win", 2), "proj:my-win.2");
    assert_eq!(s.remove_window("bash"), Action::KillWindow { target: "proj:bash.0".to_string() });
    assert_eq!(
        s.create_window("coc.nvim", "/tmp"),
        Action::NewWindow {
            session: "proj".to_string(),
            name: "coc-nvim".to_string(),
            dir: "/tmp".to_string(),
        }
    );
}

#[test]
fn find_or_create_uses_what_is_there() {
    let s = session("proj", &["bash", "main"]);
    match s.find_or_create_window("main", "/tmp") {
        WindowChoice::Existing(w) => assert!(std::ptr::eq(w, &s.windows[1])),
        WindowChoice::Create(_) => panic!("the window exists"),
    }
    match s.find_or_create_window("logs", "/var") {
        WindowChoice::Existing(_) => panic!("the window is missing"),
        WindowChoice::Create(action) => assert_eq!(
            action,
            Action::NewWindow {
                session: "proj".to_string(),
                name: "logs".to_string(),
                dir: "/var".to_string(),
            }
        ),
    }
}

#[test]
fn sessions_are_found_by_sanitized_name() {
    let tmux = Tmux::new(vec![session("one", &[]), session("my-proj", &["bash"])]);
    assert_eq!(tmux.sessions.len(), 2);
    assert_eq!(tmux.session_position("my proj"), Some(1));
    assert_eq!(tmux.find_session("my.proj").map(|s| s.name.as_str()), Some("my-proj"));
    assert!(tmux.has_session("one"));
    assert!(!tmux.has_session("two"));
    assert!(tmux.find_session("two").is_none());
    assert_eq!(tmux.create_session("new one"), Action::NewSession { name: "new-one".to_string() });
}

#[test]
fn default_layout_is_the_two_pane_descriptor() {
    assert_eq!(default_layout_checksum(), "34ed,230x56,0,0{132x56,0,0,3,97x56,133,0,222}");
}
