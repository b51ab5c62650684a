use tmux_workspace::protocol::{
    Action, PaneRecord, ProvisionError, Reply, SessionRecord, Step, WindowRecord,
};
use tmux_workspace::provision::setup_workspace;
use tmux_workspace::request::{ClientLocation, Layout, WorkSpace};
use tmux_workspace::topology::Tmux;

/// A multiplexer held in memory. It keeps names exactly as it is given them
/// and records every operation it is asked for.
struct Mux {
    sessions: Vec<(String, Vec<(String, Vec<i32>)>)>,
    log: Vec<Action>,
    splits_seen: usize,
    failing_split: Option<usize>,
    refuse_kill: bool,
    refuse_attach: bool,
    refuse_keys: Option<String>,
    hide_new_windows: bool,
}

impl Mux {
    fn empty() -> Mux {
        Mux {
            sessions: Vec::new(),
            log: Vec::new(),
            splits_seen: 0,
            failing_split: None,
            refuse_kill: false,
            refuse_attach: false,
            refuse_keys: None,
            hide_new_windows: false,
        }
    }

    fn window_mut(&mut self, target: &str) -> Option<&mut (String, Vec<i32>)> {
        let (session, rest) = target.split_once(':')?;
        let (window, _pane) = rest.rsplit_once('.')?;
        let entry = self.sessions.iter_mut().find(|s| s.0 == session)?;
        entry.1.iter_mut().find(|w| w.0 == window)
    }

    fn perform(&mut self, action: &Action) -> Reply {
        self.log.push(action.clone());
        match action {
            Action::ListSessions => Reply::Sessions(
                self.sessions.iter().map(|s| SessionRecord { name: s.0.clone() }).collect(),
            ),
            Action::ListWindows { session } => {
                match self.sessions.iter().find(|s| &s.0 == session) {
                    Some(entry) => Reply::Windows(
                        entry
                            .1
                            .iter()
                            .map(|w| WindowRecord { name: w.0.clone(), panes: w.1.len() as i32 })
                            .collect(),
                    ),
                    None => Reply::Failed,
                }
            }
            Action::ListPanes { target } => match self.window_mut(target) {
                Some(window) => {
                    Reply::Panes(window.1.iter().map(|i| PaneRecord { index: *i }).collect())
                }
                None => Reply::Failed,
            },
            Action::NewSession { name } => {
                self.sessions.push((name.clone(), vec![("bash".to_string(), vec![0])]));
                Reply::Done
            }
            Action::NewWindow { session, name, dir: _ } => {
                let hide = self.hide_new_windows;
                match self.sessions.iter_mut().find(|s| &s.0 == session) {
                    Some(entry) => {
                        if !hide {
                            entry.1.push((name.clone(), vec![0]));
                        }
                        Reply::Done
                    }
                    None => Reply::Failed,
                }
            }
            Action::SplitWindow { target, dir: _ } => {
                self.splits_seen += 1;
                if self.failing_split == Some(self.splits_seen) {
                    return Reply::Failed;
                }
                match self.window_mut(target) {
                    Some(window) => {
                        let next = window.1.len() as i32;
                        window.1.push(next);
                        Reply::Done
                    }
                    None => Reply::Failed,
                }
            }
            Action::SendKeys { target: _, keys } => {
                if self.refuse_keys.is_some() && keys.first() == self.refuse_keys.as_ref() {
                    Reply::Failed
                } else {
                    Reply::Done
                }
            }
            Action::KillWindow { target } => {
                if self.refuse_kill {
                    return Reply::Failed;
                }
                let (session, rest) = target.split_once(':').unwrap();
                let (window, _) = rest.rsplit_once('.').unwrap();
                match self.sessions.iter_mut().find(|s| s.0 == session) {
                    Some(entry) => {
                        entry.1.retain(|w| w.0 != window);
                        Reply::Done
                    }
                    None => Reply::Failed,
                }
            }
            Action::AttachSession { .. } | Action::SwitchClient { .. } => {
                if self.refuse_attach {
                    Reply::Failed
                } else {
                    Reply::Done
                }
            }
        }
    }

    fn run(&mut self, workspace: WorkSpace, location: ClientLocation) -> Result<Tmux, ProvisionError> {
        let (mut engine, mut action) = setup_workspace(workspace, location);
        loop {
            let reply = self.perform(&action);
            match engine.step(reply) {
                Step::Next(next, asked) => {
                    engine = next;
                    action = asked;
                }
                Step::Done(tmux) => return Ok(tmux),
                Step::Failed(error) => return Err(error),
            }
        }
    }

    fn changes(&self) -> Vec<Action> {
        self.log
            .iter()
            .filter(|a| {
                !matches!(
                    a,
                    Action::ListSessions | Action::ListWindows { .. } | Action::ListPanes { .. }
                )
            })
            .cloned()
            .collect()
    }
}

fn request(session: &str, window: &str, count: i32) -> WorkSpace {
    WorkSpace {
        session_name: session.to_string(),
        window_name: window.to_string(),
        dir: "/tmp".to_string(),
        layout: Layout { window_count: count, layout_string: "D".to_string() },
        commands: vec!["cmd0".to_string(), "cmd1".to_string()],
    }
}

fn keys(target: &str, line: &str) -> Action {
    Action::SendKeys { target: target.to_string(), keys: vec![line.to_string(), "Enter".to_string()] }
}

#[test]
fn builds_a_workspace_from_nothing() {
    let mut mux = Mux::empty();
    let tmux = mux.run(request("proj", "main", 3), ClientLocation::Outside).unwrap();
    let split = Action::SplitWindow { target: "proj:main.0".to_string(), dir: "/tmp".to_string() };
    assert_eq!(
        mux.changes(),
        vec![
            Action::NewSession { name: "proj".to_string() },
            Action::NewWindow {
                session: "proj".to_string(),
                name: "main".to_string(),
                dir: "/tmp".to_string(),
            },
            split.clone(),
            split,
            keys("proj:main.0", "tmux select-layout -t proj:main.0 \"D\""),
            keys("proj:main.0", "cmd0"),
            keys("proj:main.1", "cmd1"),
            Action::AttachSession { target: "proj:main.0".to_string() },
            Action::KillWindow { target: "proj:bash.0".to_string() },
        ]
    );
    assert_eq!(mux.sessions, vec![("proj".to_string(), vec![("main".to_string(), vec![0, 1, 2])])]);
    assert_eq!(tmux.sessions.len(), 1);
    assert_eq!(tmux.sessions[0].name, "proj");
    assert_eq!(tmux.sessions[0].windows.len(), 1);
    assert_eq!(tmux.sessions[0].windows[0].name, "main");
    assert_eq!(tmux.sessions[0].windows[0].number_of_panes, 3);
    assert!(tmux.sessions[0].windows[0].panes.len() >= 3);
    assert_eq!(mux.log.first(), Some(&Action::ListSessions));
}

#[test]
fn pane_without_command_receives_nothing() {
    let mut mux = Mux::empty();
    mux.run(request("proj", "main", 3), ClientLocation::Outside).unwrap();
    let typed_into_pane_2 = mux.log.iter().any(|a| match a {
        Action::SendKeys { target, .. } => target == "proj:main.2",
        _ => false,
    });
    assert!(!typed_into_pane_2);
}

#[test]
fn existing_session_and_window_are_reused() {
    let mut mux = Mux::empty();
    mux.sessions.push(("proj".to_string(), vec![("main".to_string(), vec![0, 1, 2])]));
    let before = mux.sessions.clone();
    let tmux = mux.run(request("proj", "main", 3), ClientLocation::Outside).unwrap();
    assert_eq!(mux.changes(), vec![Action::AttachSession { target: "proj:main.0".to_string() }]);
    assert_eq!(mux.sessions, before);
    assert_eq!(tmux.sessions.len(), 1);
    assert_eq!(tmux.sessions[0].windows[0].panes.len(), 3);
}

#[test]
fn second_run_creates_nothing() {
    let mut mux = Mux::empty();
    mux.run(request("proj", "main", 3), ClientLocation::Outside).unwrap();
    let produced = mux.sessions.clone();
    mux.log.clear();
    mux.run(request("proj", "main", 3), ClientLocation::Outside).unwrap();
    assert_eq!(mux.changes(), vec![Action::AttachSession { target: "proj:main.0".to_string() }]);
    assert_eq!(mux.sessions, produced);
}

#[test]
fn existing_session_gets_a_missing_window_and_keeps_its_own() {
    let mut mux = Mux::empty();
    mux.sessions.push(("proj".to_string(), vec![("notes".to_string(), vec![0])]));
    mux.run(request("proj", "main", 2), ClientLocation::Outside).unwrap();
    let changes = mux.changes();
    assert!(!changes.iter().any(|a| matches!(a, Action::NewSession { .. })));
    assert!(!changes.iter().any(|a| matches!(a, Action::KillWindow { .. })));
    assert_eq!(
        changes.iter().filter(|a| matches!(a, Action::NewWindow { .. })).count(),
        1
    );
    assert_eq!(
        mux.sessions,
        vec![(
            "proj".to_string(),
            vec![("notes".to_string(), vec![0]), ("main".to_string(), vec![0, 1])]
        )]
    );
}

#[test]
fn dotted_window_name_is_addressed_sanitized_everywhere() {
    let mut mux = Mux::empty();
    mux.run(request("my proj", "coc.nvim", 2), ClientLocation::Inside).unwrap();
    for action in mux.log.iter() {
        match action {
            Action::ListSessions => {}
            Action::ListWindows { session } | Action::NewSession { name: session } => {
                assert_eq!(session, "my-proj")
            }
            Action::NewWindow { session, name, .. } => {
                assert_eq!(session, "my-proj");
                assert_eq!(name, "coc-nvim");
            }
            Action::KillWindow { target } => assert_eq!(target, "my-proj:bash.0"),
            Action::ListPanes { target }
            | Action::SplitWindow { target, .. }
            | Action::AttachSession { target }
            | Action::SwitchClient { target } => {
                assert!(target == "my-proj:coc-nvim.0" || target == "my-proj:bash.0")
            }
            Action::SendKeys { target, .. } => {
                assert!(target == "my-proj:coc-nvim.0" || target == "my-proj:coc-nvim.1")
            }
        }
    }
    assert!(mux.log.contains(&Action::SwitchClient { target: "my-proj:coc-nvim.0".to_string() }));
    assert!(mux.log.contains(&keys(
        "my-proj:coc-nvim.0",
        "tmux select-layout -t my-proj:coc-nvim.0 \"D\""
    )));
}

#[test]
fn failing_split_aborts_and_keeps_earlier_panes() {
    let mut mux = Mux::empty();
    mux.failing_split = Some(2);
    let outcome = mux.run(request("proj", "main", 4), ClientLocation::Outside);
    assert_eq!(outcome.unwrap_err(), ProvisionError::Creation);
    assert_eq!(mux.splits_seen, 2);
    assert_eq!(
        mux.sessions,
        vec![("proj".to_string(), vec![("bash".to_string(), vec![0]), ("main".to_string(), vec![0, 1])])]
    );
    assert!(!mux.log.iter().any(|a| matches!(
        a,
        Action::SendKeys { .. } | Action::AttachSession { .. } | Action::KillWindow { .. }
    )));
}

#[test]
fn inside_the_multiplexer_the_client_is_switched() {
    let mut mux = Mux::empty();
    mux.sessions.push(("proj".to_string(), vec![("main".to_string(), vec![0])]));
    mux.run(request("proj", "main", 1), ClientLocation::Inside).unwrap();
    assert_eq!(mux.changes(), vec![Action::SwitchClient { target: "proj:main.0".to_string() }]);
}

#[test]
fn failed_listing_is_a_discovery_error() {
    let (engine, first) = setup_workspace(request("proj", "main", 1), ClientLocation::Outside);
    assert_eq!(first, Action::ListSessions);
    assert!(matches!(engine.step(Reply::Failed), Step::Failed(ProvisionError::Discovery)));
    let (engine, _) = setup_workspace(request("proj", "main", 1), ClientLocation::Outside);
    assert!(matches!(engine.step(Reply::Done), Step::Failed(ProvisionError::Discovery)));
}

#[test]
fn rejected_session_is_a_creation_error() {
    let (engine, _) = setup_workspace(request("proj", "main", 1), ClientLocation::Outside);
    let engine = match engine.step(Reply::Sessions(vec![])) {
        Step::Next(engine, action) => {
            assert_eq!(action, Action::NewSession { name: "proj".to_string() });
            engine
        }
        other => panic!("{:?}", other),
    };
    assert!(matches!(engine.step(Reply::Failed), Step::Failed(ProvisionError::Creation)));
}

#[test]
fn session_missing_after_creation_is_an_addressing_error() {
    let (engine, _) = setup_workspace(request("proj", "main", 1), ClientLocation::Outside);
    let engine = match engine.step(Reply::Sessions(vec![])) {
        Step::Next(engine, _) => engine,
        other => panic!("{:?}", other),
    };
    let engine = match engine.step(Reply::Done) {
        Step::Next(engine, action) => {
            assert_eq!(action, Action::ListSessions);
            engine
        }
        other => panic!("{:?}", other),
    };
    assert!(matches!(
        engine.step(Reply::Sessions(vec![])),
        Step::Failed(ProvisionError::Addressing)
    ));
}

#[test]
fn new_session_without_a_window_is_an_addressing_error() {
    let (engine, _) = setup_workspace(request("proj", "main", 1), ClientLocation::Outside);
    let engine = match engine.step(Reply::Sessions(vec![])) {
        Step::Next(engine, _) => engine,
        other => panic!("{:?}", other),
    };
    let engine = match engine.step(Reply::Done) {
        Step::Next(engine, _) => engine,
        other => panic!("{:?}", other),
    };
    let engine = match engine.step(Reply::Sessions(vec![SessionRecord { name: "proj".to_string() }])) {
        Step::Next(engine, action) => {
            assert_eq!(action, Action::ListWindows { session: "proj".to_string() });
            engine
        }
        other => panic!("{:?}", other),
    };
    assert!(matches!(
        engine.step(Reply::Windows(vec![])),
        Step::Failed(ProvisionError::Addressing)
    ));
}

#[test]
fn window_missing_after_creation_is_an_addressing_error() {
    let mut mux = Mux::empty();
    mux.hide_new_windows = true;
    let outcome = mux.run(request("proj", "main", 1), ClientLocation::Outside);
    assert_eq!(outcome.unwrap_err(), ProvisionError::Addressing);
}

#[test]
fn refused_layout_keys_are_a_layout_error() {
    let mut mux = Mux::empty();
    mux.refuse_keys = Some("tmux select-layout -t proj:main.0 \"D\"".to_string());
    let outcome = mux.run(request("proj", "main", 2), ClientLocation::Outside);
    assert_eq!(outcome.unwrap_err(), ProvisionError::LayoutApply);
}

#[test]
fn refused_command_keys_are_a_dispatch_error() {
    let mut mux = Mux::empty();
    mux.refuse_keys = Some("cmd1".to_string());
    let outcome = mux.run(request("proj", "main", 2), ClientLocation::Outside);
    assert_eq!(outcome.unwrap_err(), ProvisionError::Dispatch);
    assert!(mux.log.contains(&keys("proj:main.0", "cmd0")));
    assert!(!mux.log.iter().any(|a| matches!(a, Action::AttachSession { .. })));
}

#[test]
fn refused_attach_is_an_attach_error() {
    let mut mux = Mux::empty();
    mux.refuse_attach = true;
    let outcome = mux.run(request("proj", "main", 1), ClientLocation::Outside);
    assert_eq!(outcome.unwrap_err(), ProvisionError::Attach);
    assert!(!mux.log.iter().any(|a| matches!(a, Action::KillWindow { .. })));
}

#[test]
fn refused_cleanup_comes_after_the_attach() {
    let mut mux = Mux::empty();
    mux.refuse_kill = true;
    let outcome = mux.run(request("proj", "main", 1), ClientLocation::Outside);
    assert_eq!(outcome.unwrap_err(), ProvisionError::Cleanup);
    let changes = mux.changes();
    let attach = changes.iter().position(|a| matches!(a, Action::AttachSession { .. })).unwrap();
    let kill = changes.iter().position(|a| matches!(a, Action::KillWindow { .. })).unwrap();
    assert!(attach < kill);
    assert_eq!(mux.sessions[0].1.len(), 2);
}

#[test]
fn more_commands_than_panes_still_succeeds() {
    let mut mux = Mux::empty();
    let mut workspace = request("proj", "main", 1);
    workspace.commands.push("cmd2".to_string());
    mux.run(workspace, ClientLocation::Outside).unwrap();
    let typed: Vec<Action> =
        mux.changes().into_iter().filter(|a| matches!(a, Action::SendKeys { .. })).collect();
    assert_eq!(
        typed,
        vec![
            keys("proj:main.0", "tmux select-layout -t proj:main.0 \"D\""),
            keys("proj:main.0", "cmd0"),
        ]
    );
}

#[test]
fn every_error_has_its_own_message() {
    let all = [
        ProvisionError::Discovery,
        ProvisionError::Creation,
        ProvisionError::Addressing,
        ProvisionError::LayoutApply,
        ProvisionError::Dispatch,
        ProvisionError::Attach,
        ProvisionError::Cleanup,
    ];
    for (i, a) in all.iter().enumerate() {
        assert!(!a.message().is_empty());
        for b in all.iter().skip(i + 1) {
            assert_ne!(a.message(), b.message());
        }
    }
    assert_eq!(ProvisionError::Cleanup.message(), "could not remove the placeholder window");
}
