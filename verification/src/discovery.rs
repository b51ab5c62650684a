//! Discovery: the snapshot of the multiplexer is read listing by listing.
//!
//! Sessions are listed first, then the windows of each session, then the
//! panes of each window. Nothing is cached between runs of a scan, and a
//! listing that fails ends the scan with [`ProvisionError::Discovery`].
use crate::addressing::{address, clean_for_target, sanitized, target};
use crate::protocol::{
    views, Action, ActionView, ProvisionError, Reply, ReplyView, SessionRecord,
    SessionRecordView, Step, StepView, WindowRecord, WindowRecordView,
};
use crate::topology::{Session, SessionView, Tmux, TmuxView, Window, WindowView};
use vstd::prelude::*;
use vstd::string::*;

verus! {

/// The listing of the windows of one session, pane listings included.
#[derive(Debug)]
pub struct WindowScan {
    /// The session, by its sanitized name.
    pub session_name: String,
    /// The window records, once they have arrived.
    pub listed: Option<Vec<WindowRecord>>,
    /// The windows whose panes have been listed, in the order of the records.
    pub done: Vec<Window>,
}

/// The mathematical model of a [`WindowScan`].
pub struct WindowScanView {
    pub session_name: Seq<char>,
    pub listed: Option<Seq<WindowRecordView>>,
    pub done: Seq<WindowView>,
}

impl View for WindowScan {
    type V = WindowScanView;

    open spec fn view(&self) -> WindowScanView {
        WindowScanView {
            session_name: self.session_name@,
            listed: match self.listed {
                Some(records) => Some(views(records@)),
                None => None,
            },
            done: views(self.done@),
        }
    }
}

impl WindowScanView {
    /// A scan of the session `session_name` that has listed nothing yet.
    pub open spec fn start(session_name: Seq<char>) -> WindowScanView {
        WindowScanView { session_name: sanitized(session_name), listed: None, done: Seq::empty() }
    }

    /// The operation that opens the scan.
    pub open spec fn first_action(session_name: Seq<char>) -> ActionView {
        ActionView::ListWindows { session: sanitized(session_name) }
    }

    /// Asks for the panes of the next window, or ends with the session.
    pub open spec fn advance(self) -> StepView<WindowScanView, SessionView> {
        match self.listed {
            Some(records) if self.done.len() < records.len() => StepView::Next(
                self,
                ActionView::ListPanes {
                    target: address(self.session_name, records[self.done.len() as int].name, 0),
                },
            ),
            _ => StepView::Done(SessionView { windows: self.done, name: self.session_name }),
        }
    }

    /// The move of the scan on `reply`: the window records open the pane
    /// listings, each pane listing completes one window, and anything else
    /// is a discovery error.
    pub open spec fn step(self, reply: ReplyView) -> StepView<WindowScanView, SessionView> {
        match (self.listed, reply) {
            (None, ReplyView::Windows(records)) => (WindowScanView {
                listed: Some(records),
                done: Seq::empty(),
                ..self
            }).advance(),
            (Some(records), ReplyView::Panes(panes)) if self.done.len() < records.len() => {
                let window = WindowView::from_record(
                    records[self.done.len() as int],
                    self.session_name,
                    panes,
                );
                (WindowScanView { done: self.done.push(window), ..self }).advance()
            },
            _ => StepView::Failed(ProvisionError::Discovery),
        }
    }

    /// Every window listed so far is well formed and owned by the session.
    pub open spec fn wf(self) -> bool {
        SessionView { windows: self.done, name: self.session_name }.wf()
    }
}

impl WindowScan {
    fn advance(self) -> (res: Step<WindowScan, Session>)
        ensures
            res@ == self@.advance(),
    {
        let i = self.done.len();
        let pending: Option<String> = match &self.listed {
            Some(records) => {
                if i < records.len() {
                    assert(views(records@)[i as int] == records[i as int]@);
                    Some(target(self.session_name.as_str(), records[i].name.as_str(), 0))
                } else {
                    None
                }
            },
            None => None,
        };
        match pending {
            Some(target) => Step::Next(self, Action::ListPanes { target }),
            None => Step::Done(Session { windows: self.done, name: self.session_name }),
        }
    }

    /// Absorbs the answer to the listing that the scan asked for last.
    pub fn step(self, reply: Reply) -> (res: Step<WindowScan, Session>)
        ensures
            res@ == self@.step(reply@),
    {
        let WindowScan { session_name, listed, done } = self;
        match (listed, reply) {
            (None, Reply::Windows(records)) => {
                let scan = WindowScan { session_name, listed: Some(records), done: Vec::new() };
                assert(scan@.done =~= Seq::empty());
                scan.advance()
            },
            (Some(records), Reply::Panes(panes)) => {
                let i = done.len();
                if i < records.len() {
                    assert(views(records@)[i as int] == records[i as int]@);
                    let record = WindowRecord {
                        name: records[i].name.clone(),
                        panes: records[i].panes,
                    };
                    let window = Window::from_interface(record, session_name.clone(), panes);
                    let ghost before = views(done@);
                    let mut done = done;
                    done.push(window);
                    assert(views(done@) =~= before.push(window@));
                    (WindowScan { session_name, listed: Some(records), done }).advance()
                } else {
                    Step::Failed(ProvisionError::Discovery)
                }
            },
            _ => Step::Failed(ProvisionError::Discovery),
        }
    }
}

impl Window {
    /// Starts the listing of the windows of a session.
    pub fn all_in_session(session_name: &str) -> (res: (WindowScan, Action))
        ensures
            res.0@ == WindowScanView::start(session_name@),
            res.1@ == WindowScanView::first_action(session_name@),
    {
        let scan = WindowScan {
            session_name: clean_for_target(session_name),
            listed: None,
            done: Vec::new(),
        };
        assert(scan@.done =~= Seq::empty());
        (scan, Action::ListWindows { session: clean_for_target(session_name) })
    }
}

/// The discovery of every session of the multiplexer.
#[derive(Debug)]
pub struct SessionScan {
    /// The session records, once they have arrived.
    pub listed: Option<Vec<SessionRecord>>,
    /// The sessions whose windows have been listed, in the order of the
    /// records.
    pub done: Vec<Session>,
    /// The listing of the windows of the next session.
    pub current: Option<WindowScan>,
}

/// The mathematical model of a [`SessionScan`].
pub struct SessionScanView {
    pub listed: Option<Seq<SessionRecordView>>,
    pub done: Seq<SessionView>,
    pub current: Option<WindowScanView>,
}

impl View for SessionScan {
    type V = SessionScanView;

    open spec fn view(&self) -> SessionScanView {
        SessionScanView {
            listed: match self.listed {
                Some(records) => Some(views(records@)),
                None => None,
            },
            done: views(self.done@),
            current: match self.current {
                Some(scan) => Some(scan@),
                None => None,
            },
        }
    }
}

impl SessionScanView {
    /// A discovery that has listed nothing yet.
    pub open spec fn start() -> SessionScanView {
        SessionScanView { listed: None, done: Seq::empty(), current: None }
    }

    /// Starts on the windows of the next session, or ends with the snapshot.
    pub open spec fn advance(self) -> StepView<SessionScanView, TmuxView> {
        match self.listed {
            Some(records) if self.done.len() < records.len() => {
                let name = records[self.done.len() as int].name;
                StepView::Next(
                    SessionScanView { current: Some(WindowScanView::start(name)), ..self },
                    WindowScanView::first_action(name),
                )
            },
            _ => StepView::Done(TmuxView { sessions: self.done }),
        }
    }

    /// The discovery right after the session records have arrived.
    pub open spec fn from_interface_list(records: Seq<SessionRecordView>) -> StepView<
        SessionScanView,
        TmuxView,
    > {
        (SessionScanView { listed: Some(records), done: Seq::empty(), current: None }).advance()
    }

    /// The move of the discovery on `reply`: the session records open the
    /// window listings, and every later reply belongs to the listing of the
    /// windows of the session at hand.
    pub open spec fn step(self, reply: ReplyView) -> StepView<SessionScanView, TmuxView> {
        match self.listed {
            None => match reply {
                ReplyView::Sessions(records) => Self::from_interface_list(records),
                _ => StepView::Failed(ProvisionError::Discovery),
            },
            Some(_) => match self.current {
                None => StepView::Failed(ProvisionError::Discovery),
                Some(scan) => match scan.step(reply) {
                    StepView::Next(scan, action) => StepView::Next(
                        SessionScanView { current: Some(scan), ..self },
                        action,
                    ),
                    StepView::Done(session) => (SessionScanView {
                        done: self.done.push(session),
                        current: None,
                        ..self
                    }).advance(),
                    StepView::Failed(error) => StepView::Failed(error),
                },
            },
        }
    }
}

impl SessionScan {
    fn advance(self) -> (res: Step<SessionScan, Tmux>)
        ensures
            res@ == self@.advance(),
    {
        let SessionScan { listed, done, current } = self;
        let i = done.len();
        let opened: Option<(WindowScan, Action)> = match &listed {
            Some(records) => {
                if i < records.len() {
                    assert(views(records@)[i as int] == records[i as int]@);
                    Some(Session::from_interface(&records[i]))
                } else {
                    None
                }
            },
            None => None,
        };
        match opened {
            Some((scan, action)) => Step::Next(
                SessionScan { listed, done, current: Some(scan) },
                action,
            ),
            None => Step::Done(Tmux::new(done)),
        }
    }

    /// Absorbs the answer to the listing that the discovery asked for last.
    pub fn step(self, reply: Reply) -> (res: Step<SessionScan, Tmux>)
        ensures
            res@ == self@.step(reply@),
    {
        let SessionScan { listed, done, current } = self;
        match listed {
            None => match reply {
                Reply::Sessions(records) => Session::from_interface_list(records),
                _ => Step::Failed(ProvisionError::Discovery),
            },
            Some(records) => match current {
                None => Step::Failed(ProvisionError::Discovery),
                Some(scan) => match scan.step(reply) {
                    Step::Next(scan, action) => Step::Next(
                        SessionScan { listed: Some(records), done, current: Some(scan) },
                        action,
                    ),
                    Step::Done(session) => {
                        let ghost before = views(done@);
                        let mut done = done;
                        done.push(session);
                        assert(views(done@) =~= before.push(session@));
                        (SessionScan { listed: Some(records), done, current: None }).advance()
                    },
                    Step::Failed(error) => Step::Failed(error),
                },
            },
        }
    }
}

impl Session {
    /// Starts the discovery of every session.
    pub fn all_sessions() -> (res: (SessionScan, Action))
        ensures
            res.0@ == SessionScanView::start(),
            res.1@ == ActionView::ListSessions,
    {
        let scan = SessionScan { listed: None, done: Vec::new(), current: None };
        assert(scan@.done =~= Seq::empty());
        (scan, Action::ListSessions)
    }

    /// Goes on from the session records to the windows of each session.
    pub fn from_interface_list(sessions: Vec<SessionRecord>) -> (res: Step<SessionScan, Tmux>)
        ensures
            res@ == SessionScanView::from_interface_list(views(sessions@)),
    {
        let scan = SessionScan { listed: Some(sessions), done: Vec::new(), current: None };
        assert(scan@.done =~= Seq::empty());
        scan.advance()
    }

    /// Starts the listing of the windows of the session that a record stands
    /// for; the session is stored under its sanitized name.
    pub fn from_interface(session: &SessionRecord) -> (res: (WindowScan, Action))
        ensures
            res.0@ == WindowScanView::start(session@.name),
            res.1@ == WindowScanView::first_action(session@.name),
    {
        Window::all_in_session(session.name.as_str())
    }
}

} // verus!
