//! Provisioning a workspace: the session is found or created, the window is
//! found or built, the terminal is brought to it, and a placeholder window
//! that came with a new session is removed.
//!
//! The engine is driven from outside: [`setup_workspace`] yields the first
//! operation, and each reply handed to [`Provisioner::step`] yields the next
//! one until the run ends. No operation is tried twice, and nothing that was
//! created is undone when a later operation fails.
use crate::addressing::{address, target};
use crate::arrange::{LayoutRun, LayoutRunView};
use crate::discovery::{SessionScan, SessionScanView, WindowScan, WindowScanView};
use crate::protocol::{
    views, Action, ActionView, ProvisionError, Reply, ReplyView, Step, StepView,
};
use crate::request::{ClientLocation, Commands, WorkSpace, WorkSpaceView};
use crate::topology::{Session, SessionView, Tmux, TmuxView, Window, WindowView};
use vstd::prelude::*;
use vstd::string::*;

verus! {

/// The building of the requested window inside its session.
#[derive(Debug)]
pub enum WindowSetup {
    /// The creation of the window has been asked for.
    Creating { session_name: String, workspace: WorkSpace },
    /// The windows of the session are listed again to find the new one.
    Listing { scan: WindowScan, workspace: WorkSpace },
    /// The new window is grown and laid out.
    Arranging { run: LayoutRun, commands: Commands },
    /// The initial commands are typed into their panes, one at a time.
    Dispatching { window: Window, pending: Vec<Action> },
}

/// The mathematical model of a [`WindowSetup`].
pub enum WindowSetupView {
    Creating { session_name: Seq<char>, workspace: WorkSpaceView },
    Listing { scan: WindowScanView, workspace: WorkSpaceView },
    Arranging { run: LayoutRunView, commands: Seq<Seq<char>> },
    Dispatching { window: WindowView, pending: Seq<ActionView> },
}

impl View for WindowSetup {
    type V = WindowSetupView;

    open spec fn view(&self) -> WindowSetupView {
        match self {
            WindowSetup::Creating { session_name, workspace } => WindowSetupView::Creating {
                session_name: session_name@,
                workspace: workspace@,
            },
            WindowSetup::Listing { scan, workspace } => WindowSetupView::Listing {
                scan: scan@,
                workspace: workspace@,
            },
            WindowSetup::Arranging { run, commands } => WindowSetupView::Arranging {
                run: run@,
                commands: views(commands@),
            },
            WindowSetup::Dispatching { window, pending } => WindowSetupView::Dispatching {
                window: window@,
                pending: views(pending@),
            },
        }
    }
}

impl WindowSetupView {
    /// Sends the next pending dispatch, or ends with the window.
    pub open spec fn dispatch(window: WindowView, pending: Seq<ActionView>) -> StepView<
        WindowSetupView,
        WindowView,
    > {
        if pending.len() > 0 {
            StepView::Next(
                WindowSetupView::Dispatching { window, pending: pending.drop_first() },
                pending[0],
            )
        } else {
            StepView::Done(window)
        }
    }

    /// The move of the setup on `reply`. Once the window is created the
    /// session is listed again; the window must be in that listing, or the
    /// setup ends with an addressing error. The window is then grown and laid
    /// out, and its initial commands are dispatched one by one.
    pub open spec fn step(self, reply: ReplyView) -> StepView<WindowSetupView, WindowView> {
        match self {
            WindowSetupView::Creating { session_name, workspace } => match reply {
                ReplyView::Done => StepView::Next(
                    WindowSetupView::Listing {
                        scan: WindowScanView::start(session_name),
                        workspace,
                    },
                    WindowScanView::first_action(session_name),
                ),
                _ => StepView::Failed(ProvisionError::Creation),
            },
            WindowSetupView::Listing { scan, workspace } => match scan.step(reply) {
                StepView::Next(scan, action) => StepView::Next(
                    WindowSetupView::Listing { scan, workspace },
                    action,
                ),
                StepView::Done(session) => match session.window_position(workspace.window_name) {
                    Some(i) => StepView::Next(
                        WindowSetupView::Arranging {
                            run: session.windows[i].setup_layout(workspace.layout, workspace.dir),
                            commands: workspace.commands,
                        },
                        session.windows[i].list_panes(),
                    ),
                    None => StepView::Failed(ProvisionError::Addressing),
                },
                StepView::Failed(error) => StepView::Failed(error),
            },
            WindowSetupView::Arranging { run, commands } => match run.step(reply) {
                StepView::Next(run, action) => StepView::Next(
                    WindowSetupView::Arranging { run, commands },
                    action,
                ),
                StepView::Done(window) => Self::dispatch(window, window.initial_command(commands)),
                StepView::Failed(error) => StepView::Failed(error),
            },
            WindowSetupView::Dispatching { window, pending } => match reply {
                ReplyView::Done => Self::dispatch(window, pending),
                _ => StepView::Failed(ProvisionError::Dispatch),
            },
        }
    }
}

impl SessionView {
    /// A window that the session already has is used unchanged. A missing
    /// one is created, and its setup goes on from there.
    pub open spec fn setup_workspace(self, workspace: WorkSpaceView) -> StepView<
        WindowSetupView,
        WindowView,
    > {
        match self.window_position(workspace.window_name) {
            Some(i) => StepView::Done(self.windows[i]),
            None => StepView::Next(
                WindowSetupView::Creating { session_name: self.name, workspace },
                self.create_window(workspace.window_name, workspace.dir),
            ),
        }
    }
}

impl WindowSetup {
    fn dispatch(window: Window, pending: Vec<Action>) -> (res: Step<WindowSetup, Window>)
        ensures
            res@ == WindowSetupView::dispatch(window@, views(pending@)),
    {
        let mut pending = pending;
        if pending.len() > 0 {
            let ghost before = views(pending@);
            let action = pending.remove(0);
            assert(views(pending@) =~= before.drop_first());
            assert(before[0] == action@);
            Step::Next(WindowSetup::Dispatching { window, pending }, action)
        } else {
            Step::Done(window)
        }
    }

    /// Absorbs the answer to the operation that the setup asked for last.
    pub fn step(self, reply: Reply) -> (res: Step<WindowSetup, Window>)
        ensures
            res@ == self@.step(reply@),
    {
        match self {
            WindowSetup::Creating { session_name, workspace } => match reply {
                Reply::Done => {
                    let (scan, action) = Window::all_in_session(session_name.as_str());
                    Step::Next(WindowSetup::Listing { scan, workspace }, action)
                },
                _ => Step::Failed(ProvisionError::Creation),
            },
            WindowSetup::Listing { scan, workspace } => match scan.step(reply) {
                Step::Next(scan, action) => Step::Next(
                    WindowSetup::Listing { scan, workspace },
                    action,
                ),
                Step::Done(session) => match session.window_position(
                    workspace.window_name.as_str(),
                ) {
                    Some(i) => {
                        let Session { windows, name: _ } = session;
                        let mut windows = windows;
                        assert(views(windows@)[i as int] == windows[i as int]@);
                        let window = windows.remove(i);
                        let WorkSpace { session_name: _, window_name: _, dir, layout, commands } =
                            workspace;
                        let (run, action) = window.setup_layout(layout, dir.as_str());
                        Step::Next(WindowSetup::Arranging { run, commands }, action)
                    },
                    None => Step::Failed(ProvisionError::Addressing),
                },
                Step::Failed(error) => Step::Failed(error),
            },
            WindowSetup::Arranging { run, commands } => match run.step(reply) {
                Step::Next(run, action) => Step::Next(
                    WindowSetup::Arranging { run, commands },
                    action,
                ),
                Step::Done(window) => {
                    let pending = window.initial_command(commands);
                    WindowSetup::dispatch(window, pending)
                },
                Step::Failed(error) => Step::Failed(error),
            },
            WindowSetup::Dispatching { window, pending } => match reply {
                Reply::Done => WindowSetup::dispatch(window, pending),
                _ => Step::Failed(ProvisionError::Dispatch),
            },
        }
    }
}

impl Session {
    /// Finds the window of `workspace` in this session, or starts building
    /// it: creation, growth to the layout's pane count, the layout, and the
    /// initial commands, in that order.
    pub fn setup_workspace(self, workspace: WorkSpace) -> (res: Step<WindowSetup, Window>)
        ensures
            res@ == self@.setup_workspace(workspace@),
    {
        match self.window_position(workspace.window_name.as_str()) {
            Some(i) => {
                let Session { windows, name: _ } = self;
                let mut windows = windows;
                assert(views(windows@)[i as int] == windows[i as int]@);
                Step::Done(windows.remove(i))
            },
            None => {
                let action = self.create_window(
                    workspace.window_name.as_str(),
                    workspace.dir.as_str(),
                );
                Step::Next(WindowSetup::Creating { session_name: self.name, workspace }, action)
            },
        }
    }
}

/// What a [`Provisioner`] is waiting for.
#[derive(Debug)]
pub enum ProvisionStage {
    /// The first discovery.
    Discovering { scan: SessionScan, workspace: WorkSpace },
    /// The outcome of the creation of the session.
    CreatingSession { workspace: WorkSpace },
    /// The discovery that follows the creation of the session.
    Rediscovering { scan: SessionScan, workspace: WorkSpace },
    /// The building of the window.
    Building { setup: WindowSetup },
    /// The outcome of the attach or of the client switch.
    Attaching,
    /// The outcome of the removal of the placeholder window.
    Cleaning,
    /// The discovery that yields the handle to return.
    Refreshing { scan: SessionScan },
}

/// The mathematical model of a [`ProvisionStage`].
pub enum ProvisionStageView {
    Discovering { scan: SessionScanView, workspace: WorkSpaceView },
    CreatingSession { workspace: WorkSpaceView },
    Rediscovering { scan: SessionScanView, workspace: WorkSpaceView },
    Building { setup: WindowSetupView },
    Attaching,
    Cleaning,
    Refreshing { scan: SessionScanView },
}

impl View for ProvisionStage {
    type V = ProvisionStageView;

    open spec fn view(&self) -> ProvisionStageView {
        match self {
            ProvisionStage::Discovering { scan, workspace } => ProvisionStageView::Discovering {
                scan: scan@,
                workspace: workspace@,
            },
            ProvisionStage::CreatingSession { workspace } => ProvisionStageView::CreatingSession {
                workspace: workspace@,
            },
            ProvisionStage::Rediscovering { scan, workspace } => ProvisionStageView::Rediscovering {
                scan: scan@,
                workspace: workspace@,
            },
            ProvisionStage::Building { setup } => ProvisionStageView::Building { setup: setup@ },
            ProvisionStage::Attaching => ProvisionStageView::Attaching,
            ProvisionStage::Cleaning => ProvisionStageView::Cleaning,
            ProvisionStage::Refreshing { scan } => ProvisionStageView::Refreshing { scan: scan@ },
        }
    }
}

/// One provisioning run.
#[derive(Debug)]
pub struct Provisioner {
    /// The session of the workspace, as requested.
    pub session_name: String,
    pub location: ClientLocation,
    /// The default window of a session that this run created.
    pub placeholder: Option<String>,
    pub stage: ProvisionStage,
}

/// The mathematical model of a [`Provisioner`].
pub struct ProvisionerView {
    pub session_name: Seq<char>,
    pub location: ClientLocation,
    pub placeholder: Option<Seq<char>>,
    pub stage: ProvisionStageView,
}

impl View for Provisioner {
    type V = ProvisionerView;

    open spec fn view(&self) -> ProvisionerView {
        ProvisionerView {
            session_name: self.session_name@,
            location: self.location,
            placeholder: match self.placeholder {
                Some(name) => Some(name@),
                None => None,
            },
            stage: self.stage@,
        }
    }
}

impl ProvisionerView {
    /// A run for `workspace` that has discovered nothing yet.
    pub open spec fn start(workspace: WorkSpaceView, location: ClientLocation) -> ProvisionerView {
        ProvisionerView {
            session_name: workspace.session_name,
            location,
            placeholder: None,
            stage: ProvisionStageView::Discovering { scan: SessionScanView::start(), workspace },
        }
    }

    /// Brings the terminal to the finished window.
    pub open spec fn attach(self, window: WindowView) -> StepView<ProvisionerView, TmuxView> {
        StepView::Next(
            ProvisionerView { stage: ProvisionStageView::Attaching, ..self },
            window.attach(self.location),
        )
    }

    /// Hands the workspace to its session.
    pub open spec fn enter(self, session: SessionView, workspace: WorkSpaceView) -> StepView<
        ProvisionerView,
        TmuxView,
    > {
        match session.setup_workspace(workspace) {
            StepView::Next(setup, action) => StepView::Next(
                ProvisionerView { stage: ProvisionStageView::Building { setup }, ..self },
                action,
            ),
            StepView::Done(window) => self.attach(window),
            StepView::Failed(error) => StepView::Failed(error),
        }
    }

    /// Starts the discovery that ends the run.
    pub open spec fn refresh(self) -> StepView<ProvisionerView, TmuxView> {
        StepView::Next(
            ProvisionerView {
                stage: ProvisionStageView::Refreshing { scan: SessionScanView::start() },
                ..self
            },
            ActionView::ListSessions,
        )
    }

    /// The move of the run on `reply`. A session that the first discovery
    /// holds is used as it is. A missing one is created and must be in the
    /// discovery that follows, with at least one window: its first window is
    /// the placeholder. The terminal is brought to the window before the
    /// placeholder is removed, and a last discovery yields the snapshot that
    /// the run ends with.
    pub open spec fn step(self, reply: ReplyView) -> StepView<ProvisionerView, TmuxView> {
        match self.stage {
            ProvisionStageView::Discovering { scan, workspace } => match scan.step(reply) {
                StepView::Next(scan, action) => StepView::Next(
                    ProvisionerView {
                        stage: ProvisionStageView::Discovering { scan, workspace },
                        ..self
                    },
                    action,
                ),
                StepView::Done(tmux) => match tmux.session_position(workspace.session_name) {
                    Some(i) => self.enter(tmux.sessions[i], workspace),
                    None => StepView::Next(
                        ProvisionerView {
                            stage: ProvisionStageView::CreatingSession { workspace },
                            ..self
                        },
                        TmuxView::create_session(workspace.session_name),
                    ),
                },
                StepView::Failed(error) => StepView::Failed(error),
            },
            ProvisionStageView::CreatingSession { workspace } => match reply {
                ReplyView::Done => StepView::Next(
                    ProvisionerView {
                        stage: ProvisionStageView::Rediscovering {
                            scan: SessionScanView::start(),
                            workspace,
                        },
                        ..self
                    },
                    ActionView::ListSessions,
                ),
                _ => StepView::Failed(ProvisionError::Creation),
            },
            ProvisionStageView::Rediscovering { scan, workspace } => match scan.step(reply) {
                StepView::Next(scan, action) => StepView::Next(
                    ProvisionerView {
                        stage: ProvisionStageView::Rediscovering { scan, workspace },
                        ..self
                    },
                    action,
                ),
                StepView::Done(tmux) => match tmux.session_position(workspace.session_name) {
                    Some(i) if tmux.sessions[i].windows.len() > 0 => (ProvisionerView {
                        placeholder: Some(tmux.sessions[i].windows[0].name),
                        ..self
                    }).enter(tmux.sessions[i], workspace),
                    _ => StepView::Failed(ProvisionError::Addressing),
                },
                StepView::Failed(error) => StepView::Failed(error),
            },
            ProvisionStageView::Building { setup } => match setup.step(reply) {
                StepView::Next(setup, action) => StepView::Next(
                    ProvisionerView { stage: ProvisionStageView::Building { setup }, ..self },
                    action,
                ),
                StepView::Done(window) => self.attach(window),
                StepView::Failed(error) => StepView::Failed(error),
            },
            ProvisionStageView::Attaching => match reply {
                ReplyView::Done => match self.placeholder {
                    Some(name) => StepView::Next(
                        ProvisionerView { stage: ProvisionStageView::Cleaning, ..self },
                        ActionView::KillWindow { target: address(self.session_name, name, 0) },
                    ),
                    None => self.refresh(),
                },
                _ => StepView::Failed(ProvisionError::Attach),
            },
            ProvisionStageView::Cleaning => match reply {
                ReplyView::Done => self.refresh(),
                _ => StepView::Failed(ProvisionError::Cleanup),
            },
            ProvisionStageView::Refreshing { scan } => match scan.step(reply) {
                StepView::Next(scan, action) => StepView::Next(
                    ProvisionerView { stage: ProvisionStageView::Refreshing { scan }, ..self },
                    action,
                ),
                StepView::Done(tmux) => StepView::Done(tmux),
                StepView::Failed(error) => StepView::Failed(error),
            },
        }
    }
}

impl Provisioner {
    fn attach(self, window: Window) -> (res: Step<Provisioner, Tmux>)
        ensures
            res@ == self@.attach(window@),
    {
        let action = window.attach(self.location);
        Step::Next(
            Provisioner {
                session_name: self.session_name,
                location: self.location,
                placeholder: self.placeholder,
                stage: ProvisionStage::Attaching,
            },
            action,
        )
    }

    fn enter(self, session: Session, workspace: WorkSpace) -> (res: Step<Provisioner, Tmux>)
        ensures
            res@ == self@.enter(session@, workspace@),
    {
        match session.setup_workspace(workspace) {
            Step::Next(setup, action) => Step::Next(
                Provisioner {
                    session_name: self.session_name,
                    location: self.location,
                    placeholder: self.placeholder,
                    stage: ProvisionStage::Building { setup },
                },
                action,
            ),
            Step::Done(window) => self.attach(window),
            Step::Failed(error) => Step::Failed(error),
        }
    }

    fn refresh(self) -> (res: Step<Provisioner, Tmux>)
        ensures
            res@ == self@.refresh(),
    {
        let (scan, action) = Session::all_sessions();
        Step::Next(
            Provisioner {
                session_name: self.session_name,
                location: self.location,
                placeholder: self.placeholder,
                stage: ProvisionStage::Refreshing { scan },
            },
            action,
        )
    }

    /// Absorbs the answer to the operation that the run asked for last, and
    /// says what comes next: another operation, the refreshed snapshot of a
    /// finished run, or the error that ended it.
    pub fn step(self, reply: Reply) -> (res: Step<Provisioner, Tmux>)
        ensures
            res@ == self@.step(reply@),
    {
        let Provisioner { session_name, location, placeholder, stage } = self;
        match stage {
            ProvisionStage::Discovering { scan, workspace } => match scan.step(reply) {
                Step::Next(scan, action) => Step::Next(
                    Provisioner {
                        session_name,
                        location,
                        placeholder,
                        stage: ProvisionStage::Discovering { scan, workspace },
                    },
                    action,
                ),
                Step::Done(tmux) => match tmux.session_position(workspace.session_name.as_str()) {
                    Some(i) => {
                        let Tmux { sessions } = tmux;
                        let mut sessions = sessions;
                        assert(views(sessions@)[i as int] == sessions[i as int]@);
                        let session = sessions.remove(i);
                        (Provisioner {
                            session_name,
                            location,
                            placeholder,
                            stage: ProvisionStage::Attaching,
                        }).enter(session, workspace)
                    },
                    None => {
                        let action = tmux.create_session(workspace.session_name.as_str());
                        Step::Next(
                            Provisioner {
                                session_name,
                                location,
                                placeholder,
                                stage: ProvisionStage::CreatingSession { workspace },
                            },
                            action,
                        )
                    },
                },
                Step::Failed(error) => Step::Failed(error),
            },
            ProvisionStage::CreatingSession { workspace } => match reply {
                Reply::Done => {
                    let (scan, action) = Session::all_sessions();
                    Step::Next(
                        Provisioner {
                            session_name,
                            location,
                            placeholder,
                            stage: ProvisionStage::Rediscovering { scan, workspace },
                        },
                        action,
                    )
                },
                _ => Step::Failed(ProvisionError::Creation),
            },
            ProvisionStage::Rediscovering { scan, workspace } => match scan.step(reply) {
                Step::Next(scan, action) => Step::Next(
                    Provisioner {
                        session_name,
                        location,
                        placeholder,
                        stage: ProvisionStage::Rediscovering { scan, workspace },
                    },
                    action,
                ),
                Step::Done(tmux) => match tmux.session_position(workspace.session_name.as_str()) {
                    Some(i) => {
                        let Tmux { sessions } = tmux;
                        let mut sessions = sessions;
                        assert(views(sessions@)[i as int] == sessions[i as int]@);
                        let session = sessions.remove(i);
                        if session.windows.len() > 0 {
                            assert(views(session.windows@)[0] == session.windows[0]@);
                            let first = session.windows[0].name.clone();
                            (Provisioner {
                                session_name,
                                location,
                                placeholder: Some(first),
                                stage: ProvisionStage::Attaching,
                            }).enter(session, workspace)
                        } else {
                            Step::Failed(ProvisionError::Addressing)
                        }
                    },
                    None => Step::Failed(ProvisionError::Addressing),
                },
                Step::Failed(error) => Step::Failed(error),
            },
            ProvisionStage::Building { setup } => match setup.step(reply) {
                Step::Next(setup, action) => Step::Next(
                    Provisioner {
                        session_name,
                        location,
                        placeholder,
                        stage: ProvisionStage::Building { setup },
                    },
                    action,
                ),
                Step::Done(window) => (Provisioner {
                    session_name,
                    location,
                    placeholder,
                    stage: ProvisionStage::Attaching,
                }).attach(window),
                Step::Failed(error) => Step::Failed(error),
            },
            ProvisionStage::Attaching => match reply {
                Reply::Done => match placeholder {
                    Some(name) => {
                        let action = Action::KillWindow {
                            target: target(session_name.as_str(), name.as_str(), 0),
                        };
                        Step::Next(
                            Provisioner {
                                session_name,
                                location,
                                placeholder: Some(name),
                                stage: ProvisionStage::Cleaning,
                            },
                            action,
                        )
                    },
                    None => (Provisioner {
                        session_name,
                        location,
                        placeholder: None,
                        stage: ProvisionStage::Attaching,
                    }).refresh(),
                },
                _ => Step::Failed(ProvisionError::Attach),
            },
            ProvisionStage::Cleaning => match reply {
                Reply::Done => (Provisioner {
                    session_name,
                    location,
                    placeholder,
                    stage: ProvisionStage::Cleaning,
                }).refresh(),
                _ => Step::Failed(ProvisionError::Cleanup),
            },
            ProvisionStage::Refreshing { scan } => match scan.step(reply) {
                Step::Next(scan, action) => Step::Next(
                    Provisioner {
                        session_name,
                        location,
                        placeholder,
                        stage: ProvisionStage::Refreshing { scan },
                    },
                    action,
                ),
                Step::Done(tmux) => Step::Done(tmux),
                Step::Failed(error) => Step::Failed(error),
            },
        }
    }
}

/// Starts provisioning `workspace` for a terminal at `location`. The first
/// thing asked for is the list of sessions.
pub fn setup_workspace(workspace: WorkSpace, location: ClientLocation) -> (res: (
    Provisioner,
    Action,
))
    ensures
        res.0@ == ProvisionerView::start(workspace@, location),
        res.1@ == ActionView::ListSessions,
{
    let (scan, action) = Session::all_sessions();
    (
        Provisioner {
            session_name: workspace.session_name.clone(),
            location,
            placeholder: None,
            stage: ProvisionStage::Discovering { scan, workspace },
        },
        action,
    )
}

} // verus!
