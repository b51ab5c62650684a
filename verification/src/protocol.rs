//! What the engine asks of the multiplexer and what it is told in return.
//!
//! Every operation the engine wants performed is an [`Action`]; the outcome
//! of performing it is a [`Reply`]. Listings arrive as raw records, exactly as
//! the multiplexer reported them.
use vstd::prelude::*;
use vstd::string::*;

verus! {

/// The views of the elements of a sequence, in order.
pub open spec fn views<T: View>(items: Seq<T>) -> Seq<T::V> {
    Seq::new(items.len(), |i: int| items[i]@)
}

/// One session as the multiplexer lists it.
#[derive(Debug, Clone, PartialEq, Eq)]
pub struct SessionRecord {
    pub name: String,
}

/// The mathematical model of a [`SessionRecord`].
pub struct SessionRecordView {
    pub name: Seq<char>,
}

impl View for SessionRecord {
    type V = SessionRecordView;

    open spec fn view(&self) -> SessionRecordView {
        SessionRecordView { name: self.name@ }
    }
}

/// One window as the multiplexer lists it.
#[derive(Debug, Clone, PartialEq, Eq)]
pub struct WindowRecord {
    pub name: String,
    pub panes: i32,
}

/// The mathematical model of a [`WindowRecord`].
pub struct WindowRecordView {
    pub name: Seq<char>,
    pub panes: int,
}

impl View for WindowRecord {
    type V = WindowRecordView;

    open spec fn view(&self) -> WindowRecordView {
        WindowRecordView { name: self.name@, panes: self.panes as int }
    }
}

/// One pane as the multiplexer lists it.
#[derive(Debug, Clone, Copy, PartialEq, Eq)]
pub struct PaneRecord {
    pub index: i32,
}

impl View for PaneRecord {
    type V = int;

    open spec fn view(&self) -> int {
        self.index as int
    }
}

/// An operation of the multiplexer. Sessions and windows are always created
/// detached, so that nothing steals the foreground while a workspace is built.
#[derive(Debug, Clone, PartialEq, Eq)]
pub enum Action {
    ListSessions,
    ListWindows { session: String },
    ListPanes { target: String },
    NewSession { name: String },
    NewWindow { session: String, name: String, dir: String },
    SplitWindow { target: String, dir: String },
    SendKeys { target: String, keys: Vec<String> },
    KillWindow { target: String },
    AttachSession { target: String },
    SwitchClient { target: String },
}

/// The mathematical model of an [`Action`].
pub enum ActionView {
    ListSessions,
    ListWindows { session: Seq<char> },
    ListPanes { target: Seq<char> },
    NewSession { name: Seq<char> },
    NewWindow { session: Seq<char>, name: Seq<char>, dir: Seq<char> },
    SplitWindow { target: Seq<char>, dir: Seq<char> },
    SendKeys { target: Seq<char>, keys: Seq<Seq<char>> },
    KillWindow { target: Seq<char> },
    AttachSession { target: Seq<char> },
    SwitchClient { target: Seq<char> },
}

impl View for Action {
    type V = ActionView;

    open spec fn view(&self) -> ActionView {
        match self {
            Action::ListSessions => ActionView::ListSessions,
            Action::ListWindows { session } => ActionView::ListWindows { session: session@ },
            Action::ListPanes { target } => ActionView::ListPanes { target: target@ },
            Action::NewSession { name } => ActionView::NewSession { name: name@ },
            Action::NewWindow { session, name, dir } => ActionView::NewWindow {
                session: session@,
                name: name@,
                dir: dir@,
            },
            Action::SplitWindow { target, dir } => ActionView::SplitWindow {
                target: target@,
                dir: dir@,
            },
            Action::SendKeys { target, keys } => ActionView::SendKeys {
                target: target@,
                keys: views(keys@),
            },
            Action::KillWindow { target } => ActionView::KillWindow { target: target@ },
            Action::AttachSession { target } => ActionView::AttachSession { target: target@ },
            Action::SwitchClient { target } => ActionView::SwitchClient { target: target@ },
        }
    }
}

impl ActionView {
    /// Operations that only read the multiplexer's state.
    pub open spec fn is_listing(self) -> bool {
        self is ListSessions || self is ListWindows || self is ListPanes
    }
}

/// The outcome of one [`Action`].
#[derive(Debug, Clone, PartialEq, Eq)]
pub enum Reply {
    /// The operation was carried out; it has nothing to report.
    Done,
    /// The multiplexer rejected the operation or could not be reached.
    Failed,
    Sessions(Vec<SessionRecord>),
    Windows(Vec<WindowRecord>),
    Panes(Vec<PaneRecord>),
}

/// The mathematical model of a [`Reply`].
pub enum ReplyView {
    Done,
    Failed,
    Sessions(Seq<SessionRecordView>),
    Windows(Seq<WindowRecordView>),
    Panes(Seq<int>),
}

impl View for Reply {
    type V = ReplyView;

    open spec fn view(&self) -> ReplyView {
        match self {
            Reply::Done => ReplyView::Done,
            Reply::Failed => ReplyView::Failed,
            Reply::Sessions(records) => ReplyView::Sessions(views(records@)),
            Reply::Windows(records) => ReplyView::Windows(views(records@)),
            Reply::Panes(records) => ReplyView::Panes(views(records@)),
        }
    }
}

/// Why a provisioning run was abandoned.
#[derive(Debug, Clone, Copy, PartialEq, Eq, Structural)]
pub enum ProvisionError {
    /// Sessions, windows or panes could not be listed.
    Discovery,
    /// The multiplexer rejected the creation of a session, window or pane.
    Creation,
    /// What an operation should have produced is not in the listing that
    /// follows it.
    Addressing,
    /// The keystrokes that apply the layout could not be sent.
    LayoutApply,
    /// The keystrokes of an initial command could not be sent.
    Dispatch,
    /// The terminal could not be attached or switched to the window.
    Attach,
    /// The placeholder window could not be removed; the workspace itself is
    /// built and attached.
    Cleanup,
}

impl ProvisionError {
    /// A line for the user.
    pub fn message(&self) -> (res: String)
        ensures
            res@ == match *self {
                ProvisionError::Discovery => "could not list sessions, windows or panes"@,
                ProvisionError::Creation => "could not create session, window or pane"@,
                ProvisionError::Addressing => "session or window missing after its creation"@,
                ProvisionError::LayoutApply => "could not apply the layout"@,
                ProvisionError::Dispatch => "could not send an initial command"@,
                ProvisionError::Attach => "could not attach to the window"@,
                ProvisionError::Cleanup => "could not remove the placeholder window"@,
            },
    {
        match self {
            ProvisionError::Discovery => String::from_str(
                "could not list sessions, windows or panes",
            ),
            ProvisionError::Creation => String::from_str(
                "could not create session, window or pane",
            ),
            ProvisionError::Addressing => String::from_str(
                "session or window missing after its creation",
            ),
            ProvisionError::LayoutApply => String::from_str("could not apply the layout"),
            ProvisionError::Dispatch => String::from_str("could not send an initial command"),
            ProvisionError::Attach => String::from_str("could not attach to the window"),
            ProvisionError::Cleanup => String::from_str("could not remove the placeholder window"),
        }
    }
}

/// One move of an engine that is driven by replies: it asks for the next
/// operation, ends with a result, or gives up.
#[derive(Debug)]
pub enum Step<M, T> {
    /// The engine goes on once the action has been answered.
    Next(M, Action),
    Done(T),
    Failed(ProvisionError),
}

/// The mathematical model of a [`Step`].
pub enum StepView<M, T> {
    Next(M, ActionView),
    Done(T),
    Failed(ProvisionError),
}

impl<M: View, T: View> View for Step<M, T> {
    type V = StepView<M::V, T::V>;

    open spec fn view(&self) -> StepView<M::V, T::V> {
        match self {
            Step::Next(engine, action) => StepView::Next(engine@, action@),
            Step::Done(result) => StepView::Done(result@),
            Step::Failed(error) => StepView::Failed(*error),
        }
    }
}

} // verus!
