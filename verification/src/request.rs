//! What a caller asks for: a workspace, its layout and its startup commands.
use crate::protocol::views;
use vstd::prelude::*;
use vstd::string::*;

verus! {

/// Startup commands; the command at position `i` is meant for pane `i`.
pub type Commands = Vec<String>;

/// The pane layout of a workspace window.
#[derive(Debug, Clone, PartialEq, Eq)]
pub struct Layout {
    /// The least number of panes the window must have. Panes are only ever
    /// added to reach it.
    pub window_count: i32,
    /// The layout descriptor, handed to the multiplexer as it is.
    pub layout_string: String,
}

/// The mathematical model of a [`Layout`].
pub struct LayoutView {
    pub window_count: int,
    pub layout_string: Seq<char>,
}

impl View for Layout {
    type V = LayoutView;

    open spec fn view(&self) -> LayoutView {
        LayoutView { window_count: self.window_count as int, layout_string: self.layout_string@ }
    }
}

/// A workspace to provision.
#[derive(Debug, Clone, PartialEq, Eq)]
pub struct WorkSpace {
    pub session_name: String,
    pub window_name: String,
    pub dir: String,
    pub layout: Layout,
    pub commands: Commands,
}

/// The mathematical model of a [`WorkSpace`].
pub struct WorkSpaceView {
    pub session_name: Seq<char>,
    pub window_name: Seq<char>,
    pub dir: Seq<char>,
    pub layout: LayoutView,
    pub commands: Seq<Seq<char>>,
}

impl View for WorkSpace {
    type V = WorkSpaceView;

    open spec fn view(&self) -> WorkSpaceView {
        WorkSpaceView {
            session_name: self.session_name@,
            window_name: self.window_name@,
            dir: self.dir@,
            layout: self.layout@,
            commands: views(self.commands@),
        }
    }
}

/// Where the invoking terminal stands relative to the multiplexer.
#[derive(Debug, Clone, Copy, PartialEq, Eq, Structural)]
pub enum ClientLocation {
    /// Not inside any session: the terminal attaches.
    Outside,
    /// Already inside a session: the client is switched, because an attach
    /// cannot be nested.
    Inside,
}

/// Reads the environment indicator: a terminal is inside the multiplexer
/// exactly when the indicator is set.
pub fn in_tmux(indicator: Option<String>) -> (res: ClientLocation)
    ensures
        res == if indicator is Some {
            ClientLocation::Inside
        } else {
            ClientLocation::Outside
        },
{
    match indicator {
        Some(_) => ClientLocation::Inside,
        None => ClientLocation::Outside,
    }
}

/// The descriptor of the default two-pane layout.
pub open spec fn default_layout() -> Seq<char> {
    "34ed,230x56,0,0{132x56,0,0,3,97x56,133,0,222}"@
}

/// The descriptor of the default layout, as an owned string.
pub fn default_layout_checksum() -> (res: String)
    ensures
        res@ == default_layout(),
{
    String::from_str("34ed,230x56,0,0{132x56,0,0,3,97x56,133,0,222}")
}

} // verus!
