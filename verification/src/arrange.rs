//! Growing a window to the pane count of a layout and applying the layout.
//!
//! Panes are only ever added, by splitting pane 0, and the pane listing is
//! read again after every split because a split may renumber the panes. The
//! layout is applied only after the growth, since a descriptor encodes an
//! exact pane count. It is typed into pane 0 as a command line.
use crate::protocol::{Action, ActionView, ProvisionError, Reply, ReplyView, Step, StepView};
use crate::request::{Layout, LayoutView};
use crate::topology::{enter, Window, WindowView};
use vstd::prelude::*;
use vstd::string::*;

verus! {

/// The command line that applies `descriptor` to the window behind `target`.
pub open spec fn layout_command(target: Seq<char>, descriptor: Seq<char>) -> Seq<char> {
    "tmux select-layout -t "@ + target + " \""@ + descriptor + "\""@
}

/// The panes still missing to reach `wanted` from `count`.
pub open spec fn missing(wanted: int, count: int) -> int {
    if count < wanted {
        wanted - count
    } else {
        0
    }
}

/// What a [`LayoutRun`] is waiting for.
#[derive(Debug, Clone, Copy, PartialEq, Eq, Structural)]
pub enum LayoutStage {
    /// The pane listing that precedes the growth.
    Refreshing,
    /// The outcome of a split.
    Splitting,
    /// The pane listing that follows a split.
    Reloading,
    /// The outcome of the layout keystrokes.
    Applying,
    /// The pane listing that follows the layout.
    Settling,
}

/// One window on its way to a layout.
#[derive(Debug)]
pub struct LayoutRun {
    pub window: Window,
    pub layout: Layout,
    /// Working directory of the panes that are added.
    pub dir: String,
    pub stage: LayoutStage,
    /// How many more splits the run may still ask for.
    pub splits_left: i32,
}

/// The mathematical model of a [`LayoutRun`].
pub struct LayoutRunView {
    pub window: WindowView,
    pub layout: LayoutView,
    pub dir: Seq<char>,
    pub stage: LayoutStage,
    pub splits_left: int,
}

impl View for LayoutRun {
    type V = LayoutRunView;

    open spec fn view(&self) -> LayoutRunView {
        LayoutRunView {
            window: self.window@,
            layout: self.layout@,
            dir: self.dir@,
            stage: self.stage,
            splits_left: self.splits_left as int,
        }
    }
}

impl WindowView {
    /// The keystrokes that apply `descriptor` to this window.
    pub open spec fn apply_layout(self, descriptor: Seq<char>) -> ActionView {
        self.send_keys(seq![layout_command(self.target(0), descriptor), enter()])
    }

    /// A run for this window that has listed nothing yet.
    pub open spec fn setup_layout(self, layout: LayoutView, dir: Seq<char>) -> LayoutRunView {
        LayoutRunView { window: self, layout, dir, stage: LayoutStage::Refreshing, splits_left: 0 }
    }
}

impl LayoutRunView {
    /// Splits once more while panes are missing and splits are left, and
    /// applies the layout otherwise.
    pub open spec fn grow(self) -> StepView<LayoutRunView, WindowView> {
        if self.window.number_of_panes < self.layout.window_count && self.splits_left > 0 {
            StepView::Next(
                LayoutRunView { stage: LayoutStage::Splitting, ..self },
                self.window.split_window(self.dir),
            )
        } else {
            StepView::Next(
                LayoutRunView { stage: LayoutStage::Applying, ..self },
                self.window.apply_layout(self.layout.layout_string),
            )
        }
    }

    /// The move of the run on `reply`: a listing is absorbed, a split is
    /// followed by a listing, the layout is typed once nothing is left to
    /// split, and the listing after the layout ends the run. A refused split
    /// is a creation error, refused layout keystrokes are a layout error and
    /// any other unexpected reply is a discovery error.
    pub open spec fn step(self, reply: ReplyView) -> StepView<LayoutRunView, WindowView> {
        match (self.stage, reply) {
            (LayoutStage::Refreshing, ReplyView::Panes(panes)) => {
                let window = self.window.reloaded(panes);
                (LayoutRunView {
                    window,
                    splits_left: missing(self.layout.window_count, window.number_of_panes),
                    ..self
                }).grow()
            },
            (LayoutStage::Splitting, ReplyView::Done) => StepView::Next(
                LayoutRunView { stage: LayoutStage::Reloading, ..self },
                self.window.list_panes(),
            ),
            (LayoutStage::Splitting, _) => StepView::Failed(ProvisionError::Creation),
            (LayoutStage::Reloading, ReplyView::Panes(panes)) => (LayoutRunView {
                window: self.window.reloaded(panes),
                splits_left: if self.splits_left > 0 {
                    self.splits_left - 1
                } else {
                    0
                },
                ..self
            }).grow(),
            (LayoutStage::Applying, ReplyView::Done) => StepView::Next(
                LayoutRunView { stage: LayoutStage::Settling, ..self },
                self.window.list_panes(),
            ),
            (LayoutStage::Applying, _) => StepView::Failed(ProvisionError::LayoutApply),
            (LayoutStage::Settling, ReplyView::Panes(panes)) => StepView::Done(
                self.window.reloaded(panes),
            ),
            _ => StepView::Failed(ProvisionError::Discovery),
        }
    }
}

impl Window {
    /// The keystrokes that apply the layout `descriptor` to this window.
    pub fn apply_layout(&self, descriptor: &str) -> (res: Action)
        ensures
            res@ == self@.apply_layout(descriptor@),
    {
        let mut command = String::from_str("tmux select-layout -t ");
        let target = self.target(0);
        command.append(target.as_str());
        command.append(" \"");
        command.append(descriptor);
        command.append("\"");
        assert(command@ =~= layout_command(self@.target(0), descriptor@));
        proof {
            reveal_strlit("Enter");
        }
        let keys = vec![command.as_str(), "Enter"];
        assert(crate::protocol::views(keys@) =~= seq![
            layout_command(self@.target(0), descriptor@),
            enter(),
        ]);
        self.send_keys(keys)
    }

    /// Starts bringing this window to `layout`; panes that are added start in
    /// `dir`. The first thing asked for is a fresh pane listing.
    pub fn setup_layout(self, layout: Layout, dir: &str) -> (res: (LayoutRun, Action))
        ensures
            res.0@ == self@.setup_layout(layout@, dir@),
            res.1@ == self@.list_panes(),
    {
        let action = self.list_panes();
        (
            LayoutRun {
                window: self,
                layout,
                dir: dir.to_owned(),
                stage: LayoutStage::Refreshing,
                splits_left: 0,
            },
            action,
        )
    }
}

impl LayoutRun {
    fn grow(self) -> (res: Step<LayoutRun, Window>)
        ensures
            res@ == self@.grow(),
    {
        let LayoutRun { window, layout, dir, stage: _, splits_left } = self;
        if window.number_of_panes < layout.window_count && splits_left > 0 {
            let action = window.split_window(dir.as_str());
            Step::Next(
                LayoutRun { window, layout, dir, stage: LayoutStage::Splitting, splits_left },
                action,
            )
        } else {
            let action = window.apply_layout(layout.layout_string.as_str());
            Step::Next(
                LayoutRun { window, layout, dir, stage: LayoutStage::Applying, splits_left },
                action,
            )
        }
    }

    /// Absorbs the answer to the operation that the run asked for last.
    pub fn step(self, reply: Reply) -> (res: Step<LayoutRun, Window>)
        ensures
            res@ == self@.step(reply@),
    {
        let LayoutRun { window, layout, dir, stage, splits_left } = self;
        let mut window = window;
        match (stage, reply) {
            (LayoutStage::Refreshing, Reply::Panes(panes)) => {
                window.reload_panes(panes);
                let splits_left = if window.number_of_panes < layout.window_count {
                    proof {
                        assert(window.number_of_panes >= 0);
                    }
                    layout.window_count - window.number_of_panes
                } else {
                    0
                };
                (LayoutRun { window, layout, dir, stage, splits_left }).grow()
            },
            (LayoutStage::Splitting, Reply::Done) => {
                let action = window.list_panes();
                Step::Next(
                    LayoutRun { window, layout, dir, stage: LayoutStage::Reloading, splits_left },
                    action,
                )
            },
            (LayoutStage::Splitting, _) => Step::Failed(ProvisionError::Creation),
            (LayoutStage::Reloading, Reply::Panes(panes)) => {
                window.reload_panes(panes);
                let splits_left = if splits_left > 0 {
                    splits_left - 1
                } else {
                    0
                };
                (LayoutRun { window, layout, dir, stage, splits_left }).grow()
            },
            (LayoutStage::Applying, Reply::Done) => {
                let action = window.list_panes();
                Step::Next(
                    LayoutRun { window, layout, dir, stage: LayoutStage::Settling, splits_left },
                    action,
                )
            },
            (LayoutStage::Applying, _) => Step::Failed(ProvisionError::LayoutApply),
            (LayoutStage::Settling, Reply::Panes(panes)) => {
                window.reload_panes(panes);
                Step::Done(window)
            },
            _ => Step::Failed(ProvisionError::Discovery),
        }
    }
}

} // verus!
