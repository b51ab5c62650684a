//! What holds of every run of the engine, whatever the multiplexer answers.
use crate::addressing::lemma_sanitized_idempotent;
use crate::arrange::{missing, LayoutRunView, LayoutStage};
use crate::discovery::{SessionScanView, WindowScanView};
use crate::protocol::{ActionView, ReplyView, StepView};
use crate::provision::{ProvisionStageView, ProvisionerView};
use crate::topology::{
    counted, enter, has_index, lemma_first_from, SessionView, TmuxView, WindowView,
};
use vstd::prelude::*;

verus! {

/// How many of `actions` split a pane.
pub open spec fn split_count(actions: Seq<ActionView>) -> nat
    decreases actions.len(),
{
    if actions.len() == 0 {
        0
    } else {
        let rest = split_count(actions.drop_first());
        if actions[0] is SplitWindow {
            rest + 1
        } else {
            rest
        }
    }
}

impl LayoutRunView {
    /// The operations that the run asks for while it is fed `replies`, one
    /// reply per operation, up to its end or to the last reply.
    pub open spec fn actions(self, replies: Seq<ReplyView>) -> Seq<ActionView>
        decreases replies.len(),
    {
        if replies.len() == 0 {
            Seq::empty()
        } else {
            match self.step(replies[0]) {
                StepView::Next(next, action) => seq![action] + next.actions(replies.drop_first()),
                _ => Seq::empty(),
            }
        }
    }

    /// The splits that the run may still ask for after the operation it is
    /// waiting on.
    pub open spec fn budget(self) -> int {
        match self.stage {
            LayoutStage::Refreshing => 0,
            LayoutStage::Splitting | LayoutStage::Reloading => if self.splits_left > 0 {
                self.splits_left - 1
            } else {
                0
            },
            LayoutStage::Applying | LayoutStage::Settling => 0,
        }
    }

    /// The operations a run for this window may ask for: they list its panes,
    /// split its pane 0 or type into its pane 0. None of them removes a pane.
    pub open spec fn allows(self, action: ActionView) -> bool {
        ||| action == self.window.list_panes()
        ||| action == self.window.split_window(self.dir)
        ||| action == self.window.apply_layout(self.layout.layout_string)
    }
}

proof fn lemma_split_count_cons(action: ActionView, rest: Seq<ActionView>)
    ensures
        split_count(seq![action] + rest) == split_count(rest) + if action is SplitWindow {
            1nat
        } else {
            0nat
        },
{
    assert((seq![action] + rest).drop_first() =~= rest);
}

proof fn lemma_budget(run: LayoutRunView, replies: Seq<ReplyView>)
    requires
        !(run.stage is Refreshing),
    ensures
        split_count(run.actions(replies)) <= run.budget(),
    decreases replies.len(),
{
    if replies.len() > 0 {
        match run.step(replies[0]) {
            StepView::Next(next, action) => {
                lemma_budget(next, replies.drop_first());
                lemma_split_count_cons(action, next.actions(replies.drop_first()));
            },
            _ => {},
        }
    }
}

/// Growing a window asks for at most as many splits as panes were missing at
/// the first listing, and for none when nothing was missing, whatever the
/// later listings report and however many replies arrive.
pub proof fn lemma_growth_is_bounded(run: LayoutRunView, replies: Seq<ReplyView>)
    requires
        run.stage is Refreshing,
    ensures
        split_count(run.actions(replies)) <= match replies.first() {
            ReplyView::Panes(panes) if replies.len() > 0 => missing(
                run.layout.window_count,
                counted(panes.len()),
            ),
            _ => 0,
        },
{
    if replies.len() > 0 {
        match run.step(replies[0]) {
            StepView::Next(next, action) => {
                lemma_budget(next, replies.drop_first());
                lemma_split_count_cons(action, next.actions(replies.drop_first()));
            },
            _ => {},
        }
    }
}

/// Every operation of a run addresses pane 0 of the window the run was
/// started for, and none removes a pane: the run lists, splits and types.
pub proof fn lemma_growth_only_adds(run: LayoutRunView, replies: Seq<ReplyView>, k: int)
    requires
        0 <= k < run.actions(replies).len(),
    ensures
        run.actions(replies)[k] is ListPanes || run.actions(replies)[k] is SplitWindow
            || run.actions(replies)[k] is SendKeys,
        run.actions(replies)[k] == (ActionView::ListPanes { target: run.window.target(0) })
            || run.actions(replies)[k] == (ActionView::SplitWindow {
            target: run.window.target(0),
            dir: run.dir,
        }) || run.actions(replies)[k] == run.window.apply_layout(run.layout.layout_string),
    decreases replies.len(),
{
    if replies.len() > 0 {
        match run.step(replies[0]) {
            StepView::Next(next, action) => {
                assert(next.window.target(0) == run.window.target(0));
                if k > 0 {
                    lemma_growth_only_adds(next, replies.drop_first(), k - 1);
                }
            },
            _ => {},
        }
    }
}

impl WindowView {
    /// The positions, from `start` on and below `count`, for which this
    /// window holds a pane with that index, in rising order.
    pub open spec fn served_from(self, count: int, start: int) -> Seq<int>
        decreases count - start,
    {
        if start < 0 || start >= count {
            Seq::empty()
        } else {
            let rest = self.served_from(count, start + 1);
            if self.pane(start) is Some {
                seq![start] + rest
            } else {
                rest
            }
        }
    }
}

proof fn lemma_served(window: WindowView, count: int, start: int)
    requires
        0 <= start,
    ensures
        forall|k: int|
            0 <= k < window.served_from(count, start).len() ==> start <= (
            #[trigger] window.served_from(count, start)[k]) < count && window.pane(
                window.served_from(count, start)[k],
            ) is Some,
        forall|k: int, l: int|
            0 <= k < l < window.served_from(count, start).len() ==> window.served_from(
                count,
                start,
            )[k] < window.served_from(count, start)[l],
        forall|i: int|
            start <= i < count && window.pane(i) is Some ==> window.served_from(
                count,
                start,
            ).contains(i),
    decreases count - start,
{
    if start < count {
        lemma_served(window, count, start + 1);
        let rest = window.served_from(count, start + 1);
        let all = window.served_from(count, start);
        if window.pane(start) is Some {
            assert(all =~= seq![start] + rest);
            assert(all[0] == start);
            assert forall|k: int| 0 <= k < all.len() implies start <= (#[trigger] all[k]) < count
                && window.pane(all[k]) is Some by {
                if k > 0 {
                    assert(all[k] == rest[k - 1]);
                }
            }
            assert forall|k: int, l: int| 0 <= k < l < all.len() implies all[k] < all[l] by {
                assert(all[l] == rest[l - 1]);
                if k > 0 {
                    assert(all[k] == rest[k - 1]);
                }
            }
            assert forall|i: int| start <= i < count && window.pane(i) is Some implies all.contains(
                i,
            ) by {
                if i > start {
                    assert(rest.contains(i));
                    let k = choose|k: int| 0 <= k < rest.len() && rest[k] == i;
                    assert(all[k + 1] == i);
                }
            }
        }
    }
}

proof fn lemma_dispatch_from(window: WindowView, commands: Seq<Seq<char>>, start: int)
    requires
        0 <= start,
    ensures
        window.dispatch_from(commands, start).len() == window.served_from(
            commands.len() as int,
            start,
        ).len(),
        forall|k: int|
            0 <= k < window.dispatch_from(commands, start).len() ==> #[trigger] window.dispatch_from(
                commands,
                start,
            )[k] == window.pane(
                window.served_from(commands.len() as int, start)[k],
            ).unwrap().send_keys(
                seq![commands[window.served_from(commands.len() as int, start)[k]], enter()],
            ),
    decreases commands.len() - start,
{
    if start < commands.len() {
        lemma_dispatch_from(window, commands, start + 1);
    }
}

/// Command `i` is typed only into the pane whose index is `i`, followed by
/// Enter. The dispatches stand in the order of the commands, each command
/// that has its pane is dispatched exactly once, and a command without its
/// pane is not dispatched at all.
pub proof fn lemma_dispatch_by_index(window: WindowView, commands: Seq<Seq<char>>)
    ensures
        ({
            let plan = window.initial_command(commands);
            let served = window.served_from(commands.len() as int, 0);
            &&& plan.len() == served.len()
            &&& forall|k: int|
                0 <= k < plan.len() ==> 0 <= (#[trigger] served[k]) < commands.len()
                    && window.pane(served[k]) is Some
            &&& forall|k: int|
                0 <= k < plan.len() ==> window.pane(served[k]).unwrap().index == served[k]
                    && #[trigger] plan[k] == window.pane(served[k]).unwrap().send_keys(
                    seq![commands[served[k]], enter()],
                )
            &&& forall|k: int, l: int| 0 <= k < l < served.len() ==> served[k] < served[l]
            &&& forall|i: int|
                0 <= i < commands.len() ==> (served.contains(i) <==> window.pane(i) is Some)
        }),
{
    let plan = window.initial_command(commands);
    let served = window.served_from(commands.len() as int, 0);
    lemma_served(window, commands.len() as int, 0);
    lemma_dispatch_from(window, commands, 0);
    assert forall|k: int| 0 <= k < plan.len() implies window.pane(served[k]).unwrap().index
        == served[k] by {
        lemma_first_from(window.panes, has_index(served[k]), 0);
    }
}

impl SessionScanView {
    /// The operations that the discovery asks for while it is fed `replies`.
    pub open spec fn actions(self, replies: Seq<ReplyView>) -> Seq<ActionView>
        decreases replies.len(),
    {
        if replies.len() == 0 {
            Seq::empty()
        } else {
            match self.step(replies[0]) {
                StepView::Next(next, action) => seq![action] + next.actions(replies.drop_first()),
                _ => Seq::empty(),
            }
        }
    }
}

impl ProvisionerView {
    /// The operations that the run asks for while it is fed `replies`, one
    /// reply per operation, up to its end or to the last reply.
    pub open spec fn actions(self, replies: Seq<ReplyView>) -> Seq<ActionView>
        decreases replies.len(),
    {
        if replies.len() == 0 {
            Seq::empty()
        } else {
            match self.step(replies[0]) {
                StepView::Next(next, action) => seq![action] + next.actions(replies.drop_first()),
                _ => Seq::empty(),
            }
        }
    }
}

/// A discovery only reads: every operation it asks for is a listing.
pub proof fn lemma_discovery_only_lists(scan: SessionScanView, replies: Seq<ReplyView>, k: int)
    requires
        0 <= k < scan.actions(replies).len(),
    ensures
        scan.actions(replies)[k].is_listing(),
    decreases replies.len(),
{
    if replies.len() > 0 {
        match scan.step(replies[0]) {
            StepView::Next(next, action) => {
                if k > 0 {
                    lemma_discovery_only_lists(next, replies.drop_first(), k - 1);
                }
            },
            _ => {},
        }
    }
}

proof fn lemma_refresh_only_lists(run: ProvisionerView, replies: Seq<ReplyView>, k: int)
    requires
        run.stage is Refreshing,
        0 <= k < run.actions(replies).len(),
    ensures
        run.actions(replies)[k].is_listing(),
    decreases replies.len(),
{
    if replies.len() > 0 {
        match run.step(replies[0]) {
            StepView::Next(next, action) => {
                if k > 0 {
                    lemma_refresh_only_lists(next, replies.drop_first(), k - 1);
                }
            },
            _ => {},
        }
    }
}

/// Provisioning again what is already there changes nothing. When the first
/// discovery ends on a snapshot that holds the requested session with the
/// requested window, the run brings the terminal to that window and then
/// only reads: it creates no session, no window and no pane, types nothing
/// and removes nothing, whatever the multiplexer answers.
pub proof fn lemma_rerun_creates_nothing(
    run: ProvisionerView,
    reply: ReplyView,
    replies: Seq<ReplyView>,
    k: int,
)
    requires
        run.placeholder is None,
        run.stage matches ProvisionStageView::Discovering { scan, workspace } && scan.step(reply)
            matches StepView::Done(tmux) && tmux.session(workspace.session_name) matches Some(
            session,
        ) && session.has_window(workspace.window_name),
        0 <= k < run.actions(seq![reply] + replies).len(),
    ensures
        run.stage matches ProvisionStageView::Discovering { scan, workspace } && scan.step(reply)
            matches StepView::Done(tmux) && tmux.session(workspace.session_name) matches Some(
            session,
        ) && session.window(workspace.window_name) matches Some(window) && run.actions(
            seq![reply] + replies,
        )[0] == window.attach(run.location),
        k > 0 ==> run.actions(seq![reply] + replies)[k].is_listing(),
{
    let all = seq![reply] + replies;
    assert(all.drop_first() =~= replies);
    assert(all[0] == reply);
    match run.step(reply) {
        StepView::Next(attaching, action) => {
            assert(attaching.stage is Attaching);
            assert(attaching.placeholder is None);
            assert(run.actions(all) == seq![action] + attaching.actions(replies));
            if k > 0 {
                assert(run.actions(all)[k] == attaching.actions(replies)[k - 1]);
                assert(replies.len() > 0);
                match attaching.step(replies[0]) {
                    StepView::Next(refreshing, listing) => {
                        assert(listing.is_listing());
                        assert(attaching.actions(replies) == seq![listing] + refreshing.actions(
                            replies.drop_first(),
                        ));
                        if k > 1 {
                            lemma_refresh_only_lists(refreshing, replies.drop_first(), k - 2);
                        }
                    },
                    _ => {},
                }
            }
        },
        _ => {},
    }
}

/// A fresh pane listing keeps a window well formed.
pub proof fn lemma_reload_keeps_wf(window: WindowView, panes: Seq<int>)
    requires
        window.wf(),
    ensures
        window.reloaded(panes).wf(),
{
}

impl SessionScanView {
    /// Everything discovered so far is well formed.
    pub open spec fn wf(self) -> bool {
        &&& (TmuxView { sessions: self.done }).wf()
        &&& self.current matches Some(scan) ==> scan.wf()
    }
}

/// Listing the windows of a session stores nothing but sanitized names, each
/// window and pane under the name of its owner.
pub proof fn lemma_window_scan_keeps_wf(scan: WindowScanView, reply: ReplyView)
    requires
        scan.wf(),
    ensures
        match scan.step(reply) {
            StepView::Next(next, _) => next.wf(),
            StepView::Done(session) => session.wf(),
            StepView::Failed(_) => true,
        },
{
    match (scan.listed, reply) {
        (Some(records), ReplyView::Panes(panes)) if scan.done.len() < records.len() => {
            let record = records[scan.done.len() as int];
            lemma_sanitized_idempotent(record.name);
            let window = WindowView::from_record(record, scan.session_name, panes);
            assert(window.wf());
            let done = scan.done.push(window);
            assert forall|i: int| 0 <= i < done.len() implies (#[trigger] done[i]).wf()
                && done[i].session_name == scan.session_name by {
                if i < scan.done.len() {
                    let listed = SessionView { windows: scan.done, name: scan.session_name };
                    assert(listed.windows[i].wf());
                    assert(done[i] == scan.done[i]);
                }
            }
        },
        _ => {},
    }
}

/// A discovery ends on a snapshot in which every stored name is sanitized
/// and every window and pane names its owner.
pub proof fn lemma_discovery_keeps_wf(scan: SessionScanView, reply: ReplyView)
    requires
        scan.wf(),
    ensures
        SessionScanView::start().wf(),
        match scan.step(reply) {
            StepView::Next(next, _) => next.wf(),
            StepView::Done(tmux) => tmux.wf(),
            StepView::Failed(_) => true,
        },
{
    match scan.listed {
        None => match reply {
            ReplyView::Sessions(records) => {
                if records.len() > 0 {
                    lemma_sanitized_idempotent(records[0].name);
                }
            },
            _ => {},
        },
        Some(records) => match scan.current {
            Some(current) => {
                lemma_window_scan_keeps_wf(current, reply);
                match current.step(reply) {
                    StepView::Done(session) => {
                        let done = scan.done.push(session);
                        assert forall|i: int| 0 <= i < done.len() implies (#[trigger] done[i]).wf() by {
                            if i < scan.done.len() {
                                let found = TmuxView { sessions: scan.done };
                                assert(found.sessions[i].wf());
                                assert(done[i] == scan.done[i]);
                            }
                        }
                        if done.len() < records.len() {
                            lemma_sanitized_idempotent(records[done.len() as int].name);
                        }
                    },
                    _ => {},
                }
            },
            None => {},
        },
    }
}

} // verus!
