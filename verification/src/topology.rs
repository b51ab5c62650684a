//! Snapshots of what exists in the multiplexer: sessions, their windows and
//! the panes of each window.
//!
//! A snapshot is never live. It is replaced by a fresh listing after every
//! operation that changes the topology. Panes and windows name their owners
//! by value, so any of them can be addressed again through [`target`].
use crate::addressing::{address, clean_for_target, lemma_sanitized_idempotent, sanitized, target};
use crate::protocol::{views, Action, ActionView, PaneRecord, WindowRecord, WindowRecordView};
use crate::request::{ClientLocation, Commands};
use vstd::prelude::*;
use vstd::string::*;

verus! {

/// Position of the first element at or after `start` that is wanted.
pub open spec fn first_from<T>(items: Seq<T>, wanted: spec_fn(T) -> bool, start: int) -> Option<
    int,
>
    decreases items.len() - start,
{
    if start < 0 || start >= items.len() {
        None
    } else if wanted(items[start]) {
        Some(start)
    } else {
        first_from(items, wanted, start + 1)
    }
}

/// Position of the first wanted element.
pub open spec fn first_match<T>(items: Seq<T>, wanted: spec_fn(T) -> bool) -> Option<int> {
    first_from(items, wanted, 0)
}

/// `first_from` finds a wanted element with no wanted one before it, and
/// finds none only where there is none.
pub proof fn lemma_first_from<T>(items: Seq<T>, wanted: spec_fn(T) -> bool, start: int)
    requires
        0 <= start <= items.len(),
    ensures
        match first_from(items, wanted, start) {
            Some(i) => start <= i < items.len() && wanted(items[i]) && forall|j: int|
                start <= j < i ==> !wanted(#[trigger] items[j]),
            None => forall|j: int| start <= j < items.len() ==> !wanted(#[trigger] items[j]),
        },
    decreases items.len() - start,
{
    if start < items.len() && !wanted(items[start]) {
        lemma_first_from(items, wanted, start + 1);
    }
}

/// A pane count as the snapshot records it: the length of a pane listing,
/// capped at what the counter can hold.
pub open spec fn counted(len: nat) -> int {
    if len > i32::MAX {
        i32::MAX as int
    } else {
        len as int
    }
}

/// One addressable pane.
#[derive(Debug, Clone, PartialEq, Eq)]
pub struct Pane {
    pub session_name: String,
    pub window_name: String,
    pub index: i32,
}

/// The mathematical model of a [`Pane`].
pub struct PaneView {
    pub session_name: Seq<char>,
    pub window_name: Seq<char>,
    pub index: int,
}

impl View for Pane {
    type V = PaneView;

    open spec fn view(&self) -> PaneView {
        PaneView {
            session_name: self.session_name@,
            window_name: self.window_name@,
            index: self.index as int,
        }
    }
}

impl PaneView {
    /// The pane that a record stands for, inside the named window.
    pub open spec fn from_record(index: int, session: Seq<char>, window: Seq<char>) -> PaneView {
        PaneView { session_name: sanitized(session), window_name: sanitized(window), index }
    }

    /// The target string of this pane.
    pub open spec fn target(self) -> Seq<char> {
        address(self.session_name, self.window_name, self.index)
    }

    /// The keystrokes `keys`, addressed to this pane.
    pub open spec fn send_keys(self, keys: Seq<Seq<char>>) -> ActionView {
        ActionView::SendKeys { target: self.target(), keys }
    }
}

/// Where `index` enters a listing that is in rising order: behind every
/// entry that is not larger.
pub open spec fn slot(listing: Seq<int>, index: int) -> int
    decreases listing.len(),
{
    if listing.len() == 0 || listing.last() <= index {
        listing.len() as int
    } else {
        slot(listing.drop_last(), index)
    }
}

/// A listing of pane indices in rising order; equal indices keep the order
/// in which they were listed.
pub open spec fn ordered(indices: Seq<int>) -> Seq<int>
    decreases indices.len(),
{
    if indices.len() == 0 {
        Seq::empty()
    } else {
        let front = ordered(indices.drop_last());
        front.insert(slot(front, indices.last()), indices.last())
    }
}

/// The rising order of a listing holds exactly the listed indices, each as
/// often as it was listed.
pub proof fn lemma_ordered(indices: Seq<int>)
    ensures
        ordered(indices).len() == indices.len(),
        ordered(indices).to_multiset() == indices.to_multiset(),
        forall|i: int, j: int|
            0 <= i <= j < ordered(indices).len() ==> ordered(indices)[i] <= ordered(indices)[j],
    decreases indices.len(),
{
    broadcast use vstd::seq_lib::to_multiset_insert, vstd::seq_lib::to_multiset_build;

    if indices.len() > 0 {
        let front = ordered(indices.drop_last());
        let last = indices.last();
        lemma_ordered(indices.drop_last());
        lemma_slot(front, last);
        let at = slot(front, last);
        front.insert_ensures(at, last);
        assert(indices.drop_last().push(last) =~= indices);
        assert(front.insert(at, last).to_multiset() =~= indices.to_multiset());
        let out = front.insert(at, last);
        assert forall|i: int, j: int| 0 <= i <= j < out.len() implies out[i] <= out[j] by {
            if i < at && j > at {
                assert(out[i] == front[i] && out[j] == front[j - 1]);
            } else if i < at && j < at {
                assert(out[i] == front[i] && out[j] == front[j]);
            } else if i > at {
                assert(out[i] == front[i - 1] && out[j] == front[j - 1]);
            }
        }
    } else {
        assert(indices =~= Seq::empty());
    }
}

proof fn lemma_slot(listing: Seq<int>, index: int)
    requires
        forall|i: int, j: int| 0 <= i <= j < listing.len() ==> listing[i] <= listing[j],
    ensures
        0 <= slot(listing, index) <= listing.len(),
        forall|i: int| 0 <= i < slot(listing, index) ==> #[trigger] listing[i] <= index,
        forall|i: int| slot(listing, index) <= i < listing.len() ==> #[trigger] listing[i] > index,
    decreases listing.len(),
{
    if listing.len() > 0 {
        let front = listing.drop_last();
        if listing.last() > index {
            assert forall|i: int, j: int| 0 <= i <= j < front.len() implies front[i]
                <= front[j] by {
                assert(front[i] == listing[i] && front[j] == listing[j]);
            }
            lemma_slot(front, index);
            assert forall|i: int| 0 <= i < slot(listing, index) implies #[trigger] listing[i]
                <= index by {
                assert(listing[i] == front[i]);
            }
            assert forall|i: int| slot(listing, index) <= i < listing.len() implies #[trigger] listing[i]
                > index by {
                if i < front.len() {
                    assert(listing[i] == front[i]);
                }
            }
        } else {
            assert forall|i: int| 0 <= i < listing.len() implies #[trigger] listing[i] <= index by {
                assert(listing[i] <= listing[listing.len() - 1]);
            }
        }
    }
}

/// The panes that stand for `indices`, in the order given.
pub open spec fn pane_views(indices: Seq<int>, session: Seq<char>, window: Seq<char>) -> Seq<
    PaneView,
> {
    Seq::new(indices.len(), |i: int| PaneView::from_record(indices[i], session, window))
}

fn owned_keys(keys: &Vec<&str>) -> (res: Vec<String>)
    ensures
        views(res@) == views(keys@),
{
    let mut res: Vec<String> = Vec::new();
    let mut i: usize = 0;
    while i < keys.len()
        invariant
            i <= keys.len(),
            res.len() == i,
            forall|j: int| 0 <= j < i ==> res[j]@ == keys[j]@,
        decreases keys.len() - i,
    {
        res.push(keys[i].to_owned());
        i = i + 1;
    }
    assert(views(res@) =~= views(keys@));
    res
}

impl Pane {
    /// Sends `keys` to this pane.
    pub fn send_keys(&self, keys: Vec<&str>) -> (res: Action)
        ensures
            res@ == self@.send_keys(views(keys@)),
    {
        Tmux::send_keys(self.session_name.as_str(), self.window_name.as_str(), self.index, keys)
    }

    /// The panes of a listing, each inside the named window, ordered by
    /// their reported index.
    pub fn from_interface_list(panes: Vec<PaneRecord>, session_name: &str, window_name: &str) -> (res:
        Vec<Pane>)
        ensures
            views(res@) == pane_views(ordered(views(panes@)), session_name@, window_name@),
    {
        let ghost listed = views(panes@);
        let mut res: Vec<Pane> = Vec::new();
        let mut i: usize = 0;
        assert(listed.take(0) =~= Seq::empty());
        while i < panes.len()
            invariant
                i <= panes.len(),
                listed == views(panes@),
                res.len() == i,
                views(res@) == pane_views(
                    ordered(listed.take(i as int)),
                    session_name@,
                    window_name@,
                ),
            decreases panes.len() - i,
        {
            let ghost front = ordered(listed.take(i as int));
            let ghost before = views(res@);
            let pane = Pane::from_interface(panes[i], session_name, window_name);
            let mut at: usize = res.len();
            proof {
                lemma_ordered(listed.take(i as int));
                assert(front.take(res.len() as int) =~= front);
            }
            while at > 0 && res[at - 1].index > pane.index
                invariant
                    at <= res.len(),
                    res.len() == front.len(),
                    views(res@) == pane_views(front, session_name@, window_name@),
                    slot(front, pane.index as int) == slot(front.take(at as int), pane.index as int),
                decreases at,
            {
                assert(views(res@)[at - 1] == res[at - 1]@);
                assert(front.take(at as int).drop_last() =~= front.take(at - 1));
                at = at - 1;
            }
            proof {
                assert(front.take(res.len() as int) =~= front);
                if at > 0 {
                    assert(views(res@)[at - 1] == res[at - 1]@);
                }
                assert(slot(front, pane.index as int) == at);
                assert(listed.take(i + 1).drop_last() =~= listed.take(i as int));
                assert(listed.take(i + 1).last() == panes[i as int]@);
            }
            res.insert(at, pane);
            assert(views(res@) =~= pane_views(
                front.insert(at as int, pane.index as int),
                session_name@,
                window_name@,
            )) by {
                assert(views(res@) =~= before.insert(at as int, pane@));
            }
            i = i + 1;
        }
        assert(listed.take(panes.len() as int) =~= listed);
        res
    }

    /// The pane that a record stands for. The owners' names are stored in
    /// sanitized form.
    pub fn from_interface(interface: PaneRecord, session_name: &str, window_name: &str) -> (res:
        Pane)
        ensures
            res@ == PaneView::from_record(interface@, session_name@, window_name@),
    {
        Pane {
            index: interface.index,
            session_name: clean_for_target(session_name),
            window_name: clean_for_target(window_name),
        }
    }
}

/// Selects the panes that report `index`.
pub open spec fn has_index(index: int) -> spec_fn(PaneView) -> bool {
    |p: PaneView| p.index == index
}

/// Selects the windows stored under `name`.
pub open spec fn window_named(name: Seq<char>) -> spec_fn(WindowView) -> bool {
    |w: WindowView| w.name == name
}

/// Selects the sessions stored under `name`.
pub open spec fn session_named(name: Seq<char>) -> spec_fn(SessionView) -> bool {
    |s: SessionView| s.name == name
}

/// The keystroke that submits a line.
pub open spec fn enter() -> Seq<char> {
    "Enter"@
}

/// One window of a session.
#[derive(Debug, Clone, PartialEq, Eq)]
pub struct Window {
    pub panes: Vec<Pane>,
    pub session_name: String,
    pub number_of_panes: i32,
    pub name: String,
}

/// The mathematical model of a [`Window`].
pub struct WindowView {
    pub panes: Seq<PaneView>,
    pub session_name: Seq<char>,
    pub number_of_panes: int,
    pub name: Seq<char>,
}

impl View for Window {
    type V = WindowView;

    open spec fn view(&self) -> WindowView {
        WindowView {
            panes: views(self.panes@),
            session_name: self.session_name@,
            number_of_panes: self.number_of_panes as int,
            name: self.name@,
        }
    }
}

impl WindowView {
    /// The window that a record stands for, with the panes listed for it.
    pub open spec fn from_record(record: WindowRecordView, session: Seq<char>, panes: Seq<int>) -> WindowView {
        WindowView {
            panes: pane_views(ordered(panes), session, record.name),
            session_name: sanitized(session),
            number_of_panes: record.panes,
            name: sanitized(record.name),
        }
    }

    /// This window after a fresh pane listing: the panes stand in the order
    /// of their indices.
    pub open spec fn reloaded(self, panes: Seq<int>) -> WindowView {
        WindowView {
            panes: pane_views(ordered(panes), self.session_name, self.name),
            number_of_panes: counted(panes.len()),
            ..self
        }
    }

    /// The target string of a pane of this window.
    pub open spec fn target(self, pane: int) -> Seq<char> {
        address(self.session_name, self.name, pane)
    }

    /// The pane with the given index, if the snapshot holds one.
    pub open spec fn pane(self, index: int) -> Option<PaneView> {
        match first_match(self.panes, has_index(index)) {
            Some(i) => Some(self.panes[i]),
            None => None,
        }
    }

    /// The keystrokes `keys`, addressed to pane 0 of this window.
    pub open spec fn send_keys(self, keys: Seq<Seq<char>>) -> ActionView {
        ActionView::SendKeys { target: self.target(0), keys }
    }

    /// A split of pane 0; the new pane starts in `dir`.
    pub open spec fn split_window(self, dir: Seq<char>) -> ActionView {
        ActionView::SplitWindow { target: self.target(0), dir }
    }

    /// The listing of the panes of this window.
    pub open spec fn list_panes(self) -> ActionView {
        ActionView::ListPanes { target: self.target(0) }
    }

    /// Bringing this window to the foreground: a client inside the
    /// multiplexer is switched, one outside attaches.
    pub open spec fn attach(self, location: ClientLocation) -> ActionView {
        match location {
            ClientLocation::Inside => ActionView::SwitchClient { target: self.target(0) },
            ClientLocation::Outside => ActionView::AttachSession { target: self.target(0) },
        }
    }

    /// The keystroke dispatches for the commands from position `start` on:
    /// command `i` goes to the pane whose index is `i`, followed by Enter, and
    /// a command without such a pane is passed over.
    pub open spec fn dispatch_from(self, commands: Seq<Seq<char>>, start: int) -> Seq<ActionView>
        decreases commands.len() - start,
    {
        if start < 0 || start >= commands.len() {
            Seq::empty()
        } else {
            let rest = self.dispatch_from(commands, start + 1);
            match self.pane(start) {
                Some(pane) => seq![pane.send_keys(seq![commands[start], enter()])] + rest,
                None => rest,
            }
        }
    }

    /// The keystroke dispatches for all of `commands`, in order.
    pub open spec fn initial_command(self, commands: Seq<Seq<char>>) -> Seq<ActionView> {
        self.dispatch_from(commands, 0)
    }

    /// The names stored in the window and in its panes are sanitized, and
    /// every pane names this window as its owner.
    pub open spec fn wf(self) -> bool {
        &&& sanitized(self.name) == self.name
        &&& sanitized(self.session_name) == self.session_name
        &&& forall|i: int|
            0 <= i < self.panes.len() ==> (#[trigger] self.panes[i]).session_name
                == self.session_name && self.panes[i].window_name == self.name
    }
}

impl Window {
    /// The window that a record stands for. Its name and its owner's name
    /// are stored in sanitized form.
    pub fn from_interface(win: WindowRecord, session_name: String, panes: Vec<PaneRecord>) -> (res:
        Window)
        ensures
            res@ == WindowView::from_record(win@, session_name@, views(panes@)),
            res@.wf(),
    {
        let panes = Pane::from_interface_list(panes, session_name.as_str(), win.name.as_str());
        let res = Window {
            panes,
            session_name: clean_for_target(session_name.as_str()),
            number_of_panes: win.panes,
            name: clean_for_target(win.name.as_str()),
        };
        proof {
            lemma_sanitized_idempotent(session_name@);
            lemma_sanitized_idempotent(win.name@);
        }
        res
    }

    /// Sends `keys` to pane 0 of this window.
    pub fn send_keys(&self, keys: Vec<&str>) -> (res: Action)
        ensures
            res@ == self@.send_keys(views(keys@)),
    {
        Tmux::send_keys(self.session_name.as_str(), self.name.as_str(), 0, keys)
    }

    /// The target string of a pane of this window.
    pub fn target(&self, pane: i32) -> (res: String)
        ensures
            res@ == self@.target(pane as int),
    {
        target(self.session_name.as_str(), self.name.as_str(), pane)
    }

    /// Splits pane 0 of this window; the new pane starts in `dir`.
    pub fn split_window(&self, dir: &str) -> (res: Action)
        ensures
            res@ == self@.split_window(dir@),
    {
        Action::SplitWindow { target: self.target(0), dir: dir.to_owned() }
    }

    /// Asks for the panes of this window.
    pub fn list_panes(&self) -> (res: Action)
        ensures
            res@ == self@.list_panes(),
    {
        Action::ListPanes { target: self.target(0) }
    }

    /// The first pane that reports the index `pane`.
    pub fn get_pane(&self, pane: i32) -> (res: Option<&Pane>)
        ensures
            match res {
                Some(p) => self@.pane(pane as int) == Some(p@),
                None => self@.pane(pane as int) is None,
            },
    {
        let ghost panes = views(self.panes@);
        let ghost wanted = has_index(pane as int);
        let mut i: usize = 0;
        while i < self.panes.len()
            invariant
                i <= self.panes.len(),
                panes == views(self.panes@),
                wanted == has_index(pane as int),
                first_match(panes, wanted) == first_from(panes, wanted, i as int),
            decreases self.panes.len() - i,
        {
            assert(panes[i as int] == self.panes[i as int]@);
            if self.panes[i].index == pane {
                return Some(&self.panes[i]);
            }
            i = i + 1;
        }
        None
    }

    /// Brings this window to the foreground.
    pub fn attach(&self, location: ClientLocation) -> (res: Action)
        ensures
            res@ == self@.attach(location),
    {
        let target = self.target(0);
        match location {
            ClientLocation::Inside => Action::SwitchClient { target },
            ClientLocation::Outside => Action::AttachSession { target },
        }
    }

    /// Plans the dispatch of the initial commands against the panes of the
    /// current snapshot.
    pub fn initial_command(&self, commands: Commands) -> (res: Vec<Action>)
        ensures
            views(res@) == self@.initial_command(views(commands@)),
    {
        let ghost cmds = views(commands@);
        let mut res: Vec<Action> = Vec::new();
        let mut i: usize = 0;
        while i < commands.len()
            invariant
                i <= commands.len(),
                cmds == views(commands@),
                views(res@) + self@.dispatch_from(cmds, i as int) == self@.initial_command(cmds),
            decreases commands.len() - i,
        {
            let ghost before = views(res@);
            let found = if i <= 0x7fff_ffff {
                self.get_pane(i as i32)
            } else {
                proof {
                    lemma_first_from(views(self.panes@), has_index(i as int), 0);
                }
                None
            };
            assert(cmds[i as int] == commands[i as int]@);
            match found {
                Some(pane) => {
                    proof {
                        reveal_strlit("Enter");
                    }
                    let keys = vec![commands[i].as_str(), "Enter"];
                    assert(views(keys@) =~= seq![cmds[i as int], enter()]);
                    res.push(pane.send_keys(keys));
                    assert(views(res@) =~= before + seq![
                        pane@.send_keys(seq![cmds[i as int], enter()]),
                    ]);
                    assert(views(res@) + self@.dispatch_from(cmds, i + 1) =~= before
                        + self@.dispatch_from(cmds, i as int));
                },
                None => {},
            }
            i = i + 1;
        }
        assert(views(res@) =~= views(res@) + self@.dispatch_from(cmds, i as int));
        res
    }

    /// Replaces the panes of this window by a fresh listing and records how
    /// many there are.
    pub fn reload_panes(&mut self, panes: Vec<PaneRecord>)
        ensures
            final(self)@ == old(self)@.reloaded(views(panes@)),
    {
        let count: i32 = if panes.len() > 0x7fff_ffff {
            0x7fff_ffff
        } else {
            panes.len() as i32
        };
        let fresh = Pane::from_interface_list(panes, self.session_name.as_str(), self.name.as_str());
        self.panes = fresh;
        self.number_of_panes = count;
    }
}

/// The multiplexer as last discovered.
#[derive(Debug, Clone, PartialEq, Eq)]
pub struct Tmux {
    pub sessions: Vec<Session>,
}

/// One session and its windows, in the order of the listing.
#[derive(Debug, Clone, PartialEq, Eq)]
pub struct Session {
    pub windows: Vec<Window>,
    pub name: String,
}

/// The mathematical model of a [`Session`].
pub struct SessionView {
    pub windows: Seq<WindowView>,
    pub name: Seq<char>,
}

/// The mathematical model of a [`Tmux`].
pub struct TmuxView {
    pub sessions: Seq<SessionView>,
}

impl View for Session {
    type V = SessionView;

    open spec fn view(&self) -> SessionView {
        SessionView { windows: views(self.windows@), name: self.name@ }
    }
}

impl View for Tmux {
    type V = TmuxView;

    open spec fn view(&self) -> TmuxView {
        TmuxView { sessions: views(self.sessions@) }
    }
}

impl SessionView {
    /// Position of the window stored under the sanitized form of `name`.
    pub open spec fn window_position(self, name: Seq<char>) -> Option<int> {
        first_match(self.windows, window_named(sanitized(name)))
    }

    /// The window stored under the sanitized form of `name`.
    pub open spec fn window(self, name: Seq<char>) -> Option<WindowView> {
        match self.window_position(name) {
            Some(i) => Some(self.windows[i]),
            None => None,
        }
    }

    /// Whether a window is stored under the sanitized form of `name`.
    pub open spec fn has_window(self, name: Seq<char>) -> bool {
        self.window_position(name) is Some
    }

    /// The target string of a pane of a window of this session.
    pub open spec fn target(self, window_name: Seq<char>, pane: int) -> Seq<char> {
        address(self.name, window_name, pane)
    }

    /// The removal of the window `window_name` of this session.
    pub open spec fn remove_window(self, window_name: Seq<char>) -> ActionView {
        ActionView::KillWindow { target: self.target(window_name, 0) }
    }

    /// The creation of the window `window_name`, stored and addressed in
    /// sanitized form, with `dir` as its working directory.
    pub open spec fn create_window(self, window_name: Seq<char>, dir: Seq<char>) -> ActionView {
        ActionView::NewWindow { session: self.name, name: sanitized(window_name), dir }
    }

    /// The session's name is sanitized and every window is well formed and
    /// names this session as its owner.
    pub open spec fn wf(self) -> bool {
        &&& sanitized(self.name) == self.name
        &&& forall|i: int|
            0 <= i < self.windows.len() ==> (#[trigger] self.windows[i]).wf()
                && self.windows[i].session_name == self.name
    }
}

impl TmuxView {
    /// Position of the session stored under the sanitized form of `name`.
    pub open spec fn session_position(self, name: Seq<char>) -> Option<int> {
        first_match(self.sessions, session_named(sanitized(name)))
    }

    /// The session stored under the sanitized form of `name`.
    pub open spec fn session(self, name: Seq<char>) -> Option<SessionView> {
        match self.session_position(name) {
            Some(i) => Some(self.sessions[i]),
            None => None,
        }
    }

    /// Whether a session is stored under the sanitized form of `name`.
    pub open spec fn has_session(self, name: Seq<char>) -> bool {
        self.session_position(name) is Some
    }

    /// The creation of the session `name`, under its sanitized form.
    pub open spec fn create_session(name: Seq<char>) -> ActionView {
        ActionView::NewSession { name: sanitized(name) }
    }

    /// Every session of the snapshot is well formed.
    pub open spec fn wf(self) -> bool {
        forall|i: int| 0 <= i < self.sessions.len() ==> (#[trigger] self.sessions[i]).wf()
    }
}

/// What a session does about a requested window.
pub enum WindowChoice<'a> {
    /// The window exists and is used as it is.
    Existing(&'a Window),
    /// The window is missing; this operation creates it.
    Create(Action),
}

impl Session {
    /// Position of the window that `window_name` addresses.
    pub fn window_position(&self, window_name: &str) -> (res: Option<usize>)
        ensures
            match res {
                Some(i) => self@.window_position(window_name@) == Some(i as int) && i
                    < self.windows.len(),
                None => self@.window_position(window_name@) is None,
            },
    {
        let wanted = clean_for_target(window_name);
        let ghost windows = views(self.windows@);
        let ghost pred = window_named(sanitized(window_name@));
        let mut i: usize = 0;
        while i < self.windows.len()
            invariant
                i <= self.windows.len(),
                wanted@ == sanitized(window_name@),
                windows == views(self.windows@),
                pred == window_named(sanitized(window_name@)),
                first_match(windows, pred) == first_from(windows, pred, i as int),
            decreases self.windows.len() - i,
        {
            assert(windows[i as int] == self.windows[i as int]@);
            if self.windows[i].name == wanted {
                return Some(i);
            }
            i = i + 1;
        }
        None
    }

    /// Removes the window `window_name` of this session.
    pub fn remove_window(&self, window_name: &str) -> (res: Action)
        ensures
            res@ == self@.remove_window(window_name@),
    {
        Action::KillWindow { target: self.target(window_name, 0) }
    }

    /// The target string of a pane of a window of this session.
    pub fn target(&self, window_name: &str, pane: i32) -> (res: String)
        ensures
            res@ == self@.target(window_name@, pane as int),
    {
        target(self.name.as_str(), window_name, pane)
    }

    /// The window that `name` addresses, if the snapshot holds it.
    pub fn find_window(&self, name: &str) -> (res: Option<&Window>)
        ensures
            match res {
                Some(w) => self@.window(name@) == Some(w@),
                None => self@.window(name@) is None,
            },
    {
        match self.window_position(name) {
            Some(i) => {
                assert(views(self.windows@)[i as int] == self.windows[i as int]@);
                Some(&self.windows[i])
            },
            None => None,
        }
    }

    /// Whether the snapshot holds the window that `name` addresses.
    pub fn has_window(&self, name: &str) -> (res: bool)
        ensures
            res == self@.has_window(name@),
    {
        self.window_position(name).is_some()
    }

    /// Uses the window `window_name` if the session has it, and asks for its
    /// creation in `dir` if not.
    pub fn find_or_create_window(&self, window_name: &str, dir: &str) -> (res: WindowChoice<'_>)
        ensures
            match res {
                WindowChoice::Existing(w) => self@.window(window_name@) == Some(w@),
                WindowChoice::Create(action) => self@.window(window_name@) is None && action@
                    == self@.create_window(window_name@, dir@),
            },
    {
        match self.find_window(window_name) {
            Some(window) => WindowChoice::Existing(window),
            None => WindowChoice::Create(self.create_window(window_name, dir)),
        }
    }

    /// Creates the window `window_name` in this session, detached, with `dir`
    /// as its working directory.
    pub fn create_window(&self, window_name: &str, dir: &str) -> (res: Action)
        ensures
            res@ == self@.create_window(window_name@, dir@),
    {
        Action::NewWindow {
            session: self.name.clone(),
            name: clean_for_target(window_name),
            dir: dir.to_owned(),
        }
    }
}

impl Tmux {
    /// A handle on the sessions of one discovery.
    pub fn new(sessions: Vec<Session>) -> (res: Tmux)
        ensures
            res@.sessions == views(sessions@),
    {
        Tmux { sessions }
    }

    /// The keystrokes `keys`, addressed to one pane.
    pub fn send_keys(session_name: &str, window_name: &str, pane: i32, keys: Vec<&str>) -> (res:
        Action)
        ensures
            res@ == (ActionView::SendKeys {
                target: address(session_name@, window_name@, pane as int),
                keys: views(keys@),
            }),
    {
        Action::SendKeys { target: target(session_name, window_name, pane), keys: owned_keys(&keys) }
    }

    /// Position of the session that `name` addresses.
    pub fn session_position(&self, name: &str) -> (res: Option<usize>)
        ensures
            match res {
                Some(i) => self@.session_position(name@) == Some(i as int) && i
                    < self.sessions.len(),
                None => self@.session_position(name@) is None,
            },
    {
        let wanted = clean_for_target(name);
        let ghost sessions = views(self.sessions@);
        let ghost pred = session_named(sanitized(name@));
        let mut i: usize = 0;
        while i < self.sessions.len()
            invariant
                i <= self.sessions.len(),
                wanted@ == sanitized(name@),
                sessions == views(self.sessions@),
                pred == session_named(sanitized(name@)),
                first_match(sessions, pred) == first_from(sessions, pred, i as int),
            decreases self.sessions.len() - i,
        {
            assert(sessions[i as int] == self.sessions[i as int]@);
            if self.sessions[i].name == wanted {
                return Some(i);
            }
            i = i + 1;
        }
        None
    }

    /// The session that `name` addresses, if the snapshot holds it.
    pub fn find_session(&self, name: &str) -> (res: Option<&Session>)
        ensures
            match res {
                Some(s) => self@.session(name@) == Some(s@),
                None => self@.session(name@) is None,
            },
    {
        match self.session_position(name) {
            Some(i) => {
                assert(views(self.sessions@)[i as int] == self.sessions[i as int]@);
                Some(&self.sessions[i])
            },
            None => None,
        }
    }

    /// Whether the snapshot holds the session that `name` addresses.
    pub fn has_session(&self, name: &str) -> (res: bool)
        ensures
            res == self@.has_session(name@),
    {
        self.session_position(name).is_some()
    }

    /// Creates the session `name`, detached.
    pub fn create_session(&self, name: &str) -> (res: Action)
        ensures
            res@ == TmuxView::create_session(name@),
    {
        Action::NewSession { name: clean_for_target(name) }
    }
}

} // verus!
