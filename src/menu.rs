//! The menu model: the items, the highlighted item, each item's last run
//! status, and what a key press does to them.

use vstd::prelude::*;
use crate::status::{outcome_status, outcome_to_status, status_note, RunStatus, RunStatusView, UpdateOutcome};

verus! {

/// The item that checks for system updates.
pub const UPDATE_ITEM: usize = 0;

/// The item that looks up the weather.
pub const WEATHER_ITEM: usize = 1;

/// The item that checks a repository.
pub const REPO_ITEM: usize = 2;

/// The item that quits.
pub const QUIT_ITEM: usize = 3;

/// A key, as far as the menu tells keys apart.
#[derive(Clone, Copy, Debug, PartialEq, Eq, Structural)]
pub enum Key {
    Esc,
    Up,
    Down,
    Enter,
    Char(char),
    Other,
}

/// A key press: the key, and whether the control modifier was held.
#[derive(Clone, Copy, Debug, PartialEq, Eq, Structural)]
pub struct KeyPress {
    pub code: Key,
    pub control: bool,
}

/// Work that a key press asks of the program that drives the menu.
#[derive(Debug, PartialEq, Eq)]
pub enum Effect {
    /// Nothing to do.
    Nothing,
    /// Run the update check, then report its outcome with
    /// [`App::check_for_updates`].
    CheckForUpdates,
    /// Show this notice.
    Announce(String),
}

/// What an [`Effect`] holds, with text as a sequence of characters.
pub enum EffectView {
    Nothing,
    CheckForUpdates,
    Announce(Seq<char>),
}

impl View for Effect {
    type V = EffectView;

    open spec fn view(&self) -> EffectView {
        match self {
            Effect::Nothing => EffectView::Nothing,
            Effect::CheckForUpdates => EffectView::CheckForUpdates,
            Effect::Announce(t) => EffectView::Announce(t@),
        }
    }
}

/// The error of [`App::set_status`] for an index past the last item.
#[derive(Clone, Copy, Debug, PartialEq, Eq, Structural)]
pub enum StatusError {
    OutOfRange,
}

/// The abstract state of the menu.
pub struct AppView {
    /// Whether the menu still runs; cleared by quitting.
    pub running: bool,
    /// The labels of the items, in order.
    pub items: Seq<Seq<char>>,
    /// The last run status of each item, by index.
    pub statuses: Seq<RunStatusView>,
    /// The index of the highlighted item.
    pub cursor: int,
}

/// The labels of the menu's items.
pub open spec fn menu_labels() -> Seq<Seq<char>> {
    seq!["Check for updates"@, "Weather"@, "Check Repo (Git only)"@, "quit"@]
}

/// The notice shown when the weather item is activated.
pub open spec fn weather_notice() -> Seq<char> {
    "Retrieve Weather info..."@
}

/// The notice shown when the repository item is activated.
pub open spec fn repo_notice() -> Seq<char> {
    "Checking"@
}

/// Whether the key press quits: escape, `q`, or control with `c`.
pub open spec fn is_quit_key(k: KeyPress) -> bool {
    ||| k.code == Key::Esc
    ||| k.code == Key::Char('q')
    ||| (k.code == Key::Char('c') && k.control)
}

impl AppView {
    /// There is at least one item, one status per item, and the cursor is on
    /// an item.
    pub open spec fn wf(self) -> bool {
        &&& self.items.len() >= 1
        &&& self.statuses.len() == self.items.len()
        &&& 0 <= self.cursor < self.items.len()
    }

    /// The state after moving the cursor up one item, if it is not at the top.
    pub open spec fn moved_up(self) -> AppView {
        if self.cursor > 0 {
            AppView { cursor: self.cursor - 1, ..self }
        } else {
            self
        }
    }

    /// The state after moving the cursor down one item, if it is not at the
    /// bottom.
    pub open spec fn moved_down(self) -> AppView {
        if self.cursor + 1 < self.items.len() {
            AppView { cursor: self.cursor + 1, ..self }
        } else {
            self
        }
    }

    /// The state after quitting.
    pub open spec fn quitted(self) -> AppView {
        AppView { running: false, ..self }
    }

    /// The state with the status of item `i` replaced by `s`.
    pub open spec fn with_status(self, i: int, s: RunStatusView) -> AppView {
        AppView { statuses: self.statuses.update(i, s), ..self }
    }

    /// The state and the effect after activating the highlighted item.
    pub open spec fn activated(self) -> (AppView, EffectView) {
        if self.cursor == UPDATE_ITEM {
            (self, EffectView::CheckForUpdates)
        } else if self.cursor == WEATHER_ITEM {
            (self, EffectView::Announce(weather_notice()))
        } else if self.cursor == REPO_ITEM {
            (self, EffectView::Announce(repo_notice()))
        } else if self.cursor == QUIT_ITEM {
            (self.quitted(), EffectView::Nothing)
        } else {
            (self, EffectView::Nothing)
        }
    }

    /// The state and the effect after the key press `k`.
    pub open spec fn after_key(self, k: KeyPress) -> (AppView, EffectView) {
        if is_quit_key(k) {
            (self.quitted(), EffectView::Nothing)
        } else {
            match k.code {
                Key::Up => (self.moved_up(), EffectView::Nothing),
                Key::Down => (self.moved_down(), EffectView::Nothing),
                Key::Enter => self.activated(),
                _ => (self, EffectView::Nothing),
            }
        }
    }
}

/// The menu: its items, the highlighted one, and each item's last run status.
#[derive(Debug)]
pub struct App {
    running: bool,
    last_status: Vec<RunStatus>,
    menu_items: Vec<String>,
    selected: usize,
}

impl View for App {
    type V = AppView;

    closed spec fn view(&self) -> AppView {
        AppView {
            running: self.running,
            items: self.menu_items@.map_values(|s: String| s@),
            statuses: self.last_status@.map_values(|s: RunStatus| s@),
            cursor: self.selected as int,
        }
    }
}

impl App {
    /// A running menu over the fixed items, with the cursor on the first item
    /// and no item run yet.
    pub fn new() -> (r: Self)
        ensures
            r@.running,
            r@.items == menu_labels(),
            r@.statuses == Seq::new(4, |i: int| RunStatusView::Never),
            r@.cursor == 0,
            r@.wf(),
    {
        let menu_items = vec![
            String::from_str("Check for updates"),
            String::from_str("Weather"),
            String::from_str("Check Repo (Git only)"),
            String::from_str("quit"),
        ];
        let last_status = vec![RunStatus::Never, RunStatus::Never, RunStatus::Never, RunStatus::Never];
        let r = App { running: true, last_status, menu_items, selected: 0 };
        assert(r@.items =~= menu_labels());
        assert(r@.statuses =~= Seq::new(4, |i: int| RunStatusView::Never));
        r
    }

    /// Whether the menu still runs.
    pub fn is_running(&self) -> (r: bool)
        ensures
            r == self@.running,
    {
        self.running
    }

    /// The number of items.
    pub fn len(&self) -> (r: usize)
        requires
            self@.wf(),
        ensures
            r == self@.items.len(),
            r >= 1,
    {
        self.menu_items.len()
    }

    /// The index of the highlighted item.
    pub fn current_index(&self) -> (r: usize)
        requires
            self@.wf(),
        ensures
            r == self@.cursor,
            r < self@.items.len(),
    {
        self.selected
    }

    /// The label of item `index`, if there is such an item.
    pub fn label(&self, index: usize) -> (r: Option<&String>)
        requires
            self@.wf(),
        ensures
            r is Some <==> index < self@.items.len(),
            r matches Some(l) ==> l@ == self@.items[index as int],
    {
        if index < self.menu_items.len() {
            Some(&self.menu_items[index])
        } else {
            None
        }
    }

    /// The last run status of item `index`, if there is such an item.
    pub fn status(&self, index: usize) -> (r: Option<&RunStatus>)
        requires
            self@.wf(),
        ensures
            r is Some <==> index < self@.items.len(),
            r matches Some(s) ==> s@ == self@.statuses[index as int],
    {
        if index < self.last_status.len() {
            Some(&self.last_status[index])
        } else {
            None
        }
    }
    /// Moves the cursor up one item; does nothing at the top.
    pub fn move_up(&mut self)
        requires
            old(self)@.wf(),
        ensures
            final(self)@.wf(),
            final(self)@ == old(self)@.moved_up(),
            old(self)@.cursor == 0 ==> final(self)@ == old(self)@,
    {
        if self.selected > 0 {
            self.selected = self.selected - 1;
        }
    }

    /// Moves the cursor down one item; does nothing at the bottom.
    pub fn move_down(&mut self)
        requires
            old(self)@.wf(),
        ensures
            final(self)@.wf(),
            final(self)@ == old(self)@.moved_down(),
            old(self)@.cursor == old(self)@.items.len() - 1 ==> final(self)@ == old(self)@,
    {
        if self.selected < self.menu_items.len() - 1 {
            self.selected = self.selected + 1;
        }
    }

    /// Stops the menu.
    pub fn quit(&mut self)
        requires
            old(self)@.wf(),
        ensures
            final(self)@.wf(),
            final(self)@ == old(self)@.quitted(),
    {
        self.running = false;
    }

    /// Replaces the status of item `index`; fails where there is no such item.
    pub fn set_status(&mut self, index: usize, status: RunStatus) -> (r: Result<(), StatusError>)
        requires
            old(self)@.wf(),
        ensures
            final(self)@.wf(),
            r is Err <==> index >= old(self)@.items.len(),
            r is Ok ==> final(self)@ == old(self)@.with_status(index as int, status@),
            r is Err ==> final(self)@ == old(self)@ && r == Err::<(), StatusError>(StatusError::OutOfRange),
    {
        if index >= self.last_status.len() {
            return Err(StatusError::OutOfRange);
        }
        self.last_status.set(index, status);
        assert(self@.statuses =~= old(self)@.statuses.update(index as int, status@));
        Ok(())
    }

    /// Records what came of running the update check as the update item's
    /// status.
    pub fn check_for_updates(&mut self, outcome: UpdateOutcome)
        requires
            old(self)@.wf(),
        ensures
            final(self)@.wf(),
            final(self)@ == old(self)@.with_status(UPDATE_ITEM as int, outcome_status(outcome)),
    {
        let status = outcome_to_status(outcome);
        let _ = self.set_status(UPDATE_ITEM, status);
    }

    /// Activates the highlighted item: returns the work it asks for, or quits
    /// for the quit item.
    pub fn activate(&mut self) -> (r: Effect)
        requires
            old(self)@.wf(),
        ensures
            final(self)@.wf(),
            (final(self)@, r@) == old(self)@.activated(),
    {
        if self.selected == UPDATE_ITEM {
            Effect::CheckForUpdates
        } else if self.selected == WEATHER_ITEM {
            Effect::Announce(String::from_str("Retrieve Weather info..."))
        } else if self.selected == REPO_ITEM {
            Effect::Announce(String::from_str("Checking"))
        } else if self.selected == QUIT_ITEM {
            self.quit();
            Effect::Nothing
        } else {
            Effect::Nothing
        }
    }

    /// Handles a key press: quits on escape, `q` or control-`c`, moves the
    /// cursor on the arrow keys, and activates the highlighted item on enter.
    pub fn on_key_event(&mut self, key: KeyPress) -> (r: Effect)
        requires
            old(self)@.wf(),
        ensures
            final(self)@.wf(),
            (final(self)@, r@) == old(self)@.after_key(key),
            is_quit_key(key) ==> !final(self)@.running && final(self)@.statuses == old(self)@.statuses,
    {
        match key.code {
            Key::Esc => {
                self.quit();
                Effect::Nothing
            },
            Key::Char(c) => {
                if c == 'q' || (c == 'c' && key.control) {
                    self.quit();
                }
                Effect::Nothing
            },
            Key::Up => {
                self.move_up();
                Effect::Nothing
            },
            Key::Down => {
                self.move_down();
                Effect::Nothing
            },
            Key::Enter => self.activate(),
            Key::Other => Effect::Nothing,
        }
    }

    /// The status note shown beside item `index`: none for the last item,
    /// which quits, nor past it.
    pub fn row_note(&self, index: usize) -> (r: Option<String>)
        requires
            self@.wf(),
        ensures
            r is Some <==> index + 1 < self@.items.len(),
            r matches Some(n) ==> n@ == status_note(self@.statuses[index as int]),
    {
        if index < self.menu_items.len() - 1 {
            Some(self.last_status[index].note())
        } else {
            None
        }
    }
}

} // verus!
