use vstd::prelude::*;
use vstd::arithmetic::div_mod::{lemma_mod_bound, lemma_mod_self_0};
use crate::action::Action;
use crate::event::{action_for, Event, KeyCode};
use crate::panel::{push_bounded, GitPanel, SystemPanel, CPU_HISTORY_LEN};
use crate::source::DataSnapshot;
use crate::system::mean_of;

verus! {

/// Number of tabs: the resource panel and the repository panel.
pub const TAB_COUNT: usize = 2;

/// One action's effect on the selected tab index: the tab actions move
/// it modulo the tab count, wrapping at both ends; every other action
/// leaves it alone.
pub open spec fn tab_step(tab: int, a: Action, count: int) -> int
    recommends
        0 <= tab < count,
{
    match a {
        Action::NextTab => (tab + 1) % count,
        Action::PrevTab => if tab == 0 {
            count - 1
        } else {
            tab - 1
        },
        _ => tab,
    }
}

/// The tab index a whole sequence of actions leaves behind.
pub open spec fn tab_after(tab: int, actions: Seq<Action>, count: int) -> int
    decreases actions.len(),
{
    if actions.len() == 0 {
        tab
    } else {
        tab_after(tab_step(tab, actions[0], count), actions.skip(1), count)
    }
}

/// Law: under every sequence of actions the selected tab index stays
/// within [0, count), and the ends wrap around: the previous-tab action
/// at index 0 yields count - 1, the next-tab action at count - 1 yields
/// 0 again.
pub proof fn lemma_tab_index_in_range(tab: int, actions: Seq<Action>, count: int)
    requires
        0 <= tab < count,
    ensures
        0 <= tab_after(tab, actions, count) < count,
        tab_step(0, Action::PrevTab, count) == count - 1,
        tab_step(count - 1, Action::NextTab, count) == 0,
    decreases actions.len(),
{
    lemma_mod_self_0(count);
    if actions.len() > 0 {
        let stepped = tab_step(tab, actions[0], count);
        if actions[0] is NextTab {
            lemma_mod_bound(tab + 1, count);
        }
        assert(0 <= stepped < count);
        lemma_tab_index_in_range(stepped, actions.skip(1), count);
    }
}

/// The running flag after one consumed item: dispatching Quit clears
/// it, every other action — and every snapshot, which carries no action
/// at all — leaves it as it is.
pub open spec fn running_step(running: bool, action: Option<Action>) -> bool {
    match action {
        Some(Action::Quit) => false,
        _ => running,
    }
}

/// The running flag after a whole run of consumed items, each item
/// contributing the action it was interpreted as (`None` for snapshots
/// and unbound events).
pub open spec fn running_after(running: bool, actions: Seq<Option<Action>>) -> bool
    decreases actions.len(),
{
    if actions.len() == 0 {
        running
    } else {
        running_after(running_step(running, actions[0]), actions.skip(1))
    }
}

/// Law: once Quit has been dispatched the running flag is false, and no
/// later action or snapshot ever sets it again. The controller loop
/// redraws only while the flag holds, so no redraw follows Quit.
pub proof fn lemma_quit_stops_redraw(actions: Seq<Option<Action>>)
    ensures
        !running_after(false, actions),
    decreases actions.len(),
{
    if actions.len() > 0 {
        assert(running_step(false, actions[0]) == false);
        lemma_quit_stops_redraw(actions.skip(1));
    }
}

/// The single-threaded controller state: the running flag, the selected
/// tab, and the two panel state holders. It is mutated only by action
/// dispatch and snapshot absorption, one item at a time.
pub struct App {
    pub running: bool,
    pub selected_tab: usize,
    pub system_panel: SystemPanel,
    pub git_panel: GitPanel,
}

impl App {
    /// The controller invariant: the selected tab is in range and the
    /// resource panel's history is within capacity.
    pub open spec fn wf(&self) -> bool {
        &&& self.selected_tab < TAB_COUNT
        &&& self.system_panel.wf()
    }

    /// A fresh controller: running, on the first tab, both panels at
    /// their defaults.
    pub fn new() -> (app: App)
        ensures
            app.wf(),
            app.running,
            app.selected_tab == 0,
            app.system_panel.cpu_history@.len() == 0,
            app.system_panel.snapshot.cpu_usages@.len() == 0,
            app.git_panel.snapshot.repos@.len() == 0,
    {
        App {
            running: true,
            selected_tab: 0,
            system_panel: SystemPanel::new(),
            git_panel: GitPanel::new(),
        }
    }

    /// Interpret one event under the key bindings; see [`action_for`].
    pub fn handle_event(&self, event: Event) -> (r: Option<Action>)
        ensures
            r == action_for(event),
    {
        match event {
            Event::Key(k) => match k.code {
                KeyCode::Char(c) => if c == 'q' {
                    Some(Action::Quit)
                } else if c == 'c' && k.ctrl {
                    Some(Action::Quit)
                } else if c == 'r' {
                    Some(Action::Refresh)
                } else {
                    None
                },
                KeyCode::Tab => Some(Action::NextTab),
                KeyCode::BackTab => Some(Action::PrevTab),
                KeyCode::Other => None,
            },
            Event::Tick => None,
            Event::Resize(_, _) => None,
        }
    }

    /// Apply one action: Quit clears the running flag, the tab actions
    /// move the selection with wrap-around at both ends, and Refresh (by
    /// design) changes nothing. The panels are never touched here.
    pub fn dispatch(&mut self, action: Action)
        requires
            old(self).wf(),
        ensures
            final(self).wf(),
            final(self).running == running_step(old(self).running, Some(action)),
            final(self).selected_tab == tab_step(
                old(self).selected_tab as int,
                action,
                TAB_COUNT as int,
            ),
            final(self).system_panel == old(self).system_panel,
            final(self).git_panel == old(self).git_panel,
    {
        match action {
            Action::Quit => {
                self.running = false;
            },
            Action::NextTab => {
                self.selected_tab = (self.selected_tab + 1) % TAB_COUNT;
            },
            Action::PrevTab => {
                self.selected_tab = if self.selected_tab == 0 {
                    TAB_COUNT - 1
                } else {
                    self.selected_tab - 1
                };
            },
            Action::Refresh => {},
        }
    }

    /// Route one snapshot to both panels. Each panel absorbs only its
    /// own category and ignores the other (see the panels' `on_data`),
    /// and neither the running flag nor the selected tab moves.
    pub fn on_snapshot(&mut self, snapshot: &DataSnapshot)
        requires
            old(self).wf(),
        ensures
            final(self).wf(),
            final(self).running == old(self).running,
            final(self).selected_tab == old(self).selected_tab,
            (*snapshot) matches DataSnapshot::Git(g) ==> {
                &&& final(self).system_panel == old(self).system_panel
                &&& final(self).git_panel.snapshot.repos@ == g.repos@
            },
            (*snapshot) matches DataSnapshot::System(s) ==> {
                &&& final(self).git_panel == old(self).git_panel
                &&& final(self).system_panel.snapshot.cpu_usages@ == s.cpu_usages@
                &&& final(self).system_panel.cpu_history@ == push_bounded(
                    old(self).system_panel.cpu_history@,
                    mean_of(s.cpu_usages@) as u64,
                    CPU_HISTORY_LEN as nat,
                )
            },
    {
        self.system_panel.on_data(snapshot);
        self.git_panel.on_data(snapshot);
    }
}

} // verus!
