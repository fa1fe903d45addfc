use vstd::prelude::*;

use crate::dates::{
    chrono_date, chrono_shift_date, days_in_month, days_in_month_spec, first_year, last_year,
    local_today, shifted_date, valid_date, CalendarDate,
};
use crate::tui::keys::Screen;
use crate::tui::query::visible_event_seq;
use crate::tui::state::{App, Effect};

verus! {

/// `d` moved by `days` days; it stays where it is when chrono's range would be left.
pub open spec fn moved_by(d: CalendarDate, days: int) -> CalendarDate {
    match shifted_date(d, days) {
        Some(p) => p,
        None => d,
    }
}

/// The shown screen changes and the sidebar loses focus.
pub open spec fn switched(a: App, v: Screen) -> App {
    App { view: v, sidebar_focused: false, ..a }
}

/// The focused date has left the loaded month.
pub open spec fn needs_reload(a: App) -> bool {
    a.focused_date.1 != a.view_month || a.focused_date.0 != a.view_year
}

/// The loaded month follows the focused date.
pub open spec fn reloaded(a: App) -> App {
    if needs_reload(a) {
        App { view_month: a.focused_date.1, view_year: a.focused_date.0, loading: true, ..a }
    } else {
        a
    }
}

/// The events of the focused month are asked for when that month was not loaded.
pub open spec fn reload_effects(a: App) -> Seq<Effect> {
    if needs_reload(a) {
        seq![Effect::LoadEvents { year: a.focused_date.0, month: a.focused_date.1 }]
    } else {
        Seq::empty()
    }
}

/// The shown month moves one month forward or back; the focused date follows it, keeping its
/// day where the new month has it and taking the month's last day otherwise.
pub open spec fn month_shifted(a: App, forward: bool) -> App {
    let m0 = if forward {
        a.view_month + 1
    } else {
        a.view_month - 1
    };
    let month = if m0 < 1 {
        m0 + 12
    } else if m0 > 12 {
        m0 - 12
    } else {
        m0
    };
    let year = if m0 < 1 {
        a.view_year - 1
    } else if m0 > 12 {
        a.view_year + 1
    } else {
        a.view_year as int
    };
    let last = days_in_month_spec(year, month);
    let day = if a.focused_date.2 < last {
        a.focused_date.2 as int
    } else {
        last
    };
    let target: CalendarDate = (year as i32, month as u32, day as u32);
    App {
        view_month: month as u32,
        view_year: year as i32,
        focused_date: if valid_date(target) {
            target
        } else {
            a.focused_date
        },
        ..a
    }
}

/// One period (a month, a week or a day, after the screen) forward or back.
pub open spec fn period_moved(a: App, forward: bool) -> App {
    let sign: int = if forward {
        1
    } else {
        -1
    };
    match a.view {
        Screen::Month => month_shifted(a, forward),
        Screen::Week => App { focused_date: moved_by(a.focused_date, 7 * sign), ..a },
        Screen::Day => App { focused_date: moved_by(a.focused_date, sign), ..a },
        _ => a,
    }
}

/// One step back within the screen: a week in the month view, an event or an hour in the
/// week and day views, a line in the agenda, a task in the planner inbox.
pub open spec fn unit_back(a: App) -> App {
    match a.view {
        Screen::Month => App { focused_date: moved_by(a.focused_date, -7), ..a },
        Screen::Week | Screen::Day => {
            if a.selected_event_index > 0 {
                App { selected_event_index: (a.selected_event_index - 1) as usize, ..a }
            } else if a.week_scroll > 0 {
                App { week_scroll: (a.week_scroll - 1) as i16, ..a }
            } else {
                a
            }
        },
        Screen::Agenda => App {
            agenda_scroll: if a.agenda_scroll > 0 {
                (a.agenda_scroll - 1) as u16
            } else {
                0
            },
            ..a
        },
        Screen::PlannerInbox => App {
            planner_selected_index: if a.planner_selected_index > 0 {
                (a.planner_selected_index - 1) as usize
            } else {
                0
            },
            ..a
        },
        _ => a,
    }
}

/// One step forward within the screen; in the week and day views the hour scroll stops at 18.
pub open spec fn unit_forward(a: App) -> App {
    match a.view {
        Screen::Month => App { focused_date: moved_by(a.focused_date, 7), ..a },
        Screen::Week | Screen::Day => {
            if a.selected_event_index + 1 < visible_event_seq(a.calendars@, a.events@).len() {
                App { selected_event_index: (a.selected_event_index + 1) as usize, ..a }
            } else if a.week_scroll < 18 {
                App { week_scroll: (a.week_scroll + 1) as i16, ..a }
            } else {
                a
            }
        },
        Screen::Agenda => App {
            agenda_scroll: if a.agenda_scroll < u16::MAX {
                (a.agenda_scroll + 1) as u16
            } else {
                u16::MAX
            },
            ..a
        },
        Screen::PlannerInbox => {
            if a.planner_selected_index + 1 < a.planner_task_count {
                App { planner_selected_index: (a.planner_selected_index + 1) as usize, ..a }
            } else {
                a
            }
        },
        _ => a,
    }
}

/// Escape leaves a popup or form: forms of the planner go back to its inbox, the rest to
/// the month view; the sidebar gives up focus.
pub open spec fn escaped(a: App) -> App {
    match a.view {
        Screen::Help | Screen::EventForm | Screen::IcalImport | Screen::QuickAdd
        | Screen::GoogleAuth | Screen::GoogleManage | Screen::PlannerInbox => App {
            view: Screen::Month,
            ..a
        },
        Screen::PlannerTaskForm | Screen::PlannerSettingsForm => App {
            view: Screen::PlannerInbox,
            ..a
        },
        Screen::CalendarList => App { view: Screen::Month, sidebar_focused: false, ..a },
        _ => a,
    }
}

/// `x` moved by `delta`, held within the range of `u16`.
pub open spec fn saturated(x: u16, delta: int) -> u16 {
    if x + delta < 0 {
        0
    } else if x + delta > u16::MAX {
        u16::MAX
    } else {
        (x + delta) as u16
    }
}

/// One line up: in the help and the agenda, or one hour in the week and day views.
pub open spec fn scrolled_up(a: App) -> App {
    match a.view {
        Screen::Help => App { help_scroll: saturated(a.help_scroll, -1), ..a },
        Screen::Agenda => App { agenda_scroll: saturated(a.agenda_scroll, -1), ..a },
        Screen::Week | Screen::Day => {
            if a.week_scroll > 0 {
                App { week_scroll: (a.week_scroll - 1) as i16, ..a }
            } else {
                a
            }
        },
        _ => a,
    }
}

/// One line down; the hour scroll of the week and day views stops at 20.
pub open spec fn scrolled_down(a: App) -> App {
    match a.view {
        Screen::Help => App { help_scroll: saturated(a.help_scroll, 1), ..a },
        Screen::Agenda => App { agenda_scroll: saturated(a.agenda_scroll, 1), ..a },
        Screen::Week | Screen::Day => {
            if a.week_scroll < 20 {
                App { week_scroll: (a.week_scroll + 1) as i16, ..a }
            } else {
                a
            }
        },
        _ => a,
    }
}

/// A page of `delta` lines in the help or the agenda.
pub open spec fn paged(a: App, delta: int) -> App {
    match a.view {
        Screen::Help => App { help_scroll: saturated(a.help_scroll, delta), ..a },
        Screen::Agenda => App { agenda_scroll: saturated(a.agenda_scroll, delta), ..a },
        _ => a,
    }
}

/// The focused date and the loaded month jump to `today`.
pub open spec fn jumped_to(a: App, today: CalendarDate) -> App {
    App { focused_date: today, view_month: today.1, view_year: today.0, ..a }
}

/// A month forward and a month back show the month shown before.
pub proof fn lemma_month_shift_round_trip(a: App)
    requires
        a.wf(),
    ensures
        month_shifted(month_shifted(a, true), false).view_month == a.view_month,
        month_shifted(month_shifted(a, true), false).view_year == a.view_year,
        month_shifted(month_shifted(a, false), true).view_month == a.view_month,
        month_shifted(month_shifted(a, false), true).view_year == a.view_year,
{
}

impl App {
    /// Shows `view` and takes focus off the sidebar.
    pub fn switch_view(&mut self, view: Screen)
        requires
            old(self).wf(),
        ensures
            *final(self) == switched(*old(self), view),
            final(self).wf(),
    {
        self.view = view;
        self.sidebar_focused = false;
    }

    /// Loads the events of the focused month when that month is not the loaded one.
    pub fn reload_events_if_needed(&mut self) -> (r: Vec<Effect>)
        requires
            old(self).wf_but_loaded_year(),
        ensures
            *final(self) == reloaded(*old(self)),
            r@ == reload_effects(*old(self)),
            final(self).wf(),
    {
        if self.focused_date.1 != self.view_month || self.focused_date.0 != self.view_year {
            self.view_month = self.focused_date.1;
            self.view_year = self.focused_date.0;
            self.loading = true;
            vec![Effect::LoadEvents { year: self.view_year, month: self.view_month }]
        } else {
            Vec::new()
        }
    }

    /// Moves the shown month by one; the focused date follows it.
    fn shift_month(&mut self, forward: bool)
        requires
            old(self).wf(),
        ensures
            *final(self) == month_shifted(*old(self), forward),
            final(self).wf_but_loaded_year(),
    {
        let mut month: i32 = if forward {
            self.view_month as i32 + 1
        } else {
            self.view_month as i32 - 1
        };
        let mut year: i32 = self.view_year;
        if month < 1 {
            month = month + 12;
            year = year - 1;
        } else if month > 12 {
            month = month - 12;
            year = year + 1;
        }
        self.view_month = month as u32;
        self.view_year = year;
        let last = days_in_month(year, month as u32);
        let day = if self.focused_date.2 < last {
            self.focused_date.2
        } else {
            last
        };
        match chrono_date(year, month as u32, day) {
            Some(d) => self.focused_date = d,
            None => {},
        }
    }

    /// Moves the focused date by `days` days, where chrono's range allows it.
    fn move_focus(&mut self, days: i64)
        requires
            old(self).wf(),
            -7 <= days <= 7,
        ensures
            *final(self) == (App { focused_date: moved_by(old(self).focused_date, days as int), ..*old(self) }),
            final(self).wf(),
    {
        match chrono_shift_date(self.focused_date, days) {
            Some(d) => self.focused_date = d,
            None => {},
        }
    }

    /// One period back: a month, a week or a day after the screen.
    pub fn prev_period(&mut self) -> (r: Vec<Effect>)
        requires
            old(self).wf(),
        ensures
            *final(self) == reloaded(period_moved(*old(self), false)),
            r@ == reload_effects(period_moved(*old(self), false)),
            final(self).wf(),
    {
        match self.view {
            Screen::Month => self.shift_month(false),
            Screen::Week => self.move_focus(-7),
            Screen::Day => self.move_focus(-1),
            _ => {},
        }
        self.reload_events_if_needed()
    }

    /// One period forward.
    pub fn next_period(&mut self) -> (r: Vec<Effect>)
        requires
            old(self).wf(),
        ensures
            *final(self) == reloaded(period_moved(*old(self), true)),
            r@ == reload_effects(period_moved(*old(self), true)),
            final(self).wf(),
    {
        match self.view {
            Screen::Month => self.shift_month(true),
            Screen::Week => self.move_focus(7),
            Screen::Day => self.move_focus(1),
            _ => {},
        }
        self.reload_events_if_needed()
    }

    /// One step back within the screen.
    pub fn prev_unit(&mut self)
        requires
            old(self).wf(),
        ensures
            *final(self) == unit_back(*old(self)),
            final(self).wf(),
    {
        match self.view {
            Screen::Month => self.move_focus(-7),
            Screen::Week | Screen::Day => {
                if self.selected_event_index > 0 {
                    self.selected_event_index = self.selected_event_index - 1;
                } else if self.week_scroll > 0 {
                    self.week_scroll = self.week_scroll - 1;
                }
            },
            Screen::Agenda => {
                self.agenda_scroll = self.agenda_scroll.saturating_sub(1);
            },
            Screen::PlannerInbox => {
                self.planner_selected_index = self.planner_selected_index.saturating_sub(1);
            },
            _ => {},
        }
    }

    /// One step forward within the screen.
    pub fn next_unit(&mut self)
        requires
            old(self).wf(),
        ensures
            *final(self) == unit_forward(*old(self)),
            final(self).wf(),
    {
        match self.view {
            Screen::Month => self.move_focus(7),
            Screen::Week | Screen::Day => {
                let count = self.visible_events().len();
                if self.selected_event_index < count && self.selected_event_index + 1 < count {
                    self.selected_event_index = self.selected_event_index + 1;
                } else if self.week_scroll < 18 {
                    self.week_scroll = self.week_scroll + 1;
                }
            },
            Screen::Agenda => {
                self.agenda_scroll = self.agenda_scroll.saturating_add(1);
            },
            Screen::PlannerInbox => {
                if self.planner_selected_index + 1 < self.planner_task_count {
                    self.planner_selected_index = self.planner_selected_index + 1;
                }
            },
            _ => {},
        }
    }

    /// Moves the focused date by `delta` days and loads its month if needed.
    pub fn move_day(&mut self, delta: i64) -> (r: Vec<Effect>)
        requires
            old(self).wf(),
            -7 <= delta <= 7,
        ensures
            *final(self) == reloaded(
                App { focused_date: moved_by(old(self).focused_date, delta as int), ..*old(self) },
            ),
            r@ == reload_effects(
                App { focused_date: moved_by(old(self).focused_date, delta as int), ..*old(self) },
            ),
            final(self).wf(),
    {
        self.move_focus(delta);
        self.reload_events_if_needed()
    }

    /// Focuses `today` and shows its month.
    pub fn jump_to(&mut self, today: CalendarDate) -> (r: Vec<Effect>)
        requires
            old(self).wf(),
            valid_date(today),
        ensures
            *final(self) == jumped_to(*old(self), today),
            r@.len() == 0,
            final(self).wf(),
    {
        self.focused_date = today;
        self.view_month = today.1;
        self.view_year = today.0;
        self.reload_events_if_needed()
    }

    /// Focuses the machine's current date.
    pub fn jump_today(&mut self) -> (r: Vec<Effect>)
        requires
            old(self).wf(),
        ensures
            exists|t: CalendarDate| valid_date(t) && *final(self) == #[trigger] jumped_to(*old(self), t),
            r@.len() == 0,
            final(self).wf(),
    {
        let today = local_today();
        let r = self.jump_to(today);
        assert(*self == jumped_to(*old(self), today));
        r
    }

    /// Leaves the current popup or form.
    pub fn handle_escape(&mut self)
        requires
            old(self).wf(),
        ensures
            *final(self) == escaped(*old(self)),
            final(self).wf(),
    {
        match self.view {
            Screen::Help | Screen::EventForm | Screen::IcalImport | Screen::QuickAdd
            | Screen::GoogleAuth | Screen::GoogleManage | Screen::PlannerInbox => {
                self.view = Screen::Month;
            },
            Screen::PlannerTaskForm | Screen::PlannerSettingsForm => {
                self.view = Screen::PlannerInbox;
            },
            Screen::CalendarList => {
                self.sidebar_focused = false;
                self.view = Screen::Month;
            },
            _ => {},
        }
    }

    /// Scrolls one line up.
    pub fn scroll_up(&mut self)
        requires
            old(self).wf(),
        ensures
            *final(self) == scrolled_up(*old(self)),
            final(self).wf(),
    {
        match self.view {
            Screen::Help => self.help_scroll = self.help_scroll.saturating_sub(1),
            Screen::Agenda => self.agenda_scroll = self.agenda_scroll.saturating_sub(1),
            Screen::Week | Screen::Day => {
                if self.week_scroll > 0 {
                    self.week_scroll = self.week_scroll - 1;
                }
            },
            _ => {},
        }
    }

    /// Scrolls one line down.
    pub fn scroll_down(&mut self)
        requires
            old(self).wf(),
        ensures
            *final(self) == scrolled_down(*old(self)),
            final(self).wf(),
    {
        match self.view {
            Screen::Help => self.help_scroll = self.help_scroll.saturating_add(1),
            Screen::Agenda => self.agenda_scroll = self.agenda_scroll.saturating_add(1),
            Screen::Week | Screen::Day => {
                if self.week_scroll < 20 {
                    self.week_scroll = self.week_scroll + 1;
                }
            },
            _ => {},
        }
    }

    /// Scrolls a page of `delta` lines, up where `delta` is negative.
    pub fn scroll_page(&mut self, delta: i16)
        requires
            old(self).wf(),
            delta > i16::MIN,
        ensures
            *final(self) == paged(*old(self), delta as int),
            final(self).wf(),
    {
        match self.view {
            Screen::Help => {
                if delta > 0 {
                    self.help_scroll = self.help_scroll.saturating_add(delta as u16);
                } else {
                    self.help_scroll = self.help_scroll.saturating_sub((0 - delta) as u16);
                }
            },
            Screen::Agenda => {
                if delta > 0 {
                    self.agenda_scroll = self.agenda_scroll.saturating_add(delta as u16);
                } else {
                    self.agenda_scroll = self.agenda_scroll.saturating_sub((0 - delta) as u16);
                }
            },
            _ => {},
        }
    }
}

} // verus!
