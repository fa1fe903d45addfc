use vstd::prelude::*;

use crate::dag::str_eq;
use crate::models::{Calendar, Event};
use crate::tui::state::App;

verus! {

/// Some calendar with id `id` is shown.
pub open spec fn calendar_shown(cals: Seq<Calendar>, id: Seq<char>) -> bool {
    exists|i: int| 0 <= i < cals.len() && cals[i].visible && #[trigger] cals[i].id@ == id
}

/// An event is listed when it is not deleted and one of its calendars is shown.
pub open spec fn is_visible_event(cals: Seq<Calendar>, e: Event) -> bool {
    calendar_shown(cals, e.calendar_id@) && e.deleted_at is None
}

/// The listed events, in their order.
pub open spec fn visible_event_seq(cals: Seq<Calendar>, evs: Seq<Event>) -> Seq<Event>
    decreases evs.len(),
{
    if evs.len() == 0 {
        Seq::empty()
    } else {
        let rest = visible_event_seq(cals, evs.drop_last());
        if is_visible_event(cals, evs.last()) {
            rest.push(evs.last())
        } else {
            rest
        }
    }
}

/// Some calendar has id `id`.
pub open spec fn has_calendar(cals: Seq<Calendar>, id: Seq<char>) -> bool {
    exists|i: int| 0 <= i < cals.len() && #[trigger] cals[i].id@ == id
}

/// Every listed event is one of the loaded events.
pub proof fn lemma_visible_are_events(cals: Seq<Calendar>, evs: Seq<Event>)
    ensures
        forall|i: int|
            0 <= i < visible_event_seq(cals, evs).len() ==> evs.contains(
                #[trigger] visible_event_seq(cals, evs)[i],
            ),
    decreases evs.len(),
{
    if evs.len() > 0 {
        let rest = evs.drop_last();
        lemma_visible_are_events(cals, rest);
        assert forall|i: int| 0 <= i < visible_event_seq(cals, evs).len() implies evs.contains(
            #[trigger] visible_event_seq(cals, evs)[i],
        ) by {
            let v = visible_event_seq(cals, evs);
            if i < visible_event_seq(cals, rest).len() {
                let x = visible_event_seq(cals, rest)[i];
                assert(rest.contains(x));
                let j = choose|j: int| 0 <= j < rest.len() && rest[j] == x;
                assert(evs[j] == x);
            } else {
                assert(v[i] == evs.last());
                assert(evs[evs.len() - 1] == evs.last());
            }
        }
    }
}

fn calendar_is_shown(cals: &Vec<Calendar>, id: &String) -> (r: bool)
    ensures
        r == calendar_shown(cals@, id@),
{
    let mut i: usize = 0;
    while i < cals.len()
        invariant
            i <= cals.len(),
            forall|j: int| 0 <= j < i ==> !(cals@[j].visible && #[trigger] cals@[j].id@ == id@),
        decreases cals.len() - i,
    {
        if cals[i].visible && str_eq(cals[i].id.as_str(), id.as_str()) {
            assert(cals@[i as int].visible && cals@[i as int].id@ == id@);
            return true;
        }
        i += 1;
    }
    false
}

impl App {
    /// The events of the loaded window that are listed: not deleted, in a shown calendar.
    pub fn visible_events(&self) -> (r: Vec<&Event>)
        ensures
            r@.map_values(|e: &Event| *e) == visible_event_seq(self.calendars@, self.events@),
    {
        let mut r: Vec<&Event> = Vec::new();
        let mut i: usize = 0;
        while i < self.events.len()
            invariant
                i <= self.events.len(),
                r@.map_values(|e: &Event| *e) == visible_event_seq(
                    self.calendars@,
                    self.events@.take(i as int),
                ),
            decreases self.events.len() - i,
        {
            let e = &self.events[i];
            let shown = calendar_is_shown(&self.calendars, &e.calendar_id);
            assert(self.events@.take(i + 1).drop_last() =~= self.events@.take(i as int));
            if shown && e.deleted_at.is_none() {
                r.push(e);
            }
            assert(r@.map_values(|e: &Event| *e) =~= visible_event_seq(
                self.calendars@,
                self.events@.take(i + 1),
            ));
            i += 1;
        }
        assert(self.events@.take(self.events@.len() as int) =~= self.events@);
        r
    }

    /// The listed event under the cursor, if the cursor is on one.
    pub fn selected_event(&self) -> (r: Option<&Event>)
        ensures
            ({
                let v = visible_event_seq(self.calendars@, self.events@);
                match r {
                    Some(e) => self.selected_event_index < v.len() && *e == v[self.selected_event_index as int],
                    None => self.selected_event_index >= v.len(),
                }
            }),
    {
        let visible = self.visible_events();
        if self.selected_event_index < visible.len() {
            let e = visible[self.selected_event_index];
            assert(*e == visible@.map_values(|e: &Event| *e)[self.selected_event_index as int]);
            Some(e)
        } else {
            None
        }
    }

    /// Where the first calendar with id `calendar_id` stands in the list, for its colour;
    /// 0 if there is none.
    pub fn calendar_index_for(&self, calendar_id: &str) -> (r: usize)
        ensures
            has_calendar(self.calendars@, calendar_id@) ==> {
                &&& r < self.calendars@.len()
                &&& self.calendars@[r as int].id@ == calendar_id@
                &&& forall|j: int| 0 <= j < r ==> #[trigger] self.calendars@[j].id@ != calendar_id@
            },
            !has_calendar(self.calendars@, calendar_id@) ==> r == 0,
    {
        let mut i: usize = 0;
        while i < self.calendars.len()
            invariant
                i <= self.calendars@.len(),
                forall|j: int| 0 <= j < i ==> #[trigger] self.calendars@[j].id@ != calendar_id@,
            decreases self.calendars@.len() - i,
        {
            if str_eq(self.calendars[i].id.as_str(), calendar_id) {
                return i;
            }
            i += 1;
        }
        0
    }

    /// Shows `msg` on the status line, marked as an error or not.
    pub fn set_status(&mut self, msg: String, is_error: bool)
        ensures
            *final(self) == (App { status_message: msg, status_is_error: is_error, ..*old(self) }),
    {
        self.status_message = msg;
        self.status_is_error = is_error;
    }

    /// The text cursor blinks: on for two ticks, off for two.
    pub fn cursor_visible(&self) -> (r: bool)
        ensures
            r == (self.tick_count % 4 < 2),
    {
        self.tick_count % 4 < 2
    }
}

} // verus!
