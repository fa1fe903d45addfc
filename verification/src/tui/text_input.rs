use vstd::prelude::*;

use crate::text::{pop_char, push_char};
use crate::tui::state::App;
use crate::tui::FormField;

verus! {

/// The text buffers of the interface that typing edits.
#[derive(Debug, Clone, Copy, PartialEq, Eq, Structural)]
pub enum TextSlot {
    QuickAdd,
    ClientId,
    ClientSecret,
    IcalPath,
    FormTitle,
    FormDate,
    FormStartTime,
    FormEndTime,
    FormLocation,
    FormDescription,
    FormTimezone,
    FormRecurrence,
    FormReminder,
    TaskTitle,
    TaskDuration,
    SettingsTimezone,
    SettingsAvailability,
    SettingsHorizonDays,
    SettingsSlotMinutes,
    SettingsSolveSeconds,
}

/// The text of a buffer.
pub open spec fn slot_text(a: App, s: TextSlot) -> Seq<char> {
    match s {
        TextSlot::QuickAdd => a.quick_add_input@,
        TextSlot::ClientId => a.google_auth_client_id@,
        TextSlot::ClientSecret => a.google_auth_client_secret@,
        TextSlot::IcalPath => a.ical_import_path@,
        TextSlot::FormTitle => a.form_title@,
        TextSlot::FormDate => a.form_date@,
        TextSlot::FormStartTime => a.form_start_time@,
        TextSlot::FormEndTime => a.form_end_time@,
        TextSlot::FormLocation => a.form_location@,
        TextSlot::FormDescription => a.form_description@,
        TextSlot::FormTimezone => a.form_timezone@,
        TextSlot::FormRecurrence => a.form_rrule@,
        TextSlot::FormReminder => a.form_reminder@,
        TextSlot::TaskTitle => a.planner_task_title@,
        TextSlot::TaskDuration => a.planner_task_duration@,
        TextSlot::SettingsTimezone => a.planner_settings_timezone@,
        TextSlot::SettingsAvailability => a.planner_settings_availability@,
        TextSlot::SettingsHorizonDays => a.planner_settings_horizon_days@,
        TextSlot::SettingsSlotMinutes => a.planner_settings_slot_minutes@,
        TextSlot::SettingsSolveSeconds => a.planner_settings_solve_seconds@,
    }
}

/// `b` is `a` but for the buffer `s`.
pub open spec fn same_but_slot(a: App, b: App, s: TextSlot) -> bool {
    match s {
        TextSlot::QuickAdd => b == App { quick_add_input: b.quick_add_input, ..a },
        TextSlot::ClientId => b == App { google_auth_client_id: b.google_auth_client_id, ..a },
        TextSlot::ClientSecret => b == App {
            google_auth_client_secret: b.google_auth_client_secret,
            ..a
        },
        TextSlot::IcalPath => b == App { ical_import_path: b.ical_import_path, ..a },
        TextSlot::FormTitle => b == App { form_title: b.form_title, ..a },
        TextSlot::FormDate => b == App { form_date: b.form_date, ..a },
        TextSlot::FormStartTime => b == App { form_start_time: b.form_start_time, ..a },
        TextSlot::FormEndTime => b == App { form_end_time: b.form_end_time, ..a },
        TextSlot::FormLocation => b == App { form_location: b.form_location, ..a },
        TextSlot::FormDescription => b == App { form_description: b.form_description, ..a },
        TextSlot::FormTimezone => b == App { form_timezone: b.form_timezone, ..a },
        TextSlot::FormRecurrence => b == App { form_rrule: b.form_rrule, ..a },
        TextSlot::FormReminder => b == App { form_reminder: b.form_reminder, ..a },
        TextSlot::TaskTitle => b == App { planner_task_title: b.planner_task_title, ..a },
        TextSlot::TaskDuration => b == App { planner_task_duration: b.planner_task_duration, ..a },
        TextSlot::SettingsTimezone => b == App {
            planner_settings_timezone: b.planner_settings_timezone,
            ..a
        },
        TextSlot::SettingsAvailability => b == App {
            planner_settings_availability: b.planner_settings_availability,
            ..a
        },
        TextSlot::SettingsHorizonDays => b == App {
            planner_settings_horizon_days: b.planner_settings_horizon_days,
            ..a
        },
        TextSlot::SettingsSlotMinutes => b == App {
            planner_settings_slot_minutes: b.planner_settings_slot_minutes,
            ..a
        },
        TextSlot::SettingsSolveSeconds => b == App {
            planner_settings_solve_seconds: b.planner_settings_solve_seconds,
            ..a
        },
    }
}

/// `b` is `a` with `c` typed at the end of buffer `s`.
pub open spec fn typed(a: App, b: App, s: TextSlot, c: char) -> bool {
    same_but_slot(a, b, s) && slot_text(b, s) == slot_text(a, s).push(c)
}

/// `b` is `a` with the last character of buffer `s` erased, if it has one.
pub open spec fn erased(a: App, b: App, s: TextSlot) -> bool {
    same_but_slot(a, b, s) && slot_text(b, s) == (if slot_text(a, s).len() > 0 {
        slot_text(a, s).drop_last()
    } else {
        slot_text(a, s)
    })
}

/// The buffer a field of the event form types into, if it takes text.
pub open spec fn form_slot(f: FormField) -> Option<TextSlot> {
    match f {
        FormField::Title => Some(TextSlot::FormTitle),
        FormField::Date => Some(TextSlot::FormDate),
        FormField::StartTime => Some(TextSlot::FormStartTime),
        FormField::EndTime => Some(TextSlot::FormEndTime),
        FormField::Location => Some(TextSlot::FormLocation),
        FormField::Description => Some(TextSlot::FormDescription),
        FormField::Timezone => Some(TextSlot::FormTimezone),
        FormField::Recurrence => Some(TextSlot::FormRecurrence),
        FormField::Reminder => Some(TextSlot::FormReminder),
        _ => None,
    }
}

impl App {
    /// The buffer `s` of the interface.
    fn slot_mut(&mut self, s: TextSlot) -> (r: &mut String)
        ensures
            *r == slot_string(*old(self), s),
            same_but_slot(*old(self), *final(self), s),
            slot_string(*final(self), s) == *final(r),
    {
        match s {
            TextSlot::QuickAdd => &mut self.quick_add_input,
            TextSlot::ClientId => &mut self.google_auth_client_id,
            TextSlot::ClientSecret => &mut self.google_auth_client_secret,
            TextSlot::IcalPath => &mut self.ical_import_path,
            TextSlot::FormTitle => &mut self.form_title,
            TextSlot::FormDate => &mut self.form_date,
            TextSlot::FormStartTime => &mut self.form_start_time,
            TextSlot::FormEndTime => &mut self.form_end_time,
            TextSlot::FormLocation => &mut self.form_location,
            TextSlot::FormDescription => &mut self.form_description,
            TextSlot::FormTimezone => &mut self.form_timezone,
            TextSlot::FormRecurrence => &mut self.form_rrule,
            TextSlot::FormReminder => &mut self.form_reminder,
            TextSlot::TaskTitle => &mut self.planner_task_title,
            TextSlot::TaskDuration => &mut self.planner_task_duration,
            TextSlot::SettingsTimezone => &mut self.planner_settings_timezone,
            TextSlot::SettingsAvailability => &mut self.planner_settings_availability,
            TextSlot::SettingsHorizonDays => &mut self.planner_settings_horizon_days,
            TextSlot::SettingsSlotMinutes => &mut self.planner_settings_slot_minutes,
            TextSlot::SettingsSolveSeconds => &mut self.planner_settings_solve_seconds,
        }
    }

    /// Types `c` at the end of buffer `s`.
    pub fn type_into(&mut self, s: TextSlot, c: char)
        requires
            old(self).wf(),
        ensures
            typed(*old(self), *final(self), s, c),
            final(self).wf(),
    {
        let buffer = self.slot_mut(s);
        push_char(buffer, c);
    }

    /// Erases the last character of buffer `s`.
    pub fn erase_from(&mut self, s: TextSlot)
        requires
            old(self).wf(),
        ensures
            erased(*old(self), *final(self), s),
            final(self).wf(),
    {
        let buffer = self.slot_mut(s);
        pop_char(buffer);
    }
}

/// A backspace undoes a typed character: the buffer reads as before and nothing else moved.
#[verifier::rlimit(50)]
pub proof fn lemma_erase_undoes_typing(a: App, b: App, c: App, s: TextSlot, ch: char)
    requires
        typed(a, b, s, ch),
        erased(b, c, s),
    ensures
        same_but_slot(a, c, s),
        slot_text(c, s) == slot_text(a, s),
{
    assert(slot_text(b, s).drop_last() =~= slot_text(a, s));
}

/// The `String` of a buffer.
pub open spec fn slot_string(a: App, s: TextSlot) -> String {
    match s {
        TextSlot::QuickAdd => a.quick_add_input,
        TextSlot::ClientId => a.google_auth_client_id,
        TextSlot::ClientSecret => a.google_auth_client_secret,
        TextSlot::IcalPath => a.ical_import_path,
        TextSlot::FormTitle => a.form_title,
        TextSlot::FormDate => a.form_date,
        TextSlot::FormStartTime => a.form_start_time,
        TextSlot::FormEndTime => a.form_end_time,
        TextSlot::FormLocation => a.form_location,
        TextSlot::FormDescription => a.form_description,
        TextSlot::FormTimezone => a.form_timezone,
        TextSlot::FormRecurrence => a.form_rrule,
        TextSlot::FormReminder => a.form_reminder,
        TextSlot::TaskTitle => a.planner_task_title,
        TextSlot::TaskDuration => a.planner_task_duration,
        TextSlot::SettingsTimezone => a.planner_settings_timezone,
        TextSlot::SettingsAvailability => a.planner_settings_availability,
        TextSlot::SettingsHorizonDays => a.planner_settings_horizon_days,
        TextSlot::SettingsSlotMinutes => a.planner_settings_slot_minutes,
        TextSlot::SettingsSolveSeconds => a.planner_settings_solve_seconds,
    }
}

} // verus!
