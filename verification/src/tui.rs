pub mod dispatch;
pub mod event_form;
pub mod integrations;
pub mod keys;
pub mod navigation;
pub mod planner;
pub mod query;
pub mod state;
pub mod text_input;
pub mod worker_results;

use vstd::prelude::*;
use vstd::string::StringExecFns;

use crate::text::{decimal, decimal_string};

verus! {

/// The fields of the event form.
#[derive(Debug, Clone, Copy, PartialEq, Eq, Structural)]
pub enum FormField {
    Title,
    Date,
    StartTime,
    EndTime,
    Calendar,
    Timezone,
    Location,
    Description,
    Recurrence,
    Reminder,
    Project,
    AllDay,
}

/// The fields of the event form in the order the form shows them.
pub open spec fn form_field_order() -> Seq<FormField> {
    seq![
        FormField::Title,
        FormField::Date,
        FormField::StartTime,
        FormField::EndTime,
        FormField::AllDay,
        FormField::Calendar,
        FormField::Timezone,
        FormField::Location,
        FormField::Description,
        FormField::Recurrence,
        FormField::Reminder,
        FormField::Project,
    ]
}

/// The label a field is shown with.
pub open spec fn form_field_label(f: FormField) -> Seq<char> {
    match f {
        FormField::Title => "Title"@,
        FormField::Date => "Date"@,
        FormField::StartTime => "Start"@,
        FormField::EndTime => "End"@,
        FormField::Calendar => "Calendar"@,
        FormField::Timezone => "Timezone"@,
        FormField::Location => "Location"@,
        FormField::Description => "Description"@,
        FormField::Recurrence => "Repeats"@,
        FormField::Reminder => "Reminder"@,
        FormField::Project => "Project"@,
        FormField::AllDay => "All day"@,
    }
}

impl FormField {
    /// Every field of the event form, in display order.
    pub fn all() -> (v: Vec<Self>)
        ensures
            v@ == form_field_order(),
    {
        let v = vec![
            FormField::Title,
            FormField::Date,
            FormField::StartTime,
            FormField::EndTime,
            FormField::AllDay,
            FormField::Calendar,
            FormField::Timezone,
            FormField::Location,
            FormField::Description,
            FormField::Recurrence,
            FormField::Reminder,
            FormField::Project,
        ];
        assert(v@ =~= form_field_order());
        v
    }

    /// The label of the field.
    pub fn label(&self) -> (s: &str)
        ensures
            s@ == form_field_label(*self),
    {
        match self {
            FormField::Title => "Title",
            FormField::Date => "Date",
            FormField::StartTime => "Start",
            FormField::EndTime => "End",
            FormField::Calendar => "Calendar",
            FormField::Timezone => "Timezone",
            FormField::Location => "Location",
            FormField::Description => "Description",
            FormField::Recurrence => "Repeats",
            FormField::Reminder => "Reminder",
            FormField::Project => "Project",
            FormField::AllDay => "All day",
        }
    }
}

/// The status line after a Google sync, and whether it reports a failure.
pub open spec fn sync_status_spec(
    succeeded: nat,
    failed: nat,
    added: nat,
    updated: nat,
    conflicts: nat,
) -> (Seq<char>, bool) {
    if failed > 0 {
        let head = if succeeded > 0 {
            decimal(succeeded) + " succeeded, "@
        } else {
            Seq::<char>::empty()
        };
        let tail = if conflicts > 0 {
            ", "@ + decimal(conflicts) + " conflicts"@
        } else {
            Seq::<char>::empty()
        };
        (
            "Google sync finished with failures: "@ + head + decimal(failed) + " failed"@ + tail
                + ". Open Google management for details."@,
            true,
        )
    } else if conflicts > 0 {
        (
            "Google sync: +"@ + decimal(added) + " events, "@ + decimal(updated) + " updated, "@
                + decimal(conflicts) + " conflicts."@,
            false,
        )
    } else {
        ("Google sync: +"@ + decimal(added) + " events, "@ + decimal(updated) + " updated."@, false)
    }
}

/// The status line after a Google sync: failures win over the success banner.
pub fn google_sync_finished_status(
    calendars_succeeded: usize,
    calendars_failed: usize,
    events_added: usize,
    events_updated: usize,
    conflicts_detected: usize,
) -> (r: (String, bool))
    ensures
        r.0@ == sync_status_spec(calendars_succeeded as nat, calendars_failed as nat, events_added as nat,
            events_updated as nat, conflicts_detected as nat).0,
        r.1 == sync_status_spec(calendars_succeeded as nat, calendars_failed as nat, events_added as nat,
            events_updated as nat, conflicts_detected as nat).1,
        r.1 == (calendars_failed > 0),
{
    if calendars_failed > 0 {
        let mut message = String::from_str("Google sync finished with failures: ");
        if calendars_succeeded > 0 {
            message.append(decimal_string(calendars_succeeded).as_str());
            message.append(" succeeded, ");
        }
        message.append(decimal_string(calendars_failed).as_str());
        message.append(" failed");
        if conflicts_detected > 0 {
            message.append(", ");
            message.append(decimal_string(conflicts_detected).as_str());
            message.append(" conflicts");
        }
        message.append(". Open Google management for details.");
        proof {
            let s = sync_status_spec(calendars_succeeded as nat, calendars_failed as nat, events_added as nat,
                events_updated as nat, conflicts_detected as nat);
            assert(message@ =~= s.0);
        }
        return (message, true);
    }
    let mut message = String::from_str("Google sync: +");
    message.append(decimal_string(events_added).as_str());
    message.append(" events, ");
    message.append(decimal_string(events_updated).as_str());
    if conflicts_detected > 0 {
        message.append(" updated, ");
        message.append(decimal_string(conflicts_detected).as_str());
        message.append(" conflicts.");
    } else {
        message.append(" updated.");
    }
    proof {
        let s = sync_status_spec(calendars_succeeded as nat, calendars_failed as nat, events_added as nat,
            events_updated as nat, conflicts_detected as nat);
        assert(message@ =~= s.0);
    }
    (message, false)
}

/// Working hours on weekdays, as the planner settings form writes availability.
pub open spec fn default_availability_text() -> Seq<char> {
    "mon=09:00-17:00, tue=09:00-17:00, wed=09:00-17:00, thu=09:00-17:00, fri=09:00-17:00"@
}

/// The weekly availability a new planner settings form starts with.
pub fn default_weekly_availability() -> (s: String)
    ensures
        s@ == default_availability_text(),
{
    String::from_str("mon=09:00-17:00, tue=09:00-17:00, wed=09:00-17:00, thu=09:00-17:00, fri=09:00-17:00")
}

} // verus!
