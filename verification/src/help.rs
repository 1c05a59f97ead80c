//! Help entries: which user events a page reacts to, with a description. The
//! renderer turns these into styled lines with the configured key names.

use vstd::prelude::*;

use crate::events::UserEvent;

verus! {

/// One row of the full help page.
#[derive(Clone, Debug)]
pub struct BuildHelpsItem {
    pub event: UserEvent,
    pub description: String,
}

impl BuildHelpsItem {
    pub fn new(event: UserEvent, description: &str) -> (r: Self)
        ensures
            r.event == event,
            r.description@ == description@,
    {
        BuildHelpsItem { event, description: String::from_str(description) }
    }
}

/// One entry of the status-bar short help: one or more events sharing a
/// description, with a priority deciding what is dropped on narrow screens.
#[derive(Clone, Debug)]
pub struct BuildShortHelpsItem {
    pub events: Vec<UserEvent>,
    pub description: String,
    pub priority: usize,
}

impl BuildShortHelpsItem {
    pub fn single(event: UserEvent, description: &str, priority: usize) -> (r: Self)
        ensures
            r.events@ == seq![event],
            r.description@ == description@,
            r.priority == priority,
    {
        let mut events: Vec<UserEvent> = Vec::new();
        events.push(event);
        proof {
            assert(events@ =~= seq![event]);
        }
        BuildShortHelpsItem { events, description: String::from_str(description), priority }
    }

    pub fn group(events: Vec<UserEvent>, description: &str, priority: usize) -> (r: Self)
        ensures
            r.events@ == events@,
            r.description@ == description@,
            r.priority == priority,
    {
        BuildShortHelpsItem { events, description: String::from_str(description), priority }
    }
}

} // verus!
