//! The decision step of the profile prompt: a small input dialog whose loop
//! (drawing, reading raw keys) lives outside the library. Each batch of
//! mapped events either cancels the prompt, submits the trimmed input,
//! rejects an all-blank input for another round, or edits the buffer.

use vstd::prelude::*;

use crate::events::{KeyInput, UserEvent};
use crate::input::{spec_after_key, InputDialogState};
use crate::text::trim_spec;

verus! {

/// The outcome of one round of the profile prompt.
#[derive(Debug)]
pub enum ProfileStep {
    Cancelled,
    Submitted(String),
    RejectedEmpty,
    Edited,
}

/// Some event of the batch cancels the prompt.
pub open spec fn batch_cancels(events: Seq<UserEvent>) -> bool {
    exists|i: int|
        0 <= i < events.len() && ((#[trigger] events[i]) == UserEvent::InputDialogClose
            || events[i] == UserEvent::Quit)
}

/// Some event of the batch submits the input.
pub open spec fn batch_applies(events: Seq<UserEvent>) -> bool {
    exists|i: int| 0 <= i < events.len() && (#[trigger] events[i]) == UserEvent::InputDialogApply
}

fn batch_cancels_exec(events: &Vec<UserEvent>) -> (r: bool)
    ensures
        r == batch_cancels(events@),
{
    let mut i: usize = 0;
    while i < events.len()
        invariant
            i <= events@.len(),
            forall|j: int|
                0 <= j < i ==> (#[trigger] events@[j]) != UserEvent::InputDialogClose
                    && events@[j] != UserEvent::Quit,
        decreases events@.len() - i,
    {
        match events[i] {
            UserEvent::InputDialogClose => {
                return true;
            },
            UserEvent::Quit => {
                return true;
            },
            _ => {},
        }
        i = i + 1;
    }
    false
}

fn batch_applies_exec(events: &Vec<UserEvent>) -> (r: bool)
    ensures
        r == batch_applies(events@),
{
    let mut i: usize = 0;
    while i < events.len()
        invariant
            i <= events@.len(),
            forall|j: int| 0 <= j < i ==> (#[trigger] events@[j]) != UserEvent::InputDialogApply,
        decreases events@.len() - i,
    {
        match events[i] {
            UserEvent::InputDialogApply => {
                return true;
            },
            _ => {},
        }
        i = i + 1;
    }
    false
}

/// One round of the profile prompt: cancel wins over apply; applying an
/// all-blank input re-prompts without touching the buffer; applying anything
/// else submits the trimmed text; any other key edits the buffer.
pub fn profile_input_step(
    state: &mut InputDialogState,
    user_events: &Vec<UserEvent>,
    key_event: KeyInput,
) -> (r: ProfileStep)
    requires
        old(state).wf(),
    ensures
        final(state).wf(),
        batch_cancels(user_events@) ==> r is Cancelled && *final(state) == *old(state),
        !batch_cancels(user_events@) && batch_applies(user_events@) && trim_spec(
            old(state).text(),
        ).len() == 0 ==> r is RejectedEmpty && *final(state) == *old(state),
        !batch_cancels(user_events@) && batch_applies(user_events@) && trim_spec(
            old(state).text(),
        ).len() > 0 ==> (r matches ProfileStep::Submitted(s) && s@ == trim_spec(old(state).text()))
            && *final(state) == *old(state),
        !batch_cancels(user_events@) && !batch_applies(user_events@) ==> r is Edited && final(state).text() == spec_after_key(old(state).text(), old(state).cursor_spec(), key_event).0
            && final(state).cursor_spec() == spec_after_key(
            old(state).text(),
            old(state).cursor_spec(),
            key_event,
        ).1,
{
    if batch_cancels_exec(user_events) {
        return ProfileStep::Cancelled;
    }
    if batch_applies_exec(user_events) {
        let entered = state.input();
        let trimmed = crate::text::trim_str(entered.as_str());
        if trimmed.as_str().unicode_len() == 0 {
            return ProfileStep::RejectedEmpty;
        }
        return ProfileStep::Submitted(trimmed);
    }
    state.handle_key_event(key_event);
    ProfileStep::Edited
}

} // verus!
