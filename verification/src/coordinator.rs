//! Waiting for one selection: a per-invocation state machine fed with
//! interaction events, resolving to the invoker's first qualifying choice or
//! to a timeout when the window lapses.

use vstd::prelude::*;

verus! {

/// Length of the window, in seconds, during which a selection on a prompt is
/// still accepted.
pub const SELECTION_TIMEOUT_SECS: u64 = 60;

/// One thing the platform can hand the wait: a component choice on some
/// message by some user, or the lapse of the window.
pub enum SelectionEvent {
    Choice { message_id: u64, user_id: u64, value: String },
    Elapsed,
}

/// How a wait resolves: the target chosen by the invoker, or nothing within
/// the window.
pub enum Selection {
    Chosen { target: String },
    TimedOut,
}

/// The mathematical shape of a resolution.
pub ghost enum SelectionV {
    Chosen { target: Seq<char> },
    TimedOut,
}

impl View for Selection {
    type V = SelectionV;

    open spec fn view(&self) -> SelectionV {
        match self {
            Selection::Chosen { target } => SelectionV::Chosen { target: target@ },
            Selection::TimedOut => SelectionV::TimedOut,
        }
    }
}

/// The wait of one invocation: tied to one prompt message and one invoker,
/// and inert once resolved. Invocations are independent; each coordinator
/// observes only events correlated to its own prompt.
pub struct SelectionCoordinator {
    pub prompt_id: u64,
    pub invoker_id: u64,
    pub outcome: Option<Selection>,
}

/// A choice event qualifies when it is on this coordinator's prompt message
/// and authored by this coordinator's invoker. The lapse of the window never
/// qualifies as a choice.
pub open spec fn event_qualifies(c: SelectionCoordinator, e: SelectionEvent) -> bool {
    e matches SelectionEvent::Choice { message_id, user_id, .. } && message_id == c.prompt_id
        && user_id == c.invoker_id
}

/// One step of the wait. A resolved coordinator ignores everything. A
/// pending one resolves to the chosen target on a qualifying choice, to a
/// timeout on the lapse of the window, and ignores any other event — which
/// neither resets nor extends the window, since the coordinator holds no
/// clock of its own.
pub open spec fn step(pre: SelectionCoordinator, e: SelectionEvent) -> (SelectionCoordinator,
    Option<Selection>) {
    if !(pre.outcome is None) {
        (pre, Option::None)
    } else {
        match e {
            SelectionEvent::Choice { message_id, user_id, value } => {
                if message_id == pre.prompt_id && user_id == pre.invoker_id {
                    let s = Selection::Chosen { target: value };
                    (
                        SelectionCoordinator {
                            prompt_id: pre.prompt_id,
                            invoker_id: pre.invoker_id,
                            outcome: Option::Some(s),
                        },
                        Option::Some(s),
                    )
                } else {
                    (pre, Option::None)
                }
            },
            SelectionEvent::Elapsed => (
                SelectionCoordinator {
                    prompt_id: pre.prompt_id,
                    invoker_id: pre.invoker_id,
                    outcome: Option::Some(Selection::TimedOut),
                },
                Option::Some(Selection::TimedOut),
            ),
        }
    }
}

impl SelectionCoordinator {
    /// Open the wait for one prompt message and its invoker.
    pub fn new(prompt_id: u64, invoker_id: u64) -> (c: SelectionCoordinator)
        ensures
            c.prompt_id == prompt_id,
            c.invoker_id == invoker_id,
            c.outcome is None,
    {
        SelectionCoordinator { prompt_id, invoker_id, outcome: Option::None }
    }

    /// Feed one event to the wait. The result is the resolution this event
    /// brought about, or nothing when the event was ignored.
    pub fn observe(&mut self, e: SelectionEvent) -> (r: Option<Selection>)
        ensures
            (*final(self), r) == step(*old(self), e),
    {
        if self.outcome.is_some() {
            return Option::None;
        }
        match e {
            SelectionEvent::Choice { message_id, user_id, value } => {
                if message_id == self.prompt_id && user_id == self.invoker_id {
                    self.outcome = Option::Some(Selection::Chosen { target: value.clone() });
                    Option::Some(Selection::Chosen { target: value })
                } else {
                    Option::None
                }
            },
            SelectionEvent::Elapsed => {
                self.outcome = Option::Some(Selection::TimedOut);
                Option::Some(Selection::TimedOut)
            },
        }
    }
}

/// A choice authored by any user other than the invoker never resolves the
/// wait: the coordinator is unchanged and no outcome is produced, whatever
/// message it was on and whatever was chosen.
pub proof fn lemma_foreign_choice_ignored(pre: SelectionCoordinator, e: SelectionEvent)
    requires
        e matches SelectionEvent::Choice { user_id, .. } && user_id != pre.invoker_id,
    ensures
        step(pre, e) == (pre, Option::<Selection>::None),
{
}

/// A choice on any message other than the coordinator's own prompt never
/// resolves the wait: events are correlated by the prompt's identifier, so
/// nothing leaks across invocations.
pub proof fn lemma_other_prompt_ignored(pre: SelectionCoordinator, e: SelectionEvent)
    requires
        e matches SelectionEvent::Choice { message_id, .. } && message_id != pre.prompt_id,
    ensures
        step(pre, e) == (pre, Option::<Selection>::None),
{
}

/// The invoker's choice on the coordinator's own prompt resolves a pending
/// wait, to exactly the chosen target.
pub proof fn lemma_invoker_choice_resolves(pre: SelectionCoordinator, value: String)
    requires
        pre.outcome is None,
    ensures
        ({
            let (post, r) = step(
                pre,
                SelectionEvent::Choice {
                    message_id: pre.prompt_id,
                    user_id: pre.invoker_id,
                    value,
                },
            );
            r == Option::Some(Selection::Chosen { target: value }) && post.outcome
                == Option::Some(Selection::Chosen { target: value })
        }),
{
}

/// When the window lapses on a pending wait, the wait resolves to a timeout.
pub proof fn lemma_elapsed_times_out(pre: SelectionCoordinator)
    requires
        pre.outcome is None,
    ensures
        step(pre, SelectionEvent::Elapsed).1 == Option::Some(Selection::TimedOut),
{
}

/// A resolved wait is inert: whatever arrives later changes nothing and
/// produces nothing, so at most one selection is ever accepted.
pub proof fn lemma_resolved_is_inert(pre: SelectionCoordinator, e: SelectionEvent)
    requires
        !(pre.outcome is None),
    ensures
        step(pre, e) == (pre, Option::<Selection>::None),
{
}

} // verus!
