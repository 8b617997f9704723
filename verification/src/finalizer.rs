//! Composing the terminal messages of one invocation: the follow-up that
//! carries the chosen link, and the closing edit that removes the option
//! list from the original prompt.

use vstd::prelude::*;

use crate::coordinator::{step, Selection, SelectionCoordinator, SelectionEvent, SelectionV};
use crate::text::{dec_digits, u64_to_dec};

verus! {

/// The in-place edit of the original prompt message.
pub struct EditSpec {
    pub content: String,
    pub clear_components: bool,
}

/// The mathematical shape of an edit.
pub ghost struct EditSpecV {
    pub content: Seq<char>,
    pub clear_components: bool,
}

impl View for EditSpec {
    type V = EditSpecV;

    open spec fn view(&self) -> EditSpecV {
        EditSpecV { content: self.content@, clear_components: self.clear_components }
    }
}

/// What finalization commits: a follow-up message to send, and an edit of
/// the original prompt, either of which may be absent.
pub struct FinalizeActions {
    pub followup: Option<String>,
    pub edit: Option<EditSpec>,
}

/// The mathematical shape of the committed actions.
pub ghost struct FinalizeActionsV {
    pub followup: Option<Seq<char>>,
    pub edit: Option<EditSpecV>,
}

impl View for FinalizeActions {
    type V = FinalizeActionsV;

    open spec fn view(&self) -> FinalizeActionsV {
        FinalizeActionsV {
            followup: match self.followup {
                Option::Some(f) => Option::Some(f@),
                Option::None => Option::None,
            },
            edit: match self.edit {
                Option::Some(e) => Option::Some(e@),
                Option::None => Option::None,
            },
        }
    }
}

/// The platform's text form of a user mention.
pub open spec fn mention_text(user_id: nat) -> Seq<char> {
    "<@"@ + dec_digits(user_id) + ">"@
}

/// The follow-up message for a chosen target: the target in angle brackets,
/// which suppresses the automatic link preview, prefixed with a mention of
/// the tagged user when one was named in the invocation.
pub open spec fn followup_text(target: Seq<char>, mention: Option<u64>) -> Seq<char> {
    match mention {
        Option::Some(u) => mention_text(u as nat) + ": <"@ + target + ">"@,
        Option::None => "<"@ + target + ">"@,
    }
}

/// The closing text that replaces the prompt once a choice was made.
pub open spec fn closing_text() -> Seq<char> {
    "Thanks! You can now dismiss this message"@
}

/// What `finalize` commits: on a chosen target, the follow-up and the
/// closing edit that clears the option list; on a timeout, nothing at all.
pub open spec fn finalize_spec(sel: SelectionV, mention: Option<u64>) -> FinalizeActionsV {
    match sel {
        SelectionV::Chosen { target } => FinalizeActionsV {
            followup: Option::Some(followup_text(target, mention)),
            edit: Option::Some(EditSpecV { content: closing_text(), clear_components: true }),
        },
        SelectionV::TimedOut => FinalizeActionsV { followup: Option::None, edit: Option::None },
    }
}

/// Compose the terminal actions for a resolved wait.
pub fn finalize(sel: &Selection, mention: Option<u64>) -> (r: FinalizeActions)
    ensures
        r@ == finalize_spec(sel@, mention),
{
    match sel {
        Selection::Chosen { target } => {
            let mut followup: String;
            match mention {
                Option::Some(u) => {
                    followup = String::from_str("<@");
                    let id_text = u64_to_dec(u);
                    followup.append(id_text.as_str());
                    followup.append(">");
                    followup.append(": <");
                },
                Option::None => {
                    followup = String::from_str("<");
                },
            }
            followup.append(target.as_str());
            followup.append(">");
            let edit = EditSpec {
                content: String::from_str("Thanks! You can now dismiss this message"),
                clear_components: true,
            };
            FinalizeActions { followup: Option::Some(followup), edit: Option::Some(edit) }
        },
        Selection::TimedOut => FinalizeActions { followup: Option::None, edit: Option::None },
    }
}

/// A lapsed window leads to no mutation at all: the wait resolves to a
/// timeout, no follow-up is sent, and the original prompt is not edited —
/// its option list is deliberately left standing.
pub proof fn lemma_window_lapse_commits_nothing(pre: SelectionCoordinator, mention: Option<u64>)
    requires
        pre.outcome is None,
    ensures
        step(pre, SelectionEvent::Elapsed).1 == Option::Some(Selection::TimedOut),
        finalize_spec(SelectionV::TimedOut, mention).followup is None,
        finalize_spec(SelectionV::TimedOut, mention).edit is None,
{
}

/// A chosen target is always both sent onward and closed out: the follow-up
/// carries exactly the wrapped target, mention-prefixed when a user was
/// tagged, and the edit replaces the prompt with the closing text and clears
/// the option list.
pub proof fn lemma_chosen_commits_both(target: Seq<char>, mention: Option<u64>)
    ensures
        finalize_spec(SelectionV::Chosen { target }, mention).followup == Option::Some(
            followup_text(target, mention),
        ),
        finalize_spec(SelectionV::Chosen { target }, mention).edit == Option::Some(
            EditSpecV { content: closing_text(), clear_components: true },
        ),
{
}

} // verus!
