//! The evaluator's verdict on a response, and how a reply in plain text is
//! read as one.

use vstd::prelude::*;
use crate::text;

verus! {

/// What the orchestrator decides. Evaluation yields `Complete` or
/// `NeedsMoreWork`; `RouteToAgent` belongs to the decision space but no
/// evaluation produces it.
#[derive(Debug)]
pub enum OrchestratorDecision {
    RouteToAgent(String),
    Complete,
    NeedsMoreWork(String),
}

/// A decision as plain text.
pub enum DecisionView {
    RouteToAgent(Seq<char>),
    Complete,
    NeedsMoreWork(Seq<char>),
}

impl View for OrchestratorDecision {
    type V = DecisionView;

    open spec fn view(&self) -> DecisionView {
        match self {
            OrchestratorDecision::RouteToAgent(name) => DecisionView::RouteToAgent(name@),
            OrchestratorDecision::Complete => DecisionView::Complete,
            OrchestratorDecision::NeedsMoreWork(reason) => DecisionView::NeedsMoreWork(reason@),
        }
    }
}

/// The reason given when a reply says `incomplete` without the marker
/// `incomplete:` in front of a reason.
pub open spec fn default_reason() -> Seq<char> {
    "needs more work"@
}

/// The reason that a normalized reply starting with `incomplete` carries:
/// the trimmed text behind the marker `incomplete:`, or the default reason
/// where the marker is absent.
pub open spec fn reason_of(content: Seq<char>) -> Seq<char> {
    if "incomplete:"@.is_prefix_of(content) {
        text::trimmed(content.skip("incomplete:"@.len() as int))
    } else {
        default_reason()
    }
}

/// The verdict that a normalized reply stands for. A reply that starts with
/// neither `complete` nor `incomplete` counts as `Complete`, so that an
/// unreadable answer ends the turn.
pub open spec fn decision_of(content: Seq<char>) -> DecisionView {
    if "complete"@.is_prefix_of(content) {
        DecisionView::Complete
    } else if "incomplete"@.is_prefix_of(content) {
        DecisionView::NeedsMoreWork(reason_of(content))
    } else {
        DecisionView::Complete
    }
}

impl OrchestratorDecision {
    /// Reads a reply that is already trimmed and in lowercase.
    pub fn parse(content: &str) -> (d: OrchestratorDecision)
        ensures
            d@ == decision_of(content@),
    {
        if text::starts_with(content, "complete") {
            OrchestratorDecision::Complete
        } else if text::starts_with(content, "incomplete") {
            let reason = match text::strip_prefix(content, "incomplete:") {
                Some(rest) => text::trim(rest).to_owned(),
                None => "needs more work".to_owned(),
            };
            OrchestratorDecision::NeedsMoreWork(reason)
        } else {
            OrchestratorDecision::Complete
        }
    }

    /// Reads an evaluator's reply as it came: trims it, lowercases it, and
    /// reads the result.
    pub fn from_reply(reply: &str) -> (d: OrchestratorDecision)
        ensures
            d@ == decision_of(text::normalized(reply@)),
    {
        let content = text::to_lowercase(text::trim(reply));
        OrchestratorDecision::parse(content.as_str())
    }
}

/// Evaluation fails open: a normalized reply that starts with neither
/// `complete` nor `incomplete` is read as `Complete`.
pub proof fn lemma_unreadable_reply_is_complete(content: Seq<char>)
    requires
        !"complete"@.is_prefix_of(content),
        !"incomplete"@.is_prefix_of(content),
    ensures
        decision_of(content) == DecisionView::Complete,
{
}

/// Evaluation yields `Complete` or `NeedsMoreWork`, never `RouteToAgent`.
pub proof fn lemma_evaluation_never_routes(content: Seq<char>)
    ensures
        !(decision_of(content) is RouteToAgent),
{
}

/// A reply that starts with `incomplete` asks for more work, whatever
/// follows; one that starts with `complete` is complete.
pub proof fn lemma_prefix_decides(content: Seq<char>)
    ensures
        "complete"@.is_prefix_of(content) ==> decision_of(content) == DecisionView::Complete,
        "incomplete"@.is_prefix_of(content) ==> decision_of(content)
            == DecisionView::NeedsMoreWork(reason_of(content)),
{
    reveal_strlit("complete");
    reveal_strlit("incomplete");
    if "incomplete"@.is_prefix_of(content) && "complete"@.is_prefix_of(content) {
        assert(content.subrange(0, 10)[0] == "incomplete"@[0]);
        assert(content.subrange(0, 8)[0] == "complete"@[0]);
    }
}

} // verus!
