//! One turn of the assistant: from a user's input to the final response.
//!
//! A turn is a state machine. The caller owns the exchange with the
//! backends: it sends the request that a step hands out and hands the
//! reply back as the next event. The turn decides what follows: it routes
//! once, asks the chosen agent, has each response evaluated, and asks for
//! refinement while the evaluator wants more and the cap is not reached.

use vstd::prelude::*;
use crate::agent::{ChatRequest, ChatRequestView};
use crate::agent;
use crate::agent_manager::AgentManager;
use crate::chat_agent::ChatAgent;
use crate::conversation::ConversationView;
use crate::decision::OrchestratorDecision;
use crate::decision;
use crate::message::{Message, MessageView};
use crate::orchestrator::Orchestrator;
use crate::orchestrator;
use crate::state_manager::StateManager;
use crate::text;
use crate::traits::{Storage, StorageError};

verus! {

/// Where a turn stands.
#[derive(Debug)]
pub enum Phase {
    /// The router was asked; its reply is awaited.
    Routing,
    /// The chosen agent was asked; its response is awaited.
    Responding,
    /// The evaluator was asked about the response held here.
    Evaluating(Message),
    /// The evaluator was satisfied; the response held here is final.
    Complete(Message),
    /// The cap on refinements was reached; the response held here is final.
    IterationLimitReached(Message),
    /// A backend or the store failed; the turn has no final response.
    Failed,
}

/// A `Phase` as plain values.
pub enum PhaseView {
    Routing,
    Responding,
    Evaluating(MessageView),
    Complete(MessageView),
    IterationLimitReached(MessageView),
    Failed,
}

impl View for Phase {
    type V = PhaseView;

    open spec fn view(&self) -> PhaseView {
        match self {
            Phase::Routing => PhaseView::Routing,
            Phase::Responding => PhaseView::Responding,
            Phase::Evaluating(m) => PhaseView::Evaluating(m@),
            Phase::Complete(m) => PhaseView::Complete(m@),
            Phase::IterationLimitReached(m) => PhaseView::IterationLimitReached(m@),
            Phase::Failed => PhaseView::Failed,
        }
    }
}

/// What the caller reports back: the reply to the request last handed
/// out, or that the backend failed.
#[derive(Debug)]
pub enum Event {
    Reply(Message),
    Failure,
}

/// An `Event` as plain values.
pub enum EventView {
    Reply(MessageView),
    Failure,
}

impl View for Event {
    type V = EventView;

    open spec fn view(&self) -> EventView {
        match self {
            Event::Reply(m) => EventView::Reply(m@),
            Event::Failure => EventView::Failure,
        }
    }
}

/// What the caller is to do next.
#[derive(Debug)]
pub enum Action {
    /// Send the request and report the reply.
    Send(ChatRequest),
    /// The turn is over: this is the final response, already appended to
    /// the conversation.
    Finish(Message),
    /// The turn is over without a final response.
    Abort,
}

/// An `Action` as plain values.
pub enum ActionView {
    Send(ChatRequestView),
    Finish(MessageView),
    Abort,
}

impl View for Action {
    type V = ActionView;

    open spec fn view(&self) -> ActionView {
        match self {
            Action::Send(r) => ActionView::Send(r@),
            Action::Finish(m) => ActionView::Finish(m@),
            Action::Abort => ActionView::Abort,
        }
    }
}

/// Why a step could not be taken.
#[derive(Debug)]
pub enum TurnError {
    /// The store failed to save the conversation.
    Storage(StorageError),
    /// There is no conversation to work on.
    NoConversation,
    /// No agent is registered.
    NoAgent,
    /// The turn is over.
    Finished,
}

/// One turn: the user's input, the agent chosen for it, the count of
/// refinements so far and their cap, and the phase.
#[derive(Debug)]
pub struct Turn {
    input: String,
    choice: String,
    iterations: usize,
    max_iterations: usize,
    phase: Phase,
}

/// A `Turn` as plain values.
pub struct TurnView {
    pub input: Seq<char>,
    pub choice: Seq<char>,
    pub iterations: nat,
    pub max_iterations: nat,
    pub phase: PhaseView,
}

impl View for Turn {
    type V = TurnView;

    closed spec fn view(&self) -> TurnView {
        TurnView {
            input: self.input@,
            choice: self.choice@,
            iterations: self.iterations as nat,
            max_iterations: self.max_iterations as nat,
            phase: self.phase@,
        }
    }
}

/// The message that carries a user's input.
pub open spec fn user_message_of(input: Seq<char>) -> MessageView {
    MessageView { role: "user"@, content: input }
}

/// Whether the turn ended with a final response.
pub open spec fn finished(phase: PhaseView) -> bool {
    phase is Complete || phase is IterationLimitReached
}

/// Whether the turn is over, with or without a final response.
pub open spec fn over(phase: PhaseView) -> bool {
    finished(phase) || phase is Failed
}

/// Whether the evaluator's reply `m` sends the turn into another refinement:
/// it asks for more work, and the cap is not reached.
pub open spec fn refines(t: TurnView, m: MessageView) -> bool {
    &&& t.phase is Evaluating
    &&& decision::decision_of(text::normalized(m.content)) is NeedsMoreWork
    &&& t.iterations < t.max_iterations
}

/// The reason for which the evaluator's reply `m` asks for more work.
pub open spec fn reason_in(m: MessageView) -> Seq<char> {
    decision::decision_of(text::normalized(m.content))->NeedsMoreWork_0
}

/// The turn after one event, where the store does not fail. `names` are the
/// names of the agents that the router knows.
pub open spec fn next_turn(t: TurnView, event: EventView, names: Seq<Seq<char>>) -> TurnView {
    if over(t.phase) {
        t
    } else {
        match event {
            EventView::Failure => TurnView { phase: PhaseView::Failed, ..t },
            EventView::Reply(m) => match t.phase {
                PhaseView::Routing => TurnView {
                    choice: orchestrator::route_of(text::normalized(m.content), names),
                    phase: PhaseView::Responding,
                    ..t
                },
                PhaseView::Responding => if t.iterations >= t.max_iterations {
                    TurnView { phase: PhaseView::IterationLimitReached(m), ..t }
                } else {
                    TurnView { phase: PhaseView::Evaluating(m), ..t }
                },
                PhaseView::Evaluating(response) => if refines(t, m) {
                    TurnView { iterations: t.iterations + 1, phase: PhaseView::Responding, ..t }
                } else if decision::decision_of(text::normalized(m.content)) is NeedsMoreWork {
                    TurnView { phase: PhaseView::IterationLimitReached(response), ..t }
                } else {
                    TurnView { phase: PhaseView::Complete(response), ..t }
                },
                _ => t,
            },
        }
    }
}

/// The conversation's messages after one event, where the store does not
/// fail. A response is appended when it is superseded by a refinement,
/// together with the follow-up, or when it becomes final.
pub open spec fn next_messages(t: TurnView, messages: Seq<MessageView>, event: EventView) -> Seq<
    MessageView,
> {
    if over(t.phase) {
        messages
    } else {
        match event {
            EventView::Failure => messages,
            EventView::Reply(m) => match t.phase {
                PhaseView::Responding => if t.iterations >= t.max_iterations {
                    messages.push(m)
                } else {
                    messages
                },
                PhaseView::Evaluating(response) => if refines(t, m) {
                    messages.push(response).push(orchestrator::follow_up_of(reason_in(m)))
                } else {
                    messages.push(response)
                },
                _ => messages,
            },
        }
    }
}

/// Whether a step on `event` needs an agent to address: after routing, and
/// for each refinement.
pub open spec fn needs_agent(t: TurnView, event: EventView) -> bool {
    event matches EventView::Reply(m) && (t.phase is Routing || refines(t, m))
}

/// Whether a step on `event` saves the conversation, so that the store
/// decides whether it succeeds.
pub open spec fn saves(t: TurnView, event: EventView) -> bool {
    event is Reply && (t.phase is Evaluating || (t.phase is Responding && t.iterations
        >= t.max_iterations))
}

/// A conversation with other messages under the same title.
pub open spec fn with_messages(c: Option<ConversationView>, messages: Seq<MessageView>) -> Option<
    ConversationView,
> {
    match c {
        Some(c) => Some(ConversationView { title: c.title, messages }),
        None => None,
    }
}

/// The messages of a conversation; none where there is no conversation.
pub open spec fn messages_of(c: Option<ConversationView>) -> Seq<MessageView> {
    match c {
        Some(c) => c.messages,
        None => Seq::<MessageView>::empty(),
    }
}

/// The turn and the conversation's messages after a sequence of events,
/// where the store does not fail.
pub open spec fn run(
    t: TurnView,
    messages: Seq<MessageView>,
    events: Seq<EventView>,
    names: Seq<Seq<char>>,
) -> (TurnView, Seq<MessageView>)
    decreases events.len(),
{
    if events.len() == 0 {
        (t, messages)
    } else {
        run(
            next_turn(t, events[0], names),
            next_messages(t, messages, events[0]),
            events.drop_first(),
            names,
        )
    }
}

/// The response that a finished turn ended with.
pub open spec fn final_response(phase: PhaseView) -> MessageView {
    match phase {
        PhaseView::Complete(response) => response,
        PhaseView::IterationLimitReached(response) => response,
        _ => arbitrary(),
    }
}

/// Replies to a turn whose evaluator never has enough: every event is a
/// reply, and every second one, the evaluator's, asks for more work.
pub open spec fn always_needs_more_work(events: Seq<EventView>) -> bool {
    forall|i: int|
        0 <= i < events.len() ==> {
            &&& (#[trigger] events[i]) is Reply
            &&& i % 2 == 1 ==> decision::decision_of(
                text::normalized(events[i]->Reply_0.content),
            ) is NeedsMoreWork
        }
}

/// The response that a step on `event` appends first, where it appends.
pub open spec fn appended_first(t: TurnView, event: EventView) -> MessageView {
    match t.phase {
        PhaseView::Evaluating(response) => response,
        _ => event->Reply_0,
    }
}

/// What the caller is to do once the turn stands at `t` with the
/// conversation's messages being `messages`: send the evaluator's question,
/// send the conversation to the agent that the choice resolves to, or end
/// the turn.
pub open spec fn action_for<A: ChatAgent>(
    t: TurnView,
    messages: Seq<MessageView>,
    orchestrator: &Orchestrator,
    agents: &AgentManager<A>,
) -> ActionView {
    match t.phase {
        PhaseView::Complete(response) => ActionView::Finish(response),
        PhaseView::IterationLimitReached(response) => ActionView::Finish(response),
        PhaseView::Evaluating(response) => ActionView::Send(
            orchestrator.agent_spec().request_spec(
                seq![
                    agent::system_message_of(orchestrator.agent_spec().prompt_spec()),
                    orchestrator::evaluation_question(t.input, response.content),
                ],
            ),
        ),
        PhaseView::Responding => ActionView::Send(
            agents.resolved(t.choice)->Some_0.request_spec(messages),
        ),
        _ => ActionView::Abort,
    }
}

impl Turn {
    /// Where the turn stands.
    pub fn phase(&self) -> (p: &Phase)
        ensures
            p@ == self@.phase,
    {
        &self.phase
    }

    /// How many refinements were asked for so far.
    pub fn iterations(&self) -> (n: usize)
        ensures
            n == self@.iterations,
    {
        self.iterations
    }

    /// The name that the router's reply was read as; empty before routing.
    pub fn choice(&self) -> (r: &str)
        ensures
            r@ == self@.choice,
    {
        self.choice.as_str()
    }

    /// Whether the turn is over.
    pub fn is_over(&self) -> (b: bool)
        ensures
            b == over(self@.phase),
    {
        match &self.phase {
            Phase::Complete(_) => true,
            Phase::IterationLimitReached(_) => true,
            Phase::Failed => true,
            _ => false,
        }
    }

    /// Begins a turn on `input`: appends the input to the conversation as a
    /// user message, saves, and hands out the request to the router, which
    /// carries the orchestrator's persona and then the conversation as it
    /// stands with the input in it.
    ///
    /// Without a conversation nothing happens and `NoConversation` comes
    /// back. Where the store fails, the input is appended all the same.
    pub fn begin<S: Storage>(
        orchestrator: &Orchestrator,
        state: &mut StateManager<S>,
        input: &str,
    ) -> (r: Result<(Turn, Action), TurnError>)
        ensures
            final(state).store() == old(state).store(),
            old(state).current() is None ==> r matches Err(TurnError::NoConversation),
            old(state).current() is Some ==> (r is Ok || r matches Err(TurnError::Storage(_))),
            r matches Err(TurnError::NoConversation) ==> final(state).current() is None,
            r is Ok ==> final(state).stored(),
            r matches Err(TurnError::Storage(e)) ==> final(state).save_outcome(Err(e)),
            !(r matches Err(TurnError::NoConversation)) ==> final(state).current()
                == crate::state_manager::appended(old(state).current(), user_message_of(input@)),
            r matches Ok((turn, action)) ==> ({
                &&& turn@ == (TurnView {
                    input: input@,
                    choice: Seq::<char>::empty(),
                    iterations: 0,
                    max_iterations: orchestrator.max_spec() as nat,
                    phase: PhaseView::Routing,
                })
                &&& action@ == ActionView::Send(
                    orchestrator.agent_spec().request_spec(
                        orchestrator::routing_messages(
                            orchestrator.agent_spec(),
                            messages_of(final(state).current()),
                        ),
                    ),
                )
            }),
    {
        if !state.has_conversation() {
            return Err(TurnError::NoConversation);
        }
        let user_message = Message { role: "user".to_owned(), content: input.to_owned() };
        match state.add_message(user_message) {
            Err(e) => {
                return Err(TurnError::Storage(e));
            },
            Ok(_) => {},
        }
        let request = match state.conversation() {
            Some(conversation) => orchestrator.routing_request(conversation.messages.as_slice()),
            None => {
                return Err(TurnError::NoConversation);
            },
        };
        let turn = Turn {
            input: input.to_owned(),
            choice: String::new(),
            iterations: 0,
            max_iterations: orchestrator.max_iterations(),
            phase: Phase::Routing,
        };
        Ok((turn, Action::Send(request)))
    }

    /// Takes one step: reads `event` as the outcome of the request last
    /// handed out, changes the conversation as the phase asks, and says
    /// what the caller is to do next.
    ///
    /// - A turn that is over takes no step: `Finished`.
    /// - A backend failure ends the turn: `Abort`, with nothing appended.
    /// - A reply needs a conversation to work on, else `NoConversation`;
    ///   and where an agent is to be addressed, a registered agent, else
    ///   `NoAgent`. Neither changes anything.
    /// - Otherwise the step succeeds as `next_turn`, `next_messages` and
    ///   `action_for` say, unless it saves and the store fails: then the
    ///   turn has failed, with the response appended and, in a
    ///   refinement, perhaps the follow-up too.
    pub fn step<A: ChatAgent, S: Storage>(
        &mut self,
        orchestrator: &Orchestrator,
        agents: &AgentManager<A>,
        state: &mut StateManager<S>,
        event: Event,
    ) -> (r: Result<Action, TurnError>)
        ensures
            final(state).store() == old(state).store(),
            (match r {
                Err(TurnError::Finished) => {
                    &&& over(old(self)@.phase)
                    &&& final(self)@ == old(self)@
                    &&& final(state).current() == old(state).current()
                },
                Err(TurnError::NoConversation) => {
                    &&& !over(old(self)@.phase)
                    &&& event@ is Reply
                    &&& old(state).current() is None
                    &&& final(self)@ == old(self)@
                    &&& final(state).current() == old(state).current()
                },
                Err(TurnError::NoAgent) => {
                    &&& !over(old(self)@.phase)
                    &&& old(state).current() is Some
                    &&& needs_agent(old(self)@, event@)
                    &&& agents.agents().len() == 0
                    &&& final(self)@ == old(self)@
                    &&& final(state).current() == old(state).current()
                },
                Err(TurnError::Storage(e)) => {
                    &&& final(state).save_outcome(Err(e))
                    &&& !over(old(self)@.phase)
                    &&& old(state).current() is Some
                    &&& saves(old(self)@, event@)
                    &&& !(needs_agent(old(self)@, event@) && agents.agents().len() == 0)
                    &&& final(self)@ == (TurnView { phase: PhaseView::Failed, ..old(self)@ })
                    &&& {
                        let before = messages_of(old(state).current());
                        let first = before.push(appended_first(old(self)@, event@));
                        ||| final(state).current() == with_messages(old(state).current(), first)
                        ||| (refines(old(self)@, event@->Reply_0) && final(state).current()
                            == with_messages(
                            old(state).current(),
                            next_messages(old(self)@, before, event@),
                        ))
                    }
                },
                Ok(action) => {
                    &&& !over(old(self)@.phase)
                    &&& event@ is Reply ==> old(state).current() is Some
                    &&& !(needs_agent(old(self)@, event@) && agents.agents().len() == 0)
                    &&& final(self)@ == next_turn(
                        old(self)@,
                        event@,
                        orchestrator::names_of(orchestrator.agents_spec()),
                    )
                    &&& final(state).current() == with_messages(
                        old(state).current(),
                        next_messages(old(self)@, messages_of(old(state).current()), event@),
                    )
                    &&& action@ == action_for(
                        final(self)@,
                        messages_of(final(state).current()),
                        orchestrator,
                        agents,
                    )
                },
            }),
            r is Ok && saves(old(self)@, event@) ==> final(state).stored(),
            r is Ok && event@ is Reply && refines(old(self)@, event@->Reply_0) ==> final(state).stored_as(
                ConversationView {
                    title: old(state).current()->Some_0.title,
                    messages: messages_of(old(state).current()).push(
                        appended_first(old(self)@, event@),
                    ),
                },
            ),
            over(old(self)@.phase) ==> r matches Err(TurnError::Finished),
            !over(old(self)@.phase) && event@ is Reply && old(state).current() is None ==> r matches Err(
                TurnError::NoConversation,
            ),
            !over(old(self)@.phase) && old(state).current() is Some && needs_agent(
                old(self)@,
                event@,
            ) && agents.agents().len() == 0 ==> r matches Err(TurnError::NoAgent),
            !over(old(self)@.phase) && (event@ is Failure || (old(state).current() is Some && !(
                needs_agent(old(self)@, event@) && agents.agents().len() == 0) && !saves(
                old(self)@,
                event@,
            ))) ==> r is Ok,
    {
        if self.is_over() {
            return Err(TurnError::Finished);
        }
        let reply = match event {
            Event::Failure => {
                self.phase = Phase::Failed;
                assert(state.current() == with_messages(state.current(), messages_of(state.current())));
                return Ok(Action::Abort);
            },
            Event::Reply(m) => m,
        };
        if !state.has_conversation() {
            return Err(TurnError::NoConversation);
        }
        assert(state.current() == with_messages(state.current(), messages_of(state.current())));
        let mut phase = Phase::Failed;
        core::mem::swap(&mut self.phase, &mut phase);
        match phase {
            Phase::Routing => {
                let choice = orchestrator.route(reply.content.as_str());
                let agent = match agents.resolve(choice.as_str()) {
                    Some(agent) => agent,
                    None => {
                        self.phase = Phase::Routing;
                        return Err(TurnError::NoAgent);
                    },
                };
                let request = match state.conversation() {
                    Some(conversation) => agent.chat(conversation.messages.as_slice()),
                    None => {
                        self.phase = Phase::Routing;
                        return Err(TurnError::NoConversation);
                    },
                };
                self.choice = choice;
                self.phase = Phase::Responding;
                Ok(Action::Send(request))
            },
            Phase::Responding => {
                if self.iterations >= self.max_iterations {
                    let shown = reply.clone();
                    let kept = reply.clone();
                    match state.add_message(reply) {
                        Err(e) => {
                            return Err(TurnError::Storage(e));
                        },
                        Ok(_) => {},
                    }
                    self.phase = Phase::IterationLimitReached(kept);
                    Ok(Action::Finish(shown))
                } else {
                    let request = orchestrator.evaluation_request(
                        self.input.as_str(),
                        reply.content.as_str(),
                    );
                    self.phase = Phase::Evaluating(reply);
                    Ok(Action::Send(request))
                }
            },
            Phase::Evaluating(response) => {
                let decision = orchestrator.evaluate(reply.content.as_str());
                match decision {
                    OrchestratorDecision::NeedsMoreWork(reason) => {
                        if self.iterations < self.max_iterations {
                            let agent = match agents.resolve(self.choice.as_str()) {
                                Some(agent) => agent,
                                None => {
                                    self.phase = Phase::Evaluating(response);
                                    return Err(TurnError::NoAgent);
                                },
                            };
                            match state.add_message(response) {
                                Err(e) => {
                                    return Err(TurnError::Storage(e));
                                },
                                Ok(_) => {},
                            }
                            assert(state.stored_as(state.current()->Some_0)) by {
                                let held = state.held()->Some_0;
                                assert(call_ensures(S::save, (&state.store(), &held), Ok(())));
                            }
                            match state.add_message(orchestrator::follow_up(reason.as_str())) {
                                Err(e) => {
                                    return Err(TurnError::Storage(e));
                                },
                                Ok(_) => {},
                            }
                            let request = match state.conversation() {
                                Some(conversation) => agent.chat(conversation.messages.as_slice()),
                                None => {
                                    return Err(TurnError::NoConversation);
                                },
                            };
                            self.iterations = self.iterations + 1;
                            self.phase = Phase::Responding;
                            Ok(Action::Send(request))
                        } else {
                            let shown = response.clone();
                            let kept = response.clone();
                            match state.add_message(response) {
                                Err(e) => {
                                    return Err(TurnError::Storage(e));
                                },
                                Ok(_) => {},
                            }
                            self.phase = Phase::IterationLimitReached(kept);
                            Ok(Action::Finish(shown))
                        }
                    },
                    _ => {
                        let shown = response.clone();
                        let kept = response.clone();
                        match state.add_message(response) {
                            Err(e) => {
                                return Err(TurnError::Storage(e));
                            },
                            Ok(_) => {},
                        }
                        self.phase = Phase::Complete(kept);
                        Ok(Action::Finish(shown))
                    },
                }
            },
            other => {
                self.phase = other;
                Err(TurnError::Finished)
            },
        }
    }
}

/// Opens the conversation that a first input starts: under `title`, with
/// the persona of the default agent as its first message, and saves it. It
/// takes the place of the current conversation if there is one.
///
/// Without a registered agent nothing happens and `NoAgent` comes back.
/// Where the store fails, the conversation is opened all the same.
pub fn open_conversation<A: ChatAgent, S: Storage>(
    state: &mut StateManager<S>,
    agents: &AgentManager<A>,
    title: String,
) -> (r: Result<(), TurnError>)
    ensures
        final(state).store() == old(state).store(),
        agents.agents().len() == 0 <==> r matches Err(TurnError::NoAgent),
        r matches Err(TurnError::NoAgent) ==> final(state).current() == old(state).current(),
        r is Ok ==> final(state).stored(),
        r matches Err(TurnError::Storage(e)) ==> final(state).save_outcome(Err(e)),
        !(r matches Err(TurnError::NoAgent)) ==> ({
            &&& (r is Ok || (r matches Err(TurnError::Storage(_))))
            &&& final(state).current() == Some(
                ConversationView {
                    title: title@,
                    messages: seq![agents.agents()[0].persona_spec()],
                },
            )
        }),
{
    let persona = match agents.default_agent() {
        Some(agent) => agent.system_message(),
        None => {
            return Err(TurnError::NoAgent);
        },
    };
    state.start_conversation(title, persona);
    match state.save() {
        Ok(_) => Ok(()),
        Err(e) => Err(TurnError::Storage(e)),
    }
}

} // verus!
