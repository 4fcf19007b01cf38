use local_assistant::agent_manager::AgentInfo;
use local_assistant::decision::OrchestratorDecision;
use local_assistant::message::Message;
use local_assistant::orchestrator::{follow_up, pick, Orchestrator};

fn info(name: &str, description: &str) -> AgentInfo {
    AgentInfo { name: name.to_string(), description: description.to_string() }
}

fn orchestrator(agents: Vec<AgentInfo>, max_iterations: usize) -> Orchestrator {
    Orchestrator::new("router".to_string(), "http://host/chat".to_string(), agents, max_iterations)
}

const HEAD: &str = "You are an orchestrator that routes user requests and evaluates responses.\n\nAvailable agents:\n";
const TAIL: &str = "\n\nYou have two jobs:\n\n1. ROUTING: When given a user request (no response yet), decide which agent should handle it.\n   Reply with just the agent name, nothing else.\n\n2. EVALUATING: When given a request AND a response, decide if the request is complete.\n   Reply with either:\n   - \"complete\" if the response fully addresses the request\n   - \"incomplete: <reason>\" if more work is needed\n\nBe concise. One word for routing, one line for evaluation.";

fn persona(o: &Orchestrator) -> String {
    let r = o.evaluation_request("", "");
    r.messages[0].content.clone()
}

#[test]
fn persona_lists_the_agents_one_bullet_per_line() {
    let o = orchestrator(vec![info("conversationalist", "talks"), info("coder", "writes code")], 5);
    assert_eq!(persona(&o), format!("{}- conversationalist: talks\n- coder: writes code{}", HEAD, TAIL));
}

#[test]
fn persona_with_one_agent_and_with_none() {
    let o = orchestrator(vec![info("conversationalist", "For general conversation")], 5);
    assert_eq!(persona(&o), format!("{}- conversationalist: For general conversation{}", HEAD, TAIL));
    let o = orchestrator(Vec::new(), 5);
    assert_eq!(persona(&o), format!("{}{}", HEAD, TAIL));
}

#[test]
fn max_iterations_is_what_was_configured() {
    assert_eq!(orchestrator(Vec::new(), 5).max_iterations(), 5);
    assert_eq!(orchestrator(Vec::new(), 0).max_iterations(), 0);
    assert_eq!(orchestrator(Vec::new(), usize::MAX).max_iterations(), usize::MAX);
}

#[test]
fn route_returns_a_known_name() {
    let o = orchestrator(vec![info("conversationalist", "talks"), info("coder", "codes")], 5);
    assert_eq!(o.route("coder"), "coder");
    assert_eq!(o.route("conversationalist"), "conversationalist");
}

#[test]
fn route_normalizes_the_reply_and_compares_without_case() {
    let o = orchestrator(vec![info("Conversationalist", "talks"), info("Coder", "codes")], 5);
    assert_eq!(o.route("  CODER \n"), "coder");
    assert_eq!(o.route("coder"), "coder");
    assert_eq!(o.route("\tConversationalist"), "conversationalist");
}

#[test]
fn route_falls_back_to_the_first_agent() {
    let o = orchestrator(vec![info("conversationalist", "talks")], 5);
    assert_eq!(o.route("weatherbot"), "conversationalist");
    let o = orchestrator(vec![info("coder", "codes"), info("conversationalist", "talks")], 5);
    assert_eq!(o.route("weatherbot"), "coder");
    assert_eq!(o.route(""), "coder");
    assert_eq!(o.route("coder please"), "coder");
    assert_eq!(o.route("I think the conversationalist"), "coder");
}

#[test]
fn route_without_agents_falls_back_to_conversationalist() {
    let o = orchestrator(Vec::new(), 5);
    assert_eq!(o.route("weatherbot"), "conversationalist");
    assert_eq!(o.route(""), "conversationalist");
}

#[test]
fn pick_prefers_a_known_choice_then_the_fallback() {
    let known = vec!["a".to_string(), "b".to_string()];
    assert_eq!(pick("b".to_string(), &known, Some("first")), "b");
    assert_eq!(pick("c".to_string(), &known, Some("first")), "first");
    assert_eq!(pick("c".to_string(), &known, None), "conversationalist");
    assert_eq!(pick("B".to_string(), &known, None), "conversationalist");
    assert_eq!(pick("a".to_string(), &[], Some("x")), "x");
}

#[test]
fn routing_request_is_the_persona_then_the_conversation() {
    let o = orchestrator(vec![info("conversationalist", "talks")], 5);
    let messages = vec![Message::new("system", "persona"), Message::new("user", "hello")];
    let r = o.routing_request(&messages);
    assert_eq!(r.model, "router");
    assert_eq!(r.url, "http://host/chat");
    assert!(!r.stream);
    assert_eq!(r.messages.len(), 3);
    assert_eq!(r.messages[0].role, "system");
    assert_eq!(r.messages[0].content, format!("{}- conversationalist: talks{}", HEAD, TAIL));
    assert_eq!(r.messages[1].role, "system");
    assert_eq!(r.messages[1].content, "persona");
    assert_eq!(r.messages[2].role, "user");
    assert_eq!(r.messages[2].content, "hello");
    // the messages handed in stay as they are
    assert_eq!(messages.len(), 2);
    assert_eq!(messages[0].content, "persona");
    assert_eq!(messages[1].content, "hello");
}

#[test]
fn routing_request_without_a_conversation_is_the_persona_alone() {
    let o = orchestrator(Vec::new(), 5);
    let r = o.routing_request(&[]);
    assert_eq!(r.messages.len(), 1);
    assert_eq!(r.messages[0].role, "system");
    assert_eq!(r.messages[0].content, format!("{}{}", HEAD, TAIL));
}

#[test]
fn evaluation_request_is_the_persona_and_the_question() {
    let o = orchestrator(vec![info("conversationalist", "talks")], 5);
    let r = o.evaluation_request("write a poem", "Roses are red");
    assert_eq!(r.model, "router");
    assert!(!r.stream);
    assert_eq!(r.messages.len(), 2);
    assert_eq!(r.messages[0].role, "system");
    assert_eq!(r.messages[0].content, format!("{}- conversationalist: talks{}", HEAD, TAIL));
    assert_eq!(r.messages[1].role, "user");
    assert_eq!(
        r.messages[1].content,
        "Original request: write a poem\n\nResponse: Roses are red\n\nIs this complete?"
    );
}

#[test]
fn follow_up_names_the_issue() {
    let m = follow_up("too short");
    assert_eq!(m.role, "user");
    assert_eq!(m.content, "Please elaborate on your previous response. The issue: too short");
    assert_eq!(follow_up("").content, "Please elaborate on your previous response. The issue: ");
}

#[test]
fn evaluate_reads_the_reply() {
    let o = orchestrator(Vec::new(), 5);
    assert!(matches!(o.evaluate("complete"), OrchestratorDecision::Complete));
    assert!(matches!(o.evaluate("maybe?"), OrchestratorDecision::Complete));
    match o.evaluate("incomplete: missing code sample") {
        OrchestratorDecision::NeedsMoreWork(reason) => assert_eq!(reason, "missing code sample"),
        _ => panic!("more work was asked for"),
    }
    match o.evaluate("Incomplete") {
        OrchestratorDecision::NeedsMoreWork(reason) => assert_eq!(reason, "needs more work"),
        _ => panic!("more work was asked for"),
    }
}
