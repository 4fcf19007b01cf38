use local_assistant::agent::Agent;
use local_assistant::agent_manager::{AgentInfo, AgentManager};
use local_assistant::chat_agent::ChatAgent;
use local_assistant::conversationalist::Conversationalist;
use local_assistant::labeler::Labeler;
use local_assistant::message::Message;

fn agent(name: &str, description: &str) -> Conversationalist {
    Conversationalist::new(
        format!("model-{}", name),
        "http://localhost:11434/api/chat".to_string(),
        format!("You are {}", name),
        name.to_string(),
        description.to_string(),
    )
}

fn pairs(infos: &[AgentInfo]) -> Vec<(String, String)> {
    infos.iter().map(|i| (i.name.clone(), i.description.clone())).collect()
}

#[test]
fn agent_keeps_what_it_was_made_with() {
    let a = Agent::new("llama".to_string(), "http://host/chat".to_string(), "Be kind".to_string());
    assert_eq!(a.model(), "llama");
    assert_eq!(a.url(), "http://host/chat");
    let m = a.system_message();
    assert_eq!(m.role, "system");
    assert_eq!(m.content, "Be kind");
}

#[test]
fn agent_chat_request_carries_the_messages_unchanged() {
    let a = Agent::new("llama".to_string(), "http://host/chat".to_string(), "Be kind".to_string());
    let messages = vec![Message::new("system", "p"), Message::new("user", "q")];
    let r = a.chat(&messages);
    assert_eq!(r.url, "http://host/chat");
    assert_eq!(r.model, "llama");
    assert!(!r.stream);
    assert_eq!(r.messages.len(), 2);
    assert_eq!(r.messages[0].role, "system");
    assert_eq!(r.messages[0].content, "p");
    assert_eq!(r.messages[1].role, "user");
    assert_eq!(r.messages[1].content, "q");
    // the persona is not added: an agent sends what it is handed
    assert!(a.chat(&[]).messages.is_empty());
}

#[test]
fn conversationalist_is_a_chat_agent() {
    let c = agent("conversationalist", "For general conversation");
    assert_eq!(c.name(), "conversationalist");
    assert_eq!(c.description(), "For general conversation");
    assert_eq!(c.model(), "model-conversationalist");
    assert_eq!(c.url(), "http://localhost:11434/api/chat");
    let m = c.system_message();
    assert_eq!(m.role, "system");
    assert_eq!(m.content, "You are conversationalist");
    let r = c.chat(&[Message::new("user", "hi")]);
    assert_eq!(r.model, "model-conversationalist");
    assert_eq!(r.messages.len(), 1);
    assert_eq!(r.messages[0].content, "hi");
    assert!(!r.stream);
}

#[test]
fn labeler_asks_with_its_persona_then_the_message() {
    let l = Labeler::new("tiny".to_string(), "http://host/chat".to_string(), "Name it".to_string());
    let r = l.label_conversation(&Message::new("user", "plan a trip"));
    assert_eq!(r.model, "tiny");
    assert_eq!(r.url, "http://host/chat");
    assert!(!r.stream);
    assert_eq!(r.messages.len(), 2);
    assert_eq!(r.messages[0].role, "system");
    assert_eq!(r.messages[0].content, "Name it");
    assert_eq!(r.messages[1].role, "user");
    assert_eq!(r.messages[1].content, "plan a trip");
}

#[test]
fn empty_registry_has_nothing() {
    let m: AgentManager<Conversationalist> = AgentManager::new();
    assert_eq!(m.len(), 0);
    assert!(m.get("conversationalist").is_none());
    assert!(m.default_agent().is_none());
    assert!(m.resolve("conversationalist").is_none());
    assert!(m.list().is_empty());
    let d: AgentManager<Conversationalist> = AgentManager::default();
    assert_eq!(d.len(), 0);
}

#[test]
fn registry_lookup_is_exact_and_case_sensitive() {
    let mut m = AgentManager::new();
    m.register(agent("conversationalist", "talks"));
    m.register(agent("coder", "codes"));
    assert_eq!(m.len(), 2);
    assert_eq!(m.get("coder").map(|a| a.description().to_string()), Some("codes".to_string()));
    assert_eq!(m.get("conversationalist").map(|a| a.name().to_string()), Some("conversationalist".to_string()));
    assert!(m.get("Coder").is_none());
    assert!(m.get("code").is_none());
    assert!(m.get(" coder").is_none());
    assert!(m.get("").is_none());
}

#[test]
fn registering_a_name_again_replaces_the_agent_in_place() {
    let mut m = AgentManager::new();
    m.register(agent("a", "first a"));
    m.register(agent("b", "first b"));
    m.register(agent("a", "second a"));
    assert_eq!(m.len(), 2);
    assert_eq!(m.get("a").map(|a| a.description().to_string()), Some("second a".to_string()));
    assert_eq!(
        pairs(&m.list()),
        vec![("a".to_string(), "second a".to_string()), ("b".to_string(), "first b".to_string())]
    );
    assert_eq!(m.default_agent().map(|a| a.description().to_string()), Some("second a".to_string()));
}

#[test]
fn default_agent_is_the_first_registered() {
    let mut m = AgentManager::new();
    m.register(agent("zeta", "z"));
    m.register(agent("alpha", "a"));
    assert_eq!(m.default_agent().map(|a| a.name().to_string()), Some("zeta".to_string()));
}

#[test]
fn resolve_falls_back_to_the_default_agent() {
    let mut m = AgentManager::new();
    m.register(agent("conversationalist", "talks"));
    m.register(agent("coder", "codes"));
    assert_eq!(m.resolve("coder").map(|a| a.name().to_string()), Some("coder".to_string()));
    assert_eq!(m.resolve("weatherbot").map(|a| a.name().to_string()), Some("conversationalist".to_string()));
}

#[test]
fn list_gives_name_and_description_of_each_agent() {
    let mut m = AgentManager::new();
    m.register(agent("conversationalist", "For general conversation"));
    let infos = m.list();
    assert_eq!(infos.len(), 1);
    assert_eq!(infos[0].name, "conversationalist");
    assert_eq!(infos[0].description, "For general conversation");
}

#[test]
fn get_mut_hands_out_the_registered_agent() {
    let mut m = AgentManager::new();
    m.register(agent("a", "old"));
    assert!(m.get_mut("b").is_none());
    match m.get_mut("a") {
        Some(slot) => *slot = agent("renamed", "new"),
        None => panic!("a is registered"),
    }
    // the key stays; the listing shows the agent as it now is
    assert_eq!(m.len(), 1);
    assert_eq!(m.get("a").map(|a| a.description().to_string()), Some("new".to_string()));
    assert!(m.get("renamed").is_none());
    assert_eq!(pairs(&m.list()), vec![("renamed".to_string(), "new".to_string())]);
}
