use local_assistant::decision::OrchestratorDecision;

fn reason(d: OrchestratorDecision) -> Option<String> {
    match d {
        OrchestratorDecision::NeedsMoreWork(reason) => Some(reason),
        _ => None,
    }
}

fn is_complete(d: OrchestratorDecision) -> bool {
    matches!(d, OrchestratorDecision::Complete)
}

#[test]
fn reply_complete_is_complete() {
    assert!(is_complete(OrchestratorDecision::from_reply("complete")));
    assert!(is_complete(OrchestratorDecision::from_reply("complete, nothing to add")));
}

#[test]
fn reply_is_trimmed_and_lowercased_before_it_is_read() {
    assert!(is_complete(OrchestratorDecision::from_reply("  Complete. Well done\n")));
    assert!(is_complete(OrchestratorDecision::from_reply("COMPLETE")));
    let d = OrchestratorDecision::from_reply("\n\tINCOMPLETE: Missing Tests  ");
    assert_eq!(reason(d), Some("missing tests".to_string()));
}

#[test]
fn reply_with_reason_is_needs_more_work() {
    let d = OrchestratorDecision::from_reply("incomplete: missing code sample");
    assert_eq!(reason(d), Some("missing code sample".to_string()));
}

#[test]
fn reply_without_marker_uses_default_reason() {
    let d = OrchestratorDecision::from_reply("incomplete");
    assert_eq!(reason(d), Some("needs more work".to_string()));
    let d = OrchestratorDecision::from_reply("incomplete - no colon here");
    assert_eq!(reason(d), Some("needs more work".to_string()));
}

#[test]
fn reason_behind_marker_is_trimmed_and_may_be_empty() {
    let d = OrchestratorDecision::from_reply("incomplete:    too short   ");
    assert_eq!(reason(d), Some("too short".to_string()));
    let d = OrchestratorDecision::from_reply("incomplete:");
    assert_eq!(reason(d), Some(String::new()));
}

#[test]
fn unreadable_reply_is_complete() {
    assert!(is_complete(OrchestratorDecision::from_reply("maybe?")));
    assert!(is_complete(OrchestratorDecision::from_reply("")));
    assert!(is_complete(OrchestratorDecision::from_reply("   ")));
    assert!(is_complete(OrchestratorDecision::from_reply("not complete")));
    assert!(is_complete(OrchestratorDecision::from_reply("in complete: x")));
}

#[test]
fn parse_reads_normalized_text_as_it_is() {
    assert!(is_complete(OrchestratorDecision::parse("complete")));
    // `parse` does not normalize: an upper-case reply is unreadable, hence complete.
    assert!(is_complete(OrchestratorDecision::parse("INCOMPLETE: x")));
    // nor does it trim in front: a leading space makes the reply unreadable.
    assert!(is_complete(OrchestratorDecision::parse(" incomplete: x")));
    assert_eq!(reason(OrchestratorDecision::parse("incomplete: x ")), Some("x".to_string()));
}

#[test]
fn evaluation_never_yields_route_to_agent() {
    for reply in ["complete", "incomplete", "incomplete: a", "route to x", "conversationalist", ""] {
        assert!(!matches!(
            OrchestratorDecision::from_reply(reply),
            OrchestratorDecision::RouteToAgent(_)
        ));
    }
}

#[test]
fn reason_with_characters_of_several_bytes() {
    let d = OrchestratorDecision::from_reply("Incomplete:\u{3000}zu kurz — bitte länger\u{a0}");
    assert_eq!(reason(d), Some("zu kurz — bitte länger".to_string()));
    assert!(is_complete(OrchestratorDecision::from_reply("é")));
    assert!(is_complete(OrchestratorDecision::from_reply("complété")));
    // the prefix is compared character by character: an accent breaks it
    assert_eq!(reason(OrchestratorDecision::from_reply("incomplète")), None);
    assert_eq!(reason(OrchestratorDecision::from_reply("incompleté")), None);
    assert_eq!(reason(OrchestratorDecision::from_reply("incompleteé")), Some("needs more work".to_string()));
    assert_eq!(reason(OrchestratorDecision::from_reply("incomplete:é")), Some("é".to_string()));
}
