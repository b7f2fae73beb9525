use launch_plan_bot::config::{setting_or, Config};
use launch_plan_bot::prompt::{compose_prompt, compose_trimmed};
use launch_plan_bot::relay::{
    context_or_empty, conversation_id, prepare_request, reply_text, CompletionOutcome,
};
use launch_plan_bot::status::{append_decimal, status_for_trimmed, status_message};

const APOLOGY: &str = "⚠️ Sorry, I couldn't process that request.";

#[test]
fn compose_with_context_uses_template() {
    let p = compose_prompt("Phase 1 launches Monday.", "What's the status?");
    assert_eq!(
        p,
        "Context (Launch Plan):\nPhase 1 launches Monday.\n\nUser request:\nWhat's the status?"
    );
}

#[test]
fn compose_with_empty_context_is_user_text() {
    assert_eq!(compose_prompt("", "What's the status?"), "What's the status?");
}

#[test]
fn compose_with_blank_context_is_user_text() {
    assert_eq!(compose_prompt(" \n\t  \r\n", "hi there "), "hi there ");
}

#[test]
fn compose_trims_context() {
    let p = compose_prompt("\n  Phase 1 launches Monday.  \n\n", "q");
    assert_eq!(p, "Context (Launch Plan):\nPhase 1 launches Monday.\n\nUser request:\nq");
}

#[test]
fn compose_keeps_user_text_verbatim() {
    let p = compose_prompt("ctx", "  spaced  ");
    assert_eq!(p, "Context (Launch Plan):\nctx\n\nUser request:\n  spaced  ");
}

#[test]
fn compose_is_deterministic() {
    let a = compose_prompt(" plan ", "ask");
    let b = compose_prompt(" plan ", "ask");
    assert_eq!(a, b);
}

#[test]
fn compose_trimmed_empty_and_nonempty() {
    assert_eq!(compose_trimmed("", "u"), "u");
    assert_eq!(compose_trimmed("c", "u"), "Context (Launch Plan):\nc\n\nUser request:\nu");
}

#[test]
fn conversation_id_joins_with_hyphen() {
    assert_eq!(
        conversation_id("secondstate", "collaborative-chat"),
        "secondstate-collaborative-chat"
    );
    assert_eq!(conversation_id("", ""), "-");
}

#[test]
fn conversation_id_distinct_pairs_differ() {
    assert_ne!(conversation_id("ws", "a"), conversation_id("ws", "b"));
    assert_ne!(conversation_id("ws1", "a"), conversation_id("ws2", "a"));
}

#[test]
fn conversation_id_hyphen_in_workspace_can_collide() {
    assert_eq!(conversation_id("a-b", "c"), conversation_id("a", "b-c"));
}

#[test]
fn failed_load_gives_empty_context() {
    assert_eq!(context_or_empty(None), "");
}

#[test]
fn successful_load_keeps_text() {
    assert_eq!(context_or_empty(Some("  plan\n".to_string())), "  plan\n");
}

#[test]
fn success_reply_is_verbatim() {
    assert_eq!(reply_text(CompletionOutcome::Success("Hello".to_string())), "Hello");
    assert_eq!(
        reply_text(CompletionOutcome::Success("Phase 1 launches Monday, as planned.".to_string())),
        "Phase 1 launches Monday, as planned."
    );
}

#[test]
fn failure_reply_is_apology() {
    assert_eq!(reply_text(CompletionOutcome::Failure("timeout".to_string())), APOLOGY);
    assert_eq!(reply_text(CompletionOutcome::Failure("401 unauthorized".to_string())), APOLOGY);
    assert_eq!(reply_text(CompletionOutcome::Failure(String::new())), APOLOGY);
}

#[test]
fn status_for_missing_context_names_path() {
    assert_eq!(
        status_message("", "memory/launch_plan.txt"),
        "⚠️ No launch plan found at 'memory/launch_plan.txt'."
    );
    assert_eq!(
        status_message(" \n ", "memory/launch_plan.txt"),
        "⚠️ No launch plan found at 'memory/launch_plan.txt'."
    );
}

#[test]
fn status_for_loaded_context_counts_bytes() {
    assert_eq!(
        status_message("Phase 1 launches Monday.", "memory/launch_plan.txt"),
        "✅ Launch plan loaded into context (24 chars)."
    );
    assert_eq!(status_message("  abc  ", "p"), "✅ Launch plan loaded into context (7 chars).");
    assert_eq!(status_message("é", "p"), "✅ Launch plan loaded into context (2 chars).");
}

#[test]
fn status_for_trimmed_branches() {
    assert_eq!(status_for_trimmed("", 5, "f.txt"), "⚠️ No launch plan found at 'f.txt'.");
    assert_eq!(status_for_trimmed("x", 1000, "f.txt"), "✅ Launch plan loaded into context (1000 chars).");
}

#[test]
fn decimal_notation() {
    let mut s = String::from("n=");
    append_decimal(&mut s, 0);
    assert_eq!(s, "n=0");
    let mut s = String::new();
    append_decimal(&mut s, 1234567890);
    assert_eq!(s, "1234567890");
    let mut s = String::new();
    append_decimal(&mut s, usize::MAX);
    assert_eq!(s, usize::MAX.to_string());
}

#[test]
fn settings_fall_back_to_defaults() {
    let c = Config::from_settings(None, None, false);
    assert_eq!(c.workspace, "secondstate");
    assert_eq!(c.channel, "collaborative-chat");
    assert_eq!(c.context_path, "memory/launch_plan.txt");
    assert!(!c.diagnostics);
}

#[test]
fn settings_use_given_values() {
    let c = Config::from_settings(Some("acme".to_string()), Some("general".to_string()), true);
    assert_eq!(c.workspace, "acme");
    assert_eq!(c.channel, "general");
    assert!(c.diagnostics);
    assert_eq!(setting_or(None, "d"), "d");
    assert_eq!(setting_or(Some(String::new()), "d"), "");
}

#[test]
fn prepare_status_scenario() {
    let c = Config::from_settings(None, None, true);
    let r = prepare_request(&c, "What's the status?", "Phase 1 launches Monday.");
    assert_eq!(r.conversation_id, "secondstate-collaborative-chat");
    assert_eq!(
        r.prompt,
        "Context (Launch Plan):\nPhase 1 launches Monday.\n\nUser request:\nWhat's the status?"
    );
    assert_eq!(r.system_prompt, "You are a helpful assistant inside Slack.");
    assert_eq!(r.status.as_deref(), Some("✅ Launch plan loaded into context (24 chars)."));
    let reply = reply_text(CompletionOutcome::Success("Phase 1 launches Monday, as planned.".to_string()));
    assert_eq!(reply, "Phase 1 launches Monday, as planned.");
}

#[test]
fn prepare_missing_context_scenario() {
    let c = Config::from_settings(None, None, true);
    let r = prepare_request(&c, "What's the status?", &context_or_empty(None));
    assert_eq!(r.prompt, "What's the status?");
    let status = r.status.unwrap();
    assert!(status.contains("memory/launch_plan.txt"));
    assert!(!status.contains("chars"));
}

#[test]
fn prepare_without_diagnostics_has_no_status() {
    let c = Config::from_settings(Some("w".to_string()), Some("c".to_string()), false);
    let r = prepare_request(&c, "hi", "");
    assert_eq!(r.conversation_id, "w-c");
    assert_eq!(r.prompt, "hi");
    assert!(r.status.is_none());
}
