use dabot::handler::handle_incoming;
use dabot::policy::TriggerPolicy;
use dabot::request::build_request;
use dabot::request::first_choice_content;
use dabot::request::reply_for_outcome;
use dabot::request::CompletionError;
use dabot::request::Role;
use dabot::request::MAX_REPLY_TOKENS;
use dabot::request::MODEL_NAME;
use dabot::store::ConversationStore;

const TOKEN: &str = "@rhymedabot";

#[test]
fn new_store_is_empty() {
    let store = ConversationStore::new(3);
    assert_eq!(store.len(), 0);
    assert_eq!(store.capacity(), 3);
    assert_eq!(store.pending_count(), 0);
    assert_eq!(store.snapshot(), Vec::<String>::new());
}

#[test]
fn capacity_three_keeps_last_three() {
    let mut store = ConversationStore::new(3);
    for text in ["a", "b", "c", "d"] {
        store.append(text.to_string());
        assert!(store.len() <= store.capacity());
    }
    assert_eq!(store.snapshot(), vec!["b".to_string(), "c".to_string(), "d".to_string()]);
}

#[test]
fn capacity_five_keeps_last_five() {
    let mut store = ConversationStore::new(5);
    for text in ["a", "b", "c", "d", "e", "f", "g"] {
        store.append(text.to_string());
        assert!(store.len() <= store.capacity());
    }
    assert_eq!(
        store.snapshot(),
        vec!["c".to_string(), "d".to_string(), "e".to_string(), "f".to_string(), "g".to_string()]
    );
}

#[test]
fn append_under_capacity_keeps_everything() {
    let mut store = ConversationStore::new(3);
    store.append("a".to_string());
    store.append("b".to_string());
    assert_eq!(store.snapshot(), vec!["a".to_string(), "b".to_string()]);
}

#[test]
fn pending_counter_saturates() {
    let mut store = ConversationStore::new(1);
    for _ in 0..255 {
        store.increment_pending();
    }
    assert_eq!(store.pending_count(), 255);
    store.increment_pending();
    assert_eq!(store.pending_count(), 255);
    store.reset_pending();
    assert_eq!(store.pending_count(), 0);
}

#[test]
fn counter_variant_fourth_message_triggers() {
    let mut store = ConversationStore::new(3);
    let policy = TriggerPolicy::CounterThreshold;
    for text in ["m1", "m2", "m3"] {
        let sent = handle_incoming(&mut store, &policy, text.to_string(), TOKEN, false);
        assert!(sent.is_none());
    }
    assert_eq!(store.pending_count(), 3);
    let sent = handle_incoming(&mut store, &policy, "m4".to_string(), TOKEN, false);
    // The oldest entry of the appended history is evicted before the
    // request snapshot is taken, and the counter resets.
    assert_eq!(sent, Some(vec!["m3".to_string(), "m4".to_string()]));
    assert_eq!(store.pending_count(), 0);
    assert_eq!(store.snapshot(), vec!["m3".to_string(), "m4".to_string()]);
}

#[test]
fn counter_policy_ignores_mention_and_draw() {
    let mut store = ConversationStore::new(3);
    let policy = TriggerPolicy::CounterThreshold;
    let sent = handle_incoming(&mut store, &policy, format!("hi {TOKEN}"), TOKEN, true);
    assert!(sent.is_none());
    assert_eq!(store.pending_count(), 1);
}

#[test]
fn empty_history_never_triggers() {
    let policy = TriggerPolicy::ProbabilisticOrMention;
    let empty: Vec<String> = Vec::new();
    assert!(!policy.evaluate(&empty, 0, TOKEN, true));
    assert!(!policy.evaluate(&empty, 0, TOKEN, false));
    let policy = TriggerPolicy::MentionAddressing;
    assert!(!policy.evaluate(&empty, 0, TOKEN, true));
}

#[test]
fn mention_fires_whatever_the_draw() {
    let policy = TriggerPolicy::ProbabilisticOrMention;
    let history = vec!["hello".to_string(), format!("ну что, {TOKEN}?")];
    assert!(policy.evaluate(&history, 0, TOKEN, false));
    assert!(policy.evaluate(&history, 0, TOKEN, true));
}

#[test]
fn winning_draw_fires_without_mention() {
    let policy = TriggerPolicy::ProbabilisticOrMention;
    let history = vec!["hello".to_string()];
    assert!(policy.evaluate(&history, 0, TOKEN, true));
    assert!(!policy.evaluate(&history, 0, TOKEN, false));
}

#[test]
fn mention_counts_only_in_last_message() {
    let policy = TriggerPolicy::MentionAddressing;
    let history = vec![format!("{TOKEN} hi"), "plain".to_string()];
    assert!(!policy.evaluate(&history, 0, TOKEN, true));
    let history = vec!["plain".to_string(), format!("hi {TOKEN}")];
    assert!(policy.evaluate(&history, 0, TOKEN, false));
}

#[test]
fn counter_policy_threshold_boundary() {
    let policy = TriggerPolicy::CounterThreshold;
    let history = vec!["a".to_string()];
    assert!(!policy.evaluate(&history, 2, TOKEN, true));
    assert!(policy.evaluate(&history, 3, TOKEN, false));
    assert!(policy.evaluate(&history, 4, TOKEN, false));
}

#[test]
fn probabilistic_turn_sends_current_history() {
    let mut store = ConversationStore::new(3);
    let policy = TriggerPolicy::ProbabilisticOrMention;
    let sent = handle_incoming(&mut store, &policy, "hey".to_string(), TOKEN, true);
    assert_eq!(sent, Some(vec!["hey".to_string()]));
    let sent = handle_incoming(&mut store, &policy, "quiet".to_string(), TOKEN, false);
    assert_eq!(sent, None);
    assert_eq!(store.snapshot(), vec!["hey".to_string(), "quiet".to_string()]);
}

#[test]
fn mention_addressing_turn_replies_with_snapshot() {
    let mut store = ConversationStore::new(3);
    let policy = TriggerPolicy::MentionAddressing;
    let sent = handle_incoming(&mut store, &policy, "a".to_string(), TOKEN, true);
    assert_eq!(sent, None);
    let sent = handle_incoming(&mut store, &policy, format!("{TOKEN} привет"), TOKEN, false);
    assert_eq!(sent, Some(vec!["a".to_string(), format!("{TOKEN} привет")]));
}

#[test]
fn request_lists_persona_then_history_in_order() {
    let history = vec!["a".to_string(), "b".to_string()];
    let req = build_request(&history, "persona");
    assert_eq!(req.model, MODEL_NAME.to_string());
    assert_eq!(req.model, "gpt-4o".to_string());
    assert_eq!(req.max_tokens, MAX_REPLY_TOKENS);
    assert_eq!(req.max_tokens, 512);
    assert_eq!(req.messages.len(), 3);
    assert_eq!(req.messages[0].role, Role::System);
    assert_eq!(req.messages[0].content, "persona".to_string());
    assert_eq!(req.messages[1].role, Role::User);
    assert_eq!(req.messages[1].content, "a".to_string());
    assert_eq!(req.messages[2].role, Role::User);
    assert_eq!(req.messages[2].content, "b".to_string());
}

#[test]
fn request_construction_is_idempotent() {
    let history = vec!["x".to_string(), "y".to_string(), "z".to_string()];
    let first = build_request(&history, "persona");
    let second = build_request(&history, "persona");
    assert_eq!(first.model, second.model);
    assert_eq!(first.max_tokens, second.max_tokens);
    assert_eq!(first.messages.len(), second.messages.len());
    for (a, b) in first.messages.iter().zip(second.messages.iter()) {
        assert_eq!(a.role, b.role);
        assert_eq!(a.content, b.content);
    }
}

#[test]
fn empty_history_request_has_only_persona() {
    let history: Vec<String> = Vec::new();
    let req = build_request(&history, "p");
    assert_eq!(req.messages.len(), 1);
    assert_eq!(req.messages[0].role, Role::System);
    assert_eq!(req.messages[0].content, "p".to_string());
}

#[test]
fn first_choice_is_read_with_defaults() {
    assert_eq!(first_choice_content(&Vec::new()), String::new());
    assert_eq!(first_choice_content(&vec![None]), String::new());
    assert_eq!(
        first_choice_content(&vec![Some("да".to_string()), Some("нет".to_string())]),
        "да".to_string()
    );
}

#[test]
fn completion_failure_means_no_outbound_message() {
    assert_eq!(reply_for_outcome(Err(CompletionError::RequestBuild)), None);
    assert_eq!(reply_for_outcome(Err(CompletionError::Network)), None);
    assert_eq!(reply_for_outcome(Err(CompletionError::BadResponse)), None);
    assert_eq!(reply_for_outcome(Ok("ответ".to_string())), Some("ответ".to_string()));
}
