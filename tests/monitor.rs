use clipboard_monitor::monitor::{
    process_clipboard_content, update_message, Monitor, MonitoringState, ACTIVE_INTERVAL_MS,
    PAUSED_INTERVAL_MS,
};
use clipboard_monitor::protocol::{InputCommand, OutputMessage};

fn update_fields(m: &OutputMessage) -> (String, usize) {
    match m {
        OutputMessage::ClipboardUpdate { content, length, .. } => (content.clone(), *length),
        other => panic!("expected an update, got {:?}", other),
    }
}

#[test]
fn first_observation_emits_update() {
    let mut monitor = Monitor::new();
    let msgs = monitor.observe("Test Data".to_string());
    assert_eq!(msgs.len(), 1);
    assert_eq!(update_fields(&msgs[0]), ("Test Data".to_string(), 9));
}

#[test]
fn unchanged_clipboard_emits_nothing() {
    let mut monitor = Monitor::new();
    assert_eq!(monitor.observe("same".to_string()).len(), 1);
    assert!(monitor.observe("same".to_string()).is_empty());
}

#[test]
fn each_new_value_emits_one_update_with_its_size() {
    let mut monitor = Monitor::new();
    for text in ["a", "bb", "a", "ünï"] {
        let msgs = monitor.observe(text.to_string());
        assert_eq!(msgs.len(), 1);
        assert_eq!(update_fields(&msgs[0]), (text.to_string(), text.len()));
    }
    assert_eq!(update_fields(&monitor.observe("é".to_string())[0]).1, 2);
}

#[test]
fn markup_emits_update_then_trigger() {
    let text = "<qdrant-search>hello</qdrant-search>";
    let mut monitor = Monitor::new();
    let msgs = monitor.observe(text.to_string());
    assert_eq!(msgs.len(), 2);
    assert_eq!(update_fields(&msgs[0]).0, text);
    assert_eq!(msgs[1], OutputMessage::TriggerXml { xml_payloads: vec![text.to_string()] });
}

#[test]
fn process_reports_hash_even_when_unchanged() {
    let (u, t, h) = process_clipboard_content("hello".to_string(), &None);
    assert!(u.is_some());
    assert!(t.is_none());
    assert_eq!(h, "5d41402abc4b2a76b9719d911017c592");
    let (u2, t2, h2) = process_clipboard_content("hello".to_string(), &Some(h.clone()));
    assert!(u2.is_none() && t2.is_none());
    assert_eq!(h2, h);
}

#[test]
fn update_message_counts_bytes() {
    let m = update_message("日本".to_string(), "t".to_string());
    assert_eq!(
        m,
        OutputMessage::ClipboardUpdate { content: "日本".to_string(), timestamp: "t".to_string(), length: 6 }
    );
}

#[test]
fn state_starts_active_and_follows_commands() {
    let mut state = MonitoringState::new();
    assert!(state.should_read());
    assert_eq!(state.interval_ms(), ACTIVE_INTERVAL_MS);
    state.apply(InputCommand::Pause);
    assert!(!state.should_read());
    assert_eq!(state.interval_ms(), PAUSED_INTERVAL_MS);
    state.apply(InputCommand::Pause);
    assert!(!state.should_read());
    state.apply(InputCommand::Resume);
    assert!(state.should_read());
    state.apply(InputCommand::Resume);
    assert!(state.should_read());
    assert_eq!((ACTIVE_INTERVAL_MS, PAUSED_INTERVAL_MS), (500, 1000));
}

/// Runs one cycle as the polling loop does: nothing is read while paused.
fn cycle(state: &MonitoringState, monitor: &mut Monitor, clipboard: &str) -> Vec<OutputMessage> {
    if state.should_read() {
        monitor.observe(clipboard.to_string())
    } else {
        Vec::new()
    }
}

#[test]
fn pause_suppresses_updates_until_resume() {
    let mut state = MonitoringState::new();
    let mut monitor = Monitor::new();
    assert_eq!(cycle(&state, &mut monitor, "before").len(), 1);
    state.apply(InputCommand::Pause);
    assert!(cycle(&state, &mut monitor, "during one").is_empty());
    assert!(cycle(&state, &mut monitor, "during two").is_empty());
    state.apply(InputCommand::Resume);
    let msgs = cycle(&state, &mut monitor, "after");
    assert_eq!(msgs.len(), 1);
    assert_eq!(update_fields(&msgs[0]).0, "after");
}

#[test]
fn change_reverted_during_pause_is_invisible() {
    let mut state = MonitoringState::new();
    let mut monitor = Monitor::new();
    assert_eq!(cycle(&state, &mut monitor, "kept").len(), 1);
    state.apply(InputCommand::Pause);
    assert!(cycle(&state, &mut monitor, "transient").is_empty());
    state.apply(InputCommand::Resume);
    assert!(cycle(&state, &mut monitor, "kept").is_empty());
}

#[test]
fn control_lines_update_state() {
    let mut state = MonitoringState::new();
    assert!(!state.handle_line(""));
    assert!(state.should_read());
    assert!(!state.handle_line(r#"{"command":"pause"}"#));
    assert!(!state.should_read());
    assert!(state.handle_line("not json"));
    assert!(!state.should_read());
    assert!(state.handle_line(r#"{"command":"jump"}"#));
    assert!(!state.should_read());
    assert!(!state.handle_line(r#"{"command":"resume"}"#));
    assert!(state.should_read());
}
