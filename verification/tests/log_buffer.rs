use openvpn3_gui_rs::log_buffer::{ClockTime, LogBuffer, LogEntry, MAX_LOG_ENTRIES};

fn make_entry(session: &str, config: &str, cat: u32, msg: &str) -> LogEntry {
    LogEntry {
        timestamp: ClockTime::new(12 * 3600, 0).unwrap(),
        session_path: session.to_string(),
        config_name: config.to_string(),
        category: cat,
        message: msg.to_string(),
    }
}

#[test]
fn test_push_and_query() {
    let mut buffer = LogBuffer::new();

    buffer.push_entry(make_entry("/sess/1", "Work", 4, "hello"));
    buffer.push_entry(make_entry("/sess/2", "Home", 5, "warning"));
    buffer.push_entry(make_entry("/sess/1", "Work", 4, "world"));

    let s1 = buffer.entries_for_session("/sess/1");
    assert_eq!(s1.len(), 2);
    assert_eq!(s1[0].message, "hello");
    assert_eq!(s1[1].message, "world");

    let s2 = buffer.entries_for_session("/sess/2");
    assert_eq!(s2.len(), 1);
    assert_eq!(s2[0].message, "warning");

}

#[test]
fn test_sessions_with_logs() {
    let mut buffer = LogBuffer::new();

    buffer.push_entry(make_entry("/sess/1", "Work", 4, "a"));
    buffer.push_entry(make_entry("/sess/2", "Home", 4, "b"));

    let sessions = buffer.sessions_with_logs();
    assert_eq!(sessions.len(), 2);

    let names: Vec<&str> = sessions.iter().map(|(_, n)| n.as_str()).collect();
    assert!(names.contains(&"Work"));
    assert!(names.contains(&"Home"));

}

#[test]
fn test_eviction() {
    let mut buffer = LogBuffer::new();
    for i in 0..MAX_LOG_ENTRIES + 100 {
        buffer.push_entry(make_entry("/sess/1", "Work", 4, &format!("msg-{}", i)));
    }

    assert!(buffer.len() <= MAX_LOG_ENTRIES);
    assert!(!buffer.entry(0).message.starts_with("msg-0"));

}
