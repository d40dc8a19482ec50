use webdriver_bidi::logbuf::{LogBuffer, LogEntry};

fn entry(text: &str) -> LogEntry {
    let mut params = serde_json::Map::new();
    params.insert("text".to_string(), serde_json::Value::String(text.to_string()));
    LogEntry {
        method: "log.entryAdded".into(),
        params: serde_json::Value::Object(params),
    }
}

#[test]
fn drains_in_order() {
    let mut b = LogBuffer::new(10);
    b.push(entry("a"));
    b.push(entry("b"));
    let d = b.drain(None);
    assert_eq!(d.entries.len(), 2);
    assert_eq!(d.entries[0].params["text"], "a");
    assert_eq!(d.dropped, 0);
}

#[test]
fn drain_empties_the_buffer() {
    let mut b = LogBuffer::new(10);
    b.push(entry("a"));
    assert_eq!(b.drain(None).entries.len(), 1);
    assert_eq!(b.drain(None).entries.len(), 0);
}

#[test]
fn drops_oldest_when_full_and_counts() {
    let mut b = LogBuffer::new(2);
    b.push(entry("a"));
    b.push(entry("b"));
    b.push(entry("c")); // evicts "a"
    let d = b.drain(None);
    assert_eq!(d.entries.len(), 2);
    assert_eq!(d.entries[0].params["text"], "b");
    assert_eq!(d.dropped, 1);
}

#[test]
fn dropped_count_resets_after_drain() {
    let mut b = LogBuffer::new(1);
    b.push(entry("a"));
    b.push(entry("b"));
    assert_eq!(b.drain(None).dropped, 1);
    assert_eq!(b.drain(None).dropped, 0);
}

#[test]
fn max_limits_returned_entries_but_keeps_rest() {
    let mut b = LogBuffer::new(10);
    b.push(entry("a"));
    b.push(entry("b"));
    b.push(entry("c"));
    let d = b.drain(Some(2));
    assert_eq!(d.entries.len(), 2);
    let rest = b.drain(None);
    assert_eq!(rest.entries.len(), 1);
    assert_eq!(rest.entries[0].params["text"], "c");
}

#[test]
fn zero_cap_is_treated_as_one() {
    let mut b = LogBuffer::new(0);
    b.push(entry("a"));
    assert_eq!(b.drain(None).entries.len(), 1);
}

#[test]
fn keeps_the_latest_entries_of_a_long_run() {
    let mut b = LogBuffer::new(3);
    for t in ["a", "b", "c", "d", "e", "f", "g"] {
        b.push(entry(t));
    }
    let d = b.drain(None);
    let texts: Vec<&str> = d.entries.iter().map(|e| e.params["text"].as_str().unwrap()).collect();
    assert_eq!(texts, vec!["e", "f", "g"]);
    assert_eq!(d.dropped, 4);
}

#[test]
fn limited_then_full_drain_returns_everything_once() {
    let mut b = LogBuffer::new(5);
    for t in ["a", "b", "c", "d"] {
        b.push(entry(t));
    }
    let first = b.drain(Some(1));
    let second = b.drain(None);
    let texts: Vec<&str> = first
        .entries
        .iter()
        .chain(second.entries.iter())
        .map(|e| e.params["text"].as_str().unwrap())
        .collect();
    assert_eq!(texts, vec!["a", "b", "c", "d"]);
    assert_eq!(b.drain(None).entries.len(), 0);
}

#[test]
fn drain_zero_takes_nothing_but_resets_the_count() {
    let mut b = LogBuffer::new(1);
    b.push(entry("a"));
    b.push(entry("b"));
    let d = b.drain(Some(0));
    assert_eq!(d.entries.len(), 0);
    assert_eq!(d.dropped, 1);
    let rest = b.drain(None);
    assert_eq!(rest.entries.len(), 1);
    assert_eq!(rest.dropped, 0);
}
