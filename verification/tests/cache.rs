use std::collections::HashMap;

use tiny_url::cache::domain::{
    CacheCommand, CacheError, CacheHandler, CacheReply, CacheStep, Pending, TimeToLive,
};
use tiny_url::cache::handler::connection_url;

/// A key/value service that is always reachable and forgets nothing.
fn answer(entries: &mut HashMap<String, String>, command: CacheCommand) -> CacheReply {
    match command {
        CacheCommand::Exists { key } => CacheReply::Count(entries.contains_key(&key) as u8),
        CacheCommand::Get { key } => CacheReply::Text(entries.get(&key).cloned()),
        CacheCommand::SetEx { key, value, .. } => {
            entries.insert(key, value);
            CacheReply::Done
        }
        CacheCommand::Del { key } => {
            entries.remove(&key);
            CacheReply::Done
        }
    }
}

/// Sends `command` and whatever the handler asks for next, to the end.
fn run(
    handler: &mut CacheHandler,
    entries: &mut HashMap<String, String>,
    command: CacheCommand,
) -> CacheStep {
    let mut command = command;
    loop {
        let reply = answer(entries, command);
        match handler.resume(reply) {
            CacheStep::Send(next) => command = next,
            step => return step,
        }
    }
}

fn has(entries: &mut HashMap<String, String>, key: &str) -> bool {
    let mut handler = CacheHandler::new();
    let command = handler.has(key);
    match run(&mut handler, entries, command) {
        CacheStep::Present(found) => found,
        step => panic!("an existence check ended in {:?}", step),
    }
}

fn get(entries: &mut HashMap<String, String>, key: &str) -> Result<String, CacheError> {
    let mut handler = CacheHandler::new();
    let command = handler.get(key);
    match run(&mut handler, entries, command) {
        CacheStep::Value(value) => value,
        step => panic!("a lookup ended in {:?}", step),
    }
}

fn set(entries: &mut HashMap<String, String>, key: &str, value: &str) -> Result<(), CacheError> {
    let mut handler = CacheHandler::new();
    let command = handler.set(key, value)?;
    match run(&mut handler, entries, command) {
        CacheStep::Done(outcome) => outcome,
        step => panic!("a store ended in {:?}", step),
    }
}

fn del(entries: &mut HashMap<String, String>, key: &str) -> Result<(), CacheError> {
    let mut handler = CacheHandler::new();
    let command = handler.del(key);
    match run(&mut handler, entries, command) {
        CacheStep::Done(outcome) => outcome,
        step => panic!("a removal ended in {:?}", step),
    }
}

#[test]
fn lifetimes_in_seconds() {
    assert_eq!(TimeToLive::OneHour.seconds(), 3_600);
    assert_eq!(TimeToLive::OneWeek.seconds(), 604_800);
    assert_eq!(TimeToLive::default(), TimeToLive::OneHour);
}

#[test]
fn error_reads_what_it_was_made_with() {
    assert_eq!(CacheError::new("Cache key not found").description(), "Cache key not found");
    assert_eq!(CacheError::new("").description(), "");
}

#[test]
fn serialization_error_names_the_reason() {
    assert_eq!(
        CacheError::serialization("key must be a string").description(),
        "Failed to serialize value: key must be a string"
    );
    assert_eq!(CacheError::serialization("").description(), "Failed to serialize value: ");
}

#[test]
fn error_from_the_json_library_carries_its_words() {
    let refused = serde_json::from_str::<String>("{").unwrap_err();
    let words = refused.to_string();
    assert!(!words.is_empty());
    let error = CacheError::from(refused);
    assert_eq!(error.description(), format!("Failed to serialize value: {}", words));
}

#[test]
fn new_handler_waits_for_nothing() {
    let mut handler = CacheHandler::new();
    assert_eq!(handler.pending, Pending::Nothing);
    assert_eq!(handler.resume(CacheReply::Done), CacheStep::Idle);
    assert_eq!(handler.resume(CacheReply::Text(Some("\"x\"".to_string()))), CacheStep::Idle);
    assert_eq!(handler.pending, Pending::Nothing);
}

#[test]
fn has_asks_whether_the_key_exists() {
    let mut handler = CacheHandler::new();
    assert_eq!(handler.has("abc"), CacheCommand::Exists { key: "abc".to_string() });
    assert_eq!(handler.pending, Pending::Exists);
    assert_eq!(handler.resume(CacheReply::Count(1)), CacheStep::Present(true));
    assert_eq!(handler.pending, Pending::Nothing);
}

#[test]
fn has_reads_any_count_but_zero_as_presence() {
    for (count, found) in [(0u8, false), (1, true), (2, true), (255, true)] {
        let mut handler = CacheHandler::new();
        let _ = handler.has("abc");
        assert_eq!(handler.resume(CacheReply::Count(count)), CacheStep::Present(found));
    }
}

#[test]
fn has_reads_a_failure_as_absence() {
    for reply in [CacheReply::Failed, CacheReply::Done, CacheReply::Text(None)] {
        let mut handler = CacheHandler::new();
        let _ = handler.has("abc");
        assert_eq!(handler.resume(reply), CacheStep::Present(false));
    }
}

#[test]
fn get_asks_for_the_key_and_reads_the_text() {
    let mut handler = CacheHandler::new();
    assert_eq!(handler.get("abc"), CacheCommand::Get { key: "abc".to_string() });
    assert_eq!(handler.pending, Pending::Get { key: "abc".to_string() });
    assert_eq!(
        handler.resume(CacheReply::Text(Some("\"https://example.com\"".to_string()))),
        CacheStep::Value(Ok("https://example.com".to_string()))
    );
    assert_eq!(handler.pending, Pending::Nothing);
}

#[test]
fn get_undoes_the_escapes_of_the_text() {
    let mut handler = CacheHandler::new();
    let _ = handler.get("abc");
    assert_eq!(
        handler.resume(CacheReply::Text(Some("\"a\\\"b\\\\c\\n\\u00e9\"".to_string()))),
        CacheStep::Value(Ok("a\"b\\c\n\u{e9}".to_string()))
    );
}

#[test]
fn get_of_an_absent_key_is_not_found() {
    let mut handler = CacheHandler::new();
    let _ = handler.get("abc");
    assert_eq!(
        handler.resume(CacheReply::Text(None)),
        CacheStep::Value(Err(CacheError::new("Cache key not found")))
    );
    assert_eq!(handler.pending, Pending::Nothing);
}

#[test]
fn get_gives_an_error_when_the_service_fails() {
    for reply in [CacheReply::Failed, CacheReply::Done, CacheReply::Count(1)] {
        let mut handler = CacheHandler::new();
        let _ = handler.get("abc");
        assert_eq!(
            handler.resume(reply),
            CacheStep::Value(Err(CacheError::new("Failed to get value for cache key")))
        );
        assert_eq!(handler.pending, Pending::Nothing);
    }
}

#[test]
fn get_removes_a_text_it_cannot_read() {
    for text in ["", "https://example.com", "{\"url\":1}", "42", "\"open", "\"a\" \"b\"", "null"] {
        let mut handler = CacheHandler::new();
        let _ = handler.get("abc");
        assert_eq!(
            handler.resume(CacheReply::Text(Some(text.to_string()))),
            CacheStep::Send(CacheCommand::Del { key: "abc".to_string() }),
            "text {:?}",
            text
        );
        assert_eq!(handler.pending, Pending::Invalidate);
        assert_eq!(
            handler.resume(CacheReply::Done),
            CacheStep::Value(Err(CacheError::new("Failed to deserialize value")))
        );
        assert_eq!(handler.pending, Pending::Nothing);
    }
}

#[test]
fn get_ends_in_the_same_error_when_the_removal_fails() {
    let mut handler = CacheHandler::new();
    let _ = handler.get("abc");
    let _ = handler.resume(CacheReply::Text(Some("oops".to_string())));
    assert_eq!(
        handler.resume(CacheReply::Failed),
        CacheStep::Value(Err(CacheError::new("Failed to deserialize value")))
    );
}

#[test]
fn decoded_value_ends_the_lookup() {
    let mut handler = CacheHandler::new();
    let _ = handler.get("abc");
    assert_eq!(
        handler.decoded("abc".to_string(), Some("v".to_string())),
        CacheStep::Value(Ok("v".to_string()))
    );
    assert_eq!(handler.pending, Pending::Nothing);
}

#[test]
fn decoded_nothing_asks_for_the_removal() {
    let mut handler = CacheHandler::new();
    let _ = handler.get("abc");
    assert_eq!(
        handler.decoded("abc".to_string(), None),
        CacheStep::Send(CacheCommand::Del { key: "abc".to_string() })
    );
    assert_eq!(handler.pending, Pending::Invalidate);
}

#[test]
fn set_stores_the_json_text_for_an_hour() {
    let mut handler = CacheHandler::new();
    assert_eq!(
        handler.set("abc", "https://example.com"),
        Ok(CacheCommand::SetEx {
            key: "abc".to_string(),
            seconds: 3_600,
            value: "\"https://example.com\"".to_string(),
        })
    );
    assert_eq!(handler.pending, Pending::Store { key: "abc".to_string() });
    assert_eq!(handler.resume(CacheReply::Done), CacheStep::Done(Ok(())));
    assert_eq!(handler.pending, Pending::Nothing);
}

#[test]
fn set_escapes_what_json_escapes() {
    let mut handler = CacheHandler::new();
    assert_eq!(
        handler.set("k", "a\"b\\c\n"),
        Ok(CacheCommand::SetEx {
            key: "k".to_string(),
            seconds: 3_600,
            value: "\"a\\\"b\\\\c\\n\"".to_string(),
        })
    );
}

#[test]
fn set_ttl_stores_for_the_time_asked() {
    let mut handler = CacheHandler::new();
    assert_eq!(
        handler.set_ttl("abc", "v", TimeToLive::OneWeek),
        Ok(CacheCommand::SetEx {
            key: "abc".to_string(),
            seconds: 604_800,
            value: "\"v\"".to_string(),
        })
    );
    assert_eq!(
        handler.set_ttl("abc", "v", TimeToLive::OneHour),
        Ok(CacheCommand::SetEx {
            key: "abc".to_string(),
            seconds: 3_600,
            value: "\"v\"".to_string(),
        })
    );
}

#[test]
fn set_with_ttl_stores_the_text_as_it_stands() {
    let mut handler = CacheHandler::new();
    assert_eq!(
        handler.set_with_ttl("abc", "{\"n\":1}", TimeToLive::OneWeek),
        CacheCommand::SetEx {
            key: "abc".to_string(),
            seconds: 604_800,
            value: "{\"n\":1}".to_string(),
        }
    );
    assert_eq!(handler.pending, Pending::Store { key: "abc".to_string() });
}

#[test]
fn set_gives_an_error_when_the_service_fails() {
    for reply in [CacheReply::Failed, CacheReply::Count(0), CacheReply::Text(None)] {
        let mut handler = CacheHandler::new();
        let _ = handler.set("abc", "v");
        assert_eq!(
            handler.resume(reply),
            CacheStep::Done(Err(CacheError::new("Failed to set value for cache key: abc")))
        );
    }
}

#[test]
fn del_asks_for_the_removal() {
    let mut handler = CacheHandler::new();
    assert_eq!(handler.del("abc"), CacheCommand::Del { key: "abc".to_string() });
    assert_eq!(handler.pending, Pending::Delete { key: "abc".to_string() });
    assert_eq!(handler.resume(CacheReply::Done), CacheStep::Done(Ok(())));
    assert_eq!(handler.pending, Pending::Nothing);
}

#[test]
fn del_gives_an_error_when_the_service_fails() {
    let mut handler = CacheHandler::new();
    let _ = handler.del("abc");
    assert_eq!(
        handler.resume(CacheReply::Failed),
        CacheStep::Done(Err(CacheError::new("Failed to delete cache key: abc")))
    );
}

#[test]
fn a_new_operation_replaces_the_one_under_way() {
    let mut handler = CacheHandler::new();
    let _ = handler.get("abc");
    let _ = handler.has("abc");
    assert_eq!(handler.resume(CacheReply::Count(1)), CacheStep::Present(true));
}

#[test]
fn del_twice_gives_no_error() {
    let mut entries = HashMap::new();
    entries.insert("abc".to_string(), "\"v\"".to_string());
    assert_eq!(del(&mut entries, "abc"), Ok(()));
    assert!(entries.is_empty());
    assert_eq!(del(&mut entries, "abc"), Ok(()));
    assert!(entries.is_empty());
    assert_eq!(del(&mut entries, "never there"), Ok(()));
}

#[test]
fn set_then_get_gives_the_value_back() {
    let values = [
        "https://example.com",
        "",
        "with \"quotes\" and \\ backslashes",
        "line\nbreak\ttab\r\u{0}\u{1f}",
        "caf\u{e9} \u{1f600} \u{2028}",
        "\"already json\"",
    ];
    for value in values {
        let mut entries = HashMap::new();
        assert_eq!(set(&mut entries, "abc", value), Ok(()));
        assert_eq!(get(&mut entries, "abc"), Ok(value.to_string()), "value {:?}", value);
        assert!(has(&mut entries, "abc"));
    }
}

#[test]
fn set_replaces_what_was_stored() {
    let mut entries = HashMap::new();
    assert_eq!(set(&mut entries, "abc", "one"), Ok(()));
    assert_eq!(set(&mut entries, "abc", "two"), Ok(()));
    assert_eq!(get(&mut entries, "abc"), Ok("two".to_string()));
    assert_eq!(entries.len(), 1);
}

#[test]
fn unreadable_entry_is_gone_after_the_lookup() {
    let mut entries = HashMap::new();
    entries.insert("abc".to_string(), "not json at all".to_string());
    entries.insert("other".to_string(), "\"kept\"".to_string());
    assert!(has(&mut entries, "abc"));
    assert_eq!(
        get(&mut entries, "abc"),
        Err(CacheError::new("Failed to deserialize value"))
    );
    assert!(!has(&mut entries, "abc"));
    assert_eq!(get(&mut entries, "abc"), Err(CacheError::new("Cache key not found")));
    assert_eq!(get(&mut entries, "other"), Ok("kept".to_string()));
}

#[test]
fn has_does_not_read_the_text() {
    let mut entries = HashMap::new();
    entries.insert("abc".to_string(), "not json at all".to_string());
    assert!(has(&mut entries, "abc"));
    assert!(has(&mut entries, "abc"));
    assert!(!has(&mut entries, "abd"));
    assert_eq!(entries.len(), 1);
}

#[test]
fn connection_url_picks_the_scheme() {
    assert_eq!(connection_url("false", "", "localhost:6379"), "redis://:@localhost:6379");
    assert_eq!(connection_url("true", "s3cret", "cache.internal"), "rediss://:s3cret@cache.internal");
    assert_eq!(connection_url("TRUE", "pw", "h"), "redis://:pw@h");
    assert_eq!(connection_url("", "", ""), "redis://:@");
    assert_eq!(connection_url("true ", "", "h"), "redis://:@h");
}
