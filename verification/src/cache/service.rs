//! A model of the remote key/value service, and what the cache protocol
//! comes to when it is run against it.
//!
//! The model is the service while it can be reached and before any entry has
//! outlived its time: a map from keys to texts that answers each command at
//! once.

use vstd::prelude::*;
use crate::cache::codec::{json_string, json_text};
use crate::cache::domain::{Awaited, Command, Reply, Step, TimeToLive};
use crate::cache::handler::resumed;

verus! {

/// What the service answers to `command` with `entries` stored, and what it
/// stores afterwards.
pub open spec fn serve(entries: Map<Seq<char>, Seq<char>>, command: Command) -> (
    Reply,
    Map<Seq<char>, Seq<char>>,
) {
    match command {
        Command::Exists { key } => (
            Reply::Count(
                if entries.contains_key(key) {
                    1
                } else {
                    0
                },
            ),
            entries,
        ),
        Command::Get { key } => (
            Reply::Text(
                if entries.contains_key(key) {
                    Some(entries[key])
                } else {
                    None
                },
            ),
            entries,
        ),
        Command::SetEx { key, seconds, value } => (Reply::Done, entries.insert(key, value)),
        Command::Del { key } => (Reply::Done, entries.remove(key)),
    }
}

/// An operation run to its end against the service: `command` is sent by a
/// handler that waits for `awaited`, and so is the one command that the
/// handler may ask for after the reply. Gives how the operation ended and
/// what the service stores afterwards.
pub open spec fn carried_out(
    awaited: Awaited,
    command: Command,
    entries: Map<Seq<char>, Seq<char>>,
) -> (Step, Map<Seq<char>, Seq<char>>) {
    let (reply, entries) = serve(entries, command);
    let (awaited, step) = resumed(awaited, reply);
    match step {
        Step::Send(next) => {
            let (reply, entries) = serve(entries, next);
            (resumed(awaited, reply).1, entries)
        },
        _ => (step, entries),
    }
}

/// An existence check of `key`, run against the service.
pub open spec fn has_on(entries: Map<Seq<char>, Seq<char>>, key: Seq<char>) -> (
    Step,
    Map<Seq<char>, Seq<char>>,
) {
    carried_out(Awaited::Exists, Command::Exists { key }, entries)
}

/// A lookup of `key`, run against the service.
pub open spec fn get_on(entries: Map<Seq<char>, Seq<char>>, key: Seq<char>) -> (
    Step,
    Map<Seq<char>, Seq<char>>,
) {
    carried_out(Awaited::Get { key }, Command::Get { key }, entries)
}

/// The storing of the JSON text `text` under `key` for `ttl`, run against
/// the service.
pub open spec fn set_on(
    entries: Map<Seq<char>, Seq<char>>,
    key: Seq<char>,
    text: Seq<char>,
    ttl: TimeToLive,
) -> (Step, Map<Seq<char>, Seq<char>>) {
    carried_out(
        Awaited::Store { key },
        Command::SetEx { key, seconds: ttl.spec_seconds(), value: text },
        entries,
    )
}

/// A removal of `key`, run against the service.
pub open spec fn del_on(entries: Map<Seq<char>, Seq<char>>, key: Seq<char>) -> (
    Step,
    Map<Seq<char>, Seq<char>>,
) {
    carried_out(Awaited::Delete { key }, Command::Del { key }, entries)
}

/// A value that comes back from its own JSON text.
pub open spec fn survives_codec(value: Seq<char>) -> bool {
    match json_text(value) {
        Some(text) => json_string(text) == Some(value),
        None => false,
    }
}

/// An existence check says whether the key is stored, and changes nothing.
pub proof fn lemma_has_reports_presence(entries: Map<Seq<char>, Seq<char>>, key: Seq<char>)
    ensures
        has_on(entries, key) == (Step::Present(entries.contains_key(key)), entries),
{
}

/// A lookup of a key that is not stored ends in "Cache key not found" and
/// changes nothing.
pub proof fn lemma_get_absent(entries: Map<Seq<char>, Seq<char>>, key: Seq<char>)
    requires
        !entries.contains_key(key),
    ensures
        get_on(entries, key) == (Step::Value(Err("Cache key not found"@)), entries),
{
}

/// Removing a key twice in a row gives no error either time, and the second
/// removal changes nothing: whether the key was stored does not matter.
pub proof fn lemma_del_twice(entries: Map<Seq<char>, Seq<char>>, key: Seq<char>)
    ensures
        del_on(entries, key).0 == Step::Done(Ok(())),
        del_on(entries, key).1 == entries.remove(key),
        del_on(del_on(entries, key).1, key) == (Step::Done(Ok(())), entries.remove(key)),
{
    assert(entries.remove(key).remove(key) =~= entries.remove(key));
}

/// A value that was stored is the value that a lookup right after gives,
/// for any value that comes back from its own JSON text.
pub proof fn lemma_set_then_get(
    entries: Map<Seq<char>, Seq<char>>,
    key: Seq<char>,
    value: Seq<char>,
    ttl: TimeToLive,
)
    requires
        survives_codec(value),
    ensures
        set_on(entries, key, json_text(value).unwrap(), ttl).0 == Step::Done(Ok(())),
        get_on(set_on(entries, key, json_text(value).unwrap(), ttl).1, key).0 == Step::Value(
            Ok(value),
        ),
{
}

/// The cache heals itself: a lookup that finds a text it cannot read ends in
/// "Failed to deserialize value" and leaves the key removed, so that an
/// existence check right after says that it is absent.
pub proof fn lemma_unreadable_entry_removed(entries: Map<Seq<char>, Seq<char>>, key: Seq<char>)
    requires
        entries.contains_key(key),
        json_string(entries[key]).is_none(),
    ensures
        get_on(entries, key) == (
            Step::Value(Err("Failed to deserialize value"@)),
            entries.remove(key),
        ),
        has_on(get_on(entries, key).1, key).0 == Step::Present(false),
{
}

} // verus!
