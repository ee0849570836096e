//! The cache protocol handler.

use vstd::prelude::*;
use crate::cache::codec::{decode, encode, error_text, json_string, json_text};
use crate::cache::domain::{
    Awaited, CacheCommand, CacheError, CacheHandler, CacheReply, CacheStep, Command, Pending,
    Reply, Step, TimeToLive,
};

verus! {

/// What a handler that waits for `awaited` makes of `reply`: what it waits
/// for next, and where the operation stands.
///
/// A reply that does not answer the command counts as a failure of the
/// service. A failed existence check reads as absence; a failed lookup, store
/// or removal gives an error. A text that cannot be read has its entry
/// removed before the lookup ends in an error, whether or not the removal
/// went through.
pub open spec fn resumed(awaited: Awaited, reply: Reply) -> (Awaited, Step) {
    match awaited {
        Awaited::Nothing => (Awaited::Nothing, Step::Idle),
        Awaited::Exists => match reply {
            Reply::Count(n) => (Awaited::Nothing, Step::Present(n != 0)),
            _ => (Awaited::Nothing, Step::Present(false)),
        },
        Awaited::Get { key } => match reply {
            Reply::Text(Some(text)) => read(key, json_string(text)),
            Reply::Text(None) => (Awaited::Nothing, Step::Value(Err("Cache key not found"@))),
            _ => (Awaited::Nothing, Step::Value(Err("Failed to get value for cache key"@))),
        },
        Awaited::Invalidate => (Awaited::Nothing, Step::Value(Err("Failed to deserialize value"@))),
        Awaited::Store { key } => match reply {
            Reply::Done => (Awaited::Nothing, Step::Done(Ok(()))),
            _ => (
                Awaited::Nothing,
                Step::Done(Err("Failed to set value for cache key: "@ + key)),
            ),
        },
        Awaited::Delete { key } => match reply {
            Reply::Done => (Awaited::Nothing, Step::Done(Ok(()))),
            _ => (Awaited::Nothing, Step::Done(Err("Failed to delete cache key: "@ + key))),
        },
    }
}

/// What a lookup of `key` makes of the text it found, once the text was
/// parsed: the value, or the removal of the entry.
pub open spec fn read(key: Seq<char>, parsed: Option<Seq<char>>) -> (Awaited, Step) {
    match parsed {
        Some(value) => (Awaited::Nothing, Step::Value(Ok(value))),
        None => (Awaited::Invalidate, Step::Send(Command::Del { key })),
    }
}

/// What storing `value` under `key` for `ttl` starts: the command with the
/// value's JSON text, or an error where the value has none.
pub open spec fn stored(
    before: Awaited,
    after: Awaited,
    key: Seq<char>,
    value: Seq<char>,
    ttl: TimeToLive,
    started: Result<CacheCommand, CacheError>,
) -> bool {
    match json_text(value) {
        Some(text) => {
            &&& after == Awaited::Store { key }
            &&& started matches Ok(command)
            &&& command@ == Command::SetEx { key, seconds: ttl.spec_seconds(), value: text }
        },
        None => {
            &&& after == before
            &&& started matches Err(e)
            &&& exists|reason: Seq<char>| e@ == "Failed to serialize value: "@ + reason
        },
    }
}

/// The address of the cache service at `host`, with `password`: the scheme
/// is the secured one exactly where `is_tls` reads "true".
pub open spec fn connection_url_of(is_tls: Seq<char>, password: Seq<char>, host: Seq<char>) -> Seq<
    char,
> {
    let scheme = if is_tls == "true"@ {
        "rediss"@
    } else {
        "redis"@
    };
    scheme + "://:"@ + password + "@"@ + host
}

/// The address to reach the cache service at.
pub fn connection_url(is_tls: &str, password: &str, host: &str) -> (url: String)
    ensures
        url@ == connection_url_of(is_tls@, password@, host@),
{
    let mut url = if is_tls.to_owned() == "true".to_owned() {
        "rediss".to_owned()
    } else {
        "redis".to_owned()
    };
    url.push_str("://:");
    url.push_str(password);
    url.push_str("@");
    url.push_str(host);
    url
}

impl CacheError {
    /// The error for a value that could not be turned into JSON text: it
    /// reads "Failed to serialize value: " and then `reason`.
    pub fn serialization(reason: &str) -> (e: CacheError)
        ensures
            e@ == "Failed to serialize value: "@ + reason@,
    {
        let mut details = "Failed to serialize value: ".to_owned();
        details.push_str(reason);
        CacheError::new(details.as_str())
    }

    /// The error for a value that the JSON library refused, with the
    /// library's own words for the reason.
    pub fn from(e: serde_json::Error) -> (error: CacheError)
        ensures
            exists|reason: Seq<char>| error@ == "Failed to serialize value: "@ + reason,
    {
        let reason = error_text(&e);
        CacheError::serialization(reason.as_str())
    }
}

/// An error that reads `prefix` and then `key`.
fn keyed_error(prefix: &str, key: &str) -> (e: CacheError)
    ensures
        e@ == prefix@ + key@,
{
    let mut details = prefix.to_owned();
    details.push_str(key);
    CacheError::new(details.as_str())
}

impl CacheHandler {
    /// A handler with no operation under way.
    pub fn new() -> (handler: CacheHandler)
        ensures
            handler@ == Awaited::Nothing,
    {
        CacheHandler { pending: Pending::Nothing }
    }

    /// Starts an existence check of `needle`. The stored text is not read.
    pub fn has(&mut self, needle: &str) -> (command: CacheCommand)
        ensures
            command@ == (Command::Exists { key: needle@ }),
            final(self)@ == Awaited::Exists,
    {
        self.pending = Pending::Exists;
        CacheCommand::Exists { key: needle.to_owned() }
    }

    /// Starts a lookup of `needle`.
    pub fn get(&mut self, needle: &str) -> (command: CacheCommand)
        ensures
            command@ == (Command::Get { key: needle@ }),
            final(self)@ == (Awaited::Get { key: needle@ }),
    {
        self.pending = Pending::Get { key: needle.to_owned() };
        CacheCommand::Get { key: needle.to_owned() }
    }

    /// Starts storing `value` under `key` for an hour.
    pub fn set(&mut self, key: &str, value: &str) -> (started: Result<CacheCommand, CacheError>)
        ensures
            stored(old(self)@, final(self)@, key@, value@, TimeToLive::OneHour, started),
    {
        self.set_ttl(key, value, TimeToLive::default())
    }

    /// Starts storing `value` under `key` for `ttl_in_second`.
    pub fn set_ttl(&mut self, key: &str, value: &str, ttl_in_second: TimeToLive) -> (started: Result<
        CacheCommand,
        CacheError,
    >)
        ensures
            stored(old(self)@, final(self)@, key@, value@, ttl_in_second, started),
    {
        match encode(value) {
            Ok(text) => Ok(self.set_with_ttl(key, text.as_str(), ttl_in_second)),
            Err(e) => {
                Err(CacheError::from(e))
            },
        }
    }

    /// Starts storing the text `value`, as it stands, under `key` for
    /// `ttl_in_second`.
    pub fn set_with_ttl(&mut self, key: &str, value: &str, ttl_in_second: TimeToLive) -> (command:
        CacheCommand)
        ensures
            command@ == (Command::SetEx {
                key: key@,
                seconds: ttl_in_second.spec_seconds(),
                value: value@,
            }),
            final(self)@ == (Awaited::Store { key: key@ }),
    {
        self.pending = Pending::Store { key: key.to_owned() };
        CacheCommand::SetEx {
            key: key.to_owned(),
            seconds: ttl_in_second.seconds(),
            value: value.to_owned(),
        }
    }

    /// Starts the removal of `key`, present or not.
    pub fn del(&mut self, key: &str) -> (command: CacheCommand)
        ensures
            command@ == (Command::Del { key: key@ }),
            final(self)@ == (Awaited::Delete { key: key@ }),
    {
        self.pending = Pending::Delete { key: key.to_owned() };
        CacheCommand::Del { key: key.to_owned() }
    }

    /// Takes in the parsed text of a lookup of `key`: the value ends the
    /// lookup, and a text that could not be read has its entry removed.
    pub fn decoded(&mut self, key: String, parsed: Option<String>) -> (step: CacheStep)
        ensures
            (final(self)@, step@) == read(
                key@,
                match parsed {
                    Some(value) => Some(value@),
                    None => None,
                },
            ),
    {
        match parsed {
            Some(value) => {
                self.pending = Pending::Nothing;
                CacheStep::Value(Ok(value))
            },
            None => {
                self.pending = Pending::Invalidate;
                CacheStep::Send(CacheCommand::Del { key })
            },
        }
    }

    /// Takes in the reply to the command that was sent last.
    pub fn resume(&mut self, reply: CacheReply) -> (step: CacheStep)
        ensures
            (final(self)@, step@) == resumed(old(self)@, reply@),
    {
        let mut pending = Pending::Nothing;
        std::mem::swap(&mut self.pending, &mut pending);
        match pending {
            Pending::Nothing => CacheStep::Idle,
            Pending::Exists => match reply {
                CacheReply::Count(n) => CacheStep::Present(n != 0),
                _ => CacheStep::Present(false),
            },
            Pending::Get { key } => match reply {
                CacheReply::Text(Some(text)) => {
                    let parsed = decode(text.as_str()).ok();
                    self.decoded(key, parsed)
                },
                CacheReply::Text(None) => CacheStep::Value(
                    Err(CacheError::new("Cache key not found")),
                ),
                _ => CacheStep::Value(Err(CacheError::new("Failed to get value for cache key"))),
            },
            Pending::Invalidate => CacheStep::Value(
                Err(CacheError::new("Failed to deserialize value")),
            ),
            Pending::Store { key } => match reply {
                CacheReply::Done => CacheStep::Done(Ok(())),
                _ => CacheStep::Done(
                    Err(keyed_error("Failed to set value for cache key: ", key.as_str())),
                ),
            },
            Pending::Delete { key } => match reply {
                CacheReply::Done => CacheStep::Done(Ok(())),
                _ => CacheStep::Done(Err(keyed_error("Failed to delete cache key: ", key.as_str()))),
            },
        }
    }
}

} // verus!
