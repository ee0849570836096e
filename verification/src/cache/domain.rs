//! The vocabulary of the cache: lifetimes, errors, and the commands and
//! replies exchanged with the remote key/value service.

use vstd::prelude::*;

verus! {

/// How long a cached entry lives.
#[derive(Clone, Copy, Debug, PartialEq, Eq, Structural)]
pub enum TimeToLive {
    OneHour,
    OneWeek,
}

impl TimeToLive {
    /// The lifetime in seconds.
    pub open spec fn spec_seconds(self) -> u32 {
        match self {
            TimeToLive::OneHour => 3_600,
            TimeToLive::OneWeek => 604_800,
        }
    }

    /// The lifetime in seconds: 60 * 60 for an hour, 60 * 60 * 24 * 7 for a
    /// week.
    #[verifier::when_used_as_spec(spec_seconds)]
    pub fn seconds(self) -> (s: u32)
        ensures
            s == self.spec_seconds(),
    {
        match self {
            TimeToLive::OneHour => 60 * 60,
            TimeToLive::OneWeek => 60 * 60 * 24 * 7,
        }
    }
}

impl Default for TimeToLive {
    fn default() -> (ttl: TimeToLive)
        ensures
            ttl == TimeToLive::OneHour,
    {
        TimeToLive::OneHour
    }
}

/// Why a cache operation did not give a value.
#[derive(Debug, PartialEq, Eq)]
pub struct CacheError {
    details: String,
}

impl View for CacheError {
    type V = Seq<char>;

    closed spec fn view(&self) -> Seq<char> {
        self.details@
    }
}

impl CacheError {
    /// An error that reads `msg`.
    pub fn new(msg: &str) -> (e: CacheError)
        ensures
            e@ == msg@,
    {
        CacheError { details: msg.to_owned() }
    }

    /// What the error reads.
    pub fn description(&self) -> (text: &str)
        ensures
            text@ == self@,
    {
        self.details.as_str()
    }
}

/// One command for the remote key/value service.
#[derive(Debug, PartialEq, Eq)]
pub enum CacheCommand {
    /// Ask whether `key` is present.
    Exists { key: String },
    /// Ask for the text stored under `key`.
    Get { key: String },
    /// Store `value` under `key`, to expire after `seconds`.
    SetEx { key: String, seconds: u32, value: String },
    /// Remove `key`, present or not.
    Del { key: String },
}

/// A command, over sequences of characters.
pub enum Command {
    Exists { key: Seq<char> },
    Get { key: Seq<char> },
    SetEx { key: Seq<char>, seconds: u32, value: Seq<char> },
    Del { key: Seq<char> },
}

impl View for CacheCommand {
    type V = Command;

    open spec fn view(&self) -> Command {
        match self {
            CacheCommand::Exists { key } => Command::Exists { key: key@ },
            CacheCommand::Get { key } => Command::Get { key: key@ },
            CacheCommand::SetEx { key, seconds, value } => Command::SetEx {
                key: key@,
                seconds: *seconds,
                value: value@,
            },
            CacheCommand::Del { key } => Command::Del { key: key@ },
        }
    }
}

/// What came back for a command.
#[derive(Debug, PartialEq, Eq)]
pub enum CacheReply {
    /// The number of keys found, in answer to `Exists`.
    Count(u8),
    /// The stored text, if any, in answer to `Get`.
    Text(Option<String>),
    /// The command was carried out, in answer to `SetEx` and `Del`.
    Done,
    /// The service could not be reached, or answered something else.
    Failed,
}

/// A reply, over sequences of characters.
pub enum Reply {
    Count(u8),
    Text(Option<Seq<char>>),
    Done,
    Failed,
}

impl View for CacheReply {
    type V = Reply;

    open spec fn view(&self) -> Reply {
        match self {
            CacheReply::Count(n) => Reply::Count(*n),
            CacheReply::Text(Some(text)) => Reply::Text(Some(text@)),
            CacheReply::Text(None) => Reply::Text(None),
            CacheReply::Done => Reply::Done,
            CacheReply::Failed => Reply::Failed,
        }
    }
}

/// Where a cache operation stands after a reply was taken in.
#[derive(Debug, PartialEq, Eq)]
pub enum CacheStep {
    /// Not finished: this command is to be sent next.
    Send(CacheCommand),
    /// An existence check finished.
    Present(bool),
    /// A lookup finished, with the value or the reason there is none.
    Value(Result<String, CacheError>),
    /// A store or a removal finished.
    Done(Result<(), CacheError>),
    /// No operation was under way: the reply was dropped.
    Idle,
}

/// A step, over sequences of characters.
pub enum Step {
    Send(Command),
    Present(bool),
    Value(Result<Seq<char>, Seq<char>>),
    Done(Result<(), Seq<char>>),
    Idle,
}

impl View for CacheStep {
    type V = Step;

    open spec fn view(&self) -> Step {
        match self {
            CacheStep::Send(command) => Step::Send(command@),
            CacheStep::Present(found) => Step::Present(*found),
            CacheStep::Value(Ok(value)) => Step::Value(Ok(value@)),
            CacheStep::Value(Err(e)) => Step::Value(Err(e@)),
            CacheStep::Done(Ok(())) => Step::Done(Ok(())),
            CacheStep::Done(Err(e)) => Step::Done(Err(e@)),
            CacheStep::Idle => Step::Idle,
        }
    }
}

/// What a handler waits for.
#[derive(Debug, PartialEq, Eq)]
pub enum Pending {
    /// No operation is under way.
    Nothing,
    /// The answer to an existence check.
    Exists,
    /// The text stored under `key`.
    Get { key: String },
    /// The removal of an entry whose text could not be read.
    Invalidate,
    /// The storing of an entry under `key`.
    Store { key: String },
    /// The removal of `key`.
    Delete { key: String },
}

/// What a handler waits for, over sequences of characters.
pub enum Awaited {
    Nothing,
    Exists,
    Get { key: Seq<char> },
    Invalidate,
    Store { key: Seq<char> },
    Delete { key: Seq<char> },
}

impl View for Pending {
    type V = Awaited;

    open spec fn view(&self) -> Awaited {
        match self {
            Pending::Nothing => Awaited::Nothing,
            Pending::Exists => Awaited::Exists,
            Pending::Get { key } => Awaited::Get { key: key@ },
            Pending::Invalidate => Awaited::Invalidate,
            Pending::Store { key } => Awaited::Store { key: key@ },
            Pending::Delete { key } => Awaited::Delete { key: key@ },
        }
    }
}

/// The cache protocol, one operation at a time: each operation gives the
/// command to send, and `resume` takes in what came back.
#[derive(Debug, PartialEq, Eq)]
pub struct CacheHandler {
    pub pending: Pending,
}

impl View for CacheHandler {
    type V = Awaited;

    open spec fn view(&self) -> Awaited {
        self.pending@
    }
}

} // verus!
