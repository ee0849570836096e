//! The two request flows: following a short token, and shortening a URL.
//!
//! A flow decides and never acts. It hands out the next action, whoever runs
//! it carries the action out and hands back what happened, and the flow ends
//! with the response to send.

use vstd::prelude::*;
use crate::cache::codec::json_text;
use crate::cache::domain::{
    Awaited, CacheCommand, CacheHandler, CacheReply, CacheStep, Command, Reply, Step,
};
use crate::cache::handler::resumed;
use crate::clock::{get_current_datetime, Timestamp};
use crate::domain::{CreateTinyUrl, Data, DataInsert, NewRecord, Record};
use crate::rate_limit::{checked, ClientIp, RateLimiter};

verus! {

/// The length of a short token, in characters.
pub const TOKEN_LENGTH: usize = 10;

/// The status of a response.
#[derive(Clone, Copy, Debug, PartialEq, Eq, Structural)]
pub enum Status {
    Success,
    Created,
    NotFound,
    TooManyRequests,
    InternalServerError,
}

impl Status {
    /// The status as a number.
    pub open spec fn spec_code(self) -> u16 {
        match self {
            Status::Success => 200,
            Status::Created => 201,
            Status::NotFound => 404,
            Status::TooManyRequests => 429,
            Status::InternalServerError => 500,
        }
    }

    /// The status as a number.
    #[verifier::when_used_as_spec(spec_code)]
    pub fn code(self) -> (code: u16)
        ensures
            code == self.spec_code(),
    {
        match self {
            Status::Success => 200,
            Status::Created => 201,
            Status::NotFound => 404,
            Status::TooManyRequests => 429,
            Status::InternalServerError => 500,
        }
    }
}

/// A verdict of the rate limiter, over sequences of characters.
pub open spec fn verdict_of(verdict: Result<(), String>) -> Result<(), Seq<char>> {
    match verdict {
        Ok(()) => Ok(()),
        Err(message) => Err(message@),
    }
}

/// The greeting at the root of the service.
pub fn root() -> (greeting: &'static str)
    ensures
        greeting@ == "Hello, World!"@,
{
    "Hello, World!"
}

/// The response to a request that follows a short token.
#[derive(Debug, PartialEq, Eq)]
pub struct Response {
    pub status: Status,
    pub body: String,
}

/// A response, over sequences of characters.
pub struct Answer {
    pub status: Status,
    pub body: Seq<char>,
}

impl View for Response {
    type V = Answer;

    open spec fn view(&self) -> Answer {
        Answer { status: self.status, body: self.body@ }
    }
}

impl Clone for Response {
    fn clone(&self) -> (response: Response)
        ensures
            response@ == self@,
    {
        Response { status: self.status, body: self.body.clone() }
    }
}

/// What is to be done next for a request that follows a short token.
#[derive(Debug, PartialEq, Eq)]
pub enum ReadAction {
    /// Send the command to the cache.
    Cache(CacheCommand),
    /// Look the token up in the persistent store.
    Lookup(String),
    /// Send the response: the flow is over.
    Respond(Response),
}

/// An action of the read flow, over sequences of characters.
pub enum ReadStep {
    Cache(Command),
    Lookup(Seq<char>),
    Respond(Answer),
}

impl View for ReadAction {
    type V = ReadStep;

    open spec fn view(&self) -> ReadStep {
        match self {
            ReadAction::Cache(command) => ReadStep::Cache(command@),
            ReadAction::Lookup(token) => ReadStep::Lookup(token@),
            ReadAction::Respond(response) => ReadStep::Respond(response@),
        }
    }
}

/// What happened to the last action of a read flow.
#[derive(Debug, PartialEq, Eq)]
pub enum ReadEvent {
    /// The cache replied, or failed to.
    Cache(CacheReply),
    /// The store was asked: it holds this record, or none that could be had.
    Found(Option<Data>),
}

/// An event of the read flow, over sequences of characters.
pub enum ReadNews {
    Cache(Reply),
    Found(Option<Record>),
}

impl View for ReadEvent {
    type V = ReadNews;

    open spec fn view(&self) -> ReadNews {
        match self {
            ReadEvent::Cache(reply) => ReadNews::Cache(reply@),
            ReadEvent::Found(Some(record)) => ReadNews::Found(Some(record@)),
            ReadEvent::Found(None) => ReadNews::Found(None),
        }
    }
}

/// Where a request that follows a short token stands.
#[derive(Debug, PartialEq, Eq)]
pub enum ReadFlow {
    /// The cache is being asked for the token.
    Cache { token: String, handler: CacheHandler },
    /// The store is being asked for the token.
    Store { token: String },
    /// The cache is being handed what the store gave; `body` is the answer.
    Populate { body: String },
    /// The response was given.
    Finished { response: Response },
}

/// A read flow, over sequences of characters.
pub enum ReadState {
    Cache { token: Seq<char>, awaited: Awaited },
    Store { token: Seq<char> },
    Populate { body: Seq<char> },
    Finished { response: Answer },
}

impl View for ReadFlow {
    type V = ReadState;

    open spec fn view(&self) -> ReadState {
        match self {
            ReadFlow::Cache { token, handler } => ReadState::Cache {
                token: token@,
                awaited: handler@,
            },
            ReadFlow::Store { token } => ReadState::Store { token: token@ },
            ReadFlow::Populate { body } => ReadState::Populate { body: body@ },
            ReadFlow::Finished { response } => ReadState::Finished { response: response@ },
        }
    }
}

/// A flow that ends with `status` and `body`.
pub open spec fn answered(status: Status, body: Seq<char>) -> (ReadState, ReadStep) {
    let response = Answer { status, body };
    (ReadState::Finished { response }, ReadStep::Respond(response))
}

/// How a read flow begins, given the rate limiter's verdict on the client: a
/// refused client gets the limiter's message before the cache or the store is
/// touched, an empty token is not found, and any other token is first asked
/// of the cache.
pub open spec fn read_started(verdict: Result<(), Seq<char>>, token: Seq<char>) -> (
    ReadState,
    ReadStep,
) {
    match verdict {
        Err(message) => answered(Status::TooManyRequests, message),
        Ok(()) => if token.len() == 0 {
            answered(Status::NotFound, "Not Found"@)
        } else {
            (
                ReadState::Cache { token, awaited: Awaited::Get { key: token } },
                ReadStep::Cache(Command::Get { key: token }),
            )
        },
    }
}

/// How a read flow goes on after `news`.
///
/// While the cache is asked, its value ends the flow, and anything else the
/// lookup ends in sends the flow to the store: the cache is never more than
/// a shortcut. What the store holds is handed to the cache under the token
/// for an hour and then given as the answer, however the cache takes it;
/// what the store does not hold is not found. News that does not answer the
/// last action counts as that action having failed. A flow that is over
/// gives its response again.
pub open spec fn read_stepped(state: ReadState, news: ReadNews) -> (ReadState, ReadStep) {
    match state {
        ReadState::Cache { token, awaited } => {
            let reply = match news {
                ReadNews::Cache(reply) => reply,
                _ => Reply::Failed,
            };
            let (awaited, step) = resumed(awaited, reply);
            match step {
                Step::Send(command) => (
                    ReadState::Cache { token, awaited },
                    ReadStep::Cache(command),
                ),
                Step::Value(Ok(value)) => answered(Status::Success, value),
                _ => (ReadState::Store { token }, ReadStep::Lookup(token)),
            }
        },
        ReadState::Store { token } => match news {
            ReadNews::Found(Some(record)) => match json_text(record.base_url) {
                Some(text) => (
                    ReadState::Populate { body: record.base_url },
                    ReadStep::Cache(Command::SetEx { key: token, seconds: 3_600, value: text }),
                ),
                None => answered(Status::Success, record.base_url),
            },
            _ => answered(Status::NotFound, "Not Found"@),
        },
        ReadState::Populate { body } => answered(Status::Success, body),
        ReadState::Finished { response } => (state, ReadStep::Respond(response)),
    }
}

/// The end of a read flow with `status` and `body`.
fn respond(status: Status, body: String) -> (r: (ReadFlow, ReadAction))
    ensures
        (r.0@, r.1@) == answered(status, body@),
{
    let response = Response { status, body };
    let sent = response.clone();
    (ReadFlow::Finished { response }, ReadAction::Respond(sent))
}

impl ReadFlow {
    /// Begins a read flow for `url_path`, given the rate limiter's verdict
    /// on the client.
    pub fn start(verdict: Result<(), String>, url_path: &str) -> (r: (ReadFlow, ReadAction))
        ensures
            (r.0@, r.1@) == read_started(verdict_of(verdict), url_path@),
    {
        match verdict {
            Err(message) => respond(Status::TooManyRequests, message),
            Ok(()) => {
                if url_path.is_empty() {
                    respond(Status::NotFound, "Not Found".to_owned())
                } else {
                    let mut handler = CacheHandler::new();
                    let command = handler.get(url_path);
                    (
                        ReadFlow::Cache { token: url_path.to_owned(), handler },
                        ReadAction::Cache(command),
                    )
                }
            },
        }
    }

    /// Takes in what happened to the last action and gives the next one.
    pub fn step(self, event: ReadEvent) -> (r: (ReadFlow, ReadAction))
        ensures
            (r.0@, r.1@) == read_stepped(self@, event@),
    {
        match self {
            ReadFlow::Cache { token, handler } => {
                let mut handler = handler;
                let reply = match event {
                    ReadEvent::Cache(reply) => reply,
                    _ => CacheReply::Failed,
                };
                match handler.resume(reply) {
                    CacheStep::Send(command) => (
                        ReadFlow::Cache { token, handler },
                        ReadAction::Cache(command),
                    ),
                    CacheStep::Value(Ok(value)) => respond(Status::Success, value),
                    _ => {
                        let wanted = token.clone();
                        (ReadFlow::Store { token }, ReadAction::Lookup(wanted))
                    },
                }
            },
            ReadFlow::Store { token } => match event {
                ReadEvent::Found(Some(record)) => {
                    let mut handler = CacheHandler::new();
                    match handler.set(token.as_str(), record.base_url.as_str()) {
                        Ok(command) => (
                            ReadFlow::Populate { body: record.base_url },
                            ReadAction::Cache(command),
                        ),
                        Err(_) => respond(Status::Success, record.base_url),
                    }
                },
                _ => respond(Status::NotFound, "Not Found".to_owned()),
            },
            ReadFlow::Populate { body } => respond(Status::Success, body),
            ReadFlow::Finished { response } => {
                let sent = response.clone();
                (ReadFlow::Finished { response }, ReadAction::Respond(sent))
            },
        }
    }
}

/// Begins the flow of a request that follows the short token `url_path`:
/// the request is recorded with the rate limiter at the instant the clock
/// reads, and the flow begins with the verdict.
pub fn get_tiny_url(rate_limiter: &mut RateLimiter, url_path: &str, ip: ClientIp) -> (r: (
    ReadFlow,
    ReadAction,
))
    ensures
        exists|now: Timestamp, verdict: Result<(), String>|
            {
                &&& now.is_normal()
                &&& checked(old(rate_limiter)@, final(rate_limiter)@, ip, now, verdict)
                &&& (r.0@, r.1@) == read_started(verdict_of(verdict), url_path@)
            },
{
    let verdict = rate_limiter.check_if_rate_limited(ip);
    proof {
        let now = choose|now: Timestamp|
            now.is_normal() && checked(old(rate_limiter)@, rate_limiter@, ip, now, verdict);
        assert(now.is_normal() && checked(old(rate_limiter)@, rate_limiter@, ip, now, verdict));
    }
    ReadFlow::start(verdict, url_path)
}

/// Whether `c` is a letter of the English alphabet or a digit.
pub open spec fn is_alphanumeric(c: char) -> bool {
    ||| 'A' as u32 <= c as u32 <= 'Z' as u32
    ||| 'a' as u32 <= c as u32 <= 'z' as u32
    ||| '0' as u32 <= c as u32 <= '9' as u32
}

/// Whether `token` is a short token of `length` characters: letters and
/// digits only.
pub open spec fn is_token(token: Seq<char>, length: nat) -> bool {
    &&& token.len() == length
    &&& forall|i: int| 0 <= i < token.len() ==> is_alphanumeric(#[trigger] token[i])
}

/// A random token, drawn with `rand::distributions::Alphanumeric` from the
/// generator of the current thread. Each of the `length` characters is one of
/// the 62 letters and digits; which ones is left to chance. `thread_rng`
/// panics where the system gives it no seed.
#[verifier::external_body]
fn random_token(length: usize) -> (token: String)
    ensures
        is_token(token@, length as nat),
{
    rand::distributions::DistString::sample_string(
        &rand::distributions::Alphanumeric,
        &mut rand::thread_rng(),
        length,
    )
}

/// The response to a request that shortens a URL: the record that was
/// created, or the reason there is none.
#[derive(Debug, PartialEq, Eq)]
pub struct CreateResponse {
    pub status: Status,
    pub body: Result<Data, String>,
}

/// The response to a request that shortens a URL, over sequences of
/// characters.
pub struct CreateAnswer {
    pub status: Status,
    pub body: Result<Record, Seq<char>>,
}

/// What the store made of an insertion, over sequences of characters.
pub open spec fn outcome_of(outcome: Result<Data, String>) -> Result<Record, Seq<char>> {
    match outcome {
        Ok(record) => Ok(record@),
        Err(reason) => Err(reason@),
    }
}

impl View for CreateResponse {
    type V = CreateAnswer;

    open spec fn view(&self) -> CreateAnswer {
        CreateAnswer { status: self.status, body: outcome_of(self.body) }
    }
}

impl Clone for CreateResponse {
    fn clone(&self) -> (response: CreateResponse)
        ensures
            response@ == self@,
    {
        CreateResponse {
            status: self.status,
            body: match &self.body {
                Ok(record) => Ok(record.clone()),
                Err(reason) => Err(reason.clone()),
            },
        }
    }
}

/// What is to be done next for a request that shortens a URL.
#[derive(Debug, PartialEq, Eq)]
pub enum WriteAction {
    /// Insert the record into the persistent store.
    Insert(DataInsert),
    /// Send the response: the flow is over.
    Respond(CreateResponse),
}

/// An action of the write flow, over sequences of characters.
pub enum WriteStep {
    Insert(NewRecord),
    Respond(CreateAnswer),
}

impl View for WriteAction {
    type V = WriteStep;

    open spec fn view(&self) -> WriteStep {
        match self {
            WriteAction::Insert(record) => WriteStep::Insert(record@),
            WriteAction::Respond(response) => WriteStep::Respond(response@),
        }
    }
}

/// Where a request that shortens a URL stands.
#[derive(Debug, PartialEq, Eq)]
pub enum WriteFlow {
    /// The store is being handed the record.
    Insert,
    /// The response was given.
    Finished { response: CreateResponse },
}

/// A write flow, over sequences of characters.
pub enum WriteState {
    Insert,
    Finished { response: CreateAnswer },
}

impl View for WriteFlow {
    type V = WriteState;

    open spec fn view(&self) -> WriteState {
        match self {
            WriteFlow::Insert => WriteState::Insert,
            WriteFlow::Finished { response } => WriteState::Finished { response: response@ },
        }
    }
}

/// A write flow that ends with `status` and `body`.
pub open spec fn created(status: Status, body: Result<Record, Seq<char>>) -> (
    WriteState,
    WriteStep,
) {
    let response = CreateAnswer { status, body };
    (WriteState::Finished { response }, WriteStep::Respond(response))
}

/// The record for `url` under `token`, made at `created_at` by the client at
/// `addr`.
pub open spec fn new_record(
    url: Seq<char>,
    token: Seq<char>,
    created_at: Timestamp,
    addr: Seq<char>,
) -> NewRecord {
    NewRecord { base_url: url, short_url: token, created_at, created_by_ip: Some(addr) }
}

/// How a write flow begins, given the rate limiter's verdict on the client:
/// a refused client gets the limiter's message, and for any other the record
/// goes to the store. The cache is not touched.
pub open spec fn write_started(verdict: Result<(), Seq<char>>, record: NewRecord) -> (
    WriteState,
    WriteStep,
) {
    match verdict {
        Err(message) => created(Status::TooManyRequests, Err(message)),
        Ok(()) => (WriteState::Insert, WriteStep::Insert(record)),
    }
}

/// How a write flow goes on after the store's answer: the record it created
/// is the response, and its refusal is a server error with the store's
/// reason. A flow that is over gives its response again.
pub open spec fn write_stepped(state: WriteState, outcome: Result<Record, Seq<char>>) -> (
    WriteState,
    WriteStep,
) {
    match state {
        WriteState::Insert => match outcome {
            Ok(record) => created(Status::Created, Ok(record)),
            Err(reason) => created(Status::InternalServerError, Err(reason)),
        },
        WriteState::Finished { response } => (state, WriteStep::Respond(response)),
    }
}

/// The end of a write flow with `status` and `body`.
fn conclude(status: Status, body: Result<Data, String>) -> (r: (WriteFlow, WriteAction))
    ensures
        (r.0@, r.1@) == created(status, outcome_of(body)),
{
    let response = CreateResponse { status, body };
    let sent = response.clone();
    (WriteFlow::Finished { response }, WriteAction::Respond(sent))
}

impl WriteFlow {
    /// Begins a write flow, given the rate limiter's verdict on the client,
    /// the token drawn for the URL and the instant of the request.
    pub fn start(
        verdict: Result<(), String>,
        payload: &CreateTinyUrl,
        token: String,
        created_at: Timestamp,
        addr: &str,
    ) -> (r: (WriteFlow, WriteAction))
        ensures
            (r.0@, r.1@) == write_started(
                verdict_of(verdict),
                new_record(payload@, token@, created_at, addr@),
            ),
    {
        match verdict {
            Err(message) => conclude(Status::TooManyRequests, Err(message)),
            Ok(()) => {
                let record = DataInsert {
                    base_url: payload.url.clone(),
                    short_url: token,
                    created_at,
                    created_by_ip: Some(addr.to_owned()),
                };
                (WriteFlow::Insert, WriteAction::Insert(record))
            },
        }
    }

    /// Takes in the store's answer and gives the response.
    pub fn step(self, outcome: Result<Data, String>) -> (r: (WriteFlow, WriteAction))
        ensures
            (r.0@, r.1@) == write_stepped(self@, outcome_of(outcome)),
    {
        match self {
            WriteFlow::Insert => match outcome {
                Ok(record) => conclude(Status::Created, Ok(record)),
                Err(reason) => conclude(Status::InternalServerError, Err(reason)),
            },
            WriteFlow::Finished { response } => {
                let sent = response.clone();
                (WriteFlow::Finished { response }, WriteAction::Respond(sent))
            },
        }
    }
}

/// Begins the flow of a request that shortens `payload.url` for the client
/// at `addr`: the request is recorded with the rate limiter at the instant
/// the clock reads, and a client that is let through has a token of
/// `TOKEN_LENGTH` random letters and digits drawn for its URL, and the
/// instant the clock reads then as the record's time of creation. Whether
/// the token is already taken is for the store to say.
pub fn create_tiny_url(
    rate_limiter: &mut RateLimiter,
    addr: &str,
    ip: ClientIp,
    payload: CreateTinyUrl,
) -> (r: (WriteFlow, WriteAction))
    ensures
        exists|now: Timestamp, verdict: Result<(), String>, token: Seq<char>, created_at: Timestamp|
            {
                &&& now.is_normal()
                &&& checked(old(rate_limiter)@, final(rate_limiter)@, ip, now, verdict)
                &&& is_token(token, TOKEN_LENGTH as nat)
                &&& created_at.is_normal()
                &&& (r.0@, r.1@) == write_started(
                    verdict_of(verdict),
                    new_record(payload@, token, created_at, addr@),
                )
            },
{
    let verdict = rate_limiter.check_if_rate_limited(ip);
    let ghost now = choose|now: Timestamp|
        now.is_normal() && checked(old(rate_limiter)@, rate_limiter@, ip, now, verdict);
    match verdict {
        Err(message) => {
            let r = conclude(Status::TooManyRequests, Err(message));
            proof {
                let token = Seq::new(TOKEN_LENGTH as nat, |i: int| 'a');
                assert(is_token(token, TOKEN_LENGTH as nat));
                assert((r.0@, r.1@) == write_started(
                    verdict_of(verdict),
                    new_record(payload@, token, now, addr@),
                ));
            }
            r
        },
        Ok(()) => {
            let token = random_token(TOKEN_LENGTH);
            let created_at = get_current_datetime();
            let r = WriteFlow::start(Ok(()), &payload, token, created_at, addr);
            proof {
                assert((r.0@, r.1@) == write_started(
                    verdict_of(verdict),
                    new_record(payload@, token@, created_at, addr@),
                ));
            }
            r
        },
    }
}

} // verus!
