//! The read flow run against models of the cache and of the persistent
//! store, and what it comes to.
//!
//! Both services are taken as they are while they can be reached: the cache
//! as a map from keys to texts, the store as a map from short tokens to
//! records.

use vstd::prelude::*;
use crate::cache::codec::{json_string, json_text};
use crate::cache::service::serve;
use crate::domain::Record;
use crate::handlers::{
    read_started, read_stepped, Answer, ReadNews, ReadState, ReadStep, Status,
};

verus! {

/// What the store holds for `token`.
pub open spec fn looked_up(records: Map<Seq<char>, Record>, token: Seq<char>) -> Option<Record> {
    if records.contains_key(token) {
        Some(records[token])
    } else {
        None
    }
}

/// How a read flow in `state`, about to carry out `step`, ends when no more
/// than `patience` actions are carried out before the response: the
/// response, and what the cache stores afterwards. No response comes where
/// the flow asks for more actions than that.
pub open spec fn carried_on(
    state: ReadState,
    step: ReadStep,
    entries: Map<Seq<char>, Seq<char>>,
    records: Map<Seq<char>, Record>,
    patience: nat,
) -> Option<(Answer, Map<Seq<char>, Seq<char>>)>
    decreases patience,
{
    match step {
        ReadStep::Respond(response) => Some((response, entries)),
        ReadStep::Cache(command) => {
            if patience == 0 {
                None
            } else {
                let (reply, entries) = serve(entries, command);
                let (state, step) = read_stepped(state, ReadNews::Cache(reply));
                carried_on(state, step, entries, records, (patience - 1) as nat)
            }
        },
        ReadStep::Lookup(token) => {
            if patience == 0 {
                None
            } else {
                let (state, step) = read_stepped(state, ReadNews::Found(looked_up(records, token)));
                carried_on(state, step, entries, records, (patience - 1) as nat)
            }
        },
    }
}

/// A request of a client that the rate limiter let through, for `token`,
/// from its beginning to its response.
pub open spec fn served(
    token: Seq<char>,
    entries: Map<Seq<char>, Seq<char>>,
    records: Map<Seq<char>, Record>,
) -> Option<(Answer, Map<Seq<char>, Seq<char>>)> {
    let (state, step) = read_started(Ok(()), token);
    carried_on(state, step, entries, records, 4)
}

/// A token whose value is in the cache is answered with that value, whatever
/// the store holds, and the cache stays as it is.
pub proof fn lemma_served_from_cache(
    token: Seq<char>,
    entries: Map<Seq<char>, Seq<char>>,
    records: Map<Seq<char>, Record>,
)
    requires
        token.len() > 0,
        entries.contains_key(token),
        json_string(entries[token]).is_some(),
    ensures
        served(token, entries, records) == Some(
            (Answer { status: Status::Success, body: json_string(entries[token]).unwrap() }, entries),
        ),
{
    reveal_with_fuel(carried_on, 5);
}

/// A token that the cache does not hold and the store does is answered with
/// the stored URL, and the cache holds the URL's JSON text under the token
/// afterwards.
pub proof fn lemma_served_from_store(
    token: Seq<char>,
    entries: Map<Seq<char>, Seq<char>>,
    records: Map<Seq<char>, Record>,
)
    requires
        token.len() > 0,
        !entries.contains_key(token),
        records.contains_key(token),
        json_text(records[token].base_url).is_some(),
    ensures
        served(token, entries, records) == Some(
            (
                Answer { status: Status::Success, body: records[token].base_url },
                entries.insert(token, json_text(records[token].base_url).unwrap()),
            ),
        ),
{
    reveal_with_fuel(carried_on, 5);
}

/// A token whose cached text cannot be read is answered from the store, and
/// the cache holds the stored URL's JSON text under the token afterwards.
pub proof fn lemma_unreadable_entry_replaced(
    token: Seq<char>,
    entries: Map<Seq<char>, Seq<char>>,
    records: Map<Seq<char>, Record>,
)
    requires
        token.len() > 0,
        entries.contains_key(token),
        json_string(entries[token]).is_none(),
        records.contains_key(token),
        json_text(records[token].base_url).is_some(),
    ensures
        served(token, entries, records) == Some(
            (
                Answer { status: Status::Success, body: records[token].base_url },
                entries.insert(token, json_text(records[token].base_url).unwrap()),
            ),
        ),
{
    reveal_with_fuel(carried_on, 5);
    assert(entries.remove(token).insert(token, json_text(records[token].base_url).unwrap())
        =~= entries.insert(token, json_text(records[token].base_url).unwrap()));
}

/// A token that neither the cache nor the store holds is not found, and the
/// cache stays as it is.
pub proof fn lemma_unknown_token_not_found(
    token: Seq<char>,
    entries: Map<Seq<char>, Seq<char>>,
    records: Map<Seq<char>, Record>,
)
    requires
        !entries.contains_key(token),
        !records.contains_key(token),
    ensures
        served(token, entries, records) == Some(
            (Answer { status: Status::NotFound, body: "Not Found"@ }, entries),
        ),
{
    reveal_with_fuel(carried_on, 5);
}

/// A stored URL that comes back from its own JSON text is the answer the
/// first time its token is followed, when the store gives it, and the second
/// time, when the cache does.
pub proof fn lemma_served_twice(
    token: Seq<char>,
    entries: Map<Seq<char>, Seq<char>>,
    records: Map<Seq<char>, Record>,
)
    requires
        token.len() > 0,
        !entries.contains_key(token),
        records.contains_key(token),
        json_text(records[token].base_url).is_some(),
        json_string(json_text(records[token].base_url).unwrap()) == Some(records[token].base_url),
    ensures
        served(token, entries, records).is_some(),
        served(token, entries, records).unwrap().0 == (Answer {
            status: Status::Success,
            body: records[token].base_url,
        }),
        served(token, served(token, entries, records).unwrap().1, records) == Some(
            (
                Answer { status: Status::Success, body: records[token].base_url },
                served(token, entries, records).unwrap().1,
            ),
        ),
{
    lemma_served_from_store(token, entries, records);
    let warm = entries.insert(token, json_text(records[token].base_url).unwrap());
    lemma_served_from_cache(token, warm, records);
}

/// Every request that the rate limiter let through comes to a response
/// within four actions.
pub proof fn lemma_always_answered(
    token: Seq<char>,
    entries: Map<Seq<char>, Seq<char>>,
    records: Map<Seq<char>, Record>,
)
    ensures
        served(token, entries, records).is_some(),
{
    reveal_with_fuel(carried_on, 5);
}

} // verus!
