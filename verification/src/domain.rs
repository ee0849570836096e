//! The records of the persistent store, with plain values in every field.

use vstd::prelude::*;
use crate::clock::Timestamp;

verus! {

/// An optional text, over sequences of characters.
pub open spec fn text_of(text: Option<String>) -> Option<Seq<char>> {
    match text {
        Some(t) => Some(t@),
        None => None,
    }
}

/// A stored record: a long URL and the short token that stands for it.
#[derive(Debug, PartialEq, Eq)]
pub struct Data {
    pub id: i64,
    pub base_url: String,
    pub short_url: String,
    pub created_at: Timestamp,
    pub created_by_ip: Option<String>,
}

/// A stored record, over sequences of characters.
pub struct Record {
    pub id: i64,
    pub base_url: Seq<char>,
    pub short_url: Seq<char>,
    pub created_at: Timestamp,
    pub created_by_ip: Option<Seq<char>>,
}

impl View for Data {
    type V = Record;

    open spec fn view(&self) -> Record {
        Record {
            id: self.id,
            base_url: self.base_url@,
            short_url: self.short_url@,
            created_at: self.created_at,
            created_by_ip: text_of(self.created_by_ip),
        }
    }
}

impl Default for Data {
    /// The empty record, created at the Unix epoch.
    fn default() -> (data: Data)
        ensures
            data@ == (Record {
                id: 0,
                base_url: Seq::empty(),
                short_url: Seq::empty(),
                created_at: Timestamp { secs: 0, nanos: 0 },
                created_by_ip: None,
            }),
    {
        Data {
            id: 0,
            base_url: String::new(),
            short_url: String::new(),
            created_at: Timestamp::new(0, 0),
            created_by_ip: None,
        }
    }
}

impl Clone for Data {
    fn clone(&self) -> (data: Data)
        ensures
            data@ == self@,
    {
        Data {
            id: self.id,
            base_url: self.base_url.clone(),
            short_url: self.short_url.clone(),
            created_at: self.created_at,
            created_by_ip: match &self.created_by_ip {
                Some(ip) => Some(ip.clone()),
                None => None,
            },
        }
    }
}

/// A record on its way into the store, which gives it its `id`.
#[derive(Debug, PartialEq, Eq)]
pub struct DataInsert {
    pub base_url: String,
    pub short_url: String,
    pub created_at: Timestamp,
    pub created_by_ip: Option<String>,
}

/// A record on its way into the store, over sequences of characters.
pub struct NewRecord {
    pub base_url: Seq<char>,
    pub short_url: Seq<char>,
    pub created_at: Timestamp,
    pub created_by_ip: Option<Seq<char>>,
}

impl View for DataInsert {
    type V = NewRecord;

    open spec fn view(&self) -> NewRecord {
        NewRecord {
            base_url: self.base_url@,
            short_url: self.short_url@,
            created_at: self.created_at,
            created_by_ip: text_of(self.created_by_ip),
        }
    }
}

impl Clone for DataInsert {
    fn clone(&self) -> (data: DataInsert)
        ensures
            data@ == self@,
    {
        DataInsert {
            base_url: self.base_url.clone(),
            short_url: self.short_url.clone(),
            created_at: self.created_at,
            created_by_ip: match &self.created_by_ip {
                Some(ip) => Some(ip.clone()),
                None => None,
            },
        }
    }
}

/// The body of a request to shorten `url`.
#[derive(Debug, PartialEq, Eq)]
pub struct CreateTinyUrl {
    pub url: String,
}

impl View for CreateTinyUrl {
    type V = Seq<char>;

    open spec fn view(&self) -> Seq<char> {
        self.url@
    }
}

impl Clone for CreateTinyUrl {
    fn clone(&self) -> (payload: CreateTinyUrl)
        ensures
            payload@ == self@,
    {
        CreateTinyUrl { url: self.url.clone() }
    }
}

} // verus!
