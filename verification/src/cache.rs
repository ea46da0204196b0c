//! The response cache: the last answer to each remembered request, and the
//! moment it was produced.
//!
//! The cache is one plain map. It knows nothing of locks: a caller that
//! shares it between request handlers holds its own lock around each single
//! call. Looking up and storing are two calls, so two handlers may both miss
//! on one key and both store; the later store stays.

use std::time::Instant;
use vstd::hash_map::StringHashMap;
use vstd::prelude::*;
use vstd::string::*;

verus! {

/// `std::time::Instant`: a moment on the monotonic clock. Nothing is known
/// of what it holds.
#[verifier::external_type_specification]
#[verifier::external_body]
pub struct ExInstant(Instant);

/// `Instant::now` of the standard library: the present moment. Nothing is
/// claimed of the moment it returns.
pub assume_specification[ Instant::now ]() -> (now: Instant)
;

/// One remembered answer: the text, and the moment it was produced.
#[derive(Debug)]
pub struct Request {
    response: String,
    timeout: Instant,
}

impl Request {
    /// The remembered text.
    pub closed spec fn text(&self) -> Seq<char> {
        self.response@
    }

    /// The moment the text was produced.
    pub closed spec fn stamp(&self) -> Instant {
        self.timeout
    }

    /// An answer produced at `timeout`.
    pub fn new(response: String, timeout: Instant) -> (entry: Request)
        ensures
            entry.text() == response@,
            entry.stamp() == timeout,
    {
        Request { response, timeout }
    }

    /// The remembered text.
    pub fn response(&self) -> (response: &String)
        ensures
            response@ == self.text(),
    {
        &self.response
    }

    /// The moment the text was produced.
    pub fn timeout(&self) -> (timeout: Instant)
        ensures
            timeout == self.stamp(),
    {
        self.timeout
    }
}

/// The remembered answers, by key.
pub struct ResponseCache {
    entries: StringHashMap<Request>,
}

impl View for ResponseCache {
    type V = Map<Seq<char>, Seq<char>>;

    /// The remembered text of each key.
    open spec fn view(&self) -> Map<Seq<char>, Seq<char>> {
        Map::new(
            |key: Seq<char>| self.entries().contains_key(key),
            |key: Seq<char>| self.entries()[key].text(),
        )
    }
}

impl ResponseCache {
    /// The remembered answer of each key, with the moment it was produced.
    pub closed spec fn entries(&self) -> Map<Seq<char>, Request> {
        self.entries@
    }

    /// A cache that remembers nothing.
    pub fn new() -> (cache: ResponseCache)
        ensures
            cache.entries() == Map::<Seq<char>, Request>::empty(),
            cache@ == Map::<Seq<char>, Seq<char>>::empty(),
    {
        ResponseCache { entries: StringHashMap::new() }
    }

    /// A copy of the text remembered under `key`, if there is one.
    pub fn lookup(&self, key: &str) -> (found: Option<String>)
        ensures
            found.deep_view() == (if self@.contains_key(key@) {
                Some(self@[key@])
            } else {
                None
            }),
    {
        match self.entries.get(key) {
            Some(entry) => Some(entry.response.clone()),
            None => None,
        }
    }

    /// Remembers `response` under `key`, produced now. An answer remembered
    /// under the same key before is replaced; every other answer stays as it
    /// is, with its moment.
    pub fn store(&mut self, key: String, response: String)
        ensures
            final(self)@ == old(self)@.insert(key@, response@),
            final(self).entries().dom() == old(self).entries().dom().insert(key@),
            final(self).entries()[key@].text() == response@,
            forall|other: Seq<char>|
                other != key@ && #[trigger] old(self).entries().contains_key(other)
                    ==> final(self).entries()[other] == old(self).entries()[other],
    {
        let entry = Request::new(response, Instant::now());
        insert_cache(self, key, entry);
    }
}

/// A copy of the text remembered under `key`, or `None` where nothing is
/// remembered under it. An empty answer that was stored is found as the empty
/// text; it is not a miss.
pub fn check_cache(request_cache: &ResponseCache, key: String) -> (response: Option<String>)
    ensures
        response.deep_view() == (if request_cache@.contains_key(key@) {
            Some(request_cache@[key@])
        } else {
            None
        }),
{
    request_cache.lookup(key.as_str())
}

/// Puts `value` under `key`, in place of what was remembered under it.
pub fn insert_cache(request_cache: &mut ResponseCache, key: String, value: Request)
    ensures
        final(request_cache).entries() == old(request_cache).entries().insert(key@, value),
        final(request_cache)@ == old(request_cache)@.insert(key@, value.text()),
{
    request_cache.entries.insert(key, value);
}

/// What was stored is what is found: right after `response` was stored under
/// `key`, a lookup of `key` finds `response`, and a lookup of any other key
/// finds what it found before.
pub proof fn lemma_lookup_after_store(
    cache: Map<Seq<char>, Seq<char>>,
    key: Seq<char>,
    response: Seq<char>,
    other: Seq<char>,
)
    ensures
        cache.insert(key, response).contains_key(key),
        cache.insert(key, response)[key] == response,
        other != key
            ==> cache.insert(key, response).contains_key(other) == cache.contains_key(other),
        other != key && cache.contains_key(other) ==> cache.insert(key, response)[other]
            == cache[other],
{
}

} // verus!
