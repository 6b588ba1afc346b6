//! A registry of jobs by their hash, and the helpers of the background
//! service.

use crate::chance::random_between;
use crate::envelope::{sealed, Envelope};
use crate::ident::ID_LENGTH;
use crate::job::clock::now;
use crate::job::snapshot::{State, Timestamp};
use crate::job::worker::{protocol_at, PROTOCOLS};
use crate::text::{is_listed, text_views};
use vstd::hash_map::StringHashMap;
use vstd::prelude::*;
use vstd::string::*;

verus! {

/// Where the snapshots of a background job come from.
pub const BACKGROUND_SOURCE: &'static str = "basic.v1/Background";

/// The kind of event that carries a snapshot.
pub const BACKGROUND_KIND: &'static str = "type.googleapis.com/basic.service.v1.BackgroundResponse";

/// The type of the encoded body of such an event.
pub const BACKGROUND_DATA_TYPE: &'static str =
    "type.googleapis.com/basic.service.v1.BackgroundResponseEvent";

/// What a registry knows, hash by hash.
pub struct RegistryView {
    pub states: Map<Seq<char>, State>,
    pub started: Map<Seq<char>, Timestamp>,
    pub completed: Map<Seq<char>, Timestamp>,
    pub errors: Map<Seq<char>, Seq<Seq<char>>>,
}

/// The value of `map` at `key`, if it has one.
pub open spec fn lookup<V>(map: Map<Seq<char>, V>, key: Seq<char>) -> Option<V> {
    if map.contains_key(key) {
        Some(map[key])
    } else {
        None
    }
}

/// The errors listed under `key`; none where the key is unknown.
pub open spec fn errors_under(errors: Map<Seq<char>, Seq<Seq<char>>>, key: Seq<char>) -> Seq<
    Seq<char>,
> {
    if errors.contains_key(key) {
        errors[key]
    } else {
        Seq::empty()
    }
}

/// The view of an optional list of texts.
pub open spec fn optional_texts(texts: Option<Vec<String>>) -> Option<Seq<Seq<char>>> {
    match texts {
        Some(list) => Some(text_views(list@)),
        None => None,
    }
}

/// A registry of jobs: for each hash its state, when it started, when it
/// finished, and the errors it ran into.
pub struct StateManager {
    state: StringHashMap<State>,
    start: StringHashMap<Timestamp>,
    complete: StringHashMap<Timestamp>,
    errors: StringHashMap<Vec<String>>,
}

impl View for StateManager {
    type V = RegistryView;

    closed spec fn view(&self) -> RegistryView {
        RegistryView {
            states: self.state@,
            started: self.start@,
            completed: self.complete@,
            errors: self.errors@.map_values(|list: Vec<String>| text_views(list@)),
        }
    }
}

/// A copy of a list of texts.
fn copy_texts(list: &Vec<String>) -> (copy: Vec<String>)
    ensures
        text_views(copy@) == text_views(list@),
{
    let mut copy: Vec<String> = Vec::new();
    let mut i: usize = 0;
    while i < list.len()
        invariant
            i <= list.len(),
            text_views(copy@) == text_views(list@).take(i as int),
        decreases list.len() - i,
    {
        let ghost before = copy@;
        copy.push(list[i].clone());
        assert(text_views(copy@) =~= text_views(before).push(list@[i as int]@));
        assert(text_views(list@).take(i + 1) =~= text_views(list@).take(i as int).push(
            list@[i as int]@,
        ));
        i += 1;
    }
    assert(text_views(list@).take(i as int) =~= text_views(list@));
    copy
}

impl StateManager {
    /// A registry that knows no job.
    pub fn new() -> (registry: Self)
        ensures
            registry@ == (RegistryView {
                states: Map::empty(),
                started: Map::empty(),
                completed: Map::empty(),
                errors: Map::empty(),
            }),
    {
        let registry = StateManager {
            state: StringHashMap::new(),
            start: StringHashMap::new(),
            complete: StringHashMap::new(),
            errors: StringHashMap::new(),
        };
        assert(registry@.errors =~= Map::empty());
        registry
    }

    /// Notes that the job `hash` entered `state` and started at `at`.
    pub fn start_at(&mut self, hash: &str, state: State, at: Timestamp)
        ensures
            final(self)@ == (RegistryView {
                states: old(self)@.states.insert(hash@, state),
                started: old(self)@.started.insert(hash@, at),
                ..old(self)@
            }),
    {
        self.state.insert(hash.to_owned(), state);
        self.start.insert(hash.to_owned(), at);
    }

    /// Notes that the job `hash` entered `state` and starts now.
    pub fn start(&mut self, hash: &str, state: State)
        ensures
            final(self)@.started.contains_key(hash@),
            final(self)@.started[hash@].normal(),
            final(self)@ == (RegistryView {
                states: old(self)@.states.insert(hash@, state),
                started: old(self)@.started.insert(hash@, final(self)@.started[hash@]),
                ..old(self)@
            }),
    {
        let at = now();
        self.start_at(hash, state, at);
    }

    /// Notes that the job `hash` entered `state` and finished at `at`.
    pub fn finish_at(&mut self, hash: &str, state: State, at: Timestamp)
        ensures
            final(self)@ == (RegistryView {
                states: old(self)@.states.insert(hash@, state),
                completed: old(self)@.completed.insert(hash@, at),
                ..old(self)@
            }),
    {
        self.state.insert(hash.to_owned(), state);
        self.complete.insert(hash.to_owned(), at);
    }

    /// Notes that the job `hash` entered `state` and finishes now.
    pub fn finish(&mut self, hash: &str, state: State)
        ensures
            final(self)@.completed.contains_key(hash@),
            final(self)@.completed[hash@].normal(),
            final(self)@ == (RegistryView {
                states: old(self)@.states.insert(hash@, state),
                completed: old(self)@.completed.insert(hash@, final(self)@.completed[hash@]),
                ..old(self)@
            }),
    {
        let at = now();
        self.finish_at(hash, state, at);
    }

    /// All that is known of the job `hash`: its state, its start, its end and
    /// its errors, each as far as it was noted.
    pub fn get_state(&self, hash: &str) -> (known: (
        Option<State>,
        Option<Timestamp>,
        Option<Timestamp>,
        Option<Vec<String>>,
    ))
        ensures
            known.0 == lookup(self@.states, hash@),
            known.1 == lookup(self@.started, hash@),
            known.2 == lookup(self@.completed, hash@),
            optional_texts(known.3) == lookup(self@.errors, hash@),
    {
        let state = match self.state.get(hash) {
            Some(s) => Some(*s),
            None => None,
        };
        let start = match self.start.get(hash) {
            Some(t) => Some(*t),
            None => None,
        };
        let complete = match self.complete.get(hash) {
            Some(t) => Some(*t),
            None => None,
        };
        let errors = match self.errors.get(hash) {
            Some(list) => Some(copy_texts(list)),
            None => None,
        };
        (state, start, complete, errors)
    }

    /// Lists `err` under the job `hash`, after the errors already listed
    /// there. Without an error nothing changes.
    pub fn set_error(&mut self, hash: &str, err: Option<String>)
        ensures
            err is None ==> final(self)@ == old(self)@,
            err matches Some(error) ==> final(self)@ == (RegistryView {
                errors: old(self)@.errors.insert(
                    hash@,
                    errors_under(old(self)@.errors, hash@).push(error@),
                ),
                ..old(self)@
            }),
    {
        if let Some(error) = err {
            let mut list = match self.errors.get(hash) {
                Some(listed) => copy_texts(listed),
                None => Vec::new(),
            };
            let ghost before = text_views(list@);
            assert(before =~= errors_under(old(self)@.errors, hash@));
            list.push(error);
            assert(text_views(list@) =~= before.push(error@));
            self.errors.insert(hash.to_owned(), list);
            assert(self@.errors =~= old(self)@.errors.insert(hash@, before.push(error@)));
        }
    }

    /// Whether an error is listed under the job `hash`.
    pub fn has_errors(&self, hash: &str) -> (any: bool)
        ensures
            any == (errors_under(self@.errors, hash@).len() > 0),
    {
        match self.errors.get(hash) {
            Some(list) => {
                assert(text_views(list@).len() == list@.len());
                list.len() > 0
            },
            None => false,
        }
    }

    /// The errors listed under the job `hash`, oldest first; none where the
    /// job is unknown.
    pub fn get_errors(&self, hash: &str) -> (list: Vec<String>)
        ensures
            text_views(list@) == errors_under(self@.errors, hash@),
    {
        match self.errors.get(hash) {
            Some(list) => copy_texts(list),
            None => {
                let none: Vec<String> = Vec::new();
                assert(text_views(none@) =~= Seq::empty());
                none
            },
        }
    }
}

/// One of the protocols, picked at random.
pub fn random_protocol() -> (name: String)
    ensures
        is_listed(PROTOCOLS@, name@),
{
    let index = random_between(0, PROTOCOLS.len() - 1);
    match protocol_at(index) {
        Some(name) => name.to_owned(),
        None => PROTOCOLS[0].to_owned(),
    }
}

/// Wraps the encoded snapshot of a background job for the consumer, under a
/// fresh identifier.
pub fn create_background_response(encoded_event: Vec<u8>) -> (envelope: Envelope)
    ensures
        envelope@ == sealed(
            envelope@.id,
            BACKGROUND_SOURCE@,
            BACKGROUND_KIND@,
            BACKGROUND_DATA_TYPE@,
            encoded_event@,
        ),
        envelope@.id.len() == ID_LENGTH,
{
    Envelope::seal_fresh(BACKGROUND_SOURCE, BACKGROUND_KIND, BACKGROUND_DATA_TYPE, encoded_event)
}

} // verus!
