//! The generator registry: message-type identifier to generator.

use crate::entropy::{EntropySource, EntropyState};
use crate::error::FuzzError;
use crate::generator::{outcome_view, Generator, MessageView, TypedMessage};
use vstd::hash_map::StringHashMap;
use vstd::prelude::*;

verus! {

/// A mapping from message-type identifier to generator. Keys are compared
/// exactly, case included. A registry is built once and then passed by
/// reference; nothing in it is shared between two registries.
pub struct GeneratorRegistry {
    table: StringHashMap<Generator>,
}

impl View for GeneratorRegistry {
    type V = Map<Seq<char>, Generator>;

    closed spec fn view(&self) -> Map<Seq<char>, Generator> {
        self.table@
    }
}

/// What `lookup` yields on the entries `entries` for the key `type_id`.
pub open spec fn lookup_outcome(entries: Map<Seq<char>, Generator>, type_id: Seq<char>) -> Result<
    Generator,
    FuzzError,
> {
    if entries.contains_key(type_id) {
        Ok(entries[type_id])
    } else {
        Err(FuzzError::UnknownMessageType)
    }
}

/// What `generate` yields on the entries `entries` for the key `type_id`
/// from a source in state `s`.
pub open spec fn generate_outcome(
    entries: Map<Seq<char>, Generator>,
    type_id: Seq<char>,
    s: EntropyState,
) -> Result<MessageView, FuzzError> {
    match lookup_outcome(entries, type_id) {
        Ok(g) => g.outcome(s),
        Err(e) => Err(e),
    }
}

/// The state in which `generate` leaves a source that was in state `s`:
/// an unknown message type consumes nothing.
pub open spec fn generate_leaves(
    entries: Map<Seq<char>, Generator>,
    type_id: Seq<char>,
    s: EntropyState,
) -> EntropyState {
    match lookup_outcome(entries, type_id) {
        Ok(g) => g.leaves(s),
        Err(_) => s,
    }
}

impl GeneratorRegistry {
    /// A registry without entries.
    pub fn new() -> (registry: GeneratorRegistry)
        ensures
            registry@ == Map::<Seq<char>, Generator>::empty(),
    {
        GeneratorRegistry { table: StringHashMap::new() }
    }

    /// Inserts the entry for `type_id`, or silently replaces the one that
    /// was there. Every other entry stays.
    pub fn register(&mut self, type_id: &str, generator: Generator)
        ensures
            final(self)@ == old(self)@.insert(type_id@, generator),
    {
        self.table.insert(type_id.to_string(), generator);
    }

    /// Whether a generator is registered for `type_id`.
    pub fn is_registered(&self, type_id: &str) -> (b: bool)
        ensures
            b == self@.contains_key(type_id@),
    {
        self.table.contains_key(type_id)
    }

    /// The generator registered for `type_id`, or `UnknownMessageType`
    /// where there is none. No default stands in for a missing entry.
    pub fn lookup(&self, type_id: &str) -> (r: Result<Generator, FuzzError>)
        ensures
            r == lookup_outcome(self@, type_id@),
    {
        match self.table.get(type_id) {
            Some(generator) => Ok(*generator),
            None => Err(FuzzError::UnknownMessageType),
        }
    }

    /// Looks up the generator for `type_id` and invokes it on the entropy
    /// source. An unknown type leaves the source untouched.
    pub fn generate(&self, type_id: &str, u: &mut EntropySource) -> (r: Result<
        TypedMessage,
        FuzzError,
    >)
        ensures
            outcome_view(r) == generate_outcome(self@, type_id@, old(u)@),
            final(u)@ == generate_leaves(self@, type_id@, old(u)@),
    {
        match self.lookup(type_id) {
            Ok(generator) => generator.generate(u),
            Err(e) => Err(e),
        }
    }
}

/// For a registered message type, lookup succeeds, and generation from a
/// source that holds at least the generator's minimum of unread bytes does
/// not fail with `GenerationExhausted`.
pub proof fn lemma_registered_with_enough_entropy(
    entries: Map<Seq<char>, Generator>,
    type_id: Seq<char>,
    s: EntropyState,
)
    requires
        entries.contains_key(type_id),
        s.remaining() >= entries[type_id].min_entropy(),
    ensures
        lookup_outcome(entries, type_id) == Ok::<Generator, FuzzError>(entries[type_id]),
        generate_outcome(entries, type_id, s) != Err::<MessageView, FuzzError>(
            FuzzError::GenerationExhausted,
        ),
{
}

/// For an unregistered message type, lookup fails with
/// `UnknownMessageType`, and so does generation, which consumes nothing.
pub proof fn lemma_unregistered_is_unknown(
    entries: Map<Seq<char>, Generator>,
    type_id: Seq<char>,
    s: EntropyState,
)
    requires
        !entries.contains_key(type_id),
    ensures
        lookup_outcome(entries, type_id) == Err::<Generator, FuzzError>(
            FuzzError::UnknownMessageType,
        ),
        generate_outcome(entries, type_id, s) == Err::<MessageView, FuzzError>(
            FuzzError::UnknownMessageType,
        ),
        generate_leaves(entries, type_id, s) == s,
{
}

/// Registering a type twice leaves the registry as if only the second
/// registration had been made: lookup and generation use the second
/// generator, and every other entry is as it was.
pub proof fn lemma_second_registration_wins(
    entries: Map<Seq<char>, Generator>,
    type_id: Seq<char>,
    first: Generator,
    second: Generator,
    s: EntropyState,
)
    ensures
        entries.insert(type_id, first).insert(type_id, second) == entries.insert(type_id, second),
        lookup_outcome(entries.insert(type_id, first).insert(type_id, second), type_id) == Ok::<
            Generator,
            FuzzError,
        >(second),
        generate_outcome(entries.insert(type_id, first).insert(type_id, second), type_id, s)
            == second.outcome(s),
{
    assert(entries.insert(type_id, first).insert(type_id, second) =~= entries.insert(
        type_id,
        second,
    ));
}

/// Registering one type changes the lookup of no other type.
pub proof fn lemma_registration_is_local(
    entries: Map<Seq<char>, Generator>,
    type_id: Seq<char>,
    generator: Generator,
    other: Seq<char>,
)
    requires
        other != type_id,
    ensures
        lookup_outcome(entries.insert(type_id, generator), other) == lookup_outcome(entries, other),
{
}

} // verus!
