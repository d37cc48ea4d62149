//! The provider registry: the sole entry point consumers use to obtain a
//! model. It maps a model identifier string to a registered language model
//! and reports lookup failures as [`NoSuchModelError`].

use vstd::prelude::*;
use crate::errors::NoSuchModelError;
use crate::language_model::LanguageModelV1;
use crate::language_model::descriptor_eq;

verus! {

/// The language model type the registry hands out.
pub type LanguageModel = LanguageModelV1;

/// First-match lookup of `id` among `entries`, by exact identifier match.
pub open spec fn spec_lookup(
    entries: Seq<(String, LanguageModelV1)>,
    id: Seq<char>,
) -> Option<LanguageModelV1>
    decreases entries.len(),
{
    if entries.len() == 0 {
        None
    } else if entries[0].0@ == id {
        Some(entries[0].1)
    } else {
        spec_lookup(entries.drop_first(), id)
    }
}

/// Where the first `i` entries do not carry `id`, the lookup is decided by
/// the remaining entries alone.
proof fn lemma_lookup_skip(entries: Seq<(String, LanguageModelV1)>, id: Seq<char>, i: int)
    requires
        0 <= i <= entries.len(),
        forall|j: int| 0 <= j < i ==> entries[j].0@ != id,
    ensures
        spec_lookup(entries, id) == spec_lookup(entries.skip(i), id),
    decreases i,
{
    if i > 0 {
        let rest = entries.drop_first();
        assert(entries[0].0@ != id);
        assert(forall|j: int| 0 <= j < i - 1 ==> #[trigger] rest[j].0@ != id) by {
            assert(forall|j: int| 0 <= j < i - 1 ==> #[trigger] rest[j] == entries[j + 1]);
        }
        lemma_lookup_skip(rest, id, i - 1);
        assert(rest.skip(i - 1) =~= entries.skip(i));
    } else {
        assert(entries.skip(0) =~= entries);
    }
}

/// Maps model identifiers to registered language models. Entries are never
/// removed or mutated after registration; identifiers are unique because a
/// second registration under an identifier already present is refused.
pub struct ProviderRegistry {
    entries: Vec<(String, LanguageModelV1)>,
}

impl ProviderRegistry {
    /// The model registered under `id`, if any.
    pub closed spec fn resolved(&self, id: Seq<char>) -> Option<LanguageModelV1> {
        spec_lookup(self.entries@, id)
    }

    /// An empty registry: every lookup misses.
    pub fn new() -> (reg: ProviderRegistry)
        ensures
            forall|id: Seq<char>| reg.resolved(id) is None,
    {
        ProviderRegistry { entries: Vec::new() }
    }

    /// The index of the entry carrying `model_id`, where one exists.
    fn find_index(&self, model_id: &str) -> (r: Option<usize>)
        ensures
            match r {
                Some(i) => {
                    &&& i < self.entries@.len()
                    &&& self.entries@[i as int].0@ == model_id@
                    &&& self.resolved(model_id@) == Some(self.entries@[i as int].1)
                },
                None => self.resolved(model_id@) is None,
            },
    {
        let key: String = model_id.to_owned();
        let n = self.entries.len();
        let mut i: usize = 0;
        while i < n
            invariant
                n == self.entries@.len(),
                key@ == model_id@,
                0 <= i <= n,
                forall|j: int| 0 <= j < i ==> self.entries@[j].0@ != model_id@,
            decreases n - i,
        {
            if self.entries[i].0 == key {
                proof {
                    lemma_lookup_skip(self.entries@, model_id@, i as int);
                }
                return Some(i);
            }
            i = i + 1;
        }
        proof {
            lemma_lookup_skip(self.entries@, model_id@, n as int);
            assert(self.entries@.skip(n as int) =~= Seq::<(String, LanguageModelV1)>::empty());
        }
        None
    }

    /// Looks a model up by exact identifier match. Succeeds exactly on the
    /// registered identifiers; a miss fails with a [`NoSuchModelError`] that
    /// carries the requested identifier.
    pub fn resolve(&self, model_id: &str) -> (r: Result<&LanguageModelV1, NoSuchModelError>)
        ensures
            match r {
                Ok(m) => self.resolved(model_id@) == Some(*m),
                Err(e) => self.resolved(model_id@) is None && e.id() == model_id@,
            },
    {
        match self.find_index(model_id) {
            Some(i) => Ok(&self.entries[i].1),
            None => Err(NoSuchModelError::new(model_id.to_owned())),
        }
    }

    /// Registers `model` under its own identifier. Returns whether the
    /// identifier was fresh: an identifier already registered keeps its
    /// original entry, and the registry is left unchanged.
    pub fn register(&mut self, model: LanguageModelV1) -> (fresh: bool)
        ensures
            fresh == (old(self).resolved(model.model_id@) is None),
            !fresh ==> *final(self) == *old(self),
            fresh ==> final(self).resolved(model.model_id@) == Some(model),
            fresh ==> forall|id: Seq<char>|
                id != model.model_id@ ==> final(self).resolved(id) == old(self).resolved(id),
    {
        let taken = self.find_index(model.model_id.as_str()).is_some();
        if taken {
            false
        } else {
            let ghost prior = self.entries@;
            let key = model.model_id.clone();
            self.entries.insert(0, (key, model));
            proof {
                prior.insert_ensures(0, (key, model));
                assert(self.entries@[0] == (key, model));
                assert(self.entries@.drop_first() =~= prior);
            }
            true
        }
    }
}

/// Base contract for providers to build upon: a named source of language
/// models that returns the model registered under a given id, and fails a
/// lookup with a [`NoSuchModelError`] carrying that id.
pub trait Provider {
    /// Returns the language model with the given id.
    ///
    /// Fails with a `NoSuchModelError` if no such model exists.
    fn language_model(&self, model_id: &str) -> (r: Result<LanguageModel, NoSuchModelError>)
        ensures
            r matches Err(e) ==> e.id() == model_id@,
    ;
}

impl Provider for ProviderRegistry {
    fn language_model(&self, model_id: &str) -> (r: Result<LanguageModel, NoSuchModelError>)
        ensures
            match r {
                Ok(m) => self.resolved(model_id@) matches Some(f) && descriptor_eq(m, f),
                Err(e) => self.resolved(model_id@) is None && e.id() == model_id@,
            },
    {
        match self.resolve(model_id) {
            Ok(m) => Ok(m.duplicate()),
            Err(e) => Err(e),
        }
    }
}

/// Law: the model a registry resolves for an identifier is a function of the
/// registry and the identifier alone, so resolving the same identifier twice
/// yields capability instances with identical descriptors.
pub proof fn lemma_resolve_deterministic(
    reg: ProviderRegistry,
    id: Seq<char>,
    a: LanguageModelV1,
    b: LanguageModelV1,
)
    requires
        reg.resolved(id) == Some(a),
        reg.resolved(id) == Some(b),
    ensures
        a.model_id@ == b.model_id@,
        a.provider@ == b.provider@,
        descriptor_eq(a, b),
{
}

} // verus!
