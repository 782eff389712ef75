//! Where API keys are kept: an operating-system store in the application, and an
//! in-memory store.

use vstd::prelude::*;

use crate::ai::error::AiError;
use crate::ai::types::{ApiKey, ProviderId};

verus! {

/// Keeps one API key per provider.
pub trait CredentialStore {
    /// Stores `key` for `provider`, replacing any earlier key.
    fn set(&mut self, provider: ProviderId, key: &ApiKey) -> Result<(), AiError>;

    /// The key stored for `provider`.
    fn get(&self, provider: ProviderId) -> Result<ApiKey, AiError>;

    /// Forgets the key of `provider`; forgetting a missing key succeeds.
    fn delete(&mut self, provider: ProviderId) -> Result<(), AiError>;
}

/// A credential store that lives in memory only.
pub struct MemoryCredentialStore {
    values: Vec<(ProviderId, ApiKey)>,
}

/// The secret of the first entry for `provider`.
pub open spec fn spec_lookup_key(entries: Seq<(ProviderId, ApiKey)>, provider: ProviderId) -> Option<
    Seq<char>,
>
    decreases entries.len(),
{
    if entries.len() == 0 {
        None
    } else if entries[0].0 == provider {
        Some(entries[0].1.secret())
    } else {
        spec_lookup_key(entries.drop_first(), provider)
    }
}

proof fn lemma_lookup_push(entries: Seq<(ProviderId, ApiKey)>, item: (ProviderId, ApiKey), p: ProviderId)
    ensures
        spec_lookup_key(entries.push(item), p) == match spec_lookup_key(entries, p) {
            Some(k) => Some(k),
            None => if item.0 == p {
                Some(item.1.secret())
            } else {
                None
            },
        },
    decreases entries.len(),
{
    if entries.len() > 0 {
        assert(entries.push(item)[0] == entries[0]);
        assert(entries.push(item).drop_first() =~= entries.drop_first().push(item));
        lemma_lookup_push(entries.drop_first(), item, p);
        if entries[0].0 != p {
            assert(spec_lookup_key(entries.push(item), p) == spec_lookup_key(
                entries.drop_first().push(item),
                p,
            ));
            assert(spec_lookup_key(entries, p) == spec_lookup_key(entries.drop_first(), p));
        }
    } else {
        assert(entries.push(item)[0] == item);
        assert(entries.push(item).drop_first() =~= Seq::<(ProviderId, ApiKey)>::empty());
        assert(spec_lookup_key(Seq::<(ProviderId, ApiKey)>::empty(), p) is None);
        assert(spec_lookup_key(entries, p) is None);
    }
}

proof fn lemma_lookup_absent(entries: Seq<(ProviderId, ApiKey)>, p: ProviderId)
    requires
        forall|i: int| 0 <= i < entries.len() ==> #[trigger] entries[i].0 != p,
    ensures
        spec_lookup_key(entries, p) is None,
    decreases entries.len(),
{
    if entries.len() > 0 {
        assert forall|i: int| 0 <= i < entries.drop_first().len() implies #[trigger] entries.drop_first()[i].0 != p by {
            assert(entries.drop_first()[i] == entries[i + 1]);
        }
        lemma_lookup_absent(entries.drop_first(), p);
    }
}

impl MemoryCredentialStore {
    /// The key stored for `provider`.
    pub closed spec fn stored(&self, provider: ProviderId) -> Option<Seq<char>> {
        spec_lookup_key(self.values@, provider)
    }

    /// An empty store.
    pub fn new() -> (store: MemoryCredentialStore)
        ensures
            forall|p: ProviderId| store.stored(p) is None,
    {
        MemoryCredentialStore { values: Vec::new() }
    }
}

impl CredentialStore for MemoryCredentialStore {
    fn set(&mut self, provider: ProviderId, key: &ApiKey) -> (r: Result<(), AiError>)
        ensures
            r is Ok,
            final(self).stored(provider) == Some(key.secret()),
            forall|p: ProviderId| p != provider ==> final(self).stored(p) == old(self).stored(p),
    {
        let mut kept: Vec<(ProviderId, ApiKey)> = Vec::new();
        let mut i: usize = 0;
        assert(self.values@.skip(0) =~= self.values@);
        while i < self.values.len()
            invariant
                i <= self.values.len(),
                forall|j: int| 0 <= j < kept.len() ==> #[trigger] kept@[j].0 != provider,
                forall|p: ProviderId|
                    p != provider ==> spec_lookup_key(self.values@, p) == match spec_lookup_key(
                        kept@,
                        p,
                    ) {
                        Some(k) => Some(k),
                        None => spec_lookup_key(self.values@.skip(i as int), p),
                    },
            decreases self.values.len() - i,
        {
            proof {
                assert(self.values@.skip(i as int).drop_first() =~= self.values@.skip(i + 1));
                assert(self.values@.skip(i as int)[0] == self.values@[i as int]);
            }
            if self.values[i].0 != provider {
                let entry = (self.values[i].0, self.values[i].1.clone());
                proof {
                    assert forall|p: ProviderId| p != provider implies spec_lookup_key(
                        kept@.push(entry),
                        p,
                    ) == match spec_lookup_key(kept@, p) {
                        Some(k) => Some(k),
                        None => if entry.0 == p {
                            Some(entry.1.secret())
                        } else {
                            None
                        },
                    } by {
                        lemma_lookup_push(kept@, entry, p);
                    }
                }
                kept.push(entry);
            }
            i = i + 1;
        }
        let ghost before = kept@;
        kept.push((provider, key.clone()));
        proof {
            lemma_lookup_absent(before, provider);
            lemma_lookup_push(before, (provider, kept@[before.len() as int].1), provider);
            assert(kept@ == before.push((provider, kept@[before.len() as int].1)));
            assert forall|p: ProviderId| p != provider implies spec_lookup_key(kept@, p)
                == spec_lookup_key(self.values@, p) by {
                lemma_lookup_push(before, (provider, kept@[before.len() as int].1), p);
                assert(self.values@.skip(self.values.len() as int).len() == 0);
            }
        }
        self.values = kept;
        Ok(())
    }

    fn get(&self, provider: ProviderId) -> (r: Result<ApiKey, AiError>)
        ensures
            match self.stored(provider) {
                Some(k) => (r matches Ok(key) && key.secret() == k),
                None => r matches Err(AiError::CredentialMissing),
            },
    {
        let mut i: usize = 0;
        assert(self.values@.skip(0) =~= self.values@);
        while i < self.values.len()
            invariant
                i <= self.values.len(),
                spec_lookup_key(self.values@, provider) == spec_lookup_key(
                    self.values@.skip(i as int),
                    provider,
                ),
            decreases self.values.len() - i,
        {
            proof {
                assert(self.values@.skip(i as int).drop_first() =~= self.values@.skip(i + 1));
                assert(self.values@.skip(i as int)[0] == self.values@[i as int]);
            }
            if self.values[i].0 == provider {
                return Ok(self.values[i].1.clone());
            }
            i = i + 1;
        }
        Err(AiError::CredentialMissing)
    }

    fn delete(&mut self, provider: ProviderId) -> (r: Result<(), AiError>)
        ensures
            r is Ok,
            final(self).stored(provider) is None,
            forall|p: ProviderId| p != provider ==> final(self).stored(p) == old(self).stored(p),
    {
        let mut kept: Vec<(ProviderId, ApiKey)> = Vec::new();
        let mut i: usize = 0;
        assert(self.values@.skip(0) =~= self.values@);
        while i < self.values.len()
            invariant
                i <= self.values.len(),
                forall|j: int| 0 <= j < kept.len() ==> #[trigger] kept@[j].0 != provider,
                forall|p: ProviderId|
                    p != provider ==> spec_lookup_key(self.values@, p) == match spec_lookup_key(
                        kept@,
                        p,
                    ) {
                        Some(k) => Some(k),
                        None => spec_lookup_key(self.values@.skip(i as int), p),
                    },
            decreases self.values.len() - i,
        {
            proof {
                assert(self.values@.skip(i as int).drop_first() =~= self.values@.skip(i + 1));
                assert(self.values@.skip(i as int)[0] == self.values@[i as int]);
            }
            if self.values[i].0 != provider {
                let entry = (self.values[i].0, self.values[i].1.clone());
                proof {
                    assert forall|p: ProviderId| p != provider implies spec_lookup_key(
                        kept@.push(entry),
                        p,
                    ) == match spec_lookup_key(kept@, p) {
                        Some(k) => Some(k),
                        None => if entry.0 == p {
                            Some(entry.1.secret())
                        } else {
                            None
                        },
                    } by {
                        lemma_lookup_push(kept@, entry, p);
                    }
                }
                kept.push(entry);
            }
            i = i + 1;
        }
        proof {
            lemma_lookup_absent(kept@, provider);
            assert forall|p: ProviderId| p != provider implies spec_lookup_key(kept@, p)
                == spec_lookup_key(self.values@, p) by {
                assert(self.values@.skip(self.values.len() as int).len() == 0);
            }
        }
        self.values = kept;
        Ok(())
    }
}

/// What was set can be read back, and a deleted key is gone, whatever else the store held:
/// the stored secret after `set` is the key's, and after a following `delete` nothing is
/// stored for that provider while other providers keep their keys.
pub proof fn law_set_get_delete_round_trip(
    before: MemoryCredentialStore,
    after_set: MemoryCredentialStore,
    after_delete: MemoryCredentialStore,
    provider: ProviderId,
    key: ApiKey,
    other: ProviderId,
)
    requires
        after_set.stored(provider) == Some(key.secret()),
        forall|p: ProviderId| p != provider ==> after_set.stored(p) == before.stored(p),
        after_delete.stored(provider) is None,
        forall|p: ProviderId| p != provider ==> after_delete.stored(p) == after_set.stored(p),
        other != provider,
    ensures
        after_set.stored(provider) == Some(key.secret()),
        after_delete.stored(provider) is None,
        after_delete.stored(other) == before.stored(other),
{
}

} // verus!
