//! The provider registry and the snapshot of credentials: read-only lookups
//! from a provider id to what is known of that provider.

use vstd::prelude::*;
use crate::text::{blank, is_blank, pairs_view, str_eq};
use crate::types::{AuthType, ProviderConfig, ProviderConfigV};

verus! {

/// The providers known to the gateway, in registration order.
#[derive(Debug, PartialEq)]
pub struct ProviderRegistry {
    pub providers: Vec<ProviderConfig>,
}

impl View for ProviderRegistry {
    type V = Seq<ProviderConfigV>;

    open spec fn view(&self) -> Seq<ProviderConfigV> {
        self.providers@.map_values(|p: ProviderConfig| p@)
    }
}

/// The secrets held for providers, as pairs of provider id and secret.
#[derive(Debug, Clone, PartialEq)]
pub struct ApiKeyMap {
    pub entries: Vec<(String, String)>,
}

impl View for ApiKeyMap {
    type V = Seq<(Seq<char>, Seq<char>)>;

    open spec fn view(&self) -> Seq<(Seq<char>, Seq<char>)> {
        pairs_view(self.entries@)
    }
}

/// The position of the first provider of `registry` with id `id`.
pub open spec fn provider_position(registry: Seq<ProviderConfigV>, id: Seq<char>) -> Option<int>
    decreases registry.len(),
{
    if registry.len() == 0 {
        None
    } else {
        match provider_position(registry.drop_last(), id) {
            Some(i) => Some(i),
            None => if registry.last().id == id {
                Some(registry.len() - 1)
            } else {
                None
            },
        }
    }
}

/// The first provider of `registry` with id `id`.
pub open spec fn find_provider(registry: Seq<ProviderConfigV>, id: Seq<char>) -> Option<
    ProviderConfigV,
> {
    match provider_position(registry, id) {
        Some(i) => Some(registry[i]),
        None => None,
    }
}

/// Whether `keys` holds a secret for `id` that is more than whitespace.
pub open spec fn has_secret(keys: Seq<(Seq<char>, Seq<char>)>, id: Seq<char>) -> bool {
    exists|i: int| 0 <= i < keys.len() && (#[trigger] keys[i]).0 == id && !is_blank(keys[i].1)
}

/// Whether provider `id` is registered and can authenticate: it needs no
/// secret, or `keys` holds one for it.
pub open spec fn usable(
    registry: Seq<ProviderConfigV>,
    keys: Seq<(Seq<char>, Seq<char>)>,
    id: Seq<char>,
) -> bool {
    match find_provider(registry, id) {
        Some(p) => p.auth_type == AuthType::NoAuth || has_secret(keys, id),
        None => false,
    }
}

/// What `provider_position` returns: the least index whose provider has the id.
pub proof fn lemma_provider_position(registry: Seq<ProviderConfigV>, id: Seq<char>)
    ensures
        match provider_position(registry, id) {
            Some(i) => 0 <= i < registry.len() && registry[i].id == id && forall|j: int|
                0 <= j < i ==> (#[trigger] registry[j]).id != id,
            None => forall|j: int| 0 <= j < registry.len() ==> (#[trigger] registry[j]).id != id,
        },
    decreases registry.len(),
{
    if registry.len() > 0 {
        let init = registry.drop_last();
        lemma_provider_position(init, id);
        match provider_position(init, id) {
            Some(i) => {
                assert forall|j: int| 0 <= j < i implies (#[trigger] registry[j]).id != id by {
                    assert(init[j] == registry[j]);
                }
                assert(init[i] == registry[i]);
            },
            None => {
                assert forall|j: int| 0 <= j < registry.len() - 1 implies (
                #[trigger] registry[j]).id != id by {
                    assert(init[j] == registry[j]);
                }
            },
        }
    }
}

impl ProviderRegistry {
    /// A registry of `providers`.
    pub fn new(providers: Vec<ProviderConfig>) -> (registry: ProviderRegistry)
        ensures
            registry.providers == providers,
    {
        ProviderRegistry { providers }
    }

    /// The first provider registered under `id`.
    pub fn provider(&self, id: &str) -> (found: Option<&ProviderConfig>)
        ensures
            match found {
                Some(p) => find_provider(self@, id@) == Some(p@),
                None => find_provider(self@, id@) is None,
            },
    {
        let mut i: usize = 0;
        while i < self.providers.len()
            invariant
                i <= self.providers.len(),
                forall|j: int| 0 <= j < i ==> (#[trigger] self@[j]).id != id@,
            decreases self.providers.len() - i,
        {
            if str_eq(self.providers[i].id.as_str(), id) {
                proof {
                    lemma_provider_position(self@, id@);
                    assert(self@[i as int].id == id@);
                }
                return Some(&self.providers[i]);
            }
            i += 1;
        }
        proof {
            lemma_provider_position(self@, id@);
        }
        None
    }
}

impl ApiKeyMap {
    /// Tells whether a secret that is more than whitespace is held for `id`.
    pub fn has_key(&self, id: &str) -> (held: bool)
        ensures
            held == has_secret(self@, id@),
    {
        let mut i: usize = 0;
        while i < self.entries.len()
            invariant
                i <= self.entries.len(),
                forall|j: int|
                    0 <= j < i ==> !((#[trigger] self@[j]).0 == id@ && !is_blank(self@[j].1)),
            decreases self.entries.len() - i,
        {
            if str_eq(self.entries[i].0.as_str(), id) && !blank(self.entries[i].1.as_str()) {
                assert(self@[i as int].0 == id@ && !is_blank(self@[i as int].1));
                return true;
            }
            i += 1;
        }
        false
    }
}

/// Tells whether provider `id` is registered and can authenticate.
pub fn is_usable(registry: &ProviderRegistry, keys: &ApiKeyMap, id: &str) -> (ok: bool)
    ensures
        ok == usable(registry@, keys@, id@),
{
    match registry.provider(id) {
        Some(p) => match p.auth_type {
            AuthType::NoAuth => true,
            _ => keys.has_key(id),
        },
        None => false,
    }
}

} // verus!
