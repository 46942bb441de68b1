//! The model catalog: which providers serve a model, in priority order, under
//! which provider-side name, and with which capabilities.

use vstd::prelude::*;
use crate::providers::{is_usable, usable, ApiKeyMap, ProviderRegistry};
use crate::text::{
    clone_opt, concat3, find_last, index_of, last_index_of, lemma_index_of, lemma_last_index_of,
    opt_view, slice, str_eq, to_chars,
};
use crate::types::{ErrorKind, GatewayError, GatewayErrorV, ProviderConfigV};

verus! {

/// One provider that serves a model, with the name the provider knows the
/// model by where that differs from the catalog key.
#[derive(Debug, Clone, PartialEq)]
pub struct ModelProvider {
    pub provider_id: String,
    pub model_name: Option<String>,
}

/// One model of the catalog. `providers` is in priority order.
#[derive(Debug, Clone, PartialEq)]
pub struct ModelConfig {
    pub key: String,
    pub providers: Vec<ModelProvider>,
    pub image_input: bool,
    pub image_output: bool,
}

/// The catalog. The order of `models` is the order of a capability scan.
#[derive(Debug, Clone, PartialEq)]
pub struct ModelsConfiguration {
    pub models: Vec<ModelConfig>,
}

/// What a feature may need of a model.
#[derive(Debug, Clone, Copy, PartialEq, Eq, Structural)]
pub enum Capability {
    /// The model answers with text.
    Text,
    /// The model accepts images.
    ImageInput,
    /// The model answers with images.
    ImageOutput,
}

/// A candidate: a provider and the model as that provider names it.
#[derive(Debug, Clone, PartialEq)]
pub struct ResolvedModel {
    pub provider_id: String,
    pub model_key: String,
    pub model_name: String,
}

pub ghost struct ModelProviderV {
    pub provider_id: Seq<char>,
    pub model_name: Option<Seq<char>>,
}

pub ghost struct ModelConfigV {
    pub key: Seq<char>,
    pub providers: Seq<ModelProviderV>,
    pub image_input: bool,
    pub image_output: bool,
}

pub ghost struct ResolvedModelV {
    pub provider_id: Seq<char>,
    pub model_key: Seq<char>,
    pub model_name: Seq<char>,
}

impl View for ModelProvider {
    type V = ModelProviderV;

    open spec fn view(&self) -> ModelProviderV {
        ModelProviderV { provider_id: self.provider_id@, model_name: opt_view(self.model_name) }
    }
}

impl View for ModelConfig {
    type V = ModelConfigV;

    open spec fn view(&self) -> ModelConfigV {
        ModelConfigV {
            key: self.key@,
            providers: self.providers@.map_values(|p: ModelProvider| p@),
            image_input: self.image_input,
            image_output: self.image_output,
        }
    }
}

impl View for ModelsConfiguration {
    type V = Seq<ModelConfigV>;

    open spec fn view(&self) -> Seq<ModelConfigV> {
        self.models@.map_values(|m: ModelConfig| m@)
    }
}

impl View for ResolvedModel {
    type V = ResolvedModelV;

    open spec fn view(&self) -> ResolvedModelV {
        ResolvedModelV {
            provider_id: self.provider_id@,
            model_key: self.model_key@,
            model_name: self.model_name@,
        }
    }
}

/// The contents of a list of candidates.
pub open spec fn candidates_view(list: Seq<ResolvedModel>) -> Seq<ResolvedModelV> {
    list.map_values(|c: ResolvedModel| c@)
}

/// The keys of a catalog, model by model.
pub open spec fn model_keys(models: Seq<ModelConfigV>) -> Seq<Seq<char>> {
    models.map_values(|m: ModelConfigV| m.key)
}

/// The provider ids of a model's entries, entry by entry.
pub open spec fn entry_ids(entries: Seq<ModelProviderV>) -> Seq<Seq<char>> {
    entries.map_values(|e: ModelProviderV| e.provider_id)
}

/// The first model of the catalog with key `key`.
pub open spec fn find_model(models: Seq<ModelConfigV>, key: Seq<char>) -> Option<ModelConfigV> {
    match index_of(model_keys(models), key) {
        Some(i) => Some(models[i]),
        None => None,
    }
}

/// The first entry of `model` for provider `id`.
pub open spec fn find_entry(model: ModelConfigV, id: Seq<char>) -> Option<ModelProviderV> {
    match index_of(entry_ids(model.providers), id) {
        Some(i) => Some(model.providers[i]),
        None => None,
    }
}

/// Whether `model` advertises `capability`.
pub open spec fn advertises(model: ModelConfigV, capability: Capability) -> bool {
    match capability {
        Capability::Text => !model.image_output,
        Capability::ImageInput => model.image_input,
        Capability::ImageOutput => model.image_output,
    }
}

/// The candidate that `entry` of `model` stands for.
pub open spec fn resolved(model: ModelConfigV, entry: ModelProviderV) -> ResolvedModelV {
    ResolvedModelV {
        provider_id: entry.provider_id,
        model_key: model.key,
        model_name: match entry.model_name {
            Some(n) => n,
            None => model.key,
        },
    }
}

/// The candidates among `entries` whose provider is usable, in the order of
/// `entries`.
pub open spec fn usable_candidates(
    model: ModelConfigV,
    entries: Seq<ModelProviderV>,
    registry: Seq<ProviderConfigV>,
    keys: Seq<(Seq<char>, Seq<char>)>,
) -> Seq<ResolvedModelV>
    decreases entries.len(),
{
    if entries.len() == 0 {
        Seq::empty()
    } else {
        let before = usable_candidates(model, entries.drop_last(), registry, keys);
        if usable(registry, keys, entries.last().provider_id) {
            before.push(resolved(model, entries.last()))
        } else {
            before
        }
    }
}

/// A model identifier taken apart at its last `@`: the model key, and the
/// provider it is pinned to where there is one.
pub open spec fn split_identifier(identifier: Seq<char>) -> (Seq<char>, Option<Seq<char>>) {
    match last_index_of(identifier, '@') {
        Some(i) => (identifier.take(i), Some(identifier.skip(i + 1))),
        None => (identifier, None),
    }
}

/// The failure for a provider that is not registered.
pub open spec fn unknown_provider(id: Seq<char>) -> GatewayErrorV {
    GatewayErrorV { kind: ErrorKind::Configuration, message: "Provider not registered: "@ + id }
}

/// The failure for a model that the catalog does not hold.
pub open spec fn unknown_model(key: Seq<char>) -> GatewayErrorV {
    GatewayErrorV { kind: ErrorKind::Configuration, message: "Model not found: "@ + key }
}

/// The failure for a provider that does not serve the model it is pinned to.
pub open spec fn not_served(key: Seq<char>, id: Seq<char>) -> GatewayErrorV {
    GatewayErrorV {
        kind: ErrorKind::Configuration,
        message: key + " is not served by provider "@ + id,
    }
}

/// The failure for a provider without a usable secret.
pub open spec fn no_credentials(id: Seq<char>) -> GatewayErrorV {
    GatewayErrorV { kind: ErrorKind::Credential, message: "No credentials for provider: "@ + id }
}

/// The failure for a model none of whose providers is usable.
pub open spec fn no_provider(key: Seq<char>) -> GatewayErrorV {
    GatewayErrorV {
        kind: ErrorKind::Configuration,
        message: "No available provider for model: "@ + key,
    }
}

/// Every candidate for `identifier`, in priority order, or why there is none.
///
/// Pinned (`model@provider`): the provider must be registered, serve the
/// model and be usable; the list then holds that one candidate. Bare: the
/// list holds every usable provider of the model in catalog order, and an
/// empty list is a failure.
pub open spec fn spec_candidates(
    identifier: Seq<char>,
    registry: Seq<ProviderConfigV>,
    keys: Seq<(Seq<char>, Seq<char>)>,
    models: Seq<ModelConfigV>,
) -> Result<Seq<ResolvedModelV>, GatewayErrorV> {
    let (key, pinned) = split_identifier(identifier);
    match pinned {
        Some(id) => {
            if crate::providers::find_provider(registry, id) is None {
                Err(unknown_provider(id))
            } else {
                match find_model(models, key) {
                    None => Err(unknown_model(key)),
                    Some(model) => match find_entry(model, id) {
                        None => Err(not_served(key, id)),
                        Some(entry) => if usable(registry, keys, id) {
                            Ok(seq![resolved(model, entry)])
                        } else {
                            Err(no_credentials(id))
                        },
                    },
                }
            }
        },
        None => match find_model(models, key) {
            None => Err(unknown_model(key)),
            Some(model) => {
                let all = usable_candidates(model, model.providers, registry, keys);
                if all.len() == 0 {
                    Err(no_provider(key))
                } else {
                    Ok(all)
                }
            },
        },
    }
}

impl ModelProvider {
    /// A copy with the same content.
    pub fn duplicate(&self) -> (copy: ModelProvider)
        ensures
            copy@ == self@,
    {
        ModelProvider {
            provider_id: self.provider_id.clone(),
            model_name: clone_opt(&self.model_name),
        }
    }
}

impl ResolvedModel {
    /// A copy with the same content.
    pub fn duplicate(&self) -> (copy: ResolvedModel)
        ensures
            copy@ == self@,
    {
        ResolvedModel {
            provider_id: self.provider_id.clone(),
            model_key: self.model_key.clone(),
            model_name: self.model_name.clone(),
        }
    }
}

impl ModelConfig {
    /// The first entry for provider `id`.
    pub fn entry(&self, id: &str) -> (found: Option<&ModelProvider>)
        ensures
            match found {
                Some(e) => find_entry(self@, id@) == Some(e@),
                None => find_entry(self@, id@) is None,
            },
    {
        let ghost ids = entry_ids(self@.providers);
        let mut i: usize = 0;
        while i < self.providers.len()
            invariant
                i <= self.providers.len(),
                ids == entry_ids(self@.providers),
                forall|j: int| 0 <= j < i ==> ids[j] != id@,
            decreases self.providers.len() - i,
        {
            if str_eq(self.providers[i].provider_id.as_str(), id) {
                proof {
                    crate::text::lemma_index_of_is(ids, id@, i as int);
                }
                return Some(&self.providers[i]);
            }
            i += 1;
        }
        proof {
            crate::text::lemma_index_of_none(ids, id@);
        }
        None
    }

    /// Tells whether this model advertises `capability`.
    pub fn has_capability(&self, capability: Capability) -> (b: bool)
        ensures
            b == advertises(self@, capability),
    {
        match capability {
            Capability::Text => !self.image_output,
            Capability::ImageInput => self.image_input,
            Capability::ImageOutput => self.image_output,
        }
    }

    /// The candidate that `entry` of this model stands for.
    pub fn candidate(&self, entry: &ModelProvider) -> (c: ResolvedModel)
        ensures
            c@ == resolved(self@, entry@),
    {
        let model_name = match &entry.model_name {
            Some(n) => n.clone(),
            None => self.key.clone(),
        };
        ResolvedModel {
            provider_id: entry.provider_id.clone(),
            model_key: self.key.clone(),
            model_name,
        }
    }
}

impl ModelsConfiguration {
    /// The first model with key `key`.
    pub fn model(&self, key: &str) -> (found: Option<&ModelConfig>)
        ensures
            match found {
                Some(m) => find_model(self@, key@) == Some(m@),
                None => find_model(self@, key@) is None,
            },
    {
        let ghost ks = model_keys(self@);
        let mut i: usize = 0;
        while i < self.models.len()
            invariant
                i <= self.models.len(),
                ks == model_keys(self@),
                forall|j: int| 0 <= j < i ==> ks[j] != key@,
            decreases self.models.len() - i,
        {
            if str_eq(self.models[i].key.as_str(), key) {
                proof {
                    crate::text::lemma_index_of_is(ks, key@, i as int);
                }
                return Some(&self.models[i]);
            }
            i += 1;
        }
        proof {
            crate::text::lemma_index_of_none(ks, key@);
        }
        None
    }
}

/// Takes a model identifier apart at its last `@`.
pub fn parse_identifier(identifier: &str) -> (parts: (String, Option<String>))
    ensures
        (parts.0@, opt_view(parts.1)) == split_identifier(identifier@),
{
    let chars = to_chars(identifier);
    proof {
        lemma_last_index_of(chars@, '@');
    }
    match find_last(&chars, '@') {
        Some(i) => {
            let key = slice(identifier, 0, i);
            let id = slice(identifier, i + 1, chars.len());
            (key, Some(id))
        },
        None => (crate::text::owned(identifier), None),
    }
}

/// The registry of models: resolution of identifiers against the catalog.
pub struct ModelRegistry;

impl ModelRegistry {
    /// Every candidate for `identifier`, in priority order.
    pub fn candidates(
        identifier: &str,
        keys: &ApiKeyMap,
        registry: &ProviderRegistry,
        models: &ModelsConfiguration,
    ) -> (result: Result<Vec<ResolvedModel>, GatewayError>)
        ensures
            match result {
                Ok(list) => spec_candidates(identifier@, registry@, keys@, models@) == Ok::<
                    Seq<ResolvedModelV>,
                    GatewayErrorV,
                >(candidates_view(list@)),
                Err(e) => spec_candidates(identifier@, registry@, keys@, models@) == Err::<
                    Seq<ResolvedModelV>,
                    GatewayErrorV,
                >(e@),
            },
    {
        let (key, pinned) = parse_identifier(identifier);
        match pinned {
            Some(id) => {
                if registry.provider(id.as_str()).is_none() {
                    return Err(
                        GatewayError::about(
                            ErrorKind::Configuration,
                            "Provider not registered: ",
                            id.as_str(),
                        ),
                    );
                }
                match models.model(key.as_str()) {
                    None => Err(
                        GatewayError::about(
                            ErrorKind::Configuration,
                            "Model not found: ",
                            key.as_str(),
                        ),
                    ),
                    Some(model) => match model.entry(id.as_str()) {
                        None => Err(
                            GatewayError {
                                kind: ErrorKind::Configuration,
                                message: concat3(
                                    key.as_str(),
                                    " is not served by provider ",
                                    id.as_str(),
                                ),
                            },
                        ),
                        Some(entry) => if is_usable(registry, keys, id.as_str()) {
                            let mut list: Vec<ResolvedModel> = Vec::new();
                            list.push(model.candidate(entry));
                            assert(candidates_view(list@) =~= seq![resolved(model@, entry@)]);
                            Ok(list)
                        } else {
                            Err(
                                GatewayError::about(
                                    ErrorKind::Credential,
                                    "No credentials for provider: ",
                                    id.as_str(),
                                ),
                            )
                        },
                    },
                }
            },
            None => match models.model(key.as_str()) {
                None => Err(
                    GatewayError::about(ErrorKind::Configuration, "Model not found: ", key.as_str()),
                ),
                Some(model) => {
                    let mut list: Vec<ResolvedModel> = Vec::new();
                    let mut i: usize = 0;
                    while i < model.providers.len()
                        invariant
                            i <= model.providers.len(),
                            candidates_view(list@) == usable_candidates(
                                model@,
                                model@.providers.take(i as int),
                                registry@,
                                keys@,
                            ),
                        decreases model.providers.len() - i,
                    {
                        let entry = &model.providers[i];
                        proof {
                            assert(model@.providers.take(i + 1).drop_last() =~= model@.providers.take(
                                i as int,
                            ));
                        }
                        if is_usable(registry, keys, entry.provider_id.as_str()) {
                            let c = model.candidate(entry);
                            list.push(c);
                        }
                        i += 1;
                    }
                    proof {
                        assert(model@.providers.take(i as int) =~= model@.providers);
                    }
                    if list.len() == 0 {
                        Err(
                            GatewayError::about(
                                ErrorKind::Configuration,
                                "No available provider for model: ",
                                key.as_str(),
                            ),
                        )
                    } else {
                        Ok(list)
                    }
                },
            },
        }
    }

    /// The model key and the provider that serve `identifier` first.
    pub fn get_model_provider(
        identifier: &str,
        keys: &ApiKeyMap,
        registry: &ProviderRegistry,
        models: &ModelsConfiguration,
    ) -> (result: Result<(String, String), GatewayError>)
        ensures
            match result {
                Ok(pair) => match spec_candidates(identifier@, registry@, keys@, models@) {
                    Ok(list) => list.len() > 0 && pair.0@ == list[0].model_key && pair.1@
                        == list[0].provider_id,
                    Err(_) => false,
                },
                Err(e) => spec_candidates(identifier@, registry@, keys@, models@) == Err::<
                    Seq<ResolvedModelV>,
                    GatewayErrorV,
                >(e@),
            },
    {
        match Self::candidates(identifier, keys, registry, models) {
            Ok(list) => {
                assert(list.len() > 0) by {
                    lemma_candidates_nonempty(identifier@, registry@, keys@, models@);
                }
                Ok((list[0].model_key.clone(), list[0].provider_id.clone()))
            },
            Err(e) => Err(e),
        }
    }

    /// The name under which provider `provider_id` knows model `model_key`:
    /// the name the catalog gives for that provider, or else the key itself.
    pub fn resolve_provider_model_name(
        model_key: &str,
        provider_id: &str,
        models: &ModelsConfiguration,
    ) -> (name: String)
        ensures
            name@ == spec_provider_model_name(model_key@, provider_id@, models@),
    {
        match models.model(model_key) {
            Some(model) => match model.entry(provider_id) {
                Some(entry) => match &entry.model_name {
                    Some(n) => n.clone(),
                    None => crate::text::owned(model_key),
                },
                None => crate::text::owned(model_key),
            },
            None => crate::text::owned(model_key),
        }
    }
}

/// The name under which a provider knows a model.
pub open spec fn spec_provider_model_name(
    model_key: Seq<char>,
    provider_id: Seq<char>,
    models: Seq<ModelConfigV>,
) -> Seq<char> {
    match find_model(models, model_key) {
        Some(model) => match find_entry(model, provider_id) {
            Some(entry) => match entry.model_name {
                Some(n) => n,
                None => model_key,
            },
            None => model_key,
        },
        None => model_key,
    }
}

/// A successful resolution has at least one candidate.
pub proof fn lemma_candidates_nonempty(
    identifier: Seq<char>,
    registry: Seq<ProviderConfigV>,
    keys: Seq<(Seq<char>, Seq<char>)>,
    models: Seq<ModelConfigV>,
)
    ensures
        match spec_candidates(identifier, registry, keys, models) {
            Ok(list) => list.len() > 0,
            Err(_) => true,
        },
{
}

/// Every candidate among the entries of a model is usable and stands for
/// one of the entries.
pub proof fn lemma_usable_candidates(
    model: ModelConfigV,
    entries: Seq<ModelProviderV>,
    registry: Seq<ProviderConfigV>,
    keys: Seq<(Seq<char>, Seq<char>)>,
)
    ensures
        usable_candidates(model, entries, registry, keys).len() <= entries.len(),
        forall|i: int|
            0 <= i < usable_candidates(model, entries, registry, keys).len() ==> usable(
                registry,
                keys,
                (#[trigger] usable_candidates(model, entries, registry, keys)[i]).provider_id,
            ) && exists|j: int|
                0 <= j < entries.len() && usable_candidates(model, entries, registry, keys)[i]
                    == resolved(model, #[trigger] entries[j]),
    decreases entries.len(),
{
    if entries.len() > 0 {
        let init = entries.drop_last();
        lemma_usable_candidates(model, init, registry, keys);
        let before = usable_candidates(model, init, registry, keys);
        let all = usable_candidates(model, entries, registry, keys);
        assert forall|i: int| 0 <= i < all.len() implies usable(
            registry,
            keys,
            (#[trigger] all[i]).provider_id,
        ) && exists|j: int| 0 <= j < entries.len() && all[i] == resolved(model, #[trigger] entries[j]) by {
            if i < before.len() {
                assert(all[i] == before[i]);
                let j = choose|j: int|
                    0 <= j < init.len() && before[i] == resolved(model, #[trigger] init[j]);
                assert(entries[j] == init[j]);
            } else {
                assert(all[i] == resolved(model, entries[entries.len() - 1]));
            }
        }
    }
}

/// Every candidate of a resolution can be used: its provider is registered
/// and can authenticate. No provider without usable credentials is ever
/// tried.
pub proof fn law_candidates_are_usable(
    identifier: Seq<char>,
    registry: Seq<ProviderConfigV>,
    keys: Seq<(Seq<char>, Seq<char>)>,
    models: Seq<ModelConfigV>,
)
    ensures
        match spec_candidates(identifier, registry, keys, models) {
            Ok(list) => forall|i: int|
                0 <= i < list.len() ==> usable(registry, keys, (#[trigger] list[i]).provider_id),
            Err(_) => true,
        },
{
    let (key, pinned) = split_identifier(identifier);
    match find_model(models, key) {
        Some(model) => {
            lemma_usable_candidates(model, model.providers, registry, keys);
            if pinned is Some {
                match find_entry(model, pinned->Some_0) {
                    Some(entry) => {
                        lemma_index_of(entry_ids(model.providers), pinned->Some_0);
                    },
                    None => {},
                }
            }
        },
        None => {},
    }
}

} // verus!
