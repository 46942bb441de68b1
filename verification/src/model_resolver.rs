//! Model resolution: from what a consumer asked for, and the fallback
//! strategy, to the ordered list of candidates that the runner will try.

use vstd::prelude::*;
use crate::models::{
    advertises, candidates_view, spec_candidates, Capability,
    ModelConfigV, ModelRegistry, ModelsConfiguration, ResolvedModel, ResolvedModelV,
};
use crate::providers::{ApiKeyMap, ProviderRegistry};
use crate::text::{blank, concat3, is_blank, opt_view, owned, trim, trimmed};
use crate::types::{ErrorKind, GatewayError, GatewayErrorV, ProviderConfigV};

verus! {

/// How many of the eligible candidates a request may use.
#[derive(Debug, Clone, Copy, PartialEq, Eq, Structural)]
pub enum FallbackStrategy {
    /// Only the candidate of highest priority.
    NoFallback,
    /// Every usable candidate, in priority order.
    AnyAvailable,
}

/// What a feature falls back on when the consumer names no model.
#[derive(Debug, Clone, PartialEq)]
pub struct FeatureDefaults {
    /// The model configured for the feature, where one is.
    pub configured: Option<String>,
    /// The feature's built-in default model.
    pub builtin: String,
    /// What the feature needs of a model found by scanning the catalog.
    pub capability: Capability,
}

/// Whether `identifier` has at least one candidate.
pub open spec fn resolvable(
    identifier: Seq<char>,
    registry: Seq<ProviderConfigV>,
    keys: Seq<(Seq<char>, Seq<char>)>,
    models: Seq<ModelConfigV>,
) -> bool {
    spec_candidates(identifier, registry, keys, models) is Ok
}

/// The pinned identifier of the first model among `scanned`, in order, that
/// advertises `capability` and has a candidate in the whole catalog `models`.
pub open spec fn scan_catalog(
    scanned: Seq<ModelConfigV>,
    capability: Capability,
    registry: Seq<ProviderConfigV>,
    keys: Seq<(Seq<char>, Seq<char>)>,
    models: Seq<ModelConfigV>,
) -> Option<Seq<char>>
    decreases scanned.len(),
{
    if scanned.len() == 0 {
        None
    } else {
        match scan_catalog(scanned.drop_last(), capability, registry, keys, models) {
            Some(found) => Some(found),
            None => {
                let model = scanned.last();
                match spec_candidates(model.key, registry, keys, models) {
                    Ok(list) => if advertises(model, capability) {
                        Some(model.key + "@"@ + list[0].provider_id)
                    } else {
                        None
                    },
                    Err(_) => None,
                }
            },
        }
    }
}

/// The identifier used when the consumer names no model. Three tiers, in
/// this order: the configured model, trimmed, where it is not blank and has
/// a candidate; the built-in default where it has a candidate; the first
/// model of the catalog with the capability and a candidate, pinned to its
/// first provider.
pub open spec fn spec_default_identifier(
    configured: Option<Seq<char>>,
    builtin: Seq<char>,
    capability: Capability,
    registry: Seq<ProviderConfigV>,
    keys: Seq<(Seq<char>, Seq<char>)>,
    models: Seq<ModelConfigV>,
) -> Option<Seq<char>> {
    if configured is Some && !is_blank(configured.unwrap()) && resolvable(
        trimmed(configured.unwrap()),
        registry,
        keys,
        models,
    ) {
        Some(trimmed(configured.unwrap()))
    } else if resolvable(builtin, registry, keys, models) {
        Some(builtin)
    } else {
        scan_catalog(models, capability, registry, keys, models)
    }
}

/// The identifier that a request resolves by: what was asked for, unless
/// that is absent or blank, in which case the default of the feature.
pub open spec fn spec_identifier(
    requested: Option<Seq<char>>,
    configured: Option<Seq<char>>,
    builtin: Seq<char>,
    capability: Capability,
    registry: Seq<ProviderConfigV>,
    keys: Seq<(Seq<char>, Seq<char>)>,
    models: Seq<ModelConfigV>,
) -> Option<Seq<char>> {
    if requested is Some && !is_blank(requested.unwrap()) {
        requested
    } else {
        spec_default_identifier(configured, builtin, capability, registry, keys, models)
    }
}

/// The failure for a request that names no model where no default is usable.
pub open spec fn no_default_model() -> GatewayErrorV {
    GatewayErrorV {
        kind: ErrorKind::Configuration,
        message: "No model requested and no default model is available"@,
    }
}

/// `list` as `strategy` lets it through.
pub open spec fn apply_strategy(
    list: Seq<ResolvedModelV>,
    strategy: FallbackStrategy,
) -> Seq<ResolvedModelV> {
    match strategy {
        FallbackStrategy::NoFallback => list.take(1),
        FallbackStrategy::AnyAvailable => list,
    }
}

/// The ordered candidates of a request, or why there is none.
pub open spec fn spec_resolve(
    requested: Option<Seq<char>>,
    strategy: FallbackStrategy,
    configured: Option<Seq<char>>,
    builtin: Seq<char>,
    capability: Capability,
    registry: Seq<ProviderConfigV>,
    keys: Seq<(Seq<char>, Seq<char>)>,
    models: Seq<ModelConfigV>,
) -> Result<Seq<ResolvedModelV>, GatewayErrorV> {
    match spec_identifier(requested, configured, builtin, capability, registry, keys, models) {
        None => Err(no_default_model()),
        Some(identifier) => match spec_candidates(identifier, registry, keys, models) {
            Ok(list) => Ok(apply_strategy(list, strategy)),
            Err(e) => Err(e),
        },
    }
}

/// The first model of the catalog that advertises `capability` and has a
/// candidate, as an identifier pinned to its first provider.
pub fn scan_for_capability(
    capability: Capability,
    keys: &ApiKeyMap,
    registry: &ProviderRegistry,
    models: &ModelsConfiguration,
) -> (found: Option<String>)
    ensures
        opt_view(found) == scan_catalog(models@, capability, registry@, keys@, models@),
{
    let mut i: usize = 0;
    while i < models.models.len()
        invariant
            i <= models.models.len(),
            scan_catalog(models@.take(i as int), capability, registry@, keys@, models@) is None,
        decreases models.models.len() - i,
    {
        let model = &models.models[i];
        proof {
            assert(models@.take(i + 1).drop_last() =~= models@.take(i as int));
        }
        if model.has_capability(capability) {
            match ModelRegistry::get_model_provider(model.key.as_str(), keys, registry, models) {
                Ok(pair) => {
                    proof {
                        lemma_scan_extends(models@, i + 1, capability, registry@, keys@, models@);
                    }
                    return Some(concat3(model.key.as_str(), "@", pair.1.as_str()));
                },
                Err(_) => {},
            }
        }
        i += 1;
    }
    proof {
        assert(models@.take(i as int) =~= models@);
    }
    None
}

/// Once a prefix of the catalog has an answer, every longer prefix has the
/// same one.
pub proof fn lemma_scan_extends(
    scanned: Seq<ModelConfigV>,
    n: int,
    capability: Capability,
    registry: Seq<ProviderConfigV>,
    keys: Seq<(Seq<char>, Seq<char>)>,
    models: Seq<ModelConfigV>,
)
    requires
        0 <= n <= scanned.len(),
        scan_catalog(scanned.take(n), capability, registry, keys, models) is Some,
    ensures
        scan_catalog(scanned, capability, registry, keys, models) == scan_catalog(
            scanned.take(n),
            capability,
            registry,
            keys,
            models,
        ),
    decreases scanned.len() - n,
{
    if n < scanned.len() {
        assert(scanned.take(n + 1).drop_last() =~= scanned.take(n));
        lemma_scan_extends(scanned, n + 1, capability, registry, keys, models);
    } else {
        assert(scanned.take(n) =~= scanned);
    }
}

/// The identifier used when the consumer names no model.
pub fn default_identifier(
    defaults: &FeatureDefaults,
    keys: &ApiKeyMap,
    registry: &ProviderRegistry,
    models: &ModelsConfiguration,
) -> (found: Option<String>)
    ensures
        opt_view(found) == spec_default_identifier(
            opt_view(defaults.configured),
            defaults.builtin@,
            defaults.capability,
            registry@,
            keys@,
            models@,
        ),
{
    match &defaults.configured {
        Some(configured) => {
            if !blank(configured.as_str()) {
                let name = trim(configured.as_str());
                if ModelRegistry::candidates(name.as_str(), keys, registry, models).is_ok() {
                    return Some(name);
                }
            }
        },
        None => {},
    }
    if ModelRegistry::candidates(defaults.builtin.as_str(), keys, registry, models).is_ok() {
        return Some(defaults.builtin.clone());
    }
    scan_for_capability(defaults.capability, keys, registry, models)
}

/// The identifier that a request resolves by, where what it names, or the
/// default that stands in for it, has a candidate.
pub fn resolve_model_identifier(
    requested: Option<String>,
    defaults: &FeatureDefaults,
    keys: &ApiKeyMap,
    registry: &ProviderRegistry,
    models: &ModelsConfiguration,
) -> (result: Result<String, GatewayError>)
    ensures
        match spec_identifier(
            opt_view(requested),
            opt_view(defaults.configured),
            defaults.builtin@,
            defaults.capability,
            registry@,
            keys@,
            models@,
        ) {
            None => result matches Err(e) && e@ == no_default_model(),
            Some(identifier) => match spec_candidates(identifier, registry@, keys@, models@) {
                Ok(_) => result matches Ok(name) && name@ == identifier,
                Err(failure) => result matches Err(e) && e@ == failure,
            },
        },
{
    let identifier = match requested {
        Some(name) => if blank(name.as_str()) {
            default_identifier(defaults, keys, registry, models)
        } else {
            Some(name)
        },
        None => default_identifier(defaults, keys, registry, models),
    };
    match identifier {
        None => Err(
            GatewayError {
                kind: ErrorKind::Configuration,
                message: owned("No model requested and no default model is available"),
            },
        ),
        Some(name) => match ModelRegistry::candidates(name.as_str(), keys, registry, models) {
            Ok(_) => Ok(name),
            Err(e) => Err(e),
        },
    }
}

/// The ordered candidates of a request.
pub fn resolve(
    requested: Option<String>,
    strategy: FallbackStrategy,
    defaults: &FeatureDefaults,
    keys: &ApiKeyMap,
    registry: &ProviderRegistry,
    models: &ModelsConfiguration,
) -> (result: Result<Vec<ResolvedModel>, GatewayError>)
    ensures
        match result {
            Ok(list) => spec_resolve(
                opt_view(requested),
                strategy,
                opt_view(defaults.configured),
                defaults.builtin@,
                defaults.capability,
                registry@,
                keys@,
                models@,
            ) == Ok::<Seq<ResolvedModelV>, GatewayErrorV>(candidates_view(list@)),
            Err(e) => spec_resolve(
                opt_view(requested),
                strategy,
                opt_view(defaults.configured),
                defaults.builtin@,
                defaults.capability,
                registry@,
                keys@,
                models@,
            ) == Err::<Seq<ResolvedModelV>, GatewayErrorV>(e@),
        },
{
    match resolve_model_identifier(requested, defaults, keys, registry, models) {
        Err(e) => Err(e),
        Ok(name) => match ModelRegistry::candidates(name.as_str(), keys, registry, models) {
            Err(e) => Err(e),
            Ok(list) => {
                let mut list = list;
                match strategy {
                    FallbackStrategy::NoFallback => {
                        list.truncate(1);
                        assert(candidates_view(list@) =~= apply_strategy(
                            spec_candidates(name@, registry@, keys@, models@)->Ok_0,
                            strategy,
                        ));
                    },
                    FallbackStrategy::AnyAvailable => {},
                }
                Ok(list)
            },
        },
    }
}

} // verus!
