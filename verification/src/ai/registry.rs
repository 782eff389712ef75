//! The providers available to the application, looked up by identifier.

use vstd::prelude::*;

use std::sync::Arc;

use crate::ai::adapters::{
    gemini_capabilities, is_generation_outcome, openai_capabilities, seedream_capabilities,
    GeminiProvider, OpenAiProvider, SeedreamProvider,
};
use crate::ai::error::AiError;
use crate::ai::transport::HttpTransport;
use crate::ai::types::{
    ApiKey, GenerationRequest, GenerationResult, Provider, ProviderCapabilities, ProviderId,
};

verus! {

/// One of the built-in provider adapters.
pub enum BuiltinProvider<T: HttpTransport> {
    Seedream(SeedreamProvider<T>),
    NanoBanana(GeminiProvider<T>),
    OpenAi(OpenAiProvider<T>),
}

impl<T: HttpTransport> Provider for BuiltinProvider<T> {
    open spec fn spec_id(&self) -> ProviderId {
        match self {
            BuiltinProvider::Seedream(_) => ProviderId::Seedream,
            BuiltinProvider::NanoBanana(_) => ProviderId::NanoBanana,
            BuiltinProvider::OpenAi(_) => ProviderId::OpenAi,
        }
    }

    /// The capabilities of the adapter this provider holds.
    open spec fn reports_capabilities(&self, c: ProviderCapabilities) -> bool {
        match self {
            BuiltinProvider::Seedream(_) => seedream_capabilities(c),
            BuiltinProvider::NanoBanana(_) => gemini_capabilities(c),
            BuiltinProvider::OpenAi(_) => openai_capabilities(c),
        }
    }

    /// The outcomes of the adapter this provider holds.
    open spec fn generation_outcome(&self, request: GenerationRequest, r: Result<GenerationResult, AiError>) -> bool {
        forall|c: ProviderCapabilities|
            self.reports_capabilities(c) ==> is_generation_outcome(r, c, request, self.spec_id())
    }

    fn id(&self) -> (id: ProviderId) {
        match self {
            BuiltinProvider::Seedream(p) => p.id(),
            BuiltinProvider::NanoBanana(p) => p.id(),
            BuiltinProvider::OpenAi(p) => p.id(),
        }
    }

    fn capabilities(&self) -> (c: ProviderCapabilities)
        ensures
            self.reports_capabilities(c),
    {
        match self {
            BuiltinProvider::Seedream(p) => p.capabilities(),
            BuiltinProvider::NanoBanana(p) => p.capabilities(),
            BuiltinProvider::OpenAi(p) => p.capabilities(),
        }
    }

    fn generate(&self, request: &GenerationRequest, api_key: &ApiKey) -> (r: Result<
        GenerationResult,
        AiError,
    >)
        ensures
            self.generation_outcome(*request, r),
    {
        match self {
            BuiltinProvider::Seedream(p) => p.generate(request, api_key),
            BuiltinProvider::NanoBanana(p) => p.generate(request, api_key),
            BuiltinProvider::OpenAi(p) => p.generate(request, api_key),
        }
    }
}

/// Providers by identifier; when two share one, the later wins.
pub struct ProviderRegistry<P: Provider> {
    providers: Vec<P>,
}

/// Position of the last provider with identifier `id` among `providers`.
pub open spec fn last_with_id<P: Provider>(providers: Seq<P>, id: ProviderId) -> Option<int>
    decreases providers.len(),
{
    if providers.len() == 0 {
        None
    } else if providers.last().spec_id() == id {
        Some(providers.len() - 1)
    } else {
        last_with_id(providers.drop_last(), id)
    }
}

proof fn lemma_last_with_id_bounds<P: Provider>(providers: Seq<P>, id: ProviderId)
    ensures
        last_with_id(providers, id) matches Some(i) ==> 0 <= i < providers.len()
            && providers[i].spec_id() == id,
    decreases providers.len(),
{
    if providers.len() > 0 && providers.last().spec_id() != id {
        lemma_last_with_id_bounds(providers.drop_last(), id);
    }
}

/// Whether `r` is an answer the registry can give for `request` sent to `id`: the last
/// provider registered under `id` gives it, or, without one, the provider is unavailable.
pub open spec fn registry_answer<P: Provider>(
    providers: Seq<P>,
    id: ProviderId,
    request: GenerationRequest,
    r: Result<GenerationResult, AiError>,
) -> bool {
    match last_with_id(providers, id) {
        None => r matches Err(AiError::ProviderUnavailable),
        Some(i) => providers[i].generation_outcome(request, r),
    }
}

impl<P: Provider> ProviderRegistry<P> {
    /// The registered providers.
    pub closed spec fn spec_providers(&self) -> Seq<P> {
        self.providers@
    }

    /// A registry of `providers`.
    pub fn new(providers: Vec<P>) -> (registry: Self)
        ensures
            registry.spec_providers() == providers@,
    {
        ProviderRegistry { providers }
    }

    fn find(&self, id: ProviderId) -> (index: Option<usize>)
        ensures
            match index {
                Some(i) => last_with_id(self.providers@, id) == Some(i as int),
                None => last_with_id(self.providers@, id) is None,
            },
    {
        let mut i: usize = self.providers.len();
        assert(self.providers@.take(i as int) =~= self.providers@);
        while i > 0
            invariant
                i <= self.providers.len(),
                last_with_id(self.providers@, id) == last_with_id(self.providers@.take(i as int), id),
            decreases i,
        {
            proof {
                let t = self.providers@.take(i as int);
                assert(t.drop_last() =~= self.providers@.take(i - 1));
                assert(t.last() == self.providers@[i - 1]);
            }
            if self.providers[i - 1].id() == id {
                return Some(i - 1);
            }
            i = i - 1;
        }
        assert(self.providers@.take(0) =~= Seq::<P>::empty());
        None
    }

    /// The capabilities of the provider registered as `id`, if any.
    pub fn capabilities(&self, id: ProviderId) -> (caps: Option<ProviderCapabilities>)
        ensures
            match last_with_id(self.spec_providers(), id) {
                None => caps is None,
                Some(i) => (caps matches Some(c) && self.spec_providers()[i].reports_capabilities(c)),
            },
    {
        proof {
            assert(self.providers@.take(self.providers@.len() as int) =~= self.providers@);
        }
        match self.find(id) {
            Some(i) => {
                proof {
                    lemma_last_with_id_bounds(self.providers@, id);
                }
                Some(self.providers[i].capabilities())
            },
            None => None,
        }
    }

    /// Runs `request` with the provider registered as `id`; an unknown provider is
    /// unavailable.
    pub fn generate(&self, id: ProviderId, request: &GenerationRequest, api_key: &ApiKey) -> (r: Result<
        GenerationResult,
        AiError,
    >)
        ensures
            registry_answer(self.spec_providers(), id, *request, r),
    {
        proof {
            assert(self.providers@.take(self.providers@.len() as int) =~= self.providers@);
        }
        match self.find(id) {
            Some(i) => {
                proof {
                    lemma_last_with_id_bounds(self.providers@, id);
                }
                self.providers[i].generate(request, api_key)
            },
            None => Err(AiError::ProviderUnavailable),
        }
    }
}

impl<T: HttpTransport> ProviderRegistry<BuiltinProvider<T>> {
    /// The three built-in providers, all sending through `transport`.
    pub fn standard(transport: Arc<T>) -> (registry: Self)
        ensures
            registry.spec_providers().len() == 3,
            registry.spec_providers()[0].spec_id() == ProviderId::Seedream,
            registry.spec_providers()[1].spec_id() == ProviderId::NanoBanana,
            registry.spec_providers()[2].spec_id() == ProviderId::OpenAi,
    {
        let mut providers: Vec<BuiltinProvider<T>> = Vec::new();
        providers.push(BuiltinProvider::Seedream(SeedreamProvider::new(transport.clone())));
        providers.push(BuiltinProvider::NanoBanana(GeminiProvider::new(transport.clone())));
        providers.push(BuiltinProvider::OpenAi(OpenAiProvider::new(transport)));
        ProviderRegistry::new(providers)
    }
}

} // verus!
