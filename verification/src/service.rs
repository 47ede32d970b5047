//! The generation service: the provider registry (one instance per name,
//! last registration wins), configuration of remote and local providers
//! over the closed name set, resolution of a generation call's first step,
//! and output normalization of inline payloads.

use vstd::prelude::*;
use crate::error::GenError;
use crate::gen::{GenerationRequest, GenerationResult};
use crate::providers::{spec_begin_ok, spec_name, Provider};
use crate::providers::a1111::{A1111Config, A1111Provider};
use crate::providers::anthropic::{AnthropicConfig, AnthropicProvider};
use crate::providers::comfyui::{ComfyUIConfig, ComfyUIProvider};
use crate::providers::google::{GoogleConfig, GoogleProvider};
use crate::providers::grok::{GrokConfig, GrokProvider};
use crate::providers::invokeai::{InvokeAIConfig, InvokeAIProvider};
use crate::providers::openai::{OpenAIConfig, OpenAIProvider};
use crate::session::GenStep;
use crate::strutil::{concat2, str_eq};

verus! {

/// The provider registered under `name`: the first entry carrying it. A
/// well-formed registry carries each name at most once, so this is the map
/// lookup of the registry.
pub open spec fn spec_find(s: Seq<Provider>, name: Seq<char>) -> Option<Provider>
    decreases s.len(),
{
    if s.len() == 0 {
        None
    } else if spec_name(s[0]) == name {
        Some(s[0])
    } else {
        spec_find(s.drop_first(), name)
    }
}

/// A well-formed registry: no name twice.
pub open spec fn spec_registry_wf(s: Seq<Provider>) -> bool {
    forall|i: int, j: int|
        0 <= i < j < s.len() ==> spec_name(#[trigger] s[i]) != spec_name(#[trigger] s[j])
}

/// The find yields the entry at `i` when every earlier name differs.
proof fn lemma_find_at(s: Seq<Provider>, name: Seq<char>, i: int)
    requires
        0 <= i < s.len(),
        forall|j: int| 0 <= j < i ==> spec_name(#[trigger] s[j]) != name,
        spec_name(s[i]) == name,
    ensures
        spec_find(s, name) == Some(s[i]),
    decreases i,
{
    if i == 0 {
    } else {
        assert(spec_name(s.drop_first()[i - 1]) == name);
        lemma_find_at(s.drop_first(), name, i - 1);
    }
}

/// The find misses when every name differs.
proof fn lemma_find_none(s: Seq<Provider>, name: Seq<char>)
    requires
        forall|k: int| 0 <= k < s.len() ==> spec_name(#[trigger] s[k]) != name,
    ensures
        spec_find(s, name) is None,
    decreases s.len(),
{
    if s.len() > 0 {
        lemma_find_none(s.drop_first(), name);
    }
}

/// A missing name misses everywhere: no entry carries it.
proof fn lemma_absent_of_none(s: Seq<Provider>, name: Seq<char>)
    requires
        spec_find(s, name) is None,
    ensures
        forall|k: int| 0 <= k < s.len() ==> spec_name(#[trigger] s[k]) != name,
    decreases s.len(),
{
    if s.len() > 0 {
        lemma_absent_of_none(s.drop_first(), name);
        assert forall|k: int| 0 <= k < s.len() implies spec_name(#[trigger] s[k]) != name by {
            if k > 0 {
                assert(s.drop_first()[k - 1] == s[k]);
            }
        }
    }
}

/// A found provider stands somewhere in the registry under that name.
proof fn lemma_find_some_witness(s: Seq<Provider>, name: Seq<char>)
    requires
        spec_find(s, name) is Some,
    ensures
        exists|k: int|
            0 <= k < s.len() && #[trigger] s[k] == spec_find(s, name)->0 && spec_name(s[k]) == name,
    decreases s.len(),
{
    if s.len() > 0 {
        if spec_name(s[0]) == name {
            assert(s[0] == spec_find(s, name)->0);
        } else {
            lemma_find_some_witness(s.drop_first(), name);
            let k = choose|k: int|
                0 <= k < s.drop_first().len() && #[trigger] s.drop_first()[k] == spec_find(
                    s.drop_first(),
                    name,
                )->0 && spec_name(s.drop_first()[k]) == name;
            assert(s[k + 1] == s.drop_first()[k]);
        }
    }
}

/// In a well-formed registry, the find yields exactly the entry that
/// carries the name.
proof fn lemma_find_present(s: Seq<Provider>, k: int)
    requires
        spec_registry_wf(s),
        0 <= k < s.len(),
    ensures
        spec_find(s, spec_name(s[k])) == Some(s[k]),
{
    lemma_find_at(s, spec_name(s[k]), k);
}

/// The registry update relation: afterwards `p` stands under its name, and
/// every other name resolves as before.
pub open spec fn spec_registered(
    before: Seq<Provider>,
    after: Seq<Provider>,
    p: Provider,
) -> bool {
    &&& spec_registry_wf(after)
    &&& spec_find(after, spec_name(p)) == Some(p)
    &&& (forall|n: Seq<char>|
        n != spec_name(p) ==> #[trigger] spec_find(after, n) == spec_find(before, n))
}

/// The generation service: the registry of provider instances.
#[derive(Debug, PartialEq)]
pub struct GenerationService {
    pub providers: Vec<Provider>,
}

impl GenerationService {
    /// An empty registry.
    pub fn new() -> (r: Self)
        ensures
            r.providers@.len() == 0,
            spec_registry_wf(r.providers@),
            forall|n: Seq<char>| #[trigger] spec_find(r.providers@, n) is None,
    {
        let providers: Vec<Provider> = Vec::new();
        proof {
            assert forall|n: Seq<char>| #[trigger] spec_find(providers@, n) is None by {
                lemma_find_none(providers@, n);
            }
        }
        GenerationService { providers }
    }

    /// Inserts or replaces by name: the last registration for a name wins.
    #[verifier::loop_isolation(false)]
    pub fn register_provider(&mut self, provider: Provider)
        requires
            spec_registry_wf(old(self).providers@),
        ensures
            spec_registered(old(self).providers@, final(self).providers@, provider),
    {
        let ghost before = self.providers@;
        let ghost pname = spec_name(provider);
        let n = self.providers.len();
        let mut i: usize = 0;
        while i < n
            invariant
                n == self.providers.len(),
                i <= n,
                self.providers@ == before,
                spec_registry_wf(before),
                forall|j: int| 0 <= j < i ==> spec_name(#[trigger] before[j]) != pname,
            decreases n - i,
        {
            if str_eq(self.providers[i].name(), provider.name()) {
                self.providers.remove(i);
                self.providers.insert(i, provider);
                proof {
                    let after = self.providers@;
                    assert(after =~= before.update(i as int, provider));
                    assert forall|a: int, b: int| 0 <= a < b < after.len() implies spec_name(
                        #[trigger] after[a],
                    ) != spec_name(#[trigger] after[b]) by {
                        assert(spec_name(before[a]) != spec_name(before[b]));
                    }
                    lemma_find_at(after, pname, i as int);
                    assert forall|m: Seq<char>| m != pname implies #[trigger] spec_find(after, m)
                        == spec_find(before, m) by {
                        if spec_find(before, m) is Some {
                            lemma_find_some_witness(before, m);
                            let k = choose|k: int|
                                0 <= k < before.len() && #[trigger] before[k] == spec_find(
                                    before,
                                    m,
                                )->0 && spec_name(before[k]) == m;
                            assert(after[k] == before[k]);
                            lemma_find_present(after, k);
                        } else {
                            lemma_absent_of_none(before, m);
                            assert forall|k: int| 0 <= k < after.len() implies spec_name(
                                #[trigger] after[k],
                            ) != m by {
                                if k != i {
                                    assert(after[k] == before[k]);
                                }
                            }
                            lemma_find_none(after, m);
                        }
                    }
                }
                return ;
            }
            i += 1;
        }
        self.providers.push(provider);
        proof {
            let after = self.providers@;
            assert(after =~= before.push(provider));
            assert forall|a: int, b: int| 0 <= a < b < after.len() implies spec_name(
                #[trigger] after[a],
            ) != spec_name(#[trigger] after[b]) by {
                if b < before.len() {
                    assert(spec_name(before[a]) != spec_name(before[b]));
                } else {
                    assert(after[b] == provider);
                    assert(spec_name(before[a]) != pname);
                }
            }
            lemma_find_at(after, pname, before.len() as int);
            assert forall|m: Seq<char>| m != pname implies #[trigger] spec_find(after, m)
                == spec_find(before, m) by {
                if spec_find(before, m) is Some {
                    lemma_find_some_witness(before, m);
                    let k = choose|k: int|
                        0 <= k < before.len() && #[trigger] before[k] == spec_find(before, m)->0
                            && spec_name(before[k]) == m;
                    assert(after[k] == before[k]);
                    lemma_find_present(after, k);
                } else {
                    lemma_absent_of_none(before, m);
                    assert forall|k: int| 0 <= k < after.len() implies spec_name(
                        #[trigger] after[k],
                    ) != m by {
                        if k < before.len() {
                            assert(after[k] == before[k]);
                        }
                    }
                    lemma_find_none(after, m);
                }
            }
        }
    }

    /// The provider registered under `name`.
    #[verifier::loop_isolation(false)]
    pub fn get_provider<'a>(&'a self, name: &str) -> (r: Option<&'a Provider>)
        ensures
            match r {
                Some(p) => spec_find(self.providers@, name@) == Some(*p),
                None => spec_find(self.providers@, name@) is None,
            },
    {
        let n = self.providers.len();
        let mut i: usize = 0;
        while i < n
            invariant
                n == self.providers.len(),
                i <= n,
                forall|j: int| 0 <= j < i ==> spec_name(#[trigger] self.providers@[j]) != name@,
            decreases n - i,
        {
            if str_eq(self.providers[i].name(), name) {
                proof {
                    lemma_find_at(self.providers@, name@, i as int);
                }
                return Some(&self.providers[i]);
            }
            i += 1;
        }
        proof {
            lemma_find_none(self.providers@, name@);
        }
        None
    }

    /// The names of the registered providers, in registry order.
    pub fn list_providers(&self) -> (r: Vec<String>)
        ensures
            r@.len() == self.providers@.len(),
            forall|i: int|
                0 <= i < r@.len() ==> (#[trigger] r@[i])@ == spec_name(self.providers@[i]),
    {
        let n = self.providers.len();
        let mut out: Vec<String> = Vec::new();
        let mut i: usize = 0;
        while i < n
            invariant
                n == self.providers.len(),
                i <= n,
                out@.len() == i,
                forall|j: int|
                    0 <= j < i ==> (#[trigger] out@[j])@ == spec_name(self.providers@[j]),
            decreases n - i,
        {
            out.push(String::from_str(self.providers[i].name()));
            i += 1;
        }
        out
    }

    /// Configures a remote provider with an API key: a freshly configured
    /// instance replaces the existing entry, discarding its prior state. A
    /// name outside the closed remote set fails with `UnknownProvider` and
    /// leaves the registry unchanged.
    pub fn configure_provider(&mut self, provider_name: &str, api_key: String) -> (r: Result<
        (),
        GenError,
    >)
        requires
            spec_registry_wf(old(self).providers@),
        ensures
            spec_registry_wf(final(self).providers@),
            ({
                let before = old(self).providers@;
                let after = final(self).providers@;
                if provider_name@ == "anthropic"@ {
                    r is Ok && spec_registered(
                        before,
                        after,
                        Provider::Anthropic(
                            AnthropicProvider { config: Some(AnthropicConfig { api_key }) },
                        ),
                    )
                } else if provider_name@ == "openai"@ {
                    r is Ok && spec_registered(
                        before,
                        after,
                        Provider::OpenAI(
                            OpenAIProvider {
                                config: Some(OpenAIConfig { api_key, organization: None }),
                            },
                        ),
                    )
                } else if provider_name@ == "google"@ {
                    r is Ok && spec_registered(
                        before,
                        after,
                        Provider::Google(
                            GoogleProvider {
                                config: Some(GoogleConfig { api_key, project_id: None }),
                            },
                        ),
                    )
                } else if provider_name@ == "grok"@ {
                    r is Ok && spec_registered(
                        before,
                        after,
                        Provider::Grok(GrokProvider { config: Some(GrokConfig { api_key }) }),
                    )
                } else {
                    (r matches Err(GenError::UnknownProvider { detail }) && detail@
                        == "Unknown provider: "@ + provider_name@) && after == before
                }
            }),
    {
        if str_eq(provider_name, "anthropic") {
            self.register_provider(
                Provider::Anthropic(
                    AnthropicProvider::with_config(AnthropicConfig { api_key }),
                ),
            );
            Ok(())
        } else if str_eq(provider_name, "openai") {
            self.register_provider(
                Provider::OpenAI(
                    OpenAIProvider::with_config(OpenAIConfig { api_key, organization: None }),
                ),
            );
            Ok(())
        } else if str_eq(provider_name, "google") {
            self.register_provider(
                Provider::Google(
                    GoogleProvider::with_config(GoogleConfig { api_key, project_id: None }),
                ),
            );
            Ok(())
        } else if str_eq(provider_name, "grok") {
            self.register_provider(Provider::Grok(GrokProvider::with_config(GrokConfig { api_key })));
            Ok(())
        } else {
            Err(
                GenError::UnknownProvider {
                    detail: concat2("Unknown provider: ", provider_name),
                },
            )
        }
    }

    /// Configures a local provider with an endpoint URL, as
    /// `configure_provider` does over the closed local set.
    pub fn configure_local_provider(&mut self, provider_name: &str, api_url: String) -> (r: Result<
        (),
        GenError,
    >)
        requires
            spec_registry_wf(old(self).providers@),
        ensures
            spec_registry_wf(final(self).providers@),
            ({
                let before = old(self).providers@;
                let after = final(self).providers@;
                if provider_name@ == "a1111"@ {
                    r is Ok && spec_registered(
                        before,
                        after,
                        Provider::A1111(A1111Provider { config: Some(A1111Config { api_url }) }),
                    )
                } else if provider_name@ == "comfyui"@ {
                    r is Ok && spec_registered(
                        before,
                        after,
                        Provider::ComfyUI(
                            ComfyUIProvider { config: Some(ComfyUIConfig { api_url }) },
                        ),
                    )
                } else if provider_name@ == "invokeai"@ {
                    r is Ok && spec_registered(
                        before,
                        after,
                        Provider::InvokeAI(
                            InvokeAIProvider { config: Some(InvokeAIConfig { api_url }) },
                        ),
                    )
                } else {
                    (r matches Err(GenError::UnknownProvider { detail }) && detail@
                        == "Unknown local provider: "@ + provider_name@) && after == before
                }
            }),
    {
        if str_eq(provider_name, "a1111") {
            self.register_provider(
                Provider::A1111(A1111Provider::with_config(A1111Config { api_url })),
            );
            Ok(())
        } else if str_eq(provider_name, "comfyui") {
            self.register_provider(
                Provider::ComfyUI(ComfyUIProvider::with_config(ComfyUIConfig { api_url })),
            );
            Ok(())
        } else if str_eq(provider_name, "invokeai") {
            self.register_provider(
                Provider::InvokeAI(InvokeAIProvider::with_config(InvokeAIConfig { api_url })),
            );
            Ok(())
        } else {
            Err(
                GenError::UnknownProvider {
                    detail: concat2("Unknown local provider: ", provider_name),
                },
            )
        }
    }

    /// The first step of a generation call through the registry: the named
    /// provider's begin step, or `ProviderNotFound`.
    pub fn begin_generate(&self, provider_name: &str, request: GenerationRequest) -> (r: GenStep)
        ensures
            match spec_find(self.providers@, provider_name@) {
                None => r matches GenStep::Fail { error: GenError::ProviderNotFound { name } }
                    && name@ == provider_name@,
                Some(p) => spec_begin_ok(p, request, r),
            },
    {
        let provider = match self.get_provider(provider_name) {
            Some(p) => p,
            None => {
                return GenStep::Fail {
                    error: GenError::ProviderNotFound { name: String::from_str(provider_name) },
                };
            },
        };
        provider.begin(request)
    }
}

/// The service the application starts with: the remote providers registered
/// as unconfigured placeholders, so their names are discoverable before
/// credentials are supplied.
pub fn init_generation_service() -> (r: GenerationService)
    ensures
        spec_registry_wf(r.providers@),
        spec_find(r.providers@, "anthropic"@) == Some(
            Provider::Anthropic(AnthropicProvider { config: None }),
        ),
        spec_find(r.providers@, "openai"@) == Some(
            Provider::OpenAI(OpenAIProvider { config: None }),
        ),
        spec_find(r.providers@, "google"@) == Some(
            Provider::Google(GoogleProvider { config: None }),
        ),
        spec_find(r.providers@, "grok"@) == Some(Provider::Grok(GrokProvider { config: None })),
{
    let mut service = GenerationService::new();
    service.register_provider(Provider::Anthropic(AnthropicProvider::new()));
    service.register_provider(Provider::OpenAI(OpenAIProvider::new()));
    service.register_provider(Provider::Google(GoogleProvider::new()));
    service.register_provider(Provider::Grok(GrokProvider::new()));
    proof {
        reveal_strlit("anthropic");
        reveal_strlit("openai");
        reveal_strlit("google");
        reveal_strlit("grok");
        assert("anthropic"@.len() == 9);
        assert("openai"@.len() == 6);
        assert("google"@.len() == 6);
        assert("grok"@.len() == 4);
        assert("openai"@[0] == 'o');
        assert("google"@[0] == 'g');
        assert("openai"@ != "google"@);
    }
    service
}

/// The inline payload output normalization works on: a non-empty
/// `output_data`.
pub fn normalization_payload<'a>(result: &'a GenerationResult) -> (r: Option<&'a String>)
    ensures
        match r {
            Some(d) => result.output_data == Some(*d) && d@.len() > 0,
            None => match result.output_data {
                Some(d) => d@.len() == 0,
                None => true,
            },
        },
{
    match &result.output_data {
        Some(d) => {
            if d.as_str().is_empty() {
                None
            } else {
                Some(d)
            }
        },
        None => None,
    }
}

/// Rewrites a result whose inline payload was written to disk: the output
/// URL becomes the application-asset reference of the file, the file path
/// is recorded, and the inline payload is cleared. The metadata stays.
pub fn apply_normalization(result: GenerationResult, file_path: String) -> (r: GenerationResult)
    ensures
        (r.output_url matches Some(u) && u@ == "asset://localhost/"@ + file_path@),
        r.output_data is None,
        r.file_path == Some(file_path),
        r.metadata == result.metadata,
{
    let url = concat2("asset://localhost/", file_path.as_str());
    GenerationResult {
        output_url: Some(url),
        output_data: None,
        file_path: Some(file_path),
        metadata: result.metadata,
    }
}

} // verus!
