//! The provider registry: which providers are registered under which names, where
//! each comes from, which one is the default, and how prompts are routed to the
//! screening, reasoning and judge models.
use vstd::prelude::*;

use crate::config::ProviderConfig;
use crate::providers::backends::{McpProviderAdapter, StubProvider};
use crate::providers::messages::{
    messages_view, ChatMessage, MessageView, ProvenanceView, ProviderProvenance, ProviderRouteDecision, ProviderRouteStage,
};
use crate::text::{
    concat2, concat3, contains_str, decimal, decimal_string, has_sub, join_strings, joined, lower, lower_str, starts,
    starts_with_str, str_equal, texts, trim, trim_str,
};
use vstd::string::StringSliceAdditionalSpecFns;
use vstd::utf8::encode_utf8;

verus! {

/// A registered provider backend.
#[derive(Debug)]
pub enum RegisteredProvider {
    Stub(StubProvider),
    OpenAiCompatible,
    Mcp(McpProviderAdapter),
}

/// A registered backend seen as its kind, the name a stub was made with, and the
/// server and name of an MCP adapter.
pub enum BackendView {
    Stub(Seq<char>),
    OpenAiCompatible,
    Mcp { server: Seq<char>, name: Seq<char> },
}

impl View for RegisteredProvider {
    type V = BackendView;

    open spec fn view(&self) -> BackendView {
        match self {
            RegisteredProvider::Stub(p) => BackendView::Stub(p.spec_name()),
            RegisteredProvider::OpenAiCompatible => BackendView::OpenAiCompatible,
            RegisteredProvider::Mcp(p) => BackendView::Mcp { server: p.spec_server(), name: p.spec_name() },
        }
    }
}

impl RegisteredProvider {
    /// A copy of this backend.
    pub fn duplicate(&self) -> (r: RegisteredProvider)
        ensures
            r@ == self@,
    {
        match self {
            RegisteredProvider::Stub(p) => RegisteredProvider::Stub(p.duplicate()),
            RegisteredProvider::OpenAiCompatible => RegisteredProvider::OpenAiCompatible,
            RegisteredProvider::Mcp(p) => RegisteredProvider::Mcp(p.duplicate()),
        }
    }
}

/// What is registered under one name: the backend and its provenance.
pub type EntryView = (BackendView, ProvenanceView);

/// The name under which the OpenAI-compatible HTTP provider is configured.
pub open spec fn openai_name() -> Seq<char> {
    "openai-compatible"@
}

/// The entry a builtin provider name registers. `openai_ready` says whether the
/// HTTP client for the OpenAI-compatible provider could be built; when it could
/// not, a stub stands in for it.
pub open spec fn builtin_entry(name: Seq<char>, api_base_url: Seq<char>, openai_ready: bool) -> EntryView {
    if name == openai_name() {
        if openai_ready {
            (
                BackendView::OpenAiCompatible,
                (name, api_base_url, "openai-compatible-http"@, starts(api_base_url, "https://"@)),
            )
        } else {
            (BackendView::Stub(name), (name, "stub-fallback"@, "stub"@, true))
        }
    } else {
        (BackendView::Stub(name), (name, "builtin"@, "stub"@, true))
    }
}

/// The name an MCP server's provider is registered under.
pub open spec fn mcp_name(server: Seq<char>) -> Seq<char> {
    "mcp:"@ + server
}

/// The entry an MCP server registers.
pub open spec fn mcp_entry(server: Seq<char>) -> EntryView {
    (BackendView::Mcp { server, name: mcp_name(server) }, (mcp_name(server), "mcp://"@ + server, "adapter-v1"@, true))
}

/// `m` with each builtin name registered in turn (a later name replaces an
/// earlier equal one).
pub open spec fn with_builtins(
    m: Map<Seq<char>, EntryView>,
    names: Seq<Seq<char>>,
    api_base_url: Seq<char>,
    openai_ready: bool,
) -> Map<Seq<char>, EntryView>
    decreases names.len(),
{
    if names.len() == 0 {
        m
    } else {
        with_builtins(m, names.drop_last(), api_base_url, openai_ready).insert(
            names.last(),
            builtin_entry(names.last(), api_base_url, openai_ready),
        )
    }
}

/// `m` with each MCP server registered in turn.
pub open spec fn with_servers(m: Map<Seq<char>, EntryView>, servers: Seq<Seq<char>>) -> Map<Seq<char>, EntryView>
    decreases servers.len(),
{
    if servers.len() == 0 {
        m
    } else {
        with_servers(m, servers.drop_last()).insert(mcp_name(servers.last()), mcp_entry(servers.last()))
    }
}

/// Everything a provider configuration registers: the builtins first, then the
/// MCP servers.
pub open spec fn registered_providers(
    builtin: Seq<Seq<char>>,
    servers: Seq<Seq<char>>,
    api_base_url: Seq<char>,
    openai_ready: bool,
) -> Map<Seq<char>, EntryView> {
    with_servers(with_builtins(Map::empty(), builtin, api_base_url, openai_ready), servers)
}

/// The default provider: the first builtin, else the first MCP server's
/// provider, else the OpenAI-compatible name.
pub open spec fn default_provider_for(builtin: Seq<Seq<char>>, servers: Seq<Seq<char>>) -> Seq<char> {
    if builtin.len() > 0 {
        builtin[0]
    } else if servers.len() > 0 {
        mcp_name(servers[0])
    } else {
        openai_name()
    }
}

/// The registry seen as plain values.
pub struct RegistryView {
    pub providers: Map<Seq<char>, EntryView>,
    pub default_provider: Seq<char>,
    pub default_model: Seq<char>,
    pub screening_model: Seq<char>,
    pub reasoning_model: Seq<char>,
    pub judge_model: Seq<char>,
    pub tiered_routing: bool,
    pub cache_capacity: nat,
}

/// The registry a configuration gives.
pub open spec fn registry_from(config: ProviderConfig, openai_ready: bool) -> RegistryView {
    RegistryView {
        providers: registered_providers(
            texts(config.builtin@),
            texts(config.mcp_servers@),
            config.api_base_url@,
            openai_ready,
        ),
        default_provider: default_provider_for(texts(config.builtin@), texts(config.mcp_servers@)),
        default_model: config.default_model@,
        screening_model: config.screening_model@,
        reasoning_model: config.reasoning_model@,
        judge_model: config.judge_model@,
        tiered_routing: config.enable_tiered_routing,
        cache_capacity: config.prompt_cache_capacity as nat,
    }
}

/// Why a registry is unusable, if it is: the first failing check, in order.
pub open spec fn registry_problem(v: RegistryView) -> Option<Seq<char>> {
    if v.providers.len() == 0 {
        Some("at least one provider must be registered"@)
    } else if trim(v.default_model).len() == 0 {
        Some("providers.default_model must not be empty"@)
    } else if v.cache_capacity == 0 {
        Some("providers.prompt_cache_capacity must be greater than 0"@)
    } else if !v.providers.dom().contains(v.default_provider) {
        Some("default provider '"@ + v.default_provider + "' is not registered"@)
    } else if !v.providers[v.default_provider].1.3 {
        Some("default provider '"@ + v.default_provider + "' is not trusted by provenance policy"@)
    } else {
        None
    }
}

struct ProviderSlot {
    name: String,
    provider: RegisteredProvider,
    provenance: ProviderProvenance,
}

spec fn slot_view(s: ProviderSlot) -> EntryView {
    (s.provider@, s.provenance@)
}

spec fn names_unique(s: Seq<ProviderSlot>) -> bool {
    forall|i: int, j: int| 0 <= i < j < s.len() ==> (#[trigger] s[i]).name@ != (#[trigger] s[j]).name@
}

spec fn has_name(s: Seq<ProviderSlot>, k: Seq<char>) -> bool {
    exists|i: int| 0 <= i < s.len() && (#[trigger] s[i]).name@ == k
}

spec fn slot_map(s: Seq<ProviderSlot>) -> Map<Seq<char>, EntryView> {
    Map::new(
        |k: Seq<char>| has_name(s, k),
        |k: Seq<char>| slot_view(s[choose|i: int| 0 <= i < s.len() && (#[trigger] s[i]).name@ == k]),
    )
}

spec fn slot_names(s: Seq<ProviderSlot>) -> Seq<Seq<char>> {
    s.map_values(|x: ProviderSlot| x.name@)
}

proof fn lemma_slot_at(s: Seq<ProviderSlot>, i: int)
    requires
        names_unique(s),
        0 <= i < s.len(),
    ensures
        slot_map(s).dom().contains(s[i].name@),
        slot_map(s)[s[i].name@] == slot_view(s[i]),
{
    let k = s[i].name@;
    assert(has_name(s, k));
    let j = choose|j: int| 0 <= j < s.len() && (#[trigger] s[j]).name@ == k;
    if j < i {
        assert(s[j].name@ != s[i].name@);
    } else if i < j {
        assert(s[i].name@ != s[j].name@);
    }
}

proof fn lemma_slot_len(s: Seq<ProviderSlot>)
    requires
        names_unique(s),
    ensures
        slot_map(s).dom().finite(),
        slot_map(s).len() == s.len(),
{
    let ns = slot_names(s);
    assert(slot_map(s).dom() =~= ns.to_set()) by {
        assert forall|k: Seq<char>| slot_map(s).dom().contains(k) implies ns.to_set().contains(k) by {
            let i = choose|i: int| 0 <= i < s.len() && (#[trigger] s[i]).name@ == k;
            assert(ns[i] == k);
        }
        assert forall|k: Seq<char>| ns.to_set().contains(k) implies slot_map(s).dom().contains(k) by {
            let i = choose|i: int| 0 <= i < ns.len() && ns[i] == k;
            assert(s[i].name@ == k);
        }
    }
    assert(ns.no_duplicates()) by {
        assert forall|i: int, j: int| 0 <= i < ns.len() && 0 <= j < ns.len() && i != j implies ns[i] != ns[j] by {
            if i < j {
                assert(s[i].name@ != s[j].name@);
            } else {
                assert(s[j].name@ != s[i].name@);
            }
        }
    }
    ns.unique_seq_to_set();
    vstd::seq_lib::seq_to_set_is_finite(ns);
}

/// Registers `slot` under its name, replacing what was there.
fn upsert(slots: &mut Vec<ProviderSlot>, slot: ProviderSlot)
    requires
        names_unique(old(slots)@),
    ensures
        names_unique(final(slots)@),
        slot_map(final(slots)@) == slot_map(old(slots)@).insert(slot.name@, slot_view(slot)),
{
    let ghost s0 = slots@;
    let ghost k0 = slot.name@;
    let ghost v0 = slot_view(slot);
    let mut i: usize = 0;
    while i < slots.len()
        invariant
            i <= slots@.len(),
            slots@ == s0,
            s0 == old(slots)@,
            names_unique(s0),
            k0 == slot.name@,
            v0 == slot_view(slot),
            forall|j: int| 0 <= j < i ==> (#[trigger] s0[j]).name@ != k0,
        decreases slots@.len() - i,
    {
        if str_equal(slots[i].name.as_str(), slot.name.as_str()) {
            slots.set(i, slot);
            proof {
                let s1 = slots@;
                assert(s1 == s0.update(i as int, s1[i as int]));
                assert forall|a: int, b: int| 0 <= a < b < s1.len() implies (#[trigger] s1[a]).name@ != (
                #[trigger] s1[b]).name@ by {
                    if a != i && b != i {
                        assert(s0[a].name@ != s0[b].name@);
                    } else if a == i {
                        assert(s0[a].name@ != s0[b].name@);
                    } else {
                        assert(s0[a].name@ != s0[b].name@);
                    }
                }
                assert forall|k: Seq<char>| #![auto] slot_map(s1).dom().contains(k) == slot_map(s0).insert(k0, v0).dom().contains(k) by {
                    if has_name(s0, k) {
                        let j = choose|j: int| 0 <= j < s0.len() && (#[trigger] s0[j]).name@ == k;
                        if j != i {
                            assert(s1[j] == s0[j]);
                        }
                    }
                    if has_name(s1, k) {
                        let j = choose|j: int| 0 <= j < s1.len() && (#[trigger] s1[j]).name@ == k;
                        if j != i {
                            assert(s1[j] == s0[j]);
                        }
                    }
                    assert(s1[i as int].name@ == k0);
                }
                assert(slot_map(s1).dom() =~= slot_map(s0).insert(k0, v0).dom());
                assert forall|k: Seq<char>| slot_map(s1).dom().contains(k) implies slot_map(s1)[k] == slot_map(s0).insert(
                    k0,
                    v0,
                )[k] by {
                    let j = choose|j: int| 0 <= j < s1.len() && (#[trigger] s1[j]).name@ == k;
                    lemma_slot_at(s1, j);
                    if j != i {
                        assert(s1[j] == s0[j]);
                        lemma_slot_at(s0, j);
                    }
                }
                assert(slot_map(s1) =~= slot_map(s0).insert(k0, v0));
            }
            return;
        }
        i = i + 1;
    }
    slots.push(slot);
    proof {
        let s1 = slots@;
        let n = s0.len() as int;
        assert(s1[n] == slot);
        assert forall|a: int, b: int| 0 <= a < b < s1.len() implies (#[trigger] s1[a]).name@ != (#[trigger] s1[b]).name@ by {
            if b < n {
                assert(s0[a].name@ != s0[b].name@);
            } else {
                assert(s1[a] == s0[a]);
            }
        }
        assert forall|k: Seq<char>| #![auto] slot_map(s1).dom().contains(k) == slot_map(s0).insert(k0, v0).dom().contains(k) by {
            if has_name(s0, k) {
                let j = choose|j: int| 0 <= j < s0.len() && (#[trigger] s0[j]).name@ == k;
                assert(s1[j] == s0[j]);
            }
            if has_name(s1, k) {
                let j = choose|j: int| 0 <= j < s1.len() && (#[trigger] s1[j]).name@ == k;
                if j < n {
                    assert(s1[j] == s0[j]);
                }
            }
        }
        assert(slot_map(s1).dom() =~= slot_map(s0).insert(k0, v0).dom());
        assert forall|k: Seq<char>| slot_map(s1).dom().contains(k) implies slot_map(s1)[k] == slot_map(s0).insert(k0, v0)[k] by {
            let j = choose|j: int| 0 <= j < s1.len() && (#[trigger] s1[j]).name@ == k;
            lemma_slot_at(s1, j);
            if j < n {
                assert(s1[j] == s0[j]);
                lemma_slot_at(s0, j);
            }
        }
        assert(slot_map(s1) =~= slot_map(s0).insert(k0, v0));
    }
}

/// Providers by name, with their provenance, the default provider and the
/// models each routing tier uses.
pub struct ProviderRegistry {
    slots: Vec<ProviderSlot>,
    default_provider: String,
    default_model: String,
    screening_model: String,
    reasoning_model: String,
    judge_model: String,
    enable_tiered_routing: bool,
    prompt_cache_capacity: usize,
}

impl View for ProviderRegistry {
    type V = RegistryView;

    closed spec fn view(&self) -> RegistryView {
        RegistryView {
            providers: slot_map(self.slots@),
            default_provider: self.default_provider@,
            default_model: self.default_model@,
            screening_model: self.screening_model@,
            reasoning_model: self.reasoning_model@,
            judge_model: self.judge_model@,
            tiered_routing: self.enable_tiered_routing,
            cache_capacity: self.prompt_cache_capacity as nat,
        }
    }
}

impl ProviderRegistry {
    /// No two entries share a name.
    #[verifier::type_invariant]
    spec fn names_are_unique(&self) -> bool {
        names_unique(self.slots@)
    }

    /// The registry a provider configuration describes. `openai_ready` says
    /// whether the HTTP client of the OpenAI-compatible provider could be built
    /// (its API key is set and the client accepted it).
    pub fn from_config(config: &ProviderConfig, openai_ready: bool) -> (r: ProviderRegistry)
        ensures
            r@ == registry_from(*config, openai_ready),
    {
        let mut slots: Vec<ProviderSlot> = Vec::new();
        let ghost url = config.api_base_url@;
        let mut i: usize = 0;
        while i < config.builtin.len()
            invariant
                i <= config.builtin@.len(),
                url == config.api_base_url@,
                names_unique(slots@),
                slot_map(slots@) == with_builtins(Map::empty(), texts(config.builtin@.subrange(0, i as int)), url, openai_ready),
            decreases config.builtin@.len() - i,
        {
            let name = &config.builtin[i];
            let slot = if str_equal(name.as_str(), "openai-compatible") {
                if openai_ready {
                    ProviderSlot {
                        name: name.clone(),
                        provider: RegisteredProvider::OpenAiCompatible,
                        provenance: ProviderProvenance {
                            provider_name: name.clone(),
                            source: config.api_base_url.clone(),
                            version_ref: String::from_str("openai-compatible-http"),
                            trusted: starts_with_str(config.api_base_url.as_str(), "https://"),
                        },
                    }
                } else {
                    ProviderSlot {
                        name: name.clone(),
                        provider: RegisteredProvider::Stub(StubProvider::new(name.as_str())),
                        provenance: ProviderProvenance {
                            provider_name: name.clone(),
                            source: String::from_str("stub-fallback"),
                            version_ref: String::from_str("stub"),
                            trusted: true,
                        },
                    }
                }
            } else {
                ProviderSlot {
                    name: name.clone(),
                    provider: RegisteredProvider::Stub(StubProvider::new(name.as_str())),
                    provenance: ProviderProvenance {
                        provider_name: name.clone(),
                        source: String::from_str("builtin"),
                        version_ref: String::from_str("stub"),
                        trusted: true,
                    },
                }
            };
            proof {
                assert(slot.name@ == texts(config.builtin@)[i as int]);
                assert(slot_view(slot) == builtin_entry(slot.name@, url, openai_ready));
                assert(texts(config.builtin@.subrange(0, i + 1)).drop_last() =~= texts(config.builtin@.subrange(0, i as int)));
                assert(texts(config.builtin@.subrange(0, i + 1)).last() == slot.name@);
            }
            upsert(&mut slots, slot);
            i = i + 1;
        }
        assert(config.builtin@.subrange(0, config.builtin@.len() as int) =~= config.builtin@);
        let ghost base = with_builtins(Map::empty(), texts(config.builtin@), url, openai_ready);
        let mut j: usize = 0;
        while j < config.mcp_servers.len()
            invariant
                j <= config.mcp_servers@.len(),
                names_unique(slots@),
                slot_map(slots@) == with_servers(base, texts(config.mcp_servers@.subrange(0, j as int))),
            decreases config.mcp_servers@.len() - j,
        {
            let server = &config.mcp_servers[j];
            let adapter = McpProviderAdapter::new(server.as_str());
            let name = concat2("mcp:", server.as_str());
            let slot = ProviderSlot {
                name: concat2("mcp:", server.as_str()),
                provider: RegisteredProvider::Mcp(adapter),
                provenance: ProviderProvenance {
                    provider_name: name,
                    source: concat2("mcp://", server.as_str()),
                    version_ref: String::from_str("adapter-v1"),
                    trusted: true,
                },
            };
            proof {
                assert(texts(config.mcp_servers@.subrange(0, j + 1)).drop_last() =~= texts(config.mcp_servers@.subrange(0, j as int)));
                assert(texts(config.mcp_servers@.subrange(0, j + 1)).last() == server@);
                assert(slot_view(slot) == mcp_entry(server@));
            }
            upsert(&mut slots, slot);
            j = j + 1;
        }
        assert(config.mcp_servers@.subrange(0, config.mcp_servers@.len() as int) =~= config.mcp_servers@);
        let default_provider = if config.builtin.len() > 0 {
            config.builtin[0].clone()
        } else if config.mcp_servers.len() > 0 {
            concat2("mcp:", config.mcp_servers[0].as_str())
        } else {
            String::from_str("openai-compatible")
        };
        ProviderRegistry {
            slots,
            default_provider,
            default_model: config.default_model.clone(),
            screening_model: config.screening_model.clone(),
            reasoning_model: config.reasoning_model.clone(),
            judge_model: config.judge_model.clone(),
            enable_tiered_routing: config.enable_tiered_routing,
            prompt_cache_capacity: config.prompt_cache_capacity,
        }
    }

    /// The index of the entry registered under `name`.
    fn find(&self, name: &str) -> (r: Option<usize>)
        ensures
            match r {
                Some(i) => i < self.slots@.len() && self.slots@[i as int].name@ == name@ && self@.providers.dom().contains(name@)
                    && self@.providers[name@] == slot_view(self.slots@[i as int]),
                None => !self@.providers.dom().contains(name@),
            },
    {
        proof {
            use_type_invariant(self);
        }
        let mut i: usize = 0;
        while i < self.slots.len()
            invariant
                i <= self.slots@.len(),
                names_unique(self.slots@),
                forall|j: int| 0 <= j < i ==> (#[trigger] self.slots@[j]).name@ != name@,
            decreases self.slots@.len() - i,
        {
            if str_equal(self.slots[i].name.as_str(), name) {
                proof {
                    lemma_slot_at(self.slots@, i as int);
                }
                return Some(i);
            }
            i = i + 1;
        }
        None
    }

    /// Checks that the registry can serve: something is registered, the default
    /// model is not blank, the prompt cache can hold an entry, and the default
    /// provider is registered and trusted.
    pub fn validate(&self) -> (r: Result<(), String>)
        ensures
            match r {
                Ok(()) => registry_problem(self@) is None,
                Err(e) => registry_problem(self@) == Some(e@),
            },
    {
        proof {
            use_type_invariant(self);
        }
        proof {
            lemma_slot_len(self.slots@);
        }
        if self.slots.len() == 0 {
            return Err(String::from_str("at least one provider must be registered"));
        }
        let model = trim_str(self.default_model.as_str());
        if model.as_str().is_empty() {
            return Err(String::from_str("providers.default_model must not be empty"));
        }
        if self.prompt_cache_capacity == 0 {
            return Err(String::from_str("providers.prompt_cache_capacity must be greater than 0"));
        }
        match self.find(self.default_provider.as_str()) {
            None => {
                let head = concat3("default provider '", self.default_provider.as_str(), "' is not registered");
                Err(head)
            },
            Some(i) => {
                if !self.slots[i].provenance.trusted {
                    let head = concat3(
                        "default provider '",
                        self.default_provider.as_str(),
                        "' is not trusted by provenance policy",
                    );
                    Err(head)
                } else {
                    Ok(())
                }
            },
        }
    }

    /// How many providers are registered.
    pub fn len(&self) -> (n: usize)
        ensures
            n == self@.providers.len(),
    {
        proof {
            use_type_invariant(self);
        }
        proof {
            lemma_slot_len(self.slots@);
        }
        self.slots.len()
    }

    /// The model used when tiered routing is off.
    pub fn default_model(&self) -> (r: &str)
        ensures
            r@ == self@.default_model,
    {
        self.default_model.as_str()
    }

    /// The default provider's name.
    pub fn default_provider(&self) -> (r: &str)
        ensures
            r@ == self@.default_provider,
    {
        self.default_provider.as_str()
    }

    /// The prompt cache's capacity.
    pub fn prompt_cache_capacity(&self) -> (n: usize)
        ensures
            n == self@.cache_capacity,
    {
        self.prompt_cache_capacity
    }

    /// The backend registered under `name`.
    pub fn get(&self, name: &str) -> (r: Option<RegisteredProvider>)
        ensures
            match r {
                Some(p) => self@.providers.dom().contains(name@) && p@ == self@.providers[name@].0,
                None => !self@.providers.dom().contains(name@),
            },
    {
        proof {
            use_type_invariant(self);
        }
        match self.find(name) {
            Some(i) => Some(self.slots[i].provider.duplicate()),
            None => None,
        }
    }

    /// The provenance of the provider registered under `name`.
    pub fn provenance(&self, name: &str) -> (r: Option<ProviderProvenance>)
        ensures
            match r {
                Some(p) => self@.providers.dom().contains(name@) && p@ == self@.providers[name@].1,
                None => !self@.providers.dom().contains(name@),
            },
    {
        proof {
            use_type_invariant(self);
        }
        match self.find(name) {
            Some(i) => Some(self.slots[i].provenance.duplicate()),
            None => None,
        }
    }

    /// Where a prompt goes: an explicit preferred model always wins (at the
    /// reasoning tier); with tiered routing off the default model is used;
    /// otherwise the lowercased, newline-joined contents pick the tier — judge
    /// words first, then long prompts or planning words, else screening.
    pub fn route_for_messages(&self, messages: &[ChatMessage], preferred_model: Option<&str>) -> (r: ProviderRouteDecision)
        ensures
            !r.cache_hit,
            (r.stage, r.model@, r.rationale@) == routed(
                self@,
                messages_view(messages@),
                match preferred_model {
                    Some(m) => Some(m@),
                    None => None,
                },
            ),
    {
        if let Some(model) = preferred_model {
            return ProviderRouteDecision {
                stage: ProviderRouteStage::Reasoning,
                model: String::from_str(model),
                rationale: String::from_str("explicit preferred model requested"),
                cache_hit: false,
            };
        }
        if !self.enable_tiered_routing {
            return ProviderRouteDecision {
                stage: ProviderRouteStage::Reasoning,
                model: self.default_model.clone(),
                rationale: String::from_str("tiered routing disabled"),
                cache_hit: false,
            };
        }
        let mut lowered: Vec<String> = Vec::new();
        let mut i: usize = 0;
        while i < messages.len()
            invariant
                i <= messages@.len(),
                texts(lowered@) == lowered_contents(messages_view(messages@.subrange(0, i as int))),
            decreases messages@.len() - i,
        {
            let ghost before = lowered@;
            let low = lower_str(messages[i].content.as_str());
            lowered.push(low);
            proof {
                let pre = messages_view(messages@.subrange(0, i as int));
                let next = messages_view(messages@.subrange(0, i + 1));
                assert(next =~= pre.push(messages@[i as int]@));
                assert(lowered_contents(next) =~= lowered_contents(pre).push(lower(messages@[i as int].content@)));
                assert(texts(lowered@) =~= texts(before).push(low@));
            }
            i = i + 1;
        }
        assert(messages@.subrange(0, messages@.len() as int) =~= messages@);
        let combined = join_strings(&lowered, "\n");
        proof {
            reveal_strlit("\n");
            assert("\n"@ =~= seq!['\n']);
        }
        let total = combined.as_str().as_bytes().len();
        let c = combined.as_str();
        let stage = if contains_str(c, "judge") || contains_str(c, "verifier") || contains_str(c, "arbitrate")
            || contains_str(c, "regression") {
            ProviderRouteStage::Judge
        } else if total > 1400 || contains_str(c, "graph") || contains_str(c, "research") || contains_str(c, "plan")
            || contains_str(c, "swarm") || contains_str(c, "capability") {
            ProviderRouteStage::Reasoning
        } else {
            ProviderRouteStage::Screening
        };
        let model = match stage {
            ProviderRouteStage::Screening => self.screening_model.clone(),
            ProviderRouteStage::Reasoning => self.reasoning_model.clone(),
            ProviderRouteStage::Judge => self.judge_model.clone(),
        };
        let count = decimal_string(total as u64);
        let rationale = concat3(
            "tiered routing selected model using ",
            count.as_str(),
            " characters of prompt context",
        );
        ProviderRouteDecision { stage, model, rationale, cache_hit: false }
    }
}

/// The contents of the messages, ASCII-lowercased.
pub open spec fn lowered_contents(messages: Seq<MessageView>) -> Seq<Seq<char>> {
    messages.map_values(|m: MessageView| lower(m.1))
}

/// The text the router reads: the lowercased contents joined with newlines.
pub open spec fn combined_prompt(messages: Seq<MessageView>) -> Seq<char> {
    joined(lowered_contents(messages), seq!['\n'])
}

/// The routing tier for a combined prompt of `bytes` bytes.
pub open spec fn route_stage(combined: Seq<char>, bytes: nat) -> ProviderRouteStage {
    if has_sub(combined, "judge"@) || has_sub(combined, "verifier"@) || has_sub(combined, "arbitrate"@) || has_sub(
        combined,
        "regression"@,
    ) {
        ProviderRouteStage::Judge
    } else if bytes > 1400 || has_sub(combined, "graph"@) || has_sub(combined, "research"@) || has_sub(combined, "plan"@)
        || has_sub(combined, "swarm"@) || has_sub(combined, "capability"@) {
        ProviderRouteStage::Reasoning
    } else {
        ProviderRouteStage::Screening
    }
}

/// The model a tier uses.
pub open spec fn tier_model(v: RegistryView, stage: ProviderRouteStage) -> Seq<char> {
    match stage {
        ProviderRouteStage::Screening => v.screening_model,
        ProviderRouteStage::Reasoning => v.reasoning_model,
        ProviderRouteStage::Judge => v.judge_model,
    }
}

/// The stage, model and rationale of a routing decision.
pub open spec fn routed(v: RegistryView, messages: Seq<MessageView>, preferred: Option<Seq<char>>) -> (
    ProviderRouteStage,
    Seq<char>,
    Seq<char>,
) {
    match preferred {
        Some(m) => (ProviderRouteStage::Reasoning, m, "explicit preferred model requested"@),
        None => if !v.tiered_routing {
            (ProviderRouteStage::Reasoning, v.default_model, "tiered routing disabled"@)
        } else {
            let combined = combined_prompt(messages);
            let bytes = encode_utf8(combined).len();
            let stage = route_stage(combined, bytes);
            (
                stage,
                tier_model(v, stage),
                "tiered routing selected model using "@ + decimal(bytes) + " characters of prompt context"@,
            )
        },
    }
}

proof fn lemma_builtins_dom(m: Map<Seq<char>, EntryView>, names: Seq<Seq<char>>, url: Seq<char>, ready: bool)
    ensures
        forall|k: Seq<char>| m.dom().contains(k) ==> #[trigger] with_builtins(m, names, url, ready).dom().contains(k),
        forall|i: int| 0 <= i < names.len() ==> with_builtins(m, names, url, ready).dom().contains(#[trigger] names[i]),
    decreases names.len(),
{
    if names.len() > 0 {
        lemma_builtins_dom(m, names.drop_last(), url, ready);
        assert forall|k: Seq<char>| m.dom().contains(k) implies #[trigger] with_builtins(m, names, url, ready).dom().contains(k) by {
            assert(with_builtins(m, names.drop_last(), url, ready).dom().contains(k));
        }
        assert forall|i: int| 0 <= i < names.len() implies with_builtins(m, names, url, ready).dom().contains(#[trigger] names[i]) by {
            if i < names.len() - 1 {
                assert(names.drop_last()[i] == names[i]);
            }
        }
    }
}

proof fn lemma_servers_dom(m: Map<Seq<char>, EntryView>, servers: Seq<Seq<char>>)
    ensures
        forall|k: Seq<char>| m.dom().contains(k) ==> #[trigger] with_servers(m, servers).dom().contains(k),
        forall|i: int| 0 <= i < servers.len() ==> with_servers(m, servers).dom().contains(mcp_name(#[trigger] servers[i])),
    decreases servers.len(),
{
    if servers.len() > 0 {
        lemma_servers_dom(m, servers.drop_last());
        assert forall|k: Seq<char>| m.dom().contains(k) implies #[trigger] with_servers(m, servers).dom().contains(k) by {
            assert(with_servers(m, servers.drop_last()).dom().contains(k));
        }
        assert forall|i: int| 0 <= i < servers.len() implies with_servers(m, servers).dom().contains(mcp_name(#[trigger] servers[i])) by {
            if i < servers.len() - 1 {
                assert(servers.drop_last()[i] == servers[i]);
            }
        }
    }
}

/// Every configured builtin name and every configured MCP server's provider is
/// registered, and so is the default provider whenever anything is configured.
pub proof fn law_configured_providers_registered(config: ProviderConfig, openai_ready: bool)
    ensures
        ({
            let v = registry_from(config, openai_ready);
            &&& forall|i: int| 0 <= i < config.builtin@.len() ==> v.providers.dom().contains(#[trigger] config.builtin@[i]@)
            &&& forall|i: int| 0 <= i < config.mcp_servers@.len() ==> v.providers.dom().contains(
                mcp_name(#[trigger] config.mcp_servers@[i]@),
            )
            &&& (config.builtin@.len() > 0 || config.mcp_servers@.len() > 0) ==> v.providers.dom().contains(v.default_provider)
        }),
{
    let b = texts(config.builtin@);
    let sv = texts(config.mcp_servers@);
    let url = config.api_base_url@;
    lemma_builtins_dom(Map::empty(), b, url, openai_ready);
    lemma_servers_dom(with_builtins(Map::empty(), b, url, openai_ready), sv);
    assert forall|i: int| 0 <= i < config.builtin@.len() implies registry_from(config, openai_ready).providers.dom().contains(
        #[trigger] config.builtin@[i]@,
    ) by {
        assert(b[i] == config.builtin@[i]@);
    }
    assert forall|i: int| 0 <= i < config.mcp_servers@.len() implies registry_from(config, openai_ready).providers.dom().contains(
        mcp_name(#[trigger] config.mcp_servers@[i]@),
    ) by {
        assert(sv[i] == config.mcp_servers@[i]@);
    }
    if b.len() > 0 {
        assert(b[0] == config.builtin@[0]@);
    } else if sv.len() > 0 {
        assert(sv[0] == config.mcp_servers@[0]@);
    }
}

/// An explicit model preference always decides the model, at the reasoning tier;
/// with tiered routing on and no preference, a prompt that mentions judging,
/// verification, arbitration or regressions goes to the judge model.
pub proof fn law_routing(v: RegistryView, messages: Seq<MessageView>, preferred: Option<Seq<char>>)
    ensures
        preferred matches Some(m) ==> routed(v, messages, preferred).0 == ProviderRouteStage::Reasoning
            && routed(v, messages, preferred).1 == m,
        preferred is None && !v.tiered_routing ==> routed(v, messages, preferred).1 == v.default_model,
        preferred is None && v.tiered_routing && (has_sub(combined_prompt(messages), "judge"@) || has_sub(
            combined_prompt(messages),
            "verifier"@,
        ) || has_sub(combined_prompt(messages), "arbitrate"@) || has_sub(combined_prompt(messages), "regression"@))
            ==> routed(v, messages, preferred).0 == ProviderRouteStage::Judge && routed(v, messages, preferred).1
            == v.judge_model,
{
}

/// With tiered routing on and no preference, a prompt that mentions none of the
/// judge words goes to the reasoning model when it is long (over 1400 bytes) or
/// mentions a graph, research, a plan, a swarm or a capability, and otherwise to
/// the screening model.
pub proof fn law_reasoning_and_screening_tiers(v: RegistryView, messages: Seq<MessageView>)
    requires
        v.tiered_routing,
    ensures
        ({
            let c = combined_prompt(messages);
            let judge = has_sub(c, "judge"@) || has_sub(c, "verifier"@) || has_sub(c, "arbitrate"@) || has_sub(c, "regression"@);
            let heavy = encode_utf8(c).len() > 1400 || has_sub(c, "graph"@) || has_sub(c, "research"@) || has_sub(c, "plan"@)
                || has_sub(c, "swarm"@) || has_sub(c, "capability"@);
            &&& (!judge && heavy) ==> (routed(v, messages, None).0 == ProviderRouteStage::Reasoning && routed(v, messages, None).1
                == v.reasoning_model)
            &&& (!judge && !heavy) ==> (routed(v, messages, None).0 == ProviderRouteStage::Screening && routed(v, messages, None).1
                == v.screening_model)
        }),
{
}

proof fn lemma_insert_size(m: Map<Seq<char>, EntryView>, k: Seq<char>, v: EntryView)
    requires
        m.dom().finite(),
    ensures
        m.insert(k, v).dom().finite(),
        m.insert(k, v).len() <= m.len() + 1,
{
    assert(m.insert(k, v).dom() == m.dom().insert(k));
    vstd::set::axiom_set_insert_finite(m.dom(), k);
    vstd::set::axiom_set_insert_len(m.dom(), k);
}

proof fn lemma_builtins_size(names: Seq<Seq<char>>, url: Seq<char>, ready: bool)
    ensures
        with_builtins(Map::empty(), names, url, ready).dom().finite(),
        with_builtins(Map::empty(), names, url, ready).len() <= names.len(),
    decreases names.len(),
{
    if names.len() == 0 {
        assert(Map::<Seq<char>, EntryView>::empty().dom() =~= Set::empty());
    } else {
        lemma_builtins_size(names.drop_last(), url, ready);
        lemma_insert_size(
            with_builtins(Map::empty(), names.drop_last(), url, ready),
            names.last(),
            builtin_entry(names.last(), url, ready),
        );
    }
}

proof fn lemma_servers_size(m: Map<Seq<char>, EntryView>, servers: Seq<Seq<char>>)
    requires
        m.dom().finite(),
    ensures
        with_servers(m, servers).dom().finite(),
        with_servers(m, servers).len() <= m.len() + servers.len(),
    decreases servers.len(),
{
    if servers.len() > 0 {
        lemma_servers_size(m, servers.drop_last());
        lemma_insert_size(with_servers(m, servers.drop_last()), mcp_name(servers.last()), mcp_entry(servers.last()));
    }
}

/// A configuration registers at most one provider per configured builtin name and
/// MCP server (repeated names register once).
pub proof fn law_provider_count_bounded(config: ProviderConfig, openai_ready: bool)
    ensures
        registry_from(config, openai_ready).providers.dom().finite(),
        registry_from(config, openai_ready).providers.len() <= config.builtin@.len() + config.mcp_servers@.len(),
{
    let b = texts(config.builtin@);
    let sv = texts(config.mcp_servers@);
    lemma_builtins_size(b, config.api_base_url@, openai_ready);
    lemma_servers_size(with_builtins(Map::empty(), b, config.api_base_url@, openai_ready), sv);
}

} // verus!
