//! Configuration: the models of the panel, the judge, and the limits.

use vstd::prelude::*;

use crate::error::{ErrorView, OpenFusionError};
use crate::protocol::copy_vec;
use crate::seqs;
use crate::text;

verus! {

/// The whole configuration.
#[derive(Debug)]
pub struct Config {
    pub fusion: FusionConfig,
    pub judge: ModelEndpoint,
    pub workers: Vec<ModelEndpoint>,
    pub storage: StorageConfig,
}

/// How the panel is run. `translation` is reserved for the shaping of prompts.
#[derive(Debug)]
pub struct FusionConfig {
    pub name: String,
    pub timeout_secs: u64,
    pub worker_timeout_secs: u64,
    pub min_workers: usize,
    pub retry: u32,
    pub translation: Option<ModelEndpoint>,
}

/// A model, and where and how it is reached.
#[derive(Debug)]
pub struct ModelEndpoint {
    pub base_url: String,
    pub api: ApiProtocol,
    pub api_key: String,
    pub model: String,
    pub name: Option<String>,
    pub personality: Vec<String>,
    pub system_prompt: Option<String>,
}

/// The wire protocols.
#[derive(Debug, Clone, Copy, PartialEq, Eq, Structural)]
pub enum ApiProtocol {
    OpenaiCompletions,
    OpenaiResponses,
    GoogleGenerativeAi,
    AnthropicMessages,
}

/// Where sessions are kept, and how many.
#[derive(Debug)]
pub struct StorageConfig {
    pub sessions_dir: String,
    pub max_sessions: usize,
}

#[verifier::ext_equal]
pub struct ConfigView {
    pub fusion: FusionConfigView,
    pub judge: EndpointView,
    pub workers: Seq<EndpointView>,
    pub storage: StorageView,
}

#[verifier::ext_equal]
pub struct FusionConfigView {
    pub name: Seq<char>,
    pub timeout_secs: u64,
    pub worker_timeout_secs: u64,
    pub min_workers: usize,
    pub retry: u32,
    pub translation: Option<EndpointView>,
}

#[verifier::ext_equal]
pub struct EndpointView {
    pub base_url: Seq<char>,
    pub api: ApiProtocol,
    pub api_key: Seq<char>,
    pub model: Seq<char>,
    pub name: Option<Seq<char>>,
    pub personality: Seq<Seq<char>>,
    pub system_prompt: Option<Seq<char>>,
}

#[verifier::ext_equal]
pub struct StorageView {
    pub sessions_dir: Seq<char>,
    pub max_sessions: usize,
}

impl DeepView for ModelEndpoint {
    type V = EndpointView;

    open spec fn deep_view(&self) -> EndpointView {
        EndpointView {
            base_url: self.base_url@,
            api: self.api,
            api_key: self.api_key@,
            model: self.model@,
            name: self.name.deep_view(),
            personality: self.personality.deep_view(),
            system_prompt: self.system_prompt.deep_view(),
        }
    }
}

impl DeepView for FusionConfig {
    type V = FusionConfigView;

    open spec fn deep_view(&self) -> FusionConfigView {
        FusionConfigView {
            name: self.name@,
            timeout_secs: self.timeout_secs,
            worker_timeout_secs: self.worker_timeout_secs,
            min_workers: self.min_workers,
            retry: self.retry,
            translation: self.translation.deep_view(),
        }
    }
}

impl DeepView for StorageConfig {
    type V = StorageView;

    open spec fn deep_view(&self) -> StorageView {
        StorageView { sessions_dir: self.sessions_dir@, max_sessions: self.max_sessions }
    }
}

impl DeepView for Config {
    type V = ConfigView;

    open spec fn deep_view(&self) -> ConfigView {
        ConfigView {
            fusion: self.fusion.deep_view(),
            judge: self.judge.deep_view(),
            workers: self.workers.deep_view(),
            storage: self.storage.deep_view(),
        }
    }
}

impl Clone for ModelEndpoint {
    fn clone(&self) -> (r: Self)
        ensures
            r.deep_view() == self.deep_view(),
    {
        ModelEndpoint {
            base_url: self.base_url.clone(),
            api: self.api,
            api_key: self.api_key.clone(),
            model: self.model.clone(),
            name: self.name.clone(),
            personality: copy_vec(&self.personality),
            system_prompt: self.system_prompt.clone(),
        }
    }
}

impl Clone for FusionConfig {
    fn clone(&self) -> (r: Self)
        ensures
            r.deep_view() == self.deep_view(),
    {
        FusionConfig {
            name: self.name.clone(),
            timeout_secs: self.timeout_secs,
            worker_timeout_secs: self.worker_timeout_secs,
            min_workers: self.min_workers,
            retry: self.retry,
            translation: self.translation.clone(),
        }
    }
}

impl Clone for StorageConfig {
    fn clone(&self) -> (r: Self)
        ensures
            r.deep_view() == self.deep_view(),
    {
        StorageConfig {
            sessions_dir: self.sessions_dir.clone(),
            max_sessions: self.max_sessions,
        }
    }
}

impl Clone for Config {
    fn clone(&self) -> (r: Self)
        ensures
            r.deep_view() == self.deep_view(),
    {
        Config {
            fusion: self.fusion.clone(),
            judge: self.judge.clone(),
            workers: copy_vec(&self.workers),
            storage: self.storage.clone(),
        }
    }
}

// ---------------------------------------------------------------------------
// Defaults
// ---------------------------------------------------------------------------

pub fn default_fusion_name() -> (r: String)
    ensures
        r@ == "openfusion/fusion"@,
{
    "openfusion/fusion".to_owned()
}

pub fn default_fusion_timeout() -> (r: u64)
    ensures
        r == 120,
{
    120
}

pub fn default_worker_timeout() -> (r: u64)
    ensures
        r == 60,
{
    60
}

pub fn default_min_workers() -> (r: usize)
    ensures
        r == 1,
{
    1
}

pub fn default_max_sessions() -> (r: usize)
    ensures
        r == 1000,
{
    1000
}

/// A path below a directory; a path that begins at the root stays as it is.
pub open spec fn path_below(dir: Seq<char>, name: Seq<char>) -> Seq<char> {
    if dir.len() == 0 || (name.len() > 0 && name[0] == '/') {
        name
    } else if dir.last() == '/' {
        dir + name
    } else {
        dir + "/"@ + name
    }
}

/// A path below a directory; a path that begins at the root stays as it is.
pub fn join_path(dir: &str, name: &str) -> (r: String)
    ensures
        r@ == path_below(dir@, name@),
{
    let v = text::chars(dir);
    let w = text::chars(name);
    if v.len() == 0 || (w.len() > 0 && w[0] == '/') {
        return name.to_owned();
    }
    if v[v.len() - 1] == '/' {
        return text::concat(dir, name);
    }
    let mut r = text::concat(dir, "/");
    r.append(name);
    r
}

/// Where sessions are kept below a home directory.
pub fn default_sessions_dir(home: &str) -> (r: String)
    ensures
        r@ == path_below(path_below(home@, ".openfusion"@), "sessions"@),
{
    join_path(join_path(home, ".openfusion").as_str(), "sessions")
}

/// Where the configuration is kept below a home directory.
pub fn default_config_path(home: &str) -> (r: String)
    ensures
        r@ == path_below(path_below(home@, ".openfusion"@), "config.toml"@),
{
    join_path(join_path(home, ".openfusion").as_str(), "config.toml")
}

/// The default way to run the panel.
pub open spec fn default_fusion() -> FusionConfigView {
    FusionConfigView {
        name: "openfusion/fusion"@,
        timeout_secs: 120,
        worker_timeout_secs: 60,
        min_workers: 1,
        retry: 0,
        translation: None,
    }
}

impl Default for FusionConfig {
    fn default() -> (r: Self)
        ensures
            r.deep_view() == default_fusion(),
    {
        FusionConfig {
            name: default_fusion_name(),
            timeout_secs: default_fusion_timeout(),
            worker_timeout_secs: default_worker_timeout(),
            min_workers: default_min_workers(),
            retry: 0,
            translation: None,
        }
    }
}

/// The default storage below a home directory.
pub open spec fn storage_below(home: Seq<char>) -> StorageView {
    StorageView {
        sessions_dir: path_below(path_below(home, ".openfusion"@), "sessions"@),
        max_sessions: 1000,
    }
}

impl StorageConfig {
    /// The default storage below a home directory.
    pub fn below(home: &str) -> (r: Self)
        ensures
            r.deep_view() == storage_below(home@),
    {
        StorageConfig {
            sessions_dir: default_sessions_dir(home),
            max_sessions: default_max_sessions(),
        }
    }
}

/// The configuration that is written where there is none.
pub open spec fn starter_config(home: Seq<char>) -> ConfigView {
    ConfigView {
        fusion: default_fusion(),
        judge: EndpointView {
            base_url: "https://api.openai.com"@,
            api: ApiProtocol::OpenaiResponses,
            api_key: "sk-xxx"@,
            model: "gpt-5.4-mini"@,
            name: None,
            personality: Seq::empty(),
            system_prompt: None,
        },
        workers: seq![
            EndpointView {
                base_url: "https://api.openai.com"@,
                api: ApiProtocol::OpenaiResponses,
                api_key: "sk-xxx"@,
                model: "gpt-5.4-mini"@,
                name: Some("analytical"@),
                personality: seq!["rational"@, "logical"@],
                system_prompt: None,
            },
            EndpointView {
                base_url: "https://api.anthropic.com"@,
                api: ApiProtocol::AnthropicMessages,
                api_key: "sk-xxx"@,
                model: "sonnet-4.6"@,
                name: Some("critical"@),
                personality: seq!["strict"@, "critical"@],
                system_prompt: None,
            },
        ],
        storage: storage_below(home),
    }
}

// ---------------------------------------------------------------------------
// Validity
// ---------------------------------------------------------------------------

/// Whether an address is one that can be asked.
pub open spec fn is_web_address(url: Seq<char>) -> bool {
    text::starts_with_of(url, "http://"@) || text::starts_with_of(url, "https://"@)
}

/// What is wrong with an endpoint, if anything.
pub open spec fn endpoint_fault(label: Seq<char>, e: EndpointView) -> Option<Seq<char>> {
    if is_web_address(e.base_url) {
        None
    } else {
        Some(label + " base_url must start with http:// or https://: "@ + e.base_url)
    }
}

/// The label of a worker.
pub open spec fn worker_label(i: nat) -> Seq<char> {
    "worker["@ + text::decimal_of(i) + "]"@
}

/// What is wrong with the workers from position `i` on, if anything.
pub open spec fn workers_fault(workers: Seq<EndpointView>, i: int) -> Option<Seq<char>>
    decreases workers.len() - i,
{
    if i < 0 || i >= workers.len() {
        None
    } else {
        match endpoint_fault(worker_label(i as nat), workers[i]) {
            Some(fault) => Some(fault),
            None => workers_fault(workers, i + 1),
        }
    }
}

/// What is wrong with a configuration, if anything.
pub open spec fn config_fault(c: ConfigView) -> Option<Seq<char>> {
    if c.workers.len() == 0 {
        Some("At least one worker is required"@)
    } else if c.fusion.min_workers > c.workers.len() {
        Some(
            "min_workers ("@ + text::decimal_of(c.fusion.min_workers as nat)
                + ") exceeds total workers ("@ + text::decimal_of(c.workers.len()) + ")"@,
        )
    } else if c.fusion.timeout_secs == 0 {
        Some("fusion.timeout_secs must be > 0"@)
    } else if c.fusion.worker_timeout_secs == 0 {
        Some("fusion.worker_timeout_secs must be > 0"@)
    } else {
        match endpoint_fault("judge"@, c.judge) {
            Some(fault) => Some(fault),
            None => workers_fault(c.workers, 0),
        }
    }
}

/// Whether a configuration can be used: there are workers, enough of them, time to
/// wait for them, and every address can be asked.
pub open spec fn is_usable(c: ConfigView) -> bool {
    &&& c.workers.len() > 0
    &&& c.fusion.min_workers <= c.workers.len()
    &&& c.fusion.timeout_secs > 0
    &&& c.fusion.worker_timeout_secs > 0
    &&& is_web_address(c.judge.base_url)
    &&& forall|i: int| 0 <= i < c.workers.len() ==> is_web_address((#[trigger] c.workers[i]).base_url)
}

proof fn workers_fault_is_none(workers: Seq<EndpointView>, i: int)
    requires
        0 <= i,
    ensures
        workers_fault(workers, i) is None <==> forall|k: int|
            i <= k < workers.len() ==> is_web_address((#[trigger] workers[k]).base_url),
    decreases workers.len() - i,
{
    if i < workers.len() {
        workers_fault_is_none(workers, i + 1);
        if workers_fault(workers, i) is None {
            assert(is_web_address(workers[i].base_url));
        }
    }
}

/// A configuration passes validation exactly when it can be used.
pub proof fn valid_config_is_usable(c: ConfigView)
    ensures
        config_fault(c) is None <==> is_usable(c),
{
    workers_fault_is_none(c.workers, 0);
}

/// The configuration that is written where there is none can be used.
pub proof fn starter_config_is_usable(home: Seq<char>)
    ensures
        is_usable(starter_config(home)),
{
    reveal_strlit("https://");
    reveal_strlit("https://api.openai.com");
    reveal_strlit("https://api.anthropic.com");
    let p = "https://"@;
    assert("https://api.openai.com"@.subrange(0, p.len() as int) =~= p);
    assert("https://api.anthropic.com"@.subrange(0, p.len() as int) =~= p);
}

/// Checks an endpoint.
pub fn validate_endpoint(label: &str, endpoint: &ModelEndpoint) -> (r: Result<(), OpenFusionError>)
    ensures
        match endpoint_fault(label@, endpoint.deep_view()) {
            Some(fault) => r matches Err(e) && e.deep_view() == ErrorView::Config(fault),
            None => r is Ok,
        },
{
    if !text::starts_with(endpoint.base_url.as_str(), "http://") && !text::starts_with(
        endpoint.base_url.as_str(),
        "https://",
    ) {
        let mut m = text::concat(label, " base_url must start with http:// or https://: ");
        m.append(endpoint.base_url.as_str());
        return Err(OpenFusionError::Config(m));
    }
    Ok(())
}

/// Whether a key is there and is not the placeholder.
pub open spec fn is_real_key(key: Seq<char>) -> bool {
    key.len() > 0 && !text::starts_with_of(key, "sk-xxx"@)
}

/// The key for an endpoint: its own, or else that of the environment.
pub open spec fn key_for(e: EndpointView, env_key: Option<Seq<char>>) -> Option<Seq<char>> {
    if is_real_key(e.api_key) {
        Some(e.api_key)
    } else {
        env_key
    }
}

/// The path at which a protocol is spoken.
pub open spec fn path_of(protocol: ApiProtocol, model: Seq<char>) -> Seq<char> {
    match protocol {
        ApiProtocol::OpenaiCompletions => "/v1/chat/completions"@,
        ApiProtocol::OpenaiResponses => "/v1/responses"@,
        ApiProtocol::GoogleGenerativeAi => "/v1beta/models/"@ + model + ":generateContent"@,
        ApiProtocol::AnthropicMessages => "/v1/messages"@,
    }
}

impl Config {
    /// The configuration that is written where there is none, below a home directory.
    pub fn default_config(home: &str) -> (r: Self)
        ensures
            r.deep_view() == starter_config(home@),
    {
        let mut analytical: Vec<String> = seqs::one("rational".to_owned());
        seqs::put(&mut analytical, "logical".to_owned());
        let mut critical: Vec<String> = seqs::one("strict".to_owned());
        seqs::put(&mut critical, "critical".to_owned());
        let mut workers: Vec<ModelEndpoint> = seqs::one(
            ModelEndpoint {
                base_url: "https://api.openai.com".to_owned(),
                api: ApiProtocol::OpenaiResponses,
                api_key: "sk-xxx".to_owned(),
                model: "gpt-5.4-mini".to_owned(),
                name: Some("analytical".to_owned()),
                personality: analytical,
                system_prompt: None,
            },
        );
        seqs::put(
            &mut workers,
            ModelEndpoint {
                base_url: "https://api.anthropic.com".to_owned(),
                api: ApiProtocol::AnthropicMessages,
                api_key: "sk-xxx".to_owned(),
                model: "sonnet-4.6".to_owned(),
                name: Some("critical".to_owned()),
                personality: critical,
                system_prompt: None,
            },
        );
        let r = Config {
            fusion: FusionConfig::default(),
            judge: ModelEndpoint {
                base_url: "https://api.openai.com".to_owned(),
                api: ApiProtocol::OpenaiResponses,
                api_key: "sk-xxx".to_owned(),
                model: "gpt-5.4-mini".to_owned(),
                name: None,
                personality: seqs::none(),
                system_prompt: None,
            },
            workers,
            storage: StorageConfig::below(home),
        };
        assert(r.workers.deep_view()[0].personality =~= seq!["rational"@, "logical"@]);
        assert(r.workers.deep_view()[1].personality =~= seq!["strict"@, "critical"@]);
        assert(r.workers.deep_view() =~= starter_config(home@).workers);
        r
    }

    /// Checks a configuration.
    pub fn validate(&self) -> (r: Result<(), OpenFusionError>)
        ensures
            match config_fault(self.deep_view()) {
                Some(fault) => r matches Err(e) && e.deep_view() == ErrorView::Config(fault),
                None => r is Ok,
            },
            r is Ok <==> is_usable(self.deep_view()),
    {
        proof {
            valid_config_is_usable(self.deep_view());
        }
        if self.workers.len() == 0 {
            return Err(OpenFusionError::Config("At least one worker is required".to_owned()));
        }
        if self.fusion.min_workers > self.workers.len() {
            let mut m = text::concat(
                "min_workers (",
                text::decimal(self.fusion.min_workers as u64).as_str(),
            );
            m.append(") exceeds total workers (");
            m.append(text::decimal(self.workers.len() as u64).as_str());
            m.append(")");
            return Err(OpenFusionError::Config(m));
        }
        if self.fusion.timeout_secs == 0 {
            return Err(OpenFusionError::Config("fusion.timeout_secs must be > 0".to_owned()));
        }
        if self.fusion.worker_timeout_secs == 0 {
            return Err(
                OpenFusionError::Config("fusion.worker_timeout_secs must be > 0".to_owned()),
            );
        }
        if let Err(e) = validate_endpoint("judge", &self.judge) {
            return Err(e);
        }
        self.validate_workers()
    }

    fn validate_workers(&self) -> (r: Result<(), OpenFusionError>)
        ensures
            match workers_fault(self.deep_view().workers, 0) {
                Some(fault) => r matches Err(e) && e.deep_view() == ErrorView::Config(fault),
                None => r is Ok,
            },
    {
        let ghost all = self.workers.deep_view();
        let mut i: usize = 0;
        while i < self.workers.len()
            invariant
                i <= self.workers@.len(),
                all == self.workers.deep_view(),
                workers_fault(all, 0) == workers_fault(all, i as int),
            decreases self.workers.len() - i,
        {
            let mut label = text::concat("worker[", text::decimal(i as u64).as_str());
            label.append("]");
            if let Err(e) = validate_endpoint(label.as_str(), &self.workers[i]) {
                return Err(e);
            }
            i += 1;
        }
        Ok(())
    }

    /// The key for an endpoint: its own, unless it is missing or the placeholder, or
    /// else that of the environment.
    pub fn resolve_api_key(&self, endpoint: &ModelEndpoint, env_key: &Option<String>) -> (r: Option<
        String,
    >)
        ensures
            r.deep_view() == key_for(endpoint.deep_view(), env_key.deep_view()),
    {
        if !endpoint.api_key.as_str().is_empty() && !text::starts_with(
            endpoint.api_key.as_str(),
            "sk-xxx",
        ) {
            return Some(endpoint.api_key.clone());
        }
        env_key.clone()
    }

    /// The path at which a protocol is spoken.
    pub fn protocol_path(protocol: &ApiProtocol, model: &str) -> (r: String)
        ensures
            r@ == path_of(*protocol, model@),
    {
        match protocol {
            ApiProtocol::OpenaiCompletions => "/v1/chat/completions".to_owned(),
            ApiProtocol::OpenaiResponses => "/v1/responses".to_owned(),
            ApiProtocol::GoogleGenerativeAi => {
                let mut r = text::concat("/v1beta/models/", model);
                r.append(":generateContent");
                r
            },
            ApiProtocol::AnthropicMessages => "/v1/messages".to_owned(),
        }
    }
}

/// A configuration is refused without workers, with fewer than are needed, without time to
/// wait, or with an address that is not one of the web; and never otherwise.
pub proof fn unusable_configs_are_refused(c: ConfigView)
    ensures
        config_fault(c) is None <==> {
            &&& c.workers.len() > 0
            &&& c.fusion.min_workers <= c.workers.len()
            &&& c.fusion.timeout_secs > 0
            &&& c.fusion.worker_timeout_secs > 0
            &&& text::starts_with_of(c.judge.base_url, "http://"@) || text::starts_with_of(
                c.judge.base_url,
                "https://"@,
            )
            &&& forall|i: int|
                0 <= i < c.workers.len() ==> text::starts_with_of(
                    (#[trigger] c.workers[i]).base_url,
                    "http://"@,
                ) || text::starts_with_of(c.workers[i].base_url, "https://"@)
        },
{
    valid_config_is_usable(c);
    if is_usable(c) {
        assert forall|i: int| 0 <= i < c.workers.len() implies text::starts_with_of(
            (#[trigger] c.workers[i]).base_url,
            "http://"@,
        ) || text::starts_with_of(c.workers[i].base_url, "https://"@) by {
            assert(is_web_address(c.workers[i].base_url));
        }
    }
    if config_fault(c) is Some && c.workers.len() > 0 && c.fusion.min_workers <= c.workers.len()
        && c.fusion.timeout_secs > 0 && c.fusion.worker_timeout_secs > 0 && is_web_address(
        c.judge.base_url,
    ) {
        assert(!is_usable(c));
        let i = choose|i: int|
            0 <= i < c.workers.len() && !is_web_address((#[trigger] c.workers[i]).base_url);
        assert(!is_web_address(c.workers[i].base_url));
    }
}

/// The path of a protocol is the one at which its servers answer; for Gemini it names the
/// model.
pub proof fn protocols_have_their_paths(model: Seq<char>)
    ensures
        path_of(ApiProtocol::OpenaiCompletions, model) == "/v1/chat/completions"@,
        path_of(ApiProtocol::OpenaiResponses, model) == "/v1/responses"@,
        path_of(ApiProtocol::AnthropicMessages, model) == "/v1/messages"@,
        path_of(ApiProtocol::GoogleGenerativeAi, model) == "/v1beta/models/"@ + model
            + ":generateContent"@,
{
}

/// What is configured where nothing is said: two minutes for a run, one for each worker,
/// one worker at least, no further retries, and a thousand sessions below the home
/// directory.
pub proof fn defaults_are_moderate(home: Seq<char>)
    requires
        home.len() > 0,
        home.last() != '/',
    ensures
        default_fusion().timeout_secs == 120,
        default_fusion().worker_timeout_secs == 60,
        default_fusion().min_workers == 1,
        default_fusion().retry == 0,
        default_fusion().translation is None,
        default_fusion().name == "openfusion/fusion"@,
        storage_below(home).max_sessions == 1000,
        storage_below(home).sessions_dir == home + "/.openfusion/sessions"@,
{
    reveal_strlit("/");
    reveal_strlit(".openfusion");
    reveal_strlit("sessions");
    reveal_strlit("/.openfusion/sessions");
    assert(".openfusion"@[0] == '.' && "sessions"@[0] == 's');
    let dir = home + "/"@ + ".openfusion"@;
    assert(path_below(home, ".openfusion"@) == dir);
    assert(dir.last() == ".openfusion"@.last());
    assert(dir + "/"@ + "sessions"@ =~= home + "/.openfusion/sessions"@);
}

/// A path below a directory begins with the directory and ends with the name, with one
/// slash between them; a name that begins at the root stays as it is.
pub proof fn paths_lie_below(dir: Seq<char>, name: Seq<char>)
    ensures
        name.len() > 0 && name[0] == '/' ==> path_below(dir, name) == name,
        dir.len() == 0 ==> path_below(dir, name) == name,
        dir.len() > 0 && dir.last() == '/' && (name.len() == 0 || name[0] != '/') ==> path_below(
            dir,
            name,
        ) == dir + name,
        dir.len() > 0 && dir.last() != '/' && (name.len() == 0 || name[0] != '/') ==> path_below(
            dir,
            name,
        ) == dir + "/"@ + name,
{
}

/// The configuration to begin with asks two workers, one in each of two protocols, at the
/// addresses of their makers, and has placeholders for their keys.
pub proof fn starter_config_is_to_be_filled(home: Seq<char>)
    ensures
        ({
            let c = starter_config(home);
            &&& c.workers.len() == 2
            &&& c.workers[0].api is OpenaiResponses
            &&& c.workers[0].base_url == "https://api.openai.com"@
            &&& c.workers[0].name == Some("analytical"@)
            &&& c.workers[1].api is AnthropicMessages
            &&& c.workers[1].base_url == "https://api.anthropic.com"@
            &&& c.workers[1].name == Some("critical"@)
            &&& c.judge.api is OpenaiResponses
            &&& c.judge.base_url == "https://api.openai.com"@
            &&& !is_real_key(c.judge.api_key)
            &&& !is_real_key(c.workers[0].api_key)
            &&& !is_real_key(c.workers[1].api_key)
            &&& c.storage == storage_below(home)
            &&& c.fusion == default_fusion()
        }),
{
    let key = "sk-xxx"@;
    assert(key.subrange(0, key.len() as int) =~= key);
}

/// What is wrong with an address says whose it is and what it is: that of the judge, or
/// that of the first worker whose address is not one of the web, by its place.
pub proof fn bad_addresses_are_named(c: ConfigView, i: int)
    requires
        c.workers.len() > 0,
        c.fusion.min_workers <= c.workers.len(),
        c.fusion.timeout_secs > 0,
        c.fusion.worker_timeout_secs > 0,
    ensures
        !is_web_address(c.judge.base_url) ==> config_fault(c) == Some(
            "judge"@ + " base_url must start with http:// or https://: "@ + c.judge.base_url,
        ),
        is_web_address(c.judge.base_url) && 0 <= i < c.workers.len() && !is_web_address(
            c.workers[i].base_url,
        ) && (forall|k: int| 0 <= k < i ==> is_web_address((#[trigger] c.workers[k]).base_url))
            ==> config_fault(c) == Some(
            "worker["@ + text::decimal_of(i as nat) + "]"@
                + " base_url must start with http:// or https://: "@ + c.workers[i].base_url,
        ),
{
    if is_web_address(c.judge.base_url) && 0 <= i < c.workers.len() && !is_web_address(
        c.workers[i].base_url,
    ) && (forall|k: int| 0 <= k < i ==> is_web_address((#[trigger] c.workers[k]).base_url)) {
        first_fault_is_told(c.workers, 0, i);
    }
}

proof fn first_fault_is_told(workers: Seq<EndpointView>, from: int, i: int)
    requires
        0 <= from <= i < workers.len(),
        !is_web_address(workers[i].base_url),
        forall|k: int| from <= k < i ==> is_web_address((#[trigger] workers[k]).base_url),
    ensures
        workers_fault(workers, from) == endpoint_fault(worker_label(i as nat), workers[i]),
    decreases i - from,
{
    if from < i {
        assert(is_web_address(workers[from].base_url));
        first_fault_is_told(workers, from + 1, i);
    }
}

/// Other faults say what is wrong: that there are no workers, that there are too few, or
/// which time is missing.
pub proof fn other_faults_are_told(c: ConfigView)
    ensures
        c.workers.len() == 0 ==> config_fault(c) == Some("At least one worker is required"@),
        c.workers.len() > 0 && c.fusion.min_workers > c.workers.len() ==> config_fault(c) == Some(
            "min_workers ("@ + text::decimal_of(c.fusion.min_workers as nat)
                + ") exceeds total workers ("@ + text::decimal_of(c.workers.len()) + ")"@,
        ),
        c.workers.len() > 0 && c.fusion.min_workers <= c.workers.len() && c.fusion.timeout_secs
            == 0 ==> config_fault(c) == Some("fusion.timeout_secs must be > 0"@),
        c.workers.len() > 0 && c.fusion.min_workers <= c.workers.len() && c.fusion.timeout_secs
            > 0 && c.fusion.worker_timeout_secs == 0 ==> config_fault(c) == Some(
            "fusion.worker_timeout_secs must be > 0"@,
        ),
{
}

} // verus!
