use vstd::prelude::*;

use crate::text::{
    eq_ignore_ascii_case, parse_unsigned, spec_eq_ignore_ascii_case, spec_parse_unsigned, spec_split,
    spec_trim, split_commas, trim,
};

verus! {

pub const DEFAULT_BIND_ADDR: &'static str = "127.0.0.1:35876";

pub const DEFAULT_MAX_WORKER_INSTANCES: usize = 64;

/// The largest worker control message body: 16 MiB.
pub const DEFAULT_MAX_CONTROL_MESSAGE_BYTES: usize = 16_777_216;

pub const DEFAULT_WORKER_QUARANTINE_FAILURE_THRESHOLD: u32 = 3;

/// The cgroup v2 default CPU period.
pub const DEFAULT_LINUX_CGROUP_CPU_PERIOD_MICROS: u64 = 100_000;

pub const DEFAULT_WORKER_LOAD_TIMEOUT_MS: u64 = 120_000;

/// The host of an origin URL, as the URL parser classifies it.
#[derive(Debug, Clone, PartialEq, Eq)]
pub enum OriginHost {
    Domain(String),
    Ipv4([u8; 4]),
    Ipv6([u16; 8]),
}

/// The parts of an origin URL that the loopback rule reads.
#[derive(Debug, Clone, PartialEq, Eq)]
pub struct UrlOrigin {
    pub scheme: String,
    pub host: Option<OriginHost>,
}

pub enum OriginHostView {
    Domain(Seq<char>),
    Ipv4(Seq<u8>),
    Ipv6(Seq<u16>),
}

pub struct UrlOriginView {
    pub scheme: Seq<char>,
    pub host: Option<OriginHostView>,
}

impl View for UrlOrigin {
    type V = UrlOriginView;

    open spec fn view(&self) -> UrlOriginView {
        UrlOriginView {
            scheme: self.scheme@,
            host: match self.host {
                Some(OriginHost::Domain(domain)) => Some(OriginHostView::Domain(domain@)),
                Some(OriginHost::Ipv4(octets)) => Some(OriginHostView::Ipv4(octets@)),
                Some(OriginHost::Ipv6(segments)) => Some(OriginHostView::Ipv6(segments@)),
                None => None,
            },
        }
    }
}

/// What `url::Url::parse` makes of a text: `None` when it is no URL, else its scheme and host.
pub uninterp spec fn parsed_url_origin(text: Seq<char>) -> Option<UrlOriginView>;

/// `url::Url::parse`, then `Url::scheme` and `Url::host`: the result is a function of the text
/// alone and is named `parsed_url_origin`; the host is moved into the library's own enum.
#[verifier::external_body]
fn parse_url_origin(text: &str) -> (parsed: Option<UrlOrigin>)
    ensures
        match parsed {
            Some(origin) => parsed_url_origin(text@) == Some(origin@),
            None => parsed_url_origin(text@) is None,
        },
{
    let url = url::Url::parse(text).ok()?;
    let host = match url.host() {
        Some(url::Host::Domain(domain)) => Some(OriginHost::Domain(domain.to_string())),
        Some(url::Host::Ipv4(address)) => Some(OriginHost::Ipv4(address.octets())),
        Some(url::Host::Ipv6(address)) => Some(OriginHost::Ipv6(address.segments())),
        None => None,
    };
    Some(UrlOrigin { scheme: url.scheme().to_string(), host })
}

/// A loopback host: `localhost` in any ASCII case, an IPv4 address in 127.0.0.0/8, or `::1`.
pub open spec fn spec_is_loopback_host(host: OriginHostView) -> bool {
    match host {
        OriginHostView::Domain(domain) => spec_eq_ignore_ascii_case(domain, "localhost"@),
        OriginHostView::Ipv4(octets) => octets.len() == 4 && octets[0] == 127,
        OriginHostView::Ipv6(segments) => segments == seq![0u16, 0u16, 0u16, 0u16, 0u16, 0u16, 0u16, 1u16],
    }
}

/// An origin is a loopback origin when it parses as an `http` or `https` URL whose host is a
/// loopback host.
pub open spec fn spec_is_loopback_origin(origin: Seq<char>) -> bool {
    match parsed_url_origin(origin) {
        Some(url) => spec_is_loopback_url(url),
        None => false,
    }
}

/// An `http` or `https` URL whose host is a loopback host.
pub open spec fn spec_is_loopback_url(url: UrlOriginView) -> bool {
    (url.scheme == "http"@ || url.scheme == "https"@) && match url.host {
        Some(host) => spec_is_loopback_host(host),
        None => false,
    }
}

/// Whether a parsed origin URL is a loopback origin.
pub fn is_loopback_url(url: &UrlOrigin) -> (loopback: bool)
    ensures
        loopback == spec_is_loopback_url(url@),
{
    let http = String::from_str("http");
    let https = String::from_str("https");
    if !(url.scheme == http || url.scheme == https) {
        return false;
    }
    match &url.host {
        Some(OriginHost::Domain(domain)) => eq_ignore_ascii_case(domain.as_str(), "localhost"),
        Some(OriginHost::Ipv4(octets)) => octets[0] == 127,
        Some(OriginHost::Ipv6(segments)) => {
            let loopback = segments[0] == 0 && segments[1] == 0 && segments[2] == 0 && segments[3] == 0
                && segments[4] == 0 && segments[5] == 0 && segments[6] == 0 && segments[7] == 1;
            proof {
                if loopback {
                    assert(segments@ =~= seq![0u16, 0u16, 0u16, 0u16, 0u16, 0u16, 0u16, 1u16]);
                } else {
                    assert(segments@ != seq![0u16, 0u16, 0u16, 0u16, 0u16, 0u16, 0u16, 1u16]) by {
                        if segments@ == seq![0u16, 0u16, 0u16, 0u16, 0u16, 0u16, 0u16, 1u16] {
                            assert(segments@[7] == 1);
                        }
                    }
                }
            }
            loopback
        },
        None => false,
    }
}

pub fn is_loopback_origin(origin: &str) -> (loopback: bool)
    ensures
        loopback == spec_is_loopback_origin(origin@),
{
    match parse_url_origin(origin) {
        Some(url) => is_loopback_url(&url),
        None => false,
    }
}

pub open spec fn optional_text(value: Option<String>) -> Option<Seq<char>> {
    match value {
        Some(text) => Some(text@),
        None => None,
    }
}

/// The bridge configuration as a mathematical value.
pub struct BridgeConfigView {
    pub bind_addr: Seq<char>,
    pub token: Option<Seq<char>>,
    pub allowed_origins: Seq<Seq<char>>,
    pub allow_loopback_origins: bool,
    pub worker_auto_restart: bool,
    pub worker_load_timeout_ms: u64,
    pub max_worker_instances: usize,
    pub worker_quarantine_failure_threshold: u32,
    pub max_control_message_bytes: usize,
    pub worker_memory_limit_bytes: Option<u64>,
    pub worker_cpu_time_limit_seconds: Option<u64>,
    pub worker_linux_cgroup_parent: Option<Seq<char>>,
    pub worker_linux_cgroup_memory_max_bytes: Option<u64>,
    pub worker_linux_cgroup_cpu_quota_micros: Option<u64>,
    pub worker_linux_cgroup_cpu_period_micros: u64,
}

/// How the bridge listens, whom it admits, and how it runs workers.
#[derive(Debug, Clone)]
pub struct BridgeConfig {
    bind_addr: String,
    token: Option<String>,
    allowed_origins: Vec<String>,
    allow_loopback_origins: bool,
    worker_auto_restart: bool,
    worker_load_timeout_ms: u64,
    max_worker_instances: usize,
    worker_quarantine_failure_threshold: u32,
    max_control_message_bytes: usize,
    worker_memory_limit_bytes: Option<u64>,
    worker_cpu_time_limit_seconds: Option<u64>,
    worker_linux_cgroup_parent: Option<String>,
    worker_linux_cgroup_memory_max_bytes: Option<u64>,
    worker_linux_cgroup_cpu_quota_micros: Option<u64>,
    worker_linux_cgroup_cpu_period_micros: u64,
}

impl View for BridgeConfig {
    type V = BridgeConfigView;

    closed spec fn view(&self) -> BridgeConfigView {
        BridgeConfigView {
            bind_addr: self.bind_addr@,
            token: optional_text(self.token),
            allowed_origins: self.allowed_origins@.map_values(|origin: String| origin@),
            allow_loopback_origins: self.allow_loopback_origins,
            worker_auto_restart: self.worker_auto_restart,
            worker_load_timeout_ms: self.worker_load_timeout_ms,
            max_worker_instances: self.max_worker_instances,
            worker_quarantine_failure_threshold: self.worker_quarantine_failure_threshold,
            max_control_message_bytes: self.max_control_message_bytes,
            worker_memory_limit_bytes: self.worker_memory_limit_bytes,
            worker_cpu_time_limit_seconds: self.worker_cpu_time_limit_seconds,
            worker_linux_cgroup_parent: optional_text(self.worker_linux_cgroup_parent),
            worker_linux_cgroup_memory_max_bytes: self.worker_linux_cgroup_memory_max_bytes,
            worker_linux_cgroup_cpu_quota_micros: self.worker_linux_cgroup_cpu_quota_micros,
            worker_linux_cgroup_cpu_period_micros: self.worker_linux_cgroup_cpu_period_micros,
        }
    }
}

/// The development defaults: no token, loopback origins admitted, automatic restarts.
pub open spec fn spec_development(bind_addr: Seq<char>) -> BridgeConfigView {
    BridgeConfigView {
        bind_addr,
        token: None,
        allowed_origins: Seq::empty(),
        allow_loopback_origins: true,
        worker_auto_restart: true,
        worker_load_timeout_ms: DEFAULT_WORKER_LOAD_TIMEOUT_MS,
        max_worker_instances: DEFAULT_MAX_WORKER_INSTANCES,
        worker_quarantine_failure_threshold: DEFAULT_WORKER_QUARANTINE_FAILURE_THRESHOLD,
        max_control_message_bytes: DEFAULT_MAX_CONTROL_MESSAGE_BYTES,
        worker_memory_limit_bytes: None,
        worker_cpu_time_limit_seconds: None,
        worker_linux_cgroup_parent: None,
        worker_linux_cgroup_memory_max_bytes: None,
        worker_linux_cgroup_cpu_quota_micros: None,
        worker_linux_cgroup_cpu_period_micros: DEFAULT_LINUX_CGROUP_CPU_PERIOD_MICROS,
    }
}

/// The origins of a list, trimmed, without the empty ones.
pub open spec fn spec_origin_list(origins: Seq<Seq<char>>) -> Seq<Seq<char>>
    decreases origins.len(),
{
    if origins.len() == 0 {
        Seq::empty()
    } else {
        let trimmed = spec_trim(origins.last());
        spec_origin_list(origins.drop_last()) + if trimmed.len() > 0 {
            seq![trimmed]
        } else {
            Seq::<Seq<char>>::empty()
        }
    }
}

/// A value that must be positive: at least 1.
pub open spec fn at_least_one(value: int) -> int {
    if value < 1 {
        1
    } else {
        value
    }
}

/// A token is required exactly when one is configured; without one every request passes,
/// with one only a request that carries it.
pub open spec fn spec_token_is_valid(config: BridgeConfigView, provided: Option<Seq<char>>) -> bool {
    match config.token {
        Some(expected) => provided == Some(expected),
        None => true,
    }
}

/// A request without an origin passes; one with an origin passes when the origin is listed,
/// or is a loopback origin while those are admitted.
pub open spec fn spec_origin_is_allowed(config: BridgeConfigView, origin: Option<Seq<char>>) -> bool {
    match origin {
        None => true,
        Some(origin) => config.allowed_origins.contains(origin) || (config.allow_loopback_origins
            && spec_is_loopback_origin(origin)),
    }
}

impl BridgeConfig {
    pub fn development(bind_addr: &str) -> (config: Self)
        ensures
            config@ == spec_development(bind_addr@),
    {
        let config = BridgeConfig {
            bind_addr: String::from_str(bind_addr),
            token: None,
            allowed_origins: Vec::new(),
            allow_loopback_origins: true,
            worker_auto_restart: true,
            worker_load_timeout_ms: DEFAULT_WORKER_LOAD_TIMEOUT_MS,
            max_worker_instances: DEFAULT_MAX_WORKER_INSTANCES,
            worker_quarantine_failure_threshold: DEFAULT_WORKER_QUARANTINE_FAILURE_THRESHOLD,
            max_control_message_bytes: DEFAULT_MAX_CONTROL_MESSAGE_BYTES,
            worker_memory_limit_bytes: None,
            worker_cpu_time_limit_seconds: None,
            worker_linux_cgroup_parent: None,
            worker_linux_cgroup_memory_max_bytes: None,
            worker_linux_cgroup_cpu_quota_micros: None,
            worker_linux_cgroup_cpu_period_micros: DEFAULT_LINUX_CGROUP_CPU_PERIOD_MICROS,
        };
        assert(config@.allowed_origins =~= Seq::<Seq<char>>::empty());
        config
    }

    /// Sets how long a worker may take to load, in milliseconds (at least 1).
    pub fn with_worker_load_timeout(self, timeout_ms: u64) -> (config: Self)
        ensures
            config@ == (BridgeConfigView { worker_load_timeout_ms: at_least_one(timeout_ms as int) as u64, ..self@ }),
    {
        let mut config = self;
        config.worker_load_timeout_ms = if timeout_ms < 1 {
            1
        } else {
            timeout_ms
        };
        config
    }

    /// How long a worker may take to load, in milliseconds.
    pub fn worker_load_timeout(&self) -> (timeout_ms: u64)
        ensures
            timeout_ms == self@.worker_load_timeout_ms,
    {
        self.worker_load_timeout_ms
    }

    pub fn with_worker_auto_restart(self, enabled: bool) -> (config: Self)
        ensures
            config@ == (BridgeConfigView { worker_auto_restart: enabled, ..self@ }),
    {
        let mut config = self;
        config.worker_auto_restart = enabled;
        config
    }

    /// Requires `token` from clients; an empty token requires none.
    pub fn with_token(self, token: &str) -> (config: Self)
        ensures
            config@ == (BridgeConfigView {
                token: if token@.len() == 0 {
                    None
                } else {
                    Some(token@)
                },
                ..self@
            }),
    {
        let mut config = self;
        config.token = if token.is_empty() {
            None
        } else {
            Some(String::from_str(token))
        };
        config
    }

    pub fn without_token(self) -> (config: Self)
        ensures
            config@ == (BridgeConfigView { token: None, ..self@ }),
    {
        let mut config = self;
        config.token = None;
        config
    }

    /// Admits the given origins, each trimmed; empty ones are left out.
    pub fn with_allowed_origins(self, origins: &[&str]) -> (config: Self)
        ensures
            config@ == (BridgeConfigView {
                allowed_origins: spec_origin_list(origins@.map_values(|origin: &str| origin@)),
                ..self@
            }),
    {
        let mut allowed: Vec<String> = Vec::new();
        let mut index: usize = 0;
        let ghost given = origins@.map_values(|origin: &str| origin@);
        while index < origins.len()
            invariant
                index <= origins@.len(),
                given == origins@.map_values(|origin: &str| origin@),
                allowed@.map_values(|origin: String| origin@) == spec_origin_list(given.take(index as int)),
            decreases origins@.len() - index,
        {
            let trimmed = trim(origins[index]);
            proof {
                assert(given.take(index + 1).drop_last() =~= given.take(index as int));
                assert(given.take(index + 1).last() == origins@[index as int]@);
            }
            if !trimmed.is_empty() {
                allowed.push(String::from_str(trimmed));
            }
            proof {
                assert(allowed@.map_values(|origin: String| origin@) =~= spec_origin_list(given.take(index + 1)));
            }
            index = index + 1;
        }
        proof {
            assert(given.take(index as int) =~= given);
        }
        let mut config = self;
        config.allowed_origins = allowed;
        config
    }

    pub fn with_loopback_origins(self, allowed: bool) -> (config: Self)
        ensures
            config@ == (BridgeConfigView { allow_loopback_origins: allowed, ..self@ }),
    {
        let mut config = self;
        config.allow_loopback_origins = allowed;
        config
    }

    pub fn with_max_worker_instances(self, max_instances: usize) -> (config: Self)
        ensures
            config@ == (BridgeConfigView { max_worker_instances: at_least_one(max_instances as int) as usize, ..self@ }),
    {
        let mut config = self;
        config.max_worker_instances = if max_instances < 1 {
            1
        } else {
            max_instances
        };
        config
    }

    pub fn with_worker_quarantine_failure_threshold(self, failures: u32) -> (config: Self)
        ensures
            config@ == (BridgeConfigView {
                worker_quarantine_failure_threshold: at_least_one(failures as int) as u32,
                ..self@
            }),
    {
        let mut config = self;
        config.worker_quarantine_failure_threshold = if failures < 1 {
            1
        } else {
            failures
        };
        config
    }

    pub fn with_max_control_message_bytes(self, max_bytes: usize) -> (config: Self)
        ensures
            config@ == (BridgeConfigView { max_control_message_bytes: at_least_one(max_bytes as int) as usize, ..self@ }),
    {
        let mut config = self;
        config.max_control_message_bytes = if max_bytes < 1 {
            1
        } else {
            max_bytes
        };
        config
    }

    pub fn with_worker_memory_limit_bytes(self, bytes: u64) -> (config: Self)
        ensures
            config@ == (BridgeConfigView { worker_memory_limit_bytes: Some(at_least_one(bytes as int) as u64), ..self@ }),
    {
        let mut config = self;
        config.worker_memory_limit_bytes = Some(
            if bytes < 1 {
                1
            } else {
                bytes
            },
        );
        config
    }

    pub fn without_worker_memory_limit(self) -> (config: Self)
        ensures
            config@ == (BridgeConfigView { worker_memory_limit_bytes: None, ..self@ }),
    {
        let mut config = self;
        config.worker_memory_limit_bytes = None;
        config
    }

    pub fn with_worker_cpu_time_limit_seconds(self, seconds: u64) -> (config: Self)
        ensures
            config@ == (BridgeConfigView {
                worker_cpu_time_limit_seconds: Some(at_least_one(seconds as int) as u64),
                ..self@
            }),
    {
        let mut config = self;
        config.worker_cpu_time_limit_seconds = Some(
            if seconds < 1 {
                1
            } else {
                seconds
            },
        );
        config
    }

    pub fn without_worker_cpu_time_limit(self) -> (config: Self)
        ensures
            config@ == (BridgeConfigView { worker_cpu_time_limit_seconds: None, ..self@ }),
    {
        let mut config = self;
        config.worker_cpu_time_limit_seconds = None;
        config
    }

    pub fn with_worker_linux_cgroup_parent(self, parent: &str) -> (config: Self)
        ensures
            config@ == (BridgeConfigView { worker_linux_cgroup_parent: Some(parent@), ..self@ }),
    {
        let mut config = self;
        config.worker_linux_cgroup_parent = Some(String::from_str(parent));
        config
    }

    /// Drops every cgroup setting, back to the default CPU period.
    pub fn without_worker_linux_cgroup(self) -> (config: Self)
        ensures
            config@ == (BridgeConfigView {
                worker_linux_cgroup_parent: None,
                worker_linux_cgroup_memory_max_bytes: None,
                worker_linux_cgroup_cpu_quota_micros: None,
                worker_linux_cgroup_cpu_period_micros: DEFAULT_LINUX_CGROUP_CPU_PERIOD_MICROS,
                ..self@
            }),
    {
        let mut config = self;
        config.worker_linux_cgroup_parent = None;
        config.worker_linux_cgroup_memory_max_bytes = None;
        config.worker_linux_cgroup_cpu_quota_micros = None;
        config.worker_linux_cgroup_cpu_period_micros = DEFAULT_LINUX_CGROUP_CPU_PERIOD_MICROS;
        config
    }

    pub fn with_worker_linux_cgroup_memory_max_bytes(self, bytes: u64) -> (config: Self)
        ensures
            config@ == (BridgeConfigView {
                worker_linux_cgroup_memory_max_bytes: Some(at_least_one(bytes as int) as u64),
                ..self@
            }),
    {
        let mut config = self;
        config.worker_linux_cgroup_memory_max_bytes = Some(
            if bytes < 1 {
                1
            } else {
                bytes
            },
        );
        config
    }

    pub fn without_worker_linux_cgroup_memory_max(self) -> (config: Self)
        ensures
            config@ == (BridgeConfigView { worker_linux_cgroup_memory_max_bytes: None, ..self@ }),
    {
        let mut config = self;
        config.worker_linux_cgroup_memory_max_bytes = None;
        config
    }

    pub fn with_worker_linux_cgroup_cpu_max_micros(self, quota_micros: u64, period_micros: u64) -> (config: Self)
        ensures
            config@ == (BridgeConfigView {
                worker_linux_cgroup_cpu_quota_micros: Some(at_least_one(quota_micros as int) as u64),
                worker_linux_cgroup_cpu_period_micros: at_least_one(period_micros as int) as u64,
                ..self@
            }),
    {
        let mut config = self;
        config.worker_linux_cgroup_cpu_quota_micros = Some(
            if quota_micros < 1 {
                1
            } else {
                quota_micros
            },
        );
        config.worker_linux_cgroup_cpu_period_micros = if period_micros < 1 {
            1
        } else {
            period_micros
        };
        config
    }

    pub fn without_worker_linux_cgroup_cpu_max(self) -> (config: Self)
        ensures
            config@ == (BridgeConfigView {
                worker_linux_cgroup_cpu_quota_micros: None,
                worker_linux_cgroup_cpu_period_micros: DEFAULT_LINUX_CGROUP_CPU_PERIOD_MICROS,
                ..self@
            }),
    {
        let mut config = self;
        config.worker_linux_cgroup_cpu_quota_micros = None;
        config.worker_linux_cgroup_cpu_period_micros = DEFAULT_LINUX_CGROUP_CPU_PERIOD_MICROS;
        config
    }

    /// The address to listen on, as text.
    pub fn bind_addr(&self) -> (bind_addr: &str)
        ensures
            bind_addr@ == self@.bind_addr,
    {
        self.bind_addr.as_str()
    }

    pub fn token_required(&self) -> (required: bool)
        ensures
            required == self@.token is Some,
    {
        self.token.is_some()
    }

    pub fn token_is_valid(&self, provided: Option<&str>) -> (valid: bool)
        ensures
            valid == spec_token_is_valid(self@, match provided {
                Some(text) => Some(text@),
                None => None,
            }),
    {
        match &self.token {
            Some(expected) => match provided {
                Some(text) => String::from_str(text) == *expected,
                None => false,
            },
            None => true,
        }
    }

    pub fn origin_is_allowed(&self, origin: Option<&str>) -> (allowed: bool)
        ensures
            allowed == spec_origin_is_allowed(self@, match origin {
                Some(text) => Some(text@),
                None => None,
            }),
    {
        let given = origin;
        let origin = match given {
            Some(origin) => origin,
            None => {
                return true;
            },
        };
        let wanted = String::from_str(origin);
        let ghost listed = self@.allowed_origins;
        let mut found = false;
        let mut index: usize = 0;
        while index < self.allowed_origins.len()
            invariant
                index <= self.allowed_origins@.len(),
                listed == self.allowed_origins@.map_values(|origin: String| origin@),
                wanted@ == origin@,
                found <==> exists|k: int| 0 <= k < index && listed[k] == origin@,
            decreases self.allowed_origins@.len() - index,
        {
            let same = self.allowed_origins[index] == wanted;
            proof {
                assert(listed[index as int] == self.allowed_origins@[index as int]@);
                if same {
                    assert(listed[index as int] == origin@);
                } else {
                    assert(listed[index as int] != origin@);
                    assert((exists|k: int| 0 <= k < index + 1 && listed[k] == origin@) ==> (exists|k: int|
                        0 <= k < index && listed[k] == origin@));
                }
            }
            if same {
                found = true;
            }
            index = index + 1;
        }
        proof {
            assert(found <==> listed.contains(origin@));
        }
        if found {
            return true;
        }
        self.allow_loopback_origins && is_loopback_origin(origin)
    }

    pub fn allowed_origins(&self) -> (origins: &[String])
        ensures
            origins@.map_values(|origin: String| origin@) == self@.allowed_origins,
    {
        self.allowed_origins.as_slice()
    }

    pub fn worker_auto_restart_enabled(&self) -> (enabled: bool)
        ensures
            enabled == self@.worker_auto_restart,
    {
        self.worker_auto_restart
    }

    pub fn max_worker_instances(&self) -> (max_instances: usize)
        ensures
            max_instances == self@.max_worker_instances,
    {
        self.max_worker_instances
    }

    pub fn worker_quarantine_failure_threshold(&self) -> (failures: u32)
        ensures
            failures == self@.worker_quarantine_failure_threshold,
    {
        self.worker_quarantine_failure_threshold
    }

    pub fn max_control_message_bytes(&self) -> (max_bytes: usize)
        ensures
            max_bytes == self@.max_control_message_bytes,
    {
        self.max_control_message_bytes
    }

    pub fn worker_memory_limit_bytes(&self) -> (bytes: Option<u64>)
        ensures
            bytes == self@.worker_memory_limit_bytes,
    {
        self.worker_memory_limit_bytes
    }

    pub fn worker_cpu_time_limit_seconds(&self) -> (seconds: Option<u64>)
        ensures
            seconds == self@.worker_cpu_time_limit_seconds,
    {
        self.worker_cpu_time_limit_seconds
    }

    pub fn worker_linux_cgroup_parent(&self) -> (parent: Option<&str>)
        ensures
            match parent {
                Some(text) => self@.worker_linux_cgroup_parent == Some(text@),
                None => self@.worker_linux_cgroup_parent is None,
            },
    {
        match &self.worker_linux_cgroup_parent {
            Some(parent) => Some(parent.as_str()),
            None => None,
        }
    }

    pub fn worker_linux_cgroup_memory_max_bytes(&self) -> (bytes: Option<u64>)
        ensures
            bytes == self@.worker_linux_cgroup_memory_max_bytes,
    {
        self.worker_linux_cgroup_memory_max_bytes
    }

    /// The CPU quota and period, when a quota is set.
    pub fn worker_linux_cgroup_cpu_max_micros(&self) -> (cpu_max: Option<(u64, u64)>)
        ensures
            cpu_max == match self@.worker_linux_cgroup_cpu_quota_micros {
                Some(quota) => Some((quota, self@.worker_linux_cgroup_cpu_period_micros)),
                None => None,
            },
    {
        match self.worker_linux_cgroup_cpu_quota_micros {
            Some(quota) => Some((quota, self.worker_linux_cgroup_cpu_period_micros)),
            None => None,
        }
    }
}

/// The bridge's environment variables, each absent when unset (or not Unicode).
#[derive(Debug, Clone, Default, PartialEq, Eq)]
pub struct BridgeEnvironment {
    /// `WVST_BIND_ADDR`
    pub bind_addr: Option<String>,
    /// `WVST_TOKEN`
    pub token: Option<String>,
    /// `WVST_ALLOWED_ORIGINS`
    pub allowed_origins: Option<String>,
    /// `WVST_ALLOW_LOOPBACK_ORIGINS`
    pub allow_loopback_origins: Option<String>,
    /// `WVST_WORKER_AUTO_RESTART`
    pub worker_auto_restart: Option<String>,
    /// `WVST_WORKER_LOAD_TIMEOUT_MS`
    pub worker_load_timeout_ms: Option<String>,
    /// `WVST_MAX_WORKER_INSTANCES`
    pub max_worker_instances: Option<String>,
    /// `WVST_WORKER_QUARANTINE_FAILURES`
    pub worker_quarantine_failures: Option<String>,
    /// `WVST_MAX_CONTROL_MESSAGE_BYTES`
    pub max_control_message_bytes: Option<String>,
    /// `WVST_WORKER_MEMORY_LIMIT_BYTES`
    pub worker_memory_limit_bytes: Option<String>,
    /// `WVST_WORKER_CPU_TIME_LIMIT_SECONDS`
    pub worker_cpu_time_limit_seconds: Option<String>,
    /// `WVST_WORKER_LINUX_CGROUP_PARENT`
    pub worker_linux_cgroup_parent: Option<String>,
    /// `WVST_WORKER_LINUX_CGROUP_MEMORY_MAX_BYTES`
    pub worker_linux_cgroup_memory_max_bytes: Option<String>,
    /// `WVST_WORKER_LINUX_CGROUP_CPU_QUOTA_MICROS`
    pub worker_linux_cgroup_cpu_quota_micros: Option<String>,
    /// `WVST_WORKER_LINUX_CGROUP_CPU_PERIOD_MICROS`
    pub worker_linux_cgroup_cpu_period_micros: Option<String>,
}

/// Why the environment gives no configuration.
#[derive(Debug, Clone, PartialEq, Eq)]
pub enum BridgeConfigError {
    InvalidBindAddress(String),
    MissingToken,
}

/// A switch that is on unless set to `0` or `false` (in any ASCII case).
pub open spec fn env_flag(value: Option<String>) -> bool {
    match value {
        Some(text) => text@ != "0"@ && !spec_eq_ignore_ascii_case(text@, "false"@),
        None => true,
    }
}

/// A positive number no larger than `max`, when the variable holds one.
pub open spec fn env_positive(value: Option<String>, max: int) -> Option<int> {
    match value {
        Some(text) => match spec_parse_unsigned(text@, max) {
            Some(number) => if number > 0 {
                Some(number)
            } else {
                None
            },
            None => None,
        },
        None => None,
    }
}

/// The comma-separated origins of a variable, trimmed, without empty ones.
pub open spec fn env_origins(value: Option<String>) -> Seq<Seq<char>> {
    spec_origin_list(
        spec_split(
            match value {
                Some(text) => text@,
                None => Seq::empty(),
            },
            ',',
        ),
    )
}

/// A text variable that counts only when not empty.
pub open spec fn env_text(value: Option<String>) -> Option<Seq<char>> {
    match value {
        Some(text) => if text@.len() > 0 {
            Some(text@)
        } else {
            None
        },
        None => None,
    }
}

pub open spec fn positive_or(value: Option<int>, default: int) -> int {
    match value {
        Some(number) => number,
        None => default,
    }
}

pub open spec fn optional_u64(value: Option<int>) -> Option<u64> {
    match value {
        Some(number) => Some(number as u64),
        None => None,
    }
}

pub open spec fn spec_bind_address(env: BridgeEnvironment) -> Seq<char> {
    match env.bind_addr {
        Some(text) => text@,
        None => DEFAULT_BIND_ADDR@,
    }
}

/// The configuration the environment describes: every setting falls back to its default
/// when absent, unparsable or zero.
pub open spec fn spec_config_from_environment(env: BridgeEnvironment) -> BridgeConfigView {
            BridgeConfigView {
                bind_addr: spec_bind_address(env),
                token: env_text(env.token),
                allowed_origins: env_origins(env.allowed_origins),
                allow_loopback_origins: env_flag(env.allow_loopback_origins),
                worker_auto_restart: env_flag(env.worker_auto_restart),
                worker_load_timeout_ms: positive_or(
                    env_positive(env.worker_load_timeout_ms, u64::MAX as int),
                    DEFAULT_WORKER_LOAD_TIMEOUT_MS as int,
                ) as u64,
                max_worker_instances: positive_or(
                    env_positive(env.max_worker_instances, usize::MAX as int),
                    DEFAULT_MAX_WORKER_INSTANCES as int,
                ) as usize,
                worker_quarantine_failure_threshold: positive_or(
                    env_positive(env.worker_quarantine_failures, u32::MAX as int),
                    DEFAULT_WORKER_QUARANTINE_FAILURE_THRESHOLD as int,
                ) as u32,
                max_control_message_bytes: positive_or(
                    env_positive(env.max_control_message_bytes, usize::MAX as int),
                    DEFAULT_MAX_CONTROL_MESSAGE_BYTES as int,
                ) as usize,
                worker_memory_limit_bytes: optional_u64(env_positive(env.worker_memory_limit_bytes, u64::MAX as int)),
                worker_cpu_time_limit_seconds: optional_u64(
                    env_positive(env.worker_cpu_time_limit_seconds, u64::MAX as int),
                ),
                worker_linux_cgroup_parent: env_text(env.worker_linux_cgroup_parent),
                worker_linux_cgroup_memory_max_bytes: optional_u64(
                    env_positive(env.worker_linux_cgroup_memory_max_bytes, u64::MAX as int),
                ),
                worker_linux_cgroup_cpu_quota_micros: optional_u64(
                    env_positive(env.worker_linux_cgroup_cpu_quota_micros, u64::MAX as int),
                ),
                worker_linux_cgroup_cpu_period_micros: positive_or(
                    env_positive(env.worker_linux_cgroup_cpu_period_micros, u64::MAX as int),
                    DEFAULT_LINUX_CGROUP_CPU_PERIOD_MICROS as int,
                ) as u64,
            }
}

fn flag_setting(value: &Option<String>) -> (enabled: bool)
    ensures
        enabled == env_flag(*value),
{
    match value {
        Some(text) => {
            let zero = String::from_str("0");
            !(*text == zero) && !eq_ignore_ascii_case(text.as_str(), "false")
        },
        None => true,
    }
}

fn positive_setting(value: &Option<String>, max: u64) -> (number: Option<u64>)
    ensures
        match env_positive(*value, max as int) {
            Some(expected) => number == Some(expected as u64),
            None => number is None,
        },
{
    match value {
        Some(text) => match parse_unsigned(text.as_str(), max) {
            Some(number) => if number > 0 {
                Some(number)
            } else {
                None
            },
            None => None,
        },
        None => None,
    }
}

fn text_setting(value: &Option<String>) -> (text: Option<String>)
    ensures
        optional_text(text) == env_text(*value),
{
    match value {
        Some(text) => if text.as_str().is_empty() {
            None
        } else {
            Some(text.clone())
        },
        None => None,
    }
}

fn origin_setting(value: &Option<String>) -> (origins: Vec<String>)
    ensures
        origins@.map_values(|origin: String| origin@) == env_origins(*value),
{
    let pieces = match value {
        Some(text) => split_commas(text.as_str()),
        None => split_commas(""),
    };
    proof {
        reveal_strlit("");
    }
    let ghost given = pieces@.map_values(|piece: String| piece@);
    let mut origins: Vec<String> = Vec::new();
    let mut index: usize = 0;
    while index < pieces.len()
        invariant
            index <= pieces@.len(),
            given == pieces@.map_values(|piece: String| piece@),
            origins@.map_values(|origin: String| origin@) == spec_origin_list(given.take(index as int)),
        decreases pieces@.len() - index,
    {
        let trimmed = trim(pieces[index].as_str());
        proof {
            assert(given.take(index + 1).drop_last() =~= given.take(index as int));
            assert(given.take(index + 1).last() == pieces@[index as int]@);
        }
        if !trimmed.is_empty() {
            origins.push(String::from_str(trimmed));
        }
        proof {
            assert(origins@.map_values(|origin: String| origin@) =~= spec_origin_list(given.take(index + 1)));
        }
        index = index + 1;
    }
    proof {
        assert(given.take(index as int) =~= given);
    }
    origins
}

/// The address the environment asks to listen on: `WVST_BIND_ADDR`, or the default.
pub fn bind_address(env: &BridgeEnvironment) -> (bind_addr: String)
    ensures
        bind_addr@ == spec_bind_address(*env),
{
    match &env.bind_addr {
        Some(text) => text.clone(),
        None => String::from_str(DEFAULT_BIND_ADDR),
    }
}

impl BridgeConfig {
    /// The configuration the environment describes; `bind_addr_valid` says whether the
    /// address `bind_address` gives parses as a socket address.
    pub fn from_environment(env: BridgeEnvironment, require_token: bool, bind_addr_valid: bool) -> (result: Result<
        BridgeConfig,
        BridgeConfigError,
    >)
        ensures
            !bind_addr_valid ==> (result matches Err(BridgeConfigError::InvalidBindAddress(address))
                && address@ == DEFAULT_BIND_ADDR@),
            bind_addr_valid && require_token && env_text(env.token) is None ==> result == Err::<
                BridgeConfig,
                BridgeConfigError,
            >(BridgeConfigError::MissingToken),
            bind_addr_valid && !(require_token && env_text(env.token) is None) ==> (result matches Ok(config)
                && config@ == spec_config_from_environment(env)),
    {
        if !bind_addr_valid {
            return Err(BridgeConfigError::InvalidBindAddress(String::from_str(DEFAULT_BIND_ADDR)));
        }
        let token = text_setting(&env.token);
        if require_token && token.is_none() {
            return Err(BridgeConfigError::MissingToken);
        }
        let bind_addr = bind_address(&env);
        let allowed_origins = origin_setting(&env.allowed_origins);
        let allow_loopback_origins = flag_setting(&env.allow_loopback_origins);
        let worker_auto_restart = flag_setting(&env.worker_auto_restart);
        let worker_load_timeout_ms = match positive_setting(&env.worker_load_timeout_ms, u64::MAX) {
            Some(number) => number,
            None => DEFAULT_WORKER_LOAD_TIMEOUT_MS,
        };
        let max_worker_instances = match positive_setting(&env.max_worker_instances, usize::MAX as u64) {
            Some(number) => number as usize,
            None => DEFAULT_MAX_WORKER_INSTANCES,
        };
        let worker_quarantine_failure_threshold = match positive_setting(
            &env.worker_quarantine_failures,
            u32::MAX as u64,
        ) {
            Some(number) => number as u32,
            None => DEFAULT_WORKER_QUARANTINE_FAILURE_THRESHOLD,
        };
        let max_control_message_bytes = match positive_setting(&env.max_control_message_bytes, usize::MAX as u64) {
            Some(number) => number as usize,
            None => DEFAULT_MAX_CONTROL_MESSAGE_BYTES,
        };
        let worker_memory_limit_bytes = positive_setting(&env.worker_memory_limit_bytes, u64::MAX);
        let worker_cpu_time_limit_seconds = positive_setting(&env.worker_cpu_time_limit_seconds, u64::MAX);
        let worker_linux_cgroup_parent = text_setting(&env.worker_linux_cgroup_parent);
        let worker_linux_cgroup_memory_max_bytes = positive_setting(
            &env.worker_linux_cgroup_memory_max_bytes,
            u64::MAX,
        );
        let worker_linux_cgroup_cpu_quota_micros = positive_setting(
            &env.worker_linux_cgroup_cpu_quota_micros,
            u64::MAX,
        );
        let worker_linux_cgroup_cpu_period_micros = match positive_setting(
            &env.worker_linux_cgroup_cpu_period_micros,
            u64::MAX,
        ) {
            Some(number) => number,
            None => DEFAULT_LINUX_CGROUP_CPU_PERIOD_MICROS,
        };
        Ok(
            BridgeConfig {
                bind_addr,
                token,
                allowed_origins,
                allow_loopback_origins,
                worker_auto_restart,
                worker_load_timeout_ms,
                max_worker_instances,
                worker_quarantine_failure_threshold,
                max_control_message_bytes,
                worker_memory_limit_bytes,
                worker_cpu_time_limit_seconds,
                worker_linux_cgroup_parent,
                worker_linux_cgroup_memory_max_bytes,
                worker_linux_cgroup_cpu_quota_micros,
                worker_linux_cgroup_cpu_period_micros,
            },
        )
    }
}

} // verus!
