//! Configuration of the exporter and the channel it calls for.
use vstd::prelude::*;
use std::path::PathBuf;
use std::time::Duration;
use vstd::string::StringExecFns;
use crate::text::starts_with;

verus! {

/// Production Circular Fast gRPC endpoint (fast-rust, gRPC on :8081; note
/// :8080 is the HTTP JSON-RPC and :50051 is Jito shredstream). Operators only
/// need to provide an API key; the URL defaults here so the exporter is plug
/// & play.
pub const DEFAULT_URL: &'static str = "http://cashback.circular.fi";

pub const DEFAULT_QUEUE_CAPACITY: usize = 8_192;

pub const DEFAULT_MAX_IN_FLIGHT: usize = 1_024;

pub const DEFAULT_CONNECT_TIMEOUT_MS: u64 = 5_000;

pub const DEFAULT_REQUEST_TIMEOUT_MS: u64 = 2_000;

/// A file system path.
#[verifier::external_type_specification]
#[verifier::external_body]
pub struct ExPathBuf(PathBuf);

/// `PathBuf::clone`: a duplicate of the path.
pub assume_specification[ <PathBuf as Clone>::clone ](path: &PathBuf) -> (duplicate: PathBuf)
    ensures
        duplicate == *path,
;

/// Configuration of the Circular Fast exporter. Built from the
/// `--circular-fast-*` CLI flags; the exporter is entirely disabled unless an
/// API key is provided (via file or the `CIRCULAR_FAST_API_KEY` environment
/// variable).
#[derive(Debug)]
pub struct CircularExportConfig {
    /// Fast gRPC endpoint, e.g. `http://cashback.circular.fi`.
    pub url: String,
    /// API key sent as the `x-api-key` gRPC metadata on every request. Same
    /// key as the Fast HTTP API.
    pub api_key: String,
    /// Capacity, in packet batches, of the queue between sigverify and the
    /// exporter. When full, new batches are dropped.
    pub queue_capacity: usize,
    /// Maximum number of concurrent in-flight `SendTransaction` calls. When
    /// reached, further transactions are dropped rather than queued: this is
    /// the backpressure valve that keeps a slow/dead Fast endpoint from ever
    /// stalling the validator.
    pub max_in_flight: usize,
    /// Timeout of a single gRPC connection attempt.
    pub connect_timeout: Duration,
    /// Timeout of a single `SendTransaction` call. Bounds how long an
    /// in-flight slot can be held.
    pub request_timeout: Duration,
    /// Optional memo attached to every submission (tracing/context).
    pub memo: Option<String>,
    /// Optional cashback destination pubkey.
    pub cashback_address: Option<String>,
    /// Custom root CA certificate (PEM) for TLS endpoints.
    pub tls_ca_path: Option<PathBuf>,
    /// Export TPU vote transactions as well. Off by default: votes are
    /// irrelevant to the ARB stream.
    pub include_votes: bool,
}

/// The text of an optional string.
pub open spec fn text_of(text: Option<String>) -> Option<Seq<char>> {
    match text {
        Some(text) => Some(text@),
        None => None,
    }
}

impl Clone for CircularExportConfig {
    fn clone(&self) -> (copy: Self)
        ensures
            copy.url@ == self.url@,
            copy.api_key@ == self.api_key@,
            copy.queue_capacity == self.queue_capacity,
            copy.max_in_flight == self.max_in_flight,
            copy.connect_timeout == self.connect_timeout,
            copy.request_timeout == self.request_timeout,
            text_of(copy.memo) == text_of(self.memo),
            text_of(copy.cashback_address) == text_of(self.cashback_address),
            copy.tls_ca_path == self.tls_ca_path,
            copy.include_votes == self.include_votes,
    {
        CircularExportConfig {
            url: self.url.clone(),
            api_key: self.api_key.clone(),
            queue_capacity: self.queue_capacity,
            max_in_flight: self.max_in_flight,
            connect_timeout: self.connect_timeout,
            request_timeout: self.request_timeout,
            memo: self.memo.clone(),
            cashback_address: self.cashback_address.clone(),
            tls_ca_path: self.tls_ca_path.clone(),
            include_votes: self.include_votes,
        }
    }
}

impl Default for CircularExportConfig {
    fn default() -> (config: Self)
        ensures
            config.url@ == DEFAULT_URL@,
            config.api_key@ == Seq::<char>::empty(),
            config.queue_capacity == DEFAULT_QUEUE_CAPACITY,
            config.max_in_flight == DEFAULT_MAX_IN_FLIGHT,
            crate::clock::duration_nanos(config.connect_timeout) == DEFAULT_CONNECT_TIMEOUT_MS
                * 1_000_000,
            crate::clock::duration_nanos(config.request_timeout) == DEFAULT_REQUEST_TIMEOUT_MS
                * 1_000_000,
            config.memo is None,
            config.cashback_address is None,
            config.tls_ca_path is None,
            !config.include_votes,
    {
        CircularExportConfig {
            url: DEFAULT_URL.to_string(),
            api_key: String::new(),
            queue_capacity: DEFAULT_QUEUE_CAPACITY,
            max_in_flight: DEFAULT_MAX_IN_FLIGHT,
            connect_timeout: Duration::from_millis(DEFAULT_CONNECT_TIMEOUT_MS),
            request_timeout: Duration::from_millis(DEFAULT_REQUEST_TIMEOUT_MS),
            memo: None,
            cashback_address: None,
            tls_ca_path: None,
            include_votes: false,
        }
    }
}

/// The error of a text that names no endpoint.
#[verifier::external_type_specification]
#[verifier::external_body]
pub struct ExTransportError(tonic::transport::Error);

/// A text names an endpoint that a channel can be made to.
pub uninterp spec fn names_endpoint(url: Seq<char>) -> bool;

/// `Endpoint::from_shared`: succeeds exactly on the texts that name an
/// endpoint.
#[verifier::external_body]
pub(crate) fn check_endpoint(url: &str) -> (checked: Result<(), tonic::transport::Error>)
    ensures
        checked is Ok <==> names_endpoint(url@),
{
    match tonic::transport::Endpoint::from_shared(url.to_string()) {
        Ok(_) => Ok(()),
        Err(error) => Err(error),
    }
}

/// How the channel to the Fast endpoint is to be set up. It is connected
/// lazily: never blocking, and reconnecting on its own.
pub struct ChannelPlan {
    /// The endpoint to connect to.
    pub url: String,
    /// Timeout of a single connection attempt.
    pub connect_timeout: Duration,
    /// Whether small writes are sent at once.
    pub tcp_nodelay: bool,
    /// The user agent the client goes by.
    pub user_agent: String,
    /// Whether the connection is encrypted, with the native root certificates.
    pub tls: bool,
    /// Whether the configured root certificate is trusted as well.
    pub custom_ca: bool,
    /// Whether the operator is told that TLS is in use.
    pub announce_tls: bool,
}

impl CircularExportConfig {
    /// The endpoint is named by a TLS URL.
    pub open spec fn has_tls_url(self) -> bool {
        crate::text::begins_with(self.url@, "https://"@)
    }

    /// `plan` is how the channel is set up for a client of the given version:
    /// TLS is used for an `https://` endpoint, and for any endpoint once a root
    /// certificate is configured.
    pub open spec fn is_planned_as(self, plan: ChannelPlan, version: Seq<char>) -> bool {
        &&& plan.url@ == self.url@
        &&& plan.connect_timeout == self.connect_timeout
        &&& plan.tcp_nodelay
        &&& plan.user_agent@ == "circular-jito/"@ + version
        &&& plan.tls == (self.has_tls_url() || self.tls_ca_path is Some)
        &&& plan.custom_ca == (self.tls_ca_path is Some)
        &&& plan.announce_tls == self.has_tls_url()
    }

    /// Decides how the channel is set up, for a client of the given version, if
    /// the configured URL names an endpoint.
    pub fn channel_plan(&self, version: &str) -> (plan: Result<
        ChannelPlan,
        tonic::transport::Error,
    >)
        ensures
            plan is Ok <==> names_endpoint(self.url@),
            plan matches Ok(plan) ==> self.is_planned_as(plan, version@),
            plan matches Ok(plan) ==> plan.custom_ca == (self.tls_ca_path is Some),
            plan matches Ok(plan) ==> (self.tls_ca_path is Some ==> plan.tls),
    {
        if let Err(error) = check_endpoint(self.url.as_str()) {
            return Err(error);
        }
        let https = starts_with(self.url.as_str(), "https://");
        let custom_ca = self.tls_ca_path.is_some();
        let mut user_agent = "circular-jito/".to_string();
        user_agent.append(version);
        Ok(
            ChannelPlan {
                url: self.url.clone(),
                connect_timeout: self.connect_timeout,
                tcp_nodelay: true,
                user_agent,
                tls: https || custom_ca,
                custom_ca,
                announce_tls: https,
            },
        )
    }
}

/// An optional text is there exactly if the string is, with its characters.
pub proof fn law_optional_texts_are_kept(text: Option<String>)
    ensures
        text is None ==> text_of(text) is None,
        text matches Some(string) ==> text_of(text) == Some(string@),
{
}

/// The channel goes to the configured endpoint with the configured timeout,
/// writes at once and names its version. A configured root certificate is
/// always trusted and always takes TLS, whatever the URL; none is trusted
/// otherwise, and TLS is then used exactly for a URL that begins with
/// `https://`, which is also when the operator is told.
pub proof fn law_channels_follow_the_configuration(
    config: CircularExportConfig,
    plan: ChannelPlan,
    version: Seq<char>,
)
    requires
        config.is_planned_as(plan, version),
    ensures
        plan.url@ == config.url@,
        plan.connect_timeout == config.connect_timeout,
        plan.tcp_nodelay,
        plan.user_agent@ == "circular-jito/"@ + version,
        config.tls_ca_path is Some ==> plan.tls && plan.custom_ca,
        config.tls_ca_path is None ==> !plan.custom_ca,
        config.tls_ca_path is None ==> (plan.tls <==> exists|rest: Seq<char>|
            config.url@ == #[trigger] ("https://"@ + rest)),
        plan.announce_tls <==> exists|rest: Seq<char>|
            config.url@ == #[trigger] ("https://"@ + rest),
{
    crate::text::law_prefixes_are_what_is_before_the_rest(config.url@, "https://"@);
}

} // verus!
