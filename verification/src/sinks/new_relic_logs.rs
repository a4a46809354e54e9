//! Configuration of the `new_relic_logs` sink: validates the authentication
//! keys, picks the regional ingest endpoint, and derives the HTTP sink
//! configuration with batching capped at the payload limit the API accepts.

use vstd::prelude::*;

use crate::config::AcknowledgementsConfig;

verus! {

/// The New Relic Logs API accepts payloads up to one megabyte.
pub const MAX_PAYLOAD_SIZE: usize = 1_000_000;

/// Default number of dispatch attempts admitted per rate-limit window when
/// the user sets none: effectively unlimited.
pub const RATE_LIMIT_NUM_DEFAULT: u64 = 9_223_372_036_854_775_807;

/// New Relic region.
#[derive(Clone, Copy, Debug, PartialEq, Eq, Structural)]
pub enum NewRelicLogsRegion {
    /// US region.
    Us,
    /// EU region.
    Eu,
}

impl Default for NewRelicLogsRegion {
    fn default() -> (r: NewRelicLogsRegion)
        ensures
            r == NewRelicLogsRegion::Us,
    {
        NewRelicLogsRegion::Us
    }
}

/// Batch defaults of this sink: no count bound, one megabyte, one second.
#[derive(Clone, Copy, Debug, Default)]
pub struct NewRelicLogsDefaultBatchSettings;

impl NewRelicLogsDefaultBatchSettings {
    pub fn max_events(&self) -> (r: Option<usize>)
        ensures
            r is None,
    {
        None
    }

    pub fn max_bytes(&self) -> (r: Option<usize>)
        ensures
            r == Some(1_000_000usize),
    {
        Some(1_000_000)
    }

    pub fn timeout_secs(&self) -> (r: u64)
        ensures
            r == 1,
    {
        1
    }
}

/// User-facing batching thresholds of a sink; `None` takes the sink's
/// default.
#[derive(Clone, Copy, Debug, PartialEq, Eq)]
pub struct BatchConfig {
    pub max_bytes: Option<usize>,
    pub max_events: Option<usize>,
    pub timeout_secs: Option<u64>,
}

impl Default for BatchConfig {
    fn default() -> (r: BatchConfig)
        ensures
            r.max_bytes is None,
            r.max_events is None,
            r.timeout_secs is None,
    {
        BatchConfig { max_bytes: None, max_events: None, timeout_secs: None }
    }
}

/// The concurrency limit of a destination's request layer.
#[derive(Clone, Copy, Debug, PartialEq, Eq, Structural)]
pub enum Concurrency {
    /// No explicit limit configured.
    Unset,
    /// At most this many requests in flight.
    Fixed(usize),
    /// The adaptive (AIMD) controller decides.
    Adaptive,
}

/// Request-layer tuning of a destination: concurrency, rate limiting and
/// retries.
#[derive(Clone, Copy, Debug, PartialEq, Eq)]
pub struct TowerRequestConfig {
    pub concurrency: Concurrency,
    pub timeout_secs: Option<u64>,
    pub rate_limit_duration_secs: Option<u64>,
    pub rate_limit_num: Option<u64>,
    pub retry_attempts: Option<usize>,
    pub retry_max_duration_secs: Option<u64>,
    pub retry_initial_backoff_secs: Option<u64>,
}

impl Default for TowerRequestConfig {
    fn default() -> (r: TowerRequestConfig)
        ensures
            r.concurrency == Concurrency::Unset,
            r.timeout_secs == Some(60u64),
            r.rate_limit_duration_secs == Some(1u64),
            r.rate_limit_num == Some(RATE_LIMIT_NUM_DEFAULT),
            r.retry_attempts is None,
            r.retry_max_duration_secs == Some(3600u64),
            r.retry_initial_backoff_secs == Some(1u64),
    {
        TowerRequestConfig {
            concurrency: Concurrency::Unset,
            timeout_secs: Some(60),
            rate_limit_duration_secs: Some(1),
            rate_limit_num: Some(RATE_LIMIT_NUM_DEFAULT),
            retry_attempts: None,
            retry_max_duration_secs: Some(3600),
            retry_initial_backoff_secs: Some(1),
        }
    }
}

/// Payload compression applied before sending.
#[derive(Clone, Copy, Debug, PartialEq, Eq, Structural)]
pub enum Compression {
    /// Send the payload as is.
    Uncompressed,
    /// Gzip the payload.
    Gzip,
}

impl Default for Compression {
    fn default() -> (r: Compression)
        ensures
            r == Compression::Uncompressed,
    {
        Compression::Uncompressed
    }
}

/// How timestamps are rendered by the encoder.
#[derive(Clone, Copy, Debug, PartialEq, Eq, Structural)]
pub enum TimestampFormat {
    Unix,
    Rfc3339,
}

/// Field-level adjustments applied by the encoder before serialisation.
#[derive(Debug)]
pub struct Transformer {
    pub only_fields: Option<Vec<String>>,
    pub except_fields: Option<Vec<String>>,
    pub timestamp_format: Option<TimestampFormat>,
}

/// Mathematical model of a `Transformer`.
pub struct TransformerV {
    pub only_fields: Option<Seq<Seq<char>>>,
    pub except_fields: Option<Seq<Seq<char>>>,
    pub timestamp_format: Option<TimestampFormat>,
}

/// The views of a sequence of strings, elementwise.
pub open spec fn strings_view(s: Seq<String>) -> Seq<Seq<char>> {
    s.map_values(|x: String| x@)
}

/// The views of an optional list of field paths.
pub open spec fn opt_strings_view(s: Option<Vec<String>>) -> Option<Seq<Seq<char>>> {
    match s {
        Some(v) => Some(strings_view(v@)),
        None => None,
    }
}

impl View for Transformer {
    type V = TransformerV;

    open spec fn view(&self) -> TransformerV {
        TransformerV {
            only_fields: opt_strings_view(self.only_fields),
            except_fields: opt_strings_view(self.except_fields),
            timestamp_format: self.timestamp_format,
        }
    }
}

impl Default for Transformer {
    fn default() -> (r: Transformer)
        ensures
            r@.only_fields is None,
            r@.except_fields is None,
            r@.timestamp_format is None,
    {
        Transformer { only_fields: None, except_fields: None, timestamp_format: None }
    }
}

fn clone_string_vec(v: &Vec<String>) -> (r: Vec<String>)
    ensures
        strings_view(r@) == strings_view(v@),
{
    let mut r: Vec<String> = Vec::new();
    let mut i: usize = 0;
    while i < v.len()
        invariant
            0 <= i <= v@.len(),
            strings_view(r@) == strings_view(v@.take(i as int)),
        decreases v@.len() - i,
    {
        let ghost pre = r@;
        r.push(v[i].clone());
        proof {
            assert(strings_view(pre).len() == i);
            assert(pre.len() == i);
            assert forall|k: int| 0 <= k < i + 1 implies strings_view(r@)[k] == strings_view(
                v@.take(i + 1),
            )[k] by {
                if k < i {
                    assert(strings_view(pre)[k] == strings_view(v@.take(i as int))[k]);
                }
            }
            assert(strings_view(r@) =~= strings_view(v@.take(i + 1)));
        }
        i = i + 1;
    }
    assert(v@.take(v@.len() as int) =~= v@);
    r
}

impl Transformer {
    /// A copy with the same field adjustments.
    pub fn duplicate(&self) -> (r: Transformer)
        ensures
            r@ == self@,
    {
        let only_fields = match &self.only_fields {
            Some(v) => Some(clone_string_vec(v)),
            None => None,
        };
        let except_fields = match &self.except_fields {
            Some(v) => Some(clone_string_vec(v)),
            None => None,
        };
        let r = Transformer { only_fields, except_fields, timestamp_format: self.timestamp_format };
        assert(opt_strings_view(r.only_fields) == opt_strings_view(self.only_fields));
        assert(opt_strings_view(r.except_fields) == opt_strings_view(self.except_fields));
        r
    }
}

/// How the payload is framed on the wire.
#[derive(Clone, Copy, Debug, PartialEq, Eq, Structural)]
pub enum FramingConfig {
    /// Items separated by one delimiter byte.
    CharacterDelimited { delimiter: u8 },
    /// One item per line.
    NewlineDelimited,
}

/// Which serialiser encodes each event.
#[derive(Clone, Copy, Debug, PartialEq, Eq, Structural)]
pub enum SerializerConfig {
    Json,
    Text,
}

/// Framing, serialisation and field adjustments of one sink's encoding.
#[derive(Debug)]
pub struct EncodingConfigWithFraming {
    pub framing: Option<FramingConfig>,
    pub serializer: SerializerConfig,
    pub transformer: Transformer,
}

/// Basic HTTP authentication, where a sink uses it.
#[derive(Debug)]
pub struct HttpAuthConfig {
    pub user: String,
    pub password: String,
}

/// TLS settings, where a sink overrides the defaults.
#[derive(Clone, Copy, Debug, PartialEq, Eq)]
pub struct TlsConfig {
    pub verify_certificate: Option<bool>,
    pub verify_hostname: Option<bool>,
}

/// HTTP method of the generic HTTP sink.
#[derive(Clone, Copy, Debug, PartialEq, Eq, Structural)]
pub enum HttpMethod {
    Get,
    Post,
    Put,
}

#[verifier::external_type_specification]
#[verifier::external_body]
#[verifier::reject_recursive_types(K)]
#[verifier::reject_recursive_types(V)]
#[verifier::reject_recursive_types(S)]
pub struct ExIndexMap<K, V, S>(indexmap::IndexMap<K, V, S>);

/// The entries a header map holds, as (name, value) pairs in insertion
/// order.
pub uninterp spec fn header_entries(
    m: indexmap::IndexMap<String, String, std::collections::hash_map::RandomState>,
) -> Seq<(Seq<char>, Seq<char>)>;

/// Relies on indexmap's `IndexMap::new`: the new map holds no entries.
#[verifier::external_body]
fn header_map_new() -> (r: indexmap::IndexMap<String, String>)
    ensures
        header_entries(r) == Seq::<(Seq<char>, Seq<char>)>::empty(),
{
    indexmap::IndexMap::new()
}

/// Relies on indexmap's `IndexMap::insert`: a key with no equivalent
/// already in the map is inserted last in order.
#[verifier::external_body]
fn header_map_insert(
    m: &mut indexmap::IndexMap<String, String>,
    k: String,
    v: String,
)
    requires
        forall|i: int|
            0 <= i < header_entries(*old(m)).len() ==> (#[trigger] header_entries(*old(m))[i]).0
                != k@,
    ensures
        header_entries(*final(m)) == header_entries(*old(m)).push((k@, v@)),
{
    let _ = m.insert(k, v);
}

/// The request layer's tuning plus the extra headers sent with every
/// request.
#[derive(Debug)]
pub struct RequestConfig {
    pub tower: TowerRequestConfig,
    pub headers: indexmap::IndexMap<String, String>,
}

/// Configuration of the generic HTTP sink that destination-specific sinks
/// derive.
#[derive(Debug)]
pub struct HttpSinkConfig {
    pub uri: String,
    pub method: Option<HttpMethod>,
    pub auth: Option<HttpAuthConfig>,
    pub headers: Option<indexmap::IndexMap<String, String>>,
    pub compression: Compression,
    pub encoding: EncodingConfigWithFraming,
    pub batch: BatchConfig,
    pub request: RequestConfig,
    pub tls: Option<TlsConfig>,
    pub acknowledgements: AcknowledgementsConfig,
}

/// Why this sink's configuration was rejected.
#[derive(Clone, Copy, Debug, PartialEq, Eq)]
pub enum BuildError {
    /// Neither a license key nor an insert key was given.
    MissingAuthParam,
    /// The configured maximum batch size exceeds what the API accepts.
    BatchMaxBytesExceedsLimit { configured: usize, limit: usize },
}

impl BuildError {
    /// The human-readable description of the error.
    pub fn message(&self) -> (r: String)
        ensures
            *self is MissingAuthParam ==> r@
                == "Missing authentication key, must provide either 'license_key' or 'insert_key'"@,
            *self is BatchMaxBytesExceedsLimit ==> r@ == "`batch.max_bytes` exceeds the maximum payload size the API accepts"@,
    {
        match self {
            BuildError::MissingAuthParam => String::from_str(
                "Missing authentication key, must provide either 'license_key' or 'insert_key'",
            ),
            BuildError::BatchMaxBytesExceedsLimit { .. } => String::from_str(
                "`batch.max_bytes` exceeds the maximum payload size the API accepts",
            ),
        }
    }
}

/// Configuration for the `new_relic_logs` sink.
#[derive(Debug)]
pub struct NewRelicLogsConfig {
    /// A valid New Relic license key (if applicable).
    pub license_key: Option<String>,
    /// A valid New Relic insert key (if applicable).
    pub insert_key: Option<String>,
    pub region: Option<NewRelicLogsRegion>,
    pub encoding: Transformer,
    pub compression: Compression,
    pub batch: BatchConfig,
    pub request: TowerRequestConfig,
    pub acknowledgements: AcknowledgementsConfig,
}

impl Default for NewRelicLogsConfig {
    fn default() -> (r: NewRelicLogsConfig)
        ensures
            r.license_key is None,
            r.insert_key is None,
            r.region is None,
            r.encoding@.only_fields is None,
            r.encoding@.except_fields is None,
            r.encoding@.timestamp_format is None,
            r.compression == Compression::Uncompressed,
            r.batch == (BatchConfig { max_bytes: None, max_events: None, timeout_secs: None }),
            r.request == (TowerRequestConfig {
                concurrency: Concurrency::Unset,
                timeout_secs: Some(60u64),
                rate_limit_duration_secs: Some(1u64),
                rate_limit_num: Some(RATE_LIMIT_NUM_DEFAULT),
                retry_attempts: None,
                retry_max_duration_secs: Some(3600u64),
                retry_initial_backoff_secs: Some(1u64),
            }),
            r.spec_acknowledgements().enabled is None,
    {
        NewRelicLogsConfig {
            license_key: None,
            insert_key: None,
            region: None,
            encoding: Transformer::default(),
            compression: Compression::default(),
            batch: BatchConfig::default(),
            request: TowerRequestConfig::default(),
            acknowledgements: AcknowledgementsConfig::default(),
        }
    }
}

impl NewRelicLogsConfig {
    pub open spec fn spec_acknowledgements(&self) -> AcknowledgementsConfig {
        self.acknowledgements
    }

    /// This sink consumes log events.
    pub fn input(&self) -> (r: crate::config::Input)
        ensures
            r.ty == crate::config::DataType::Log,
    {
        crate::config::Input::log()
    }

    /// The identifier this sink type is registered under.
    pub fn sink_type(&self) -> (r: &'static str)
        ensures
            r@ == "new_relic_logs"@,
    {
        "new_relic_logs"
    }

    /// Whether end-to-end acknowledgements are enabled for this sink.
    pub fn acknowledgements(&self) -> (r: &AcknowledgementsConfig)
        ensures
            *r == self.spec_acknowledgements(),
    {
        &self.acknowledgements
    }

    /// Derive the generic HTTP sink configuration: exactly one
    /// authentication header (the license key, or failing that the insert
    /// key), the regional ingest endpoint (US unless EU is chosen), and the
    /// batch thresholds resolved against this sink's defaults with
    /// `max_bytes` capped at the payload limit the API accepts.
    pub fn create_config(&self) -> (r: Result<HttpSinkConfig, BuildError>)
        ensures
            self.license_key is None && self.insert_key is None ==> r == Err::<
                HttpSinkConfig,
                BuildError,
            >(BuildError::MissingAuthParam),
            ({
                let resolved_max_bytes = if self.batch.max_bytes is Some {
                    self.batch.max_bytes.unwrap() as int
                } else {
                    1_000_000int
                };
                &&& (!(self.license_key is None && self.insert_key is None) && resolved_max_bytes
                    > MAX_PAYLOAD_SIZE ==> (r matches Err(BuildError::BatchMaxBytesExceedsLimit {
                    configured,
                    limit,
                }) && configured == resolved_max_bytes && limit == MAX_PAYLOAD_SIZE))
                &&& (!(self.license_key is None && self.insert_key is None) && resolved_max_bytes
                    <= MAX_PAYLOAD_SIZE ==> (r matches Ok(c) && {
                    &&& header_entries(c.request.headers) == (if self.license_key is Some {
                        seq![("X-License-Key"@, self.license_key.unwrap()@)]
                    } else {
                        seq![("X-Insert-Key"@, self.insert_key.unwrap()@)]
                    })
                    &&& c.uri@ == (if self.region == Some(NewRelicLogsRegion::Eu) {
                        "https://log-api.eu.newrelic.com/log/v1"@
                    } else {
                        "https://log-api.newrelic.com/log/v1"@
                    })
                    &&& c.method == Some(HttpMethod::Post)
                    &&& c.auth is None
                    &&& c.headers is None
                    &&& c.tls is None
                    &&& c.compression == self.compression
                    &&& c.encoding.framing == Some(
                        FramingConfig::CharacterDelimited { delimiter: 44u8 },
                    )
                    &&& c.encoding.serializer == SerializerConfig::Json
                    &&& c.encoding.transformer@ == self.encoding@
                    &&& c.batch.max_bytes == Some(resolved_max_bytes as usize)
                    &&& c.batch.max_events == self.batch.max_events
                    &&& c.batch.timeout_secs matches Some(t) && t == (
                    if self.batch.timeout_secs is Some {
                        self.batch.timeout_secs.unwrap() as int
                    } else {
                        1int
                    })
                    &&& c.request.tower == self.request
                    &&& c.acknowledgements == self.spec_acknowledgements()
                }))
            }),
    {
        let mut headers = header_map_new();
        if let Some(license_key) = &self.license_key {
            header_map_insert(&mut headers, String::from_str("X-License-Key"), license_key.clone());
        } else if let Some(insert_key) = &self.insert_key {
            header_map_insert(&mut headers, String::from_str("X-Insert-Key"), insert_key.clone());
        } else {
            return Err(BuildError::MissingAuthParam);
        }
        let uri = match &self.region {
            Some(NewRelicLogsRegion::Eu) => String::from_str(
                "https://log-api.eu.newrelic.com/log/v1",
            ),
            _ => String::from_str("https://log-api.newrelic.com/log/v1"),
        };
        let defaults = NewRelicLogsDefaultBatchSettings;
        let resolved_max_bytes = match self.batch.max_bytes {
            Some(b) => b,
            None => defaults.max_bytes().unwrap(),
        };
        if resolved_max_bytes > MAX_PAYLOAD_SIZE {
            return Err(
                BuildError::BatchMaxBytesExceedsLimit {
                    configured: resolved_max_bytes,
                    limit: MAX_PAYLOAD_SIZE,
                },
            );
        }
        let batch = BatchConfig {
            max_bytes: Some(resolved_max_bytes),
            max_events: self.batch.max_events,
            timeout_secs: Some(
                match self.batch.timeout_secs {
                    Some(t) => t,
                    None => defaults.timeout_secs(),
                },
            ),
        };
        let tower = self.request;
        let request = RequestConfig { tower, headers };
        Ok(
            HttpSinkConfig {
                uri,
                method: Some(HttpMethod::Post),
                auth: None,
                headers: None,
                compression: self.compression,
                encoding: EncodingConfigWithFraming {
                    framing: Some(FramingConfig::CharacterDelimited { delimiter: 44 }),
                    serializer: SerializerConfig::Json,
                    transformer: self.encoding.duplicate(),
                },
                batch,
                request,
                tls: None,
                acknowledgements: self.acknowledgements,
            },
        )
    }
}

} // verus!
