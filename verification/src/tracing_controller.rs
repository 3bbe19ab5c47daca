//! The telemetry pipeline: which layers make it up, which backend receives
//! the spans, and the endpoint that swaps the verbosity filter while the
//! service runs.

use crate::config::ConfigError;
use crate::config::ConfigErrorView;
use crate::config::SERVICE_NAME;
use crate::config_map::ConfigMap;
use crate::config_map::Mapping;
use crate::text::is_clean;
use crate::text::lemma_strip_whitespace_clean;
use crate::text::remove_whitespace;
use crate::text::folded;
use crate::text::same_text;
use crate::text::same_text_ignoring_case;
use crate::text::strip_whitespace;
use tracing::Dispatch;
use tracing_subscriber::filter::EnvFilter;
use tracing_subscriber::registry::Registry;
use tracing_subscriber::reload;
use tracing_subscriber::reload::Handle;
use vstd::prelude::*;

verus! {

/// Key of the flag that allows the filter to be swapped at runtime.
pub const KEY_ALLOW_RECONFIGURE: &'static str = "tracing.allow_reconfigure";

/// Key of the name of the telemetry backend.
pub const KEY_TELEMETRY_TYPE: &'static str = "tracing.telemetry.type";

/// Key of the credential that the Application Insights backend needs.
pub const KEY_INSTRUMENTATION_KEY: &'static str = "tracing.telemetry.instrumentation_key";

/// What a reconfiguration request is answered with while the filter is fixed.
pub const RECONFIGURE_DISABLED: &'static str = "Trace reconfigure is not enabled";

/// The backend that receives the spans.
#[derive(Debug)]
pub enum Telemetry {
    /// No telemetry
    Disabled,
    /// Dump trace to the standard output
    StdOut,
    /// Enable Jaeger telemetry
    Jaeger,
    /// Enable Zipkin telemetry
    Zipkin,
    /// Application Insights telemetry
    AppInsight { instrumentation_key: String },
}

/// A `Telemetry` as plain text.
pub enum TelemetryView {
    Disabled,
    StdOut,
    Jaeger,
    Zipkin,
    AppInsight { instrumentation_key: Seq<char> },
}

impl View for Telemetry {
    type V = TelemetryView;

    open spec fn view(&self) -> TelemetryView {
        match self {
            Telemetry::Disabled => TelemetryView::Disabled,
            Telemetry::StdOut => TelemetryView::StdOut,
            Telemetry::Jaeger => TelemetryView::Jaeger,
            Telemetry::Zipkin => TelemetryView::Zipkin,
            Telemetry::AppInsight { instrumentation_key } => TelemetryView::AppInsight {
                instrumentation_key: instrumentation_key@,
            },
        }
    }
}

impl Clone for Telemetry {
    fn clone(&self) -> (r: Self)
        ensures
            r == *self,
    {
        match self {
            Telemetry::Disabled => Telemetry::Disabled,
            Telemetry::StdOut => Telemetry::StdOut,
            Telemetry::Jaeger => Telemetry::Jaeger,
            Telemetry::Zipkin => Telemetry::Zipkin,
            Telemetry::AppInsight { instrumentation_key } => Telemetry::AppInsight {
                instrumentation_key: instrumentation_key.clone(),
            },
        }
    }
}

/// The backend that a mapping names, or the key that is missing or does not decode.
pub open spec fn decode_telemetry(m: Mapping) -> Result<TelemetryView, Seq<char>> {
    if !m.contains_key(KEY_TELEMETRY_TYPE@) {
        Err(KEY_TELEMETRY_TYPE@)
    } else if m[KEY_TELEMETRY_TYPE@] == "none"@ {
        Ok(TelemetryView::Disabled)
    } else if m[KEY_TELEMETRY_TYPE@] == "stdOut"@ {
        Ok(TelemetryView::StdOut)
    } else if m[KEY_TELEMETRY_TYPE@] == "jaeger"@ {
        Ok(TelemetryView::Jaeger)
    } else if m[KEY_TELEMETRY_TYPE@] == "zipkin"@ {
        Ok(TelemetryView::Zipkin)
    } else if m[KEY_TELEMETRY_TYPE@] == "appInsight"@ {
        if m.contains_key(KEY_INSTRUMENTATION_KEY@) {
            Ok(TelemetryView::AppInsight { instrumentation_key: m[KEY_INSTRUMENTATION_KEY@] })
        } else {
            Err(KEY_INSTRUMENTATION_KEY@)
        }
    } else {
        Err(KEY_TELEMETRY_TYPE@)
    }
}

/// Whether `text` spells `word`, the case of ASCII letters aside.
pub open spec fn spells(text: Seq<char>, word: Seq<char>) -> bool {
    folded(text) == folded(word)
}

/// The flag that a piece of text spells, if it spells one: `1`, `true`,
/// `on` and `yes` stand for true, `0`, `false`, `off` and `no` for false,
/// each in any case.
pub open spec fn decode_flag(text: Seq<char>) -> Option<bool> {
    if spells(text, "1"@) || spells(text, "true"@) || spells(text, "on"@) || spells(text, "yes"@) {
        Some(true)
    } else if spells(text, "0"@) || spells(text, "false"@) || spells(text, "off"@) || spells(
        text,
        "no"@,
    ) {
        Some(false)
    } else {
        None
    }
}

/// Reads a flag out of a piece of text.
pub fn read_flag(text: &str) -> (r: Option<bool>)
    ensures
        r == decode_flag(text@),
{
    if same_text_ignoring_case(text, "1") || same_text_ignoring_case(text, "true")
        || same_text_ignoring_case(text, "on") || same_text_ignoring_case(text, "yes") {
        Some(true)
    } else if same_text_ignoring_case(text, "0") || same_text_ignoring_case(text, "false")
        || same_text_ignoring_case(text, "off") || same_text_ignoring_case(text, "no") {
        Some(false)
    } else {
        None
    }
}

impl Telemetry {
    /// Reads the backend selection out of a flat mapping.
    pub fn decode(map: &ConfigMap) -> (r: Result<Telemetry, ConfigError>)
        ensures
            match decode_telemetry(map@) {
                Ok(telemetry) => r matches Ok(t) && t@ == telemetry,
                Err(field) => r matches Err(e) && e@ == ConfigErrorView::MissingOrInvalidConfig(
                    field,
                ),
            },
    {
        match map.get(KEY_TELEMETRY_TYPE) {
            None => Err(ConfigError::MissingOrInvalidConfig(KEY_TELEMETRY_TYPE.to_owned())),
            Some(kind) => {
                if same_text(kind.as_str(), "none") {
                    Ok(Telemetry::Disabled)
                } else if same_text(kind.as_str(), "stdOut") {
                    Ok(Telemetry::StdOut)
                } else if same_text(kind.as_str(), "jaeger") {
                    Ok(Telemetry::Jaeger)
                } else if same_text(kind.as_str(), "zipkin") {
                    Ok(Telemetry::Zipkin)
                } else if same_text(kind.as_str(), "appInsight") {
                    match map.get(KEY_INSTRUMENTATION_KEY) {
                        Some(key) => Ok(Telemetry::AppInsight { instrumentation_key: key.clone() }),
                        None => Err(
                            ConfigError::MissingOrInvalidConfig(KEY_INSTRUMENTATION_KEY.to_owned()),
                        ),
                    }
                } else {
                    Err(ConfigError::MissingOrInvalidConfig(KEY_TELEMETRY_TYPE.to_owned()))
                }
            },
        }
    }
}

/// How the telemetry pipeline is set up.
#[derive(Debug)]
pub struct Config {
    allow_reconfigure: bool,
    telemetry: Telemetry,
}

/// A `Config` as plain values.
pub struct ConfigView {
    pub allow_reconfigure: bool,
    pub telemetry: TelemetryView,
}

impl View for Config {
    type V = ConfigView;

    closed spec fn view(&self) -> ConfigView {
        ConfigView { allow_reconfigure: self.allow_reconfigure, telemetry: self.telemetry@ }
    }
}

impl Clone for Config {
    fn clone(&self) -> (r: Self)
        ensures
            r == *self,
    {
        Config { allow_reconfigure: self.allow_reconfigure, telemetry: self.telemetry.clone() }
    }
}

/// The telemetry settings that a mapping holds, or the key that is missing
/// or does not decode.
pub open spec fn decode_tracing(m: Mapping) -> Result<ConfigView, Seq<char>> {
    if !m.contains_key(KEY_ALLOW_RECONFIGURE@) {
        Err(KEY_ALLOW_RECONFIGURE@)
    } else {
        match decode_flag(m[KEY_ALLOW_RECONFIGURE@]) {
            None => Err(KEY_ALLOW_RECONFIGURE@),
            Some(allow_reconfigure) => match decode_telemetry(m) {
                Err(field) => Err(field),
                Ok(telemetry) => Ok(ConfigView { allow_reconfigure, telemetry }),
            },
        }
    }
}

impl Config {
    pub fn new(allow_reconfigure: bool, telemetry: Telemetry) -> (c: Config)
        ensures
            c@ == (ConfigView { allow_reconfigure, telemetry: telemetry@ }),
    {
        Config { allow_reconfigure, telemetry }
    }

    pub fn allow_reconfigure(&self) -> (r: bool)
        ensures
            r == self@.allow_reconfigure,
    {
        self.allow_reconfigure
    }

    pub fn telemetry(&self) -> (r: &Telemetry)
        ensures
            r@ == self@.telemetry,
    {
        &self.telemetry
    }

    /// Reads the telemetry settings out of a flat mapping.
    pub fn decode(map: &ConfigMap) -> (r: Result<Config, ConfigError>)
        ensures
            match decode_tracing(map@) {
                Ok(config) => r matches Ok(c) && c@ == config,
                Err(field) => r matches Err(e) && e@ == ConfigErrorView::MissingOrInvalidConfig(
                    field,
                ),
            },
    {
        let allow_reconfigure = match map.get(KEY_ALLOW_RECONFIGURE) {
            None => {
                return Err(ConfigError::MissingOrInvalidConfig(KEY_ALLOW_RECONFIGURE.to_owned()));
            },
            Some(flag) => match read_flag(flag.as_str()) {
                Some(allow_reconfigure) => allow_reconfigure,
                None => {
                    return Err(
                        ConfigError::MissingOrInvalidConfig(KEY_ALLOW_RECONFIGURE.to_owned()),
                    );
                },
            },
        };
        match Telemetry::decode(map) {
            Ok(telemetry) => Ok(Config { allow_reconfigure, telemetry }),
            Err(e) => Err(e),
        }
    }
}

/// The least severe level that a filter lets through.
#[derive(Clone, Copy, Debug, PartialEq, Eq, Structural)]
pub enum Level {
    Trace,
    Debug,
    Info,
    Warn,
    Error,
}

/// The kind of exporter that ships the spans.
#[derive(Clone, Copy, Debug, PartialEq, Eq, Structural)]
pub enum Exporter {
    StdOut,
    Jaeger,
    Zipkin,
    AppInsight,
}

/// Which spans a tracer records.
#[derive(Clone, Copy, Debug, PartialEq, Eq, Structural)]
pub enum Sampler {
    /// Every span.
    AlwaysOn,
    /// What the tracing SDK does when it is told nothing.
    SdkDefault,
}

/// What it takes to build the tracer of one backend.
#[derive(Debug)]
pub struct TracerPlan {
    pub exporter: Exporter,
    /// The service name that the resource descriptor carries.
    pub service_name: &'static str,
    pub sampler: Sampler,
    /// Whether spans are handed to the exporter in batches, from a
    /// background task, or one by one as they end.
    pub batched: bool,
    /// Whether the exporter is given an outbound HTTP client.
    pub http_client: bool,
    /// The credential of the backend, where it asks for one.
    pub instrumentation_key: Option<String>,
}

/// A `TracerPlan` as plain values.
pub struct TracerPlanView {
    pub exporter: Exporter,
    pub service_name: Seq<char>,
    pub sampler: Sampler,
    pub batched: bool,
    pub http_client: bool,
    pub instrumentation_key: Option<Seq<char>>,
}

impl View for TracerPlan {
    type V = TracerPlanView;

    open spec fn view(&self) -> TracerPlanView {
        TracerPlanView {
            exporter: self.exporter,
            service_name: self.service_name@,
            sampler: self.sampler,
            batched: self.batched,
            http_client: self.http_client,
            instrumentation_key: self.instrumentation_key.deep_view(),
        }
    }
}

/// The tracer that a backend selection asks for.  No backend, no tracer:
/// the pipeline then formats and filters only.  The standard output takes
/// every span as it ends; the remote backends take batches, and
/// Application Insights takes an HTTP client and its key besides.
pub open spec fn tracer_plan(telemetry: TelemetryView) -> Option<TracerPlanView> {
    match telemetry {
        TelemetryView::Disabled => None,
        TelemetryView::StdOut => Some(
            TracerPlanView {
                exporter: Exporter::StdOut,
                service_name: SERVICE_NAME@,
                sampler: Sampler::AlwaysOn,
                batched: false,
                http_client: false,
                instrumentation_key: None,
            },
        ),
        TelemetryView::Jaeger => Some(
            TracerPlanView {
                exporter: Exporter::Jaeger,
                service_name: SERVICE_NAME@,
                sampler: Sampler::SdkDefault,
                batched: true,
                http_client: false,
                instrumentation_key: None,
            },
        ),
        TelemetryView::Zipkin => Some(
            TracerPlanView {
                exporter: Exporter::Zipkin,
                service_name: SERVICE_NAME@,
                sampler: Sampler::SdkDefault,
                batched: true,
                http_client: false,
                instrumentation_key: None,
            },
        ),
        TelemetryView::AppInsight { instrumentation_key } => Some(
            TracerPlanView {
                exporter: Exporter::AppInsight,
                service_name: SERVICE_NAME@,
                sampler: Sampler::SdkDefault,
                batched: true,
                http_client: true,
                instrumentation_key: Some(instrumentation_key),
            },
        ),
    }
}

/// One layer of the pipeline.
#[derive(Debug)]
pub enum LayerPlan {
    /// Writes the records out as text.
    Format,
    /// Drops what is less severe than the filter allows.  The filter starts
    /// from the environment's directives with `floor` added, and can be
    /// swapped later where it is `reloadable`.
    Filter { floor: Level, reloadable: bool },
    /// Hands the spans to the tracer.
    Telemetry { tracer: TracerPlan, tracked_inactivity: bool },
}

/// A `LayerPlan` as plain values.
pub enum LayerPlanView {
    Format,
    Filter { floor: Level, reloadable: bool },
    Telemetry { tracer: TracerPlanView, tracked_inactivity: bool },
}

impl View for LayerPlan {
    type V = LayerPlanView;

    open spec fn view(&self) -> LayerPlanView {
        match self {
            LayerPlan::Format => LayerPlanView::Format,
            LayerPlan::Filter { floor, reloadable } => LayerPlanView::Filter {
                floor: *floor,
                reloadable: *reloadable,
            },
            LayerPlan::Telemetry { tracer, tracked_inactivity } => LayerPlanView::Telemetry {
                tracer: tracer@,
                tracked_inactivity: *tracked_inactivity,
            },
        }
    }
}

/// The layers of a pipeline as plain values.
pub open spec fn layers_view(layers: Seq<LayerPlan>) -> Seq<LayerPlanView> {
    layers.map_values(|layer: LayerPlan| layer@)
}

/// The floor of the filter: `Info` where the filter can be swapped later,
/// `Warn` where it is fixed.
pub open spec fn filter_floor(allow_reconfigure: bool) -> Level {
    if allow_reconfigure {
        Level::Info
    } else {
        Level::Warn
    }
}

/// The layers of the pipeline, outermost first: the format layer, the
/// filter, and the telemetry layer where a backend is selected.
pub open spec fn pipeline(config: ConfigView) -> Seq<LayerPlanView> {
    let fixed = seq![
        LayerPlanView::Format,
        LayerPlanView::Filter {
            floor: filter_floor(config.allow_reconfigure),
            reloadable: config.allow_reconfigure,
        },
    ];
    match tracer_plan(config.telemetry) {
        Some(tracer) => fixed.push(LayerPlanView::Telemetry { tracer, tracked_inactivity: true }),
        None => fixed,
    }
}

/// `tracing_subscriber`'s `EnvFilter`: a set of filter directives.
#[verifier::external_type_specification]
#[verifier::external_body]
pub struct ExEnvFilter(EnvFilter);

/// `tracing_subscriber`'s `Registry`: the subscriber that the layers of the
/// pipeline sit on.
#[verifier::external_type_specification]
#[verifier::external_body]
pub struct ExRegistry(Registry);

/// `tracing`'s `Dispatch`: a subscriber ready to be installed.
#[verifier::external_type_specification]
#[verifier::external_body]
pub struct ExDispatch(Dispatch);

/// `tracing_subscriber`'s reload `Handle`: the capability to change the
/// layer that a reload layer wraps.
#[verifier::external_type_specification]
#[verifier::external_body]
#[verifier::reject_recursive_types(L)]
#[verifier::reject_recursive_types(S)]
pub struct ExHandle<L, S>(Handle<L, S>);

/// `tracing_subscriber`'s reload `Layer`: a layer that lets the layer inside
/// it be changed.
#[verifier::external_type_specification]
#[verifier::external_body]
#[verifier::reject_recursive_types(L)]
#[verifier::reject_recursive_types(S)]
pub struct ExReloadLayer<L, S>(reload::Layer<L, S>);

/// What `EnvFilter`'s parser makes of filter directives: the directives
/// that the parsed filter prints, or the message with which the text is
/// refused.
pub uninterp spec fn parsed_filter(directives: Seq<char>) -> Result<Seq<char>, Seq<char>>;

/// The directives that a filter holds, in the text that the filter prints.
pub uninterp spec fn filter_directives(filter: EnvFilter) -> Seq<char>;

/// The directives of the filter that the layer behind a reload handle
/// holds, in the text that the filter prints.  The layer is taken to change
/// through this handle alone: the service keeps the handle that was made
/// with the layer and hands out no copy.
pub uninterp spec fn active_directives(handle: Handle<EnvFilter, Registry>) -> Seq<char>;

/// Whether the lock of the layer behind a reload handle is poisoned: whether
/// a thread has panicked in the middle of changing the layer.  Like the
/// directives, the lock is taken to change through this handle alone.
pub uninterp spec fn lock_poisoned(handle: Handle<EnvFilter, Registry>) -> bool;

/// Whether a handle that may be absent can be used: the lock behind it is
/// not poisoned.  The service and the endpoint hold no other handle.
pub open spec fn usable(handle: Option<Handle<EnvFilter, Registry>>) -> bool {
    handle matches Some(handle) ==> !lock_poisoned(handle)
}

/// The message of `tracing`'s `SetGlobalDefaultError`.
pub const DISPATCHER_TAKEN: &'static str = "a global default trace dispatcher has already been set";

/// The message of `tracing_subscriber`'s reload error for a subscriber that
/// has been dropped.
pub const SUBSCRIBER_GONE: &'static str = "subscriber no longer exists";

/// The message of `tracing_subscriber`'s reload error for a poisoned lock.
pub const LOCK_POISONED: &'static str = "lock poisoned";

/// Calls `reload::Layer::new`.  Believed of it: the layer that it makes
/// holds the filter that was handed over, the handle that it makes is the
/// handle of that layer, and the lock that it makes for the layer is not
/// poisoned.
#[verifier::external_body]
fn reloadable(filter: EnvFilter) -> (r: (
    reload::Layer<EnvFilter, Registry>,
    Handle<EnvFilter, Registry>,
))
    ensures
        active_directives(r.1) == filter_directives(filter),
        !lock_poisoned(r.1),
{
    reload::Layer::new(filter)
}

/// Calls `EnvFilter`'s `from_str` and prints the error where there is one.
/// Believed of it: whether it accepts the text, the message with which it
/// refuses it, and the directives of the filter that it builds depend on
/// the text alone.  Text with whitespace is kept away from it: the parser
/// trims each directive and then cuts the untrimmed text at the offsets
/// that it counted in the trimmed one.
#[verifier::external_body]
fn parse_filter(directives: &str) -> (r: Result<EnvFilter, String>)
    requires
        is_clean(directives@),
    ensures
        match r {
            Ok(filter) => parsed_filter(directives@) == Ok::<Seq<char>, Seq<char>>(
                filter_directives(filter),
            ),
            Err(message) => parsed_filter(directives@) == Err::<Seq<char>, Seq<char>>(message@),
        },
{
    directives.parse::<EnvFilter>().map_err(|e| format!("{}", e))
}

/// Calls `Handle::reload` and prints the error where there is one.  On a
/// poisoned lock the call panics, so a handle whose lock is poisoned is not
/// admitted.  Believed of it, for the handles that are admitted: on success
/// the layer holds the filter that was handed over; on failure it holds
/// what it held, and the message is one of the two that the reload error
/// has; either way the call has run without a panic and leaves the lock
/// unpoisoned.
#[verifier::external_body]
fn reload_filter(handle: &mut Handle<EnvFilter, Registry>, filter: EnvFilter) -> (r: Result<
    (),
    String,
>)
    requires
        !lock_poisoned(*old(handle)),
    ensures
        !lock_poisoned(*final(handle)),
        match r {
            Ok(_) => active_directives(*final(handle)) == filter_directives(filter),
            Err(message) => *final(handle) == *old(handle) && (message@ == SUBSCRIBER_GONE@
                || message@ == LOCK_POISONED@),
        },
{
    handle.reload(filter).map_err(|e| format!("{}", e))
}

/// Calls `tracing::dispatcher::set_global_default` and prints the error
/// where there is one.  Believed of it: the error has one message.  Whether
/// the call succeeds depends on what the process has installed before, so
/// nothing is said of that.
#[verifier::external_body]
fn set_global_default(dispatch: Dispatch) -> (r: Result<(), String>)
    ensures
        r matches Err(message) ==> message@ == DISPATCHER_TAKEN@,
{
    tracing::dispatcher::set_global_default(dispatch).map_err(|e| format!("{}", e))
}

/// What one swap of the filter does: `before` and `after` are the handle
/// before and after it, `r` is what the caller is told.  Text that does not
/// parse leaves the filter as it is and is answered with the parser's
/// message.  Text that parses is swapped in, unless the handle fails: then
/// the filter stays as it is.
pub open spec fn swapped(
    new_config: Seq<char>,
    before: Handle<EnvFilter, Registry>,
    after: Handle<EnvFilter, Registry>,
    r: Result<(), String>,
) -> bool {
    match parsed_filter(strip_whitespace(new_config)) {
        Err(message) => after == before && (r matches Err(m) && m@ == message),
        Ok(directives) => match r {
            Ok(_) => active_directives(after) == directives,
            Err(m) => after == before && (m@ == SUBSCRIBER_GONE@ || m@ == LOCK_POISONED@),
        },
    }
}

/// Swaps the filter behind `handle` for the one that `new_config` spells.
/// Whitespace in `new_config` does not count.  The lock behind the handle
/// must not be poisoned, and is not poisoned afterwards.
fn swap_filter(handle: &mut Handle<EnvFilter, Registry>, new_config: String) -> (r: Result<
    (),
    String,
>)
    requires
        !lock_poisoned(*old(handle)),
    ensures
        !lock_poisoned(*final(handle)),
        swapped(new_config@, *old(handle), *final(handle), r),
{
    let stripped = remove_whitespace(new_config.as_str());
    proof {
        lemma_strip_whitespace_clean(new_config@);
    }
    match parse_filter(stripped.as_str()) {
        Ok(new_filter) => reload_filter(handle, new_filter),
        Err(message) => Err(message),
    }
}

/// The body of a reconfiguration request.
#[derive(Debug)]
pub struct TraceConfigRequest {
    filter: String,
}

impl TraceConfigRequest {
    /// The filter text that the request asks for.
    pub closed spec fn text(&self) -> Seq<char> {
        self.filter@
    }

    pub fn new(filter: String) -> (request: TraceConfigRequest)
        ensures
            request.text() == filter@,
    {
        TraceConfigRequest { filter }
    }

    pub fn filter(&self) -> (r: &str)
        ensures
            r@ == self.text(),
    {
        self.filter.as_str()
    }
}

/// What the reconfiguration endpoint works on.  It is reconfigurable while
/// it holds a reload handle, and fixed without one.
#[derive(Debug)]
pub struct State {
    reload_handle: Option<Handle<EnvFilter, Registry>>,
}

impl State {
    /// The lock behind the handle that the endpoint holds is not poisoned:
    /// the handle was made together with its layer, and every swap through
    /// it has run to its end.
    #[verifier::type_invariant]
    spec fn holds_usable_handle(&self) -> bool {
        usable(self.reload_handle)
    }

    /// The reload handle, where the endpoint holds one.
    pub closed spec fn handle(&self) -> Option<Handle<EnvFilter, Registry>> {
        self.reload_handle
    }

    /// Whether a request can swap the filter.
    pub fn is_reconfigurable(&self) -> (r: bool)
        ensures
            r == self.handle() is Some,
    {
        self.reload_handle.is_some()
    }
}

/// What one reconfiguration request does to the endpoint.  A fixed endpoint
/// refuses every request and stays as it is; a reconfigurable one swaps its
/// filter as `swapped` says.
pub open spec fn reconfigured(
    filter: Seq<char>,
    before: Option<Handle<EnvFilter, Registry>>,
    after: Option<Handle<EnvFilter, Registry>>,
    r: Result<(), String>,
) -> bool {
    match before {
        None => after is None && (r matches Err(m) && m@ == RECONFIGURE_DISABLED@),
        Some(handle) => after matches Some(swapped_handle) && swapped(
            filter,
            handle,
            swapped_handle,
            r,
        ),
    }
}

/// Serves one reconfiguration request.
pub fn reconfigure(state: &mut State, format: TraceConfigRequest) -> (r: Result<(), String>)
    ensures
        reconfigured(format.text(), old(state).handle(), final(state).handle(), r),
        usable(old(state).handle()),
        usable(final(state).handle()),
{
    proof {
        use_type_invariant(&*state);
    }
    let mut held = State { reload_handle: None };
    core::mem::swap(state, &mut held);
    match held.reload_handle {
        Some(reload_handle) => {
            let mut reload_handle = reload_handle;
            let r = swap_filter(&mut reload_handle, format.filter);
            *state = State { reload_handle: Some(reload_handle) };
            r
        },
        None => Err(RECONFIGURE_DISABLED.to_owned()),
    }
}

/// Why the pipeline was not installed.
#[derive(Debug)]
pub enum InstallError {
    /// This service has installed its pipeline before.
    AlreadyInstalled,
    /// The process already has a global dispatcher; the text is the
    /// dispatcher's message.
    Dispatcher(String),
}

/// The telemetry service during startup: whether its pipeline is installed,
/// and the reload handle that it keeps for the endpoint.
#[derive(Debug)]
pub struct Service {
    reload_handle: Option<Handle<EnvFilter, Registry>>,
    installed: bool,
}

impl Service {
    /// The lock behind the handle that the service holds is not poisoned:
    /// the handle was made together with its layer and has not been used.
    #[verifier::type_invariant]
    spec fn holds_usable_handle(&self) -> bool {
        usable(self.reload_handle)
    }

    /// The reload handle, where the service holds one.
    pub closed spec fn handle(&self) -> Option<Handle<EnvFilter, Registry>> {
        self.reload_handle
    }

    /// Whether this service has installed its pipeline.
    pub closed spec fn installed(&self) -> bool {
        self.installed
    }

    /// Takes note of what the dispatcher answered to an installation.
    pub fn record_install(&mut self, outcome: Result<(), String>) -> (r: Result<(), InstallError>)
        ensures
            final(self).handle() == old(self).handle(),
            match outcome {
                Ok(_) => r is Ok && final(self).installed(),
                Err(message) => r == Err::<(), InstallError>(InstallError::Dispatcher(message))
                    && final(self).installed() == old(self).installed(),
            },
    {
        proof {
            use_type_invariant(&*self);
        }
        match outcome {
            Ok(_) => {
                self.installed = true;
                Ok(())
            },
            Err(message) => Err(InstallError::Dispatcher(message)),
        }
    }

    /// Installs `dispatch` as the sink of the whole process.  A service
    /// installs once: a second call is refused and leaves the dispatcher
    /// alone.
    pub fn set_global_logger(&mut self, dispatch: Dispatch) -> (r: Result<(), InstallError>)
        ensures
            final(self).handle() == old(self).handle(),
            old(self).installed() ==> r == Err::<(), InstallError>(InstallError::AlreadyInstalled)
                && final(self).installed(),
            !old(self).installed() ==> match r {
                Ok(_) => final(self).installed(),
                Err(InstallError::Dispatcher(message)) => !final(self).installed() && message@
                    == DISPATCHER_TAKEN@,
                Err(InstallError::AlreadyInstalled) => false,
            },
    {
        if self.installed {
            return Err(InstallError::AlreadyInstalled);
        }
        let outcome = set_global_default(dispatch);
        self.record_install(outcome)
    }

    /// Plans the tracer of the backend that `config` selects.
    pub fn install_telemetry(config: &Config) -> (r: Option<TracerPlan>)
        ensures
            match tracer_plan(config@.telemetry) {
                Some(plan) => r matches Some(p) && p@ == plan,
                None => r is None,
            },
    {
        match &config.telemetry {
            Telemetry::StdOut => Some(
                TracerPlan {
                    exporter: Exporter::StdOut,
                    service_name: SERVICE_NAME,
                    sampler: Sampler::AlwaysOn,
                    batched: false,
                    http_client: false,
                    instrumentation_key: None,
                },
            ),
            Telemetry::Jaeger => Some(
                TracerPlan {
                    exporter: Exporter::Jaeger,
                    service_name: SERVICE_NAME,
                    sampler: Sampler::SdkDefault,
                    batched: true,
                    http_client: false,
                    instrumentation_key: None,
                },
            ),
            Telemetry::Zipkin => Some(
                TracerPlan {
                    exporter: Exporter::Zipkin,
                    service_name: SERVICE_NAME,
                    sampler: Sampler::SdkDefault,
                    batched: true,
                    http_client: false,
                    instrumentation_key: None,
                },
            ),
            Telemetry::AppInsight { instrumentation_key } => Some(
                TracerPlan {
                    exporter: Exporter::AppInsight,
                    service_name: SERVICE_NAME,
                    sampler: Sampler::SdkDefault,
                    batched: true,
                    http_client: true,
                    instrumentation_key: Some(instrumentation_key.clone()),
                },
            ),
            Telemetry::Disabled => None,
        }
    }

    /// Plans the pipeline for `config`.
    pub fn install_logger(config: &Config) -> (layers: Vec<LayerPlan>)
        ensures
            layers_view(layers@) == pipeline(config@),
    {
        let floor = if config.allow_reconfigure {
            Level::Info
        } else {
            Level::Warn
        };
        let mut layers: Vec<LayerPlan> = Vec::new();
        layers.push(LayerPlan::Format);
        layers.push(LayerPlan::Filter { floor, reloadable: config.allow_reconfigure });
        if let Some(tracer) = Service::install_telemetry(config) {
            layers.push(LayerPlan::Telemetry { tracer, tracked_inactivity: true });
        }
        layers
    }

    /// Ends startup: what is left is the state of the endpoint.
    pub fn into_state(self) -> (state: State)
        ensures
            state.handle() == self.handle(),
            usable(state.handle()),
    {
        proof {
            use_type_invariant(&self);
        }
        State { reload_handle: self.reload_handle }
    }
}

/// The filter layer of the pipeline.
#[derive(Debug)]
pub enum FilterLayer {
    /// The filter as it is: it stays for the life of the process.
    Fixed(EnvFilter),
    /// The filter inside a layer that lets it be swapped.  The layer
    /// belongs in the pipeline.  What is said of the filter behind the
    /// service's handle holds as long as that handle is the only one through
    /// which the layer is changed.
    Reloadable(reload::Layer<EnvFilter, Registry>),
}

/// Starts the telemetry service with the filter that the pipeline starts
/// from.  Where `config` allows the filter to be swapped, the filter is
/// put into a reload layer and the service keeps the handle of that layer;
/// else the filter stays as it is and the service holds no handle.
pub fn service(config: &Config, filter: EnvFilter) -> (r: (Service, FilterLayer))
    ensures
        !r.0.installed(),
        usable(r.0.handle()),
        config@.allow_reconfigure ==> r.1 is Reloadable && r.0.handle() is Some
            && active_directives(r.0.handle()->0) == filter_directives(filter),
        !config@.allow_reconfigure ==> r.1 == FilterLayer::Fixed(filter) && r.0.handle() is None,
{
    if config.allow_reconfigure {
        let (layer, reload_handle) = reloadable(filter);
        (
            Service { reload_handle: Some(reload_handle), installed: false },
            FilterLayer::Reloadable(layer),
        )
    } else {
        (Service { reload_handle: None, installed: false }, FilterLayer::Fixed(filter))
    }
}

/// Applying one filter twice in a row leaves the filter that applying it
/// once has left.
pub proof fn lemma_reconfigure_idempotent(
    filter: Seq<char>,
    start: Option<Handle<EnvFilter, Registry>>,
    once: Option<Handle<EnvFilter, Registry>>,
    twice: Option<Handle<EnvFilter, Registry>>,
    first: Result<(), String>,
    second: Result<(), String>,
)
    requires
        reconfigured(filter, start, once, first),
        reconfigured(filter, once, twice, second),
        first is Ok,
    ensures
        once is Some,
        twice is Some,
        active_directives(twice->0) == active_directives(once->0),
{
}

/// A fixed endpoint refuses every request, whatever the filter text, and
/// stays as it is.
pub proof fn lemma_fixed_endpoint_refuses(
    filter: Seq<char>,
    after: Option<Handle<EnvFilter, Registry>>,
    r: Result<(), String>,
)
    requires
        reconfigured(filter, None, after, r),
    ensures
        r is Err,
        r->Err_0@ == RECONFIGURE_DISABLED@,
        after is None,
{
}

/// Two filter texts that differ in whitespace alone have the same effect:
/// both are refused with one message, or both are accepted and leave the
/// same filter.
pub proof fn lemma_reconfigure_ignores_whitespace(
    a: Seq<char>,
    b: Seq<char>,
    start: Handle<EnvFilter, Registry>,
    after_a: Handle<EnvFilter, Registry>,
    after_b: Handle<EnvFilter, Registry>,
    r_a: Result<(), String>,
    r_b: Result<(), String>,
)
    requires
        strip_whitespace(a) == strip_whitespace(b),
        swapped(a, start, after_a, r_a),
        swapped(b, start, after_b, r_b),
    ensures
        parsed_filter(strip_whitespace(a)) is Err ==> r_a is Err && r_b is Err && r_a->Err_0@
            == r_b->Err_0@ && after_a == after_b,
        r_a is Ok && r_b is Ok ==> active_directives(after_a) == active_directives(after_b),
{
}

} // verus!
