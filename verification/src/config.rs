//! Layered configuration: the sources, their precedence, and the typed
//! result with its consistency check.
//!
//! Every source contributes a flat mapping from keys to values.  The sources
//! are merged lowest priority first: shared vault, private vault, local
//! file, environment.  A vault takes part only where the core configuration
//! read from the file and the environment names it.

use crate::config_map::ConfigMap;
use crate::config_map::Mapping;
use crate::text::last_path_segment;
use crate::text::last_segment;
use crate::tracing_controller;
use crate::tracing_controller::decode_tracing;
use vstd::prelude::*;
use vstd::std_specs::cmp::PartialEqSpecImpl;
use vstd::std_specs::convert::FromSpecImpl;

verus! {

/// The name under which the service reports itself.
pub const SERVICE_NAME: &'static str = "hello-world";

/// Key of the deployment slot.
pub const KEY_SLOT: &'static str = "core.slot";

/// Key of the deployment stage.
pub const KEY_STAGE: &'static str = "core.stage";

/// Key of the address of the vault that deployments share.
pub const KEY_SHARED_KEYVAULT: &'static str = "core.shared_keyvault";

/// Key of the address of the vault of this deployment alone.
pub const KEY_PRIVATE_KEYVAULT: &'static str = "core.private_keyvault";

/// Key of the database connection string.
pub const KEY_SQL_CNS: &'static str = "FullSqlCns";

/// Why a vault could not contribute, or why its contribution was refused.
#[derive(Debug)]
pub enum AzureKeyvaultConfigError {
    /// The vault could not be listed or read; the text gives the cause.
    Azure(String),
    /// The merged configuration names another deployment than the file and
    /// the environment do.
    PreinitMismatch,
}

/// An `AzureKeyvaultConfigError` as plain text.
pub enum AzureKeyvaultConfigErrorView {
    Azure(Seq<char>),
    PreinitMismatch,
}

impl View for AzureKeyvaultConfigError {
    type V = AzureKeyvaultConfigErrorView;

    open spec fn view(&self) -> AzureKeyvaultConfigErrorView {
        match self {
            AzureKeyvaultConfigError::Azure(cause) => AzureKeyvaultConfigErrorView::Azure(cause@),
            AzureKeyvaultConfigError::PreinitMismatch => AzureKeyvaultConfigErrorView::PreinitMismatch,
        }
    }
}

/// Why no configuration could be resolved.
#[derive(Debug)]
pub enum ConfigError {
    /// The key is bound nowhere, or its value does not decode.
    MissingOrInvalidConfig(String),
    /// The core configuration names the vault at this address, and its
    /// contents were not supplied.
    ConfigSource(String),
    /// A vault failed, or what the vaults hold contradicts the core
    /// configuration.
    Foreign(AzureKeyvaultConfigError),
}

/// A `ConfigError` as plain text.
pub enum ConfigErrorView {
    MissingOrInvalidConfig(Seq<char>),
    ConfigSource(Seq<char>),
    Foreign(AzureKeyvaultConfigErrorView),
}

impl View for ConfigError {
    type V = ConfigErrorView;

    open spec fn view(&self) -> ConfigErrorView {
        match self {
            ConfigError::MissingOrInvalidConfig(field) => ConfigErrorView::MissingOrInvalidConfig(
                field@,
            ),
            ConfigError::ConfigSource(address) => ConfigErrorView::ConfigSource(address@),
            ConfigError::Foreign(inner) => ConfigErrorView::Foreign(inner@),
        }
    }
}

impl From<AzureKeyvaultConfigError> for ConfigError {
    fn from(err: AzureKeyvaultConfigError) -> (r: ConfigError) {
        ConfigError::Foreign(err)
    }
}

impl FromSpecImpl<AzureKeyvaultConfigError> for ConfigError {
    open spec fn obeys_from_spec() -> bool {
        true
    }

    open spec fn from_spec(err: AzureKeyvaultConfigError) -> ConfigError {
        ConfigError::Foreign(err)
    }
}

/// The identity of a deployment, and where its secret vaults are.
#[derive(Debug)]
pub struct CoreConfig {
    pub slot: String,
    pub stage: String,
    pub shared_keyvault: Option<String>,
    pub private_keyvault: Option<String>,
}

/// A `CoreConfig` as plain text.
pub struct CoreConfigView {
    pub slot: Seq<char>,
    pub stage: Seq<char>,
    pub shared_keyvault: Option<Seq<char>>,
    pub private_keyvault: Option<Seq<char>>,
}

impl View for CoreConfig {
    type V = CoreConfigView;

    open spec fn view(&self) -> CoreConfigView {
        CoreConfigView {
            slot: self.slot@,
            stage: self.stage@,
            shared_keyvault: self.shared_keyvault.deep_view(),
            private_keyvault: self.private_keyvault.deep_view(),
        }
    }
}

/// Compares two optional strings by their text.
fn same_optional_text(a: &Option<String>, b: &Option<String>) -> (r: bool)
    ensures
        r == (a.deep_view() == b.deep_view()),
{
    match (a, b) {
        (None, None) => true,
        (Some(x), Some(y)) => *x == *y,
        _ => false,
    }
}

/// Copies an optional string.
fn copy_text(a: Option<&String>) -> (r: Option<String>)
    ensures
        r.deep_view() == a.deep_view(),
        a matches Some(x) ==> r == Some(*x),
        a is None ==> r is None,
{
    match a {
        Some(x) => Some(x.clone()),
        None => None,
    }
}

impl Clone for CoreConfig {
    fn clone(&self) -> (r: Self)
        ensures
            r == *self,
    {
        CoreConfig {
            slot: self.slot.clone(),
            stage: self.stage.clone(),
            shared_keyvault: copy_text(self.shared_keyvault.as_ref()),
            private_keyvault: copy_text(self.private_keyvault.as_ref()),
        }
    }
}

impl PartialEq for CoreConfig {
    fn eq(&self, other: &CoreConfig) -> (r: bool) {
        self.slot == other.slot && self.stage == other.stage && same_optional_text(
            &self.shared_keyvault,
            &other.shared_keyvault,
        ) && same_optional_text(&self.private_keyvault, &other.private_keyvault)
    }
}

impl PartialEqSpecImpl for CoreConfig {
    open spec fn obeys_eq_spec() -> bool {
        true
    }

    open spec fn eq_spec(&self, other: &CoreConfig) -> bool {
        self@ == other@
    }
}

impl Eq for CoreConfig {

}

/// The core configuration that a mapping holds, or the key that is missing.
/// Slot and stage are required, the vault addresses are not.
pub open spec fn decode_core(m: Mapping) -> Result<CoreConfigView, Seq<char>> {
    if !m.contains_key(KEY_SLOT@) {
        Err(KEY_SLOT@)
    } else if !m.contains_key(KEY_STAGE@) {
        Err(KEY_STAGE@)
    } else {
        Ok(
            CoreConfigView {
                slot: m[KEY_SLOT@],
                stage: m[KEY_STAGE@],
                shared_keyvault: m.get(KEY_SHARED_KEYVAULT@),
                private_keyvault: m.get(KEY_PRIVATE_KEYVAULT@),
            },
        )
    }
}

impl CoreConfig {
    /// Reads the core configuration out of a flat mapping.
    pub fn decode(map: &ConfigMap) -> (r: Result<CoreConfig, ConfigError>)
        ensures
            match decode_core(map@) {
                Ok(core) => r matches Ok(c) && c@ == core,
                Err(field) => r matches Err(e) && e@ == ConfigErrorView::MissingOrInvalidConfig(
                    field,
                ),
            },
    {
        let slot = match map.get(KEY_SLOT) {
            Some(slot) => slot.clone(),
            None => {
                return Err(ConfigError::MissingOrInvalidConfig(KEY_SLOT.to_owned()));
            },
        };
        let stage = match map.get(KEY_STAGE) {
            Some(stage) => stage.clone(),
            None => {
                return Err(ConfigError::MissingOrInvalidConfig(KEY_STAGE.to_owned()));
            },
        };
        let shared_keyvault = copy_text(map.get(KEY_SHARED_KEYVAULT));
        let private_keyvault = copy_text(map.get(KEY_PRIVATE_KEYVAULT));
        Ok(CoreConfig { slot, stage, shared_keyvault, private_keyvault })
    }
}

/// What the local file and the environment say before any vault is asked.
pub open spec fn preinit_view(file: Mapping, env: Mapping) -> Result<CoreConfigView, Seq<char>> {
    decode_core(file.union_prefer_right(env))
}

/// Core configuration to set up the vaults.
#[derive(Debug)]
pub struct PreinitConfig {
    pub core: CoreConfig,
}

impl PreinitConfig {
    /// Reads the core configuration from the local file and the environment;
    /// where both bind a key, the environment's value stands.
    pub fn new(file: &ConfigMap, env: &ConfigMap) -> (r: Result<PreinitConfig, ConfigError>)
        ensures
            match preinit_view(file@, env@) {
                Ok(core) => r matches Ok(preinit) && preinit.core@ == core,
                Err(field) => r matches Err(e) && e@ == ConfigErrorView::MissingOrInvalidConfig(
                    field,
                ),
            },
    {
        let merged = merge_stack(None, None, file, env);
        proof {
            assert(Mapping::empty().union_prefer_right(file@) == file@);
        }
        match CoreConfig::decode(&merged) {
            Ok(core) => Ok(PreinitConfig { core }),
            Err(e) => Err(e),
        }
    }
}

/// One secret as a vault hands it out.
#[derive(Debug)]
pub struct SecretEntry {
    pub key: String,
    pub value: String,
    pub enabled: bool,
}

/// The mapping that a run of secrets contributes: the enabled ones, a later
/// one over an earlier one with the same key.
pub open spec fn enabled_secrets(secrets: Seq<SecretEntry>) -> Mapping
    decreases secrets.len(),
{
    if secrets.len() == 0 {
        Map::empty()
    } else if secrets.last().enabled {
        enabled_secrets(secrets.drop_last()).insert(secrets.last().key@, secrets.last().value@)
    } else {
        enabled_secrets(secrets.drop_last())
    }
}

/// One remote vault as a configuration source: its address, and what has
/// been read from it so far.
///
/// Whoever reads the vault drives the source: `record` for each secret that
/// the vault hands out, `finish` once the listing is exhausted, `fail` where
/// listing or reading fails.  Only a source that was finished and did not
/// fail contributes.
#[derive(Debug)]
pub struct AzureKeyvaultConfigSource {
    keyvault_url: String,
    secrets: Vec<SecretEntry>,
    complete: bool,
    failure: Option<String>,
}

/// What was supplied for a vault: nothing, or what its source contributes.
pub type Supplied = Option<Result<Mapping, ConfigErrorView>>;

impl AzureKeyvaultConfigSource {
    /// The address of the vault.
    pub closed spec fn url(&self) -> Seq<char> {
        self.keyvault_url@
    }

    /// The secrets read so far, in the order in which they came.
    pub closed spec fn secrets(&self) -> Seq<SecretEntry> {
        self.secrets@
    }

    /// Whether the listing of the vault was exhausted.
    pub closed spec fn complete(&self) -> bool {
        self.complete
    }

    /// The cause of the first failure, if the vault has failed.
    pub closed spec fn failure(&self) -> Option<Seq<char>> {
        self.failure.deep_view()
    }

    /// What the source contributes: the enabled secrets of a vault that was
    /// read to the end, and else the reason for which it contributes
    /// nothing.
    pub open spec fn collected(&self) -> Result<Mapping, ConfigErrorView> {
        match self.failure() {
            Some(cause) => Err(
                ConfigErrorView::Foreign(AzureKeyvaultConfigErrorView::Azure(cause)),
            ),
            None => if self.complete() {
                Ok(enabled_secrets(self.secrets()))
            } else {
                Err(ConfigErrorView::ConfigSource(self.url()))
            },
        }
    }

    /// A source for the vault at `keyvault_url`, with nothing read yet.
    pub fn new(keyvault_url: &str) -> (source: AzureKeyvaultConfigSource)
        ensures
            source.url() == keyvault_url@,
            source.secrets() == Seq::<SecretEntry>::empty(),
            !source.complete(),
            source.failure() is None,
    {
        AzureKeyvaultConfigSource {
            keyvault_url: keyvault_url.to_owned(),
            secrets: Vec::new(),
            complete: false,
            failure: None,
        }
    }

    /// The address of the vault.
    pub fn keyvault_url(&self) -> (r: &str)
        ensures
            r@ == self.url(),
    {
        self.keyvault_url.as_str()
    }

    /// The configuration key of the secret with identifier `id`: its simple
    /// name, without the path that leads to it.
    pub fn secret_key(id: &str) -> (key: String)
        ensures
            key@ == last_segment(id@),
    {
        last_path_segment(id)
    }

    /// Takes in one secret that the vault handed out.  Once the source has
    /// failed or was finished, nothing more is taken in.
    pub fn record(&mut self, secret: SecretEntry)
        ensures
            final(self).url() == old(self).url(),
            final(self).failure() == old(self).failure(),
            final(self).complete() == old(self).complete(),
            final(self).secrets() == if old(self).failure() is None && !old(self).complete() {
                old(self).secrets().push(secret)
            } else {
                old(self).secrets()
            },
    {
        if self.failure.is_none() && !self.complete {
            self.secrets.push(secret);
        }
    }

    /// Notes that the vault has handed out all that it holds.
    pub fn finish(&mut self)
        ensures
            final(self).url() == old(self).url(),
            final(self).failure() == old(self).failure(),
            final(self).secrets() == old(self).secrets(),
            final(self).complete(),
    {
        self.complete = true;
    }

    /// Notes that listing or reading the vault failed.  What was read before
    /// is dropped, and the first cause stays.
    pub fn fail(&mut self, cause: String)
        ensures
            final(self).url() == old(self).url(),
            final(self).complete() == old(self).complete(),
            final(self).secrets() == Seq::<SecretEntry>::empty(),
            final(self).failure() == Some(
                match old(self).failure() {
                    Some(first) => first,
                    None => cause@,
                },
            ),
    {
        self.secrets = Vec::new();
        if self.failure.is_none() {
            self.failure = Some(cause);
        }
    }

    /// The mapping that the vault contributes: the enabled secrets under
    /// their keys.  A vault that failed, or that was not read to the end,
    /// contributes nothing.
    pub fn collect(&self) -> (r: Result<ConfigMap, ConfigError>)
        ensures
            match self.collected() {
                Ok(secrets) => r matches Ok(m) && m@ == secrets,
                Err(error) => r matches Err(e) && e@ == error,
            },
    {
        if let Some(cause) = &self.failure {
            return Err(ConfigError::Foreign(AzureKeyvaultConfigError::Azure(cause.clone())));
        }
        if !self.complete {
            return Err(ConfigError::ConfigSource(self.keyvault_url.clone()));
        }
        let mut config = ConfigMap::new();
        let mut i: usize = 0;
        while i < self.secrets.len()
            invariant
                i <= self.secrets.len(),
                config@ == enabled_secrets(self.secrets@.take(i as int)),
            decreases self.secrets.len() - i,
        {
            proof {
                assert(self.secrets@.take(i + 1).drop_last() == self.secrets@.take(i as int));
            }
            let secret = &self.secrets[i];
            if secret.enabled {
                config.insert(secret.key.clone(), secret.value.clone());
            }
            i = i + 1;
        }
        proof {
            assert(self.secrets@.take(i as int) == self.secrets@);
        }
        Ok(config)
    }
}

/// The resolved configuration.
#[derive(Debug)]
pub struct Config {
    pub core: CoreConfig,
    pub tracing: tracing_controller::Config,
    pub sql_cns: String,
}

/// A `Config` as plain values.
pub struct ConfigView {
    pub core: CoreConfigView,
    pub tracing: tracing_controller::ConfigView,
    pub sql_cns: Seq<char>,
}

impl View for Config {
    type V = ConfigView;

    open spec fn view(&self) -> ConfigView {
        ConfigView { core: self.core@, tracing: self.tracing@, sql_cns: self.sql_cns@ }
    }
}

impl Clone for Config {
    fn clone(&self) -> (r: Self)
        ensures
            r == *self,
    {
        Config {
            core: self.core.clone(),
            tracing: self.tracing.clone(),
            sql_cns: self.sql_cns.clone(),
        }
    }
}

/// The configuration that a mapping holds, or the first key that is missing
/// or does not decode.
pub open spec fn decode_config(m: Mapping) -> Result<ConfigView, Seq<char>> {
    match decode_core(m) {
        Err(field) => Err(field),
        Ok(core) => match decode_tracing(m) {
            Err(field) => Err(field),
            Ok(tracing) => if m.contains_key(KEY_SQL_CNS@) {
                Ok(ConfigView { core, tracing, sql_cns: m[KEY_SQL_CNS@] })
            } else {
                Err(KEY_SQL_CNS@)
            },
        },
    }
}

/// `base` with `upper` laid over it, where there is an `upper`.
pub open spec fn overlaid(base: Mapping, upper: Option<Mapping>) -> Mapping {
    match upper {
        Some(upper) => base.union_prefer_right(upper),
        None => base,
    }
}

/// The merged view of the source stack, lowest priority first: shared
/// vault, private vault, local file, environment.
pub open spec fn merged_view(
    shared: Option<Mapping>,
    private: Option<Mapping>,
    file: Mapping,
    env: Mapping,
) -> Mapping {
    overlaid(overlaid(Map::empty(), shared), private).union_prefer_right(file).union_prefer_right(
        env,
    )
}

/// The part that one vault takes in the stack.  Without an address the
/// vault is left out, whatever was supplied for it; with an address its
/// contents are required.
pub open spec fn vault_layer(
    address: Option<Seq<char>>,
    supplied: Supplied,
) -> Result<Option<Mapping>, ConfigErrorView> {
    match address {
        None => Ok(None),
        Some(address) => match supplied {
            None => Err(ConfigErrorView::ConfigSource(address)),
            Some(Err(error)) => Err(error),
            Some(Ok(secrets)) => Ok(Some(secrets)),
        },
    }
}

/// The merged view of the source stack for the local file, the
/// environment and what was supplied for the two vaults, or why there is no
/// stack.
pub open spec fn stack_view(
    file: Mapping,
    env: Mapping,
    shared: Supplied,
    private: Supplied,
) -> Result<Mapping, ConfigErrorView> {
    match preinit_view(file, env) {
        Err(field) => Err(ConfigErrorView::MissingOrInvalidConfig(field)),
        Ok(preinit) => match vault_layer(preinit.shared_keyvault, shared) {
            Err(e) => Err(e),
            Ok(shared) => match vault_layer(preinit.private_keyvault, private) {
                Err(e) => Err(e),
                Ok(private) => Ok(merged_view(shared, private, file, env)),
            },
        },
    }
}

/// What resolution yields: the configuration that the merged view holds,
/// provided that its core configuration is the one that the file and the
/// environment gave at first.
pub open spec fn resolved(
    file: Mapping,
    env: Mapping,
    shared: Supplied,
    private: Supplied,
) -> Result<ConfigView, ConfigErrorView> {
    match stack_view(file, env, shared, private) {
        Err(e) => Err(e),
        Ok(merged) => match decode_config(merged) {
            Err(field) => Err(ConfigErrorView::MissingOrInvalidConfig(field)),
            Ok(config) => if preinit_view(file, env) == Ok::<CoreConfigView, Seq<char>>(
                config.core,
            ) {
                Ok(config)
            } else {
                Err(ConfigErrorView::Foreign(AzureKeyvaultConfigErrorView::PreinitMismatch))
            },
        },
    }
}

/// What a source that may be absent contributes.
pub open spec fn supplied(source: Option<&AzureKeyvaultConfigSource>) -> Supplied {
    match source {
        Some(source) => Some(source.collected()),
        None => None,
    }
}

/// Collects the vault at `address`, where there is an address.
fn collect_vault(address: &Option<String>, source: Option<&AzureKeyvaultConfigSource>) -> (r: Result<
    Option<ConfigMap>,
    ConfigError,
>)
    ensures
        match vault_layer(address.deep_view(), supplied(source)) {
            Ok(layer) => r matches Ok(l) && l.deep_view() == layer,
            Err(error) => r matches Err(e) && e@ == error,
        },
{
    match address {
        None => Ok(None),
        Some(address) => match source {
            None => Err(ConfigError::ConfigSource(address.clone())),
            Some(source) => match source.collect() {
                Ok(secrets) => Ok(Some(secrets)),
                Err(e) => Err(e),
            },
        },
    }
}

/// Merges the source stack, lowest priority first: shared vault, private
/// vault, local file, environment.  A vault that is not given is not part
/// of the stack.
pub fn merge_stack(
    shared: Option<&ConfigMap>,
    private: Option<&ConfigMap>,
    file: &ConfigMap,
    env: &ConfigMap,
) -> (merged: ConfigMap)
    ensures
        merged@ == merged_view(shared.deep_view(), private.deep_view(), file@, env@),
{
    let mut merged = ConfigMap::new();
    if let Some(shared) = shared {
        merged.overlay(shared);
    }
    if let Some(private) = private {
        merged.overlay(private);
    }
    merged.overlay(file);
    merged.overlay(env);
    merged
}

/// The keys that the configuration is read from.
pub open spec fn schema_keys() -> Seq<Seq<char>> {
    seq![
        KEY_SLOT@,
        KEY_STAGE@,
        KEY_SHARED_KEYVAULT@,
        KEY_PRIVATE_KEYVAULT@,
        tracing_controller::KEY_ALLOW_RECONFIGURE@,
        tracing_controller::KEY_TELEMETRY_TYPE@,
        tracing_controller::KEY_INSTRUMENTATION_KEY@,
        KEY_SQL_CNS@,
    ]
}

impl Config {
    /// The keys that the configuration is read from.  What a source binds
    /// under other keys has no part in the result.
    pub fn keys() -> (keys: Vec<&'static str>)
        ensures
            keys@.map_values(|key: &'static str| key@) == schema_keys(),
    {
        let mut keys: Vec<&'static str> = Vec::new();
        keys.push(KEY_SLOT);
        keys.push(KEY_STAGE);
        keys.push(KEY_SHARED_KEYVAULT);
        keys.push(KEY_PRIVATE_KEYVAULT);
        keys.push(tracing_controller::KEY_ALLOW_RECONFIGURE);
        keys.push(tracing_controller::KEY_TELEMETRY_TYPE);
        keys.push(tracing_controller::KEY_INSTRUMENTATION_KEY);
        keys.push(KEY_SQL_CNS);
        keys
    }

    /// Reads the whole configuration out of a flat mapping.
    pub fn decode(map: &ConfigMap) -> (r: Result<Config, ConfigError>)
        ensures
            match decode_config(map@) {
                Ok(config) => r matches Ok(c) && c@ == config,
                Err(field) => r matches Err(e) && e@ == ConfigErrorView::MissingOrInvalidConfig(
                    field,
                ),
            },
    {
        let core = match CoreConfig::decode(map) {
            Ok(core) => core,
            Err(e) => {
                return Err(e);
            },
        };
        let tracing = match tracing_controller::Config::decode(map) {
            Ok(tracing) => tracing,
            Err(e) => {
                return Err(e);
            },
        };
        match map.get(KEY_SQL_CNS) {
            Some(sql_cns) => Ok(Config { core, tracing, sql_cns: sql_cns.clone() }),
            None => Err(ConfigError::MissingOrInvalidConfig(KEY_SQL_CNS.to_owned())),
        }
    }

    /// Resolves the configuration.
    ///
    /// The core configuration is first read from the file and the
    /// environment alone.  For each vault that it names, the source for that
    /// vault is collected; a vault that it does not name is left out of the
    /// stack.  The stack is merged and decoded, and the result stands only
    /// if its core configuration is the one read at first.
    pub fn new(
        file: &ConfigMap,
        env: &ConfigMap,
        shared_keyvault: Option<&AzureKeyvaultConfigSource>,
        private_keyvault: Option<&AzureKeyvaultConfigSource>,
    ) -> (r: Result<Config, ConfigError>)
        ensures
            match resolved(file@, env@, supplied(shared_keyvault), supplied(private_keyvault)) {
                Ok(config) => r matches Ok(c) && c@ == config,
                Err(error) => r matches Err(e) && e@ == error,
            },
    {
        let preinit = match PreinitConfig::new(file, env) {
            Ok(preinit) => preinit,
            Err(e) => {
                return Err(e);
            },
        };
        let shared = match collect_vault(&preinit.core.shared_keyvault, shared_keyvault) {
            Ok(shared) => shared,
            Err(e) => {
                return Err(e);
            },
        };
        let private = match collect_vault(&preinit.core.private_keyvault, private_keyvault) {
            Ok(private) => private,
            Err(e) => {
                return Err(e);
            },
        };
        let merged = merge_stack(shared.as_ref(), private.as_ref(), file, env);
        let config = match Config::decode(&merged) {
            Ok(config) => config,
            Err(e) => {
                return Err(e);
            },
        };
        if preinit.core != config.core {
            return Err(ConfigError::Foreign(AzureKeyvaultConfigError::PreinitMismatch));
        }
        Ok(config)
    }
}

/// Where the merged view decodes and its core configuration is the one that
/// the file and the environment gave at first, resolution succeeds with
/// what the merged view holds.
pub proof fn lemma_agreeing_core_resolves(
    file: Mapping,
    env: Mapping,
    shared: Supplied,
    private: Supplied,
)
    requires
        stack_view(file, env, shared, private) is Ok,
        decode_config(stack_view(file, env, shared, private)->Ok_0) is Ok,
        preinit_view(file, env) == Ok::<CoreConfigView, Seq<char>>(
            decode_config(stack_view(file, env, shared, private)->Ok_0)->Ok_0.core,
        ),
    ensures
        resolved(file, env, shared, private) == Ok::<ConfigView, ConfigErrorView>(
            decode_config(stack_view(file, env, shared, private)->Ok_0)->Ok_0,
        ),
{
}

/// Whatever resolution yields has the core configuration that the file and
/// the environment gave at first.
pub proof fn lemma_resolution_keeps_core(
    file: Mapping,
    env: Mapping,
    shared: Supplied,
    private: Supplied,
)
    requires
        resolved(file, env, shared, private) is Ok,
    ensures
        preinit_view(file, env) == Ok::<CoreConfigView, Seq<char>>(
            resolved(file, env, shared, private)->Ok_0.core,
        ),
{
}

/// Where the merged view decodes to another core configuration than the
/// file and the environment gave at first, resolution fails with
/// `PreinitMismatch`.
pub proof fn lemma_disagreeing_core_fails(
    file: Mapping,
    env: Mapping,
    shared: Supplied,
    private: Supplied,
)
    requires
        stack_view(file, env, shared, private) is Ok,
        decode_config(stack_view(file, env, shared, private)->Ok_0) is Ok,
        preinit_view(file, env) != Ok::<CoreConfigView, Seq<char>>(
            decode_config(stack_view(file, env, shared, private)->Ok_0)->Ok_0.core,
        ),
    ensures
        resolved(file, env, shared, private) == Err::<ConfigView, ConfigErrorView>(
            ConfigErrorView::Foreign(AzureKeyvaultConfigErrorView::PreinitMismatch),
        ),
{
}

/// Two mappings that bind the keys of the schema alike hold the same
/// configuration.
pub proof fn lemma_decode_reads_schema_keys(a: Mapping, b: Mapping)
    requires
        forall|i: int|
            0 <= i < schema_keys().len() ==> a.get(#[trigger] schema_keys()[i]) == b.get(
                schema_keys()[i],
            ),
    ensures
        decode_config(a) == decode_config(b),
        decode_core(a) == decode_core(b),
{
    assert(a.get(schema_keys()[0]) == b.get(schema_keys()[0]));
    assert(a.get(schema_keys()[1]) == b.get(schema_keys()[1]));
    assert(a.get(schema_keys()[2]) == b.get(schema_keys()[2]));
    assert(a.get(schema_keys()[3]) == b.get(schema_keys()[3]));
    assert(a.get(schema_keys()[4]) == b.get(schema_keys()[4]));
    assert(a.get(schema_keys()[5]) == b.get(schema_keys()[5]));
    assert(a.get(schema_keys()[6]) == b.get(schema_keys()[6]));
    assert(a.get(schema_keys()[7]) == b.get(schema_keys()[7]));
}

/// The value of a key in the merged view is the one of the highest source
/// that binds it: the environment before the file, the file before the
/// private vault, the private vault before the shared one.  A key that no
/// source binds is not bound.
pub proof fn lemma_precedence(
    shared: Option<Mapping>,
    private: Option<Mapping>,
    file: Mapping,
    env: Mapping,
    key: Seq<char>,
)
    ensures
        merged_view(shared, private, file, env).get(key) == if env.contains_key(key) {
            Some(env[key])
        } else if file.contains_key(key) {
            Some(file[key])
        } else if private is Some && private->0.contains_key(key) {
            Some(private->0[key])
        } else if shared is Some && shared->0.contains_key(key) {
            Some(shared->0[key])
        } else {
            None
        },
{
}

/// A secret in the mapping that a vault contributes was handed out
/// enabled, under that key and with that value.
pub proof fn lemma_collected_secret_is_enabled(secrets: Seq<SecretEntry>, key: Seq<char>)
    requires
        enabled_secrets(secrets).contains_key(key),
    ensures
        exists|i: int|
            0 <= i < secrets.len() && (#[trigger] secrets[i]).enabled && secrets[i].key@ == key
                && secrets[i].value@ == enabled_secrets(secrets)[key],
    decreases secrets.len(),
{
    if secrets.len() > 0 {
        let last = secrets.len() - 1;
        if secrets[last].enabled && secrets[last].key@ == key {
            assert(secrets[last].value@ == enabled_secrets(secrets)[key]);
        } else {
            lemma_collected_secret_is_enabled(secrets.drop_last(), key);
            let i = choose|i: int|
                0 <= i < secrets.drop_last().len() && (#[trigger] secrets.drop_last()[i]).enabled
                    && secrets.drop_last()[i].key@ == key && secrets.drop_last()[i].value@
                    == enabled_secrets(secrets.drop_last())[key];
            assert(secrets[i] == secrets.drop_last()[i]);
        }
    }
}

/// A key under which the vault hands out disabled secrets only is not in
/// the mapping that the vault contributes.
pub proof fn lemma_disabled_secrets_stay_out(secrets: Seq<SecretEntry>, key: Seq<char>)
    requires
        forall|i: int|
            0 <= i < secrets.len() && (#[trigger] secrets[i]).key@ == key ==> !secrets[i].enabled,
    ensures
        !enabled_secrets(secrets).contains_key(key),
{
    if enabled_secrets(secrets).contains_key(key) {
        lemma_collected_secret_is_enabled(secrets, key);
    }
}

/// What the secrets read from a vault contribute, where the vault was read.
pub open spec fn contribution(secrets: Option<Seq<SecretEntry>>) -> Option<
    Mapping,
> {
    match secrets {
        Some(secrets) => Some(enabled_secrets(secrets)),
        None => None,
    }
}

/// Whether every secret under `key` is disabled, where the vault was read.
pub open spec fn all_disabled(secrets: Option<Seq<SecretEntry>>, key: Seq<char>) -> bool {
    secrets matches Some(secrets) ==> forall|i: int|
        0 <= i < secrets.len() && (#[trigger] secrets[i]).key@ == key ==> !secrets[i].enabled
}

/// A key that the file and the environment do not bind, and under which
/// the vaults hand out disabled secrets only, is not in the merged view.
pub proof fn lemma_disabled_secrets_stay_out_of_merged_view(
    shared: Option<Seq<SecretEntry>>,
    private: Option<Seq<SecretEntry>>,
    file: Mapping,
    env: Mapping,
    key: Seq<char>,
)
    requires
        all_disabled(shared, key),
        all_disabled(private, key),
        !file.contains_key(key),
        !env.contains_key(key),
    ensures
        !merged_view(contribution(shared), contribution(private), file, env).contains_key(key),
{
    if let Some(secrets) = shared {
        lemma_disabled_secrets_stay_out(secrets, key);
    }
    if let Some(secrets) = private {
        lemma_disabled_secrets_stay_out(secrets, key);
    }
}

} // verus!
