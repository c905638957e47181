//! How a leader is configured.
use vstd::prelude::*;
use vstd::string::StringExecFns;

use crate::float_bits;

verus! {

/// The default of [`KvbmLeaderConfig::world_size`].
pub const DEFAULT_WORLD_SIZE: usize = 1;

/// The default of [`KvbmLeaderConfig::leader_init_timeout_secs`].
pub const DEFAULT_LEADER_INIT_TIMEOUT_SECS: u64 = 120;

/// The default of [`KvbmLeaderConfig::leader_pub_url`].
pub const DEFAULT_LEADER_PUB_URL: &'static str = "tcp://127.0.0.1:56001";

/// The default of [`KvbmLeaderConfig::leader_ack_url`].
pub const DEFAULT_LEADER_ACK_URL: &'static str = "tcp://127.0.0.1:56002";

/// How many blocks a cache tier has.
#[derive(Debug, Clone, Copy, PartialEq, Eq, Structural)]
pub struct KvbmLeaderNumBlocksConfig {
    /// The size of the cache in gigabytes, as the bits of an `f64`.
    pub cache_size_in_gb_bits: u64,
    /// The number of blocks, where it is given directly and not zero.
    pub num_blocks_overriden: usize,
}

impl Default for KvbmLeaderNumBlocksConfig {
    /// A tier without blocks.
    fn default() -> (config: Self)
        ensures
            config.cache_size_in_gb_bits == 0,
            config.num_blocks_overriden == 0,
    {
        KvbmLeaderNumBlocksConfig { cache_size_in_gb_bits: 0, num_blocks_overriden: 0 }
    }
}

impl KvbmLeaderNumBlocksConfig {
    /// Whether the tier has been given a size.
    #[verifier::allow_in_spec]
    pub fn is_configured(&self) -> bool
        returns
            self.num_blocks_overriden > 0 || float_bits::is_positive_f64(
                self.cache_size_in_gb_bits,
            ),
    {
        self.num_blocks_overriden > 0 || float_bits::is_positive_f64(self.cache_size_in_gb_bits)
    }
}

/// The number of blocks of a tier. `blocks_of_cache_size` is how many blocks fit
/// into the cache size.
#[verifier::allow_in_spec]
pub fn compute_num_blocks(
    num_blocks_config: &KvbmLeaderNumBlocksConfig,
    blocks_of_cache_size: usize,
) -> usize
    returns
        if num_blocks_config.num_blocks_overriden > 0 {
            num_blocks_config.num_blocks_overriden
        } else {
            blocks_of_cache_size
        },
{
    if num_blocks_config.num_blocks_overriden > 0 {
        num_blocks_config.num_blocks_overriden
    } else {
        blocks_of_cache_size
    }
}

/// Builds a [`KvbmLeaderNumBlocksConfig`].
#[derive(Debug, Clone, Copy)]
pub struct KvbmLeaderNumBlocksConfigBuilder {
    pub cache_size_in_gb_bits: Option<u64>,
    pub num_blocks_overriden: Option<usize>,
}

impl Default for KvbmLeaderNumBlocksConfigBuilder {
    /// A builder to which nothing was given.
    fn default() -> (builder: Self)
        ensures
            builder.cache_size_in_gb_bits is None,
            builder.num_blocks_overriden is None,
    {
        KvbmLeaderNumBlocksConfigBuilder { cache_size_in_gb_bits: None, num_blocks_overriden: None }
    }
}

impl KvbmLeaderNumBlocksConfigBuilder {
    /// Sets the size of the cache.
    pub fn cache_size_in_gb_bits(self, bits: u64) -> (builder: Self)
        ensures
            builder == (KvbmLeaderNumBlocksConfigBuilder {
                cache_size_in_gb_bits: Some(bits),
                ..self
            }),
    {
        KvbmLeaderNumBlocksConfigBuilder { cache_size_in_gb_bits: Some(bits), ..self }
    }

    /// Sets the number of blocks.
    pub fn num_blocks_overriden(self, num_blocks: usize) -> (builder: Self)
        ensures
            builder == (KvbmLeaderNumBlocksConfigBuilder {
                num_blocks_overriden: Some(num_blocks),
                ..self
            }),
    {
        KvbmLeaderNumBlocksConfigBuilder { num_blocks_overriden: Some(num_blocks), ..self }
    }

    /// Builds the configuration; what was not given is zero.
    pub fn build(self) -> (config: KvbmLeaderNumBlocksConfig)
        ensures
            config.cache_size_in_gb_bits == self.cache_size_in_gb_bits.unwrap_or(0),
            config.num_blocks_overriden == self.num_blocks_overriden.unwrap_or(0),
    {
        KvbmLeaderNumBlocksConfig {
            cache_size_in_gb_bits: self.cache_size_in_gb_bits.unwrap_or(0),
            num_blocks_overriden: self.num_blocks_overriden.unwrap_or(0),
        }
    }
}

/// The configuration of a leader. `C` is the object storage configuration.
#[derive(Debug)]
pub struct KvbmLeaderConfig<C> {
    /// The world size.
    pub world_size: usize,
    /// The leader-worker init connection timeout seconds.
    pub leader_init_timeout_secs: u64,
    pub host_blocks_config: KvbmLeaderNumBlocksConfig,
    pub disk_blocks_config: KvbmLeaderNumBlocksConfig,
    /// Object storage configuration.
    pub object_storage_config: Option<C>,
    pub leader_pub_url: String,
    pub leader_ack_url: String,
}

/// Whether one optional value is a clone of another.
pub open spec fn is_clone_of<T: Clone>(value: Option<T>, copy: Option<T>) -> bool {
    match (value, copy) {
        (Some(value), Some(copy)) => cloned(value, copy),
        (None, None) => true,
        _ => false,
    }
}

impl<C: Clone> Clone for KvbmLeaderConfig<C> {
    fn clone(&self) -> (copy: Self)
        ensures
            copy == (KvbmLeaderConfig {
                object_storage_config: copy.object_storage_config,
                ..*self
            }),
            is_clone_of(self.object_storage_config, copy.object_storage_config),
    {
        KvbmLeaderConfig {
            world_size: self.world_size,
            leader_init_timeout_secs: self.leader_init_timeout_secs,
            host_blocks_config: self.host_blocks_config,
            disk_blocks_config: self.disk_blocks_config,
            object_storage_config: match &self.object_storage_config {
                Some(config) => Some(config.clone()),
                None => None,
            },
            leader_pub_url: self.leader_pub_url.clone(),
            leader_ack_url: self.leader_ack_url.clone(),
        }
    }
}

/// Why a configuration is refused.
#[derive(Debug, Clone, Copy, PartialEq, Eq, Structural)]
pub enum ConfigError {
    /// Both URLs are the same.
    SameUrl,
}

impl ConfigError {
    /// What the error says.
    pub open spec fn text(self) -> Seq<char> {
        "leader_pub_url and leader_ack_url must differ (same endpoint would fail to bind)."@
    }

    /// What the error says.
    pub fn message(&self) -> (message: String)
        ensures
            message@ == self.text(),
    {
        "leader_pub_url and leader_ack_url must differ (same endpoint would fail to bind).".to_owned()
    }
}

/// Whether object storage is used as a cache tier.
#[verifier::allow_in_spec]
pub fn object_tier_configured(offload_enabled: bool, num_object_blocks: usize) -> bool
    returns
        offload_enabled && num_object_blocks > 0,
{
    offload_enabled && num_object_blocks > 0
}

impl<C> KvbmLeaderConfig<C> {
    /// Starts to build a configuration.
    pub fn builder() -> (builder: KvbmLeaderConfigBuilder<C>)
        ensures
            builder.is_empty(),
    {
        KvbmLeaderConfigBuilder::default()
    }

    /// Whether some cache tier has been given a size.
    #[verifier::allow_in_spec]
    pub fn cache_tier_configured(
        &self,
        object_offload_enabled: bool,
        num_object_blocks: usize,
    ) -> bool
        returns
            self.host_blocks_config.is_configured() || self.disk_blocks_config.is_configured()
                || object_tier_configured(object_offload_enabled, num_object_blocks),
    {
        self.host_blocks_config.is_configured() || self.disk_blocks_config.is_configured()
            || object_tier_configured(object_offload_enabled, num_object_blocks)
    }

    /// Checks that a leader can run with this configuration: the two URLs differ.
    /// A configuration with different URLs has to have some cache tier.
    pub fn sanity_check(
        &self,
        object_offload_enabled: bool,
        num_object_blocks: usize,
    ) -> (checked: Result<(), ConfigError>)
        requires
            self.leader_pub_url@ == self.leader_ack_url@ || self.cache_tier_configured(
                object_offload_enabled,
                num_object_blocks,
            ),
        ensures
            checked == (if self.leader_pub_url@ == self.leader_ack_url@ {
                Err::<(), ConfigError>(ConfigError::SameUrl)
            } else {
                Ok::<(), ConfigError>(())
            }),
    {
        if self.leader_pub_url == self.leader_ack_url {
            return Err(ConfigError::SameUrl);
        }
        Ok(())
    }
}

/// Builds a [`KvbmLeaderConfig`].
#[derive(Debug)]
pub struct KvbmLeaderConfigBuilder<C> {
    pub world_size: Option<usize>,
    pub leader_init_timeout_secs: Option<u64>,
    pub host_blocks_config: Option<KvbmLeaderNumBlocksConfig>,
    pub disk_blocks_config: Option<KvbmLeaderNumBlocksConfig>,
    pub object_storage_config: Option<Option<C>>,
    pub leader_pub_url: Option<String>,
    pub leader_ack_url: Option<String>,
}

impl<C> Default for KvbmLeaderConfigBuilder<C> {
    /// A builder to which nothing was given.
    fn default() -> (builder: Self)
        ensures
            builder.is_empty(),
    {
        KvbmLeaderConfigBuilder {
            world_size: None,
            leader_init_timeout_secs: None,
            host_blocks_config: None,
            disk_blocks_config: None,
            object_storage_config: None,
            leader_pub_url: None,
            leader_ack_url: None,
        }
    }
}

impl<C: Clone> Clone for KvbmLeaderConfigBuilder<C> {
    fn clone(&self) -> (copy: Self)
        ensures
            copy == (KvbmLeaderConfigBuilder {
                object_storage_config: copy.object_storage_config,
                ..*self
            }),
            match (self.object_storage_config, copy.object_storage_config) {
                (Some(given), Some(copied)) => is_clone_of(given, copied),
                (None, None) => true,
                _ => false,
            },
    {
        KvbmLeaderConfigBuilder {
            world_size: self.world_size,
            leader_init_timeout_secs: self.leader_init_timeout_secs,
            host_blocks_config: self.host_blocks_config,
            disk_blocks_config: self.disk_blocks_config,
            object_storage_config: match &self.object_storage_config {
                Some(Some(config)) => Some(Some(config.clone())),
                Some(None) => Some(None),
                None => None,
            },
            leader_pub_url: match &self.leader_pub_url {
                Some(url) => Some(url.clone()),
                None => None,
            },
            leader_ack_url: match &self.leader_ack_url {
                Some(url) => Some(url.clone()),
                None => None,
            },
        }
    }
}

/// What was given for a text, or what it is otherwise.
pub open spec fn text_or(given: Option<String>, otherwise: Seq<char>) -> Seq<char> {
    match given {
        Some(text) => text@,
        None => otherwise,
    }
}

impl<C> KvbmLeaderConfigBuilder<C> {
    /// Whether nothing was given yet.
    pub open spec fn is_empty(self) -> bool {
        &&& self.world_size is None
        &&& self.leader_init_timeout_secs is None
        &&& self.host_blocks_config is None
        &&& self.disk_blocks_config is None
        &&& self.object_storage_config is None
        &&& self.leader_pub_url is None
        &&& self.leader_ack_url is None
    }

    /// Sets the world size.
    pub fn world_size(self, world_size: usize) -> (builder: Self)
        ensures
            builder == (KvbmLeaderConfigBuilder { world_size: Some(world_size), ..self }),
    {
        KvbmLeaderConfigBuilder { world_size: Some(world_size), ..self }
    }

    /// Sets the timeout for the workers to connect.
    pub fn leader_init_timeout_secs(self, secs: u64) -> (builder: Self)
        ensures
            builder == (KvbmLeaderConfigBuilder { leader_init_timeout_secs: Some(secs), ..self }),
    {
        KvbmLeaderConfigBuilder { leader_init_timeout_secs: Some(secs), ..self }
    }

    /// Sets the size of the host tier.
    pub fn host_blocks_config(self, config: KvbmLeaderNumBlocksConfig) -> (builder: Self)
        ensures
            builder == (KvbmLeaderConfigBuilder { host_blocks_config: Some(config), ..self }),
    {
        KvbmLeaderConfigBuilder { host_blocks_config: Some(config), ..self }
    }

    /// Sets the size of the disk tier.
    pub fn disk_blocks_config(self, config: KvbmLeaderNumBlocksConfig) -> (builder: Self)
        ensures
            builder == (KvbmLeaderConfigBuilder { disk_blocks_config: Some(config), ..self }),
    {
        KvbmLeaderConfigBuilder { disk_blocks_config: Some(config), ..self }
    }

    /// Sets the object storage configuration.
    pub fn object_storage_config(self, config: Option<C>) -> (builder: Self)
        ensures
            builder == (KvbmLeaderConfigBuilder { object_storage_config: Some(config), ..self }),
    {
        KvbmLeaderConfigBuilder { object_storage_config: Some(config), ..self }
    }

    /// Sets the URL on which the leader publishes.
    pub fn leader_pub_url(self, url: String) -> (builder: Self)
        ensures
            builder == (KvbmLeaderConfigBuilder { leader_pub_url: Some(url), ..self }),
    {
        KvbmLeaderConfigBuilder { leader_pub_url: Some(url), ..self }
    }

    /// Sets the URL on which the leader is acknowledged.
    pub fn leader_ack_url(self, url: String) -> (builder: Self)
        ensures
            builder == (KvbmLeaderConfigBuilder { leader_ack_url: Some(url), ..self }),
    {
        KvbmLeaderConfigBuilder { leader_ack_url: Some(url), ..self }
    }

    /// Builds the configuration. `object_storage_default` is the object storage
    /// configuration where none was given.
    pub fn build(self, object_storage_default: Option<C>) -> (config: KvbmLeaderConfig<C>)
        ensures
            config.world_size == self.world_size.unwrap_or(DEFAULT_WORLD_SIZE),
            config.leader_init_timeout_secs == self.leader_init_timeout_secs.unwrap_or(
                DEFAULT_LEADER_INIT_TIMEOUT_SECS,
            ),
            config.host_blocks_config == self.host_blocks_config.unwrap_or(
                KvbmLeaderNumBlocksConfig { cache_size_in_gb_bits: 0, num_blocks_overriden: 0 },
            ),
            config.disk_blocks_config == self.disk_blocks_config.unwrap_or(
                KvbmLeaderNumBlocksConfig { cache_size_in_gb_bits: 0, num_blocks_overriden: 0 },
            ),
            config.object_storage_config == self.object_storage_config.unwrap_or(
                object_storage_default,
            ),
            config.leader_pub_url@ == text_or(self.leader_pub_url, DEFAULT_LEADER_PUB_URL@),
            config.leader_ack_url@ == text_or(self.leader_ack_url, DEFAULT_LEADER_ACK_URL@),
    {
        KvbmLeaderConfig {
            world_size: self.world_size.unwrap_or(DEFAULT_WORLD_SIZE),
            leader_init_timeout_secs: self.leader_init_timeout_secs.unwrap_or(
                DEFAULT_LEADER_INIT_TIMEOUT_SECS,
            ),
            host_blocks_config: match self.host_blocks_config {
                Some(config) => config,
                None => KvbmLeaderNumBlocksConfig::default(),
            },
            disk_blocks_config: match self.disk_blocks_config {
                Some(config) => config,
                None => KvbmLeaderNumBlocksConfig::default(),
            },
            object_storage_config: match self.object_storage_config {
                Some(config) => config,
                None => object_storage_default,
            },
            leader_pub_url: match self.leader_pub_url {
                Some(url) => url,
                None => DEFAULT_LEADER_PUB_URL.to_owned(),
            },
            leader_ack_url: match self.leader_ack_url {
                Some(url) => url,
                None => DEFAULT_LEADER_ACK_URL.to_owned(),
            },
        }
    }
}

/// A configuration that is built without URLs has two that differ.
pub proof fn default_urls_differ<C>(builder: KvbmLeaderConfigBuilder<C>)
    requires
        builder.leader_pub_url is None,
        builder.leader_ack_url is None,
    ensures
        text_or(builder.leader_pub_url, DEFAULT_LEADER_PUB_URL@) != text_or(
            builder.leader_ack_url,
            DEFAULT_LEADER_ACK_URL@,
        ),
{
    reveal_strlit("tcp://127.0.0.1:56001");
    reveal_strlit("tcp://127.0.0.1:56002");
    assert(DEFAULT_LEADER_PUB_URL@[20] != DEFAULT_LEADER_ACK_URL@[20]);
}

/// A number of blocks that is given directly decides over the cache size; a number of
/// zero stands for none given.
pub proof fn a_given_number_of_blocks_decides(
    config: KvbmLeaderNumBlocksConfig,
    blocks_of_cache_size: usize,
)
    ensures
        config.num_blocks_overriden > 0 ==> compute_num_blocks(&config, blocks_of_cache_size)
            == config.num_blocks_overriden,
        config.num_blocks_overriden == 0 ==> compute_num_blocks(&config, blocks_of_cache_size)
            == blocks_of_cache_size,
        config.num_blocks_overriden > 0 ==> config.is_configured(),
        config.num_blocks_overriden == 0 ==> config.is_configured() == float_bits::is_positive_f64(
            config.cache_size_in_gb_bits,
        ),
{
}

/// Any one tier is enough: the host, the disk, or object storage that is both enabled
/// and has blocks.
pub proof fn any_tier_is_enough<C>(
    config: KvbmLeaderConfig<C>,
    offload_enabled: bool,
    num_object_blocks: usize,
)
    ensures
        config.host_blocks_config.is_configured() ==> config.cache_tier_configured(
            offload_enabled,
            num_object_blocks,
        ),
        config.disk_blocks_config.is_configured() ==> config.cache_tier_configured(
            offload_enabled,
            num_object_blocks,
        ),
        offload_enabled && num_object_blocks > 0 ==> config.cache_tier_configured(
            offload_enabled,
            num_object_blocks,
        ) && object_tier_configured(offload_enabled, num_object_blocks),
        !offload_enabled || num_object_blocks == 0 ==> !object_tier_configured(
            offload_enabled,
            num_object_blocks,
        ),
        !config.host_blocks_config.is_configured() && !config.disk_blocks_config.is_configured()
            && (!offload_enabled || num_object_blocks == 0) ==> !config.cache_tier_configured(
            offload_enabled,
            num_object_blocks,
        ),
{
}

/// A text that is given is used as it is, however it reads; otherwise the other one is.
pub proof fn a_given_text_is_used(given: String, otherwise: Seq<char>)
    ensures
        text_or(Some(given), otherwise) == given@,
        text_or(None, otherwise) == otherwise,
{
}

/// A clone is there exactly where the value is, and is a clone of that value.
pub proof fn a_clone_is_there_where_the_value_is<T: Clone>(value: Option<T>, copy: Option<T>)
    requires
        is_clone_of(value, copy),
    ensures
        value is Some <==> copy is Some,
        value is Some ==> cloned(value->0, copy->0),
{
}

/// In an empty builder every option is left to its default.
pub proof fn an_empty_builder_leaves_all_to_the_defaults<C>(builder: KvbmLeaderConfigBuilder<C>)
    ensures
        builder.is_empty() <==> builder == (KvbmLeaderConfigBuilder::<C> {
            world_size: None,
            leader_init_timeout_secs: None,
            host_blocks_config: None,
            disk_blocks_config: None,
            object_storage_config: None,
            leader_pub_url: None,
            leader_ack_url: None,
        }),
{
}

} // verus!
