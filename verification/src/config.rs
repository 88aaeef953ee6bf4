//! The sidecar's configuration and how it is read from environment
//! variables.

use crate::text::{parse_decimal_u16, parse_u16, str_eq};
use vstd::prelude::*;

verus! {

/// What the sidecar needs to know about the registry.
#[derive(Debug, PartialEq, Eq)]
pub struct ConfigConsul {
    /// Base URL of the local registry agent, protocol included.
    pub agent_url: String,
    /// Prefix of the key under which this node's override flag is stored.
    pub kv_prefix: String,
    /// Name under which the node registers its service.
    pub service_name: String,
    /// Address that the node advertises for its service.
    pub service_address: String,
}

/// The mathematical value of a [`ConfigConsul`].
pub struct ConfigConsulView {
    pub agent_url: Seq<char>,
    pub kv_prefix: Seq<char>,
    pub service_name: Seq<char>,
    pub service_address: Seq<char>,
}

impl View for ConfigConsul {
    type V = ConfigConsulView;

    open spec fn view(&self) -> ConfigConsulView {
        ConfigConsulView {
            agent_url: self.agent_url@,
            kv_prefix: self.kv_prefix@,
            service_name: self.service_name@,
            service_address: self.service_address@,
        }
    }
}

/// Where the sidecar listens, and the optional local reverse proxy.
#[derive(Debug, PartialEq, Eq)]
pub struct ConfigHttp {
    pub address: String,
    pub port: u16,
    /// Base URL of the local reverse proxy; `None` switches its probe off.
    pub reverse_proxy: Option<String>,
}

/// The mathematical value of a [`ConfigHttp`].
pub struct ConfigHttpView {
    pub address: Seq<char>,
    pub port: u16,
    pub reverse_proxy: Option<Seq<char>>,
}

impl View for ConfigHttp {
    type V = ConfigHttpView;

    open spec fn view(&self) -> ConfigHttpView {
        ConfigHttpView {
            address: self.address@,
            port: self.port,
            reverse_proxy: match self.reverse_proxy {
                Some(addr) => Some(addr@),
                None => None,
            },
        }
    }
}

/// The whole configuration; fixed once the sidecar has started.
#[derive(Debug, PartialEq, Eq)]
pub struct BalancerConfig {
    /// This node's own hostname.
    pub hostname: String,
    /// Base URL of the external entry point.
    pub external_url: String,
    pub consul: ConfigConsul,
    pub http: ConfigHttp,
}

/// The mathematical value of a [`BalancerConfig`].
pub struct BalancerConfigView {
    pub hostname: Seq<char>,
    pub external_url: Seq<char>,
    pub consul: ConfigConsulView,
    pub http: ConfigHttpView,
}

impl View for BalancerConfig {
    type V = BalancerConfigView;

    open spec fn view(&self) -> BalancerConfigView {
        BalancerConfigView {
            hostname: self.hostname@,
            external_url: self.external_url@,
            consul: self.consul@,
            http: self.http@,
        }
    }
}

impl Clone for ConfigConsul {
    fn clone(&self) -> (copy: Self)
        ensures
            copy@ == self@,
    {
        ConfigConsul {
            agent_url: self.agent_url.clone(),
            kv_prefix: self.kv_prefix.clone(),
            service_name: self.service_name.clone(),
            service_address: self.service_address.clone(),
        }
    }
}

impl Clone for ConfigHttp {
    fn clone(&self) -> (copy: Self)
        ensures
            copy@ == self@,
    {
        ConfigHttp {
            address: self.address.clone(),
            port: self.port,
            reverse_proxy: match &self.reverse_proxy {
                Some(addr) => Some(addr.clone()),
                None => None,
            },
        }
    }
}

impl Clone for BalancerConfig {
    fn clone(&self) -> (copy: Self)
        ensures
            copy@ == self@,
    {
        BalancerConfig {
            hostname: self.hostname.clone(),
            external_url: self.external_url.clone(),
            consul: self.consul.clone(),
            http: self.http.clone(),
        }
    }
}

/// The settings that the environment can provide, one variable each.
#[derive(Clone, Copy, Debug, PartialEq, Eq, Structural)]
pub enum Setting {
    Hostname,
    ExternalUrl,
    ConsulAgentUrl,
    ConsulKvPrefix,
    ConsulServiceName,
    ConsulServiceAddress,
    HttpAddress,
    HttpPort,
    HttpReverseProxy,
}

impl Setting {
    /// The name of the environment variable that holds the setting.
    pub open spec fn key(self) -> Seq<char> {
        match self {
            Setting::Hostname => "BALANCER_HOSTNAME"@,
            Setting::ExternalUrl => "BALANCER_EXTERNAL_URL"@,
            Setting::ConsulAgentUrl => "BALANCER_CONSUL_AGENT_URL"@,
            Setting::ConsulKvPrefix => "BALANCER_CONSUL_KV_PREFIX"@,
            Setting::ConsulServiceName => "BALANCER_CONSUL_SERVICE_NAME"@,
            Setting::ConsulServiceAddress => "BALANCER_CONSUL_SERVICE_ADDRESS"@,
            Setting::HttpAddress => "BALANCER_HTTP_ADDRESS"@,
            Setting::HttpPort => "BALANCER_HTTP_PORT"@,
            Setting::HttpReverseProxy => "BALANCER_HTTP_REVERSE_PROXY"@,
        }
    }

    /// The name of the environment variable that holds the setting.
    pub fn env_key(self) -> (name: &'static str)
        ensures
            name@ == self.key(),
    {
        match self {
            Setting::Hostname => "BALANCER_HOSTNAME",
            Setting::ExternalUrl => "BALANCER_EXTERNAL_URL",
            Setting::ConsulAgentUrl => "BALANCER_CONSUL_AGENT_URL",
            Setting::ConsulKvPrefix => "BALANCER_CONSUL_KV_PREFIX",
            Setting::ConsulServiceName => "BALANCER_CONSUL_SERVICE_NAME",
            Setting::ConsulServiceAddress => "BALANCER_CONSUL_SERVICE_ADDRESS",
            Setting::HttpAddress => "BALANCER_HTTP_ADDRESS",
            Setting::HttpPort => "BALANCER_HTTP_PORT",
            Setting::HttpReverseProxy => "BALANCER_HTTP_REVERSE_PROXY",
        }
    }
}

/// Why a configuration could not be read from the environment.
#[derive(Clone, Copy, Debug, PartialEq, Eq, Structural)]
pub enum ConfigError {
    /// A required variable is not set.
    NotSet(Setting),
    /// The listen port is set, but is not a number below 65536.
    PortNotANumber,
}

/// The value of the first variable named `key` in `env`, a list of pairs of
/// name and value.
pub open spec fn env_lookup(env: Seq<(Seq<char>, Seq<char>)>, key: Seq<char>) -> Option<
    Seq<char>,
>
    decreases env.len(),
{
    if env.len() == 0 {
        None
    } else if env[0].0 == key {
        Some(env[0].1)
    } else {
        env_lookup(env.drop_first(), key)
    }
}

/// The value of a required setting, or the error that reports its absence.
pub open spec fn env_required(env: Seq<(Seq<char>, Seq<char>)>, setting: Setting) -> Result<
    Seq<char>,
    ConfigError,
> {
    match env_lookup(env, setting.key()) {
        Some(value) => Ok(value),
        None => Err(ConfigError::NotSet(setting)),
    }
}

/// Looks a variable up in `env`, a list of pairs of name and value.
pub fn get_env_option(env: &Vec<(String, String)>, key: &str) -> (value: Option<String>)
    ensures
        match value {
            Some(text) => env_lookup(env.deep_view(), key@) == Some(text@),
            None => env_lookup(env.deep_view(), key@) is None,
        },
{
    let ghost pairs = env.deep_view();
    let mut i: usize = 0;
    assert(pairs.subrange(0, env.len() as int) =~= pairs);
    while i < env.len()
        invariant
            i <= env.len(),
            pairs == env.deep_view(),
            env_lookup(pairs, key@) == env_lookup(pairs.subrange(i as int, env.len() as int), key@),
        decreases env.len() - i,
    {
        let ghost rest = pairs.subrange(i as int, env.len() as int);
        assert(rest[0] == (env@[i as int].0@, env@[i as int].1@));
        assert(rest.drop_first() =~= pairs.subrange(i + 1, env.len() as int));
        if str_eq(env[i].0.as_str(), key) {
            return Some(env[i].1.clone());
        }
        i = i + 1;
    }
    None
}

fn required(env: &Vec<(String, String)>, setting: Setting) -> (value: Result<String, ConfigError>)
    ensures
        match value {
            Ok(text) => env_required(env.deep_view(), setting) == Ok::<Seq<char>, ConfigError>(text@),
            Err(e) => env_required(env.deep_view(), setting) == Err::<Seq<char>, ConfigError>(e),
        },
{
    match get_env_option(env, setting.env_key()) {
        Some(text) => Ok(text),
        None => Err(ConfigError::NotSet(setting)),
    }
}

impl ConfigConsul {
    /// The registry settings that `env` holds, or the first required one
    /// that it lacks.
    pub open spec fn spec_from_env(env: Seq<(Seq<char>, Seq<char>)>) -> Result<
        ConfigConsulView,
        ConfigError,
    > {
        match env_required(env, Setting::ConsulAgentUrl) {
            Err(e) => Err(e),
            Ok(agent_url) => match env_required(env, Setting::ConsulKvPrefix) {
                Err(e) => Err(e),
                Ok(kv_prefix) => match env_required(env, Setting::ConsulServiceName) {
                    Err(e) => Err(e),
                    Ok(service_name) => match env_required(env, Setting::ConsulServiceAddress) {
                        Err(e) => Err(e),
                        Ok(service_address) => Ok(
                            ConfigConsulView { agent_url, kv_prefix, service_name, service_address },
                        ),
                    },
                },
            },
        }
    }

    /// Reads the registry settings from `env`, a list of pairs of name and
    /// value.
    pub fn from_env(env: &Vec<(String, String)>) -> (config: Result<Self, ConfigError>)
        ensures
            match config {
                Ok(c) => Self::spec_from_env(env.deep_view()) == Ok::<ConfigConsulView, ConfigError>(c@),
                Err(e) => Self::spec_from_env(env.deep_view()) == Err::<ConfigConsulView, ConfigError>(e),
            },
    {
        let agent_url = match required(env, Setting::ConsulAgentUrl) {
            Ok(text) => text,
            Err(e) => { return Err(e); },
        };
        let kv_prefix = match required(env, Setting::ConsulKvPrefix) {
            Ok(text) => text,
            Err(e) => { return Err(e); },
        };
        let service_name = match required(env, Setting::ConsulServiceName) {
            Ok(text) => text,
            Err(e) => { return Err(e); },
        };
        let service_address = match required(env, Setting::ConsulServiceAddress) {
            Ok(text) => text,
            Err(e) => { return Err(e); },
        };
        Ok(ConfigConsul { agent_url, kv_prefix, service_name, service_address })
    }
}

impl ConfigHttp {
    /// The listener settings that `env` holds, or what is wrong with them.
    /// The reverse proxy is optional.
    pub open spec fn spec_from_env(env: Seq<(Seq<char>, Seq<char>)>) -> Result<
        ConfigHttpView,
        ConfigError,
    > {
        match env_required(env, Setting::HttpAddress) {
            Err(e) => Err(e),
            Ok(address) => match env_required(env, Setting::HttpPort) {
                Err(e) => Err(e),
                Ok(port_text) => match parse_u16(port_text) {
                    None => Err(ConfigError::PortNotANumber),
                    Some(port) => Ok(
                        ConfigHttpView {
                            address,
                            port,
                            reverse_proxy: env_lookup(env, Setting::HttpReverseProxy.key()),
                        },
                    ),
                },
            },
        }
    }

    /// Reads the listener settings from `env`, a list of pairs of name and
    /// value.
    pub fn from_env(env: &Vec<(String, String)>) -> (config: Result<Self, ConfigError>)
        ensures
            match config {
                Ok(c) => Self::spec_from_env(env.deep_view()) == Ok::<ConfigHttpView, ConfigError>(c@),
                Err(e) => Self::spec_from_env(env.deep_view()) == Err::<ConfigHttpView, ConfigError>(e),
            },
    {
        let address = match required(env, Setting::HttpAddress) {
            Ok(text) => text,
            Err(e) => { return Err(e); },
        };
        let port_text = match required(env, Setting::HttpPort) {
            Ok(text) => text,
            Err(e) => { return Err(e); },
        };
        let port = match parse_decimal_u16(port_text.as_str()) {
            Some(port) => port,
            None => { return Err(ConfigError::PortNotANumber); },
        };
        let reverse_proxy = get_env_option(env, Setting::HttpReverseProxy.env_key());
        Ok(ConfigHttp { address, port, reverse_proxy })
    }
}

impl BalancerConfig {
    /// The configuration that `env` holds, or the first thing wrong with it,
    /// going through the settings in the order in which [`Setting`] lists
    /// them.
    pub open spec fn spec_from_env(env: Seq<(Seq<char>, Seq<char>)>) -> Result<
        BalancerConfigView,
        ConfigError,
    > {
        match env_required(env, Setting::Hostname) {
            Err(e) => Err(e),
            Ok(hostname) => match env_required(env, Setting::ExternalUrl) {
                Err(e) => Err(e),
                Ok(external_url) => match ConfigConsul::spec_from_env(env) {
                    Err(e) => Err(e),
                    Ok(consul) => match ConfigHttp::spec_from_env(env) {
                        Err(e) => Err(e),
                        Ok(http) => Ok(BalancerConfigView { hostname, external_url, consul, http }),
                    },
                },
            },
        }
    }

    /// Reads the configuration from `env`, a list of pairs of name and value.
    pub fn from_env(env: &Vec<(String, String)>) -> (config: Result<Self, ConfigError>)
        ensures
            match config {
                Ok(c) => Self::spec_from_env(env.deep_view()) == Ok::<BalancerConfigView, ConfigError>(c@),
                Err(e) => Self::spec_from_env(env.deep_view()) == Err::<BalancerConfigView, ConfigError>(e),
            },
    {
        let hostname = match required(env, Setting::Hostname) {
            Ok(text) => text,
            Err(e) => { return Err(e); },
        };
        let external_url = match required(env, Setting::ExternalUrl) {
            Ok(text) => text,
            Err(e) => { return Err(e); },
        };
        let consul = match ConfigConsul::from_env(env) {
            Ok(consul) => consul,
            Err(e) => { return Err(e); },
        };
        let http = match ConfigHttp::from_env(env) {
            Ok(http) => http,
            Err(e) => { return Err(e); },
        };
        Ok(BalancerConfig { hostname, external_url, consul, http })
    }
}

} // verus!
