//! The server's configuration: where the HTTP and gRPC front ends listen,
//! how sessions are checked, and how large the cache is.

use vstd::prelude::*;
use crate::text::{canonical_decimal, decimal_chars, decimal_reads_back, decimal_text, decimal_value};
use crate::keys::{keys_plain_check, read_env_setting_keys, read_toml_top_keys, sources_panic_free};
use crate::settings::{
    build_settings, read_bool, read_text, read_u16, read_usize, settings_bool, settings_build_ok,
    settings_text, settings_u16, settings_usize,
};

verus! {

/// The whole configuration.
#[derive(Debug)]
pub struct Config {
    pub http: HttpServer,
    pub grpc: GRPCServer,
    pub auth: AuthServer,
    pub cache: Cache,
}

/// Where the HTTP front end listens.
#[derive(Debug)]
pub struct HttpServer {
    pub host: String,
    pub port: u16,
}

/// Where the gRPC front end listens.
#[derive(Debug)]
pub struct GRPCServer {
    pub host: String,
    pub port: u16,
}

/// How requests are authenticated.
#[derive(Debug)]
pub struct AuthServer {
    pub enable: bool,
    pub url: String,
    pub token: String,
}

/// Cache configuration
#[derive(Debug)]
pub struct Cache {
    /// Cache size in megabytes
    pub size: usize,
}

/// A configuration as mathematical values.
pub struct ConfigView {
    pub http_host: Seq<char>,
    pub http_port: u16,
    pub grpc_host: Seq<char>,
    pub grpc_port: u16,
    pub auth_enable: bool,
    pub auth_url: Seq<char>,
    pub auth_token: Seq<char>,
    pub cache_size: usize,
}

impl View for Config {
    type V = ConfigView;

    open spec fn view(&self) -> ConfigView {
        ConfigView {
            http_host: self.http.host@,
            http_port: self.http.port,
            grpc_host: self.grpc.host@,
            grpc_port: self.grpc.port,
            auth_enable: self.auth.enable,
            auth_url: self.auth.url@,
            auth_token: self.auth.token@,
            cache_size: self.cache.size,
        }
    }
}

/// Why loading the configuration failed: a key of its sources names a
/// negative or too large array index (see `keys`), its sources could not
/// be merged, or a field is missing or has the wrong type.
#[derive(Debug)]
pub enum ConfigLoadError {
    UnsupportedKey,
    Build(config::ConfigError),
    Deserialize(config::ConfigError),
}

impl ConfigLoadError {
    /// The sentence that reports this error.
    pub fn context(&self) -> (s: &'static str)
        ensures
            s@ == (match self {
                ConfigLoadError::UnsupportedKey => "Unable to read a configuration key with a negative or too large array index"@,
                ConfigLoadError::Build(_) => "Unable to build configuration"@,
                ConfigLoadError::Deserialize(_) => "Unable to deserialize configuration"@,
            }),
    {
        match self {
            ConfigLoadError::UnsupportedKey => "Unable to read a configuration key with a negative or too large array index",
            ConfigLoadError::Build(_) => "Unable to build configuration",
            ConfigLoadError::Deserialize(_) => "Unable to deserialize configuration",
        }
    }
}

/// The prefix that marks the environment variables read as settings.
pub open spec fn env_prefix() -> Seq<char> {
    "CACHE_SERVER"@
}

/// The separator between the parts of a setting's name in the environment.
pub open spec fn env_separator() -> Seq<char> {
    "_"@
}

/// Whether `config` stores the configuration sources without panicking:
/// no key of theirs names a negative or too large array index (see
/// `keys::sources_panic_free`).
pub open spec fn sources_plain(file: Option<Seq<char>>, env: Seq<(Seq<char>, Seq<char>)>) -> bool {
    sources_panic_free(file, env, env_prefix(), env_separator(), true)
}

/// Whether the configuration sources can be merged at all.
pub open spec fn sources_merge(file: Option<Seq<char>>, env: Seq<(Seq<char>, Seq<char>)>) -> bool {
    settings_build_ok(file, env, env_prefix(), env_separator(), true)
}

/// The configuration that the sources give, when every field is present and
/// has the right type.
pub open spec fn loaded_settings(
    file: Option<Seq<char>>,
    env: Seq<(Seq<char>, Seq<char>)>,
) -> Option<ConfigView> {
    let text = |k: Seq<char>| settings_text(file, env, env_prefix(), env_separator(), true, k);
    let port = |k: Seq<char>| settings_u16(file, env, env_prefix(), env_separator(), true, k);
    let flag = |k: Seq<char>| settings_bool(file, env, env_prefix(), env_separator(), true, k);
    let size = |k: Seq<char>| settings_usize(file, env, env_prefix(), env_separator(), true, k);
    if text("http.host"@) is Some && port("http.port"@) is Some && text("grpc.host"@) is Some
        && port("grpc.port"@) is Some && flag("auth.enable"@) is Some && text("auth.url"@) is Some
        && text("auth.token"@) is Some && size("cache.size"@) is Some {
        Some(
            ConfigView {
                http_host: text("http.host"@).unwrap(),
                http_port: port("http.port"@).unwrap(),
                grpc_host: text("grpc.host"@).unwrap(),
                grpc_port: port("grpc.port"@).unwrap(),
                auth_enable: flag("auth.enable"@).unwrap(),
                auth_url: text("auth.url"@).unwrap(),
                auth_token: text("auth.token"@).unwrap(),
                cache_size: size("cache.size"@).unwrap(),
            },
        )
    } else {
        None
    }
}

/// Why putting a configuration together failed, and the error that says so.
pub enum AssemblyFailure {
    Build(config::ConfigError),
    Field(config::ConfigError),
}

/// What is put together from what was read: a failed merge first, then the
/// first field that failed, in the order of the fields; otherwise the
/// fields as read.
pub open spec fn assembly(
    build: Result<(), config::ConfigError>,
    http_host: Result<String, config::ConfigError>,
    http_port: Result<u16, config::ConfigError>,
    grpc_host: Result<String, config::ConfigError>,
    grpc_port: Result<u16, config::ConfigError>,
    auth_enable: Result<bool, config::ConfigError>,
    auth_url: Result<String, config::ConfigError>,
    auth_token: Result<String, config::ConfigError>,
    cache_size: Result<usize, config::ConfigError>,
) -> Result<ConfigView, AssemblyFailure> {
    match build {
        Err(e) => Err(AssemblyFailure::Build(e)),
        Ok(_) => match (http_host, http_port, grpc_host, grpc_port) {
            (Err(e), _, _, _) => Err(AssemblyFailure::Field(e)),
            (Ok(_), Err(e), _, _) => Err(AssemblyFailure::Field(e)),
            (Ok(_), Ok(_), Err(e), _) => Err(AssemblyFailure::Field(e)),
            (Ok(_), Ok(_), Ok(_), Err(e)) => Err(AssemblyFailure::Field(e)),
            (Ok(hh), Ok(hp), Ok(gh), Ok(gp)) => match (auth_enable, auth_url, auth_token, cache_size) {
                (Err(e), _, _, _) => Err(AssemblyFailure::Field(e)),
                (Ok(_), Err(e), _, _) => Err(AssemblyFailure::Field(e)),
                (Ok(_), Ok(_), Err(e), _) => Err(AssemblyFailure::Field(e)),
                (Ok(_), Ok(_), Ok(_), Err(e)) => Err(AssemblyFailure::Field(e)),
                (Ok(ae), Ok(au), Ok(at), Ok(cs)) => Ok(
                    ConfigView {
                        http_host: hh@,
                        http_port: hp,
                        grpc_host: gh@,
                        grpc_port: gp,
                        auth_enable: ae,
                        auth_url: au@,
                        auth_token: at@,
                        cache_size: cs,
                    },
                ),
            },
        },
    }
}

impl Config {
    /// Loads the configuration from the text of `Config.toml`, when that
    /// file exists, overridden by the environment variables `env` whose
    /// names start with `CACHE_SERVER_` (`CACHE_SERVER_HTTP_PORT` sets
    /// `http.port`). Every field must be given by one of the two. Sources
    /// with a key that names a negative or too large array index are
    /// refused.
    pub fn new(file: Option<String>, env: Vec<(String, String)>) -> (r: Result<Self, ConfigLoadError>)
        ensures
            match r {
                Err(ConfigLoadError::UnsupportedKey) => !sources_plain(file.deep_view(), env.deep_view()),
                Ok(c) => sources_plain(file.deep_view(), env.deep_view()) && sources_merge(file.deep_view(), env.deep_view())
                    && loaded_settings(file.deep_view(), env.deep_view()) == Some(c@),
                Err(ConfigLoadError::Build(_)) => sources_plain(file.deep_view(), env.deep_view()) && !sources_merge(file.deep_view(), env.deep_view()),
                Err(ConfigLoadError::Deserialize(_)) => sources_plain(file.deep_view(), env.deep_view()) && sources_merge(file.deep_view(), env.deep_view())
                    && loaded_settings(file.deep_view(), env.deep_view()) is None,
            },
    {
        let prefix = "CACHE_SERVER";
        let sep = "_";
        let env_keys_plain = match read_env_setting_keys(&env, prefix, sep, true) {
            Some(keys) => keys_plain_check(&keys),
            None => true,
        };
        let plain = match &file {
            Some(text) => {
                assert(file.deep_view() == Some(text@));
                match read_toml_top_keys(text.as_str()) {
                    Some(keys) => keys_plain_check(&keys) && env_keys_plain,
                    None => true,
                }
            },
            None => env_keys_plain,
        };
        if !plain {
            return Err(ConfigLoadError::UnsupportedKey);
        }
        Config::assemble(
            build_settings(&file, &env, prefix, sep, true),
            read_text(&file, &env, prefix, sep, true, "http.host"),
            read_u16(&file, &env, prefix, sep, true, "http.port"),
            read_text(&file, &env, prefix, sep, true, "grpc.host"),
            read_u16(&file, &env, prefix, sep, true, "grpc.port"),
            read_bool(&file, &env, prefix, sep, true, "auth.enable"),
            read_text(&file, &env, prefix, sep, true, "auth.url"),
            read_text(&file, &env, prefix, sep, true, "auth.token"),
            read_usize(&file, &env, prefix, sep, true, "cache.size"),
        )
    }

    /// Puts a configuration together from what was read: the outcome of
    /// merging the sources, then each field in order. A failed merge is a
    /// `Build` error; otherwise the first field that failed gives a
    /// `Deserialize` error; otherwise every field is taken as read.
    pub fn assemble(
        build: Result<(), config::ConfigError>,
        http_host: Result<String, config::ConfigError>,
        http_port: Result<u16, config::ConfigError>,
        grpc_host: Result<String, config::ConfigError>,
        grpc_port: Result<u16, config::ConfigError>,
        auth_enable: Result<bool, config::ConfigError>,
        auth_url: Result<String, config::ConfigError>,
        auth_token: Result<String, config::ConfigError>,
        cache_size: Result<usize, config::ConfigError>,
    ) -> (r: Result<Self, ConfigLoadError>)
        ensures
            match assembly(build, http_host, http_port, grpc_host, grpc_port, auth_enable, auth_url, auth_token, cache_size) {
                Ok(v) => r matches Ok(c) && c@ == v,
                Err(AssemblyFailure::Build(e)) => r matches Err(ConfigLoadError::Build(x)) && x == e,
                Err(AssemblyFailure::Field(e)) => r matches Err(ConfigLoadError::Deserialize(x)) && x == e,
            },
    {
        if let Err(e) = build {
            return Err(ConfigLoadError::Build(e));
        }
        let http_host = match http_host {
            Ok(v) => v,
            Err(e) => return Err(ConfigLoadError::Deserialize(e)),
        };
        let http_port = match http_port {
            Ok(v) => v,
            Err(e) => return Err(ConfigLoadError::Deserialize(e)),
        };
        let grpc_host = match grpc_host {
            Ok(v) => v,
            Err(e) => return Err(ConfigLoadError::Deserialize(e)),
        };
        let grpc_port = match grpc_port {
            Ok(v) => v,
            Err(e) => return Err(ConfigLoadError::Deserialize(e)),
        };
        let auth_enable = match auth_enable {
            Ok(v) => v,
            Err(e) => return Err(ConfigLoadError::Deserialize(e)),
        };
        let auth_url = match auth_url {
            Ok(v) => v,
            Err(e) => return Err(ConfigLoadError::Deserialize(e)),
        };
        let auth_token = match auth_token {
            Ok(v) => v,
            Err(e) => return Err(ConfigLoadError::Deserialize(e)),
        };
        let cache_size = match cache_size {
            Ok(v) => v,
            Err(e) => return Err(ConfigLoadError::Deserialize(e)),
        };
        Ok(
            Config {
                http: HttpServer { host: http_host, port: http_port },
                grpc: GRPCServer { host: grpc_host, port: grpc_port },
                auth: AuthServer { enable: auth_enable, url: auth_url, token: auth_token },
                cache: Cache { size: cache_size },
            },
        )
    }
}

impl Default for Config {
    fn default() -> (c: Self)
        ensures
            c@ == default_config(),
    {
        Config {
            http: HttpServer::default(),
            grpc: GRPCServer::default(),
            auth: AuthServer::default(),
            cache: Cache::default(),
        }
    }
}

/// The configuration made of every section's defaults.
pub open spec fn default_config() -> ConfigView {
    ConfigView {
        http_host: "0.0.0.0"@,
        http_port: 1337,
        grpc_host: "[::1]"@,
        grpc_port: 1338,
        auth_enable: false,
        auth_url: "http://auth"@,
        auth_token: Seq::empty(),
        cache_size: 128,
    }
}

impl Default for HttpServer {
    fn default() -> (s: Self)
        ensures
            s.host@ == "0.0.0.0"@,
            s.port == 1337,
    {
        Self { host: "0.0.0.0".to_owned(), port: 1337 }
    }
}

/// Whether `address` is `host`, a colon, and the port written in decimal
/// so that it reads back as `port`.
pub open spec fn address_names_port(host: Seq<char>, port: u16, address: Seq<char>) -> bool {
    &&& address.len() > host.len() + 1
    &&& address.subrange(0, host.len() as int) == host
    &&& address[host.len() as int] == ':'
    &&& canonical_decimal(address.subrange(host.len() as int + 1, address.len() as int))
    &&& decimal_value(address.subrange(host.len() as int + 1, address.len() as int)) == port
}

/// The listen address is the host, a colon, and the port's decimal
/// notation: the text after the colon reads back as the port.
pub proof fn address_port_reads_back(host: Seq<char>, port: u16, address: Seq<char>)
    requires
        address == host + ":"@ + decimal_chars(port as nat),
    ensures
        address_names_port(host, port, address),
{
    reveal_strlit(":");
    decimal_reads_back(port as nat);
    assert(address.subrange(0, host.len() as int) =~= host);
    assert(address.subrange(host.len() as int + 1, address.len() as int) =~= decimal_chars(port as nat));
}

impl GRPCServer {
    /// The address that the gRPC front end listens on: `host:port`.
    pub fn address(&self) -> (s: String)
        ensures
            s@ == self.host@ + ":"@ + decimal_chars(self.port as nat),
            address_names_port(self.host@, self.port, s@),
    {
        proof {
            address_port_reads_back(self.host@, self.port, self.host@ + ":"@ + decimal_chars(self.port as nat));
        }
        let mut s = self.host.clone();
        s.append(":");
        let port = decimal_text(self.port as u64);
        s.append(port.as_str());
        s
    }
}

impl Default for GRPCServer {
    fn default() -> (s: Self)
        ensures
            s.host@ == "[::1]"@,
            s.port == 1338,
    {
        Self { host: "[::1]".to_owned(), port: 1338 }
    }
}

impl Default for AuthServer {
    fn default() -> (s: Self)
        ensures
            !s.enable,
            s.url@ == "http://auth"@,
            s.token@ == Seq::<char>::empty(),
    {
        Self { enable: false, url: "http://auth".to_owned(), token: String::new() }
    }
}

/// Default cache configuration
impl Default for Cache {
    /// Default cache size is 128 MB
    fn default() -> (s: Self)
        ensures
            s.size == 128,
    {
        Self { size: 128 }
    }
}

} // verus!
