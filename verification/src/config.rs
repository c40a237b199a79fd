//! The client's configuration and the environment's overrides of it.

use vstd::prelude::*;

verus! {

/// The port of the local control socket unless configured otherwise.
pub const CONNECT_WS_PORT: u16 = 3551;

/// The lobby's host name unless configured otherwise.
pub open spec fn default_lobby_domain() -> Seq<char> {
    "service.w3flo.com"@
}

#[derive(Debug, Clone, PartialEq, Eq)]
pub enum ConfigError {
    /// The configuration file could not be read or written.
    Io(String),
    /// The configuration file is not well-formed.
    Parse(String),
}

#[derive(Debug, Clone, PartialEq, Eq)]
pub struct ClientConfig {
    pub local_port: u16,
    pub user_data_path: Option<String>,
    pub installation_path: Option<String>,
    pub lobby_domain: String,
}

/// The values of the four environment variables that override the
/// configuration; `None` for a variable that is not set.
#[derive(Debug, Clone, PartialEq, Eq)]
pub struct EnvOverrides {
    pub local_port: Option<String>,
    pub user_data_path: Option<String>,
    pub installation_path: Option<String>,
    pub lobby_domain: Option<String>,
}

pub struct ConfigView {
    pub local_port: u16,
    pub user_data_path: Option<Seq<char>>,
    pub installation_path: Option<Seq<char>>,
    pub lobby_domain: Seq<char>,
}

pub struct EnvView {
    pub local_port: Option<Seq<char>>,
    pub user_data_path: Option<Seq<char>>,
    pub installation_path: Option<Seq<char>>,
    pub lobby_domain: Option<Seq<char>>,
}

pub open spec fn text_view(s: Option<String>) -> Option<Seq<char>> {
    match s {
        Some(t) => Some(t@),
        None => None,
    }
}

impl View for ClientConfig {
    type V = ConfigView;

    open spec fn view(&self) -> ConfigView {
        ConfigView {
            local_port: self.local_port,
            user_data_path: text_view(self.user_data_path),
            installation_path: text_view(self.installation_path),
            lobby_domain: self.lobby_domain@,
        }
    }
}

impl View for EnvOverrides {
    type V = EnvView;

    open spec fn view(&self) -> EnvView {
        EnvView {
            local_port: text_view(self.local_port),
            user_data_path: text_view(self.user_data_path),
            installation_path: text_view(self.installation_path),
            lobby_domain: text_view(self.lobby_domain),
        }
    }
}

/// The number that a string of decimal digits denotes, most significant
/// digit first; `None` if a character is no ASCII digit. The empty string
/// denotes 0.
pub open spec fn digits_value(s: Seq<char>) -> Option<nat>
    decreases s.len(),
{
    if s.len() == 0 {
        Some(0nat)
    } else {
        let c = s.last();
        match digits_value(s.drop_last()) {
            Some(v) if '0' <= c && c <= '9' => Some((v * 10 + (c as nat - '0' as nat)) as nat),
            _ => None,
        }
    }
}

/// The port that a text denotes: an optional `+`, then one or more ASCII
/// digits and nothing else, with a value of at most 65535.
pub open spec fn port_of_text(s: Seq<char>) -> Option<u16> {
    let digits = if s.len() > 0 && s[0] == '+' {
        s.drop_first()
    } else {
        s
    };
    if digits.len() == 0 {
        None
    } else {
        match digits_value(digits) {
            Some(v) if v <= 65535 => Some(v as u16),
            _ => None,
        }
    }
}

/// The default configuration.
pub open spec fn default_view() -> ConfigView {
    ConfigView {
        local_port: CONNECT_WS_PORT,
        user_data_path: None,
        installation_path: None,
        lobby_domain: default_lobby_domain(),
    }
}

/// A configuration with the environment's overrides laid over it: each
/// variable that is set replaces its field, the port only if its text
/// denotes one.
pub open spec fn with_env(c: ConfigView, env: EnvView) -> ConfigView {
    ConfigView {
        local_port: match env.local_port {
            Some(text) => match port_of_text(text) {
                Some(port) => port,
                None => c.local_port,
            },
            None => c.local_port,
        },
        user_data_path: match env.user_data_path {
            Some(path) => Some(path),
            None => c.user_data_path,
        },
        installation_path: match env.installation_path {
            Some(path) => Some(path),
            None => c.installation_path,
        },
        lobby_domain: match env.lobby_domain {
            Some(domain) => domain,
            None => c.lobby_domain,
        },
    }
}

/// Reads a port number from a text.
///
/// Trusted: calls `str::parse::<u16>`, which std documents to accept an
/// optional `+` sign followed by decimal digits only, and to fail on an
/// empty string, on any other character and on a value that does not fit.
#[verifier::external_body]
fn parse_port(text: &str) -> (res: Option<u16>)
    ensures
        res == port_of_text(text@),
{
    text.parse::<u16>().ok()
}

impl Default for ClientConfig {
    fn default() -> (res: Self)
        ensures
            res@ == default_view(),
    {
        ClientConfig {
            local_port: CONNECT_WS_PORT,
            user_data_path: None,
            installation_path: None,
            lobby_domain: "service.w3flo.com".to_owned(),
        }
    }
}

impl ClientConfig {
    /// The default configuration under the environment's overrides.
    pub fn from_env(env: EnvOverrides) -> (res: Result<Self, ConfigError>)
        ensures
            res matches Ok(config) && config@ == with_env(default_view(), env@),
    {
        let mut config = ClientConfig::default();
        config.apply_env(env);
        Ok(config)
    }

    /// The configuration read from the file, if reading and parsing it
    /// succeeded, under the environment's overrides.
    pub fn load(file: Result<ClientConfig, ConfigError>, env: EnvOverrides) -> (res: Result<
        Self,
        ConfigError,
    >)
        ensures
            match file {
                Ok(parsed) => res matches Ok(config) && config@ == with_env(parsed@, env@),
                Err(e) => res == Err::<Self, ConfigError>(e),
            },
    {
        match file {
            Ok(parsed) => {
                let mut config = parsed;
                config.apply_env(env);
                Ok(config)
            },
            Err(e) => Err(e),
        }
    }

    /// Lays the environment's overrides over this configuration.
    pub fn apply_env(&mut self, env: EnvOverrides)
        ensures
            final(self)@ == with_env(old(self)@, env@),
    {
        if let Some(text) = env.local_port {
            if let Some(port) = parse_port(text.as_str()) {
                self.local_port = port;
            }
        }
        if let Some(path) = env.user_data_path {
            self.user_data_path = Some(path);
        }
        if let Some(path) = env.installation_path {
            self.installation_path = Some(path);
        }
        if let Some(domain) = env.lobby_domain {
            self.lobby_domain = domain;
        }
    }
}

/// Laying the same overrides over a configuration twice gives what laying
/// them once gives.
pub proof fn lemma_with_env_idempotent(c: ConfigView, env: EnvView)
    ensures
        with_env(with_env(c, env), env) == with_env(c, env),
{
}

/// A variable that is not set leaves its field as it was.
pub proof fn lemma_with_env_unset(c: ConfigView)
    ensures
        with_env(
            c,
            EnvView {
                local_port: None,
                user_data_path: None,
                installation_path: None,
                lobby_domain: None,
            },
        ) == c,
{
}

} // verus!
