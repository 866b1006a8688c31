//! The connection configuration, and how it becomes the key/value
//! settings the cluster client is built with.
//!
//! The caller collects the fields (command line, environment) and applies
//! the resulting pairs to the client's own configuration type.

use vstd::prelude::*;
use vstd::string::*;
use crate::strings::pair_views;

verus! {

/// The log level requested for the cluster client.
#[derive(Clone, Copy, PartialEq, Eq, Structural, Debug)]
pub enum LogLevel {
    Debug,
    Info,
    Error,
}

/// The security protocol the connection uses.
#[derive(Clone, Copy, PartialEq, Eq, Structural, Debug)]
pub enum Protocol {
    PlainText,
    Ssl,
    SaslSsl,
    SaslPlainText,
}

/// The SASL mechanism, where SASL is used.
#[derive(Clone, Copy, PartialEq, Eq, Structural, Debug)]
pub enum SaslMechanism {
    Plain,
    OauthBearer,
}

/// A configuration error: fatal, raised before the UI starts.
#[derive(Debug)]
pub struct ConfigError {
    pub message: String,
}

impl ConfigError {
    pub fn new(message: &str) -> (r: ConfigError)
        ensures
            r.message@ == message@,
    {
        ConfigError { message: String::from_str(message) }
    }
}

/// The connection parameters the program starts from.
pub struct Config {
    pub log_level: LogLevel,
    pub bootstrap_servers: String,
    pub group_id: String,
    pub protocol: Protocol,
    pub ssl_ca_location: Option<String>,
    pub ssl_client_key_location: Option<String>,
    pub ssl_client_certificate_location: Option<String>,
    pub disable_ssl_cert_vertification: bool,
    pub sasl_mechanism: Option<SaslMechanism>,
    pub sasl_username: Option<String>,
    pub sasl_password: Option<String>,
    pub oauth_bearer_method: String,
    pub oauth_token_endpoint: Option<String>,
    pub oauth_client_id: Option<String>,
    pub oauth_client_secret: Option<String>,
    pub oauth_scope: Option<String>,
    pub https_ca_location: Option<String>,
}

/// The wire name of a protocol.
pub open spec fn spec_protocol_name(p: Protocol) -> Seq<char> {
    match p {
        Protocol::PlainText => ("PLAINTEXT")@,
        Protocol::Ssl => ("SSL")@,
        Protocol::SaslSsl => ("SASL_SSL")@,
        Protocol::SaslPlainText => ("SASL_PLAINTEXT")@,
    }
}

/// The wire name of a SASL mechanism.
pub open spec fn spec_mechanism_name(m: SaslMechanism) -> Seq<char> {
    match m {
        SaslMechanism::Plain => ("PLAIN")@,
        SaslMechanism::OauthBearer => ("OAUTHBEARER")@,
    }
}

/// The one message `client_settings` can fail with, if any: an empty
/// bootstrap list, SASL PLAIN without credentials, or OAUTHBEARER without
/// its endpoint and client credentials.
pub open spec fn spec_config_error(c: Config) -> Option<Seq<char>> {
    if c.bootstrap_servers@.len() == 0 {
        Some(("bootstrap servers cannot be empty")@)
    } else {
        match c.sasl_mechanism {
            Some(SaslMechanism::Plain) => if c.sasl_username is None || c.sasl_password is None {
                Some(("username and password must be set while using SASL_PLAIN mechanism")@)
            } else {
                None
            },
            Some(SaslMechanism::OauthBearer) => if c.oauth_token_endpoint is None
                || c.oauth_client_id is None || c.oauth_client_secret is None {
                Some(
                    (
                    "token endpoint, client id & client secret must be set while using SASL_OAUTHBEARER mechanism")@,
                )
            } else {
                None
            },
            None => None,
        }
    }
}

/// The settings every connection gets: optional debug switch, bootstrap
/// servers, group id, keepalive, statistics interval and the protocol.
pub open spec fn spec_base_settings(c: Config) -> Seq<(Seq<char>, Seq<char>)> {
    (if c.log_level is Debug {
        seq![(("debug")@, ("all")@)]
    } else {
        Seq::empty()
    }) + seq![
        (("bootstrap.servers")@, c.bootstrap_servers@),
        (("group.id")@, c.group_id@),
        (("socket.keepalive.enable")@, ("true")@),
        (("statistics.interval.ms")@, ("5000")@),
        (("security.protocol")@, spec_protocol_name(c.protocol)),
    ]
}

/// The SSL settings, present only for the SSL-bearing protocols: the CA
/// when given, key and certificate only as a pair, and the verification
/// switch when disabled.
pub open spec fn spec_ssl_settings(c: Config) -> Seq<(Seq<char>, Seq<char>)> {
    match c.protocol {
        Protocol::Ssl | Protocol::SaslSsl => (match c.ssl_ca_location {
            Some(ca) => seq![(("ssl.ca.location")@, ca@)],
            None => Seq::empty(),
        }) + (match (c.ssl_client_key_location, c.ssl_client_certificate_location) {
            (Some(key), Some(cert)) => seq![
                (("ssl.key.location")@, key@),
                (("ssl.certificate.location")@, cert@),
            ],
            _ => Seq::empty(),
        }) + (if c.disable_ssl_cert_vertification {
            seq![(("enable.ssl.certificate.verification")@, ("false")@)]
        } else {
            Seq::empty()
        }),
        _ => Seq::empty(),
    }
}

/// The SASL settings: the mechanism, then its credentials — username and
/// password for PLAIN; method, endpoint, client id and secret, and the
/// optional scope and CA for OAUTHBEARER. Defined for configurations that
/// pass `spec_config_error`.
pub open spec fn spec_sasl_settings(c: Config) -> Seq<(Seq<char>, Seq<char>)> {
    match c.sasl_mechanism {
        None => Seq::empty(),
        Some(m) => seq![(("sasl.mechanism")@, spec_mechanism_name(m))] + match m {
            SaslMechanism::Plain => (match (c.sasl_username, c.sasl_password) {
                (Some(u), Some(p)) => seq![
                    (("sasl.username")@, u@),
                    (("sasl.password")@, p@),
                ],
                _ => Seq::empty(),
            }),
            SaslMechanism::OauthBearer => seq![
                (("sasl.oauthbearer.method")@, c.oauth_bearer_method@),
            ] + (match (c.oauth_token_endpoint, c.oauth_client_id, c.oauth_client_secret) {
                (Some(ep), Some(id), Some(secret)) => seq![
                    (("sasl.oauthbearer.token.endpoint.url")@, ep@),
                    (("sasl.oauthbearer.client.id")@, id@),
                    (("sasl.oauthbearer.client.secret")@, secret@),
                ],
                _ => Seq::empty(),
            }) + (match c.oauth_scope {
                Some(scope) => seq![(("sasl.oauthbearer.scope")@, scope@)],
                None => Seq::empty(),
            }) + (match c.https_ca_location {
                Some(ca) => seq![(("https.ca.location")@, ca@)],
                None => Seq::empty(),
            }),
        },
    }
}

/// Everything `client_settings` emits, in order.
pub open spec fn spec_client_settings(c: Config) -> Seq<(Seq<char>, Seq<char>)> {
    spec_base_settings(c) + spec_ssl_settings(c) + spec_sasl_settings(c)
}

/// The error message `oauth_token_request` can fail with, if any.
pub open spec fn spec_oauth_error(c: Config) -> Option<Seq<char>> {
    if c.oauth_token_endpoint is None || c.oauth_client_id is None || c.oauth_client_secret
        is None {
        Some(("token endpoint, client id & client secret must be provided")@)
    } else {
        None
    }
}

/// The form parameters of a token request: the client-credentials grant,
/// the client id and secret, and the scope where one is configured.
pub open spec fn spec_oauth_params(c: Config) -> Seq<(Seq<char>, Seq<char>)> {
    seq![(("grant_type")@, ("client_credentials")@)] + (match (
        c.oauth_client_id,
        c.oauth_client_secret,
    ) {
        (Some(id), Some(secret)) => seq![
            (("client_id")@, id@),
            (("client_secret")@, secret@),
        ],
        _ => Seq::empty(),
    }) + (match c.oauth_scope {
        Some(scope) => seq![(("scope")@, scope@)],
        None => Seq::empty(),
    })
}

fn setting(key: &str, value: &str) -> (r: (String, String))
    ensures
        r.0@ == key@,
        r.1@ == value@,
{
    (String::from_str(key), String::from_str(value))
}

impl Config {
    /// The key/value settings the cluster client is configured with, or
    /// the configuration error, exactly when `spec_config_error` gives one.
    pub fn client_settings(&self) -> (r: Result<Vec<(String, String)>, ConfigError>)
        ensures
            match r {
                Ok(pairs) => spec_config_error(*self) is None && pair_views(pairs@)
                    == spec_client_settings(*self),
                Err(e) => spec_config_error(*self) == Some(e.message@),
            },
    {
        let mut pairs: Vec<(String, String)> = Vec::new();

        if matches!(self.log_level, LogLevel::Debug) {
            pairs.push(setting("debug", "all"));
        }
        if self.bootstrap_servers.as_str().unicode_len() == 0 {
            return Err(ConfigError::new("bootstrap servers cannot be empty"));
        }
        pairs.push((String::from_str("bootstrap.servers"), self.bootstrap_servers.clone()));
        pairs.push((String::from_str("group.id"), self.group_id.clone()));
        pairs.push(setting("socket.keepalive.enable", "true"));
        pairs.push(setting("statistics.interval.ms", "5000"));
        let protocol_name = match self.protocol {
            Protocol::PlainText => "PLAINTEXT",
            Protocol::Ssl => "SSL",
            Protocol::SaslSsl => "SASL_SSL",
            Protocol::SaslPlainText => "SASL_PLAINTEXT",
        };
        pairs.push(setting("security.protocol", protocol_name));
        proof {
            assert(pair_views(pairs@) =~= spec_base_settings(*self));
        }

        match self.protocol {
            Protocol::Ssl | Protocol::SaslSsl => {
                match &self.ssl_ca_location {
                    Some(ca) => {
                        pairs.push((String::from_str("ssl.ca.location"), ca.clone()));
                    },
                    None => (),
                }
                match (&self.ssl_client_key_location, &self.ssl_client_certificate_location) {
                    (Some(key), Some(cert)) => {
                        pairs.push((String::from_str("ssl.key.location"), key.clone()));
                        pairs.push((String::from_str("ssl.certificate.location"), cert.clone()));
                    },
                    _ => (),
                }
                if self.disable_ssl_cert_vertification {
                    pairs.push(setting("enable.ssl.certificate.verification", "false"));
                }
            },
            _ => (),
        }
        proof {
            assert(pair_views(pairs@) =~= spec_base_settings(*self) + spec_ssl_settings(*self));
        }

        match self.sasl_mechanism {
            None => (),
            Some(SaslMechanism::Plain) => {
                pairs.push(setting("sasl.mechanism", "PLAIN"));
                match (&self.sasl_username, &self.sasl_password) {
                    (Some(u), Some(p)) => {
                        pairs.push((String::from_str("sasl.username"), u.clone()));
                        pairs.push((String::from_str("sasl.password"), p.clone()));
                    },
                    _ => {
                        return Err(
                            ConfigError::new(
                                "username and password must be set while using SASL_PLAIN mechanism",
                            ),
                        );
                    },
                }
            },
            Some(SaslMechanism::OauthBearer) => {
                pairs.push(setting("sasl.mechanism", "OAUTHBEARER"));
                pairs.push(
                    (String::from_str("sasl.oauthbearer.method"), self.oauth_bearer_method.clone()),
                );
                match (&self.oauth_token_endpoint, &self.oauth_client_id, &self.oauth_client_secret) {
                    (Some(ep), Some(id), Some(secret)) => {
                        pairs.push(
                            (String::from_str("sasl.oauthbearer.token.endpoint.url"), ep.clone()),
                        );
                        pairs.push((String::from_str("sasl.oauthbearer.client.id"), id.clone()));
                        pairs.push(
                            (String::from_str("sasl.oauthbearer.client.secret"), secret.clone()),
                        );
                    },
                    _ => {
                        return Err(
                            ConfigError::new(
                                "token endpoint, client id & client secret must be set while using SASL_OAUTHBEARER mechanism",
                            ),
                        );
                    },
                }
                match &self.oauth_scope {
                    Some(scope) => {
                        pairs.push((String::from_str("sasl.oauthbearer.scope"), scope.clone()));
                    },
                    None => (),
                }
                match &self.https_ca_location {
                    Some(ca) => {
                        pairs.push((String::from_str("https.ca.location"), ca.clone()));
                    },
                    None => (),
                }
            },
        }
        proof {
            assert(pair_views(pairs@) =~= spec_client_settings(*self));
        }
        Ok(pairs)
    }

    /// The form parameters of an OAuth token request, or the error when
    /// the endpoint or the client credentials are missing.
    pub fn oauth_token_request(&self) -> (r: Result<Vec<(String, String)>, ConfigError>)
        ensures
            match r {
                Ok(params) => spec_oauth_error(*self) is None && pair_views(params@)
                    == spec_oauth_params(*self),
                Err(e) => spec_oauth_error(*self) == Some(e.message@),
            },
    {
        let mut params: Vec<(String, String)> = Vec::new();
        params.push(setting("grant_type", "client_credentials"));
        match (&self.oauth_token_endpoint, &self.oauth_client_id, &self.oauth_client_secret) {
            (Some(_), Some(id), Some(secret)) => {
                params.push((String::from_str("client_id"), id.clone()));
                params.push((String::from_str("client_secret"), secret.clone()));
            },
            _ => {
                return Err(
                    ConfigError::new("token endpoint, client id & client secret must be provided"),
                );
            },
        }
        match &self.oauth_scope {
            Some(scope) => {
                params.push((String::from_str("scope"), scope.clone()));
            },
            None => (),
        }
        proof {
            assert(pair_views(params@) =~= spec_oauth_params(*self));
        }
        Ok(params)
    }
}

/// The context a plain consumer is built with: it only carries the
/// configuration for the token callback.
pub struct DefaultContext {
    pub config: Config,
}

impl DefaultContext {
    pub fn new(config: Config) -> (r: DefaultContext)
        ensures
            r.config == config,
    {
        DefaultContext { config }
    }
}

} // verus!
