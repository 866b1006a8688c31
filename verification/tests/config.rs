//! The configuration model: which client settings come out of it, and
//! which configurations are rejected before the UI starts.

use kafka2i::config::{Config, DefaultContext, LogLevel, Protocol, SaslMechanism};

fn base_config() -> Config {
    Config {
        log_level: LogLevel::Info,
        bootstrap_servers: String::from("b:9092"),
        group_id: String::from("cg.krust"),
        protocol: Protocol::PlainText,
        ssl_ca_location: None,
        ssl_client_key_location: None,
        ssl_client_certificate_location: None,
        disable_ssl_cert_vertification: false,
        sasl_mechanism: None,
        sasl_username: None,
        sasl_password: None,
        oauth_bearer_method: String::from("oidc"),
        oauth_token_endpoint: None,
        oauth_client_id: None,
        oauth_client_secret: None,
        oauth_scope: None,
        https_ca_location: None,
    }
}

fn pairs_of(c: &Config) -> Vec<(String, String)> {
    c.client_settings().expect("the configuration should be accepted")
}

fn texts(pairs: &[(String, String)]) -> Vec<(&str, &str)> {
    pairs.iter().map(|kv| (kv.0.as_str(), kv.1.as_str())).collect()
}

#[test]
fn plaintext_settings() {
    let pairs = pairs_of(&base_config());
    assert_eq!(texts(&pairs), vec![
        ("bootstrap.servers", "b:9092"),
        ("group.id", "cg.krust"),
        ("socket.keepalive.enable", "true"),
        ("statistics.interval.ms", "5000"),
        ("security.protocol", "PLAINTEXT"),
    ]);
}

#[test]
fn debug_level_adds_debug_switch() {
    let mut c = base_config();
    c.log_level = LogLevel::Debug;
    let pairs = pairs_of(&c);
    assert_eq!(texts(&pairs)[0], ("debug", "all"));
}

#[test]
fn ssl_settings() {
    let mut c = base_config();
    c.protocol = Protocol::Ssl;
    c.ssl_ca_location = Some(String::from("/ca.pem"));
    c.ssl_client_key_location = Some(String::from("/key.pem"));
    c.ssl_client_certificate_location = Some(String::from("/cert.pem"));
    c.disable_ssl_cert_vertification = true;
    let pairs = pairs_of(&c);
    assert_eq!(texts(&pairs)[4..], vec![
        ("security.protocol", "SSL"),
        ("ssl.ca.location", "/ca.pem"),
        ("ssl.key.location", "/key.pem"),
        ("ssl.certificate.location", "/cert.pem"),
        ("enable.ssl.certificate.verification", "false"),
    ]);
}

#[test]
fn ssl_key_without_certificate_is_skipped() {
    let mut c = base_config();
    c.protocol = Protocol::Ssl;
    c.ssl_client_key_location = Some(String::from("/key.pem"));
    let pairs = pairs_of(&c);
    assert!(!texts(&pairs).iter().any(|kv| kv.0 == "ssl.key.location"));
}

#[test]
fn sasl_plain_settings() {
    let mut c = base_config();
    c.protocol = Protocol::SaslPlainText;
    c.sasl_mechanism = Some(SaslMechanism::Plain);
    c.sasl_username = Some(String::from("user"));
    c.sasl_password = Some(String::from("SECRET-REDACTED"));
    let pairs = pairs_of(&c);
    assert_eq!(texts(&pairs)[4..], vec![
        ("security.protocol", "SASL_PLAINTEXT"),
        ("sasl.mechanism", "PLAIN"),
        ("sasl.username", "user"),
        ("sasl.password", "SECRET-REDACTED"),
    ]);
}

#[test]
fn oauth_settings() {
    let mut c = base_config();
    c.protocol = Protocol::SaslSsl;
    c.sasl_mechanism = Some(SaslMechanism::OauthBearer);
    c.oauth_token_endpoint = Some(String::from("https://token"));
    c.oauth_client_id = Some(String::from("id"));
    c.oauth_client_secret = Some(String::from("SECRET-REDACTED"));
    c.oauth_scope = Some(String::from("scope-a"));
    c.https_ca_location = Some(String::from("/https-ca.pem"));
    let pairs = pairs_of(&c);
    assert_eq!(texts(&pairs)[5..], vec![
        ("sasl.mechanism", "OAUTHBEARER"),
        ("sasl.oauthbearer.method", "oidc"),
        ("sasl.oauthbearer.token.endpoint.url", "https://token"),
        ("sasl.oauthbearer.client.id", "id"),
        ("sasl.oauthbearer.client.secret", "SECRET-REDACTED"),
        ("sasl.oauthbearer.scope", "scope-a"),
        ("https.ca.location", "/https-ca.pem"),
    ]);
}

#[test]
fn empty_bootstrap_is_fatal() {
    let mut c = base_config();
    c.bootstrap_servers = String::new();
    let err = c.client_settings().unwrap_err();
    assert_eq!(err.message.as_str(), "bootstrap servers cannot be empty");
}

#[test]
fn sasl_plain_needs_credentials() {
    let mut c = base_config();
    c.sasl_mechanism = Some(SaslMechanism::Plain);
    c.sasl_username = Some(String::from("user"));
    let err = c.client_settings().unwrap_err();
    assert_eq!(
        err.message.as_str(),
        "username and password must be set while using SASL_PLAIN mechanism"
    );
}

#[test]
fn oauth_needs_endpoint_and_credentials() {
    let mut c = base_config();
    c.sasl_mechanism = Some(SaslMechanism::OauthBearer);
    c.oauth_token_endpoint = Some(String::from("https://token"));
    let err = c.client_settings().unwrap_err();
    assert_eq!(
        err.message.as_str(),
        "token endpoint, client id & client secret must be set while using SASL_OAUTHBEARER mechanism"
    );
}

#[test]
fn oauth_token_request_params() {
    let mut c = base_config();
    c.oauth_token_endpoint = Some(String::from("https://token"));
    c.oauth_client_id = Some(String::from("id"));
    c.oauth_client_secret = Some(String::from("SECRET-REDACTED"));
    let params = c.oauth_token_request().unwrap();
    assert_eq!(texts(&params), vec![
        ("grant_type", "client_credentials"),
        ("client_id", "id"),
        ("client_secret", "SECRET-REDACTED"),
    ]);
    c.oauth_scope = Some(String::from("sc"));
    let params = c.oauth_token_request().unwrap();
    assert_eq!(texts(&params)[3], ("scope", "sc"));
}

#[test]
fn oauth_token_request_needs_credentials() {
    let c = base_config();
    let err = c.oauth_token_request().unwrap_err();
    assert_eq!(
        err.message.as_str(),
        "token endpoint, client id & client secret must be provided"
    );
}

#[test]
fn default_context_keeps_config() {
    let ctx = DefaultContext::new(base_config());
    assert_eq!(ctx.config.bootstrap_servers.as_str(), "b:9092");
}
