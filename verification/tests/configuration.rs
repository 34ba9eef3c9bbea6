use expiry_metrics::config::Config;
use expiry_metrics::config::ConfigError;
use expiry_metrics::config::interval_seconds;
use expiry_metrics::config::parse_u8;
use expiry_metrics::config::refresh_hours;
use expiry_metrics::endpoints::applications_url;
use expiry_metrics::endpoints::token_form_params;
use expiry_metrics::endpoints::token_url;
use expiry_metrics::shutdown::ShutdownCause;
use expiry_metrics::shutdown::is_clean_shutdown;
use expiry_metrics::shutdown::shutdown_message;

fn full_inputs() -> (
    Option<String>,
    Option<String>,
    Option<String>,
    Option<String>,
    Option<String>,
    Option<String>,
) {
    (
        Some(String::from("tenant")),
        Some(String::from("client")),
        Some(String::from("client-secret-value")),
        Some(String::from("https://graph.microsoft.com/.default")),
        Some(String::from("http://proxy.example:3128")),
        Some(String::from("12")),
    )
}

#[test]
fn complete_configuration_builds() {
    let (tenant, client, secret, scope, proxy, hours) = full_inputs();
    let config = Config::build(tenant, client, secret, scope, proxy, hours).expect("complete");
    assert_eq!(config.tenant_id, "tenant");
    assert_eq!(config.client_id, "client");
    assert_eq!(config.client_secret, "client-secret-value");
    assert_eq!(config.scope, "https://graph.microsoft.com/.default");
    assert_eq!(config.proxy, "http://proxy.example:3128");
    assert_eq!(config.refresh_hours, 12);
    assert!(config.wants_proxy());
}

#[test]
fn each_missing_mandatory_value_names_itself() {
    let (tenant, client, secret, scope, proxy, hours) = full_inputs();
    let err = Config::build(None, client.clone(), secret.clone(), scope.clone(), proxy.clone(), hours.clone())
        .unwrap_err();
    assert_eq!(err, ConfigError::MissingTenantId);
    assert_eq!(err.message(), "env variable TENANT_ID");
    let err = Config::build(tenant.clone(), None, secret.clone(), scope.clone(), proxy.clone(), hours.clone())
        .unwrap_err();
    assert_eq!(err, ConfigError::MissingClientId);
    assert_eq!(err.message(), "env variable CLIENT_ID");
    let err = Config::build(tenant.clone(), client.clone(), None, scope.clone(), proxy.clone(), hours.clone())
        .unwrap_err();
    assert_eq!(err, ConfigError::MissingClientSecret);
    assert_eq!(err.message(), "env variable CLIENT_SECRET");
    let err = Config::build(tenant, client, secret, None, proxy, hours).unwrap_err();
    assert_eq!(err, ConfigError::MissingScope);
    assert_eq!(err.message(), "env variable SCOPE");
}

#[test]
fn absent_proxy_falls_back_and_empty_disables() {
    let (tenant, client, secret, scope, _, hours) = full_inputs();
    let config =
        Config::build(tenant.clone(), client.clone(), secret.clone(), scope.clone(), None, hours.clone())
            .expect("no proxy given");
    assert_eq!(config.proxy, "http://proxy-http:8080");
    assert!(config.wants_proxy());
    let config = Config::build(tenant, client, secret, scope, Some(String::new()), hours)
        .expect("empty proxy");
    assert!(!config.wants_proxy());
}

#[test]
fn refresh_hours_accepts_one_to_twenty_four() {
    assert_eq!(refresh_hours(Some("1")), 1);
    assert_eq!(refresh_hours(Some("24")), 24);
    assert_eq!(refresh_hours(Some("12")), 12);
    assert_eq!(refresh_hours(Some("+7")), 7);
    assert_eq!(refresh_hours(Some("007")), 7);
}

#[test]
fn refresh_hours_falls_back_to_default() {
    assert_eq!(refresh_hours(None), 6);
    assert_eq!(refresh_hours(Some("0")), 6);
    assert_eq!(refresh_hours(Some("25")), 6);
    assert_eq!(refresh_hours(Some("-3")), 6);
    assert_eq!(refresh_hours(Some("")), 6);
    assert_eq!(refresh_hours(Some("abc")), 6);
    assert_eq!(refresh_hours(Some("12h")), 6);
    assert_eq!(refresh_hours(Some("999999999999999999999999")), 6);
}

#[test]
fn parse_u8_matches_the_decimal_grammar() {
    assert_eq!(parse_u8("255"), Some(255));
    assert_eq!(parse_u8("256"), None);
    assert_eq!(parse_u8("+"), None);
    assert_eq!(parse_u8(""), None);
    assert_eq!(parse_u8("+12"), Some(12));
    assert_eq!(parse_u8("1 2"), None);
}

#[test]
fn interval_length_in_seconds() {
    assert_eq!(interval_seconds(6), 21600);
    assert_eq!(interval_seconds(1), 3600);
    assert_eq!(interval_seconds(24), 86400);
}

#[test]
fn token_request_fields_are_the_grant_ones() {
    let (tenant, client, secret, scope, proxy, hours) = full_inputs();
    let config = Config::build(tenant, client, secret, scope, proxy, hours).expect("complete");
    let params = token_form_params(&config);
    let expected = vec![
        ("client_id".to_string(), "client".to_string()),
        ("scope".to_string(), "https://graph.microsoft.com/.default".to_string()),
        ("client_secret".to_string(), "client-secret-value".to_string()),
        ("grant_type".to_string(), "client_credentials".to_string()),
    ];
    assert_eq!(params, expected);
}

#[test]
fn endpoints_are_the_directory_ones() {
    assert_eq!(
        token_url("my-tenant"),
        "https://login.microsoftonline.com/my-tenant/oauth2/v2.0/token"
    );
    assert_eq!(applications_url(), "https://graph.microsoft.com/v1.0/applications");
}

#[test]
fn shutdown_reports_name_their_cause() {
    assert_eq!(shutdown_message(ShutdownCause::TermSignal), "Received a SIGTERM signal! exiting.");
    assert_eq!(shutdown_message(ShutdownCause::ActorEnded), "The actor died! exiting.");
    assert_eq!(shutdown_message(ShutdownCause::ListenerEnded), "The server died! exiting.");
    assert!(is_clean_shutdown(ShutdownCause::TermSignal));
    assert!(!is_clean_shutdown(ShutdownCause::ActorEnded));
    assert!(!is_clean_shutdown(ShutdownCause::ListenerEnded));
}

#[test]
fn listener_ending_is_a_decisive_cause() {
    // The coordinator acts on whichever of the three causes completes
    // first; the listener ending on its own yields a report at once,
    // an unexpected one.
    let cause = ShutdownCause::ListenerEnded;
    assert!(!is_clean_shutdown(cause));
    assert!(!shutdown_message(cause).is_empty());
}
