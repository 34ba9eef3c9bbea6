use expiry_metrics::actor::CacheActor;
use expiry_metrics::gateway::ReadOutcome;
use expiry_metrics::gateway::gateway_response;
use expiry_metrics::gateway::liveness_body;
use expiry_metrics::records::Application;
use expiry_metrics::records::Applications;
use expiry_metrics::records::Credential;
use expiry_metrics::render::render_applications;

fn sample_apps(end_timestamp: i64) -> Applications {
    Applications {
        value: vec![Application {
            app_id: String::from("abc-1"),
            display_name: String::from("App One"),
            password_credentials: vec![Credential { end_timestamp }],
            key_credentials: vec![],
        }],
    }
}

#[test]
fn fresh_actor_serves_empty_text() {
    let actor = CacheActor::new();
    assert_eq!(actor.handle_read(), "");
}

#[test]
fn first_refresh_populates_before_any_wait() {
    // The run loop's timer fires immediately at startup, so the first
    // input the actor consumes is already a refresh: from then on the
    // snapshot is populated.
    let mut actor = CacheActor::new();
    let now: i64 = 1_700_000_000;
    let apps = sample_apps(now + 86400);
    actor.apply_refresh_at(Some(&apps), now);
    let reply = actor.handle_read();
    assert!(!reply.is_empty());
    assert_eq!(reply, render_applications(&apps, now));
}

#[test]
fn reads_between_refreshes_are_byte_identical() {
    let mut actor = CacheActor::new();
    let now: i64 = 1_700_000_000;
    let apps = sample_apps(now + 5 * 86400);
    actor.apply_refresh_at(Some(&apps), now);
    let first = actor.handle_read();
    let second = actor.handle_read();
    let third = actor.handle_read();
    assert_eq!(first, second);
    assert_eq!(second, third);
}

#[test]
fn successful_refresh_replaces_the_snapshot() {
    let mut actor = CacheActor::new();
    let now: i64 = 1_700_000_000;
    let old_apps = sample_apps(now + 86400);
    let new_apps = sample_apps(now + 2 * 86400);
    actor.apply_refresh_at(Some(&old_apps), now);
    let before = actor.handle_read();
    actor.apply_refresh_at(Some(&new_apps), now);
    let after = actor.handle_read();
    assert_ne!(before, after);
    assert_eq!(after, render_applications(&new_apps, now));
}

#[test]
fn failed_refresh_clears_and_reads_as_ok_empty() {
    let mut actor = CacheActor::new();
    let now: i64 = 1_700_000_000;
    let apps = sample_apps(now + 86400);
    actor.apply_refresh_at(Some(&apps), now);
    assert!(!actor.handle_read().is_empty());
    actor.apply_refresh_at(None, now);
    let reply = actor.handle_read();
    assert_eq!(reply, "");
    // An empty snapshot is still a successful read: 200, empty body.
    let response = gateway_response(ReadOutcome::Delivered(reply));
    assert_eq!(response.status, 200);
    assert_eq!(response.body, "");
}

#[test]
fn interleaved_reads_see_only_complete_values() {
    let mut actor = CacheActor::new();
    let now: i64 = 1_700_000_000;
    let first = sample_apps(now + 86400);
    let second = sample_apps(now + 9 * 86400);
    let text_first = render_applications(&first, now);
    let text_second = render_applications(&second, now);
    let mut seen = Vec::new();
    seen.push(actor.handle_read());
    actor.apply_refresh_at(Some(&first), now);
    seen.push(actor.handle_read());
    seen.push(actor.handle_read());
    actor.apply_refresh_at(None, now);
    seen.push(actor.handle_read());
    actor.apply_refresh_at(Some(&second), now);
    seen.push(actor.handle_read());
    for reply in &seen {
        assert!(*reply == "" || *reply == text_first || *reply == text_second);
    }
    assert_eq!(seen[4], text_second);
}

#[test]
fn refresh_against_the_clock_clears_on_failure() {
    let mut actor = CacheActor::new();
    let now: i64 = 1_700_000_000;
    actor.apply_refresh_at(Some(&sample_apps(now + 86400)), now);
    actor.apply_refresh(None);
    assert_eq!(actor.handle_read(), "");
}

#[test]
fn refresh_against_the_clock_renders_the_fetch() {
    let mut actor = CacheActor::new();
    let apps = sample_apps(i64::MAX);
    actor.apply_refresh(Some(&apps));
    let reply = actor.handle_read();
    assert!(reply.starts_with("# HELP application_abc_1_0 "));
    assert!(reply.contains("application=\"AppOne\""));
}

#[test]
fn unavailable_cache_is_a_server_error() {
    let response = gateway_response(ReadOutcome::Unavailable);
    assert_eq!(response.status, 500);
    assert_eq!(response.body, "channel closed");
}

#[test]
fn delivered_snapshot_is_served_verbatim() {
    let response = gateway_response(ReadOutcome::Delivered(String::from("payload")));
    assert_eq!(response.status, 200);
    assert_eq!(response.body, "payload");
}

#[test]
fn liveness_probe_is_fixed() {
    assert_eq!(liveness_body(), "I'm Alive :D");
}
