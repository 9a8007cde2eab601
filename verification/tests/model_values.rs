//! Value objects, configuration, and their small computations.

use mission_hub::config::{Database, DotEnvyConfig, Server};
use mission_hub::models::{
    like_pattern, AddNotificationEntity, Claims, MissionStatuses, Passport,
    RegisterBrawlerModel,
};

#[test]
fn registration_model_converts_to_its_entity() {
    let model = RegisterBrawlerModel {
        username: "ada".to_string(),
        password: "SECRET-REDACTED".to_string(),
        display_name: "Ada".to_string(),
    };
    let entity = model.to_entity();
    assert_eq!(entity.username, "ada");
    assert_eq!(entity.password, "SECRET-REDACTED");
    assert_eq!(entity.display_name, "Ada");
}

#[test]
fn like_pattern_wraps_the_name_in_wildcards() {
    assert_eq!(like_pattern("vault"), "%vault%");
    assert_eq!(like_pattern(""), "%%");
}

#[test]
fn mission_statuses_render_their_stored_names() {
    assert_eq!(MissionStatuses::Pending.as_text(), "Pending");
    assert_eq!(MissionStatuses::InProgress.as_text(), "InProgress");
    assert_eq!(MissionStatuses::Completed.as_text(), "Completed");
    assert_eq!(MissionStatuses::Failed.as_text(), "Failed");
}

#[test]
fn claims_expire_exactly_ttl_after_issue() {
    let claims = Claims::with_ttl("7".to_string(), 1_700_000_000, 86_400);
    assert_eq!(claims.sub, "7");
    assert_eq!(claims.iat, 1_700_000_000);
    assert_eq!(claims.exp, 1_700_086_400);
}

#[test]
fn passport_carries_every_field_it_was_given() {
    let passport = Passport::new(
        7,
        "token".to_string(),
        "Ada".to_string(),
        Some("http://avatar".to_string()),
        None,
        None,
        Some("ada@example.com".to_string()),
        None,
        None,
    );
    assert_eq!(passport.id, 7);
    assert_eq!(passport.token, "token");
    assert_eq!(passport.display_name, "Ada");
    assert_eq!(passport.avatar_url.as_deref(), Some("http://avatar"));
    assert_eq!(passport.bio, None);
    assert_eq!(passport.contact_email.as_deref(), Some("ada@example.com"));
}

#[test]
fn notification_entity_assembles_from_its_parts() {
    let n = AddNotificationEntity::new(
        3,
        "new_crew_joined".to_string(),
        "A new crew member joined your mission: Vault Run".to_string(),
        Some(42),
    );
    assert_eq!(n.brawler_id, 3);
    assert_eq!(n.type_, "new_crew_joined");
    assert_eq!(n.related_id, Some(42));
}

#[test]
fn body_limit_converts_mebibytes_to_bytes_or_reports_overflow() {
    let server = Server { port: 8080, body_limit: 10, timeout: 30 };
    assert_eq!(server.body_limit_bytes(), Some(10 * 1024 * 1024));
    let huge = Server { port: 8080, body_limit: u64::MAX, timeout: 30 };
    assert_eq!(huge.body_limit_bytes(), None);
}

#[test]
fn config_holds_its_sections() {
    let config = DotEnvyConfig {
        server: Server { port: 3000, body_limit: 5, timeout: 60 },
        database: Database { url: "postgres://localhost/squad".to_string() },
        secret: "SECRET-REDACTED".to_string(),
    };
    assert_eq!(config.server.port, 3000);
    assert_eq!(config.database.url, "postgres://localhost/squad");
}
