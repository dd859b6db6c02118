use dns_failover::notify::{EmailPolicy, NotificationEvent, NotificationKind};
use dns_failover::settings::Settings;
use dns_failover::throughput::Throughput;

fn policy(subject: &str) -> EmailPolicy {
    EmailPolicy {
        enabled: true,
        subject: subject.to_string(),
        body: "%IP%|%ERROR%".to_string(),
    }
}

fn settings() -> Settings {
    Settings {
        auth_key: String::new(),
        zone_id: String::new(),
        auth_email: String::new(),
        record_name: String::new(),
        host_name: String::new(),
        interval: 600,
        retry_interval: 60,
        fallback_ip: "1.2.3.4".to_string(),
        fallback_enabled: true,
        threshold: Throughput::from_bits(0.05f64.to_bits()),
        mail_address: "ops@example.com".to_string(),
        on_recovery: policy("recovery"),
        on_fallback: policy("fallback"),
        on_error: policy("error"),
        on_no_speed: policy("no speed"),
    }
}

#[test]
fn each_kind_has_its_own_policy() {
    let settings = settings();
    assert_eq!(settings.policy_for(NotificationKind::Recovery).subject, "recovery");
    assert_eq!(settings.policy_for(NotificationKind::FallbackEngaged).subject, "fallback");
    assert_eq!(settings.policy_for(NotificationKind::StepError).subject, "error");
    assert_eq!(settings.policy_for(NotificationKind::NoSpeedDetected).subject, "no speed");
}

#[test]
fn notification_renders_the_policy_of_the_kind() {
    let settings = settings();
    let event = NotificationEvent::about_address(NotificationKind::FallbackEngaged, "1.2.3.4");
    let mail = settings.notification(&event).unwrap();
    assert_eq!(mail.subject, "fallback");
    assert_eq!(mail.body, "1.2.3.4|");
    assert_eq!(mail.from, "ops@example.com");
    assert_eq!(mail.to, "ops@example.com");
    let mail = settings.notification(&NotificationEvent::about_failure("boom")).unwrap();
    assert_eq!(mail.subject, "error");
    assert_eq!(mail.body, "|boom");
}

#[test]
fn notification_of_a_disabled_kind_is_none() {
    let mut settings = settings();
    settings.on_recovery.enabled = false;
    let event = NotificationEvent::about_address(NotificationKind::Recovery, "9.9.9.9");
    assert!(settings.notification(&event).is_none());
    let event = NotificationEvent::about_address(NotificationKind::FallbackEngaged, "1.2.3.4");
    assert!(settings.notification(&event).is_some());
}
