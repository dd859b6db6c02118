use dns_failover::notify::{compose, render, EmailPolicy, NotificationEvent, NotificationKind};

fn policy(enabled: bool) -> EmailPolicy {
    EmailPolicy {
        enabled,
        subject: "Address is now %IP%".to_string(),
        body: "Serving %IP%. Last error: %ERROR%".to_string(),
    }
}

#[test]
fn render_fills_both_placeholders() {
    assert_eq!(
        render("ip=%IP% error=%ERROR% ip=%IP%", "1.2.3.4", "timed out"),
        "ip=1.2.3.4 error=timed out ip=1.2.3.4"
    );
}

#[test]
fn render_fills_the_address_first() {
    assert_eq!(render("%IP%", "%ERROR%", "boom"), "boom");
    assert_eq!(render("%ERROR%", "1.2.3.4", "%IP%"), "%IP%");
}

#[test]
fn render_leaves_a_template_without_placeholders() {
    assert_eq!(render("all is well", "1.2.3.4", "none"), "all is well");
}

#[test]
fn render_with_empty_values_removes_the_placeholders() {
    assert_eq!(render("[%IP%][%ERROR%]", "", ""), "[][]");
}

#[test]
fn disabled_policy_sends_nothing() {
    assert!(compose(&policy(false), "ops@example.com", "1.2.3.4", "").is_none());
}

#[test]
fn enabled_policy_sends_the_rendered_mail() {
    let mail = compose(&policy(true), "ops@example.com", "1.2.3.4", "refused").unwrap();
    assert_eq!(mail.from, "ops@example.com");
    assert_eq!(mail.to, "ops@example.com");
    assert_eq!(mail.subject, "Address is now 1.2.3.4");
    assert_eq!(mail.body, "Serving 1.2.3.4. Last error: refused");
}

#[test]
fn event_about_an_address_has_no_error_text() {
    let event = NotificationEvent::about_address(NotificationKind::Recovery, "9.9.9.9");
    assert_eq!(event.kind, NotificationKind::Recovery);
    assert_eq!(event.ip, "9.9.9.9");
    assert_eq!(event.error, "");
}

#[test]
fn event_about_a_failure_has_no_address() {
    let event = NotificationEvent::about_failure("timed out");
    assert_eq!(event.kind, NotificationKind::StepError);
    assert_eq!(event.ip, "");
    assert_eq!(event.error, "timed out");
}
