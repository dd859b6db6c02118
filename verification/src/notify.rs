//! Notifications: which kinds there are, and how a policy's templates become
//! the mail that is handed to the relay.

use crate::text::{nothing, replaced, substitute};
use vstd::prelude::*;

verus! {

/// The events that the operator can be told about.
#[derive(Clone, Copy, Debug, PartialEq, Eq, Structural)]
pub enum NotificationKind {
    /// A measured address is served again after the fallback.
    Recovery,
    /// The fallback address took over from a measured one.
    FallbackEngaged,
    /// The measurement found no address that is fast enough.
    NoSpeedDetected,
    /// A step of the cycle failed.
    StepError,
}

/// What one kind of event sends: nothing where it is disabled, else a subject
/// and a body in which `%IP%` and `%ERROR%` stand for the values of the event.
#[derive(Clone, Debug)]
pub struct EmailPolicy {
    pub enabled: bool,
    pub subject: String,
    pub body: String,
}

/// One event, with the values that its templates take.
#[derive(Clone, Debug)]
pub struct NotificationEvent {
    pub kind: NotificationKind,
    pub ip: String,
    pub error: String,
}

impl NotificationEvent {
    /// An event about the address being served: a recovery, the fallback
    /// taking over, or no candidate being fast enough. It has no error text.
    pub fn about_address(kind: NotificationKind, ip: &str) -> (event: NotificationEvent)
        ensures
            event.kind == kind,
            event.ip@ == ip@,
            event.error@ == Seq::<char>::empty(),
    {
        NotificationEvent { kind, ip: ip.to_owned(), error: nothing().to_owned() }
    }

    /// The event of a failed step. It has the error text and no address.
    pub fn about_failure(detail: &str) -> (event: NotificationEvent)
        ensures
            event.kind == NotificationKind::StepError,
            event.ip@ == Seq::<char>::empty(),
            event.error@ == detail@,
    {
        NotificationEvent {
            kind: NotificationKind::StepError,
            ip: nothing().to_owned(),
            error: detail.to_owned(),
        }
    }
}

/// A plain-text mail.
#[derive(Clone, Debug)]
pub struct OutgoingMail {
    pub from: String,
    pub to: String,
    pub subject: String,
    pub body: String,
}

/// A mail as plain values.
pub struct MailView {
    pub from: Seq<char>,
    pub to: Seq<char>,
    pub subject: Seq<char>,
    pub body: Seq<char>,
}

impl View for OutgoingMail {
    type V = MailView;

    open spec fn view(&self) -> MailView {
        MailView { from: self.from@, to: self.to@, subject: self.subject@, body: self.body@ }
    }
}

/// The placeholder for the address.
pub open spec fn ip_placeholder() -> Seq<char> {
    "%IP%"@
}

/// The placeholder for the error text.
pub open spec fn error_placeholder() -> Seq<char> {
    "%ERROR%"@
}

/// A template with the address filled in first and the error text second.
pub open spec fn rendered(template: Seq<char>, ip: Seq<char>, error: Seq<char>) -> Seq<char> {
    replaced(replaced(template, ip_placeholder(), ip), error_placeholder(), error)
}

/// The mail that a policy sends for the given values, if it sends one: from
/// the operator's address to that same address.
pub open spec fn composed(
    policy: EmailPolicy,
    address: Seq<char>,
    ip: Seq<char>,
    error: Seq<char>,
) -> Option<MailView> {
    if policy.enabled {
        Some(
            MailView {
                from: address,
                to: address,
                subject: rendered(policy.subject@, ip, error),
                body: rendered(policy.body@, ip, error),
            },
        )
    } else {
        None
    }
}

/// Fills the placeholders of a template.
pub fn render(template: &str, ip: &str, error: &str) -> (out: String)
    ensures
        out@ == rendered(template@, ip@, error@),
{
    let with_ip = substitute(template, "%IP%", ip);
    substitute(with_ip.as_str(), "%ERROR%", error)
}

/// Builds the mail that a policy sends, from the operator's address to that
/// same address; a disabled policy sends none.
pub fn compose(policy: &EmailPolicy, address: &str, ip: &str, error: &str) -> (mail: Option<
    OutgoingMail,
>)
    ensures
        mail is Some <==> policy.enabled,
        match mail {
            Some(m) => composed(*policy, address@, ip@, error@) == Some(m@),
            None => composed(*policy, address@, ip@, error@) is None,
        },
{
    if policy.enabled {
        let subject = render(policy.subject.as_str(), ip, error);
        let body = render(policy.body.as_str(), ip, error);
        Some(OutgoingMail { from: address.to_owned(), to: address.to_owned(), subject, body })
    } else {
        None
    }
}

} // verus!
