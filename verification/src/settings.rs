//! The part of the configuration that the control loop reads. It is loaded
//! once and does not change while the process runs.

use crate::notify::{
    compose, composed, EmailPolicy, MailView, NotificationEvent, NotificationKind, OutgoingMail,
};
use crate::throughput::Throughput;
use vstd::prelude::*;

verus! {

/// The configuration of one controller.
#[derive(Clone, Debug)]
pub struct Settings {
    /// The key that authenticates calls to the DNS provider.
    pub auth_key: String,
    /// The zone that holds the record.
    pub zone_id: String,
    /// The account that authenticates calls to the DNS provider.
    pub auth_email: String,
    /// The name that an update writes into the record.
    pub record_name: String,
    /// The name by which the record is found in the zone's listing.
    pub host_name: String,
    /// Seconds between two cycles that went well.
    pub interval: u64,
    /// Seconds before a cycle is tried again.
    pub retry_interval: u64,
    /// The address served when no candidate is fast enough.
    pub fallback_ip: String,
    /// Whether the fallback is taken at once; where it is not, a cycle waits
    /// the retry interval before it publishes the fallback.
    pub fallback_enabled: bool,
    /// The speed below which a candidate is not fast enough.
    pub threshold: Throughput,
    /// The operator's address: notifications go from it and to it.
    pub mail_address: String,
    /// What is sent when a measured address takes over again.
    pub on_recovery: EmailPolicy,
    /// What is sent when the fallback takes over.
    pub on_fallback: EmailPolicy,
    /// What is sent when a step fails.
    pub on_error: EmailPolicy,
    /// What is sent when no candidate is fast enough.
    pub on_no_speed: EmailPolicy,
}

impl Settings {
    /// The policy of a kind of notification.
    pub open spec fn policy(self, kind: NotificationKind) -> EmailPolicy {
        match kind {
            NotificationKind::Recovery => self.on_recovery,
            NotificationKind::FallbackEngaged => self.on_fallback,
            NotificationKind::NoSpeedDetected => self.on_no_speed,
            NotificationKind::StepError => self.on_error,
        }
    }

    /// The mail that an event of the given kind and values sends, if the
    /// policy of its kind sends one.
    pub open spec fn mail(self, kind: NotificationKind, ip: Seq<char>, error: Seq<char>) -> Option<
        MailView,
    > {
        composed(self.policy(kind), self.mail_address@, ip, error)
    }

    /// The policy of a kind of notification.
    pub fn policy_for(&self, kind: NotificationKind) -> (policy: &EmailPolicy)
        ensures
            *policy == self.policy(kind),
    {
        match kind {
            NotificationKind::Recovery => &self.on_recovery,
            NotificationKind::FallbackEngaged => &self.on_fallback,
            NotificationKind::NoSpeedDetected => &self.on_no_speed,
            NotificationKind::StepError => &self.on_error,
        }
    }

    /// Builds the mail that an event sends: the templates of its kind's
    /// policy with the values of the event filled in, and none where that
    /// policy is disabled.
    pub fn notification(&self, event: &NotificationEvent) -> (mail: Option<OutgoingMail>)
        ensures
            mail is Some <==> self.policy(event.kind).enabled,
            match mail {
                Some(m) => self.mail(event.kind, event.ip@, event.error@) == Some(m@),
                None => self.mail(event.kind, event.ip@, event.error@) is None,
            },
    {
        compose(
            self.policy_for(event.kind),
            self.mail_address.as_str(),
            event.ip.as_str(),
            event.error.as_str(),
        )
    }
}

} // verus!
