//! The one bit that survives from cycle to cycle: whether the address being
//! served is the fallback. It decides which notification a cycle owes, and
//! moves only once that notification has gone out.

use crate::notify::NotificationKind;
use vstd::prelude::*;

verus! {

/// Which kind of address the last confirmed cycle left in the A record.
#[derive(Clone, Copy, Debug, PartialEq, Eq, Structural)]
pub enum FailoverState {
    /// A measured address is being served.
    Normal,
    /// The fallback address is being served.
    Fallback,
}

impl FailoverState {
    /// Whether the fallback address is being served.
    pub open spec fn serving_fallback(self) -> bool {
        self == FailoverState::Fallback
    }

    /// The state in which the fallback is served exactly if `fallback` holds.
    pub open spec fn of(fallback: bool) -> FailoverState {
        if fallback {
            FailoverState::Fallback
        } else {
            FailoverState::Normal
        }
    }

    /// The notification owed when a cycle has published an address of the
    /// kind `currently_fallback`: none where the kind did not change.
    pub open spec fn due(self, currently_fallback: bool) -> Option<NotificationKind> {
        if currently_fallback == self.serving_fallback() {
            None
        } else if currently_fallback {
            Some(NotificationKind::FallbackEngaged)
        } else {
            Some(NotificationKind::Recovery)
        }
    }

    /// The state after the cycle: it follows the published address only where
    /// the owed notification went out.
    pub open spec fn settled(self, currently_fallback: bool, delivered: bool) -> FailoverState {
        if delivered {
            FailoverState::of(currently_fallback)
        } else {
            self
        }
    }

    /// The state at process start.
    pub fn new() -> (s: FailoverState)
        ensures
            s == FailoverState::Normal,
    {
        FailoverState::Normal
    }

    /// Tells whether the fallback address is being served.
    pub fn is_fallback(self) -> (r: bool)
        ensures
            r == self.serving_fallback(),
    {
        match self {
            FailoverState::Normal => false,
            FailoverState::Fallback => true,
        }
    }

    /// Builds the state from the flag.
    pub fn from_flag(fallback: bool) -> (s: FailoverState)
        ensures
            s == FailoverState::of(fallback),
    {
        if fallback {
            FailoverState::Fallback
        } else {
            FailoverState::Normal
        }
    }

    /// The notification that a published address of the given kind calls for.
    pub fn transition(self, currently_fallback: bool) -> (owed: Option<NotificationKind>)
        ensures
            owed == self.due(currently_fallback),
    {
        if currently_fallback == self.is_fallback() {
            None
        } else if currently_fallback {
            Some(NotificationKind::FallbackEngaged)
        } else {
            Some(NotificationKind::Recovery)
        }
    }

    /// Ends the cycle: takes over the published kind if the notification went
    /// out, and stays as it was if not.
    pub fn commit(self, currently_fallback: bool, delivered: bool) -> (next: FailoverState)
        ensures
            next == self.settled(currently_fallback, delivered),
    {
        if delivered {
            FailoverState::from_flag(currently_fallback)
        } else {
            self
        }
    }
}

/// A notification is owed exactly when the published kind differs from the
/// state, and it names the direction of the change.
pub proof fn law_notification_marks_change(state: FailoverState, currently_fallback: bool)
    ensures
        state.due(currently_fallback) is None <==> currently_fallback == state.serving_fallback(),
        state.due(currently_fallback) == Some(NotificationKind::FallbackEngaged) <==> (state
            == FailoverState::Normal && currently_fallback),
        state.due(currently_fallback) == Some(NotificationKind::Recovery) <==> (state
            == FailoverState::Fallback && !currently_fallback),
{
}

/// A notification that did not go out leaves the state where it was, so the
/// next cycle that publishes the same kind owes the same notification.
pub proof fn law_failed_notification_is_owed_again(state: FailoverState, currently_fallback: bool)
    ensures
        state.settled(currently_fallback, false) == state,
        state.settled(currently_fallback, false).due(currently_fallback) == state.due(
            currently_fallback,
        ),
{
}

/// Once a cycle has settled on a kind, cycles that publish that kind again
/// owe nothing, however many follow.
pub proof fn law_settled_state_is_silent(state: FailoverState, currently_fallback: bool)
    ensures
        state.settled(currently_fallback, true).due(currently_fallback) is None,
        state.due(currently_fallback) is None ==> state.settled(currently_fallback, true)
            == state,
{
}

} // verus!
