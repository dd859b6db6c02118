//! What holds of the control loop whatever the outside world does.

use crate::control::{
    clear_command, mail_command, measure_command, normal_sleep, proceed, retry_sleep, step,
    ControllerView, Event, Removal, Stage,
};
use crate::dns::update_outcome_of;
use crate::failure::{FailureKind, FailureModel};
use crate::measurement::{
    csv_first_record, csv_header, no_entries_text, parse_failure, parsed, ReadingView,
};
use crate::notify::NotificationKind;
use crate::settings::Settings;
use vstd::prelude::*;

verus! {

/// Where a controller stands after a sequence of events.
pub open spec fn run(ctl: ControllerView, settings: Settings, events: Seq<Event>) -> ControllerView
    decreases events.len(),
{
    if events.len() == 0 {
        ctl
    } else {
        step(run(ctl, settings, events.drop_last()), settings, events.last()).0
    }
}

/// How often the failover state changes over a sequence of events.
pub open spec fn changes(ctl: ControllerView, settings: Settings, events: Seq<Event>) -> nat
    decreases events.len(),
{
    if events.len() == 0 {
        0
    } else {
        let before = run(ctl, settings, events.drop_last());
        let after = step(before, settings, events.last()).0;
        changes(ctl, settings, events.drop_last()) + if after.state != before.state {
            1nat
        } else {
            0nat
        }
    }
}

/// Whether the event tells a controller that waits for the provider's answer
/// to an update that the update was accepted.
pub open spec fn publish_confirmed(ctl: ControllerView, event: Event) -> bool {
    ctl.stage == Stage::Updating && match event {
        Event::Responded(Ok(body)) => update_outcome_of(body@) is Ok,
        _ => false,
    }
}

/// Whether the event tells a controller that waits for the mail about a
/// change of kind that the mail went out.
pub open spec fn announcement_delivered(ctl: ControllerView, event: Event) -> bool {
    ctl.stage == Stage::Announcing && event matches Event::MailHandled(Ok(()))
}

/// The failover state changes in one step only: on the provider's word that
/// the update was accepted where no mail is configured, or else on the mail
/// about the change having gone out. The change ends the cycle, with the
/// normal interval to sleep, and the new state is the kind of the address
/// that was published.
pub proof fn law_state_follows_confirmed_publish(
    ctl: ControllerView,
    settings: Settings,
    event: Event,
)
    requires
        step(ctl, settings, event).0.state != ctl.state,
    ensures
        publish_confirmed(ctl, event) || announcement_delivered(ctl, event),
        step(ctl, settings, event).0.stage == Stage::Waiting,
        step(ctl, settings, event).1 == proceed(normal_sleep(settings)),
        step(ctl, settings, event).0.state.serving_fallback() == ctl.on_fallback(settings),
{
}

/// A step that fails never changes the failover state.
pub proof fn law_failure_keeps_state(ctl: ControllerView, settings: Settings, event: Event)
    requires
        step(ctl, settings, event).1.failure is Some,
    ensures
        step(ctl, settings, event).0.state == ctl.state,
{
}

/// Every failure is handled alike. The cycle is over: either the retry
/// interval is slept at once, or the operator is told first and the retry
/// interval is slept whatever becomes of that mail. The event after the
/// sleep starts a new cycle at its first step.
pub proof fn law_failure_restarts_from_the_first_step(
    ctl: ControllerView,
    settings: Settings,
    event: Event,
    mail_outcome: Event,
    wake: Event,
)
    requires
        step(ctl, settings, event).1.failure is Some,
    ensures
        ({
            let failed = step(ctl, settings, event);
            let asleep = if failed.0.stage == Stage::Reporting {
                step(failed.0, settings, mail_outcome)
            } else {
                failed
            };
            &&& failed.0.stage == Stage::Reporting || failed.0.stage == Stage::Waiting
            &&& failed.0.stage == Stage::Reporting ==> (failed.1.command is SendMail
                && failed.1.command->SendMail_kind == NotificationKind::StepError)
            &&& asleep.0.stage == Stage::Waiting
            &&& asleep.0.state == ctl.state
            &&& asleep.1.command == retry_sleep(settings)
            &&& step(asleep.0, settings, wake).0.stage == Stage::Clearing
            &&& step(asleep.0, settings, wake).1 == proceed(clear_command())
        }),
{
}

/// The mail about a change of kind is only ever waited for after the
/// provider has accepted the update.
pub proof fn law_announcement_follows_publish(
    ctl: ControllerView,
    settings: Settings,
    event: Event,
)
    requires
        ctl.stage != Stage::Announcing,
        step(ctl, settings, event).0.stage == Stage::Announcing,
    ensures
        publish_confirmed(ctl, event),
{
}

/// However many events pass, and however many cycles fail: as long as the
/// provider accepts no update, the failover state stays what it was.
pub proof fn law_failed_publish_keeps_state(
    ctl: ControllerView,
    settings: Settings,
    events: Seq<Event>,
)
    requires
        ctl.stage != Stage::Announcing,
        forall|k: int|
            0 <= k < events.len() ==> !publish_confirmed(
                run(ctl, settings, #[trigger] events.take(k)),
                events[k],
            ),
    ensures
        run(ctl, settings, events).state == ctl.state,
        run(ctl, settings, events).stage != Stage::Announcing,
    decreases events.len(),
{
    if events.len() > 0 {
        let shorter = events.drop_last();
        assert forall|k: int| 0 <= k < shorter.len() implies !publish_confirmed(
            run(ctl, settings, #[trigger] shorter.take(k)),
            shorter[k],
        ) by {
            assert(shorter.take(k) == events.take(k));
        }
        law_failed_publish_keeps_state(ctl, settings, shorter);
        assert(events.take(events.len() - 1) == shorter);
        let before = run(ctl, settings, shorter);
        assert(!publish_confirmed(before, events[events.len() - 1]));
    }
}

/// Events after which the controller is never between two cycles leave the
/// failover state unchanged.
proof fn lemma_unfinished_cycle_keeps_state(
    ctl: ControllerView,
    settings: Settings,
    events: Seq<Event>,
)
    requires
        forall|k: int|
            0 < k <= events.len() ==> run(ctl, settings, #[trigger] events.take(k)).stage
                != Stage::Waiting,
    ensures
        changes(ctl, settings, events) == 0,
    decreases events.len(),
{
    if events.len() > 0 {
        let shorter = events.drop_last();
        assert forall|k: int| 0 < k <= shorter.len() implies run(
            ctl,
            settings,
            #[trigger] shorter.take(k),
        ).stage != Stage::Waiting by {
            assert(shorter.take(k) == events.take(k));
        }
        lemma_unfinished_cycle_keeps_state(ctl, settings, shorter);
        assert(events.take(events.len() as int) == events);
        let before = run(ctl, settings, shorter);
        if step(before, settings, events.last()).0.state != before.state {
            law_state_follows_confirmed_publish(before, settings, events.last());
        }
    }
}

/// The failover state changes at most once per cycle: over events between
/// which the controller is never between two cycles, it changes once or not
/// at all.
pub proof fn law_one_change_per_cycle(ctl: ControllerView, settings: Settings, events: Seq<Event>)
    requires
        forall|k: int|
            0 < k < events.len() ==> run(ctl, settings, #[trigger] events.take(k)).stage
                != Stage::Waiting,
    ensures
        changes(ctl, settings, events) <= 1,
{
    if events.len() > 0 {
        let shorter = events.drop_last();
        assert forall|k: int| 0 < k <= shorter.len() implies run(
            ctl,
            settings,
            #[trigger] shorter.take(k),
        ).stage != Stage::Waiting by {
            assert(shorter.take(k) == events.take(k));
        }
        lemma_unfinished_cycle_keeps_state(ctl, settings, shorter);
    }
}

/// A mail about a change of kind that does not go out leaves the failover
/// state where it was and has the retry interval slept; and the next cycle
/// that publishes the same address is answered with the same mail.
pub proof fn law_failed_announcement_is_repeated(
    ctl: ControllerView,
    settings: Settings,
    event: Event,
    later: ControllerView,
    answer: Event,
)
    requires
        ctl.stage == Stage::Announcing,
        !announcement_delivered(ctl, event),
        ctl.state.due(ctl.on_fallback(settings)) is Some,
        settings.policy(ctl.state.due(ctl.on_fallback(settings))->Some_0).enabled,
        later.state == step(ctl, settings, event).0.state,
        later.candidate == ctl.candidate,
        publish_confirmed(later, answer),
    ensures
        step(ctl, settings, event).0.state == ctl.state,
        step(ctl, settings, event).0.stage == Stage::Waiting,
        step(ctl, settings, event).1.command == retry_sleep(settings),
        step(later, settings, answer).0 == later.at(Stage::Announcing),
        step(later, settings, answer).1 == proceed(
            mail_command(
                ctl.state.due(ctl.on_fallback(settings))->Some_0,
                settings.mail(
                    ctl.state.due(ctl.on_fallback(settings))->Some_0,
                    ctl.candidate,
                    Seq::<char>::empty(),
                )->Some_0,
            ),
        ),
{
}

/// A cycle that publishes an address of the kind already served sends no
/// mail about a change and leaves the failover state as it is.
pub proof fn law_unchanged_kind_sends_nothing(
    ctl: ControllerView,
    settings: Settings,
    answer: Event,
)
    requires
        publish_confirmed(ctl, answer),
        ctl.on_fallback(settings) == ctl.state.serving_fallback(),
    ensures
        step(ctl, settings, answer).0 == ctl.at(Stage::Waiting),
        step(ctl, settings, answer).1 == proceed(normal_sleep(settings)),
{
}

/// Once the mail about a change has gone out, a later cycle that publishes
/// an address of the same kind sends none: the same mail never goes out in
/// two cycles in a row.
pub proof fn law_delivered_announcement_is_not_repeated(
    ctl: ControllerView,
    settings: Settings,
    event: Event,
    later: ControllerView,
    answer: Event,
)
    requires
        announcement_delivered(ctl, event),
        later.state == step(ctl, settings, event).0.state,
        later.on_fallback(settings) == ctl.on_fallback(settings),
        publish_confirmed(later, answer),
    ensures
        step(later, settings, answer).0 == later.at(Stage::Waiting),
        step(later, settings, answer).1 == proceed(normal_sleep(settings)),
{
}

/// A result file that is not there when it is to be removed is no failure:
/// the cycle goes on to the measurement, as it does after a removal.
pub proof fn law_absent_result_is_no_failure(ctl: ControllerView, settings: Settings)
    requires
        ctl.stage == Stage::Clearing,
    ensures
        step(ctl, settings, Event::Cleared(Removal::Absent)) == (
            ctl.at(Stage::Measuring),
            proceed(measure_command()),
        ),
        step(ctl, settings, Event::Cleared(Removal::Absent)) == step(
            ctl,
            settings,
            Event::Cleared(Removal::Removed),
        ),
{
}

/// A result file with a header and no row after it is a parse failure, and
/// the cycle that reads it is given up without a change of state.
pub proof fn law_empty_result_is_parse_failure(
    ctl: ControllerView,
    settings: Settings,
    contents: String,
)
    requires
        ctl.stage == Stage::Reading,
        csv_header(contents@) is Ok,
        csv_first_record(contents@) is None,
    ensures
        parsed(contents@) == Err::<ReadingView, FailureModel>(parse_failure(no_entries_text())),
        step(ctl, settings, Event::ResultRead(Ok(contents))).1.failure == Some(
            parse_failure(no_entries_text()),
        ),
        step(ctl, settings, Event::ResultRead(Ok(contents))).0.state == ctl.state,
        parse_failure(no_entries_text()).kind == FailureKind::ParseFailure,
{
}

} // verus!
