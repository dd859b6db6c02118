//! The control loop, as a machine that is driven from outside.
//!
//! A cycle clears the old result, runs the measurement, reads and parses the
//! result, selects an address, publishes it and tells the operator if the
//! kind of address changed. The machine never does any of that work itself:
//! each call of `advance` takes the outcome of the command it gave last and
//! answers with the next command. Whatever a step fails with, the cycle is
//! given up, the operator is told if the configuration asks for it, and
//! after the retry interval a new cycle starts from the first step.

use crate::dns::{
    a_record, call_headers, check_update_body, header_views, record_address, record_id_from_body,
    record_id_of, records_address, records_url, request_headers, update_outcome_of, update_record,
    update_url, DnsRecord, Header, HeaderView, RecordView,
};
use crate::failure::{plain_failure, FailureKind, FailureModel, StepFailure};
use crate::gate::FailoverState;
use crate::measurement::{parse_csv_result, parsed, Reading, ReadingView};
use crate::notify::{MailView, NotificationEvent, NotificationKind, OutgoingMail};
use crate::selector::{select, selected};
use crate::settings::Settings;
use crate::text::{same_text, text_views};
use crate::throughput::Throughput;
use crate::tool::{
    arguments, fixed_arguments, program, program_path, result_file, result_file_name,
};
use vstd::prelude::*;

verus! {

/// The seconds after which a call over the network, to the provider or to
/// the mail relay, is given up.
pub const NETWORK_TIMEOUT_SECS: u64 = 10;

/// What the machine is waiting for.
#[derive(Clone, Copy, Debug, PartialEq, Eq, Structural)]
pub enum Stage {
    /// Between two cycles: for the process to start or a sleep to end.
    Waiting,
    /// For the old result to be removed.
    Clearing,
    /// For the measurement tool to exit.
    Measuring,
    /// For the contents of the result file.
    Reading,
    /// For the measured speed as a number.
    Decoding,
    /// For the no-speed notification to be handed over.
    Warning,
    /// For the extra wait that a disabled fallback asks for.
    Holding,
    /// For the listing of the zone's records.
    Listing,
    /// For the provider's answer to the update.
    Updating,
    /// For the notification of a change of kind to be handed over.
    Announcing,
    /// For the notification of a failure to be handed over.
    Reporting,
}

/// What removing the old result file came to.
#[derive(Clone, Debug)]
pub enum Removal {
    /// The file was there and is gone.
    Removed,
    /// There was no file.
    Absent,
    /// The file could not be removed.
    Failed(String),
}

/// The outcome of a command, as the program reports it. Text in an `Err` is
/// what the operator is shown.
#[derive(Debug)]
pub enum Event {
    /// The process started, or a sleep ended.
    Woke,
    /// The old result was dealt with.
    Cleared(Removal),
    /// The measurement tool exited, whatever its exit status; or it could
    /// not be started.
    ToolFinished(Result<(), String>),
    /// The contents of the result file, or why it could not be read.
    ResultRead(Result<String, String>),
    /// The measured speed as a number, or why the text is none.
    ThroughputDecoded(Result<Throughput, String>),
    /// A mail was handed to the relay, or why it was not.
    MailHandled(Result<(), String>),
    /// The body of the provider's response, or why the call did not
    /// complete.
    Responded(Result<Vec<u8>, String>),
}

/// What the program is to do next.
#[derive(Clone, Debug)]
pub enum Command {
    /// Remove the file from the tool's directory; a file that is not there
    /// is no failure.
    ClearResult { file: String },
    /// Run the program with the arguments in the tool's directory and wait
    /// for it to exit.
    RunMeasurement { program: String, arguments: Vec<String> },
    /// Read the file from the tool's directory.
    ReadResult { file: String },
    /// Read the text as a decimal number.
    DecodeThroughput { text: String },
    /// Send the mail from and to the configured address, giving up after
    /// the timeout.
    SendMail { kind: NotificationKind, mail: OutgoingMail, timeout_secs: u64 },
    /// Get the listing of the zone's records, giving up after the timeout.
    ListRecords { url: String, headers: Vec<Header>, timeout_secs: u64 },
    /// Put the record, giving up after the timeout; `fallback` tells
    /// whether the record serves the fallback address.
    UpdateRecord {
        url: String,
        headers: Vec<Header>,
        record: DnsRecord,
        fallback: bool,
        timeout_secs: u64,
    },
    /// Sleep.
    Sleep { seconds: u64 },
}

/// A command as plain values.
pub enum CommandView {
    ClearResult { file: Seq<char> },
    RunMeasurement { program: Seq<char>, arguments: Seq<Seq<char>> },
    ReadResult { file: Seq<char> },
    DecodeThroughput { text: Seq<char> },
    SendMail { kind: NotificationKind, mail: MailView, timeout_secs: u64 },
    ListRecords { url: Seq<char>, headers: Seq<HeaderView>, timeout_secs: u64 },
    UpdateRecord {
        url: Seq<char>,
        headers: Seq<HeaderView>,
        record: RecordView,
        fallback: bool,
        timeout_secs: u64,
    },
    Sleep { seconds: u64 },
}

impl View for Command {
    type V = CommandView;

    open spec fn view(&self) -> CommandView {
        match self {
            Command::ClearResult { file } => CommandView::ClearResult { file: file@ },
            Command::RunMeasurement { program, arguments } => CommandView::RunMeasurement {
                program: program@,
                arguments: text_views(arguments@),
            },
            Command::ReadResult { file } => CommandView::ReadResult { file: file@ },
            Command::DecodeThroughput { text } => CommandView::DecodeThroughput { text: text@ },
            Command::SendMail { kind, mail, timeout_secs } => CommandView::SendMail {
                kind: *kind,
                mail: mail@,
                timeout_secs: *timeout_secs,
            },
            Command::ListRecords { url, headers, timeout_secs } => CommandView::ListRecords {
                url: url@,
                headers: header_views(headers@),
                timeout_secs: *timeout_secs,
            },
            Command::UpdateRecord {
                url,
                headers,
                record,
                fallback,
                timeout_secs,
            } => CommandView::UpdateRecord {
                url: url@,
                headers: header_views(headers@),
                record: record@,
                fallback: *fallback,
                timeout_secs: *timeout_secs,
            },
            Command::Sleep { seconds } => CommandView::Sleep { seconds: *seconds },
        }
    }
}

/// The answer of the machine to an event: the next command, and the failure
/// that the event brought, if it brought one.
#[derive(Clone, Debug)]
pub struct Reaction {
    pub command: Command,
    pub failure: Option<StepFailure>,
}

/// A reaction as plain values.
pub struct ReactionView {
    pub command: CommandView,
    pub failure: Option<FailureModel>,
}

impl View for Reaction {
    type V = ReactionView;

    open spec fn view(&self) -> ReactionView {
        ReactionView {
            command: self.command@,
            failure: match self.failure {
                Some(f) => Some(f@),
                None => None,
            },
        }
    }
}

/// What the loop owns: the failover state, which alone decides anything
/// from one cycle to the next; where the cycle stands; the number of the
/// cycle, counted from 1 and held at the largest number once it is reached;
/// and the address the cycle is about (the measured one until the speed is
/// known, the selected one from then on).
#[derive(Clone, Debug)]
pub struct Controller {
    pub state: FailoverState,
    pub stage: Stage,
    pub cycle: u64,
    pub candidate: String,
}

/// A controller as plain values.
pub struct ControllerView {
    pub state: FailoverState,
    pub stage: Stage,
    pub cycle: u64,
    pub candidate: Seq<char>,
}

impl View for Controller {
    type V = ControllerView;

    open spec fn view(&self) -> ControllerView {
        ControllerView {
            state: self.state,
            stage: self.stage,
            cycle: self.cycle,
            candidate: self.candidate@,
        }
    }
}

impl ControllerView {
    /// The same controller at another stage.
    pub open spec fn at(self, stage: Stage) -> ControllerView {
        ControllerView { stage, ..self }
    }

    /// Whether the address of the cycle is the fallback address.
    pub open spec fn on_fallback(self, settings: Settings) -> bool {
        self.candidate == settings.fallback_ip@
    }
}

/// The number of the cycle after cycle `n`.
pub open spec fn following_cycle(n: u64) -> u64 {
    if n < u64::MAX {
        (n + 1) as u64
    } else {
        n
    }
}

/// What is said of a step whose outcome was not the one reported.
pub open spec fn unexpected_text() -> Seq<char> {
    "The step ended without its result."@
}

/// A reaction that brings no failure.
pub open spec fn proceed(command: CommandView) -> ReactionView {
    ReactionView { command, failure: None }
}

/// The command that removes the old result.
pub open spec fn clear_command() -> CommandView {
    CommandView::ClearResult { file: result_file_name() }
}

/// The command that runs the measurement.
pub open spec fn measure_command() -> CommandView {
    CommandView::RunMeasurement { program: program_path(), arguments: fixed_arguments() }
}

/// The command that reads the result.
pub open spec fn read_command() -> CommandView {
    CommandView::ReadResult { file: result_file_name() }
}

/// The command that sends a mail.
pub open spec fn mail_command(kind: NotificationKind, mail: MailView) -> CommandView {
    CommandView::SendMail { kind, mail, timeout_secs: NETWORK_TIMEOUT_SECS }
}

/// The sleep before a cycle is tried again.
pub open spec fn retry_sleep(settings: Settings) -> CommandView {
    CommandView::Sleep { seconds: settings.retry_interval }
}

/// The sleep after a cycle that went well.
pub open spec fn normal_sleep(settings: Settings) -> CommandView {
    CommandView::Sleep { seconds: settings.interval }
}

/// A step failed: the cycle is over. The operator is told where the policy
/// for failures is enabled; then, or at once, the retry interval is slept.
pub open spec fn give_up(ctl: ControllerView, settings: Settings, failure: FailureModel) -> (
    ControllerView,
    ReactionView,
) {
    match settings.mail(NotificationKind::StepError, Seq::<char>::empty(), failure.detail) {
        Some(mail) => (
            ctl.at(Stage::Reporting),
            ReactionView {
                command: mail_command(NotificationKind::StepError, mail),
                failure: Some(failure),
            },
        ),
        None => (
            ctl.at(Stage::Waiting),
            ReactionView { command: retry_sleep(settings), failure: Some(failure) },
        ),
    }
}

/// Publishing starts with the listing of the zone's records.
pub open spec fn begin_publish(ctl: ControllerView, settings: Settings) -> (
    ControllerView,
    ReactionView,
) {
    (
        ctl.at(Stage::Listing),
        proceed(
            CommandView::ListRecords {
                url: records_address(settings.zone_id@),
                headers: call_headers(settings.auth_email@, settings.auth_key@),
                timeout_secs: NETWORK_TIMEOUT_SECS,
            },
        ),
    )
}

/// After the no-speed notification: a disabled fallback adds a wait of the
/// retry interval, and the fallback is published all the same.
pub open spec fn after_warning(ctl: ControllerView, settings: Settings) -> (
    ControllerView,
    ReactionView,
) {
    if settings.fallback_enabled {
        begin_publish(ctl, settings)
    } else {
        (ctl.at(Stage::Holding), proceed(retry_sleep(settings)))
    }
}

/// The speed is known: the address is selected, and a speed below the
/// threshold is told to the operator where the policy is enabled.
pub open spec fn assess(ctl: ControllerView, settings: Settings, throughput: Throughput) -> (
    ControllerView,
    ReactionView,
) {
    let chosen = ControllerView {
        candidate: selected(
            ctl.candidate,
            throughput,
            settings.threshold,
            settings.fallback_ip@,
        ),
        ..ctl
    };
    if throughput.below(settings.threshold) {
        match settings.mail(
            NotificationKind::NoSpeedDetected,
            settings.fallback_ip@,
            Seq::<char>::empty(),
        ) {
            Some(mail) => (
                chosen.at(Stage::Warning),
                proceed(mail_command(NotificationKind::NoSpeedDetected, mail)),
            ),
            None => after_warning(chosen, settings),
        }
    } else {
        begin_publish(chosen, settings)
    }
}

/// The record is published. Where the kind of address changed, the operator
/// is told and the state follows only once that mail is out; a disabled
/// policy has nothing to send, and the state follows at once.
pub open spec fn conclude(ctl: ControllerView, settings: Settings) -> (
    ControllerView,
    ReactionView,
) {
    let currently = ctl.on_fallback(settings);
    match ctl.state.due(currently) {
        None => (ctl.at(Stage::Waiting), proceed(normal_sleep(settings))),
        Some(kind) => match settings.mail(kind, ctl.candidate, Seq::<char>::empty()) {
            Some(mail) => (
                ctl.at(Stage::Announcing),
                proceed(mail_command(kind, mail)),
            ),
            None => (
                ControllerView {
                    state: ctl.state.settled(currently, true),
                    stage: Stage::Waiting,
                    ..ctl
                },
                proceed(normal_sleep(settings)),
            ),
        },
    }
}

/// The mail about a change of kind was handed over, or was not.
pub open spec fn settle(
    ctl: ControllerView,
    settings: Settings,
    outcome: Result<(), Seq<char>>,
) -> (ControllerView, ReactionView) {
    match outcome {
        Ok(()) => (
            ControllerView {
                state: ctl.state.settled(ctl.on_fallback(settings), true),
                stage: Stage::Waiting,
                ..ctl
            },
            proceed(normal_sleep(settings)),
        ),
        Err(detail) => (
            ctl.at(Stage::Waiting),
            ReactionView {
                command: retry_sleep(settings),
                failure: Some(plain_failure(FailureKind::NotificationTransport, detail)),
            },
        ),
    }
}

/// The result file was parsed, or was not: the address of its first row is
/// kept, and its speed is handed out to be read as a number.
pub open spec fn with_reading(
    ctl: ControllerView,
    settings: Settings,
    outcome: Result<ReadingView, FailureModel>,
) -> (ControllerView, ReactionView) {
    match outcome {
        Ok(reading) => (
            ControllerView { stage: Stage::Decoding, candidate: reading.ip, ..ctl },
            proceed(CommandView::DecodeThroughput { text: reading.speed }),
        ),
        Err(failure) => give_up(ctl, settings, failure),
    }
}

/// The listing was searched, or could not be: the update goes to the record
/// that was found, and to the empty id where none was.
pub open spec fn with_record_id(
    ctl: ControllerView,
    settings: Settings,
    outcome: Result<Seq<char>, FailureModel>,
) -> (ControllerView, ReactionView) {
    match outcome {
        Ok(id) => (
            ctl.at(Stage::Updating),
            proceed(
                CommandView::UpdateRecord {
                    url: record_address(settings.zone_id@, id),
                    headers: call_headers(settings.auth_email@, settings.auth_key@),
                    record: a_record(settings.record_name@, ctl.candidate),
                    fallback: ctl.on_fallback(settings),
                    timeout_secs: NETWORK_TIMEOUT_SECS,
                },
            ),
        ),
        Err(failure) => give_up(ctl, settings, failure),
    }
}

/// The provider accepted the update, or did not.
pub open spec fn with_update_outcome(
    ctl: ControllerView,
    settings: Settings,
    outcome: Result<(), FailureModel>,
) -> (ControllerView, ReactionView) {
    match outcome {
        Ok(()) => conclude(ctl, settings),
        Err(failure) => give_up(ctl, settings, failure),
    }
}

/// The outcome of parsing, as plain values.
pub open spec fn reading_outcome(outcome: Result<Reading, StepFailure>) -> Result<
    ReadingView,
    FailureModel,
> {
    match outcome {
        Ok(reading) => Ok(reading@),
        Err(failure) => Err(failure@),
    }
}

/// The outcome of the search for the record, as plain values.
pub open spec fn record_id_outcome(outcome: Result<String, StepFailure>) -> Result<
    Seq<char>,
    FailureModel,
> {
    match outcome {
        Ok(id) => Ok(id@),
        Err(failure) => Err(failure@),
    }
}

/// The outcome of the update, as plain values.
pub open spec fn update_outcome_view(outcome: Result<(), StepFailure>) -> Result<(), FailureModel> {
    match outcome {
        Ok(()) => Ok(()),
        Err(failure) => Err(failure@),
    }
}

/// The whole machine: the controller and the reaction that follow from a
/// controller and an event. An event that is not the outcome of the command
/// given last counts as that step having failed.
pub open spec fn step(ctl: ControllerView, settings: Settings, event: Event) -> (
    ControllerView,
    ReactionView,
) {
    match ctl.stage {
        Stage::Waiting => (
            ControllerView {
                stage: Stage::Clearing,
                cycle: following_cycle(ctl.cycle),
                ..ctl
            },
            proceed(clear_command()),
        ),
        Stage::Clearing => match event {
            Event::Cleared(Removal::Removed) | Event::Cleared(Removal::Absent) => (
                ctl.at(Stage::Measuring),
                proceed(measure_command()),
            ),
            Event::Cleared(Removal::Failed(detail)) => give_up(
                ctl,
                settings,
                plain_failure(FailureKind::FileIo, detail@),
            ),
            _ => give_up(ctl, settings, plain_failure(FailureKind::FileIo, unexpected_text())),
        },
        Stage::Measuring => match event {
            Event::ToolFinished(Ok(())) => (
                ctl.at(Stage::Reading),
                proceed(read_command()),
            ),
            Event::ToolFinished(Err(detail)) => give_up(
                ctl,
                settings,
                plain_failure(FailureKind::SubprocessLaunch, detail@),
            ),
            _ => give_up(
                ctl,
                settings,
                plain_failure(FailureKind::SubprocessLaunch, unexpected_text()),
            ),
        },
        Stage::Reading => match event {
            Event::ResultRead(Ok(contents)) => with_reading(ctl, settings, parsed(contents@)),
            Event::ResultRead(Err(detail)) => give_up(
                ctl,
                settings,
                plain_failure(FailureKind::FileIo, detail@),
            ),
            _ => give_up(ctl, settings, plain_failure(FailureKind::FileIo, unexpected_text())),
        },
        Stage::Decoding => match event {
            Event::ThroughputDecoded(Ok(throughput)) => assess(ctl, settings, throughput),
            Event::ThroughputDecoded(Err(detail)) => give_up(
                ctl,
                settings,
                plain_failure(FailureKind::ParseFailure, detail@),
            ),
            _ => give_up(
                ctl,
                settings,
                plain_failure(FailureKind::ParseFailure, unexpected_text()),
            ),
        },
        Stage::Warning => after_warning(ctl, settings),
        Stage::Holding => begin_publish(ctl, settings),
        Stage::Listing => match event {
            Event::Responded(Ok(body)) => with_record_id(
                ctl,
                settings,
                record_id_of(body@, settings.host_name@),
            ),
            Event::Responded(Err(detail)) => give_up(
                ctl,
                settings,
                plain_failure(FailureKind::HttpTransport, detail@),
            ),
            _ => give_up(
                ctl,
                settings,
                plain_failure(FailureKind::HttpTransport, unexpected_text()),
            ),
        },
        Stage::Updating => match event {
            Event::Responded(Ok(body)) => with_update_outcome(
                ctl,
                settings,
                update_outcome_of(body@),
            ),
            Event::Responded(Err(detail)) => give_up(
                ctl,
                settings,
                plain_failure(FailureKind::HttpTransport, detail@),
            ),
            _ => give_up(
                ctl,
                settings,
                plain_failure(FailureKind::HttpTransport, unexpected_text()),
            ),
        },
        Stage::Announcing => match event {
            Event::MailHandled(Ok(())) => settle(ctl, settings, Ok(())),
            Event::MailHandled(Err(detail)) => settle(ctl, settings, Err(detail@)),
            _ => settle(ctl, settings, Err(unexpected_text())),
        },
        Stage::Reporting => (ctl.at(Stage::Waiting), proceed(retry_sleep(settings))),
    }
}

impl Controller {
    /// The controller at process start: a measured address is taken to be
    /// served, and no cycle has begun.
    pub fn new() -> (ctl: Controller)
        ensures
            ctl@ == (ControllerView {
                state: FailoverState::Normal,
                stage: Stage::Waiting,
                cycle: 0,
                candidate: Seq::<char>::empty(),
            }),
    {
        Controller {
            state: FailoverState::new(),
            stage: Stage::Waiting,
            cycle: 0,
            candidate: String::new(),
        }
    }

    /// Tells whether the address of the cycle is the fallback address.
    pub fn serves_fallback(&self, settings: &Settings) -> (r: bool)
        ensures
            r == self@.on_fallback(*settings),
    {
        same_text(self.candidate.as_str(), settings.fallback_ip.as_str())
    }

    fn unexpected(kind: FailureKind) -> (failure: StepFailure)
        ensures
            failure@ == plain_failure(kind, unexpected_text()),
    {
        StepFailure::new(kind, "The step ended without its result.".to_owned())
    }

    fn give_up(&mut self, settings: &Settings, failure: StepFailure) -> (reaction: Reaction)
        ensures
            (final(self)@, reaction@) == give_up(old(self)@, *settings, failure@),
    {
        let event = NotificationEvent::about_failure(failure.detail.as_str());
        match settings.notification(&event) {
            Some(mail) => {
                self.stage = Stage::Reporting;
                Reaction {
                    command: Command::SendMail {
                        kind: NotificationKind::StepError,
                        mail,
                        timeout_secs: NETWORK_TIMEOUT_SECS,
                    },
                    failure: Some(failure),
                }
            },
            None => {
                self.stage = Stage::Waiting;
                Reaction {
                    command: Command::Sleep { seconds: settings.retry_interval },
                    failure: Some(failure),
                }
            },
        }
    }

    fn begin_publish(&mut self, settings: &Settings) -> (reaction: Reaction)
        ensures
            (final(self)@, reaction@) == begin_publish(old(self)@, *settings),
    {
        self.stage = Stage::Listing;
        Reaction {
            command: Command::ListRecords {
                url: records_url(settings.zone_id.as_str()),
                headers: request_headers(settings.auth_email.as_str(), settings.auth_key.as_str()),
                timeout_secs: NETWORK_TIMEOUT_SECS,
            },
            failure: None,
        }
    }

    fn after_warning(&mut self, settings: &Settings) -> (reaction: Reaction)
        ensures
            (final(self)@, reaction@) == after_warning(old(self)@, *settings),
    {
        if settings.fallback_enabled {
            self.begin_publish(settings)
        } else {
            self.stage = Stage::Holding;
            Reaction { command: Command::Sleep { seconds: settings.retry_interval }, failure: None }
        }
    }

    fn assess(&mut self, settings: &Settings, throughput: Throughput) -> (reaction: Reaction)
        ensures
            (final(self)@, reaction@) == assess(old(self)@, *settings, throughput),
    {
        let chosen = select(
            self.candidate.as_str(),
            throughput,
            settings.threshold,
            settings.fallback_ip.as_str(),
        );
        self.candidate = chosen;
        if throughput.is_below(settings.threshold) {
            let event = NotificationEvent::about_address(
                NotificationKind::NoSpeedDetected,
                settings.fallback_ip.as_str(),
            );
            match settings.notification(&event) {
                Some(mail) => {
                    self.stage = Stage::Warning;
                    Reaction {
                        command: Command::SendMail {
                            kind: NotificationKind::NoSpeedDetected,
                            mail,
                            timeout_secs: NETWORK_TIMEOUT_SECS,
                        },
                        failure: None,
                    }
                },
                None => self.after_warning(settings),
            }
        } else {
            self.begin_publish(settings)
        }
    }

    fn conclude(&mut self, settings: &Settings) -> (reaction: Reaction)
        ensures
            (final(self)@, reaction@) == conclude(old(self)@, *settings),
    {
        let currently = self.serves_fallback(settings);
        match self.state.transition(currently) {
            None => {
                self.stage = Stage::Waiting;
                Reaction { command: Command::Sleep { seconds: settings.interval }, failure: None }
            },
            Some(kind) => match settings.notification(
                &NotificationEvent::about_address(kind, self.candidate.as_str()),
            ) {
                Some(mail) => {
                    self.stage = Stage::Announcing;
                    Reaction {
                        command: Command::SendMail {
                            kind,
                            mail,
                            timeout_secs: NETWORK_TIMEOUT_SECS,
                        },
                        failure: None,
                    }
                },
                None => {
                    self.state = self.state.commit(currently, true);
                    self.stage = Stage::Waiting;
                    Reaction {
                        command: Command::Sleep { seconds: settings.interval },
                        failure: None,
                    }
                },
            },
        }
    }

    fn settle(&mut self, settings: &Settings, outcome: Result<(), String>) -> (reaction: Reaction)
        ensures
            (final(self)@, reaction@) == settle(
                old(self)@,
                *settings,
                match outcome {
                    Ok(()) => Ok(()),
                    Err(detail) => Err(detail@),
                },
            ),
    {
        match outcome {
            Ok(()) => {
                let currently = self.serves_fallback(settings);
                self.state = self.state.commit(currently, true);
                self.stage = Stage::Waiting;
                Reaction { command: Command::Sleep { seconds: settings.interval }, failure: None }
            },
            Err(detail) => {
                self.stage = Stage::Waiting;
                Reaction {
                    command: Command::Sleep { seconds: settings.retry_interval },
                    failure: Some(StepFailure::new(FailureKind::NotificationTransport, detail)),
                }
            },
        }
    }

    /// Goes on from the parsed result file: keeps the address of the first
    /// row and asks for its speed as a number; a result that did not parse
    /// ends the cycle.
    pub fn take_reading(
        &mut self,
        settings: &Settings,
        outcome: Result<Reading, StepFailure>,
    ) -> (reaction: Reaction)
        ensures
            (final(self)@, reaction@) == with_reading(
                old(self)@,
                *settings,
                reading_outcome(outcome),
            ),
    {
        match outcome {
            Ok(reading) => {
                self.stage = Stage::Decoding;
                self.candidate = reading.ip;
                Reaction {
                    command: Command::DecodeThroughput { text: reading.speed },
                    failure: None,
                }
            },
            Err(failure) => self.give_up(settings, failure),
        }
    }

    /// Goes on from the search of the listing: asks for the update of the
    /// record that was found; a listing that could not be searched ends the
    /// cycle.
    pub fn take_record_id(
        &mut self,
        settings: &Settings,
        outcome: Result<String, StepFailure>,
    ) -> (reaction: Reaction)
        ensures
            (final(self)@, reaction@) == with_record_id(
                old(self)@,
                *settings,
                record_id_outcome(outcome),
            ),
    {
        match outcome {
            Ok(id) => {
                let fallback = self.serves_fallback(settings);
                self.stage = Stage::Updating;
                Reaction {
                    command: Command::UpdateRecord {
                        url: update_url(settings.zone_id.as_str(), id.as_str()),
                        headers: request_headers(
                            settings.auth_email.as_str(),
                            settings.auth_key.as_str(),
                        ),
                        record: update_record(
                            settings.record_name.as_str(),
                            self.candidate.as_str(),
                        ),
                        fallback,
                        timeout_secs: NETWORK_TIMEOUT_SECS,
                    },
                    failure: None,
                }
            },
            Err(failure) => self.give_up(settings, failure),
        }
    }

    /// Goes on from the provider's answer to the update: an accepted update
    /// is followed by the mail about a change of kind, if one is owed, and
    /// the normal sleep; an update that was not accepted ends the cycle.
    pub fn take_update_outcome(
        &mut self,
        settings: &Settings,
        outcome: Result<(), StepFailure>,
    ) -> (reaction: Reaction)
        ensures
            (final(self)@, reaction@) == with_update_outcome(
                old(self)@,
                *settings,
                update_outcome_view(outcome),
            ),
    {
        match outcome {
            Ok(()) => self.conclude(settings),
            Err(failure) => self.give_up(settings, failure),
        }
    }

    /// Takes the outcome of the command given last and answers with the next
    /// command. The controller and the reaction are exactly those of `step`.
    pub fn advance(&mut self, settings: &Settings, event: Event) -> (reaction: Reaction)
        ensures
            (final(self)@, reaction@) == step(old(self)@, *settings, event),
    {
        match self.stage {
            Stage::Waiting => {
                self.stage = Stage::Clearing;
                if self.cycle < u64::MAX {
                    self.cycle = self.cycle + 1;
                }
                Reaction {
                    command: Command::ClearResult { file: result_file().to_owned() },
                    failure: None,
                }
            },
            Stage::Clearing => match event {
                Event::Cleared(Removal::Removed) | Event::Cleared(Removal::Absent) => {
                    self.stage = Stage::Measuring;
                    Reaction {
                        command: Command::RunMeasurement {
                            program: program().to_owned(),
                            arguments: arguments(),
                        },
                        failure: None,
                    }
                },
                Event::Cleared(Removal::Failed(detail)) => self.give_up(
                    settings,
                    StepFailure::new(FailureKind::FileIo, detail),
                ),
                _ => self.give_up(settings, Controller::unexpected(FailureKind::FileIo)),
            },
            Stage::Measuring => match event {
                Event::ToolFinished(Ok(())) => {
                    self.stage = Stage::Reading;
                    Reaction {
                        command: Command::ReadResult { file: result_file().to_owned() },
                        failure: None,
                    }
                },
                Event::ToolFinished(Err(detail)) => self.give_up(
                    settings,
                    StepFailure::new(FailureKind::SubprocessLaunch, detail),
                ),
                _ => self.give_up(settings, Controller::unexpected(FailureKind::SubprocessLaunch)),
            },
            Stage::Reading => match event {
                Event::ResultRead(Ok(contents)) => {
                    let outcome = parse_csv_result(contents.as_str());
                    self.take_reading(settings, outcome)
                },
                Event::ResultRead(Err(detail)) => self.give_up(
                    settings,
                    StepFailure::new(FailureKind::FileIo, detail),
                ),
                _ => self.give_up(settings, Controller::unexpected(FailureKind::FileIo)),
            },
            Stage::Decoding => match event {
                Event::ThroughputDecoded(Ok(throughput)) => self.assess(settings, throughput),
                Event::ThroughputDecoded(Err(detail)) => self.give_up(
                    settings,
                    StepFailure::new(FailureKind::ParseFailure, detail),
                ),
                _ => self.give_up(settings, Controller::unexpected(FailureKind::ParseFailure)),
            },
            Stage::Warning => self.after_warning(settings),
            Stage::Holding => self.begin_publish(settings),
            Stage::Listing => match event {
                Event::Responded(Ok(body)) => {
                    let outcome = record_id_from_body(body.as_slice(), settings.host_name.as_str());
                    self.take_record_id(settings, outcome)
                },
                Event::Responded(Err(detail)) => self.give_up(
                    settings,
                    StepFailure::new(FailureKind::HttpTransport, detail),
                ),
                _ => self.give_up(settings, Controller::unexpected(FailureKind::HttpTransport)),
            },
            Stage::Updating => match event {
                Event::Responded(Ok(body)) => {
                    let outcome = check_update_body(body.as_slice());
                    self.take_update_outcome(settings, outcome)
                },
                Event::Responded(Err(detail)) => self.give_up(
                    settings,
                    StepFailure::new(FailureKind::HttpTransport, detail),
                ),
                _ => self.give_up(settings, Controller::unexpected(FailureKind::HttpTransport)),
            },
            Stage::Announcing => match event {
                Event::MailHandled(Ok(())) => self.settle(settings, Ok(())),
                Event::MailHandled(Err(detail)) => self.settle(settings, Err(detail)),
                _ => self.settle(settings, Err("The step ended without its result.".to_owned())),
            },
            Stage::Reporting => {
                self.stage = Stage::Waiting;
                Reaction {
                    command: Command::Sleep { seconds: settings.retry_interval },
                    failure: None,
                }
            },
        }
    }
}

} // verus!
