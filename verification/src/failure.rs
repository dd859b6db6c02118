//! What a failed step of a cycle hands to the control loop.

use vstd::prelude::*;

verus! {

/// The classes of failure that a step can end in.
#[derive(Clone, Copy, Debug, PartialEq, Eq, Structural)]
pub enum FailureKind {
    /// The result file could not be removed or read.
    FileIo,
    /// The measurement tool could not be started.
    SubprocessLaunch,
    /// The result file is malformed or holds no measurement.
    ParseFailure,
    /// A call to the DNS provider did not complete.
    HttpTransport,
    /// The DNS provider answered, but not with a success.
    HttpFormat,
    /// A notification could not be handed to the mail relay.
    NotificationTransport,
}

/// A failed step: its class, a line of text for the operator, and the body of
/// the provider's response where the failure was read from one.
#[derive(Clone, Debug)]
pub struct StepFailure {
    pub kind: FailureKind,
    pub detail: String,
    pub body: Vec<u8>,
}

/// A failure as plain values.
pub struct FailureModel {
    pub kind: FailureKind,
    pub detail: Seq<char>,
    pub body: Seq<u8>,
}

impl View for StepFailure {
    type V = FailureModel;

    open spec fn view(&self) -> FailureModel {
        FailureModel { kind: self.kind, detail: self.detail@, body: self.body@ }
    }
}

/// A failure of the given class that carries no response body.
pub open spec fn plain_failure(kind: FailureKind, detail: Seq<char>) -> FailureModel {
    FailureModel { kind, detail, body: Seq::<u8>::empty() }
}

impl FailureKind {
    /// The heading under which a failure of this class is logged.
    pub open spec fn heading(self) -> Seq<char> {
        match self {
            FailureKind::FileIo => "RESULT FILE ACCESS FAILED"@,
            FailureKind::SubprocessLaunch => "RUN TOOL FAILED"@,
            FailureKind::ParseFailure => "PARSE CSV RESULT FAILED"@,
            FailureKind::HttpTransport => "UPDATE DNS RECORD FAILED"@,
            FailureKind::HttpFormat => "UPDATE DNS RECORD FAILED"@,
            FailureKind::NotificationTransport => "SEND EMAIL FAILED"@,
        }
    }

    /// The heading under which a failure of this class is logged.
    pub fn label(self) -> (r: &'static str)
        ensures
            r@ == self.heading(),
    {
        match self {
            FailureKind::FileIo => "RESULT FILE ACCESS FAILED",
            FailureKind::SubprocessLaunch => "RUN TOOL FAILED",
            FailureKind::ParseFailure => "PARSE CSV RESULT FAILED",
            FailureKind::HttpTransport => "UPDATE DNS RECORD FAILED",
            FailureKind::HttpFormat => "UPDATE DNS RECORD FAILED",
            FailureKind::NotificationTransport => "SEND EMAIL FAILED",
        }
    }
}

impl StepFailure {
    /// A failure without a response body.
    pub fn new(kind: FailureKind, detail: String) -> (f: StepFailure)
        ensures
            f@ == plain_failure(kind, detail@),
    {
        StepFailure { kind, detail, body: Vec::new() }
    }

    /// A failure read from a response of the DNS provider.
    pub fn from_response(detail: String, body: &[u8]) -> (f: StepFailure)
        ensures
            f@ == (FailureModel { kind: FailureKind::HttpFormat, detail: detail@, body: body@ }),
    {
        StepFailure { kind: FailureKind::HttpFormat, detail, body: vstd::slice::slice_to_vec(body) }
    }
}

} // verus!
