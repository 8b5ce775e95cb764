//! The failures a call can end in, and how they are told apart.

use vstd::prelude::*;
use vstd::string::StringExecFns;

verus! {

/// The four families of failure. A host must never confuse a call that
/// failed with a call that succeeded and reports a problem in the program
/// it was given.
#[derive(Clone, Copy, Debug, PartialEq, Eq, Structural)]
pub enum ErrorCategory {
    /// The call never reached a handler.
    Routing,
    /// The input program is at fault.
    Diagnostic,
    /// The engine itself misbehaved.
    Fault,
    /// Something the call needs is absent or out of reach.
    Resource,
}

/// What went wrong.
#[derive(Clone, Copy, Debug, PartialEq, Eq, Structural)]
pub enum ErrorKind {
    /// The method name is not in the registry.
    UnknownMethod,
    /// The request payload could not be decoded.
    MalformedPayload,
    /// The program to build does not compile.
    CompileFailed,
    /// The engine faulted and the fault was recovered.
    InternalFault,
    /// No artifact has been built at the path.
    MissingArtifact,
    /// The directory of the artifact cannot be written.
    UnwritableOutput,
    /// A source or settings file cannot be read.
    UnreadableSource,
}

impl ErrorKind {
    /// The family a kind of failure belongs to.
    pub open spec fn spec_category(self) -> ErrorCategory {
        match self {
            ErrorKind::UnknownMethod | ErrorKind::MalformedPayload => ErrorCategory::Routing,
            ErrorKind::CompileFailed => ErrorCategory::Diagnostic,
            ErrorKind::InternalFault => ErrorCategory::Fault,
            ErrorKind::MissingArtifact | ErrorKind::UnwritableOutput | ErrorKind::UnreadableSource =>
                ErrorCategory::Resource,
        }
    }

    /// The family a kind of failure belongs to.
    pub fn category(self) -> (c: ErrorCategory)
        ensures
            c == self.spec_category(),
    {
        match self {
            ErrorKind::UnknownMethod | ErrorKind::MalformedPayload => ErrorCategory::Routing,
            ErrorKind::CompileFailed => ErrorCategory::Diagnostic,
            ErrorKind::InternalFault => ErrorCategory::Fault,
            ErrorKind::MissingArtifact | ErrorKind::UnwritableOutput | ErrorKind::UnreadableSource =>
                ErrorCategory::Resource,
        }
    }

    /// The words that open the message of a failure of this kind.
    pub open spec fn spec_label(self) -> Seq<char> {
        match self {
            ErrorKind::UnknownMethod => "unknown method"@,
            ErrorKind::MalformedPayload => "malformed payload"@,
            ErrorKind::CompileFailed => "compilation failed"@,
            ErrorKind::InternalFault => "internal fault"@,
            ErrorKind::MissingArtifact => "artifact not found"@,
            ErrorKind::UnwritableOutput => "output not writable"@,
            ErrorKind::UnreadableSource => "source not readable"@,
        }
    }

    /// The words that open the message of a failure of this kind.
    pub fn label(self) -> (s: &'static str)
        ensures
            s@ == self.spec_label(),
    {
        match self {
            ErrorKind::UnknownMethod => "unknown method",
            ErrorKind::MalformedPayload => "malformed payload",
            ErrorKind::CompileFailed => "compilation failed",
            ErrorKind::InternalFault => "internal fault",
            ErrorKind::MissingArtifact => "artifact not found",
            ErrorKind::UnwritableOutput => "output not writable",
            ErrorKind::UnreadableSource => "source not readable",
        }
    }
}

/// A failed call: its kind and the name, path or text it is about.
#[derive(Clone, Debug, PartialEq, Eq)]
pub struct ServiceError {
    pub kind: ErrorKind,
    pub detail: String,
}

/// A failure as contracts see it.
pub struct ServiceErrorView {
    pub kind: ErrorKind,
    pub detail: Seq<char>,
}

impl View for ServiceError {
    type V = ServiceErrorView;

    open spec fn view(&self) -> ServiceErrorView {
        ServiceErrorView { kind: self.kind, detail: self.detail@ }
    }
}

/// The text a failure is reported with: the label of its kind, a colon
/// and a space, then the detail, unchanged.
pub open spec fn spec_message(e: ServiceErrorView) -> Seq<char> {
    e.kind.spec_label() + ": "@ + e.detail
}

impl ServiceError {
    /// A failure of the given kind about `detail`.
    pub fn new(kind: ErrorKind, detail: &str) -> (e: ServiceError)
        ensures
            e@ == (ServiceErrorView { kind, detail: detail@ }),
    {
        ServiceError { kind, detail: detail.to_owned() }
    }

    /// The family this failure belongs to.
    pub fn category(&self) -> (c: ErrorCategory)
        ensures
            c == self@.kind.spec_category(),
    {
        self.kind.category()
    }

    /// The text this failure is reported with.
    pub fn message(&self) -> (text: String)
        ensures
            text@ == spec_message(self@),
    {
        let mut text = self.kind.label().to_owned();
        text.append(": ");
        text.append(self.detail.as_str());
        text
    }
}

} // verus!
