//! The failures that the runtime reports.

use vstd::prelude::*;
use vstd::string::StringExecFns;

verus! {

/// A failure of the runtime.
#[derive(Debug, PartialEq, Eq)]
#[non_exhaustive]
pub enum Error {
    /// An operation of the operating system on a file or a pipe failed.
    Io {
        /// What the operating system said.
        message: String,
    },
    /// An operation on the control-group tree failed.
    CGroup {
        /// What failed, and how.
        message: String,
    },
    /// An operation on namespaces failed.
    Namespace {
        /// What failed, and how.
        message: String,
    },
    /// The operating system refused an operation for want of privilege.
    PermissionDenied {
        /// The operation that was refused.
        operation: String,
    },
    /// A value that the caller gave is not acceptable.
    InvalidConfig {
        /// What is wrong with it.
        message: String,
    },
    /// A system call failed.
    System {
        /// The error number that the call left behind.
        errno: i32,
    },
    /// An event could not be handed to its receiver.
    ChannelSend,
    /// A background task could not be joined.
    TaskJoin {
        /// What the scheduler said.
        message: String,
    },
}

/// The mathematical content of an [`Error`].
pub enum ErrorView {
    Io { message: Seq<char> },
    CGroup { message: Seq<char> },
    Namespace { message: Seq<char> },
    PermissionDenied { operation: Seq<char> },
    InvalidConfig { message: Seq<char> },
    System { errno: i32 },
    ChannelSend,
    TaskJoin { message: Seq<char> },
}

impl View for Error {
    type V = ErrorView;

    open spec fn view(&self) -> ErrorView {
        match *self {
            Error::Io { message } => ErrorView::Io { message: message@ },
            Error::CGroup { message } => ErrorView::CGroup { message: message@ },
            Error::Namespace { message } => ErrorView::Namespace { message: message@ },
            Error::PermissionDenied { operation } => ErrorView::PermissionDenied {
                operation: operation@,
            },
            Error::InvalidConfig { message } => ErrorView::InvalidConfig { message: message@ },
            Error::System { errno } => ErrorView::System { errno },
            Error::ChannelSend => ErrorView::ChannelSend,
            Error::TaskJoin { message } => ErrorView::TaskJoin { message: message@ },
        }
    }
}

/// The error number for an operation that is not permitted.
pub const EPERM: i32 = 1;

/// The error number for a file or directory that is not there.
pub const ENOENT: i32 = 2;

/// The error number for a system call that a signal interrupted.
pub const EINTR: i32 = 4;

/// The error number for a wait without a child.
pub const ECHILD: i32 = 10;

/// The error number for an access that the permissions forbid.
pub const EACCES: i32 = 13;

/// The error number for a device or resource that is in use.
pub const EBUSY: i32 = 16;

/// The kinds of failure that the runtime tells apart.
#[derive(Debug, Clone, Copy, PartialEq, Eq, Structural)]
pub enum FailureKind {
    /// The operating system refused for want of privilege.
    PermissionDenied,
    /// What was to be worked on is not there.
    NotFound,
    /// What was to be worked on is in use.
    Busy,
    /// A signal came in between.
    Interrupted,
    /// There is no child to wait for.
    NoChild,
    /// Anything else.
    Other,
}

impl FailureKind {
    /// The kind of failure that an error number stands for.
    pub open spec fn spec_from_errno(errno: i32) -> FailureKind {
        if errno == EPERM || errno == EACCES {
            FailureKind::PermissionDenied
        } else if errno == ENOENT {
            FailureKind::NotFound
        } else if errno == EBUSY {
            FailureKind::Busy
        } else if errno == EINTR {
            FailureKind::Interrupted
        } else if errno == ECHILD {
            FailureKind::NoChild
        } else {
            FailureKind::Other
        }
    }

    /// The kind of failure that an error number stands for.
    #[verifier::when_used_as_spec(spec_from_errno)]
    pub fn from_errno(errno: i32) -> (kind: FailureKind)
        ensures
            kind == Self::spec_from_errno(errno),
    {
        if errno == EPERM || errno == EACCES {
            FailureKind::PermissionDenied
        } else if errno == ENOENT {
            FailureKind::NotFound
        } else if errno == EBUSY {
            FailureKind::Busy
        } else if errno == EINTR {
            FailureKind::Interrupted
        } else if errno == ECHILD {
            FailureKind::NoChild
        } else {
            FailureKind::Other
        }
    }
}

/// Why an operation of the operating system on a file, a directory, a
/// namespace or a process failed.
#[derive(Debug, Clone, PartialEq, Eq)]
pub struct IoFailure {
    /// The kind of failure.
    pub kind: FailureKind,
    /// What the operating system said.
    pub detail: String,
}

/// The mathematical content of an [`IoFailure`].
pub struct IoFailureView {
    pub kind: FailureKind,
    pub detail: Seq<char>,
}

impl View for IoFailure {
    type V = IoFailureView;

    open spec fn view(&self) -> IoFailureView {
        IoFailureView { kind: self.kind, detail: self.detail@ }
    }
}

/// The text by which the operating system's error numbers are known: the
/// number's symbolic name, a colon and a short description.
pub uninterp spec fn errno_text(errno: i32) -> Seq<char>;

/// Asks `nix::errno::Errno` for the text of an error number.
///
/// `Errno::from_raw` maps the number to a variant by a fixed table (an unknown
/// number to `UnknownErrno`), and the `Display` of an `Errno` writes the
/// variant's name, `": "` and the entry of a second fixed table. The contract
/// claims no more than that this text depends on the number alone.
#[verifier::external_body]
fn describe_errno(errno: i32) -> (s: String)
    ensures
        s@ == errno_text(errno),
{
    nix::errno::Errno::from_raw(errno).to_string()
}

impl ErrorView {
    /// The error by which a failed operation on the control-group tree is
    /// reported: a refusal where privilege was wanting, else a control-group
    /// failure; either names what failed and what the operating system said.
    pub open spec fn cgroup_failure(what: Seq<char>, failure: IoFailureView) -> ErrorView {
        if failure.kind is PermissionDenied {
            ErrorView::PermissionDenied { operation: what + ": "@ + failure.detail }
        } else {
            ErrorView::CGroup { message: what + ": "@ + failure.detail }
        }
    }

    /// The error by which a failed operation on namespaces or on the child
    /// is reported: a namespace failure, whatever the kind of failure, that
    /// names what failed and what the operating system said.
    pub open spec fn namespace_failure(what: Seq<char>, failure: IoFailureView) -> ErrorView {
        ErrorView::Namespace { message: what + ": "@ + failure.detail }
    }

    /// The error that an operation on a control group reports once the group
    /// is not, or no longer, active.
    pub open spec fn not_active() -> ErrorView {
        ErrorView::CGroup { message: "CGroup not active"@ }
    }

    /// The one line by which an error is shown to the user.
    pub open spec fn description(self) -> Seq<char> {
        match self {
            ErrorView::Io { message } => "I/O error: "@ + message,
            ErrorView::CGroup { message } => "CGroup error: "@ + message,
            ErrorView::Namespace { message } => "Namespace error: "@ + message,
            ErrorView::PermissionDenied { operation } => "Permission denied: "@ + operation,
            ErrorView::InvalidConfig { message } => "Invalid configuration: "@ + message,
            ErrorView::System { errno } => "System error: "@ + errno_text(errno),
            ErrorView::ChannelSend => "Channel send error"@,
            ErrorView::TaskJoin { message } => "Task join error: "@ + message,
        }
    }
}

impl Clone for Error {
    /// A second error that says the same.
    fn clone(&self) -> (e: Error)
        ensures
            e@ == self@,
    {
        match self {
            Error::Io { message } => Error::Io { message: message.clone() },
            Error::CGroup { message } => Error::CGroup { message: message.clone() },
            Error::Namespace { message } => Error::Namespace { message: message.clone() },
            Error::PermissionDenied { operation } => Error::PermissionDenied {
                operation: operation.clone(),
            },
            Error::InvalidConfig { message } => Error::InvalidConfig { message: message.clone() },
            Error::System { errno } => Error::System { errno: *errno },
            Error::ChannelSend => Error::ChannelSend,
            Error::TaskJoin { message } => Error::TaskJoin { message: message.clone() },
        }
    }
}

impl IoFailure {
    /// A failure of the given kind, with what the operating system said.
    pub fn new(kind: FailureKind, detail: &str) -> (f: IoFailure)
        ensures
            f@ == (IoFailureView { kind, detail: detail@ }),
    {
        IoFailure { kind, detail: String::from_str(detail) }
    }

    /// The failure that an error number stands for, with the text by which
    /// the number is known.
    pub fn from_errno(errno: i32) -> (f: IoFailure)
        ensures
            f@ == (IoFailureView {
                kind: FailureKind::spec_from_errno(errno),
                detail: errno_text(errno),
            }),
    {
        IoFailure { kind: FailureKind::from_errno(errno), detail: describe_errno(errno) }
    }
}

impl Error {
    /// A control-group failure with the given message.
    pub fn cgroup(message: &str) -> (e: Error)
        ensures
            e@ == (ErrorView::CGroup { message: message@ }),
    {
        Error::CGroup { message: String::from_str(message) }
    }

    /// A namespace failure with the given message.
    pub fn namespace(message: &str) -> (e: Error)
        ensures
            e@ == (ErrorView::Namespace { message: message@ }),
    {
        Error::Namespace { message: String::from_str(message) }
    }

    /// A refusal of the named operation.
    pub fn permission_denied(operation: &str) -> (e: Error)
        ensures
            e@ == (ErrorView::PermissionDenied { operation: operation@ }),
    {
        Error::PermissionDenied { operation: String::from_str(operation) }
    }

    /// A rejection of a value with the given message.
    pub fn invalid_config(message: &str) -> (e: Error)
        ensures
            e@ == (ErrorView::InvalidConfig { message: message@ }),
    {
        Error::InvalidConfig { message: String::from_str(message) }
    }

    /// Reports a failed operation on the control-group tree.
    pub fn cgroup_failure(what: &str, failure: &IoFailure) -> (e: Error)
        ensures
            e@ == ErrorView::cgroup_failure(what@, failure@),
    {
        let text = crate::text::concat3(what, ": ", failure.detail.as_str());
        if failure.kind == FailureKind::PermissionDenied {
            Error::PermissionDenied { operation: text }
        } else {
            Error::CGroup { message: text }
        }
    }

    /// Reports a failed operation on namespaces.
    pub fn namespace_failure(what: &str, failure: &IoFailure) -> (e: Error)
        ensures
            e@ == ErrorView::namespace_failure(what@, failure@),
    {
        Error::Namespace { message: crate::text::concat3(what, ": ", failure.detail.as_str()) }
    }

    /// Reports an operation on a control group that is not active.
    pub fn not_active() -> (e: Error)
        ensures
            e@ == ErrorView::not_active(),
    {
        Error::cgroup("CGroup not active")
    }

    /// The one line by which this error is shown to the user.
    pub fn to_string(&self) -> (s: String)
        ensures
            s@ == self@.description(),
    {
        match self {
            Error::Io { message } => crate::text::concat2("I/O error: ", message.as_str()),
            Error::CGroup { message } => crate::text::concat2("CGroup error: ", message.as_str()),
            Error::Namespace { message } => crate::text::concat2(
                "Namespace error: ",
                message.as_str(),
            ),
            Error::PermissionDenied { operation } => crate::text::concat2(
                "Permission denied: ",
                operation.as_str(),
            ),
            Error::InvalidConfig { message } => crate::text::concat2(
                "Invalid configuration: ",
                message.as_str(),
            ),
            Error::System { errno } => {
                let text = describe_errno(*errno);
                crate::text::concat2("System error: ", text.as_str())
            },
            Error::ChannelSend => String::from_str("Channel send error"),
            Error::TaskJoin { message } => crate::text::concat2(
                "Task join error: ",
                message.as_str(),
            ),
        }
    }
}

} // verus!
