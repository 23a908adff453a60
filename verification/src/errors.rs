//! The failures of a tunnel's lifecycle.

use vstd::prelude::*;

verus! {

/// The class of an I/O failure, as far as the tunnel's rules read it.
#[derive(Debug, Clone, Copy, PartialEq, Eq, Structural)]
pub enum IoErrorKind {
    /// The operating system rejected the request as invalid.
    InvalidInput,
    /// The executable or file was not found.
    NotFound,
    /// The operating system denied access.
    PermissionDenied,
    /// Any other failure.
    Other,
}

/// An I/O failure reported by the process layer: its class and its text.
#[derive(Debug, PartialEq, Eq)]
pub struct IoError {
    pub kind: IoErrorKind,
    pub message: String,
}

/// The mathematical content of an [`IoError`].
pub struct IoErrorView {
    pub kind: IoErrorKind,
    pub message: Seq<char>,
}

impl View for IoError {
    type V = IoErrorView;

    open spec fn view(&self) -> IoErrorView {
        IoErrorView { kind: self.kind, message: self.message@ }
    }
}

/// Everything that can go wrong over a tunnel's lifecycle.
#[derive(Debug, PartialEq, Eq)]
pub enum Error {
    /// Spawning, reading from, waiting for or killing the transport failed.
    IO(IoError),
    /// The transport terminated with a status other than success; the
    /// payload is a rendering of that status.
    TunnelExitNonZero(String),
    /// A failure reported by the transport itself, passed on as it came.
    SSH(String),
}

/// The mathematical content of an [`Error`].
pub enum ErrorView {
    IO(IoErrorView),
    TunnelExitNonZero(Seq<char>),
    SSH(Seq<char>),
}

impl View for Error {
    type V = ErrorView;

    open spec fn view(&self) -> ErrorView {
        match self {
            Error::IO(failure) => ErrorView::IO(failure@),
            Error::TunnelExitNonZero(status) => ErrorView::TunnelExitNonZero(status@),
            Error::SSH(text) => ErrorView::SSH(text@),
        }
    }
}

/// The mathematical content of an operation's result.
pub open spec fn spec_outcome(result: Result<(), Error>) -> Result<(), ErrorView> {
    match result {
        Ok(_) => Ok(()),
        Err(failure) => Err(failure@),
    }
}

/// The mathematical content of the result of a request to the process
/// layer.
pub open spec fn spec_io_outcome(result: Result<(), IoError>) -> Result<(), IoErrorView> {
    match result {
        Ok(_) => Ok(()),
        Err(failure) => Err(failure@),
    }
}

impl ErrorView {
    /// The text shown to an operator for this failure.
    pub open spec fn message(self) -> Seq<char> {
        match self {
            ErrorView::IO(failure) => failure.message,
            ErrorView::TunnelExitNonZero(status) => {
                "SSH forwarding network tunnel exit with non-zero exit code "@ + status
            },
            ErrorView::SSH(text) => text,
        }
    }
}

impl IoError {
    /// Whether the operating system classed the failure as an invalid
    /// request.
    pub fn is_invalid_input(&self) -> (b: bool)
        ensures
            b == (self.kind == IoErrorKind::InvalidInput),
    {
        match self.kind {
            IoErrorKind::InvalidInput => true,
            _ => false,
        }
    }
}

impl Error {
    /// The text shown to an operator for this failure.
    pub fn message(&self) -> (text: String)
        ensures
            text@ == self@.message(),
    {
        match self {
            Error::IO(failure) => failure.message.clone(),
            Error::TunnelExitNonZero(status) => {
                let prefix = String::from_str(
                    "SSH forwarding network tunnel exit with non-zero exit code ",
                );
                prefix.concat(status.as_str())
            },
            Error::SSH(text) => text.clone(),
        }
    }
}

} // verus!
