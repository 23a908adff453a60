//! What the transport's diagnostic lines mean to the tunnel. The transport's
//! wording is read here and nowhere else.

use crate::text::{chars_of, occurs_in, spec_occurs_in, spec_starts_with, starts_with};
use vstd::prelude::*;

verus! {

/// How loudly a record is reported.
#[derive(Debug, Clone, Copy, PartialEq, Eq, Structural)]
pub enum Severity {
    Debug,
    Info,
    Warning,
    Error,
}

/// What one line of the transport's diagnostics means to the tunnel.
#[derive(Debug, Clone, Copy, PartialEq, Eq, Structural)]
pub enum LineClass {
    /// The transport has entered its session: the tunnel is ready.
    Ready,
    /// Anything else: to be reported at the given severity, and no more.
    Diagnostic(Severity),
}

/// The line carries the transport's ready marker.
pub open spec fn spec_is_ready(line: Seq<char>) -> bool {
    spec_occurs_in(line, "Entering interactive session."@)
}

/// The severity at which a line that is no ready marker is reported:
/// the transport's own debug output and its notice of an added host key are
/// low, a denied authentication, an unreachable network and a connection
/// that timed out are high, and the rest is informational.
pub open spec fn spec_severity(line: Seq<char>) -> Severity {
    if spec_starts_with(line, "debug1:"@) || spec_starts_with(line, "Warning: Permanently added"@) {
        Severity::Debug
    } else if spec_occurs_in(line, "Permission denied"@) || spec_occurs_in(
        line,
        "Network is unreachable"@,
    ) || spec_occurs_in(line, "Connection timed out"@) {
        Severity::Error
    } else {
        Severity::Info
    }
}

/// The class of a diagnostic line. The ready marker is looked for first.
pub open spec fn spec_classify_line(line: Seq<char>) -> LineClass {
    if spec_is_ready(line) {
        LineClass::Ready
    } else {
        LineClass::Diagnostic(spec_severity(line))
    }
}

/// Classifies one line of the transport's diagnostics.
pub fn classify_line(line: &str) -> (class: LineClass)
    ensures
        class == spec_classify_line(line@),
{
    let text = chars_of(line);
    if occurs_in(&text, &chars_of("Entering interactive session.")) {
        LineClass::Ready
    } else if starts_with(&text, &chars_of("debug1:")) || starts_with(
        &text,
        &chars_of("Warning: Permanently added"),
    ) {
        LineClass::Diagnostic(Severity::Debug)
    } else if occurs_in(&text, &chars_of("Permission denied")) || occurs_in(
        &text,
        &chars_of("Network is unreachable"),
    ) || occurs_in(&text, &chars_of("Connection timed out")) {
        LineClass::Diagnostic(Severity::Error)
    } else {
        LineClass::Diagnostic(Severity::Info)
    }
}

} // verus!
