//! The tunnel that forwards a local port through an `ssh` child process.

pub mod laws;

use crate::diagnostics::{classify_line, spec_is_ready, spec_severity, LineClass, Severity};
use crate::errors::{spec_io_outcome, Error, ErrorView, IoError, IoErrorKind, IoErrorView};
use crate::text::{decimal, spec_decimal};
use vstd::prelude::*;

verus! {

/// The key under which an endpoint's address is filed.
pub const ENDPOINT_ADDRESS_KEY: &'static str = "address";

/// The program that carries the tunnel.
pub const SSH_PROGRAM: &'static str = "ssh";

/// The parameters of one forwarding tunnel.
#[derive(Debug, Clone, PartialEq, Eq)]
pub struct SshForwardingConfig {
    /// Endpoint of the remote SSH server that supports tunneling, in the
    /// form of `ssh://user@hostname[:port]`.
    pub ssh_endpoint: String,
    /// Path of the private key file that opens the remote SSH server.
    pub private_key: String,
    /// The hostname of the remote destination (e.g. the database server).
    pub forward_host: String,
    /// The port of the remote destination (e.g. the database server).
    pub forward_port: u16,
    /// The local port which will be connected to the remote host and port
    /// over the tunnel.
    pub local_port: u16,
}

/// The mathematical content of an [`SshForwardingConfig`].
pub struct SshForwardingConfigView {
    pub ssh_endpoint: Seq<char>,
    pub private_key: Seq<char>,
    pub forward_host: Seq<char>,
    pub forward_port: u16,
    pub local_port: u16,
}

impl View for SshForwardingConfig {
    type V = SshForwardingConfigView;

    open spec fn view(&self) -> SshForwardingConfigView {
        SshForwardingConfigView {
            ssh_endpoint: self.ssh_endpoint@,
            private_key: self.private_key@,
            forward_host: self.forward_host@,
            forward_port: self.forward_port,
            local_port: self.local_port,
        }
    }
}

impl SshForwardingConfigView {
    /// The forwarding stanza: local port, destination host and destination
    /// port, joined by colons.
    pub open spec fn forwarding_stanza(self) -> Seq<char> {
        spec_decimal(self.local_port as nat) + ":"@ + self.forward_host + ":"@ + spec_decimal(
            self.forward_port as nat,
        )
    }

    /// The arguments handed to `ssh`, in order.
    pub open spec fn ssh_args(self) -> Seq<Seq<char>> {
        seq![
            "-T"@,
            "-v"@,
            "-o"@,
            "StrictHostKeyChecking no"@,
            "-o"@,
            "ConnectTimeout=5"@,
            "-o"@,
            "ServerAliveInterval=30"@,
            "-i"@,
            self.private_key,
            "-N"@,
            "-L"@,
            self.forwarding_stanza(),
            self.ssh_endpoint,
        ]
    }
}

impl SshForwardingConfig {
    /// The forwarding stanza: local port, destination host and destination
    /// port, joined by colons.
    pub fn forwarding_stanza(&self) -> (stanza: String)
        ensures
            stanza@ == self@.forwarding_stanza(),
    {
        let mut stanza = decimal(self.local_port);
        stanza.append(":");
        stanza.append(self.forward_host.as_str());
        stanza.append(":");
        let port = decimal(self.forward_port);
        stanza.append(port.as_str());
        stanza
    }

    /// The arguments handed to `ssh`, in order: no terminal, verbose
    /// diagnostics, no strict host key checking, a connection timeout of 5,
    /// keep-alive probes every 30, the private key, no remote command, and
    /// the forwarding stanza followed by the endpoint.
    pub fn ssh_args(&self) -> (args: Vec<String>)
        ensures
            args.deep_view() == self@.ssh_args(),
    {
        let mut args: Vec<String> = Vec::new();
        // Disable pseudo-terminal allocation.
        args.push(String::from_str("-T"));
        // Be verbose, so that the diagnostics tell the tunnel's status.
        args.push(String::from_str("-v"));
        // Needed unless the server's public key is asked for as well.
        args.push(String::from_str("-o"));
        args.push(String::from_str("StrictHostKeyChecking no"));
        // Give up connecting after 5 seconds.
        args.push(String::from_str("-o"));
        args.push(String::from_str("ConnectTimeout=5"));
        // Keep the connection from being closed for inactivity.
        args.push(String::from_str("-o"));
        args.push(String::from_str("ServerAliveInterval=30"));
        args.push(String::from_str("-i"));
        args.push(self.private_key.clone());
        // Run no remote command: forward the ports only.
        args.push(String::from_str("-N"));
        args.push(String::from_str("-L"));
        args.push(self.forwarding_stanza());
        args.push(self.ssh_endpoint.clone());
        assert(args.deep_view() =~= self@.ssh_args());
        args
    }
}

/// Where a tunnel stands in its life.
#[derive(Debug, Clone, Copy, PartialEq, Eq, Structural)]
pub enum TunnelState {
    /// No process was spawned.
    Unstarted,
    /// The process was spawned and its ready marker is awaited.
    Starting,
    /// Preparation has ended well and serving may begin.
    Ready,
    /// The process's exit is awaited.
    Serving,
    /// The process has exited.
    Terminated,
    /// The tunnel was torn down.
    CleanedUp,
}

impl TunnelState {
    /// The state's place in a tunnel's life, counted from `Unstarted`.
    pub open spec fn position(self) -> nat {
        match self {
            TunnelState::Unstarted => 0,
            TunnelState::Starting => 1,
            TunnelState::Ready => 2,
            TunnelState::Serving => 3,
            TunnelState::Terminated => 4,
            TunnelState::CleanedUp => 5,
        }
    }
}

/// A tunnel's state, and whether a process was ever spawned for it.
#[derive(Debug, Clone, Copy, PartialEq, Eq, Structural)]
pub struct Lifecycle {
    pub state: TunnelState,
    pub spawned: bool,
}

impl Lifecycle {
    /// A tunnel that has not started has no process, and one that is
    /// starting, ready, serving or terminated has one.
    pub open spec fn wf(self) -> bool {
        match self.state {
            TunnelState::Unstarted => !self.spawned,
            TunnelState::CleanedUp => true,
            _ => self.spawned,
        }
    }
}

/// How the transport process ended: its exit code, if it has one, and a
/// rendering of the whole status for diagnostics.
#[derive(Debug, PartialEq, Eq)]
pub struct ExitStatus {
    pub code: Option<i32>,
    pub rendering: String,
}

/// The mathematical content of an [`ExitStatus`].
pub struct ExitStatusView {
    pub code: Option<i32>,
    pub rendering: Seq<char>,
}

impl View for ExitStatus {
    type V = ExitStatusView;

    open spec fn view(&self) -> ExitStatusView {
        ExitStatusView { code: self.code, rendering: self.rendering@ }
    }
}

impl ExitStatusView {
    /// The process ended well: it exited, and with code zero.
    pub open spec fn success(self) -> bool {
        self.code == Some(0i32)
    }
}

impl ExitStatus {
    /// Whether the process ended well: it exited, and with code zero.
    pub fn success(&self) -> (b: bool)
        ensures
            b == self@.success(),
    {
        match self.code {
            Some(code) => code == 0,
            None => false,
        }
    }
}

/// What the process layer reports while a tunnel is prepared.
#[derive(Debug, PartialEq, Eq)]
pub enum PrepareEvent {
    /// Preparation is asked for.
    Begin,
    /// The spawn requested by [`PrepareAction::Spawn`] has ended.
    Spawned(Result<(), IoError>),
    /// The read requested by [`PrepareAction::ReadLine`] or
    /// [`PrepareAction::Report`] has ended: in the next line of the
    /// diagnostic stream, in nothing because the stream has closed, or in a
    /// failure.
    Read(Result<Option<String>, IoError>),
}

/// The mathematical content of a [`PrepareEvent`].
pub enum PrepareEventView {
    Begin,
    Spawned(Result<(), IoErrorView>),
    Read(Result<Option<Seq<char>>, IoErrorView>),
}

impl View for PrepareEvent {
    type V = PrepareEventView;

    open spec fn view(&self) -> PrepareEventView {
        match self {
            PrepareEvent::Begin => PrepareEventView::Begin,
            PrepareEvent::Spawned(result) => PrepareEventView::Spawned(spec_io_outcome(*result)),
            PrepareEvent::Read(Ok(Some(line))) => PrepareEventView::Read(Ok(Some(line@))),
            PrepareEvent::Read(Ok(None)) => PrepareEventView::Read(Ok(None)),
            PrepareEvent::Read(Err(failure)) => PrepareEventView::Read(Err(failure@)),
        }
    }
}

/// What the process layer is to do next while a tunnel is prepared.
#[derive(Debug, PartialEq, Eq)]
pub enum PrepareAction {
    /// Spawn the program with the arguments and with its diagnostic stream
    /// captured, and report [`PrepareEvent::Spawned`].
    Spawn { program: String, args: Vec<String> },
    /// Read the next diagnostic line, and report [`PrepareEvent::Read`].
    ReadLine,
    /// Report the line at the severity, then read the next diagnostic line
    /// and report [`PrepareEvent::Read`].
    Report(Severity, String),
    /// The tunnel is ready: preparation ends in success.
    Succeed,
    /// The stream closed before the ready marker came. Report that at the
    /// severity; preparation ends in success all the same, and the exit
    /// status will tell whether the transport failed.
    SucceedDegraded(Severity),
    /// Preparation ends in this failure.
    Fail(Error),
    /// The event has no place in the tunnel's present state; nothing changed.
    Rejected,
}

/// The mathematical content of a [`PrepareAction`].
pub enum PrepareActionView {
    Spawn { program: Seq<char>, args: Seq<Seq<char>> },
    ReadLine,
    Report(Severity, Seq<char>),
    Succeed,
    SucceedDegraded(Severity),
    Fail(ErrorView),
    Rejected,
}

impl View for PrepareAction {
    type V = PrepareActionView;

    open spec fn view(&self) -> PrepareActionView {
        match self {
            PrepareAction::Spawn { program, args } => PrepareActionView::Spawn {
                program: program@,
                args: args.deep_view(),
            },
            PrepareAction::ReadLine => PrepareActionView::ReadLine,
            PrepareAction::Report(severity, line) => PrepareActionView::Report(*severity, line@),
            PrepareAction::Succeed => PrepareActionView::Succeed,
            PrepareAction::SucceedDegraded(severity) => PrepareActionView::SucceedDegraded(
                *severity,
            ),
            PrepareAction::Fail(failure) => PrepareActionView::Fail(failure@),
            PrepareAction::Rejected => PrepareActionView::Rejected,
        }
    }
}

impl PrepareActionView {
    /// The action ends preparation: nothing more is read after it.
    pub open spec fn ends_preparation(self) -> bool {
        match self {
            PrepareActionView::Spawn { .. } => false,
            PrepareActionView::ReadLine => false,
            PrepareActionView::Report(_, _) => false,
            _ => true,
        }
    }
}

/// What the process layer reports while a tunnel serves.
#[derive(Debug, PartialEq, Eq)]
pub enum ServeEvent {
    /// Serving is asked for.
    Begin,
    /// The wait requested by [`ServeAction::Wait`] has ended.
    Exited(Result<ExitStatus, IoError>),
}

/// The mathematical content of a [`ServeEvent`].
pub enum ServeEventView {
    Begin,
    Exited(Result<ExitStatusView, IoErrorView>),
}

impl View for ServeEvent {
    type V = ServeEventView;

    open spec fn view(&self) -> ServeEventView {
        match self {
            ServeEvent::Begin => ServeEventView::Begin,
            ServeEvent::Exited(Ok(status)) => ServeEventView::Exited(Ok(status@)),
            ServeEvent::Exited(Err(failure)) => ServeEventView::Exited(Err(failure@)),
        }
    }
}

/// What the process layer is to do next while a tunnel serves.
#[derive(Debug, PartialEq, Eq)]
pub enum ServeAction {
    /// Wait for the process to terminate, and report [`ServeEvent::Exited`].
    Wait,
    /// The process ended well: serving ends in success.
    Succeed,
    /// The process ended badly: report it at the severity, then serving
    /// ends in this failure.
    ReportAndFail(Severity, Error),
    /// Serving ends in this failure.
    Fail(Error),
    /// The event has no place in the tunnel's present state; nothing changed.
    Rejected,
}

/// The mathematical content of a [`ServeAction`].
pub enum ServeActionView {
    Wait,
    Succeed,
    ReportAndFail(Severity, ErrorView),
    Fail(ErrorView),
    Rejected,
}

impl View for ServeAction {
    type V = ServeActionView;

    open spec fn view(&self) -> ServeActionView {
        match self {
            ServeAction::Wait => ServeActionView::Wait,
            ServeAction::Succeed => ServeActionView::Succeed,
            ServeAction::ReportAndFail(severity, failure) => ServeActionView::ReportAndFail(
                *severity,
                failure@,
            ),
            ServeAction::Fail(failure) => ServeActionView::Fail(failure@),
            ServeAction::Rejected => ServeActionView::Rejected,
        }
    }
}

/// What the process layer reports while a tunnel is torn down.
#[derive(Debug, PartialEq, Eq)]
pub enum CleanupEvent {
    /// Teardown is asked for.
    Begin,
    /// The kill requested by [`CleanupAction::Kill`] has ended.
    Killed(Result<(), IoError>),
}

/// The mathematical content of a [`CleanupEvent`].
pub enum CleanupEventView {
    Begin,
    Killed(Result<(), IoErrorView>),
}

impl View for CleanupEvent {
    type V = CleanupEventView;

    open spec fn view(&self) -> CleanupEventView {
        match self {
            CleanupEvent::Begin => CleanupEventView::Begin,
            CleanupEvent::Killed(result) => CleanupEventView::Killed(spec_io_outcome(*result)),
        }
    }
}

/// What the process layer is to do next while a tunnel is torn down.
#[derive(Debug, PartialEq, Eq)]
pub enum CleanupAction {
    /// Kill the process, and report [`CleanupEvent::Killed`].
    Kill,
    /// Teardown ends in success.
    Succeed,
    /// Teardown ends in this failure.
    Fail(Error),
    /// The event has no place in the tunnel's present state; nothing changed.
    Rejected,
}

/// The mathematical content of a [`CleanupAction`].
pub enum CleanupActionView {
    Kill,
    Succeed,
    Fail(ErrorView),
    Rejected,
}

impl View for CleanupAction {
    type V = CleanupActionView;

    open spec fn view(&self) -> CleanupActionView {
        match self {
            CleanupAction::Kill => CleanupActionView::Kill,
            CleanupAction::Succeed => CleanupActionView::Succeed,
            CleanupAction::Fail(failure) => CleanupActionView::Fail(failure@),
            CleanupAction::Rejected => CleanupActionView::Rejected,
        }
    }
}

/// The mathematical content of an [`SshForwarding`], and the model of its
/// operations: each is one step from a tunnel and an event to the tunnel
/// after it and the action asked for.
pub struct SshForwardingView {
    pub config: SshForwardingConfigView,
    pub life: Lifecycle,
}

impl SshForwardingView {
    /// A tunnel for `config`, not started and without a process.
    pub open spec fn unstarted(config: SshForwardingConfigView) -> SshForwardingView {
        SshForwardingView {
            config,
            life: Lifecycle { state: TunnelState::Unstarted, spawned: false },
        }
    }

    /// The tunnel moved on to `state`.
    pub open spec fn at(self, state: TunnelState) -> SshForwardingView {
        SshForwardingView { life: Lifecycle { state, ..self.life }, ..self }
    }

    /// The tunnel's state and its process agree.
    pub open spec fn wf(self) -> bool {
        self.life.wf()
    }

    /// One step of preparation.
    pub open spec fn prepare(self, event: PrepareEventView) -> (SshForwardingView, PrepareActionView) {
        match (self.life.state, event) {
            (TunnelState::Unstarted, PrepareEventView::Begin) => (
                self,
                PrepareActionView::Spawn { program: SSH_PROGRAM@, args: self.config.ssh_args() },
            ),
            (TunnelState::Unstarted, PrepareEventView::Spawned(Ok(_))) => (
                SshForwardingView {
                    life: Lifecycle { state: TunnelState::Starting, spawned: true },
                    ..self
                },
                PrepareActionView::ReadLine,
            ),
            (TunnelState::Unstarted, PrepareEventView::Spawned(Err(failure))) => (
                self,
                PrepareActionView::Fail(ErrorView::IO(failure)),
            ),
            (TunnelState::Starting, PrepareEventView::Read(Ok(Some(line)))) => if spec_is_ready(
                line,
            ) {
                (self.at(TunnelState::Ready), PrepareActionView::Succeed)
            } else {
                (self, PrepareActionView::Report(spec_severity(line), line))
            },
            (TunnelState::Starting, PrepareEventView::Read(Ok(None))) => (
                self.at(TunnelState::Ready),
                PrepareActionView::SucceedDegraded(Severity::Warning),
            ),
            (TunnelState::Starting, PrepareEventView::Read(Err(failure))) => (
                self,
                PrepareActionView::Fail(ErrorView::IO(failure)),
            ),
            // Preparing a tunnel that is ready already changes nothing.
            (TunnelState::Ready, PrepareEventView::Begin) => (self, PrepareActionView::Succeed),
            _ => (self, PrepareActionView::Rejected),
        }
    }

    /// One step of serving.
    pub open spec fn start_serve(self, event: ServeEventView) -> (SshForwardingView, ServeActionView) {
        match (self.life.state, event) {
            (TunnelState::Ready, ServeEventView::Begin) => (
                self.at(TunnelState::Serving),
                ServeActionView::Wait,
            ),
            (TunnelState::Serving, ServeEventView::Exited(Ok(status))) => (
                self.at(TunnelState::Terminated),
                if status.success() {
                    ServeActionView::Succeed
                } else {
                    ServeActionView::ReportAndFail(
                        Severity::Error,
                        ErrorView::TunnelExitNonZero(status.rendering),
                    )
                },
            ),
            (TunnelState::Serving, ServeEventView::Exited(Err(failure))) => (
                self,
                ServeActionView::Fail(ErrorView::IO(failure)),
            ),
            _ => (self, ServeActionView::Rejected),
        }
    }

    /// One step of teardown.
    pub open spec fn cleanup(self, event: CleanupEventView) -> (SshForwardingView, CleanupActionView) {
        match event {
            CleanupEventView::Begin => if self.life.spawned {
                (self, CleanupActionView::Kill)
            } else {
                (self.at(TunnelState::CleanedUp), CleanupActionView::Succeed)
            },
            CleanupEventView::Killed(result) => if !self.life.spawned {
                (self, CleanupActionView::Rejected)
            } else {
                match result {
                    Ok(_) => (self.at(TunnelState::CleanedUp), CleanupActionView::Succeed),
                    Err(failure) => if failure.kind == IoErrorKind::InvalidInput {
                        // The process had exited already: nothing is left to kill.
                        (self.at(TunnelState::CleanedUp), CleanupActionView::Succeed)
                    } else {
                        (self, CleanupActionView::Fail(ErrorView::IO(failure)))
                    },
                }
            },
        }
    }

    /// Preparation over a stream of events: the tunnel it ends in and the
    /// actions it asks for, one for each event that it takes. Events that
    /// follow an action which ends preparation are not taken.
    pub open spec fn prepare_over(self, events: Seq<PrepareEventView>) -> (
        SshForwardingView,
        Seq<PrepareActionView>,
    )
        decreases events.len(),
    {
        if events.len() == 0 {
            (self, Seq::empty())
        } else {
            let (next, action) = self.prepare(events.first());
            if action.ends_preparation() {
                (next, seq![action])
            } else {
                let (last, rest) = next.prepare_over(events.drop_first());
                (last, seq![action] + rest)
            }
        }
    }
}

/// The events by which a diagnostic stream hands over `lines`, one by one.
pub open spec fn spec_line_events(lines: Seq<Seq<char>>) -> Seq<PrepareEventView> {
    Seq::new(lines.len(), |i: int| PrepareEventView::Read(Ok(Some(lines[i]))))
}

/// A tunnel that forwards a local port to a remote destination through an
/// `ssh` child process. It performs no I/O itself: each operation is a step
/// from the tunnel's state and an event to its next state and the action
/// that the process layer is to perform.
#[derive(Debug)]
pub struct SshForwarding {
    config: SshForwardingConfig,
    life: Lifecycle,
}

impl View for SshForwarding {
    type V = SshForwardingView;

    closed spec fn view(&self) -> SshForwardingView {
        SshForwardingView { config: self.config@, life: self.life }
    }
}

impl SshForwarding {
    #[verifier::type_invariant]
    spec fn inv(self) -> bool {
        self.life.wf()
    }

    /// A tunnel for `config`, not started and without a process.
    pub fn new(config: SshForwardingConfig) -> (tunnel: Self)
        ensures
            tunnel@ == SshForwardingView::unstarted(config@),
    {
        Self { config, life: Lifecycle { state: TunnelState::Unstarted, spawned: false } }
    }

    /// The tunnel's parameters.
    pub fn config(&self) -> (config: &SshForwardingConfig)
        ensures
            config@ == self@.config,
    {
        &self.config
    }

    /// The tunnel's state, and whether a process was ever spawned for it.
    pub fn lifecycle(&self) -> (life: Lifecycle)
        ensures
            life == self@.life,
            life.wf(),
    {
        proof {
            use_type_invariant(self);
        }
        self.life
    }

    /// The tunnel's state.
    pub fn state(&self) -> (state: TunnelState)
        ensures
            state == self@.life.state,
    {
        self.life.state
    }

    /// Whether a process was ever spawned for the tunnel.
    pub fn has_process(&self) -> (spawned: bool)
        ensures
            spawned == self@.life.spawned,
    {
        self.life.spawned
    }

    /// One step of preparation. `Begin` asks for the spawn of
    /// [`SSH_PROGRAM`] with the arguments that the configuration gives; a
    /// spawn that succeeded makes the tunnel `Starting` and asks for the
    /// first line; each line is classified, and only the ready marker ends
    /// the reading, in success; a stream that closes first ends it in
    /// success too, with a warning; a spawn or a read that failed ends
    /// preparation in that failure. On a tunnel that is ready already,
    /// `Begin` succeeds at once.
    pub fn prepare(&mut self, event: PrepareEvent) -> (action: PrepareAction)
        ensures
            final(self)@ == old(self)@.prepare(event@).0,
            action@ == old(self)@.prepare(event@).1,
            final(self)@.wf(),
    {
        proof {
            use_type_invariant(&*self);
        }
        match self.life.state {
            TunnelState::Unstarted => match event {
                PrepareEvent::Begin => PrepareAction::Spawn {
                    program: String::from_str(SSH_PROGRAM),
                    args: self.config.ssh_args(),
                },
                PrepareEvent::Spawned(Ok(_)) => {
                    self.life = Lifecycle { state: TunnelState::Starting, spawned: true };
                    PrepareAction::ReadLine
                },
                PrepareEvent::Spawned(Err(failure)) => PrepareAction::Fail(Error::IO(failure)),
                _ => PrepareAction::Rejected,
            },
            TunnelState::Starting => match event {
                PrepareEvent::Read(Ok(Some(line))) => match classify_line(line.as_str()) {
                    LineClass::Ready => {
                        self.life = Lifecycle { state: TunnelState::Ready, spawned: self.life.spawned };
                        PrepareAction::Succeed
                    },
                    LineClass::Diagnostic(severity) => PrepareAction::Report(severity, line),
                },
                PrepareEvent::Read(Ok(None)) => {
                    self.life = Lifecycle { state: TunnelState::Ready, spawned: self.life.spawned };
                    PrepareAction::SucceedDegraded(Severity::Warning)
                },
                PrepareEvent::Read(Err(failure)) => PrepareAction::Fail(Error::IO(failure)),
                _ => PrepareAction::Rejected,
            },
            TunnelState::Ready => match event {
                PrepareEvent::Begin => PrepareAction::Succeed,
                _ => PrepareAction::Rejected,
            },
            _ => PrepareAction::Rejected,
        }
    }

    /// One step of serving. `Begin` on a ready tunnel asks for the wait; an
    /// exit with code zero ends serving in success, any other exit in
    /// [`Error::TunnelExitNonZero`] with the status's rendering, reported as
    /// an error first; a wait that failed ends serving in that failure.
    pub fn start_serve(&mut self, event: ServeEvent) -> (action: ServeAction)
        ensures
            final(self)@ == old(self)@.start_serve(event@).0,
            action@ == old(self)@.start_serve(event@).1,
            final(self)@.wf(),
    {
        proof {
            use_type_invariant(&*self);
        }
        match self.life.state {
            TunnelState::Ready => match event {
                ServeEvent::Begin => {
                    self.life = Lifecycle { state: TunnelState::Serving, spawned: self.life.spawned };
                    ServeAction::Wait
                },
                _ => ServeAction::Rejected,
            },
            TunnelState::Serving => match event {
                ServeEvent::Exited(Ok(status)) => {
                    self.life = Lifecycle { state: TunnelState::Terminated, spawned: self.life.spawned };
                    if status.success() {
                        ServeAction::Succeed
                    } else {
                        ServeAction::ReportAndFail(
                            Severity::Error,
                            Error::TunnelExitNonZero(status.rendering),
                        )
                    }
                },
                ServeEvent::Exited(Err(failure)) => ServeAction::Fail(Error::IO(failure)),
                _ => ServeAction::Rejected,
            },
            _ => ServeAction::Rejected,
        }
    }

    /// One step of teardown. `Begin` asks for the kill if and only if a
    /// process was ever spawned, and ends teardown in success at once if
    /// none was. A kill that succeeded, or that failed because the process
    /// had exited already, ends teardown in success; any other failure of
    /// the kill ends it in that failure.
    pub fn cleanup(&mut self, event: CleanupEvent) -> (action: CleanupAction)
        ensures
            final(self)@ == old(self)@.cleanup(event@).0,
            action@ == old(self)@.cleanup(event@).1,
            final(self)@.wf(),
    {
        proof {
            use_type_invariant(&*self);
        }
        match event {
            CleanupEvent::Begin => {
                if self.life.spawned {
                    CleanupAction::Kill
                } else {
                    self.life = Lifecycle { state: TunnelState::CleanedUp, spawned: false };
                    CleanupAction::Succeed
                }
            },
            CleanupEvent::Killed(result) => {
                if !self.life.spawned {
                    CleanupAction::Rejected
                } else {
                    match result {
                        Ok(_) => {
                            self.life = Lifecycle { state: TunnelState::CleanedUp, spawned: true };
                            CleanupAction::Succeed
                        },
                        Err(failure) => {
                            if failure.is_invalid_input() {
                                self.life = Lifecycle { state: TunnelState::CleanedUp, spawned: true };
                                CleanupAction::Succeed
                            } else {
                                CleanupAction::Fail(Error::IO(failure))
                            }
                        },
                    }
                }
            },
        }
    }
}

} // verus!
