//! What holds of the forwarding tunnel's model, whatever the events.

use crate::diagnostics::{spec_is_ready, spec_severity, Severity};
use crate::errors::{ErrorView, IoErrorKind, IoErrorView};
use crate::sshforwarding::{
    spec_line_events, CleanupActionView, CleanupEventView, ExitStatusView, PrepareActionView,
    PrepareEventView, ServeActionView, ServeEventView, SshForwardingView, TunnelState,
    SSH_PROGRAM,
};
use vstd::prelude::*;

verus! {

/// Every operation keeps a well-formed tunnel well-formed, and none
/// touches its configuration.
pub proof fn lemma_tunnel_stays_well_formed(
    tunnel: SshForwardingView,
    prepare: PrepareEventView,
    serve: ServeEventView,
    cleanup: CleanupEventView,
)
    requires
        tunnel.wf(),
    ensures
        tunnel.prepare(prepare).0.wf(),
        tunnel.start_serve(serve).0.wf(),
        tunnel.cleanup(cleanup).0.wf(),
        tunnel.prepare(prepare).0.config == tunnel.config,
        tunnel.start_serve(serve).0.config == tunnel.config,
        tunnel.cleanup(cleanup).0.config == tunnel.config,
{
}

/// A tunnel's life runs one way: no step takes its state back.
pub proof fn lemma_state_never_goes_back(
    tunnel: SshForwardingView,
    prepare: PrepareEventView,
    serve: ServeEventView,
    cleanup: CleanupEventView,
)
    ensures
        tunnel.life.state.position() <= tunnel.prepare(prepare).0.life.state.position(),
        tunnel.life.state.position() <= tunnel.start_serve(serve).0.life.state.position(),
        tunnel.life.state.position() <= tunnel.cleanup(cleanup).0.life.state.position(),
{
}

/// A tunnel has a process from the spawn that succeeded on, and for good:
/// no other step gives it one, and none takes it away.
pub proof fn lemma_process_is_held_from_spawn_on(
    tunnel: SshForwardingView,
    prepare: PrepareEventView,
    serve: ServeEventView,
    cleanup: CleanupEventView,
)
    ensures
        tunnel.prepare(prepare).0.life.spawned <==> tunnel.life.spawned || (tunnel.life.state
            == TunnelState::Unstarted && prepare matches PrepareEventView::Spawned(Ok(_))),
        tunnel.start_serve(serve).0.life.spawned == tunnel.life.spawned,
        tunnel.cleanup(cleanup).0.life.spawned == tunnel.life.spawned,
{
}

/// Teardown asks for the kill if and only if a process was ever spawned;
/// without one it succeeds at once.
pub proof fn lemma_kill_is_asked_iff_spawned(tunnel: SshForwardingView)
    ensures
        tunnel.cleanup(CleanupEventView::Begin).1 == CleanupActionView::Kill
            <==> tunnel.life.spawned,
        !tunnel.life.spawned ==> tunnel.cleanup(CleanupEventView::Begin).1
            == CleanupActionView::Succeed,
{
}

/// The spawn that preparation asks for is fixed by the configuration: the
/// program is [`SSH_PROGRAM`], and the arguments end in `-L`, the forwarding
/// stanza and the endpoint.
pub proof fn lemma_spawn_follows_the_configuration(tunnel: SshForwardingView)
    requires
        tunnel.life.state == TunnelState::Unstarted,
    ensures
        tunnel.prepare(PrepareEventView::Begin).1 == (PrepareActionView::Spawn {
            program: SSH_PROGRAM@,
            args: tunnel.config.ssh_args(),
        }),
        tunnel.config.ssh_args().len() == 14,
        tunnel.config.ssh_args()[11] == "-L"@,
        tunnel.config.ssh_args()[12] == tunnel.config.forwarding_stanza(),
        tunnel.config.ssh_args()[13] == tunnel.config.ssh_endpoint,
{
}

/// While a tunnel is starting, a line ends the reading if and only if it
/// carries the ready marker; whatever else it says, and however severe, it
/// is reported and the tunnel stays as it is.
pub proof fn lemma_only_the_ready_marker_ends_reading(tunnel: SshForwardingView, line: Seq<char>)
    requires
        tunnel.life.state == TunnelState::Starting,
    ensures
        tunnel.prepare(PrepareEventView::Read(Ok(Some(line)))).1.ends_preparation()
            <==> spec_is_ready(line),
        !spec_is_ready(line) ==> tunnel.prepare(PrepareEventView::Read(Ok(Some(line)))) == (
            tunnel,
            PrepareActionView::Report(spec_severity(line), line),
        ),
{
}

/// Once the stream hands over a line with the ready marker, preparation
/// ends in success on that very line and takes no line after it; every
/// line before it was reported and nothing more.
pub proof fn lemma_ready_marker_ends_preparation(
    tunnel: SshForwardingView,
    lines: Seq<Seq<char>>,
    marker_at: int,
)
    requires
        tunnel.life.state == TunnelState::Starting,
        0 <= marker_at < lines.len(),
        spec_is_ready(lines[marker_at]),
        forall|i: int| 0 <= i < marker_at ==> !spec_is_ready(#[trigger] lines[i]),
    ensures
        ({
            let (after, actions) = tunnel.prepare_over(spec_line_events(lines));
            &&& after == tunnel.at(TunnelState::Ready)
            &&& actions.len() == marker_at + 1
            &&& actions[marker_at] == PrepareActionView::Succeed
            &&& forall|i: int|
                0 <= i < marker_at ==> #[trigger] actions[i] == PrepareActionView::Report(
                    spec_severity(lines[i]),
                    lines[i],
                )
        }),
    decreases marker_at,
{
    let events = spec_line_events(lines);
    if marker_at > 0 {
        let rest = lines.drop_first();
        assert(events.drop_first() =~= spec_line_events(rest));
        assert forall|i: int| 0 <= i < marker_at - 1 implies !spec_is_ready(#[trigger] rest[i]) by {
            assert(rest[i] == lines[i + 1]);
        }
        lemma_ready_marker_ends_preparation(tunnel, rest, marker_at - 1);
        let (after, actions) = tunnel.prepare_over(events);
        let (_, tail) = tunnel.prepare_over(spec_line_events(rest));
        assert(actions =~= seq![PrepareActionView::Report(spec_severity(lines[0]), lines[0])]
            + tail);
        assert forall|i: int| 0 <= i < marker_at implies #[trigger] actions[i]
            == PrepareActionView::Report(spec_severity(lines[i]), lines[i]) by {
            if i > 0 {
                assert(actions[i] == tail[i - 1]);
                assert(rest[i - 1] == lines[i]);
            }
        }
    }
}

/// When the stream closes without a line that holds the ready marker,
/// preparation still ends in success, with a warning, after every line was
/// reported.
pub proof fn lemma_closed_stream_ends_preparation_in_success(
    tunnel: SshForwardingView,
    lines: Seq<Seq<char>>,
)
    requires
        tunnel.life.state == TunnelState::Starting,
        forall|i: int| 0 <= i < lines.len() ==> !spec_is_ready(#[trigger] lines[i]),
    ensures
        ({
            let (after, actions) = tunnel.prepare_over(
                spec_line_events(lines).push(PrepareEventView::Read(Ok(None))),
            );
            &&& after == tunnel.at(TunnelState::Ready)
            &&& actions.len() == lines.len() + 1
            &&& actions.last() == PrepareActionView::SucceedDegraded(Severity::Warning)
            &&& forall|i: int|
                0 <= i < lines.len() ==> #[trigger] actions[i] == PrepareActionView::Report(
                    spec_severity(lines[i]),
                    lines[i],
                )
        }),
    decreases lines.len(),
{
    let closed = PrepareEventView::Read(Ok(None));
    let events = spec_line_events(lines).push(closed);
    if lines.len() > 0 {
        let rest = lines.drop_first();
        assert(events.drop_first() =~= spec_line_events(rest).push(closed));
        assert forall|i: int| 0 <= i < rest.len() implies !spec_is_ready(#[trigger] rest[i]) by {
            assert(rest[i] == lines[i + 1]);
        }
        lemma_closed_stream_ends_preparation_in_success(tunnel, rest);
        let (after, actions) = tunnel.prepare_over(events);
        let (_, tail) = tunnel.prepare_over(spec_line_events(rest).push(closed));
        assert(actions =~= seq![PrepareActionView::Report(spec_severity(lines[0]), lines[0])]
            + tail);
        assert forall|i: int| 0 <= i < lines.len() implies #[trigger] actions[i]
            == PrepareActionView::Report(spec_severity(lines[i]), lines[i]) by {
            if i > 0 {
                assert(actions[i] == tail[i - 1]);
                assert(rest[i - 1] == lines[i]);
            }
        }
    } else {
        assert(events.drop_first() =~= Seq::<PrepareEventView>::empty());
    }
}

/// What the exit status decides: a process that exited with code zero ends
/// serving in success; any other exit ends it in a failure that carries the
/// status's rendering and is reported as an error.
pub proof fn lemma_exit_status_decides(tunnel: SshForwardingView, status: ExitStatusView)
    requires
        tunnel.life.state == TunnelState::Serving,
    ensures
        status.code == Some(0i32) ==> tunnel.start_serve(ServeEventView::Exited(Ok(status))).1
            == ServeActionView::Succeed,
        status.code != Some(0i32) ==> tunnel.start_serve(ServeEventView::Exited(Ok(status))).1
            == ServeActionView::ReportAndFail(
            Severity::Error,
            ErrorView::TunnelExitNonZero(status.rendering),
        ),
{
}

/// A kill that fails because the process had exited already counts as done:
/// teardown ends in success. Any other failure of the kill is the failure
/// of teardown, and the tunnel stays as it was.
pub proof fn lemma_kill_of_exited_process_succeeds(tunnel: SshForwardingView, failure: IoErrorView)
    requires
        tunnel.life.spawned,
    ensures
        failure.kind == IoErrorKind::InvalidInput ==> tunnel.cleanup(
            CleanupEventView::Killed(Err(failure)),
        ) == (tunnel.at(TunnelState::CleanedUp), CleanupActionView::Succeed),
        failure.kind != IoErrorKind::InvalidInput ==> tunnel.cleanup(
            CleanupEventView::Killed(Err(failure)),
        ) == (tunnel, CleanupActionView::Fail(ErrorView::IO(failure))),
{
}

} // verus!
