use vstd::prelude::*;
use crate::text::{decimal_of, push_decimal, push_text};

verus! {

/// Where the remote supervision script stands.
#[derive(Clone, Copy, Debug, PartialEq, Eq, Structural)]
pub enum SupervisorState {
    /// The server was started in the background; the verification window runs.
    Starting,
    /// The server survived the window; the control channel is polled.
    Supervising,
    /// The control channel went away and the server was killed.
    Terminated,
    /// The server died within the window.
    Failed,
}

/// What the supervision script observes.
#[derive(Clone, Copy, Debug, PartialEq, Eq, Structural)]
pub enum SupervisorEvent {
    /// The end of the verification window: whether the server still runs.
    StartupChecked { server_alive: bool },
    /// One poll of the control channel: whether the script's parent still runs.
    ParentPolled { parent_alive: bool },
}

/// What the supervision script does in answer.
#[derive(Clone, Copy, Debug, PartialEq, Eq, Structural)]
pub enum SupervisorAction {
    /// Report the failed start, naming an architecture mismatch, and exit nonzero.
    ReportStartFailure,
    /// Sleep one polling interval, then poll again.
    PollAgain,
    /// Kill the server (an already exited server is no error) and exit.
    KillServer,
    /// The event does not apply in this state.
    Ignore,
}

/// One transition of the supervision protocol.
pub open spec fn step_spec(s: SupervisorState, e: SupervisorEvent) -> (SupervisorState, SupervisorAction) {
    match (s, e) {
        (SupervisorState::Starting, SupervisorEvent::StartupChecked { server_alive }) => {
            if server_alive {
                (SupervisorState::Supervising, SupervisorAction::PollAgain)
            } else {
                (SupervisorState::Failed, SupervisorAction::ReportStartFailure)
            }
        },
        (SupervisorState::Supervising, SupervisorEvent::ParentPolled { parent_alive }) => {
            if parent_alive {
                (SupervisorState::Supervising, SupervisorAction::PollAgain)
            } else {
                (SupervisorState::Terminated, SupervisorAction::KillServer)
            }
        },
        _ => (s, SupervisorAction::Ignore),
    }
}

/// One transition of the supervision protocol.
pub fn supervisor_step(s: SupervisorState, e: SupervisorEvent) -> (r: (SupervisorState, SupervisorAction))
    ensures
        r == step_spec(s, e),
{
    match (s, e) {
        (SupervisorState::Starting, SupervisorEvent::StartupChecked { server_alive }) => {
            if server_alive {
                (SupervisorState::Supervising, SupervisorAction::PollAgain)
            } else {
                (SupervisorState::Failed, SupervisorAction::ReportStartFailure)
            }
        },
        (SupervisorState::Supervising, SupervisorEvent::ParentPolled { parent_alive }) => {
            if parent_alive {
                (SupervisorState::Supervising, SupervisorAction::PollAgain)
            } else {
                (SupervisorState::Terminated, SupervisorAction::KillServer)
            }
        },
        _ => (s, SupervisorAction::Ignore),
    }
}

/// The state after a sequence of events.
pub open spec fn run_state(s: SupervisorState, evs: Seq<SupervisorEvent>) -> SupervisorState
    decreases evs.len(),
{
    if evs.len() == 0 {
        s
    } else {
        run_state(step_spec(s, evs[0]).0, evs.drop_first())
    }
}

/// The actions taken in answer to a sequence of events, one per event.
pub open spec fn run_actions(s: SupervisorState, evs: Seq<SupervisorEvent>) -> Seq<SupervisorAction>
    decreases evs.len(),
{
    if evs.len() == 0 {
        Seq::empty()
    } else {
        seq![step_spec(s, evs[0]).1] + run_actions(step_spec(s, evs[0]).0, evs.drop_first())
    }
}

proof fn lemma_actions_len(s: SupervisorState, evs: Seq<SupervisorEvent>)
    ensures
        run_actions(s, evs).len() == evs.len(),
    decreases evs.len(),
{
    if evs.len() > 0 {
        lemma_actions_len(step_spec(s, evs[0]).0, evs.drop_first());
    }
}

proof fn lemma_failed_absorbs(evs: Seq<SupervisorEvent>)
    ensures
        run_state(SupervisorState::Failed, evs) == SupervisorState::Failed,
        run_actions(SupervisorState::Failed, evs) =~= Seq::new(evs.len(), |i: int| SupervisorAction::Ignore),
    decreases evs.len(),
{
    if evs.len() > 0 {
        lemma_failed_absorbs(evs.drop_first());
    }
}

/// A server that dies within the verification window ends the protocol in
/// `Failed` with a start failure report, and from then on whatever is observed
/// no state is `Supervising` and no action polls or kills.
pub proof fn lemma_failed_start_never_supervises(evs: Seq<SupervisorEvent>)
    ensures
        ({
            let all = seq![SupervisorEvent::StartupChecked { server_alive: false }] + evs;
            &&& run_actions(SupervisorState::Starting, all)[0] == SupervisorAction::ReportStartFailure
            &&& run_actions(SupervisorState::Starting, all).len() == all.len()
            &&& forall|i: int| 0 < i <= all.len() ==> run_state(SupervisorState::Starting, #[trigger] all.take(i))
                == SupervisorState::Failed
            &&& forall|i: int| 0 < i < all.len() ==> #[trigger] run_actions(SupervisorState::Starting, all)[i]
                == SupervisorAction::Ignore
        }),
{
    let all = seq![SupervisorEvent::StartupChecked { server_alive: false }] + evs;
    assert(all.drop_first() =~= evs);
    lemma_failed_absorbs(evs);
    lemma_actions_len(SupervisorState::Starting, all);
    assert forall|i: int| 0 < i <= all.len() implies run_state(SupervisorState::Starting, #[trigger] all.take(i))
        == SupervisorState::Failed by {
        lemma_failed_absorbs(all.take(i).drop_first());
        assert(all.take(i)[0] == all[0]);
    }
}

/// Parent polls at `start`, `start + interval`, ...: the `k`-th sees the
/// parent alive exactly when it comes before `death`.
pub open spec fn poll_events(start: nat, interval: nat, death: nat, n: nat) -> Seq<SupervisorEvent> {
    Seq::new(n, |k: int| SupervisorEvent::ParentPolled { parent_alive: start + k * interval < death })
}

/// The index of the first poll at or after `death`.
pub open spec fn kill_poll_index(start: nat, interval: nat, death: nat) -> nat
    recommends
        interval > 0,
        start <= death,
{
    ((death - start + interval - 1) as nat) / interval
}

proof fn lemma_kill_index_bounds(start: nat, interval: nat, death: nat)
    requires
        interval > 0,
        start <= death,
    ensures
        start + kill_poll_index(start, interval, death) * interval >= death,
        start + kill_poll_index(start, interval, death) * interval < death + interval,
        forall|k: nat| k < kill_poll_index(start, interval, death) ==> start + #[trigger] (k * interval) < death,
{
    let d = (death - start) as nat;
    let q = kill_poll_index(start, interval, death);
    assert(q as int == (d + interval - 1) / interval as int);
    assert(q * interval >= d && q * interval < d + interval) by (nonlinear_arith)
        requires
            q as int == (d + interval - 1) / interval as int,
            interval > 0,
    ;
    assert forall|k: nat| k < q implies start + #[trigger] (k * interval) < death by {
        assert(k * interval < d) by (nonlinear_arith)
            requires
                k < q,
                q as int == (d + interval - 1) / interval as int,
                interval > 0,
        ;
    }
}

proof fn lemma_polls_until_dead(evs: Seq<SupervisorEvent>, j: int)
    requires
        0 <= j < evs.len(),
        forall|k: int| 0 <= k < j ==> evs[k] == (SupervisorEvent::ParentPolled { parent_alive: true }),
        evs[j] == (SupervisorEvent::ParentPolled { parent_alive: false }),
    ensures
        forall|k: int| 0 <= k < j ==> #[trigger] run_actions(SupervisorState::Supervising, evs)[k]
            == SupervisorAction::PollAgain,
        run_actions(SupervisorState::Supervising, evs)[j] == SupervisorAction::KillServer,
        run_state(SupervisorState::Supervising, evs.take(j + 1)) == SupervisorState::Terminated,
    decreases j,
{
    let rest = evs.drop_first();
    if j == 0 {
        let t = evs.take(1);
        assert(t.drop_first() =~= Seq::<SupervisorEvent>::empty());
        assert(t[0] == evs[0]);
        assert(run_state(SupervisorState::Supervising, t) == run_state(
            SupervisorState::Terminated,
            t.drop_first(),
        ));
        assert(run_state(SupervisorState::Terminated, t.drop_first()) == SupervisorState::Terminated);
    } else {
        assert forall|k: int| 0 <= k < j - 1 implies rest[k] == (SupervisorEvent::ParentPolled {
            parent_alive: true,
        }) by {
            assert(rest[k] == evs[k + 1]);
        }
        lemma_polls_until_dead(rest, j - 1);
        lemma_actions_len(SupervisorState::Supervising, rest);
        let acts = run_actions(SupervisorState::Supervising, evs);
        assert(acts == seq![SupervisorAction::PollAgain] + run_actions(SupervisorState::Supervising, rest));
        assert forall|k: int| 0 <= k < j implies #[trigger] acts[k] == SupervisorAction::PollAgain by {
            if k > 0 {
                assert(acts[k] == run_actions(SupervisorState::Supervising, rest)[k - 1]);
            }
        }
        let t = evs.take(j + 1);
        assert(t.drop_first() =~= rest.take(j));
        assert(t[0] == evs[0]);
        assert(run_state(SupervisorState::Supervising, rest.take(j)) == SupervisorState::Terminated);
        assert(run_state(SupervisorState::Supervising, t) == run_state(
            step_spec(SupervisorState::Supervising, t[0]).0,
            t.drop_first(),
        ));
    }
}

/// Once the control channel is gone, the supervision loop kills the server at
/// the first poll at or after that moment, less than one polling interval
/// later; every earlier poll only waits.
pub proof fn lemma_teardown_within_interval(start: nat, interval: nat, death: nat, n: nat)
    requires
        interval > 0,
        start <= death,
        n > kill_poll_index(start, interval, death),
    ensures
        ({
            let k = kill_poll_index(start, interval, death);
            let acts = run_actions(SupervisorState::Supervising, poll_events(start, interval, death, n));
            &&& acts[k as int] == SupervisorAction::KillServer
            &&& forall|i: int| 0 <= i < k ==> #[trigger] acts[i] == SupervisorAction::PollAgain
            &&& death <= start + k * interval < death + interval
            &&& run_state(SupervisorState::Supervising, poll_events(start, interval, death, n).take(k + 1 as int))
                == SupervisorState::Terminated
        }),
{
    let k = kill_poll_index(start, interval, death);
    let evs = poll_events(start, interval, death, n);
    lemma_kill_index_bounds(start, interval, death);
    assert forall|i: int| 0 <= i < k implies evs[i] == (SupervisorEvent::ParentPolled { parent_alive: true }) by {
        let iv = i as nat;
        assert(start + iv * interval < death);
    }
    lemma_polls_until_dead(evs, k as int);
}

/// The first poll time at or after `death`, for polls every `interval` from
/// `start`: when the supervision loop issues the kill.
pub fn kill_time(start: u64, interval: u64, death: u64) -> (r: u128)
    requires
        interval > 0,
        start <= death,
    ensures
        r == start + kill_poll_index(start as nat, interval as nat, death as nat) * interval,
        death <= r < death + interval,
{
    proof {
        lemma_kill_index_bounds(start as nat, interval as nat, death as nat);
    }
    let d: u128 = (death - start) as u128;
    let iv: u128 = interval as u128;
    let q: u128 = (d + (iv - 1)) / iv;
    assert(q * iv <= d + iv) by (nonlinear_arith)
        requires
            q as int == (d as int + iv as int - 1) / iv as int,
            iv > 0,
    ;
    start as u128 + q * iv
}

/// The launch script for a server on `port`: start it in the background, give
/// it two seconds, report and exit nonzero if it died, else poll the parent
/// (the process holding the control channel) once a second and kill the
/// server as soon as the parent is gone.
pub open spec fn launch_script_spec(port: nat) -> Seq<char> {
    "cd ~/.socratic-shell/theoldswitcheroo/\n./openvscode-server/bin/openvscode-server --host 0.0.0.0 --port "@
        + decimal_of(port)
        + " --without-connection-token &\nSERVER_PID=$!\nsleep 2\nif ! kill -0 $SERVER_PID 2>/dev/null; then\n  echo \"ERROR: openvscode-server failed to start\"\n  echo \"This is often caused by architecture mismatch (wrong --arch parameter)\"\n  echo \"Try: --arch linux-arm64 for ARM64 systems, --arch linux-x64 for x86_64 systems\"\n  exit 1\nfi\nwhile kill -0 $PPID 2>/dev/null; do sleep 1; done\nkill $SERVER_PID 2>/dev/null\nexit 0\n"@
}

/// The launch script for a server on `port`.
pub fn launch_script(port: u16) -> (r: String)
    ensures
        r@ == launch_script_spec(port as nat),
{
    let mut r = String::from_str(
        "cd ~/.socratic-shell/theoldswitcheroo/\n./openvscode-server/bin/openvscode-server --host 0.0.0.0 --port ",
    );
    push_decimal(&mut r, port);
    push_text(
        &mut r,
        " --without-connection-token &\nSERVER_PID=$!\nsleep 2\nif ! kill -0 $SERVER_PID 2>/dev/null; then\n  echo \"ERROR: openvscode-server failed to start\"\n  echo \"This is often caused by architecture mismatch (wrong --arch parameter)\"\n  echo \"Try: --arch linux-arm64 for ARM64 systems, --arch linux-x64 for x86_64 systems\"\n  exit 1\nfi\nwhile kill -0 $PPID 2>/dev/null; do sleep 1; done\nkill $SERVER_PID 2>/dev/null\nexit 0\n",
    );
    r
}

/// The tunnel request mapping local `port` to the same remote port.
pub open spec fn tunnel_spec(port: nat) -> Seq<char> {
    decimal_of(port) + ":localhost:"@ + decimal_of(port)
}

/// The tunnel request mapping local `port` to the same remote port.
pub fn tunnel_arg(port: u16) -> (r: String)
    ensures
        r@ == tunnel_spec(port as nat),
{
    let mut r = String::new();
    push_decimal(&mut r, port);
    push_text(&mut r, ":localhost:");
    push_decimal(&mut r, port);
    assert(r@ =~= tunnel_spec(port as nat));
    r
}

} // verus!
