//! The daemon: the decisions of its polling loop, and of its start and stop.
//! The loop itself, with its clock, its sleep and its calls, belongs to the
//! program; it asks `daemon_main` after each thing it has done what to do
//! next.

use crate::utils::DurationWrapper;
use vstd::prelude::*;

verus! {

/// How the daemon runs: where it keeps its files, how often it fetches and
/// how often it notifies.
#[derive(Clone, Debug, PartialEq, Eq)]
pub struct DaemonConfiguration {
    pub working_directory: String,
    pub exec_interval: DurationWrapper,
    pub notif_interval: DurationWrapper,
}

impl Default for DaemonConfiguration {
    fn default() -> (r: DaemonConfiguration)
        ensures
            r.working_directory@ == Seq::<char>::empty(),
            r.exec_interval == DurationWrapper::whole(0),
            r.notif_interval == DurationWrapper::whole(0),
    {
        DaemonConfiguration {
            working_directory: String::new(),
            exec_interval: DurationWrapper::from_secs(0),
            notif_interval: DurationWrapper::from_secs(0),
        }
    }
}

/// Where the loop stands.
#[derive(Clone, Copy, Debug, PartialEq, Eq, Structural)]
pub enum DaemonPhase {
    /// Waiting for the next fetch to be due.
    AwaitingRefresh,
    /// A fetch is under way.
    Fetching,
    /// The notifications are being shown.
    Notifying,
}

/// The state of the loop. Times are nanoseconds of a clock that never runs
/// backwards.
#[derive(Clone, Copy, Debug, PartialEq, Eq, Structural)]
pub struct DaemonState {
    pub phase: DaemonPhase,
    /// When the iteration under way began.
    pub iteration_start: u128,
    /// When the notifications were last shown; at first, when the daemon began.
    pub last_notification: u128,
}

/// What the loop has to do next.
#[derive(Clone, Copy, Debug, PartialEq, Eq, Structural)]
pub enum DaemonAction {
    /// Fetch every category that is asked for.
    Fetch,
    /// Show what is cached of the current weather and of the alerts.
    Notify,
    /// Sleep for so many nanoseconds.
    Sleep(u128),
}

/// The time from `since` to `now`; nothing where the clock ran backwards.
pub open spec fn elapsed(since: u128, now: u128) -> nat {
    if now >= since {
        (now - since) as nat
    } else {
        0
    }
}

/// Whether the notify interval has passed since the notifications were last
/// shown.
pub open spec fn notification_due(
    state: DaemonState,
    config: DaemonConfiguration,
    now: u128,
) -> bool {
    elapsed(state.last_notification, now) >= config.notif_interval.nanoseconds()
}

/// The end of an iteration that began at `state.iteration_start`: sleep
/// until the refresh interval has passed since then; if it has passed,
/// begin the next iteration at once.
pub open spec fn pace(state: DaemonState, config: DaemonConfiguration, now: u128) -> (
    DaemonState,
    DaemonAction,
) {
    let spent = elapsed(state.iteration_start, now);
    let interval = config.exec_interval.nanoseconds();
    if spent < interval {
        (
            DaemonState { phase: DaemonPhase::AwaitingRefresh, ..state },
            DaemonAction::Sleep((interval - spent) as u128),
        )
    } else {
        (
            DaemonState { phase: DaemonPhase::Fetching, iteration_start: now, ..state },
            DaemonAction::Fetch,
        )
    }
}

/// One decision of the loop, at the time `now`.
///
/// When a fetch is due, the iteration begins. When the fetch is done, the
/// notifications are due if the notify interval has passed since they were
/// last shown; else the iteration ends. When the notifications have been
/// shown, the notify interval counts from `now`, and the iteration ends.
pub open spec fn step(state: DaemonState, config: DaemonConfiguration, now: u128) -> (
    DaemonState,
    DaemonAction,
) {
    match state.phase {
        DaemonPhase::AwaitingRefresh => (
            DaemonState { phase: DaemonPhase::Fetching, iteration_start: now, ..state },
            DaemonAction::Fetch,
        ),
        DaemonPhase::Fetching => if notification_due(state, config, now) {
            (DaemonState { phase: DaemonPhase::Notifying, ..state }, DaemonAction::Notify)
        } else {
            pace(state, config, now)
        },
        DaemonPhase::Notifying => pace(
            DaemonState { last_notification: now, ..state },
            config,
            now,
        ),
    }
}

impl DaemonState {
    /// The state of a daemon that begins at `now`: a fetch is due, and the
    /// notify interval counts from `now`.
    pub fn new(now: u128) -> (state: DaemonState)
        ensures
            state == (DaemonState {
                phase: DaemonPhase::AwaitingRefresh,
                iteration_start: now,
                last_notification: now,
            }),
    {
        DaemonState {
            phase: DaemonPhase::AwaitingRefresh,
            iteration_start: now,
            last_notification: now,
        }
    }
}

fn time_since(since: u128, now: u128) -> (r: u128)
    ensures
        r == elapsed(since, now),
{
    if now >= since {
        now - since
    } else {
        0
    }
}

fn end_iteration(state: &mut DaemonState, config: &DaemonConfiguration, now: u128) -> (action:
    DaemonAction)
    ensures
        (*final(state), action) == pace(*old(state), *config, now),
{
    let spent: u128 = time_since(state.iteration_start, now);
    let interval: u128 = config.exec_interval.as_nanos();
    if spent < interval {
        state.phase = DaemonPhase::AwaitingRefresh;
        DaemonAction::Sleep(interval - spent)
    } else {
        state.phase = DaemonPhase::Fetching;
        state.iteration_start = now;
        DaemonAction::Fetch
    }
}

/// Decides what the loop does next. The loop calls it when it begins, and
/// again each time it has done what it was told, with the time of the call.
pub fn daemon_main(state: &mut DaemonState, config: &DaemonConfiguration, now: u128) -> (action:
    DaemonAction)
    ensures
        (*final(state), action) == step(*old(state), *config, now),
{
    match state.phase {
        DaemonPhase::AwaitingRefresh => {
            state.phase = DaemonPhase::Fetching;
            state.iteration_start = now;
            DaemonAction::Fetch
        },
        DaemonPhase::Fetching => {
            let waited: u128 = time_since(state.last_notification, now);
            if waited >= config.notif_interval.as_nanos() {
                state.phase = DaemonPhase::Notifying;
                DaemonAction::Notify
            } else {
                end_iteration(state, config, now)
            }
        },
        DaemonPhase::Notifying => {
            state.last_notification = now;
            end_iteration(state, config, now)
        },
    }
}

/// The notifications are shown only after a fetch, and only when the notify
/// interval has passed since they were last shown.
pub proof fn lemma_notifications_are_spaced(
    state: DaemonState,
    config: DaemonConfiguration,
    now: u128,
)
    requires
        step(state, config, now).1 is Notify,
    ensures
        state.phase is Fetching,
        now >= state.last_notification + config.notif_interval.nanoseconds()
            || config.notif_interval.nanoseconds() == 0,
        step(state, config, now).0.last_notification == state.last_notification,
{
}

/// The time of the last notifications moves only when they have been shown,
/// and then to the time of that call.
pub proof fn lemma_notification_clock(state: DaemonState, config: DaemonConfiguration, now: u128)
    ensures
        step(state, config, now).0.last_notification == if state.phase is Notifying {
            now
        } else {
            state.last_notification
        },
{
}

/// A sleep ends when the refresh interval has passed since the iteration
/// began: it is never longer than the interval, and an iteration that has
/// taken the interval or more is followed by a fetch at once.
pub proof fn lemma_sleep_ends_at_deadline(
    state: DaemonState,
    config: DaemonConfiguration,
    now: u128,
)
    requires
        !(state.phase is AwaitingRefresh),
        !(state.phase is Fetching && notification_due(state, config, now)),
        now >= state.iteration_start,
    ensures
        now < state.iteration_start + config.exec_interval.nanoseconds() ==> step(
            state,
            config,
            now,
        ).1 == DaemonAction::Sleep(
            (state.iteration_start + config.exec_interval.nanoseconds() - now) as u128,
        ),
        now >= state.iteration_start + config.exec_interval.nanoseconds() ==> step(
            state,
            config,
            now,
        ).1 == DaemonAction::Fetch && step(state, config, now).0.iteration_start == now,
{
}

/// The state of the loop before its decision number `n`, in a run that
/// begins at the time `start` and makes its decisions at the times `times`.
pub open spec fn state_before(
    start: u128,
    config: DaemonConfiguration,
    times: Seq<u128>,
    n: nat,
) -> DaemonState
    decreases n,
{
    if n == 0 {
        DaemonState {
            phase: DaemonPhase::AwaitingRefresh,
            iteration_start: start,
            last_notification: start,
        }
    } else {
        step(state_before(start, config, times, (n - 1) as nat), config, times[n - 1]).0
    }
}

/// The decision number `n` of such a run.
pub open spec fn decision(
    start: u128,
    config: DaemonConfiguration,
    times: Seq<u128>,
    n: nat,
) -> DaemonAction {
    step(state_before(start, config, times, n), config, times[n as int]).1
}

/// The times of a run on a clock that does not run backwards.
pub open spec fn is_timeline(start: u128, times: Seq<u128>) -> bool {
    &&& forall|i: int| 0 <= i < times.len() ==> start <= #[trigger] times[i]
    &&& forall|i: int, j: int| 0 <= i <= j < times.len() ==> times[i] <= times[j]
}

proof fn lemma_run_clock(start: u128, config: DaemonConfiguration, times: Seq<u128>, n: nat)
    requires
        is_timeline(start, times),
        n <= times.len(),
    ensures
        state_before(start, config, times, n).last_notification >= start,
    decreases n,
{
    if n > 0 {
        lemma_run_clock(start, config, times, (n - 1) as nat);
        assert(start <= times[n - 1]);
    }
}

proof fn lemma_run_remembers(
    start: u128,
    config: DaemonConfiguration,
    times: Seq<u128>,
    i: nat,
    n: nat,
)
    requires
        is_timeline(start, times),
        i < n <= times.len(),
        decision(start, config, times, i) is Notify,
    ensures
        (n == i + 1 && state_before(start, config, times, n).phase is Notifying)
            || state_before(start, config, times, n).last_notification >= times[i as int],
    decreases n,
{
    if n > i + 1 {
        lemma_run_remembers(start, config, times, i, (n - 1) as nat);
        assert(times[i as int] <= times[n - 1]);
    }
}

/// In every run on a clock that does not run backwards, two showings of the
/// notifications lie at least the notify interval apart.
pub proof fn lemma_run_spaces_notifications(
    start: u128,
    config: DaemonConfiguration,
    times: Seq<u128>,
    i: nat,
    j: nat,
)
    requires
        is_timeline(start, times),
        i < j < times.len(),
        decision(start, config, times, i) is Notify,
        decision(start, config, times, j) is Notify,
    ensures
        times[j as int] >= times[i as int] + config.notif_interval.nanoseconds(),
{
    lemma_run_remembers(start, config, times, i, j);
    assert(times[i as int] <= times[j as int]);
}

/// In every such run, the notifications are first shown when the notify
/// interval has passed since the run began.
pub proof fn lemma_run_first_notification(
    start: u128,
    config: DaemonConfiguration,
    times: Seq<u128>,
    j: nat,
)
    requires
        is_timeline(start, times),
        j < times.len(),
        decision(start, config, times, j) is Notify,
    ensures
        times[j as int] >= start + config.notif_interval.nanoseconds(),
{
    lemma_run_clock(start, config, times, j);
    assert(start <= times[j as int]);
}

/// Whether the loop sleeps as it is told: the decision that follows a
/// sleep is made when the sleep is over.
pub open spec fn sleeps_as_told(start: u128, config: DaemonConfiguration, times: Seq<u128>) -> bool {
    forall|n: nat|
        n + 1 < times.len() && (#[trigger] decision(start, config, times, n)) is Sleep
            ==> times[n as int + 1] >= times[n as int] + decision(start, config, times, n)->Sleep_0
}

proof fn lemma_run_iteration(start: u128, config: DaemonConfiguration, times: Seq<u128>, n: nat)
    requires
        is_timeline(start, times),
        n <= times.len(),
    ensures
        n < times.len() ==> state_before(start, config, times, n).iteration_start <= times[n as int],
        n > 0 ==> state_before(start, config, times, n).iteration_start <= times[n - 1],
    decreases n,
{
    if n > 0 {
        lemma_run_iteration(start, config, times, (n - 1) as nat);
        if n < times.len() {
            assert(times[n - 1] <= times[n as int]);
        }
    } else if n < times.len() {
        assert(start <= times[n as int]);
    }
}

proof fn lemma_run_paces(
    start: u128,
    config: DaemonConfiguration,
    times: Seq<u128>,
    i: nat,
    n: nat,
)
    requires
        is_timeline(start, times),
        sleeps_as_told(start, config, times),
        i < n <= times.len(),
        decision(start, config, times, i) is Fetch,
    ensures
        ({
            let state = state_before(start, config, times, n);
            let interval = config.exec_interval.nanoseconds();
            &&& state.iteration_start == times[i as int] || state.iteration_start >= times[i as int]
                + interval
            &&& (state.phase is AwaitingRefresh && n < times.len()) ==> times[n as int]
                >= times[i as int] + interval
        }),
    decreases n,
{
    lemma_run_iteration(start, config, times, n);
    if n > i + 1 {
        let m = (n - 1) as nat;
        lemma_run_paces(start, config, times, i, m);
        lemma_run_iteration(start, config, times, m);
        assert(times[i as int] <= times[m as int]);
        if n < times.len() && decision(start, config, times, m) is Sleep {
            assert(times[m as int + 1] >= times[m as int] + decision(start, config, times, m)->Sleep_0);
        }
    }
}

/// In every run on a clock that does not run backwards, in which the loop
/// sleeps as it is told, two fetches lie at least the refresh interval
/// apart.
pub proof fn lemma_run_spaces_fetches(
    start: u128,
    config: DaemonConfiguration,
    times: Seq<u128>,
    i: nat,
    j: nat,
)
    requires
        is_timeline(start, times),
        sleeps_as_told(start, config, times),
        i < j < times.len(),
        decision(start, config, times, i) is Fetch,
        decision(start, config, times, j) is Fetch,
    ensures
        times[j as int] >= times[i as int] + config.exec_interval.nanoseconds(),
{
    lemma_run_paces(start, config, times, i, j);
    lemma_run_iteration(start, config, times, j);
    assert(times[i as int] <= times[j as int]);
}

/// Why the daemon could not be started.
#[derive(Clone, Copy, Debug, PartialEq, Eq, Structural)]
pub enum DaemonizationError {
    UnsupportedOS,
    FailureToCreateLogFile,
    FailureToCreateWorkingDirectory,
    ExistingInstance,
}

/// Why a running daemon could not be stopped.
#[derive(Clone, Copy, Debug, PartialEq, Eq, Structural)]
pub enum TerminationError {
    PidFileInaccessible,
    FailedToRemoveOldPid,
    ProcessKillFailed,
    UnsupportedOS,
}

/// The kind of system the program runs on.
#[derive(Clone, Copy, Debug, PartialEq, Eq, Structural)]
pub enum Platform {
    Unix,
    Windows,
    Other,
}

/// One thing to try on the way to a detached daemon.
#[derive(Clone, Copy, Debug, PartialEq, Eq, Structural)]
pub enum SetupStep {
    /// Open the working directory.
    OpenDirectory,
    /// Create the working directory.
    CreateDirectory,
    /// Create the file `log` in the working directory.
    CreateLog,
    /// Create the file `log_err` in the working directory.
    CreateErrorLog,
    /// Open the file `pid` in the working directory.
    FindPidFile,
    /// Stop the daemon whose process the file `pid` names.
    TerminatePrevious,
}

/// What follows a step.
#[derive(Clone, Copy, Debug, PartialEq, Eq, Structural)]
pub enum SetupAction {
    /// Try this next.
    Try(SetupStep),
    /// All is ready: detach, with the working directory, the two logs and
    /// the file `pid`.
    Detach,
}

/// What follows a step on Unix, by whether the step succeeded.
pub open spec fn after_setup_step(step: SetupStep, succeeded: bool) -> Result<
    SetupAction,
    DaemonizationError,
> {
    match step {
        SetupStep::OpenDirectory => if succeeded {
            Ok(SetupAction::Try(SetupStep::CreateLog))
        } else {
            Ok(SetupAction::Try(SetupStep::CreateDirectory))
        },
        SetupStep::CreateDirectory => if succeeded {
            Ok(SetupAction::Try(SetupStep::CreateLog))
        } else {
            Err(DaemonizationError::FailureToCreateWorkingDirectory)
        },
        SetupStep::CreateLog => if succeeded {
            Ok(SetupAction::Try(SetupStep::CreateErrorLog))
        } else {
            Err(DaemonizationError::FailureToCreateLogFile)
        },
        SetupStep::CreateErrorLog => if succeeded {
            Ok(SetupAction::Try(SetupStep::FindPidFile))
        } else {
            Err(DaemonizationError::FailureToCreateLogFile)
        },
        SetupStep::FindPidFile => if succeeded {
            Ok(SetupAction::Try(SetupStep::TerminatePrevious))
        } else {
            Ok(SetupAction::Detach)
        },
        SetupStep::TerminatePrevious => if succeeded {
            Ok(SetupAction::Detach)
        } else {
            Err(DaemonizationError::ExistingInstance)
        },
    }
}

/// Begins the start of a daemon: on Unix the first step to try, on Windows
/// nothing to do, elsewhere no daemon.
pub fn daemonize(config: &DaemonConfiguration, platform: Platform) -> (r: Result<
    Option<SetupStep>,
    DaemonizationError,
>)
    ensures
        r == match platform {
            Platform::Unix => Ok::<Option<SetupStep>, DaemonizationError>(
                Some(SetupStep::OpenDirectory),
            ),
            Platform::Windows => Ok(None),
            Platform::Other => Err(DaemonizationError::UnsupportedOS),
        },
{
    match platform {
        Platform::Unix => Ok(Some(SetupStep::OpenDirectory)),
        Platform::Windows => match daemonize_windows(config) {
            Ok(()) => Ok(None),
            Err(error) => Err(error),
        },
        Platform::Other => Err(DaemonizationError::UnsupportedOS),
    }
}

/// Goes on with the start of a daemon on Unix: what follows a step that
/// was tried.
pub fn daemonize_unix(step: SetupStep, succeeded: bool) -> (r: Result<
    SetupAction,
    DaemonizationError,
>)
    ensures
        r == after_setup_step(step, succeeded),
{
    match step {
        SetupStep::OpenDirectory => if succeeded {
            Ok(SetupAction::Try(SetupStep::CreateLog))
        } else {
            Ok(SetupAction::Try(SetupStep::CreateDirectory))
        },
        SetupStep::CreateDirectory => if succeeded {
            Ok(SetupAction::Try(SetupStep::CreateLog))
        } else {
            Err(DaemonizationError::FailureToCreateWorkingDirectory)
        },
        SetupStep::CreateLog => if succeeded {
            Ok(SetupAction::Try(SetupStep::CreateErrorLog))
        } else {
            Err(DaemonizationError::FailureToCreateLogFile)
        },
        SetupStep::CreateErrorLog => if succeeded {
            Ok(SetupAction::Try(SetupStep::FindPidFile))
        } else {
            Err(DaemonizationError::FailureToCreateLogFile)
        },
        SetupStep::FindPidFile => if succeeded {
            Ok(SetupAction::Try(SetupStep::TerminatePrevious))
        } else {
            Ok(SetupAction::Detach)
        },
        SetupStep::TerminatePrevious => if succeeded {
            Ok(SetupAction::Detach)
        } else {
            Err(DaemonizationError::ExistingInstance)
        },
    }
}

/// On Windows no daemon is detached: the program goes on as it is.
pub fn daemonize_windows(config: &DaemonConfiguration) -> (r: Result<(), DaemonizationError>)
    ensures
        r == Ok::<(), DaemonizationError>(()),
{
    Ok(())
}

/// What stopping a daemon comes to: `pid_file_read` says whether the file
/// that names its process could be read, `killed` whether the command that
/// ends the process could be run. On Unix that command is not run unless
/// the file was read, and `killed` then does not count.
pub fn terminate(platform: Platform, pid_file_read: bool, killed: bool) -> (r: Result<
    (),
    TerminationError,
>)
    ensures
        r == if !pid_file_read {
            Err::<(), TerminationError>(TerminationError::PidFileInaccessible)
        } else {
            match platform {
                Platform::Unix => if killed {
                    Ok(())
                } else {
                    Err(TerminationError::ProcessKillFailed)
                },
                Platform::Windows => Err(TerminationError::ProcessKillFailed),
                Platform::Other => Err(TerminationError::UnsupportedOS),
            }
        },
{
    if !pid_file_read {
        return Err(TerminationError::PidFileInaccessible);
    }
    match platform {
        Platform::Unix => if killed {
            Ok(())
        } else {
            Err(TerminationError::ProcessKillFailed)
        },
        Platform::Windows => Err(TerminationError::ProcessKillFailed),
        Platform::Other => Err(TerminationError::UnsupportedOS),
    }
}

} // verus!
