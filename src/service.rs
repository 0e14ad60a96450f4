//! The remote service: classifying the text of a status query, the commands
//! that act on the service, and the state machine that makes sure an existing
//! service is stopped and deleted before a fresh deployment.
use vstd::prelude::*;
use vstd::string::*;
use crate::protocol::{chain_runs, chain_succeeds, chained, has_substring, send_cmds, str_contains, views, Action, ActionView, Event, EventView};

verus! {

/// Interval between two status queries while waiting for a service to stop.
pub const POLL_INTERVAL_MS: u64 = 10;

/// State of the remote service, as a status query reports it.
#[derive(Clone, Copy, Debug, PartialEq, Eq, Structural)]
pub enum ServiceState {
    NotFound,
    Running,
    StopPending,
    Stopped,
    Unknown,
}

/// The state that the text of a successful status query reports. The checks
/// are case-sensitive substring matches, made in this order.
pub open spec fn state_of_text(t: Seq<char>) -> ServiceState {
    if has_substring(t, "RUNNING"@) {
        ServiceState::Running
    } else if has_substring(t, "STOP_PENDING"@) {
        ServiceState::StopPending
    } else if has_substring(t, "STOPPED"@) {
        ServiceState::Stopped
    } else {
        ServiceState::Unknown
    }
}

/// The state that the answer to a status query reports: a failed query means
/// that the service does not exist.
pub open spec fn state_of_answer(ev: EventView) -> ServiceState {
    match ev {
        EventView::Output(t) => state_of_text(t),
        _ => ServiceState::NotFound,
    }
}

/// Classifies the output of a successful status query.
pub fn classify(text: &str) -> (r: ServiceState)
    ensures
        r == state_of_text(text@),
{
    if str_contains(text, "RUNNING") {
        ServiceState::Running
    } else if str_contains(text, "STOP_PENDING") {
        ServiceState::StopPending
    } else if str_contains(text, "STOPPED") {
        ServiceState::Stopped
    } else {
        ServiceState::Unknown
    }
}

/// Classifies the answer to a status query; a failed query is `NotFound`.
pub fn query_state(answer: &Event) -> (r: ServiceState)
    ensures
        r == state_of_answer(answer@),
{
    match answer {
        Event::Output(t) => classify(t.as_str()),
        _ => ServiceState::NotFound,
    }
}

pub open spec fn query_cmd(name: Seq<char>) -> Seq<char> {
    "sc query "@ + name
}

pub open spec fn stop_cmd(name: Seq<char>) -> Seq<char> {
    "sc stop "@ + name
}

pub open spec fn delete_cmd(name: Seq<char>) -> Seq<char> {
    "sc delete "@ + name
}

pub open spec fn create_cmd(name: Seq<char>, binary: Seq<char>) -> Seq<char> {
    "sc create "@ + name + " binpath= "@ + binary + " type=kernel"@
}

pub open spec fn start_cmd(name: Seq<char>) -> Seq<char> {
    "sc start "@ + name
}

pub open spec fn remove_file_cmd(path: Seq<char>) -> Seq<char> {
    "del "@ + path
}

/// The commands that create a kernel service bound to `binary` and start it.
pub open spec fn create_and_start_cmds(name: Seq<char>, binary: Seq<char>) -> Seq<Seq<char>> {
    seq![create_cmd(name, binary), start_cmd(name)]
}

/// The commands that stop and delete the service and remove its binary.
pub open spec fn stop_and_remove_cmds(name: Seq<char>, binary: Seq<char>) -> Seq<Seq<char>> {
    seq![stop_cmd(name), delete_cmd(name), remove_file_cmd(binary)]
}

fn prefixed(prefix: &str, arg: &str) -> (r: String)
    ensures
        r@ == prefix@ + arg@,
{
    let mut s = String::from_str(prefix);
    s.append(arg);
    s
}

/// The status query command for service `name`.
pub fn query_command(name: &str) -> (r: String)
    ensures
        r@ == query_cmd(name@),
{
    prefixed("sc query ", name)
}

/// The stop command for service `name`.
pub fn stop_command(name: &str) -> (r: String)
    ensures
        r@ == stop_cmd(name@),
{
    prefixed("sc stop ", name)
}

/// The delete command for service `name`.
pub fn delete_command(name: &str) -> (r: String)
    ensures
        r@ == delete_cmd(name@),
{
    prefixed("sc delete ", name)
}

/// The command that creates kernel service `name` bound to `binary`.
pub fn create_command(name: &str, binary: &str) -> (r: String)
    ensures
        r@ == create_cmd(name@, binary@),
{
    let mut s = prefixed("sc create ", name);
    s.append(" binpath= ");
    s.append(binary);
    s.append(" type=kernel");
    s
}

/// The start command for service `name`.
pub fn start_command(name: &str) -> (r: String)
    ensures
        r@ == start_cmd(name@),
{
    prefixed("sc start ", name)
}

/// The command that deletes the file at `path` on the remote host.
pub fn remove_file_command(path: &str) -> (r: String)
    ensures
        r@ == remove_file_cmd(path@),
{
    prefixed("del ", path)
}

/// One remote command line that creates kernel service `name` bound to
/// `binary` and starts it; start runs only if create succeeded.
pub fn create_and_start(name: &str, binary: &str) -> (r: Action)
    ensures
        r@ == ActionView::Exec(chained(create_and_start_cmds(name@, binary@))),
{
    let mut cmds: Vec<String> = Vec::new();
    cmds.push(create_command(name, binary));
    cmds.push(start_command(name));
    proof {
        assert(views(cmds@) =~= create_and_start_cmds(name@, binary@));
    }
    send_cmds(&cmds)
}

/// One remote command line that stops service `name`, deletes it and removes
/// `binary`; each step runs only if the one before it succeeded.
pub fn stop_and_remove(name: &str, binary: &str) -> (r: Action)
    ensures
        r@ == ActionView::Exec(chained(stop_and_remove_cmds(name@, binary@))),
{
    let mut cmds: Vec<String> = Vec::new();
    cmds.push(stop_command(name));
    cmds.push(delete_command(name));
    cmds.push(remove_file_command(binary));
    proof {
        assert(views(cmds@) =~= stop_and_remove_cmds(name@, binary@));
    }
    send_cmds(&cmds)
}

/// Where the removal of an existing service stands.
#[derive(Clone, Copy, Debug, PartialEq, Eq, Structural)]
pub enum CleanupStage {
    /// The first status query was issued.
    Querying,
    /// The stop command was issued.
    Stopping,
    /// A status query was issued to see whether the service is still stopping.
    Settling,
    /// Waiting one poll interval before querying again.
    Waiting,
    /// The delete command was issued.
    Deleting,
    /// The service is absent from the remote host.
    Absent,
    /// A step failed; the failure was passed on.
    Aborted,
}

/// Diagnostic for an event that does not answer the pending action.
pub open spec fn unexpected_msg() -> Seq<char> {
    "unexpected event"@
}

/// What a stopping or stopped service leads to once its state is known.
pub open spec fn state_outcome(name: Seq<char>, st: ServiceState) -> (CleanupStage, ActionView) {
    if st == ServiceState::StopPending {
        (CleanupStage::Waiting, ActionView::Sleep(POLL_INTERVAL_MS))
    } else {
        (CleanupStage::Deleting, ActionView::Exec(delete_cmd(name)))
    }
}

/// The outcome of a failed or unexpected answer to a remote command.
pub open spec fn failure_outcome(ev: EventView) -> (CleanupStage, ActionView) {
    match ev {
        EventView::Failed(e) => (CleanupStage::Aborted, ActionView::Fail(e)),
        _ => (CleanupStage::Aborted, ActionView::Fail(unexpected_msg())),
    }
}

/// Transition table of the removal of service `name`: given where it stands
/// and the answer to the pending action, the next stage and action.
///
/// A service that is running is stopped; one that is stopping is polled until
/// it no longer is; then it is deleted. A failed first query means there is no
/// service. Any other failure ends the removal with that failure unchanged.
pub open spec fn cleanup_next(name: Seq<char>, stage: CleanupStage, ev: EventView) -> (CleanupStage, ActionView) {
    match stage {
        CleanupStage::Querying => match ev {
            EventView::Output(t) => {
                let st = state_of_text(t);
                if st == ServiceState::Running {
                    (CleanupStage::Stopping, ActionView::Exec(stop_cmd(name)))
                } else {
                    state_outcome(name, st)
                }
            },
            _ => (CleanupStage::Absent, ActionView::Finish),
        },
        CleanupStage::Stopping => match ev {
            EventView::Output(_) => (CleanupStage::Settling, ActionView::Exec(query_cmd(name))),
            _ => failure_outcome(ev),
        },
        CleanupStage::Settling => match ev {
            EventView::Output(t) => state_outcome(name, state_of_text(t)),
            _ => failure_outcome(ev),
        },
        CleanupStage::Waiting => match ev {
            EventView::Done => (CleanupStage::Settling, ActionView::Exec(query_cmd(name))),
            _ => failure_outcome(ev),
        },
        CleanupStage::Deleting => match ev {
            EventView::Output(_) => (CleanupStage::Absent, ActionView::Finish),
            _ => failure_outcome(ev),
        },
        CleanupStage::Absent => (CleanupStage::Absent, ActionView::Finish),
        CleanupStage::Aborted => (CleanupStage::Aborted, ActionView::Fail(unexpected_msg())),
    }
}

/// Makes sure that service `name` is stopped and then deletes it, if it
/// exists. The status is queried afresh before each decision.
///
/// The wait for a stopping service has no bound: a service that never leaves
/// the stopping state keeps the removal polling until the operator aborts.
#[derive(Debug)]
pub struct ServiceCleanup {
    pub name: String,
    pub stage: CleanupStage,
}

impl ServiceCleanup {
    /// Starts the removal of service `name` with a status query.
    pub fn start(name: &str) -> (r: (ServiceCleanup, Action))
        ensures
            r.0.name@ == name@,
            r.0.stage == CleanupStage::Querying,
            r.1@ == ActionView::Exec(query_cmd(name@)),
    {
        let cmd = query_command(name);
        (ServiceCleanup { name: String::from_str(name), stage: CleanupStage::Querying }, Action::Exec(cmd))
    }

    /// Whether the removal has ended, with the service absent or with a failure.
    pub fn is_done(&self) -> (r: bool)
        ensures
            r == (self.stage == CleanupStage::Absent || self.stage == CleanupStage::Aborted),
    {
        self.stage == CleanupStage::Absent || self.stage == CleanupStage::Aborted
    }

    /// Takes the answer to the pending action and returns the next action.
    pub fn step(&mut self, ev: &Event) -> (r: Action)
        ensures
            final(self).name@ == old(self).name@,
            (final(self).stage, r@) == cleanup_next(old(self).name@, old(self).stage, ev@),
    {
        let (stage, action) = match self.stage {
            CleanupStage::Querying => match ev {
                Event::Output(t) => {
                    let st = classify(t.as_str());
                    if st == ServiceState::Running {
                        (CleanupStage::Stopping, Action::Exec(stop_command(self.name.as_str())))
                    } else {
                        self.state_outcome(st)
                    }
                },
                _ => (CleanupStage::Absent, Action::Finish),
            },
            CleanupStage::Stopping => match ev {
                Event::Output(_) => (CleanupStage::Settling, Action::Exec(query_command(self.name.as_str()))),
                _ => failed_answer(ev),
            },
            CleanupStage::Settling => match ev {
                Event::Output(t) => {
                    let st = classify(t.as_str());
                    self.state_outcome(st)
                },
                _ => failed_answer(ev),
            },
            CleanupStage::Waiting => match ev {
                Event::Done => (CleanupStage::Settling, Action::Exec(query_command(self.name.as_str()))),
                _ => failed_answer(ev),
            },
            CleanupStage::Deleting => match ev {
                Event::Output(_) => (CleanupStage::Absent, Action::Finish),
                _ => failed_answer(ev),
            },
            CleanupStage::Absent => (CleanupStage::Absent, Action::Finish),
            CleanupStage::Aborted => (CleanupStage::Aborted, Action::Fail(unexpected())),
        };
        self.stage = stage;
        action
    }

    fn state_outcome(&self, st: ServiceState) -> (r: (CleanupStage, Action))
        ensures
            (r.0, r.1@) == state_outcome(self.name@, st),
    {
        if st == ServiceState::StopPending {
            (CleanupStage::Waiting, Action::Sleep(POLL_INTERVAL_MS))
        } else {
            (CleanupStage::Deleting, Action::Exec(delete_command(self.name.as_str())))
        }
    }
}

pub(crate) fn unexpected() -> (r: String)
    ensures
        r@ == unexpected_msg(),
{
    String::from_str("unexpected event")
}

pub(crate) fn failed_answer(ev: &Event) -> (r: (CleanupStage, Action))
    ensures
        (r.0, r.1@) == failure_outcome(ev@),
{
    match ev {
        Event::Failed(e) => (CleanupStage::Aborted, Action::Fail(e.clone())),
        _ => (CleanupStage::Aborted, Action::Fail(unexpected())),
    }
}

/// Whether `ev` is an answer that the action pending at `stage` can get: a
/// wait ends with `Done`, a remote command with its output or its failure.
pub open spec fn answers(stage: CleanupStage, ev: EventView) -> bool {
    if stage == CleanupStage::Waiting {
        ev is Done
    } else {
        ev is Output || ev is Failed
    }
}

/// Whatever state the first status query reports, the removal of a service
/// ends with the service absent only after the delete command succeeded or
/// after the first query found no service, and ends in failure only by
/// passing on the failure of a remote step unchanged.
pub proof fn lemma_cleanup_absent_or_propagates(name: Seq<char>, stage: CleanupStage, ev: EventView)
    requires
        stage != CleanupStage::Absent,
        stage != CleanupStage::Aborted,
        answers(stage, ev),
    ensures
        ({
            let (next, action) = cleanup_next(name, stage, ev);
            &&& (action == ActionView::Finish <==> next == CleanupStage::Absent)
            &&& (next == CleanupStage::Absent ==> (stage == CleanupStage::Querying && ev is Failed)
                || (stage == CleanupStage::Deleting && ev is Output))
            &&& (action is Fail ==> next == CleanupStage::Aborted && ev == EventView::Failed(action->Fail_0))
            &&& (action is Sleep ==> action->Sleep_0 <= 50)
        }),
{
}

/// What the first status query decides: no service means nothing to remove,
/// a running one is stopped, a stopping one is waited for, and any other is
/// deleted at once.
pub proof fn lemma_cleanup_first_decision(name: Seq<char>, ev: EventView)
    requires
        ev is Output || ev is Failed,
    ensures
        ({
            let (next, action) = cleanup_next(name, CleanupStage::Querying, ev);
            let st = state_of_answer(ev);
            &&& (st == ServiceState::NotFound ==> action == ActionView::Finish)
            &&& (st == ServiceState::Running ==> action == ActionView::Exec(stop_cmd(name)))
            &&& (st == ServiceState::StopPending ==> next == CleanupStage::Waiting)
            &&& (st == ServiceState::Stopped || st == ServiceState::Unknown ==> action == ActionView::Exec(
                delete_cmd(name),
            ))
        }),
{
}

/// Creating and starting a service is one AND-chained command line: when the
/// create command fails, the start command never runs and the line fails as a
/// whole.
pub proof fn lemma_failed_create_skips_start(
    name: Seq<char>,
    binary: Seq<char>,
    succeeds: spec_fn(Seq<char>) -> bool,
)
    requires
        !succeeds(create_cmd(name, binary)),
    ensures
        chain_runs(create_and_start_cmds(name, binary), succeeds) == seq![create_cmd(name, binary)],
        !chain_succeeds(create_and_start_cmds(name, binary), succeeds),
{
    let cmds = create_and_start_cmds(name, binary);
    assert(cmds[0] == create_cmd(name, binary));
}

/// Stopping and removing a service is one AND-chained command line: when the
/// stop command fails, neither the delete nor the file removal runs.
pub proof fn lemma_failed_stop_skips_removal(
    name: Seq<char>,
    binary: Seq<char>,
    succeeds: spec_fn(Seq<char>) -> bool,
)
    requires
        !succeeds(stop_cmd(name)),
    ensures
        chain_runs(stop_and_remove_cmds(name, binary), succeeds) == seq![stop_cmd(name)],
        !chain_succeeds(stop_and_remove_cmds(name, binary), succeeds),
{
    let cmds = stop_and_remove_cmds(name, binary);
    assert(cmds[0] == stop_cmd(name));
}

} // verus!
