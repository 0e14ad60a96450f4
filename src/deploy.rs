//! The deployment workflow as a state machine: resolve the remote temporary
//! directory, remove any existing service, push the driver and its debug
//! symbols, clear the local log mirror, create and start the service, then
//! tail the log until the service stops or the operator cancels.
use vstd::prelude::*;
use vstd::string::*;
use crate::protocol::{chained, send_cmd, Action, ActionView, Event, EventView};
use crate::service::{
    cleanup_next, create_and_start, create_and_start_cmds, failed_answer, failure_outcome,
    query_cmd, query_command, state_of_text, classify, stop_and_remove, stop_and_remove_cmds,
    unexpected, unexpected_msg, CleanupStage, ServiceCleanup, ServiceState, POLL_INTERVAL_MS,
};
use crate::tail::{poll_result, LogCursor};

verus! {

/// What `str::trim` leaves of `s`: the text without leading and trailing
/// whitespace.
pub uninterp spec fn trimmed(s: Seq<char>) -> Seq<char>;

/// Relies on `str::trim`: removes leading and trailing whitespace; the result
/// depends on the text alone.
#[verifier::external_body]
fn trim_text(s: &str) -> (r: &str)
    ensures
        r@ == trimmed(s@),
{
    s.trim()
}

/// `s` with every `from` replaced by `to`.
pub open spec fn replace_char(s: Seq<char>, from: char, to: char) -> Seq<char> {
    s.map_values(|c: char| if c == from { to } else { c })
}

/// Relies on `str::replace` with a `char` pattern: each occurrence of `from`
/// is replaced by `to`, which is one character, and the rest is kept.
#[verifier::external_body]
fn replace_text(s: &str, from: char, to: &str) -> (r: String)
    requires
        to@.len() == 1,
    ensures
        r@ == replace_char(s@, from, to@[0]),
{
    s.replace(from, to)
}

/// The command that prints the remote temporary directory.
pub open spec fn temp_dir_cmd() -> Seq<char> {
    "echo %TEMP%"@
}

/// The remote path of file `file` in directory `dir`.
pub open spec fn remote_path_of(dir: Seq<char>, file: Seq<char>) -> Seq<char> {
    dir + "\\"@ + file
}

/// The file name of the driver built from package `package`: dashes become
/// underscores, then `.` and the extension follow.
pub open spec fn driver_file_name_of(package: Seq<char>, ext: Seq<char>) -> Seq<char> {
    replace_char(package, '-', '_') + "."@ + ext
}

/// The file name of the driver built from package `package`, with extension
/// `ext`.
pub fn driver_file_name(package: &str, ext: &str) -> (r: String)
    ensures
        r@ == driver_file_name_of(package@, ext@),
{
    proof {
        reveal_strlit("_");
    }
    let mut s = replace_text(package, '-', "_");
    s.append(".");
    s.append(ext);
    s
}

/// The remote path of file `file` in the remote directory `dir`.
pub fn remote_path(dir: &str, file: &str) -> (r: String)
    ensures
        r@ == remote_path_of(dir@, file@),
{
    let mut s = String::from_str(dir);
    s.append("\\");
    s.append(file);
    s
}

/// What a deployment is told once, at its start.
#[derive(Clone, Debug)]
pub struct DeployConfig {
    /// Name of the remote service.
    pub service_name: String,
    /// Local path of the signed driver binary.
    pub artifact_path: String,
    /// Local path of the driver's debug symbols, pushed only if present.
    pub symbols_path: String,
    /// File name of the driver binary on the remote host.
    pub artifact_name: String,
}

/// Mathematical form of a [`DeployConfig`].
pub struct ConfigView {
    pub name: Seq<char>,
    pub artifact: Seq<char>,
    pub symbols: Seq<char>,
    pub artifact_name: Seq<char>,
}

impl View for DeployConfig {
    type V = ConfigView;

    open spec fn view(&self) -> ConfigView {
        ConfigView {
            name: self.service_name@,
            artifact: self.artifact_path@,
            symbols: self.symbols_path@,
            artifact_name: self.artifact_name@,
        }
    }
}

/// The action that a deployment is waiting on.
#[derive(Clone, Copy, Debug, PartialEq, Eq, Structural)]
pub enum DeployPhase {
    ResolvingTemp,
    Cleaning,
    TransferringArtifact,
    TransferringSymbols,
    ClearingLog,
    Creating,
    Querying,
    CheckingCancel,
    Cancelling,
    ReadingLog,
    Emitting,
    Sleeping,
    Finished,
    Failed,
}

/// Mathematical form of a [`Deployment`].
pub struct DeploymentView {
    pub phase: DeployPhase,
    pub remote_dir: Seq<char>,
    pub remote_target: Seq<char>,
    pub stage: CleanupStage,
    pub consumed: nat,
}

/// `s` moved to `phase`.
pub open spec fn in_phase(s: DeploymentView, phase: DeployPhase) -> DeploymentView {
    DeploymentView { phase, ..s }
}

/// `s` ended by the failed or unexpected answer `ev`.
pub open spec fn failed_by(s: DeploymentView, ev: EventView) -> (DeploymentView, ActionView) {
    (in_phase(s, DeployPhase::Failed), failure_outcome(ev).1)
}

/// Transition table of a deployment under configuration `c`: given its
/// state and the answer to the pending action, the next state and action.
pub open spec fn deploy_next(c: ConfigView, s: DeploymentView, ev: EventView) -> (DeploymentView, ActionView) {
    match s.phase {
        DeployPhase::ResolvingTemp => match ev {
            EventView::Output(t) => {
                let dir = trimmed(t);
                (
                    DeploymentView {
                        phase: DeployPhase::Cleaning,
                        remote_dir: dir,
                        remote_target: remote_path_of(dir, c.artifact_name),
                        stage: CleanupStage::Querying,
                        consumed: s.consumed,
                    },
                    ActionView::Exec(query_cmd(c.name)),
                )
            },
            _ => failed_by(s, ev),
        },
        DeployPhase::Cleaning => {
            let (stage, a) = cleanup_next(c.name, s.stage, ev);
            let s2 = DeploymentView { stage, ..s };
            if a is Finish {
                (
                    in_phase(s2, DeployPhase::TransferringArtifact),
                    ActionView::Transfer(c.artifact, s.remote_dir, false),
                )
            } else if a is Fail {
                (in_phase(s2, DeployPhase::Failed), a)
            } else {
                (s2, a)
            }
        },
        DeployPhase::TransferringArtifact => match ev {
            EventView::Done => (
                in_phase(s, DeployPhase::TransferringSymbols),
                ActionView::Transfer(c.symbols, s.remote_dir, true),
            ),
            _ => failed_by(s, ev),
        },
        DeployPhase::TransferringSymbols => match ev {
            EventView::Done => (in_phase(s, DeployPhase::ClearingLog), ActionView::ClearLog),
            _ => failed_by(s, ev),
        },
        DeployPhase::ClearingLog => match ev {
            EventView::Done => (
                in_phase(s, DeployPhase::Creating),
                ActionView::Exec(chained(create_and_start_cmds(c.name, s.remote_target))),
            ),
            _ => failed_by(s, ev),
        },
        DeployPhase::Creating => match ev {
            EventView::Output(_) => (in_phase(s, DeployPhase::Querying), ActionView::Exec(query_cmd(c.name))),
            _ => failed_by(s, ev),
        },
        DeployPhase::Querying => match ev {
            EventView::Output(t) => if state_of_text(t) == ServiceState::Stopped {
                (in_phase(s, DeployPhase::Finished), ActionView::Finish)
            } else {
                (in_phase(s, DeployPhase::CheckingCancel), ActionView::CheckCancel)
            },
            _ => (in_phase(s, DeployPhase::Finished), ActionView::Finish),
        },
        DeployPhase::CheckingCancel => match ev {
            EventView::Cancel(true) => (
                in_phase(s, DeployPhase::Cancelling),
                ActionView::Exec(chained(stop_and_remove_cmds(c.name, s.remote_target))),
            ),
            EventView::Cancel(false) => (in_phase(s, DeployPhase::ReadingLog), ActionView::ReadLog),
            _ => failed_by(s, ev),
        },
        DeployPhase::Cancelling => match ev {
            EventView::Output(_) => (in_phase(s, DeployPhase::Finished), ActionView::Finish),
            _ => failed_by(s, ev),
        },
        DeployPhase::ReadingLog => match ev {
            EventView::Log(b) => {
                let (out, pos) = poll_result(s.consumed, b);
                if out.len() > 0 {
                    (DeploymentView { phase: DeployPhase::Emitting, consumed: pos, ..s }, ActionView::Emit(out))
                } else {
                    (in_phase(s, DeployPhase::Sleeping), ActionView::Sleep(POLL_INTERVAL_MS))
                }
            },
            _ => failed_by(s, ev),
        },
        DeployPhase::Emitting => match ev {
            EventView::Done => (in_phase(s, DeployPhase::Sleeping), ActionView::Sleep(POLL_INTERVAL_MS)),
            _ => failed_by(s, ev),
        },
        DeployPhase::Sleeping => match ev {
            EventView::Done => (in_phase(s, DeployPhase::Querying), ActionView::Exec(query_cmd(c.name))),
            _ => failed_by(s, ev),
        },
        DeployPhase::Finished => (s, ActionView::Finish),
        DeployPhase::Failed => (s, ActionView::Fail(unexpected_msg())),
    }
}

/// One deployment of the driver. The host performs each returned action and
/// hands its outcome to [`Deployment::step`], until the action is `Finish`
/// or `Fail`.
#[derive(Debug)]
pub struct Deployment {
    pub config: DeployConfig,
    pub phase: DeployPhase,
    pub remote_dir: String,
    pub remote_target: String,
    pub cleanup: ServiceCleanup,
    pub cursor: LogCursor,
}

impl View for Deployment {
    type V = DeploymentView;

    open spec fn view(&self) -> DeploymentView {
        DeploymentView {
            phase: self.phase,
            remote_dir: self.remote_dir@,
            remote_target: self.remote_target@,
            stage: self.cleanup.stage,
            consumed: self.cursor.bytes_consumed as nat,
        }
    }
}

impl Deployment {
    /// The removal of an existing service acts on the configured service.
    pub open spec fn wf(&self) -> bool {
        self.cleanup.name@ == self.config.service_name@
    }

    /// Starts a deployment with `config` by asking for the remote temporary
    /// directory.
    pub fn start(config: DeployConfig) -> (r: (Deployment, Action))
        ensures
            r.0.wf(),
            r.0.config@ == config@,
            r.0@.phase == DeployPhase::ResolvingTemp,
            r.0@.consumed == 0,
            r.1@ == ActionView::Exec(temp_dir_cmd()),
    {
        let (cleanup, _) = ServiceCleanup::start(config.service_name.as_str());
        let d = Deployment {
            config,
            phase: DeployPhase::ResolvingTemp,
            remote_dir: String::new(),
            remote_target: String::new(),
            cleanup,
            cursor: LogCursor::new(),
        };
        (d, send_cmd("echo %TEMP%"))
    }

    /// Whether the deployment has ended, successfully or not.
    pub fn is_done(&self) -> (r: bool)
        ensures
            r == (self.phase == DeployPhase::Finished || self.phase == DeployPhase::Failed),
    {
        self.phase == DeployPhase::Finished || self.phase == DeployPhase::Failed
    }

    fn fail_with(&mut self, ev: &Event) -> (r: Action)
        ensures
            final(self).config == old(self).config,
            final(self).cleanup == old(self).cleanup,
            final(self)@ == in_phase(old(self)@, DeployPhase::Failed),
            r@ == failure_outcome(ev@).1,
    {
        self.phase = DeployPhase::Failed;
        failed_answer(ev).1
    }

    /// Takes the answer to the pending action and returns the next action.
    pub fn step(&mut self, ev: &Event) -> (r: Action)
        requires
            old(self).wf(),
        ensures
            final(self).wf(),
            final(self).config@ == old(self).config@,
            (final(self)@, r@) == deploy_next(old(self).config@, old(self)@, ev@),
    {
        match self.phase {
            DeployPhase::ResolvingTemp => match ev {
                Event::Output(t) => {
                    let dir = String::from_str(trim_text(t.as_str()));
                    self.remote_target = remote_path(dir.as_str(), self.config.artifact_name.as_str());
                    self.remote_dir = dir;
                    self.cleanup.stage = CleanupStage::Querying;
                    self.phase = DeployPhase::Cleaning;
                    Action::Exec(query_command(self.config.service_name.as_str()))
                },
                _ => self.fail_with(ev),
            },
            DeployPhase::Cleaning => {
                let a = self.cleanup.step(ev);
                match a {
                    Action::Finish => {
                        self.phase = DeployPhase::TransferringArtifact;
                        Action::Transfer {
                            local: self.config.artifact_path.clone(),
                            remote_dir: self.remote_dir.clone(),
                            only_if_present: false,
                        }
                    },
                    Action::Fail(e) => {
                        self.phase = DeployPhase::Failed;
                        Action::Fail(e)
                    },
                    other => other,
                }
            },
            DeployPhase::TransferringArtifact => match ev {
                Event::Done => {
                    self.phase = DeployPhase::TransferringSymbols;
                    Action::Transfer {
                        local: self.config.symbols_path.clone(),
                        remote_dir: self.remote_dir.clone(),
                        only_if_present: true,
                    }
                },
                _ => self.fail_with(ev),
            },
            DeployPhase::TransferringSymbols => match ev {
                Event::Done => {
                    self.phase = DeployPhase::ClearingLog;
                    Action::ClearLog
                },
                _ => self.fail_with(ev),
            },
            DeployPhase::ClearingLog => match ev {
                Event::Done => {
                    self.phase = DeployPhase::Creating;
                    create_and_start(self.config.service_name.as_str(), self.remote_target.as_str())
                },
                _ => self.fail_with(ev),
            },
            DeployPhase::Creating => match ev {
                Event::Output(_) => {
                    self.phase = DeployPhase::Querying;
                    Action::Exec(query_command(self.config.service_name.as_str()))
                },
                _ => self.fail_with(ev),
            },
            DeployPhase::Querying => match ev {
                Event::Output(t) => {
                    if classify(t.as_str()) == ServiceState::Stopped {
                        self.phase = DeployPhase::Finished;
                        Action::Finish
                    } else {
                        self.phase = DeployPhase::CheckingCancel;
                        Action::CheckCancel
                    }
                },
                _ => {
                    self.phase = DeployPhase::Finished;
                    Action::Finish
                },
            },
            DeployPhase::CheckingCancel => match ev {
                Event::Cancel(true) => {
                    self.phase = DeployPhase::Cancelling;
                    stop_and_remove(self.config.service_name.as_str(), self.remote_target.as_str())
                },
                Event::Cancel(false) => {
                    self.phase = DeployPhase::ReadingLog;
                    Action::ReadLog
                },
                _ => self.fail_with(ev),
            },
            DeployPhase::Cancelling => match ev {
                Event::Output(_) => {
                    self.phase = DeployPhase::Finished;
                    Action::Finish
                },
                _ => self.fail_with(ev),
            },
            DeployPhase::ReadingLog => match ev {
                Event::Log(b) => {
                    let out = self.cursor.poll(b);
                    if out.len() > 0 {
                        self.phase = DeployPhase::Emitting;
                        Action::Emit(out)
                    } else {
                        self.phase = DeployPhase::Sleeping;
                        Action::Sleep(POLL_INTERVAL_MS)
                    }
                },
                _ => self.fail_with(ev),
            },
            DeployPhase::Emitting => match ev {
                Event::Done => {
                    self.phase = DeployPhase::Sleeping;
                    Action::Sleep(POLL_INTERVAL_MS)
                },
                _ => self.fail_with(ev),
            },
            DeployPhase::Sleeping => match ev {
                Event::Done => {
                    self.phase = DeployPhase::Querying;
                    Action::Exec(query_command(self.config.service_name.as_str()))
                },
                _ => self.fail_with(ev),
            },
            DeployPhase::Finished => Action::Finish,
            DeployPhase::Failed => Action::Fail(unexpected()),
        }
    }
}

/// The log cursor of a deployment never moves backwards.
pub proof fn lemma_cursor_monotone(c: ConfigView, s: DeploymentView, ev: EventView)
    ensures
        deploy_next(c, s, ev).0.consumed >= s.consumed,
{
}

/// A deployment that fails passes on the diagnostic of the failed step
/// unchanged, and once it has ended it stays ended.
pub proof fn lemma_failure_is_propagated(c: ConfigView, s: DeploymentView, msg: Seq<char>)
    requires
        s.phase != DeployPhase::Finished,
        s.phase != DeployPhase::Failed,
        s.phase != DeployPhase::Querying,
        s.phase != DeployPhase::CheckingCancel,
        s.phase == DeployPhase::Cleaning ==> s.stage != CleanupStage::Querying && s.stage != CleanupStage::Absent
            && s.stage != CleanupStage::Aborted,
    ensures
        deploy_next(c, s, EventView::Failed(msg)).1 == ActionView::Fail(msg),
        deploy_next(c, s, EventView::Failed(msg)).0.phase == DeployPhase::Failed,
{
}

} // verus!
