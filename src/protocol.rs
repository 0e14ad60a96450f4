//! What the deployment logic asks its host to do, and what the host reports
//! back. The logic itself performs no I/O: it returns an [`Action`], the host
//! performs it and hands the outcome back as an [`Event`].
use vstd::prelude::*;
use vstd::string::*;

verus! {

/// The separator that chains remote commands so that each runs only if the
/// one before it succeeded.
pub open spec fn and_sep() -> Seq<char> {
    seq![' ', '&', '&', ' ']
}

/// The character sequences of a list of strings.
pub open spec fn views(v: Seq<String>) -> Seq<Seq<char>> {
    v.map_values(|s: String| s@)
}

/// `parts` joined with `sep` between each two neighbours.
pub open spec fn joined(parts: Seq<Seq<char>>, sep: Seq<char>) -> Seq<char>
    decreases parts.len(),
{
    if parts.len() == 0 {
        seq![]
    } else if parts.len() == 1 {
        parts[0]
    } else {
        joined(parts.drop_last(), sep) + sep + parts.last()
    }
}

/// The single remote command line that runs `cmds` in order, stopping at the
/// first one that fails.
pub open spec fn chained(cmds: Seq<Seq<char>>) -> Seq<char> {
    joined(cmds, and_sep())
}

/// Whether `pat` occurs in `s` as a contiguous run of characters.
pub open spec fn has_substring(s: Seq<char>, pat: Seq<char>) -> bool {
    exists|i: int| 0 <= i && i + pat.len() <= s.len() && #[trigger] s.subrange(i, i + pat.len()) == pat
}

/// Relies on `[String]::join`: the parts in order with `sep` between neighbours.
#[verifier::external_body]
fn join_strings(parts: &Vec<String>, sep: &str) -> (r: String)
    ensures
        r@ == joined(views(parts@), sep@),
{
    parts.join(sep)
}

/// Relies on `str::contains` with a `&str` pattern: true exactly when `pat`
/// occurs in `s`.
#[verifier::external_body]
pub(crate) fn str_contains(s: &str, pat: &str) -> (r: bool)
    ensures
        r == has_substring(s@, pat@),
{
    s.contains(pat)
}

/// Model of how the remote shell runs an AND-chained command line: the
/// commands that actually run, given which commands would succeed. Each one
/// runs only after all earlier ones succeeded.
pub open spec fn chain_runs(cmds: Seq<Seq<char>>, succeeds: spec_fn(Seq<char>) -> bool) -> Seq<Seq<char>>
    decreases cmds.len(),
{
    if cmds.len() == 0 {
        seq![]
    } else if succeeds(cmds[0]) {
        seq![cmds[0]] + chain_runs(cmds.drop_first(), succeeds)
    } else {
        seq![cmds[0]]
    }
}

/// Whether an AND-chained command line succeeds as a whole.
pub open spec fn chain_succeeds(cmds: Seq<Seq<char>>, succeeds: spec_fn(Seq<char>) -> bool) -> bool {
    forall|i: int| 0 <= i < cmds.len() ==> succeeds(#[trigger] cmds[i])
}

/// A request from the deployment logic to its host.
#[derive(Clone, Debug, PartialEq, Eq)]
pub enum Action {
    /// Run a command line on the remote host; answered by
    /// `Event::Output` or `Event::Failed`.
    Exec(String),
    /// Copy a local file into a directory of the remote host; answered by
    /// `Event::Done` or `Event::Failed`. With `only_if_present` a missing
    /// local file is skipped and reported as `Event::Done`.
    Transfer { local: String, remote_dir: String, only_if_present: bool },
    /// Truncate the local log mirror to empty; answered by `Event::Done` or
    /// `Event::Failed`.
    ClearLog,
    /// Read the whole local log mirror; answered by `Event::Log` or
    /// `Event::Failed`.
    ReadLog,
    /// Ask whether the operator requested cancellation; answered by
    /// `Event::Cancel`.
    CheckCancel,
    /// Write these bytes to standard output; answered by `Event::Done`.
    Emit(Vec<u8>),
    /// Wait this many milliseconds; answered by `Event::Done`.
    Sleep(u64),
    /// The workflow finished successfully; nothing more is to be done.
    Finish,
    /// The workflow failed with this diagnostic; nothing more is to be done.
    Fail(String),
}

/// What the host reports after performing an [`Action`].
#[derive(Clone, Debug, PartialEq, Eq)]
pub enum Event {
    /// A remote command line succeeded with this standard output.
    Output(String),
    /// The action failed with this diagnostic text.
    Failed(String),
    /// The action completed.
    Done,
    /// Whether cancellation was requested.
    Cancel(bool),
    /// The current full content of the log mirror.
    Log(Vec<u8>),
}

/// Mathematical form of an [`Action`].
pub enum ActionView {
    Exec(Seq<char>),
    Transfer(Seq<char>, Seq<char>, bool),
    ClearLog,
    ReadLog,
    CheckCancel,
    Emit(Seq<u8>),
    Sleep(u64),
    Finish,
    Fail(Seq<char>),
}

/// Mathematical form of an [`Event`].
pub enum EventView {
    Output(Seq<char>),
    Failed(Seq<char>),
    Done,
    Cancel(bool),
    Log(Seq<u8>),
}

impl View for Action {
    type V = ActionView;

    open spec fn view(&self) -> ActionView {
        match self {
            Action::Exec(c) => ActionView::Exec(c@),
            Action::Transfer { local, remote_dir, only_if_present } => ActionView::Transfer(
                local@,
                remote_dir@,
                *only_if_present,
            ),
            Action::ClearLog => ActionView::ClearLog,
            Action::ReadLog => ActionView::ReadLog,
            Action::CheckCancel => ActionView::CheckCancel,
            Action::Emit(b) => ActionView::Emit(b@),
            Action::Sleep(ms) => ActionView::Sleep(*ms),
            Action::Finish => ActionView::Finish,
            Action::Fail(e) => ActionView::Fail(e@),
        }
    }
}

impl View for Event {
    type V = EventView;

    open spec fn view(&self) -> EventView {
        match self {
            Event::Output(s) => EventView::Output(s@),
            Event::Failed(e) => EventView::Failed(e@),
            Event::Done => EventView::Done,
            Event::Cancel(c) => EventView::Cancel(*c),
            Event::Log(b) => EventView::Log(b@),
        }
    }
}

/// The command line that runs `cmds` on the remote host in order, each only
/// if all before it succeeded.
pub fn chain_commands(cmds: &Vec<String>) -> (r: String)
    ensures
        r@ == chained(views(cmds@)),
{
    proof {
        reveal_strlit(" && ");
        assert(" && "@ =~= and_sep());
    }
    join_strings(cmds, " && ")
}

/// The action that runs `cmds` on the remote host as one AND-chained command
/// line.
pub fn send_cmds(cmds: &Vec<String>) -> (r: Action)
    ensures
        r@ == ActionView::Exec(chained(views(cmds@))),
{
    Action::Exec(chain_commands(cmds))
}

/// The action that runs the single command `cmd` on the remote host.
pub fn send_cmd(cmd: &str) -> (r: Action)
    ensures
        r@ == ActionView::Exec(cmd@),
{
    let mut cmds: Vec<String> = Vec::new();
    cmds.push(String::from_str(cmd));
    let r = send_cmds(&cmds);
    proof {
        assert(views(cmds@) =~= seq![cmd@]);
    }
    r
}

} // verus!
