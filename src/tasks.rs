//! The tasks that the tool runs: build, sign, deploy, or all three in turn.
use vstd::prelude::*;
use vstd::string::*;
use crate::protocol::{has_substring, str_contains};

verus! {

/// A task of the tool.
#[derive(Clone, Copy, Debug, PartialEq, Eq, Structural)]
pub enum Task {
    /// Compile the driver.
    Build,
    /// Create a test certificate and sign the driver with it.
    Sign,
    /// Push the driver to the test machine, run it and tail its log.
    Deploy,
    /// Build, sign and deploy, in that order.
    Bsd,
}

/// One task to run, for a release or a debug build.
#[derive(Clone, Copy, Debug, PartialEq, Eq, Structural)]
pub struct Job {
    pub task: Task,
    pub release: bool,
}

/// The task with the given name, if there is one.
pub open spec fn task_named(name: Seq<char>) -> Option<Task> {
    if name == "build"@ {
        Some(Task::Build)
    } else if name == "sign"@ {
        Some(Task::Sign)
    } else if name == "deploy"@ {
        Some(Task::Deploy)
    } else if name == "bsd"@ {
        Some(Task::Bsd)
    } else {
        None
    }
}

fn same_text(a: &str, b: &str) -> (r: bool)
    ensures
        r == (a@ == b@),
{
    String::from_str(a) == String::from_str(b)
}

/// Parses a task name; an unknown name gives `None`.
pub fn parse_task(name: &str) -> (r: Option<Task>)
    ensures
        r == task_named(name@),
{
    if same_text(name, "build") {
        Some(Task::Build)
    } else if same_text(name, "sign") {
        Some(Task::Sign)
    } else if same_text(name, "deploy") {
        Some(Task::Deploy)
    } else if same_text(name, "bsd") {
        Some(Task::Bsd)
    } else {
        None
    }
}

/// Whether the build profile argument asks for a release build: it does when
/// it contains `release`.
pub fn is_release(arg: &str) -> (r: bool)
    ensures
        r == has_substring(arg@, "release"@),
{
    str_contains(arg, "release")
}

/// The jobs that build, sign and deploy the driver, in that order.
pub fn bsd(release: bool) -> (r: Vec<Job>)
    ensures
        r@ == seq![
            Job { task: Task::Build, release },
            Job { task: Task::Sign, release },
            Job { task: Task::Deploy, release },
        ],
{
    let mut v: Vec<Job> = Vec::new();
    v.push(Job { task: Task::Build, release });
    v.push(Job { task: Task::Sign, release });
    v.push(Job { task: Task::Deploy, release });
    proof {
        assert(v@ =~= seq![
            Job { task: Task::Build, release },
            Job { task: Task::Sign, release },
            Job { task: Task::Deploy, release },
        ]);
    }
    v
}

/// The jobs that `task` stands for, to be run in order until one fails.
pub fn jobs_for(task: Task, release: bool) -> (r: Vec<Job>)
    ensures
        task == Task::Bsd ==> r@ == seq![
            Job { task: Task::Build, release },
            Job { task: Task::Sign, release },
            Job { task: Task::Deploy, release },
        ],
        task != Task::Bsd ==> r@ == seq![Job { task, release }],
{
    if task == Task::Bsd {
        bsd(release)
    } else {
        let mut v: Vec<Job> = Vec::new();
        v.push(Job { task, release });
        proof {
            assert(v@ =~= seq![Job { task, release }]);
        }
        v
    }
}

} // verus!
