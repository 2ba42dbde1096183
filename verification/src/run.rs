//! What a command sets in motion: the lines to print and the scans to make,
//! in order.

use crate::cli::{Cli, CliView, Commands, CommandsView};
use crate::scanner::system::monitor_system;
use vstd::prelude::*;

verus! {

/// One thing for the caller to do.
#[derive(Debug)]
pub enum Step {
    /// Print the line.
    Say(String),
    /// Scan the tree below `path` for git repositories and print the
    /// summary. A scan that fails prints none and ends the run.
    ScanGit { path: String },
    /// Scan the tree below `path` for dependency manifests and print the
    /// summary.
    ScanDependencies { path: String },
}

/// What a [`Step`] stands for.
pub enum StepView {
    Say(Seq<char>),
    ScanGit { path: Seq<char> },
    ScanDependencies { path: Seq<char> },
}

impl View for Step {
    type V = StepView;

    open spec fn view(&self) -> StepView {
        match self {
            Step::Say(line) => StepView::Say(line@),
            Step::ScanGit { path } => StepView::ScanGit { path: path@ },
            Step::ScanDependencies { path } => StepView::ScanDependencies { path: path@ },
        }
    }
}

/// The views of a sequence of steps.
pub open spec fn step_views(steps: Seq<Step>) -> Seq<StepView> {
    steps.map_values(|s: Step| s@)
}

/// The steps of the git part of a scan, if it was asked for.
pub open spec fn git_steps(path: Seq<char>, git: bool) -> Seq<StepView> {
    if git {
        seq![StepView::Say("\n📁 Scanning Git repositories..."@), StepView::ScanGit { path }]
    } else {
        seq![]
    }
}

/// The steps of the dependency part of a scan, if it was asked for.
pub open spec fn deps_steps(path: Seq<char>, deps: bool) -> Seq<StepView> {
    if deps {
        seq![StepView::Say("\n📦 Checking dependencies..."@), StepView::ScanDependencies { path }]
    } else {
        seq![]
    }
}

/// The steps of the system part of a scan, if it was asked for.
pub open spec fn system_steps(system: bool) -> Seq<StepView> {
    if system {
        seq![
            StepView::Say("\n💻 Monitoring system resources..."@),
            StepView::Say("System monitoring not implemented yet!"@),
        ]
    } else {
        seq![]
    }
}

/// The steps that a command asks for.
///
/// `check` announces itself and scans for git repositories. `scan`
/// announces itself and runs the parts that its flags name, git first, then
/// dependencies, then the system; with no flag it only says that nothing
/// was asked for.
pub open spec fn plan(cli: CliView) -> Seq<StepView> {
    match cli.command {
        CommandsView::Check { path } => seq![
            StepView::Say("🔍 Running health check on: "@ + path),
            StepView::ScanGit { path },
        ],
        CommandsView::Scan { path, git, deps, system } => seq![StepView::Say("🚀 Starting comprehensive scan on: "@ + path)]
            + git_steps(path, git) + deps_steps(path, deps) + system_steps(system) + (if !git
            && !deps && !system {
            seq![
                StepView::Say(
                    "ℹ️  No scan options specified. Use --git, --deps, or --system flags to enable specific scans."@,
                ),
            ]
        } else {
            seq![]
        }),
    }
}

/// Lays out what the command asks for.
pub fn run(cli: &Cli) -> (steps: Vec<Step>)
    ensures
        step_views(steps@) == plan(cli@),
{
    let mut steps: Vec<Step> = Vec::new();
    match &cli.command {
        Commands::Check { path } => {
            let mut line = "🔍 Running health check on: ".to_owned();
            line.append(path.as_str());
            steps.push(Step::Say(line));
            steps.push(Step::ScanGit { path: path.clone() });
        },
        Commands::Scan { path, git, deps, system } => {
            let mut line = "🚀 Starting comprehensive scan on: ".to_owned();
            line.append(path.as_str());
            steps.push(Step::Say(line));
            if *git {
                steps.push(Step::Say("\n📁 Scanning Git repositories...".to_owned()));
                steps.push(Step::ScanGit { path: path.clone() });
            }
            if *deps {
                steps.push(Step::Say("\n📦 Checking dependencies...".to_owned()));
                steps.push(Step::ScanDependencies { path: path.clone() });
            }
            if *system {
                steps.push(Step::Say("\n💻 Monitoring system resources...".to_owned()));
                steps.push(Step::Say(monitor_system()));
            }
            if !*git && !*deps && !*system {
                steps.push(
                    Step::Say(
                        "ℹ️  No scan options specified. Use --git, --deps, or --system flags to enable specific scans.".to_owned(),
                    ),
                );
            }
        },
    }
    assert(step_views(steps@) =~= plan(cli@));
    steps
}

/// How a run ends.
#[derive(Debug)]
pub struct Ending {
    /// The line for the error stream, where anything is to be said.
    pub line: Option<String>,
    /// The status with which the process exits.
    pub exit_code: i32,
}

/// What an [`Ending`] stands for.
pub struct EndingView {
    pub line: Option<Seq<char>>,
    pub exit_code: int,
}

impl View for Ending {
    type V = EndingView;

    open spec fn view(&self) -> EndingView {
        EndingView {
            line: match self.line {
                Some(line) => Some(line@),
                None => None,
            },
            exit_code: self.exit_code as int,
        }
    }
}

/// The end of a run. A run whose git scan failed names the error and exits
/// with status 1. Every other run exits with status 0 and says no more,
/// whatever the scans found in single repositories or projects.
pub open spec fn ending(failure: Option<Seq<char>>) -> EndingView {
    match failure {
        Some(message) => EndingView { line: Some("Error: "@ + message), exit_code: 1 },
        None => EndingView { line: None, exit_code: 0 },
    }
}

/// Tells how a run ends: `failure` is the message of the git scan that
/// failed, if one did.
pub fn conclude(failure: Option<&str>) -> (end: Ending)
    ensures
        end@ == ending(
            match failure {
                Some(message) => Some(message@),
                None => None,
            },
        ),
{
    match failure {
        Some(message) => {
            let mut line = "Error: ".to_owned();
            line.append(message);
            Ending { line: Some(line), exit_code: 1 }
        },
        None => Ending { line: None, exit_code: 0 },
    }
}

/// The line for the error stream when the dependency scan as a whole fails
/// with `message`. The run goes on.
pub fn dependency_failure(message: &str) -> (line: String)
    ensures
        line@ == "Error scanning dependencies: "@ + message@,
{
    let mut line = "Error scanning dependencies: ".to_owned();
    line.append(message);
    line
}

/// What follows a step that was taken.
#[derive(Debug)]
pub enum Next {
    /// The next step of the plan.
    GoOn,
    /// The line goes to the error stream; then the next step of the plan.
    Warn(String),
    /// The run is over: no further step is taken.
    End(Ending),
}

/// What a [`Next`] stands for.
pub enum NextView {
    GoOn,
    Warn(Seq<char>),
    End(EndingView),
}

impl View for Next {
    type V = NextView;

    open spec fn view(&self) -> NextView {
        match self {
            Next::GoOn => NextView::GoOn,
            Next::Warn(line) => NextView::Warn(line@),
            Next::End(end) => NextView::End(end@),
        }
    }
}

/// What follows the step `step`, where `failure` is the message with which
/// its scan failed as a whole, if it did.
///
/// A git scan that fails ends the run at once, with the error named and
/// status 1: its summary is not printed and the steps after it are not
/// taken. A dependency scan that fails is named on the error stream and the
/// run goes on. Everything else goes on in silence.
pub open spec fn following(step: StepView, failure: Option<Seq<char>>) -> NextView {
    match failure {
        None => NextView::GoOn,
        Some(message) => match step {
            StepView::Say(_) => NextView::GoOn,
            StepView::ScanGit { .. } => NextView::End(ending(Some(message))),
            StepView::ScanDependencies { .. } => NextView::Warn(
                "Error scanning dependencies: "@ + message,
            ),
        },
    }
}

/// Tells what follows a step that was taken.
pub fn after(step: &Step, failure: Option<&str>) -> (next: Next)
    ensures
        next@ == following(
            step@,
            match failure {
                Some(message) => Some(message@),
                None => None,
            },
        ),
{
    match failure {
        None => Next::GoOn,
        Some(message) => match step {
            Step::Say(_) => Next::GoOn,
            Step::ScanGit { .. } => Next::End(conclude(Some(message))),
            Step::ScanDependencies { .. } => Next::Warn(dependency_failure(message)),
        },
    }
}

/// How a plan is carried out: the steps that are taken, and the end.
pub struct Course {
    pub taken: Seq<StepView>,
    pub ending: EndingView,
}

/// The course of the plan `plan`, where `failures` holds for each step the
/// message with which it failed, if it did. The steps are taken in order
/// until one ends the run; a plan that is taken to its last step ends with
/// status 0.
pub open spec fn course(plan: Seq<StepView>, failures: Seq<Option<Seq<char>>>) -> Course
    decreases plan.len(),
{
    if plan.len() == 0 {
        Course { taken: seq![], ending: ending(None) }
    } else {
        match following(plan[0], failures[0]) {
            NextView::End(end) => Course { taken: seq![plan[0]], ending: end },
            _ => {
                let rest = course(plan.drop_first(), failures.drop_first());
                Course { taken: seq![plan[0]] + rest.taken, ending: rest.ending }
            },
        }
    }
}

/// Whether the step at `i` is a git scan that failed.
pub open spec fn git_scan_failed(plan: Seq<StepView>, failures: Seq<Option<Seq<char>>>, i: int)
    -> bool {
    0 <= i < plan.len() && plan[i] is ScanGit && failures[i] is Some
}

/// A failed git scan ends the run: the steps up to it are the only ones
/// taken, so that neither the dependency scan nor the system monitor
/// follows, and the run ends with the error named and status 1.
pub proof fn lemma_failed_git_scan_ends_the_run(
    plan: Seq<StepView>,
    failures: Seq<Option<Seq<char>>>,
    i: int,
)
    requires
        failures.len() == plan.len(),
        git_scan_failed(plan, failures, i),
        forall|j: int| 0 <= j < i ==> !git_scan_failed(plan, failures, j),
    ensures
        course(plan, failures).taken == plan.take(i + 1),
        course(plan, failures).ending == ending(failures[i]),
        course(plan, failures).ending.exit_code == 1,
    decreases plan.len(),
{
    if i == 0 {
        assert(plan.take(1) =~= seq![plan[0]]);
    } else {
        assert(!git_scan_failed(plan, failures, 0));
        let rest = plan.drop_first();
        let rest_failures = failures.drop_first();
        assert forall|j: int| 0 <= j < i - 1 implies !git_scan_failed(rest, rest_failures, j) by {
            assert(!git_scan_failed(plan, failures, j + 1));
        }
        lemma_failed_git_scan_ends_the_run(rest, rest_failures, i - 1);
        assert(seq![plan[0]] + rest.take(i) =~= plan.take(i + 1));
    }
}

/// A run without a failed git scan takes every step of its plan and ends
/// with status 0, whatever else failed.
pub proof fn lemma_run_without_failed_git_scan(
    plan: Seq<StepView>,
    failures: Seq<Option<Seq<char>>>,
)
    requires
        failures.len() == plan.len(),
        forall|j: int| 0 <= j < plan.len() ==> !git_scan_failed(plan, failures, j),
    ensures
        course(plan, failures).taken == plan,
        course(plan, failures).ending == ending(None),
        course(plan, failures).ending.exit_code == 0,
    decreases plan.len(),
{
    if plan.len() > 0 {
        assert(!git_scan_failed(plan, failures, 0));
        let rest = plan.drop_first();
        let rest_failures = failures.drop_first();
        assert forall|j: int| 0 <= j < rest.len() implies !git_scan_failed(rest, rest_failures, j) by {
            assert(!git_scan_failed(plan, failures, j + 1));
        }
        lemma_run_without_failed_git_scan(rest, rest_failures);
        assert(seq![plan[0]] + rest =~= plan);
    } else {
        assert(plan =~= Seq::<StepView>::empty());
    }
}

} // verus!
