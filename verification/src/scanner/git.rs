//! The git scanner: finds the repositories below a directory, asks the
//! version-control tool about each, and renders the summary.
//!
//! The scanner runs no process. It says which question is to be put to the
//! tool next, takes what the tool answered, and goes on from there; the
//! caller runs the tool and prints the lines.

use crate::text::{chars_of, decimal, push_decimal, text_of, trim, trimmed};
use crate::utils::fs::{
    file_name, find_git_repositories, is_marker, lemma_no_marker_no_root, name_of,
    repository_roots, root_failure, texts, walk_views, WalkEvent, WalkEventView,
};
use vstd::prelude::*;
use vstd::utf8::{decode_utf8, valid_utf8};

verus! {

/// The state in which a repository was found.
#[derive(Debug, Clone)]
pub enum GitStatus {
    /// Nothing in the working tree differs from the last commit.
    Clean,
    /// The working tree holds changes that are not committed.
    Dirty,
    /// The repository could not be inspected; the message says why.
    Error(String),
}

/// What a [`GitStatus`] stands for.
pub enum StatusView {
    Clean,
    Dirty,
    Error(Seq<char>),
}

impl View for GitStatus {
    type V = StatusView;

    open spec fn view(&self) -> StatusView {
        match self {
            GitStatus::Clean => StatusView::Clean,
            GitStatus::Dirty => StatusView::Dirty,
            GitStatus::Error(message) => StatusView::Error(message@),
        }
    }
}

impl StatusView {
    /// The status as it is shown to the user.
    pub open spec fn text(self) -> Seq<char> {
        match self {
            StatusView::Clean => "‚úÖ Clean"@,
            StatusView::Dirty => "‚ö†Ô∏è  Dirty"@,
            StatusView::Error(message) => "‚ùå Error: "@ + message,
        }
    }
}

impl GitStatus {
    /// The status as it is shown to the user.
    pub fn to_string(&self) -> (s: String)
        ensures
            s@ == self@.text(),
    {
        match self {
            GitStatus::Clean => "‚úÖ Clean".to_owned(),
            GitStatus::Dirty => "‚ö†Ô∏è  Dirty".to_owned(),
            GitStatus::Error(message) => {
                let mut s = "‚ùå Error: ".to_owned();
                s.append(message.as_str());
                s
            },
        }
    }
}

/// A repository and what the inspection found.
#[derive(Debug, Clone)]
pub struct GitRepo {
    /// The repository's root directory.
    pub path: String,
    /// Clean, dirty, or the reason why the inspection failed.
    pub status: GitStatus,
    /// The branch that is checked out.
    pub branch: String,
    /// Whether the working tree holds changes that are not committed.
    pub uncommitted_changes: bool,
    /// Whether commits wait to be pushed to the remote branch.
    pub unpushed_commits: bool,
}

/// What a [`GitRepo`] stands for.
pub struct RepoView {
    pub path: Seq<char>,
    pub status: StatusView,
    pub branch: Seq<char>,
    pub uncommitted_changes: bool,
    pub unpushed_commits: bool,
}

impl View for GitRepo {
    type V = RepoView;

    open spec fn view(&self) -> RepoView {
        RepoView {
            path: self.path@,
            status: self.status@,
            branch: self.branch@,
            uncommitted_changes: self.uncommitted_changes,
            unpushed_commits: self.unpushed_commits,
        }
    }
}

/// The views of a sequence of repositories.
pub open spec fn repo_views(repos: Seq<GitRepo>) -> Seq<RepoView> {
    repos.map_values(|r: GitRepo| r@)
}

/// The record of a repository at `path` whose inspection failed with
/// `message`: the branch is unknown and neither flag is set.
pub open spec fn error_record(path: Seq<char>, message: Seq<char>) -> RepoView {
    RepoView {
        path,
        status: StatusView::Error(message),
        branch: "unknown"@,
        uncommitted_changes: false,
        unpushed_commits: false,
    }
}

/// What came of running the tool once.
#[derive(Debug)]
pub enum QueryOutcome {
    /// The tool ran and reported success; this is what it wrote to its
    /// standard output.
    Output(Vec<u8>),
    /// The tool ran and reported failure: what it wrote to its standard
    /// output, and what it wrote to its error stream.
    Refused { output: Vec<u8>, complaint: Vec<u8> },
    /// The tool could not be run; the message says why.
    Failed(String),
}

/// What a [`QueryOutcome`] stands for.
pub enum OutcomeView {
    Output(Seq<u8>),
    Refused { output: Seq<u8>, complaint: Seq<u8> },
    Failed(Seq<char>),
}

impl View for QueryOutcome {
    type V = OutcomeView;

    open spec fn view(&self) -> OutcomeView {
        match self {
            QueryOutcome::Output(bytes) => OutcomeView::Output(bytes@),
            QueryOutcome::Refused { output, complaint } => OutcomeView::Refused {
                output: output@,
                complaint: complaint@,
            },
            QueryOutcome::Failed(message) => OutcomeView::Failed(message@),
        }
    }
}

/// How far the inspection of one repository has come: the question that is
/// put to the tool next, with what the earlier answers gave.
#[derive(Debug)]
pub enum Stage {
    /// Which branch is checked out?
    Branch,
    /// Does the working tree hold changes?
    Status { branch: String },
    /// Which commits has the remote branch not got?
    Unpushed { branch: String, uncommitted_changes: bool },
}

/// What a [`Stage`] stands for.
pub enum StageView {
    Branch,
    Status { branch: Seq<char> },
    Unpushed { branch: Seq<char>, uncommitted_changes: bool },
}

impl View for Stage {
    type V = StageView;

    open spec fn view(&self) -> StageView {
        match self {
            Stage::Branch => StageView::Branch,
            Stage::Status { branch } => StageView::Status { branch: branch@ },
            Stage::Unpushed { branch, uncommitted_changes } => StageView::Unpushed {
                branch: branch@,
                uncommitted_changes: *uncommitted_changes,
            },
        }
    }
}

/// The arguments with which the tool is run at `stage`.
pub open spec fn arguments(stage: StageView) -> Seq<Seq<char>> {
    match stage {
        StageView::Branch => seq!["rev-parse"@, "--abbrev-ref"@, "HEAD"@],
        StageView::Status { .. } => seq!["status"@, "--porcelain"@],
        StageView::Unpushed { branch, .. } => seq![
            "log"@,
            "--oneline"@,
            "origin/"@ + branch + "..HEAD"@,
        ],
    }
}

impl Stage {
    /// The arguments with which the tool is run at this stage.
    pub fn args(&self) -> (r: Vec<String>)
        ensures
            texts(r@) == arguments(self@),
    {
        let mut r: Vec<String> = Vec::new();
        match self {
            Stage::Branch => {
                r.push("rev-parse".to_owned());
                r.push("--abbrev-ref".to_owned());
                r.push("HEAD".to_owned());
            },
            Stage::Status { .. } => {
                r.push("status".to_owned());
                r.push("--porcelain".to_owned());
            },
            Stage::Unpushed { branch, .. } => {
                r.push("log".to_owned());
                r.push("--oneline".to_owned());
                let mut range = "origin/".to_owned();
                range.append(branch.as_str());
                range.append("..HEAD");
                r.push(range);
            },
        }
        assert(texts(r@) =~= arguments(self@));
        r
    }
}

/// The text that a sequence of bytes stands for when it is read as UTF-8
/// and each malformed part is replaced by U+FFFD.
pub uninterp spec fn utf8_lossy(bytes: Seq<u8>) -> Seq<char>;

/// `String::from_utf8_lossy` of the standard library: reads bytes as UTF-8,
/// putting U+FFFD in place of what is malformed. The result depends on the
/// bytes alone, and bytes that are well-formed UTF-8 give the text that
/// they encode.
#[verifier::external_body]
fn lossy_text(bytes: &Vec<u8>) -> (s: String)
    ensures
        s@ == utf8_lossy(bytes@),
        valid_utf8(bytes@) ==> s@ == decode_utf8(bytes@),
{
    String::from_utf8_lossy(bytes).into_owned()
}

/// Where the inspection of one repository stands after an answer.
#[derive(Debug)]
pub enum Progress {
    /// There is another question to put.
    Next(Stage),
    /// The inspection is over: the record, or the reason why there is none.
    Done(Result<GitRepo, String>),
}

/// What a [`Progress`] stands for.
pub enum ProgressView {
    Next(StageView),
    Done(Result<RepoView, Seq<char>>),
}

impl View for Progress {
    type V = ProgressView;

    open spec fn view(&self) -> ProgressView {
        match self {
            Progress::Next(stage) => ProgressView::Next(stage@),
            Progress::Done(Ok(repo)) => ProgressView::Done(Ok(repo@)),
            Progress::Done(Err(message)) => ProgressView::Done(Err(message@)),
        }
    }
}

/// The branch name in what the tool wrote when asked for it.
pub open spec fn branch_name(output: Seq<u8>) -> Seq<char> {
    trimmed(utf8_lossy(output))
}

/// What the tool complained of when it refused a question: what it wrote
/// to its error stream, trimmed.
pub open spec fn complaint_text(complaint: Seq<u8>) -> Seq<char> {
    trimmed(utf8_lossy(complaint))
}

/// The inspection of the repository at `path`, one answer further.
///
/// The question for the branch fails where the tool cannot be run and
/// where it refuses, as it does for a directory that is no valid
/// repository; the inspection is then over, with the message of the
/// failure. Else the branch is what the tool wrote, trimmed.
///
/// Any output of the status query means uncommitted changes; a tool that
/// cannot be run ends the inspection here too.
///
/// Any output of a log query that succeeded means unpushed commits. A log
/// query that failed in either way counts as "nothing unpushed".
pub open spec fn analysis(path: Seq<char>, stage: StageView, outcome: OutcomeView) -> ProgressView {
    match stage {
        StageView::Branch => match outcome {
            OutcomeView::Failed(message) => ProgressView::Done(Err(message)),
            OutcomeView::Refused { complaint, .. } => ProgressView::Done(
                Err(complaint_text(complaint)),
            ),
            OutcomeView::Output(bytes) => ProgressView::Next(
                StageView::Status { branch: branch_name(bytes) },
            ),
        },
        StageView::Status { branch } => match outcome {
            OutcomeView::Failed(message) => ProgressView::Done(Err(message)),
            OutcomeView::Refused { output, .. } => ProgressView::Next(
                StageView::Unpushed { branch, uncommitted_changes: output.len() > 0 },
            ),
            OutcomeView::Output(bytes) => ProgressView::Next(
                StageView::Unpushed { branch, uncommitted_changes: bytes.len() > 0 },
            ),
        },
        StageView::Unpushed { branch, uncommitted_changes } => ProgressView::Done(
            Ok(
                RepoView {
                    path,
                    status: if uncommitted_changes {
                        StatusView::Dirty
                    } else {
                        StatusView::Clean
                    },
                    branch,
                    uncommitted_changes,
                    unpushed_commits: match outcome {
                        OutcomeView::Output(bytes) => bytes.len() > 0,
                        OutcomeView::Refused { .. } => false,
                        OutcomeView::Failed(_) => false,
                    },
                },
            ),
        ),
    }
}

/// Whether `outcome` answers the question for the branch in well-formed
/// UTF-8.
pub open spec fn names_branch(stage: StageView, outcome: OutcomeView) -> bool {
    stage is Branch && outcome is Output && valid_utf8(outcome->Output_0)
}

/// Takes the inspection of the repository at `repo_path` one answer further.
/// A branch that the tool names in well-formed UTF-8 is the text that it
/// wrote, trimmed.
pub fn analyze_git_repo(repo_path: &str, stage: Stage, outcome: QueryOutcome) -> (r: Progress)
    ensures
        r@ == analysis(repo_path@, stage@, outcome@),
        names_branch(stage@, outcome@) ==> r@ == ProgressView::Next(
            StageView::Status { branch: trimmed(decode_utf8(outcome@->Output_0)) },
        ),
{
    match stage {
        Stage::Branch => match outcome {
            QueryOutcome::Failed(message) => Progress::Done(Err(message)),
            QueryOutcome::Refused { output: _, complaint } => {
                let raw = lossy_text(&complaint);
                Progress::Done(Err(text_of(&trim(&chars_of(raw.as_str())))))
            },
            QueryOutcome::Output(bytes) => {
                let raw = lossy_text(&bytes);
                let branch = text_of(&trim(&chars_of(raw.as_str())));
                Progress::Next(Stage::Status { branch })
            },
        },
        Stage::Status { branch } => match outcome {
            QueryOutcome::Failed(message) => Progress::Done(Err(message)),
            QueryOutcome::Refused { output, complaint: _ } => Progress::Next(
                Stage::Unpushed { branch, uncommitted_changes: output.len() > 0 },
            ),
            QueryOutcome::Output(bytes) => Progress::Next(
                Stage::Unpushed { branch, uncommitted_changes: bytes.len() > 0 },
            ),
        },
        Stage::Unpushed { branch, uncommitted_changes } => {
            let unpushed_commits = match outcome {
                QueryOutcome::Output(bytes) => bytes.len() > 0,
                QueryOutcome::Refused { .. } => false,
                QueryOutcome::Failed(_) => false,
            };
            let status = if uncommitted_changes {
                GitStatus::Dirty
            } else {
                GitStatus::Clean
            };
            Progress::Done(
                Ok(
                    GitRepo {
                        path: repo_path.to_owned(),
                        status,
                        branch,
                        uncommitted_changes,
                        unpushed_commits,
                    },
                ),
            )
        },
    }
}

/// A scan in progress: the repository roots, the records made so far, and
/// the stage of the repository that is being inspected.
///
/// The records stand in the order of the roots; the repository under
/// inspection is the first root without a record.
pub struct Scan {
    roots: Vec<String>,
    done: Vec<GitRepo>,
    stage: Stage,
}

/// What a [`Scan`] stands for.
pub struct ScanView {
    pub roots: Seq<Seq<char>>,
    pub done: Seq<RepoView>,
    pub stage: StageView,
}

impl View for Scan {
    type V = ScanView;

    closed spec fn view(&self) -> ScanView {
        ScanView { roots: texts(self.roots@), done: repo_views(self.done@), stage: self.stage@ }
    }
}

/// What the caller of a scan is to do next.
#[derive(Debug)]
pub enum ScanAction {
    /// Print `announce`, if there is one, then run `program` with `args`
    /// in the directory `dir` and hand over what came of it.
    Run { announce: Option<String>, program: String, args: Vec<String>, dir: String },
    /// Every repository has its record.
    Finished,
}

/// What a [`ScanAction`] stands for.
pub enum ActionView {
    Run { announce: Option<Seq<char>>, program: Seq<char>, args: Seq<Seq<char>>, dir: Seq<char> },
    Finished,
}

impl View for ScanAction {
    type V = ActionView;

    open spec fn view(&self) -> ActionView {
        match self {
            ScanAction::Run { announce, program, args, dir } => ActionView::Run {
                announce: match announce {
                    Some(line) => Some(line@),
                    None => None,
                },
                program: program@,
                args: texts(args@),
                dir: dir@,
            },
            ScanAction::Finished => ActionView::Finished,
        }
    }
}

impl ScanView {
    /// The scan of `roots` before anything was asked.
    pub open spec fn start(roots: Seq<Seq<char>>) -> ScanView {
        ScanView { roots, done: Seq::empty(), stage: StageView::Branch }
    }

    /// Whether every root has its record.
    pub open spec fn finished(self) -> bool {
        self.done.len() >= self.roots.len()
    }

    /// The root of the repository under inspection.
    pub open spec fn current(self) -> Seq<char> {
        self.roots[self.done.len() as int]
    }

    /// What is to be done next: at the first question about a repository
    /// its path is announced.
    pub open spec fn action(self) -> ActionView {
        if self.finished() {
            ActionView::Finished
        } else {
            ActionView::Run {
                announce: if self.stage is Branch {
                    Some("  Scanning: "@ + self.current())
                } else {
                    None
                },
                program: "git"@,
                args: arguments(self.stage),
                dir: self.current(),
            }
        }
    }

    /// The scan after the answer `outcome` to the pending question. A failed
    /// inspection leaves an error record and the scan goes on with the next
    /// root; a finished scan stays as it is.
    pub open spec fn step(self, outcome: OutcomeView) -> ScanView {
        if self.finished() {
            self
        } else {
            match analysis(self.current(), self.stage, outcome) {
                ProgressView::Next(stage) => ScanView { stage, ..self },
                ProgressView::Done(Ok(repo)) => ScanView {
                    done: self.done.push(repo),
                    stage: StageView::Branch,
                    ..self
                },
                ProgressView::Done(Err(message)) => ScanView {
                    done: self.done.push(error_record(self.current(), message)),
                    stage: StageView::Branch,
                    ..self
                },
            }
        }
    }

    /// The scan after the answers `outcomes`, taken in order.
    pub open spec fn run(self, outcomes: Seq<OutcomeView>) -> ScanView
        decreases outcomes.len(),
    {
        if outcomes.len() == 0 {
            self
        } else {
            self.step(outcomes[0]).run(outcomes.drop_first())
        }
    }
}

/// Starts the scan of a directory tree from what a walk of it met. Where
/// the root of the walk could not be read, there is no scan, and the
/// message of that failure is handed back. No root is scanned twice.
pub fn scan_directory(walk: &Vec<WalkEvent>) -> (r: Result<Scan, String>)
    ensures
        match r {
            Ok(scan) => root_failure(walk_views(walk@)) is None && scan@ == ScanView::start(
                repository_roots(walk_views(walk@)),
            ) && scan@.roots.no_duplicates(),
            Err(message) => root_failure(walk_views(walk@)) == Some(message@),
        },
{
    match find_git_repositories(walk) {
        Err(message) => Err(message),
        Ok(roots) => {
            let scan = Scan { roots, done: Vec::new(), stage: Stage::Branch };
            assert(repo_views(scan.done@) =~= Seq::<RepoView>::empty());
            Ok(scan)
        },
    }
}

impl Scan {
    /// Whether every repository has its record.
    pub fn is_finished(&self) -> (r: bool)
        ensures
            r == self@.finished(),
    {
        self.done.len() >= self.roots.len()
    }

    /// What the caller is to do next.
    pub fn action(&self) -> (r: ScanAction)
        ensures
            r@ == self@.action(),
    {
        if self.done.len() >= self.roots.len() {
            ScanAction::Finished
        } else {
            let root: &String = &self.roots[self.done.len()];
            let announce = match &self.stage {
                Stage::Branch => {
                    let mut line = "  Scanning: ".to_owned();
                    line.append(root.as_str());
                    Some(line)
                },
                _ => None,
            };
            ScanAction::Run {
                announce,
                program: "git".to_owned(),
                args: self.stage.args(),
                dir: root.clone(),
            }
        }
    }

    /// Takes the answer to the pending question. A branch that the tool
    /// names in well-formed UTF-8 is the text that it wrote, trimmed.
    pub fn advance(&mut self, outcome: QueryOutcome)
        ensures
            final(self)@ == old(self)@.step(outcome@),
            !old(self)@.finished() && names_branch(old(self)@.stage, outcome@) ==> final(self)@.stage
                == (StageView::Status { branch: trimmed(decode_utf8(outcome@->Output_0)) }),
    {
        if self.done.len() < self.roots.len() {
            let ghost before = self.done@;
            let root: String = self.roots[self.done.len()].clone();
            let mut stage = Stage::Branch;
            core::mem::swap(&mut stage, &mut self.stage);
            match analyze_git_repo(root.as_str(), stage, outcome) {
                Progress::Next(next) => {
                    self.stage = next;
                },
                Progress::Done(Ok(repo)) => {
                    self.done.push(repo);
                    assert(repo_views(self.done@) =~= repo_views(before).push(repo@));
                },
                Progress::Done(Err(message)) => {
                    let repo = GitRepo {
                        path: root,
                        status: GitStatus::Error(message),
                        branch: "unknown".to_owned(),
                        uncommitted_changes: false,
                        unpushed_commits: false,
                    };
                    self.done.push(repo);
                    assert(repo_views(self.done@) =~= repo_views(before).push(repo@));
                },
            }
        }
    }

    /// The records made, in the order of the roots.
    pub fn into_results(self) -> (repos: Vec<GitRepo>)
        ensures
            repo_views(repos@) == self@.done,
    {
        self.done
    }
}

/// The name under which the repository at `path` is listed: the name of its
/// directory, or `unknown` where the path has none.
pub open spec fn shown_name(path: Seq<char>) -> Seq<char> {
    match name_of(path) {
        Some(name) => name,
        None => "unknown"@,
    }
}

/// The line that lists one repository: status, directory name, branch, and
/// a mark where commits wait to be pushed.
pub open spec fn repo_line(repo: RepoView) -> Seq<char> {
    "  "@ + repo.status.text() + " "@ + shown_name(repo.path) + " ("@ + repo.branch + ")"@ + (
    if repo.unpushed_commits {
        " üîÑ"@
    } else {
        Seq::empty()
    })
}

/// How many of `repos` are clean.
pub open spec fn clean_count(repos: Seq<RepoView>) -> nat {
    repos.filter(|r: RepoView| r.status is Clean).len()
}

/// How many of `repos` are dirty.
pub open spec fn dirty_count(repos: Seq<RepoView>) -> nat {
    repos.filter(|r: RepoView| r.status is Dirty).len()
}

/// How many of `repos` could not be inspected.
pub open spec fn error_count(repos: Seq<RepoView>) -> nat {
    repos.filter(|r: RepoView| r.status is Error).len()
}

/// The lines of the summary of `repos`: a note where there is none; else
/// the total, the counts by status, and one line for each repository.
pub open spec fn report(repos: Seq<RepoView>) -> Seq<Seq<char>> {
    if repos.len() == 0 {
        seq!["  No git repositories found."@]
    } else {
        seq![
            "\nüìä Git Repository Summary:"@,
            "  Total repositories: "@ + decimal(repos.len()),
            "  Clean: "@ + decimal(clean_count(repos)) + ", Dirty: "@ + decimal(dirty_count(repos))
                + ", Errors: "@ + decimal(error_count(repos)),
            "\nüìÅ Repository Details: "@,
        ] + repos.map_values(|r: RepoView| repo_line(r))
    }
}

fn line_of(repo: &GitRepo) -> (line: String)
    ensures
        line@ == repo_line(repo@),
{
    let mut line = "  ".to_owned();
    let status = repo.status.to_string();
    line.append(status.as_str());
    line.append(" ");
    match file_name(repo.path.as_str()) {
        Some(name) => {
            line.append(name.as_str());
        },
        None => {
            line.append("unknown");
        },
    }
    line.append(" (");
    line.append(repo.branch.as_str());
    line.append(")");
    if repo.unpushed_commits {
        line.append(" üîÑ");
    }
    assert(line@ =~= repo_line(repo@));
    line
}

/// Renders the summary of a scan, one string for each line to print.
pub fn display_results(repos: &Vec<GitRepo>) -> (lines: Vec<String>)
    ensures
        texts(lines@) == report(repo_views(repos@)),
{
    let mut lines: Vec<String> = Vec::new();
    if repos.len() == 0 {
        lines.push("  No git repositories found.".to_owned());
        assert(texts(lines@) =~= report(repo_views(repos@)));
        return lines;
    }
    let ghost views = repo_views(repos@);
    let ghost clean = |r: RepoView| r.status is Clean;
    let ghost dirty = |r: RepoView| r.status is Dirty;
    let ghost error = |r: RepoView| r.status is Error;
    let mut n_clean: usize = 0;
    let mut n_dirty: usize = 0;
    let mut n_error: usize = 0;
    let mut i: usize = 0;
    while i < repos.len()
        invariant
            i <= repos.len(),
            views == repo_views(repos@),
            clean == (|r: RepoView| r.status is Clean),
            dirty == (|r: RepoView| r.status is Dirty),
            error == (|r: RepoView| r.status is Error),
            n_clean == views.take(i as int).filter(clean).len() <= i,
            n_dirty == views.take(i as int).filter(dirty).len() <= i,
            n_error == views.take(i as int).filter(error).len() <= i,
        decreases repos.len() - i,
    {
        proof {
            let before = views.take(i as int);
            assert(views.take(i + 1) =~= before.push(views[i as int]));
            before.lemma_filter_push(views[i as int], clean);
            before.lemma_filter_push(views[i as int], dirty);
            before.lemma_filter_push(views[i as int], error);
        }
        match &repos[i].status {
            GitStatus::Clean => {
                n_clean += 1;
            },
            GitStatus::Dirty => {
                n_dirty += 1;
            },
            GitStatus::Error(_) => {
                n_error += 1;
            },
        }
        i += 1;
    }
    assert(views.take(repos.len() as int) =~= views);

    lines.push("\nüìä Git Repository Summary:".to_owned());
    let mut total = "  Total repositories: ".to_owned();
    push_decimal(&mut total, repos.len());
    lines.push(total);
    let mut counts = "  Clean: ".to_owned();
    push_decimal(&mut counts, n_clean);
    counts.append(", Dirty: ");
    push_decimal(&mut counts, n_dirty);
    counts.append(", Errors: ");
    push_decimal(&mut counts, n_error);
    lines.push(counts);
    lines.push("\nüìÅ Repository Details: ".to_owned());

    let ghost head = texts(lines@);
    let ghost f = |r: RepoView| repo_line(r);
    assert(views.take(0).map_values(f) =~= Seq::<Seq<char>>::empty());
    let mut j: usize = 0;
    while j < repos.len()
        invariant
            j <= repos.len(),
            views == repo_views(repos@),
            f == (|r: RepoView| repo_line(r)),
            texts(lines@) =~= head + views.take(j as int).map_values(f),
        decreases repos.len() - j,
    {
        let ghost before = lines@;
        let line = line_of(&repos[j]);
        lines.push(line);
        proof {
            assert(texts(lines@) =~= texts(before).push(line@));
            views.lemma_map_take_succ(f, j as int);
        }
        j += 1;
    }
    assert(head =~= seq![
        "\nüìä Git Repository Summary:"@,
        "  Total repositories: "@ + decimal(views.len()),
        "  Clean: "@ + decimal(clean_count(views)) + ", Dirty: "@ + decimal(dirty_count(views))
            + ", Errors: "@ + decimal(error_count(views)),
        "\nüìÅ Repository Details: "@,
    ]);
    lines
}

/// Where the walk met no marker folder, the scan has nothing to inspect,
/// and its summary is the note that no repository was found.
pub proof fn lemma_no_marker_no_repository(walk: Seq<WalkEventView>)
    requires
        forall|i: int| 0 <= i < walk.len() ==> !is_marker(#[trigger] walk[i]),
    ensures
        repository_roots(walk).len() == 0,
        ScanView::start(repository_roots(walk)).action() is Finished,
        report(ScanView::start(repository_roots(walk)).done) == seq![
            "  No git repositories found."@,
        ],
{
    lemma_no_marker_no_root(walk);
}

/// Where the tool refuses the question for the branch, as it does for a
/// directory that is no valid repository, the inspection is over: the
/// record holds what the tool complained of, the branch `unknown` and no
/// flag, and the scan goes on with the next root.
pub proof fn lemma_refused_branch_query_gives_error_record(
    scan: ScanView,
    output: Seq<u8>,
    complaint: Seq<u8>,
)
    requires
        !scan.finished(),
        scan.stage is Branch,
    ensures
        scan.step(OutcomeView::Refused { output, complaint }).done == scan.done.push(
            RepoView {
                path: scan.current(),
                status: StatusView::Error(complaint_text(complaint)),
                branch: "unknown"@,
                uncommitted_changes: false,
                unpushed_commits: false,
            },
        ),
        scan.step(OutcomeView::Refused { output, complaint }).stage is Branch,
        scan.step(OutcomeView::Refused { output, complaint }).roots == scan.roots,
{
}

impl ScanView {
    /// Whether each record made stands for the root at its place.
    pub open spec fn follows_roots(self) -> bool {
        &&& self.done.len() <= self.roots.len()
        &&& forall|i: int| 0 <= i < self.done.len() ==> (#[trigger] self.done[i]).path
            == self.roots[i]
    }
}

/// The records of a scan stand for its roots, one for one and in order:
/// a scan starts so, and every answer leaves it so.
pub proof fn lemma_records_follow_roots(scan: ScanView, outcome: OutcomeView)
    requires
        scan.follows_roots(),
    ensures
        ScanView::start(scan.roots).follows_roots(),
        scan.step(outcome).follows_roots(),
        scan.step(outcome).roots == scan.roots,
{
}

/// No two records of a scan bear the same path, where no root occurs
/// twice, as is the case for every scan that `scan_directory` starts.
pub proof fn lemma_record_paths_are_unique(scan: ScanView)
    requires
        scan.follows_roots(),
        scan.roots.no_duplicates(),
    ensures
        forall|i: int, j: int|
            0 <= i < j < scan.done.len() ==> (#[trigger] scan.done[i]).path != (
            #[trigger] scan.done[j]).path,
{
}

/// Where the tool cannot be run, the first question about a repository
/// ends its inspection: the record holds the error, the branch `unknown`
/// and no flag, and the scan goes on with the next root.
pub proof fn lemma_failed_tool_gives_error_record(scan: ScanView, message: Seq<char>)
    requires
        !scan.finished(),
        scan.stage is Branch,
    ensures
        scan.step(OutcomeView::Failed(message)).done == scan.done.push(
            RepoView {
                path: scan.current(),
                status: StatusView::Error(message),
                branch: "unknown"@,
                uncommitted_changes: false,
                unpushed_commits: false,
            },
        ),
        scan.step(OutcomeView::Failed(message)).stage is Branch,
        scan.step(OutcomeView::Failed(message)).roots == scan.roots,
{
}

/// Whether each of `outcomes` says that the tool could not be run.
pub open spec fn all_failed(outcomes: Seq<OutcomeView>) -> bool {
    forall|i: int| 0 <= i < outcomes.len() ==> #[trigger] outcomes[i] is Failed
}

/// The records that a scan of `roots` leaves where the tool cannot be run
/// at all: for each root one error record with the message of its failure.
pub open spec fn failed_records(roots: Seq<Seq<char>>, outcomes: Seq<OutcomeView>) -> Seq<
    RepoView,
> {
    Seq::new(roots.len(), |i: int| error_record(roots[i], outcomes[i]->Failed_0))
}

proof fn lemma_failed_tool_from(scan: ScanView, outcomes: Seq<OutcomeView>, all: Seq<OutcomeView>)
    requires
        scan.stage is Branch,
        scan.done.len() <= scan.roots.len(),
        all.len() == scan.roots.len(),
        all_failed(all),
        outcomes == all.skip(scan.done.len() as int),
        scan.done == failed_records(scan.roots, all).take(scan.done.len() as int),
    ensures
        scan.run(outcomes).roots == scan.roots,
        scan.run(outcomes).done == failed_records(scan.roots, all),
    decreases outcomes.len(),
{
    let k = scan.done.len() as int;
    if outcomes.len() == 0 {
        assert(failed_records(scan.roots, all).take(k) =~= failed_records(scan.roots, all));
    } else {
        let next = scan.step(outcomes[0]);
        assert(outcomes[0] == all[k]);
        assert(all[k] is Failed);
        assert(next.done =~= failed_records(scan.roots, all).take(k + 1));
        assert(outcomes.drop_first() =~= all.skip(k + 1));
        lemma_failed_tool_from(next, outcomes.drop_first(), all);
    }
}

/// Where the tool cannot be run at all, the scan still completes: one
/// failed answer for each root leaves one error record for each root, in
/// the order of the roots.
pub proof fn lemma_scan_completes_without_tool(roots: Seq<Seq<char>>, outcomes: Seq<OutcomeView>)
    requires
        outcomes.len() == roots.len(),
        all_failed(outcomes),
    ensures
        ScanView::start(roots).run(outcomes).finished(),
        ScanView::start(roots).run(outcomes).done == failed_records(roots, outcomes),
{
    let scan = ScanView::start(roots);
    assert(outcomes.skip(0) =~= outcomes);
    assert(scan.done =~= failed_records(roots, outcomes).take(0));
    lemma_failed_tool_from(scan, outcomes, outcomes);
}

/// The status follows the answer to the status query alone: where the tool
/// answered the first two questions, any output of the status query makes
/// the repository dirty and none makes it clean, whatever came of the third
/// question.
pub proof fn lemma_status_follows_porcelain(
    path: Seq<char>,
    branch_output: Seq<u8>,
    status_output: Seq<u8>,
    complaint: Seq<u8>,
    succeeded: bool,
    third: OutcomeView,
)
    ensures
        ({
            let first = analysis(path, StageView::Branch, OutcomeView::Output(branch_output));
            let second = analysis(
                path,
                first->Next_0,
                if succeeded {
                    OutcomeView::Output(status_output)
                } else {
                    OutcomeView::Refused { output: status_output, complaint }
                },
            );
            let last = analysis(path, second->Next_0, third);
            &&& first is Next
            &&& second is Next
            &&& last matches ProgressView::Done(Ok(repo))
            &&& repo.path == path
            &&& repo.branch == branch_name(branch_output)
            &&& repo.uncommitted_changes == (status_output.len() > 0)
            &&& status_output.len() > 0 ==> repo.status is Dirty
            &&& status_output.len() == 0 ==> repo.status is Clean
        }),
{
}

} // verus!
