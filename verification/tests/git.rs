use devhealth::scanner::git::{
    analyze_git_repo, display_results, scan_directory, GitRepo, GitStatus, Progress, QueryOutcome,
    ScanAction, Stage,
};
use devhealth::utils::fs::WalkEvent;

/// Create a test GitRepo with default values for easier testing
fn create_test_repo(name: &str, status: GitStatus) -> GitRepo {
    GitRepo {
        path: format!("/test/{}", name),
        status,
        branch: "main".to_string(),
        uncommitted_changes: false,
        unpushed_commits: false,
    }
}

fn strings(items: &[&str]) -> Vec<String> {
    items.iter().map(|s| s.to_string()).collect()
}

fn output(text: &str) -> QueryOutcome {
    QueryOutcome::Output(text.as_bytes().to_vec())
}

fn failed(message: &str) -> QueryOutcome {
    QueryOutcome::Failed(message.to_string())
}

fn refused(output: &str, complaint: &str) -> QueryOutcome {
    QueryOutcome::Refused {
        output: output.as_bytes().to_vec(),
        complaint: complaint.as_bytes().to_vec(),
    }
}

/// Drives a scan to its end, answering each question from `answers`.
fn drive(entries: &[&str], answers: Vec<QueryOutcome>) -> (Vec<GitRepo>, Vec<String>, usize) {
    let walk: Vec<WalkEvent> =
        entries.iter().map(|p| WalkEvent::Entry { path: p.to_string(), is_dir: true }).collect();
    let mut scan = scan_directory(&walk).expect("a walk whose root could be read");
    let mut announced = Vec::new();
    let mut asked = 0;
    let mut answers = answers.into_iter();
    loop {
        match scan.action() {
            ScanAction::Finished => break,
            ScanAction::Run { announce, program, .. } => {
                assert_eq!(program, "git");
                if let Some(line) = announce {
                    announced.push(line);
                }
                asked += 1;
                scan.advance(answers.next().expect("an answer for each question"));
            }
        }
    }
    assert!(scan.is_finished());
    (scan.into_results(), announced, asked)
}

#[test]
fn displays_clean_status_correctly() {
    assert_eq!(GitStatus::Clean.to_string(), "‚úÖ Clean");
}

#[test]
fn displays_dirty_status_correctly() {
    assert_eq!(GitStatus::Dirty.to_string(), "‚ö†Ô∏è  Dirty");
}

#[test]
fn displays_error_status_with_message() {
    let error_msg = "Repository not found";
    assert_eq!(
        GitStatus::Error(error_msg.to_string()).to_string(),
        format!("‚ùå Error: {}", error_msg)
    );
}

#[test]
fn creates_repo_with_correct_properties() {
    let repo = GitRepo {
        path: String::from("/test/my-project"),
        status: GitStatus::Clean,
        branch: "develop".to_string(),
        uncommitted_changes: true,
        unpushed_commits: false,
    };

    assert_eq!(repo.path, String::from("/test/my-project"));
    assert_eq!(repo.branch, "develop");
    assert!(repo.uncommitted_changes);
    assert!(!repo.unpushed_commits);
    assert!(matches!(repo.status, GitStatus::Clean));
}

#[test]
fn handles_different_status_types() {
    let clean_repo = create_test_repo("clean", GitStatus::Clean);
    let dirty_repo = create_test_repo("dirty", GitStatus::Dirty);
    let error_repo = create_test_repo("error", GitStatus::Error("test error".to_string()));

    assert!(matches!(clean_repo.status, GitStatus::Clean));
    assert!(matches!(dirty_repo.status, GitStatus::Dirty));
    assert!(matches!(error_repo.status, GitStatus::Error(_)));
}

#[test]
fn returns_empty_vec_for_directory_without_git_repos() {
    let (result, announced, asked) = drive(&["/tmp/empty"], vec![]);

    assert!(
        result.is_empty(),
        "Should return empty vector for directory with no git repos"
    );
    assert!(announced.is_empty());
    assert_eq!(asked, 0);
}

#[test]
fn finds_git_repository_in_directory() {
    let (result, announced, asked) = drive(
        &["/tmp/work", "/tmp/work/.git"],
        vec![output("main\n"), output(""), output("")],
    );

    assert_eq!(result.len(), 1, "Should find exactly one git repository");
    assert_eq!(result[0].path, "/tmp/work", "Should find the correct repository path");
    assert_eq!(announced, vec!["  Scanning: /tmp/work".to_string()]);
    assert_eq!(asked, 3);
}

#[test]
fn handles_inaccessible_git_repositories_gracefully() {
    let (repos, _, asked) = drive(
        &["/tmp/work", "/tmp/work/.git"],
        vec![failed("No such file or directory (os error 2)")],
    );

    assert_eq!(repos.len(), 1, "Should still find the repository");
    assert_eq!(asked, 1);
    assert!(
        matches!(&repos[0].status, GitStatus::Error(m) if m == "No such file or directory (os error 2)")
    );
    assert_eq!(repos[0].branch, "unknown");
    assert!(!repos[0].uncommitted_changes);
    assert!(!repos[0].unpushed_commits);
}

#[test]
fn handles_empty_repository_list() {
    let repos = vec![];
    let lines = display_results(&repos);
    assert_eq!(lines, vec!["  No git repositories found.".to_string()]);
}

#[test]
fn displays_multiple_repositories_correctly() {
    let repos = vec![
        GitRepo {
            path: String::from("/test/clean-repo"),
            status: GitStatus::Clean,
            branch: "main".to_string(),
            uncommitted_changes: false,
            unpushed_commits: false,
        },
        GitRepo {
            path: String::from("/test/dirty-repo"),
            status: GitStatus::Dirty,
            branch: "feature/new-feature".to_string(),
            uncommitted_changes: true,
            unpushed_commits: true,
        },
        GitRepo {
            path: String::from("/test/error-repo"),
            status: GitStatus::Error("Permission denied".to_string()),
            branch: "unknown".to_string(),
            uncommitted_changes: false,
            unpushed_commits: false,
        },
    ];

    let lines = display_results(&repos);
    assert_eq!(
        lines,
        vec![
            "\nüìä Git Repository Summary:".to_string(),
            "  Total repositories: 3".to_string(),
            "  Clean: 1, Dirty: 1, Errors: 1".to_string(),
            "\nüìÅ Repository Details: ".to_string(),
            "  ‚úÖ Clean clean-repo (main)".to_string(),
            "  ‚ö†Ô∏è  Dirty dirty-repo (feature/new-feature) üîÑ".to_string(),
            "  ‚ùå Error: Permission denied error-repo (unknown)".to_string(),
        ]
    );
}

#[test]
fn inspection_asks_the_three_questions_in_order() {
    assert_eq!(Stage::Branch.args(), strings(&["rev-parse", "--abbrev-ref", "HEAD"]));
    let second = match analyze_git_repo("/r", Stage::Branch, output("  feature/x \n")) {
        Progress::Next(stage) => stage,
        other => panic!("expected another question, got {:?}", other),
    };
    assert!(matches!(&second, Stage::Status { branch } if branch == "feature/x"));
    assert_eq!(second.args(), strings(&["status", "--porcelain"]));
    let third = match analyze_git_repo("/r", second, output(" M src/lib.rs\n")) {
        Progress::Next(stage) => stage,
        other => panic!("expected another question, got {:?}", other),
    };
    assert_eq!(third.args(), strings(&["log", "--oneline", "origin/feature/x..HEAD"]));
    match analyze_git_repo("/r", third, output("abc123 a commit\n")) {
        Progress::Done(Ok(repo)) => {
            assert_eq!(repo.path, "/r");
            assert_eq!(repo.branch, "feature/x");
            assert!(matches!(repo.status, GitStatus::Dirty));
            assert!(repo.uncommitted_changes);
            assert!(repo.unpushed_commits);
        }
        other => panic!("expected a record, got {:?}", other),
    }
}

#[test]
fn empty_status_output_means_clean() {
    let (repos, _, _) = drive(
        &["/w/.git"],
        vec![output("main\n"), output(""), output("abc one\n")],
    );
    assert!(matches!(repos[0].status, GitStatus::Clean));
    assert!(!repos[0].uncommitted_changes);
    assert!(repos[0].unpushed_commits);
}

#[test]
fn any_status_output_means_dirty() {
    let (repos, _, _) = drive(&["/w/.git"], vec![output("main\n"), output("\n"), output("")]);
    assert!(matches!(repos[0].status, GitStatus::Dirty));
    assert!(repos[0].uncommitted_changes);
    assert!(!repos[0].unpushed_commits);
}

#[test]
fn failed_log_query_counts_as_nothing_unpushed() {
    let (repos, _, asked) = drive(
        &["/w/.git"],
        vec![output("main\n"), output(""), failed("cannot run")],
    );
    assert_eq!(asked, 3);
    assert!(matches!(repos[0].status, GitStatus::Clean));
    assert!(!repos[0].unpushed_commits);
}

#[test]
fn failed_status_query_gives_an_error_record() {
    let (repos, _, asked) = drive(&["/w/.git"], vec![output("main\n"), failed("gone")]);
    assert_eq!(asked, 2);
    assert!(matches!(&repos[0].status, GitStatus::Error(m) if m == "gone"));
    assert_eq!(repos[0].branch, "unknown");
}

#[test]
fn branch_output_is_read_leniently() {
    let outcome = QueryOutcome::Output(vec![b'm', 0xff, b'n', b'\n']);
    match analyze_git_repo("/r", Stage::Branch, outcome) {
        Progress::Next(Stage::Status { branch }) => assert_eq!(branch, "m\u{fffd}n"),
        other => panic!("expected the status question, got {:?}", other),
    }
}

#[test]
fn scan_goes_on_after_a_failed_inspection() {
    let (repos, announced, asked) = drive(
        &["/a/.git", "/b/.git", "/c/.git"],
        vec![
            failed("first"),
            output("main\n"),
            output(""),
            output(""),
            failed("third"),
        ],
    );
    assert_eq!(asked, 5);
    assert_eq!(
        announced,
        strings(&["  Scanning: /a", "  Scanning: /b", "  Scanning: /c"])
    );
    assert_eq!(repos.len(), 3);
    assert!(matches!(&repos[0].status, GitStatus::Error(m) if m == "first"));
    assert!(matches!(repos[1].status, GitStatus::Clean));
    assert_eq!(repos[1].branch, "main");
    assert!(matches!(&repos[2].status, GitStatus::Error(m) if m == "third"));
    assert_eq!(repos[0].path, "/a");
    assert_eq!(repos[1].path, "/b");
    assert_eq!(repos[2].path, "/c");
}

#[test]
fn a_finished_scan_ignores_further_answers() {
    let mut scan =
        scan_directory(&vec![WalkEvent::Entry { path: "/a/b".to_string(), is_dir: true }]).unwrap();
    assert!(scan.is_finished());
    scan.advance(output("main\n"));
    assert!(scan.is_finished());
    assert!(scan.into_results().is_empty());
}

#[test]
fn check_of_an_empty_directory_reports_no_repositories() {
    let (repos, _, _) = drive(&["/tmp/empty"], vec![]);
    let lines = display_results(&repos);
    assert!(lines.iter().any(|l| l.contains("No git repositories found.")));
}

#[test]
fn check_of_a_directory_with_a_marker_reports_one_clean_repository() {
    let (repos, _, _) = drive(
        &["/tmp/one", "/tmp/one/.git"],
        vec![output("master\n"), output(""), output("")],
    );
    let lines = display_results(&repos);
    assert!(lines.contains(&"  Total repositories: 1".to_string()));
    assert!(lines.contains(&"  Clean: 1, Dirty: 0, Errors: 0".to_string()));
    assert_eq!(lines[4], "  ‚úÖ Clean one (master)");
}

#[test]
fn repository_without_a_directory_name_is_listed_as_unknown() {
    let repo = create_test_repo("x", GitStatus::Clean);
    let repo = GitRepo { path: ".".to_string(), ..repo };
    let lines = display_results(&vec![repo]);
    assert_eq!(lines[4], "  ‚úÖ Clean unknown (main)");
}

#[test]
fn counts_are_written_in_decimal() {
    let mut repos = Vec::new();
    for i in 0..12 {
        repos.push(create_test_repo(&format!("r{}", i), GitStatus::Dirty));
    }
    let lines = display_results(&repos);
    assert_eq!(lines[1], "  Total repositories: 12");
    assert_eq!(lines[2], "  Clean: 0, Dirty: 12, Errors: 0");
    assert_eq!(lines.len(), 16);
}

#[test]
fn a_walk_that_fails_at_its_root_gives_no_scan() {
    let walk = vec![WalkEvent::Error {
        depth: 0,
        message: "IO error for operation on /nowhere: No such file or directory (os error 2)"
            .to_string(),
    }];
    match scan_directory(&walk) {
        Err(message) => assert_eq!(
            message,
            "IO error for operation on /nowhere: No such file or directory (os error 2)"
        ),
        Ok(_) => panic!("expected no scan"),
    }
}

#[test]
fn a_walk_that_fails_below_its_root_is_scanned() {
    let walk = vec![
        WalkEvent::Entry { path: "/r".to_string(), is_dir: true },
        WalkEvent::Error { depth: 1, message: "Permission denied".to_string() },
        WalkEvent::Entry { path: "/r/a".to_string(), is_dir: true },
        WalkEvent::Entry { path: "/r/a/.git".to_string(), is_dir: true },
    ];
    let scan = scan_directory(&walk).expect("a scan");
    match scan.action() {
        ScanAction::Run { announce, program, args, dir } => {
            assert_eq!(announce.as_deref(), Some("  Scanning: /r/a"));
            assert_eq!(program, "git");
            assert_eq!(args, strings(&["rev-parse", "--abbrev-ref", "HEAD"]));
            assert_eq!(dir, "/r/a");
        }
        ScanAction::Finished => panic!("expected a question"),
    }
}

#[test]
fn a_refused_branch_query_gives_an_error_record() {
    let (repos, announced, asked) = drive(
        &["/w/a/.git", "/w/b/.git"],
        vec![
            refused("HEAD\n", "fatal: not a git repository (or any of the parent directories): .git\n"),
            output("main\n"),
            output(""),
            output(""),
        ],
    );
    assert_eq!(asked, 4);
    assert_eq!(announced.len(), 2);
    assert_eq!(repos.len(), 2);
    assert!(matches!(
        &repos[0].status,
        GitStatus::Error(m) if m == "fatal: not a git repository (or any of the parent directories): .git"
    ));
    assert_eq!(repos[0].path, "/w/a");
    assert_eq!(repos[0].branch, "unknown");
    assert!(!repos[0].uncommitted_changes);
    assert!(!repos[0].unpushed_commits);
    assert!(matches!(repos[1].status, GitStatus::Clean));
    assert_eq!(repos[1].branch, "main");
}

#[test]
fn a_refused_status_query_is_read_by_its_output() {
    let (repos, _, asked) = drive(
        &["/w/.git", "/v/.git"],
        vec![
            output("main\n"),
            refused(" M file\n", "warning"),
            output(""),
            output("main\n"),
            refused("", "warning"),
            output(""),
        ],
    );
    assert_eq!(asked, 6);
    assert!(matches!(repos[0].status, GitStatus::Dirty));
    assert!(repos[0].uncommitted_changes);
    assert!(matches!(repos[1].status, GitStatus::Clean));
    assert!(!repos[1].uncommitted_changes);
}

#[test]
fn a_refused_log_query_counts_as_nothing_unpushed() {
    let (repos, _, asked) = drive(
        &["/w/.git"],
        vec![
            output("main\n"),
            output(""),
            refused("abc stale\n", "fatal: ambiguous argument 'origin/main..HEAD'"),
        ],
    );
    assert_eq!(asked, 3);
    assert!(matches!(repos[0].status, GitStatus::Clean));
    assert!(!repos[0].unpushed_commits);
}

#[test]
fn a_file_named_like_the_marker_makes_no_repository() {
    let walk = vec![
        WalkEvent::Entry { path: "/w".to_string(), is_dir: true },
        WalkEvent::Entry { path: "/w/sub".to_string(), is_dir: true },
        WalkEvent::Entry { path: "/w/sub/.git".to_string(), is_dir: false },
    ];
    let scan = scan_directory(&walk).unwrap();
    assert!(scan.is_finished());
    assert_eq!(display_results(&scan.into_results()), vec!["  No git repositories found."]);
}

#[test]
fn no_root_is_scanned_twice() {
    let (repos, announced, _) = drive(
        &["/w/a/.git", "/w/a//.git", "/w/a/.git/", "/w/b/.git", "/w/a/./.git"],
        vec![output("x\n"), output(""), output(""), output("y\n"), output(""), output("")],
    );
    assert_eq!(announced, strings(&["  Scanning: /w/a", "  Scanning: /w/b"]));
    assert_eq!(repos.len(), 2);
    assert_eq!(repos[0].branch, "x");
    assert_eq!(repos[1].branch, "y");
}
