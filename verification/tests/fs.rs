use devhealth::utils::fs::{
    file_name, find_git_repositories, join, parent, walked_paths, WalkEvent,
};
use std::collections::HashSet;

fn dir(path: &str) -> WalkEvent {
    WalkEvent::Entry { path: path.to_string(), is_dir: true }
}

fn other(path: &str) -> WalkEvent {
    WalkEvent::Entry { path: path.to_string(), is_dir: false }
}

/// A walk that met the directories `paths`.
fn walk_of(paths: &[&str]) -> Vec<WalkEvent> {
    paths.iter().map(|p| dir(p)).collect()
}

/// The paths that a walk of a tree with a repository at `name` meets there.
fn create_git_repo_in(parent: &str, name: &str, walk: &mut Vec<WalkEvent>) -> String {
    let repo_path = join(parent, name);
    walk.push(dir(&repo_path));
    walk.push(dir(&join(&repo_path, ".git")));
    repo_path
}

#[test]
fn finds_no_repositories_in_empty_directory() {
    let repos = find_git_repositories(&walk_of(&["/tmp/t"])).expect("Function should succeed");
    assert!(repos.is_empty(), "Should find no repositories in empty directory");
}

#[test]
fn finds_single_git_repository() {
    let repos =
        find_git_repositories(&walk_of(&["/tmp/t", "/tmp/t/.git"])).expect("Function should succeed");

    assert_eq!(repos.len(), 1, "Should find exactly one repository");
    assert_eq!(repos[0], "/tmp/t", "Found repository should be the temp directory");
}

#[test]
fn fs_finds_multiple_nested_repositories() {
    let mut walk = walk_of(&["/tmp/t"]);
    let project1 = create_git_repo_in("/tmp/t", "project1", &mut walk);
    walk.push(dir("/tmp/t/nested"));
    let project2 = create_git_repo_in("/tmp/t", "nested/project2", &mut walk);
    walk.push(dir("/tmp/t/deep"));
    walk.push(dir("/tmp/t/deep/nested"));
    let project3 = create_git_repo_in("/tmp/t", "deep/nested/project3", &mut walk);

    let repos = find_git_repositories(&walk).expect("Function should succeed");

    assert_eq!(repos.len(), 3, "Should find exactly three repositories");

    // Convert to a set for order-independent comparison
    let found_repos: HashSet<_> = repos.into_iter().collect();
    let expected_repos: HashSet<_> = [project1, project2, project3].into_iter().collect();

    assert_eq!(found_repos, expected_repos, "Should find all created repositories");
}

#[test]
fn ignores_directories_that_are_not_git_repositories() {
    let mut walk = walk_of(&[
        "/tmp/t",
        "/tmp/t/not-a-repo",
        "/tmp/t/also-not-a-repo",
        "/tmp/t/also-not-a-repo/subdir",
    ]);
    create_git_repo_in("/tmp/t", "actual-repo", &mut walk);

    let repos = find_git_repositories(&walk).expect("Function should succeed");

    assert_eq!(repos.len(), 1, "Should only find the actual git repository");
    assert_eq!(
        file_name(&repos[0]).as_deref(),
        Some("actual-repo"),
        "Should find the correct repository"
    );
}

#[test]
fn handles_symlinks_correctly() {
    // A walk that follows no link meets the link itself and nothing below it.
    let mut walk = walk_of(&["/tmp/t"]);
    let git_repo = create_git_repo_in("/tmp/t", "real-repo", &mut walk);
    walk.push(other("/tmp/t/symlink-repo"));

    let repos = find_git_repositories(&walk).expect("Function should succeed");

    assert_eq!(repos.len(), 1, "Should find only the real repository, not the symlink");
    assert_eq!(repos[0], git_repo, "Should find the original repository");
}

#[test]
fn roots_come_in_the_order_of_the_walk() {
    let walk = walk_of(&["r", "r/b", "r/b/.git", "r/a", "r/a/.git", "r/a/.git/config", "r/.git"]);
    assert_eq!(find_git_repositories(&walk).unwrap(), vec!["r/b", "r/a", "r"]);
}

#[test]
fn only_the_marker_name_counts() {
    let walk = walk_of(&["r/.gitignore", "r/x.git", "r/.git2", "r/git", "r/.GIT", "r/.git/"]);
    assert_eq!(find_git_repositories(&walk).unwrap(), vec!["r"]);
}

#[test]
fn what_could_not_be_read_below_the_root_is_passed_over() {
    let walk = vec![
        dir("r"),
        WalkEvent::Error { depth: 1, message: "denied".to_string() },
        dir("r/a"),
        WalkEvent::Error { depth: 2, message: "denied".to_string() },
        dir("r/a/.git"),
    ];
    assert_eq!(walked_paths(&walk), vec!["r", "r/a", "r/a/.git"]);
    assert_eq!(find_git_repositories(&walk).unwrap(), vec!["r/a"]);
}

#[test]
fn a_root_that_could_not_be_read_fails_the_search() {
    let walk = vec![
        WalkEvent::Error { depth: 1, message: "below".to_string() },
        WalkEvent::Error { depth: 0, message: "first".to_string() },
        dir("r/.git"),
        WalkEvent::Error { depth: 0, message: "second".to_string() },
    ];
    assert_eq!(find_git_repositories(&walk), Err("first".to_string()));
    assert_eq!(walked_paths(&walk), vec!["r/.git"]);
}

#[test]
fn the_name_is_the_last_segment() {
    assert_eq!(file_name("/a/b/c").as_deref(), Some("c"));
    assert_eq!(file_name("c").as_deref(), Some("c"));
    assert_eq!(file_name("/a/b/c/").as_deref(), Some("c"));
    assert_eq!(file_name("a//b//").as_deref(), Some("b"));
    assert_eq!(file_name("\u{e9}t\u{e9}/\u{fc}ber").as_deref(), Some("\u{fc}ber"));
    assert_eq!(file_name("/"), None);
    assert_eq!(file_name(""), None);
    assert_eq!(file_name("."), None);
    assert_eq!(file_name(".."), None);
    assert_eq!(file_name("a/.."), None);
    assert_eq!(file_name("repo/.").as_deref(), Some("repo"));
    assert_eq!(file_name("repo/./").as_deref(), Some("repo"));
    assert_eq!(file_name("a/b/././/").as_deref(), Some("b"));
    assert_eq!(file_name("./."), None);
    assert_eq!(file_name("/."), None);
    assert_eq!(file_name("./"), None);
    assert_eq!(file_name("a/.b").as_deref(), Some(".b"));
    assert_eq!(file_name("a/b.").as_deref(), Some("b."));
    assert_eq!(file_name("..."), Some("...".to_string()));
}

#[test]
fn the_parent_is_the_path_without_its_last_segment() {
    assert_eq!(parent("/a/b/c").as_deref(), Some("/a/b"));
    assert_eq!(parent("/a/b/c/").as_deref(), Some("/a/b"));
    assert_eq!(parent("a//b").as_deref(), Some("a"));
    assert_eq!(parent("/a").as_deref(), Some("/"));
    assert_eq!(parent("//a").as_deref(), Some("/"));
    assert_eq!(parent("a").as_deref(), Some(""));
    assert_eq!(parent("./.git").as_deref(), Some("."));
    assert_eq!(parent("a/..").as_deref(), Some("a"));
    assert_eq!(parent("a/b/.").as_deref(), Some("a"));
    assert_eq!(parent("a/./b").as_deref(), Some("a"));
    assert_eq!(parent("repo/.").as_deref(), Some(""));
    assert_eq!(parent("repo/./.git").as_deref(), Some("repo"));
    assert_eq!(parent("/."), None);
    assert_eq!(parent("/"), None);
    assert_eq!(parent(""), None);
}

#[test]
fn joining_puts_one_separator_between_directory_and_name() {
    assert_eq!(join("/a", "b"), "/a/b");
    assert_eq!(join("/a/", "b"), "/a/b");
    assert_eq!(join("/", "b"), "/b");
    assert_eq!(join("", "b"), "b");
    assert_eq!(join(".", "Cargo.toml"), "./Cargo.toml");
}

#[test]
fn only_a_folder_marks_a_repository() {
    let walk = vec![
        dir("r"),
        dir("r/a"),
        other("r/a/.git"),
        dir("r/b"),
        dir("r/b/.git"),
        other("r/b/.git/config"),
        dir("r/c"),
        other("r/c/.git"),
    ];
    assert_eq!(find_git_repositories(&walk).unwrap(), vec!["r/b"]);
    assert_eq!(walked_paths(&walk).len(), 8);
}

#[test]
fn a_root_is_given_once() {
    let walk = walk_of(&["a/.git", "b/.git", "a//.git", "a/.git/", "b/./.git", "c/.git", "a/.git"]);
    assert_eq!(find_git_repositories(&walk).unwrap(), vec!["a", "b", "c"]);
}
