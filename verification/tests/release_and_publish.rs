use mycelia::publish::{
    build_targets, copy_entry_action, copy_source_check, cross_build_outcome, publish_target,
    release_items, release_selection_outcome, BuildStep, CopyAction, PublishError,
    PUBLISH_TARGET_COUNT,
};
use mycelia::release::{
    chosen_release_branch, release_candidates, release_plan, select_release_outcome, GitHubBranch,
    GitHubError,
};
use mycelia::xtask_release::{
    cargo_workspace_outcome, command_outcome, pull_request_args, release_title,
    releases_branch_name, ReleaseCommand, ReleaseError, ReleaseSwitchFlow, ReleaseSwitchStep,
};
use mycelia::version::SemVer;

fn v(major: u64, minor: u64, patch: u64) -> SemVer {
    SemVer { major, minor, patch, pre: String::new(), build: String::new() }
}

fn strings(items: &[&str]) -> Vec<String> {
    items.iter().map(|s| s.to_string()).collect()
}

#[test]
fn candidates_are_unreleased_release_branches() {
    let branches = strings(&["main", "release/1.0.0", "release/1.1.0", "feature/x", "release/1.2.0"]);
    let released = strings(&["release/1.0.0"]);
    assert_eq!(release_candidates(&branches, &released), strings(&["release/1.1.0", "release/1.2.0"]));
    assert_eq!(release_candidates(&branches, &strings(&[])), strings(&["release/1.0.0", "release/1.1.0", "release/1.2.0"]));
    assert!(release_candidates(&strings(&[]), &released).is_empty());
}

#[test]
fn choosing_a_release() {
    assert_eq!(select_release_outcome(Some(1)).unwrap(), 1);
    assert!(matches!(select_release_outcome(None), Err(GitHubError::DidNotSelectRc)));
    let branches = strings(&["main", "release/1"]);
    let candidates = release_candidates(&branches, &strings(&[]));
    assert_eq!(candidates, strings(&["release/1"]));
    assert_eq!(chosen_release_branch(&candidates, 0), "release/1");
    let candidates = strings(&["release/1.1.0", "release/1.2.0"]);
    assert_eq!(chosen_release_branch(&candidates, 1), "release/1.2.0");
    assert_eq!(GitHubBranch::new("release/1.1.0".to_string()).to_string(), "release/1.1.0");
}

#[test]
fn release_names() {
    let plan = release_plan("release/1.2.3");
    assert_eq!(plan.version, "1.2.3");
    assert_eq!(plan.tag_name, "v1.2.3");
    assert_eq!(plan.name, "Release 1.2.3");
    assert_eq!(plan.body, "Announcing v1.2.3!");
    let plan = release_plan("hotfix");
    assert_eq!(plan.tag_name, "vhotfix");
}

#[test]
fn publish_prompt() {
    let items = release_items(strings(&["v1.0.0", "v1.1.0"]));
    assert_eq!(items.len(), 2);
    assert_eq!(items[1].to_string(), "v1.1.0");
    assert_eq!(release_selection_outcome(Some(0)).unwrap(), 0);
    assert!(matches!(release_selection_outcome(None), Err(PublishError::DidNotSelectRelease)));
}

fn run_builds(codes: &[Option<i32>]) -> (Vec<String>, Result<(), PublishError>) {
    let (mut builds, mut step) = build_targets();
    let mut built = vec![];
    let mut i = 0;
    loop {
        match step {
            BuildStep::CrossBuild(target) => {
                built.push(target);
                step = builds.on_exit(codes[i]);
                i += 1;
            }
            BuildStep::Done(r) => return (built, r),
        }
    }
}

#[test]
fn cross_building_targets() {
    let (built, r) = run_builds(&[Some(0), None, Some(0), Some(0)]);
    assert!(r.is_ok());
    assert_eq!(built, strings(&["x86_64-unknown-linux-gnu", "x86_64-pc-windows-gnu", "x86_64-apple-darwin", "aarch64-apple-darwin"]));
    let (built, r) = run_builds(&[Some(0), Some(101)]);
    assert_eq!(built.len(), 2);
    assert!(matches!(r, Err(PublishError::BuildTarget { target, status: 101 }) if target == "x86_64-pc-windows-gnu"));
    assert_eq!(PUBLISH_TARGET_COUNT, 4);
    assert_eq!(publish_target(3), "aarch64-apple-darwin");
    assert!(cross_build_outcome("t", None).is_ok());
}

#[test]
fn copying_directories() {
    assert!(copy_source_check("/npm", true).is_ok());
    assert!(matches!(copy_source_check("/missing", false), Err(PublishError::SourceNonExistent { src }) if src == "/missing"));
    assert!(matches!(copy_entry_action("/npm/lib", "lib", true, "/dist"),
        CopyAction::CopyDir { src, dest } if src == "/npm/lib" && dest == "/dist/lib"));
    assert!(matches!(copy_entry_action("/npm/package.json", "package.json", false, "/dist/"),
        CopyAction::CopyFile { src, dest } if src == "/npm/package.json" && dest == "/dist/package.json"));
}

#[test]
fn xtask_release_commands() {
    assert!(cargo_workspace_outcome(Some(0)).is_ok());
    assert!(matches!(cargo_workspace_outcome(Some(4)), Err(ReleaseError::CargoWorkspace { status: 4 })));
    assert!(command_outcome(ReleaseCommand::Commit, v(1, 0, 0), None).is_ok());
    assert!(matches!(command_outcome(ReleaseCommand::CreateBranch, v(1, 0, 0), Some(1)), Err(ReleaseError::GitCreateBranch { status: 1, .. })));
    assert!(matches!(command_outcome(ReleaseCommand::AddAll, v(1, 0, 0), Some(2)), Err(ReleaseError::GitAddAll { status: 2, .. })));
    assert!(matches!(command_outcome(ReleaseCommand::Commit, v(1, 0, 0), Some(3)), Err(ReleaseError::GitCommit { status: 3, .. })));
    assert!(matches!(command_outcome(ReleaseCommand::PushBranch, v(1, 0, 0), Some(4)), Err(ReleaseError::GitPushBranch { status: 4, .. })));
    assert!(matches!(command_outcome(ReleaseCommand::CreatePullRequest, v(1, 0, 0), Some(5)), Err(ReleaseError::GitHubCreatePullRequest { status: 5, .. })));
    assert!(matches!(command_outcome(ReleaseCommand::CreateRelease, v(2, 0, 0), Some(6)),
        Err(ReleaseError::GitHubReleaseCreate { tag, status: 6 }) if tag.to_text() == "2.0.0"));
    assert_eq!(releases_branch_name(&v(1, 2, 3)), "releases/1.2.3");
    assert_eq!(release_title(&v(1, 2, 3)), "Release 1.2.3");
    assert_eq!(pull_request_args(&v(1, 2, 3)), strings(&["pr", "create", "--fill", "--assignee", "@me", "--base", "releases/1.2.3", "--title", "Release 1.2.3"]));
}

fn release_switch(switch_back: bool, codes: &[Option<i32>]) -> (Vec<String>, Result<(), ReleaseError>) {
    let (mut flow, mut step) = ReleaseSwitchFlow::start(v(1, 2, 3), switch_back);
    let mut args = vec![];
    let mut i = 0;
    loop {
        match step {
            ReleaseSwitchStep::Switch(arg) => {
                args.push(arg);
                step = flow.on_exit(codes[i]);
                i += 1;
            }
            ReleaseSwitchStep::Done(r) => return (args, r),
        }
    }
}

#[test]
fn xtask_release_switch() {
    let (args, r) = release_switch(false, &[Some(0)]);
    assert_eq!(args, strings(&["releases/1.2.3"]));
    assert!(r.is_ok());
    let (args, r) = release_switch(false, &[Some(128), Some(0)]);
    assert_eq!(args, strings(&["releases/1.2.3", "-"]));
    assert!(matches!(r, Err(ReleaseError::GitSwitchBranch { status: 128, .. })));
    let (_, r) = release_switch(false, &[Some(2)]);
    assert!(matches!(r, Err(ReleaseError::GitSwitchBranch { tag, status: 2 }) if tag.to_text() == "1.2.3"));
    let (args, r) = release_switch(false, &[Some(128), Some(7)]);
    assert_eq!(args, strings(&["releases/1.2.3", "-"]));
    assert!(matches!(r, Err(ReleaseError::GitSwitchBranch { status: 7, .. })));
}

#[test]
fn xtask_release_switch_back() {
    let (args, r) = release_switch(true, &[Some(0)]);
    assert_eq!(args, strings(&["-"]));
    assert!(r.is_ok());
    let (_, r) = release_switch(true, &[None]);
    assert!(r.is_ok());
    let (_, r) = release_switch(true, &[Some(3)]);
    assert!(matches!(r, Err(ReleaseError::GitSwitchBranch { status: 3, .. })));
}
