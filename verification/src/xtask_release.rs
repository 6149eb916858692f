//! The release task of the build tool: how it reads each git, cargo and
//! GitHub command it runs, and the names it gives to the release branch,
//! commit and pull request.
use vstd::prelude::*;
use crate::command::exit_failure;
use crate::version::{SemVer, version_text};

verus! {

/// Errors of the release task; each names the version being released and
/// the exit status of the failed command.
#[derive(Debug)]
pub enum ReleaseError {
    CargoWorkspace { status: i32 },
    GitCreateBranch { tag: SemVer, status: i32 },
    GitSwitchBranch { tag: SemVer, status: i32 },
    GitAddAll { tag: SemVer, status: i32 },
    GitCommit { tag: SemVer, status: i32 },
    GitPushBranch { tag: SemVer, status: i32 },
    GitHubCreatePullRequest { tag: SemVer, status: i32 },
    GitHubReleaseCreate { tag: SemVer, status: i32 },
}

/// The commands of the release task that fail with their version.
#[derive(Debug)]
pub enum ReleaseCommand {
    /// `git branch releases/<tag>`
    CreateBranch,
    /// `git add .`
    AddAll,
    /// `git commit -m "Release <tag>"`
    Commit,
    /// `git push -u origin releases/<tag>`
    PushBranch,
    /// `gh pr create ...`
    CreatePullRequest,
    /// `gh release create ...`
    CreateRelease,
}

/// Whether `e` is the error of `command` for `tag` with `status`.
pub open spec fn is_command_error(
    e: ReleaseError,
    command: ReleaseCommand,
    tag: SemVer,
    status: i32,
) -> bool {
    match command {
        ReleaseCommand::CreateBranch => e matches ReleaseError::GitCreateBranch { tag: t, status: s }
            && t@ == tag@ && s == status,
        ReleaseCommand::AddAll => e matches ReleaseError::GitAddAll { tag: t, status: s } && t@
            == tag@ && s == status,
        ReleaseCommand::Commit => e matches ReleaseError::GitCommit { tag: t, status: s } && t@
            == tag@ && s == status,
        ReleaseCommand::PushBranch => e matches ReleaseError::GitPushBranch { tag: t, status: s }
            && t@ == tag@ && s == status,
        ReleaseCommand::CreatePullRequest => e matches ReleaseError::GitHubCreatePullRequest {
            tag: t,
            status: s,
        } && t@ == tag@ && s == status,
        ReleaseCommand::CreateRelease => e matches ReleaseError::GitHubReleaseCreate {
            tag: t,
            status: s,
        } && t@ == tag@ && s == status,
    }
}

/// Reads the exit code of `cargo workspaces version`.
pub fn cargo_workspace_outcome(code: Option<i32>) -> (r: Result<(), ReleaseError>)
    ensures
        match exit_failure(code) {
            None => r is Ok,
            Some(s) => r matches Err(ReleaseError::CargoWorkspace { status }) && status == s,
        },
{
    match code {
        Some(status) => if status == 0 {
            Ok(())
        } else {
            Err(ReleaseError::CargoWorkspace { status })
        },
        None => Ok(()),
    }
}

/// Reads the exit code of `command`, run for the release of `tag`.
pub fn command_outcome(command: ReleaseCommand, tag: SemVer, code: Option<i32>) -> (r: Result<
    (),
    ReleaseError,
>)
    ensures
        match exit_failure(code) {
            None => r is Ok,
            Some(s) => r matches Err(e) && is_command_error(e, command, tag, s),
        },
{
    let status = match code {
        Some(status) => status,
        None => 0,
    };
    if status == 0 {
        return Ok(());
    }
    match command {
        ReleaseCommand::CreateBranch => Err(ReleaseError::GitCreateBranch { tag, status }),
        ReleaseCommand::AddAll => Err(ReleaseError::GitAddAll { tag, status }),
        ReleaseCommand::Commit => Err(ReleaseError::GitCommit { tag, status }),
        ReleaseCommand::PushBranch => Err(ReleaseError::GitPushBranch { tag, status }),
        ReleaseCommand::CreatePullRequest => Err(
            ReleaseError::GitHubCreatePullRequest { tag, status },
        ),
        ReleaseCommand::CreateRelease => Err(ReleaseError::GitHubReleaseCreate { tag, status }),
    }
}

/// The release branch of `tag`: `releases/<tag>`.
pub open spec fn releases_branch_text(tag: SemVer) -> Seq<char> {
    "releases/"@ + version_text(tag@)
}

/// The title of the release of `tag`, also its commit message: `Release <tag>`.
pub open spec fn release_title_text(tag: SemVer) -> Seq<char> {
    "Release "@ + version_text(tag@)
}

/// `releases/<tag>`.
pub fn releases_branch_name(tag: &SemVer) -> (r: String)
    ensures
        r@ == releases_branch_text(*tag),
{
    let mut s = String::from_str("releases/");
    tag.push_text(&mut s);
    s
}

/// `Release <tag>`.
pub fn release_title(tag: &SemVer) -> (r: String)
    ensures
        r@ == release_title_text(*tag),
{
    let mut s = String::from_str("Release ");
    tag.push_text(&mut s);
    s
}

/// The arguments of `gh` that open the pull request of the release of
/// `tag`.
pub fn pull_request_args(tag: &SemVer) -> (r: Vec<String>)
    ensures
        r@.len() == 9,
        r@[0]@ == "pr"@,
        r@[1]@ == "create"@,
        r@[2]@ == "--fill"@,
        r@[3]@ == "--assignee"@,
        r@[4]@ == "@me"@,
        r@[5]@ == "--base"@,
        r@[6]@ == releases_branch_text(*tag),
        r@[7]@ == "--title"@,
        r@[8]@ == release_title_text(*tag),
{
    let mut r: Vec<String> = Vec::new();
    r.push(String::from_str("pr"));
    r.push(String::from_str("create"));
    r.push(String::from_str("--fill"));
    r.push(String::from_str("--assignee"));
    r.push(String::from_str("@me"));
    r.push(String::from_str("--base"));
    r.push(releases_branch_name(tag));
    r.push(String::from_str("--title"));
    r.push(release_title(tag));
    r
}

/// What switching the release branch asks for next.
#[derive(Debug)]
pub enum ReleaseSwitchStep {
    /// Run `git switch <argument>` and report its exit code.
    Switch(String),
    /// The switch is over, with this result.
    Done(Result<(), ReleaseError>),
}

/// How far a release-branch switch has gone.
#[derive(Debug)]
pub enum ReleaseSwitchStage {
    /// The requested switch is running.
    Requested,
    /// The requested switch failed with status 128; switching back once.
    SwitchingBack,
    /// The switch is over.
    Finished,
}

/// A `git switch` to the release branch of `tag` (or back to the previous
/// branch). A failure is reported with the status git exited with; when
/// that status is 128, the flow first switches back once, and a failure of
/// that switch is reported in its place.
#[derive(Debug)]
pub struct ReleaseSwitchFlow {
    pub tag: SemVer,
    /// Whether the caller asked to switch back to the previous branch.
    pub switch_back: bool,
    pub stage: ReleaseSwitchStage,
}

/// Whether a step ends the switch with the error for `tag` and `status`.
pub open spec fn is_release_switch_failure(step: ReleaseSwitchStep, tag: SemVer, status: i32) -> bool {
    step matches ReleaseSwitchStep::Done(Err(ReleaseError::GitSwitchBranch { tag: t, status: s }))
        && t@ == tag@ && s == status
}

impl ReleaseSwitchFlow {
    /// Begins switching to the release branch of `tag`, or back to the
    /// previous branch when `switch_back` holds.
    pub fn start(tag: SemVer, switch_back: bool) -> (r: (ReleaseSwitchFlow, ReleaseSwitchStep))
        ensures
            r.0.tag@ == tag@,
            r.0.switch_back == switch_back,
            r.0.stage is Requested,
            r.1 matches ReleaseSwitchStep::Switch(arg) && arg@ == if switch_back {
                "-"@
            } else {
                releases_branch_text(tag)
            },
    {
        let arg = if switch_back {
            String::from_str("-")
        } else {
            releases_branch_name(&tag)
        };
        (
            ReleaseSwitchFlow { tag, switch_back, stage: ReleaseSwitchStage::Requested },
            ReleaseSwitchStep::Switch(arg),
        )
    }

    /// Reads the exit code of the last `git switch` and says what comes next.
    pub fn on_exit(&mut self, code: Option<i32>) -> (step: ReleaseSwitchStep)
        requires
            !(old(self).stage is Finished),
        ensures
            final(self).tag@ == old(self).tag@,
            final(self).switch_back == old(self).switch_back,
            step is Done <==> final(self).stage is Finished,
            old(self).stage is Requested ==> match exit_failure(code) {
                None => step matches ReleaseSwitchStep::Done(Ok(())),
                Some(s) => if s == 128 {
                    &&& step matches ReleaseSwitchStep::Switch(arg)
                    &&& arg@ == "-"@
                    &&& final(self).stage is SwitchingBack
                } else {
                    is_release_switch_failure(step, old(self).tag, s)
                },
            },
            old(self).stage is SwitchingBack ==> match exit_failure(code) {
                None => is_release_switch_failure(step, old(self).tag, 128),
                Some(t) => is_release_switch_failure(step, old(self).tag, t),
            },
    {
        let status: i32 = match code {
            Some(status) => status,
            None => 0,
        };
        match self.stage {
            ReleaseSwitchStage::Requested => {
                if status == 0 {
                    self.stage = ReleaseSwitchStage::Finished;
                    ReleaseSwitchStep::Done(Ok(()))
                } else if status == 128 {
                    self.stage = ReleaseSwitchStage::SwitchingBack;
                    ReleaseSwitchStep::Switch(String::from_str("-"))
                } else {
                    self.stage = ReleaseSwitchStage::Finished;
                    ReleaseSwitchStep::Done(
                        Err(ReleaseError::GitSwitchBranch { tag: self.tag.duplicate(), status }),
                    )
                }
            },
            _ => {
                self.stage = ReleaseSwitchStage::Finished;
                let reported: i32 = if status == 0 {
                    128
                } else {
                    status
                };
                ReleaseSwitchStep::Done(
                    Err(ReleaseError::GitSwitchBranch { tag: self.tag.duplicate(), status: reported }),
                )
            },
        }
    }
}

} // verus!
