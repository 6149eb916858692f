//! Release-candidate tooling: how each step of cutting a release candidate
//! reads what git, cargo and GitHub answered, and the names it gives to
//! branches, commits and pull requests.
use vstd::prelude::*;
use crate::command::exit_failure;
use crate::text::{contains_text, occurs_in, replace_all, replace_text};
use crate::version::{SemVer, version_text};

verus! {

/// A branch to switch to: the one checked out before (`git switch -`), or a
/// named one.
#[derive(Debug)]
pub enum Branch<'a> {
    Back,
    Name(&'a String),
}

impl<'a> Branch<'a> {
    /// The argument that names this branch to `git switch`.
    pub open spec fn text(&self) -> Seq<char> {
        match self {
            Branch::Back => "-"@,
            Branch::Name(s) => s@,
        }
    }

    /// The argument that names this branch to `git switch`: `-` for the
    /// previous branch, else the branch's name.
    pub fn to_string(&self) -> (r: String)
        ensures
            r@ == self.text(),
    {
        match self {
            Branch::Back => String::from_str("-"),
            Branch::Name(s) => (*s).clone(),
        }
    }
}

/// Errors of the workspace steps of a release candidate.
#[derive(Debug)]
pub enum WorkspaceError {
    /// The version after the bump is the one before it.
    DidNotUpdateVersion { tag: SemVer },
    /// `cargo workspaces version` exited with this status.
    CargoWorkspace { status: i32 },
}

/// Reads the result of `cargo workspaces version`: the bump must have changed
/// the version, and the command must not have failed.
pub fn bump_outcome(pre_bump_tag: &SemVer, post_bump_tag: SemVer, code: Option<i32>) -> (r: Result<
    (),
    WorkspaceError,
>)
    ensures
        pre_bump_tag@ == post_bump_tag@ ==> (r matches Err(WorkspaceError::DidNotUpdateVersion {
            tag,
        }) && tag@ == post_bump_tag@),
        pre_bump_tag@ != post_bump_tag@ ==> match exit_failure(code) {
            None => r is Ok,
            Some(s) => r matches Err(WorkspaceError::CargoWorkspace { status }) && status == s,
        },
{
    if pre_bump_tag.same_as(&post_bump_tag) {
        return Err(WorkspaceError::DidNotUpdateVersion { tag: post_bump_tag });
    }
    match code {
        Some(status) => if status == 0 {
            Ok(())
        } else {
            Err(WorkspaceError::CargoWorkspace { status })
        },
        None => Ok(()),
    }
}

/// Errors of the git steps of a release candidate.
#[derive(Debug)]
pub enum GitError {
    /// `git status` did not report a clean working tree; its output.
    Status { output: String },
    CreateBranch { branch_name: String, status: i32 },
    SwitchBranch { branch_name: String, status: i32 },
    AddAll { tag: SemVer, status: i32 },
    Commit { tag: SemVer, status: i32 },
    PushBranch { branch_name: String, status: i32 },
    CheckoutBranch { branch_name: String, orphan: String, status: i32 },
}

/// The line that `git status` prints for a clean working tree.
pub open spec fn clean_tree_marker() -> Seq<char> {
    "nothing to commit, working tree clean"@
}

/// Reads the output of `git status`: the working tree must be clean.
pub fn status_outcome(output: String) -> (r: Result<(), GitError>)
    ensures
        occurs_in(output@, clean_tree_marker()) ==> r is Ok,
        !occurs_in(output@, clean_tree_marker()) ==> (r matches Err(GitError::Status { output: o })
            && o@ == output@),
{
    if contains_text(output.as_str(), "nothing to commit, working tree clean") {
        Ok(())
    } else {
        Err(GitError::Status { output })
    }
}

/// Reads the exit code of `git checkout -b <branch_name> <orphan>`.
pub fn checkout_outcome(branch_name: String, orphan: String, code: Option<i32>) -> (r: Result<
    (),
    GitError,
>)
    ensures
        match exit_failure(code) {
            None => r is Ok,
            Some(s) => r matches Err(GitError::CheckoutBranch { branch_name: b, orphan: o, status })
                && b@ == branch_name@ && o@ == orphan@ && status == s,
        },
{
    match code {
        Some(status) => if status == 0 {
            Ok(())
        } else {
            Err(GitError::CheckoutBranch { branch_name, orphan, status })
        },
        None => Ok(()),
    }
}

/// Reads the exit code of `git branch <branch_name>`.
pub fn create_branch_outcome(branch_name: String, code: Option<i32>) -> (r: Result<(), GitError>)
    ensures
        match exit_failure(code) {
            None => r is Ok,
            Some(s) => r matches Err(GitError::CreateBranch { branch_name: b, status })
                && b@ == branch_name@ && status == s,
        },
{
    match code {
        Some(status) => if status == 0 {
            Ok(())
        } else {
            Err(GitError::CreateBranch { branch_name, status })
        },
        None => Ok(()),
    }
}

/// Reads the exit code of `git add .` for the release candidate `tag`.
pub fn add_all_outcome(tag: SemVer, code: Option<i32>) -> (r: Result<(), GitError>)
    ensures
        match exit_failure(code) {
            None => r is Ok,
            Some(s) => r matches Err(GitError::AddAll { tag: t, status }) && t@ == tag@ && status
                == s,
        },
{
    match code {
        Some(status) => if status == 0 {
            Ok(())
        } else {
            Err(GitError::AddAll { tag, status })
        },
        None => Ok(()),
    }
}

/// Reads the exit code of `git commit` for the release candidate `tag`.
pub fn commit_outcome(tag: SemVer, code: Option<i32>) -> (r: Result<(), GitError>)
    ensures
        match exit_failure(code) {
            None => r is Ok,
            Some(s) => r matches Err(GitError::Commit { tag: t, status }) && t@ == tag@ && status
                == s,
        },
{
    match code {
        Some(status) => if status == 0 {
            Ok(())
        } else {
            Err(GitError::Commit { tag, status })
        },
        None => Ok(()),
    }
}

/// The status with which git refuses to switch to or push a branch that
/// already exists.
pub const BRANCH_ALREADY_EXISTS: i32 = 128;

/// What a multi-step git operation asks for next.
#[derive(Debug)]
pub enum GitStep {
    /// Run `git switch <argument>` and report its exit code.
    Switch(String),
    /// The operation is over, with this result.
    Done(Result<(), GitError>),
}

/// How far a branch switch has gone.
#[derive(Debug)]
pub enum SwitchStage {
    /// The requested branch is being switched to.
    Requested,
    /// The requested switch failed with status 128; switching back once.
    SwitchingBack,
    /// The switch is over.
    Finished,
}

/// A `git switch` to a branch. A failure is reported with the status git
/// exited with; when that status is 128, the flow first switches back to
/// the previous branch once, and a failure of that switch is reported in
/// its place.
#[derive(Debug)]
pub struct SwitchBranchFlow {
    pub branch_name: String,
    pub stage: SwitchStage,
}

/// Whether a step ends a switch with a `SwitchBranch` error that names
/// `branch_name` and `status`.
pub open spec fn is_switch_failure(step: GitStep, branch_name: Seq<char>, status: i32) -> bool {
    step matches GitStep::Done(Err(GitError::SwitchBranch { branch_name: b, status: s }))
        && b@ == branch_name && s == status
}

/// Whether a step asks to switch back to the previous branch.
pub open spec fn is_switch_back(step: GitStep) -> bool {
    step matches GitStep::Switch(arg) && arg@ == "-"@
}

impl SwitchBranchFlow {
    /// Begins switching to `branch`; the flow asks first for `git switch`
    /// with the branch's argument.
    pub fn start(branch: &Branch) -> (r: (SwitchBranchFlow, GitStep))
        ensures
            r.0.stage is Requested,
            r.0.branch_name@ == branch.text(),
            r.1 matches GitStep::Switch(arg) && arg@ == branch.text(),
    {
        let name = branch.to_string();
        let arg = branch.to_string();
        (SwitchBranchFlow { branch_name: name, stage: SwitchStage::Requested }, GitStep::Switch(arg))
    }

    /// Reads the exit code of the last `git switch` and says what comes next.
    pub fn on_exit(&mut self, code: Option<i32>) -> (step: GitStep)
        requires
            !(old(self).stage is Finished),
        ensures
            final(self).branch_name@ == old(self).branch_name@,
            step is Done <==> final(self).stage is Finished,
            old(self).stage is Requested ==> match exit_failure(code) {
                None => step matches GitStep::Done(Ok(())),
                Some(s) => if s == BRANCH_ALREADY_EXISTS {
                    is_switch_back(step) && final(self).stage is SwitchingBack
                } else {
                    is_switch_failure(step, old(self).branch_name@, s)
                },
            },
            old(self).stage is SwitchingBack ==> match exit_failure(code) {
                None => is_switch_failure(step, old(self).branch_name@, BRANCH_ALREADY_EXISTS),
                Some(t) => is_switch_failure(step, "-"@, t),
            },
    {
        let status: i32 = match code {
            Some(status) => status,
            None => 0,
        };
        match self.stage {
            SwitchStage::Requested => {
                if status == 0 {
                    self.stage = SwitchStage::Finished;
                    GitStep::Done(Ok(()))
                } else if status == BRANCH_ALREADY_EXISTS {
                    self.stage = SwitchStage::SwitchingBack;
                    GitStep::Switch(String::from_str("-"))
                } else {
                    self.stage = SwitchStage::Finished;
                    GitStep::Done(
                        Err(GitError::SwitchBranch { branch_name: self.branch_name.clone(), status }),
                    )
                }
            },
            _ => {
                self.stage = SwitchStage::Finished;
                if status == 0 {
                    GitStep::Done(
                        Err(
                            GitError::SwitchBranch {
                                branch_name: self.branch_name.clone(),
                                status: BRANCH_ALREADY_EXISTS,
                            },
                        ),
                    )
                } else {
                    GitStep::Done(
                        Err(GitError::SwitchBranch { branch_name: String::from_str("-"), status }),
                    )
                }
            },
        }
    }
}

/// What comes after `git push -u origin <branch>`.
#[derive(Debug)]
pub enum PushOutcome {
    /// The push is over, with this result.
    Finished(Result<(), GitError>),
    /// Switch back to the previous branch first; unless that switch fails,
    /// the push then fails with this error.
    SwitchBackThen(GitError),
}

/// Reads the exit code of `git push -u origin <branch_name>`.
pub fn push_outcome(branch_name: String, code: Option<i32>) -> (r: PushOutcome)
    ensures
        match exit_failure(code) {
            None => r matches PushOutcome::Finished(Ok(())),
            Some(s) => if s == BRANCH_ALREADY_EXISTS {
                r matches PushOutcome::SwitchBackThen(GitError::PushBranch { branch_name: b, status })
                    && b@ == branch_name@ && status == s
            } else {
                r matches PushOutcome::Finished(Err(GitError::PushBranch { branch_name: b, status }))
                    && b@ == branch_name@ && status == s
            },
        },
{
    match code {
        Some(status) => if status == 0 {
            PushOutcome::Finished(Ok(()))
        } else if status == BRANCH_ALREADY_EXISTS {
            PushOutcome::SwitchBackThen(GitError::PushBranch { branch_name, status })
        } else {
            PushOutcome::Finished(Err(GitError::PushBranch { branch_name, status }))
        },
        None => PushOutcome::Finished(Ok(())),
    }
}

/// Errors of the GitHub steps of a release candidate. The errors that the
/// GitHub client reported are kept as their messages.
#[derive(Debug)]
pub enum GitHubError {
    EnvTokenNotFound,
    EnvTokenInvalid,
    CouldNotGetRef { error: String },
    ShaNotFound,
    CreateRef { error: String },
    OctocrabTokenBuild { error: String },
    CreatePullRequest { head: String, base: String, error: String },
}

/// The object that a git reference points at.
#[derive(Debug)]
pub enum GitObject {
    Commit { sha: String },
    Tag { sha: String },
    /// An object of a kind that GitHub may add later.
    Other,
}

/// A git reference as GitHub reports it.
#[derive(Debug)]
pub struct GitRef {
    pub ref_field: String,
    pub object: GitObject,
}

/// The commit that a reference points at; a reference to anything but a
/// commit has none.
pub fn sha_from_ref(git_ref: GitRef) -> (r: Result<String, GitHubError>)
    ensures
        match git_ref.object {
            GitObject::Commit { sha } => r matches Ok(s) && s@ == sha@,
            _ => r matches Err(GitHubError::ShaNotFound),
        },
{
    match git_ref.object {
        GitObject::Commit { sha } => Ok(sha),
        _ => Err(GitHubError::ShaNotFound),
    }
}

/// The GitHub token from the value of the `GITHUB_TOKEN` environment
/// variable (`None` where it is not set or not unicode).
pub fn env_token(value: Option<String>) -> (r: Result<String, GitHubError>)
    ensures
        match value {
            Some(v) => r matches Ok(t) && t@ == v@,
            None => r matches Err(GitHubError::EnvTokenNotFound),
        },
{
    match value {
        Some(token) => Ok(token),
        None => Err(GitHubError::EnvTokenNotFound),
    }
}

/// The login of the token's owner, from GitHub's answer to the lookup of the
/// current user (`None` where the lookup failed).
pub fn username_outcome(login: Option<String>) -> (r: Result<String, GitHubError>)
    ensures
        match login {
            Some(l) => r matches Ok(u) && u@ == l@,
            None => r matches Err(GitHubError::EnvTokenInvalid),
        },
{
    match login {
        Some(l) => Ok(l),
        None => Err(GitHubError::EnvTokenInvalid),
    }
}

/// The name of the release branch of `tag`.
pub open spec fn release_branch_text(tag: SemVer) -> Seq<char> {
    "release/"@ + version_text(tag@)
}

/// The name of the release-candidate branch that `username` opens for `tag`.
pub open spec fn rc_branch_text(username: Seq<char>, tag: SemVer) -> Seq<char> {
    "rc/"@ + username + "_"@ + version_text(tag@)
}

/// The title of the release candidate of `tag`, also its commit message.
pub open spec fn rc_title_text(tag: SemVer) -> Seq<char> {
    "Release Candidate "@ + version_text(tag@)
}

/// `release/<tag>`.
pub fn release_branch_name(tag: &SemVer) -> (r: String)
    ensures
        r@ == release_branch_text(*tag),
{
    let mut s = String::from_str("release/");
    tag.push_text(&mut s);
    s
}

/// `rc/<username>_<tag>`.
pub fn rc_branch_name(username: &str, tag: &SemVer) -> (r: String)
    ensures
        r@ == rc_branch_text(username@, *tag),
{
    let mut s = String::from_str("rc/");
    s.append(username);
    s.append("_");
    tag.push_text(&mut s);
    s
}

/// `Release Candidate <tag>`.
pub fn rc_title(tag: &SemVer) -> (r: String)
    ensures
        r@ == rc_title_text(*tag),
{
    let mut s = String::from_str("Release Candidate ");
    tag.push_text(&mut s);
    s
}

/// The names under which a release candidate goes from `tag_pre_bump` to
/// `tag_post_bump`: the release branch that the pull request targets, the
/// candidate branch it comes from, its title and body, and the released
/// branch that the new release branch starts from.
#[derive(Debug)]
pub struct PullRequestPlan {
    pub base: String,
    pub head: String,
    pub title: String,
    pub body: String,
    pub orphan: String,
}

/// Plans the pull request of the release candidate that `username` cuts.
pub fn pull_request_plan(tag_pre_bump: &SemVer, tag_post_bump: &SemVer, username: &str) -> (r:
    PullRequestPlan)
    ensures
        r.base@ == release_branch_text(*tag_post_bump),
        r.head@ == rc_branch_text(username@, *tag_post_bump),
        r.title@ == rc_title_text(*tag_post_bump),
        r.body@ == r.title@,
        r.orphan@ == "origin/"@ + release_branch_text(*tag_pre_bump),
{
    let base = release_branch_name(tag_post_bump);
    let head = rc_branch_name(username, tag_post_bump);
    let title = rc_title(tag_post_bump);
    let body = title.clone();
    let mut orphan = String::from_str("origin/");
    let pre_branch = release_branch_name(tag_pre_bump);
    orphan.append(pre_branch.as_str());
    PullRequestPlan { base, head, title, body, orphan }
}

/// The placeholder that the packaging template holds for the version.
pub open spec fn version_placeholder() -> Seq<char> {
    "__VERSION__"@
}

/// The packaging template `contents` with every `__VERSION__` replaced by
/// the version `tag`.
pub fn stamp_version(contents: &str, tag: &SemVer) -> (r: String)
    ensures
        r@ == replace_all(contents@, version_placeholder(), version_text(tag@)),
{
    proof {
        reveal_strlit("__VERSION__");
    }
    let text = tag.to_text();
    replace_text(contents, "__VERSION__", text.as_str())
}

} // verus!
