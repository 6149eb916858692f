//! Publishing a GitHub release for an accepted release candidate: which
//! branches can be released, which one is chosen, and how the release is
//! named.
use vstd::prelude::*;
use crate::text::{has_prefix, list_contains, replace_all, replace_text, starts_with};

verus! {

/// A branch of the repository, listed by name.
#[derive(Debug)]
pub struct GitHubBranch {
    name: String,
}

impl GitHubBranch {
    /// The name of the branch.
    pub closed spec fn name_text(&self) -> Seq<char> {
        self.name@
    }

    /// The branch called `name`.
    pub fn new(name: String) -> (r: GitHubBranch)
        ensures
            r.name_text() == name@,
    {
        GitHubBranch { name }
    }

    /// The branch as the release prompt lists it: its name.
    pub fn to_string(&self) -> (r: String)
        ensures
            r@ == self.name_text(),
    {
        self.name.clone()
    }
}

/// Errors of the release steps. The errors that the GitHub client reported
/// are kept as their messages.
#[derive(Debug)]
pub enum GitHubError {
    EnvTokenNotFound,
    OctocrabTokenBuild { error: String },
    DidNotSelectRc,
    ListBranches { error: String },
    ListReleases { error: String },
    CreateRelease { error: String },
}

/// A branch can be released when it is a `release/` branch that no release
/// targets yet.
pub open spec fn is_release_candidate(branch: Seq<char>, released: Seq<Seq<char>>) -> bool {
    !released.contains(branch) && has_prefix(branch, "release/"@)
}

/// The branches of `branches` that are offered for release, in order.
pub open spec fn offered_candidates(branches: Seq<Seq<char>>, released: Seq<Seq<char>>) -> Seq<Seq<char>> {
    branches.filter(|b: Seq<char>| is_release_candidate(b, released))
}

/// The branches offered for release, in the order in which GitHub listed
/// them: those that start with `release/` and that no existing release
/// targets.
pub fn release_candidates(branches: &Vec<String>, released: &Vec<String>) -> (r: Vec<String>)
    ensures
        r.deep_view() == offered_candidates(branches.deep_view(), released.deep_view()),
        r.deep_view() == branches.deep_view().filter(
            |b: Seq<char>| is_release_candidate(b, released.deep_view()),
        ),
{
    let ghost pred = |b: Seq<char>| is_release_candidate(b, released.deep_view());
    let mut r: Vec<String> = Vec::new();
    let mut i: usize = 0;
    while i < branches.len()
        invariant
            i <= branches@.len(),
            pred == (|b: Seq<char>| is_release_candidate(b, released.deep_view())),
            r.deep_view() == branches.deep_view().take(i as int).filter(pred),
        decreases branches@.len() - i,
    {
        proof {
            reveal_with_fuel(Seq::filter, 1);
            reveal_strlit("release/");
        }
        let name = &branches[i];
        let unreleased = !list_contains(released, name.as_str());
        let keep = unreleased && starts_with(name.as_str(), "release/");
        assert(branches.deep_view().take(i + 1).drop_last() =~= branches.deep_view().take(
            i as int,
        ));
        if keep {
            r.push(name.clone());
            assert(r.deep_view() =~= branches.deep_view().take(i + 1).filter(pred));
        } else {
            assert(r.deep_view() =~= branches.deep_view().take(i + 1).filter(pred));
        }
        i = i + 1;
    }
    assert(branches.deep_view().take(i as int) =~= branches.deep_view());
    r
}

/// Reads the answer of the release prompt: the index of the chosen
/// candidate, or nothing when the prompt was dismissed.
pub fn select_release_outcome(selection: Option<usize>) -> (r: Result<usize, GitHubError>)
    ensures
        match selection {
            Some(i) => r == Ok::<usize, GitHubError>(i),
            None => r matches Err(GitHubError::DidNotSelectRc),
        },
{
    match selection {
        Some(i) => Ok(i),
        None => Err(GitHubError::DidNotSelectRc),
    }
}

/// The branch that is released for the answer `index` of the release
/// prompt, which lists `candidates` (see [`release_candidates`]) in order:
/// the candidate at that index.
pub fn chosen_release_branch(candidates: &Vec<String>, index: usize) -> (r: String)
    requires
        index < candidates@.len(),
    ensures
        r@ == candidates@[index as int]@,
{
    candidates[index].clone()
}

/// The GitHub token that creates the release, read from the value of the
/// `GITHUB_TOKEN` variable (`None` where it is not set).
pub fn env_token(value: Option<String>) -> (r: Result<String, GitHubError>)
    ensures
        match value {
            Some(v) => r matches Ok(t) && t@ == v@,
            None => r matches Err(GitHubError::EnvTokenNotFound),
        },
{
    match value {
        Some(token) => Ok(token),
        None => Err(GitHubError::EnvTokenNotFound),
    }
}

/// How a release is published for a release branch.
#[derive(Debug)]
pub struct ReleasePlan {
    /// The branch name with `release/` removed.
    pub version: String,
    /// `v<version>`.
    pub tag_name: String,
    /// `Release <version>`.
    pub name: String,
    /// `Announcing <tag_name>!`.
    pub body: String,
}

/// Plans the release of `branch_name`.
pub fn release_plan(branch_name: &str) -> (r: ReleasePlan)
    ensures
        r.version@ == replace_all(branch_name@, "release/"@, ""@),
        r.tag_name@ == "v"@ + r.version@,
        r.name@ == "Release "@ + r.version@,
        r.body@ == "Announcing "@ + r.tag_name@ + "!"@,
{
    proof {
        reveal_strlit("release/");
    }
    let version = replace_text(branch_name, "release/", "");
    let mut tag_name = String::from_str("v");
    tag_name.append(version.as_str());
    let mut name = String::from_str("Release ");
    name.append(version.as_str());
    let mut body = String::from_str("Announcing ");
    body.append(tag_name.as_str());
    body.append("!");
    ReleasePlan { version, tag_name, name, body }
}

} // verus!
