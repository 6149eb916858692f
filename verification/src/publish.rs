//! Publishing a release to npm: which release is picked, which targets are
//! cross-built, and how a directory tree is copied.
use vstd::prelude::*;
use crate::command::exit_failure;
use crate::paths::{join, join_path};
use crate::version::SemVer;

verus! {

/// Errors of the publish steps. Paths are kept as text, and the errors of
/// the file system and of the GitHub client as their messages.
#[derive(Debug)]
pub enum PublishError {
    SourceNonExistent { src: String },
    DestinationCreation { dest: String, error: String },
    CopyFile { entry_path: String, dest_child: String, error: String },
    ReadDir { src: String, error: String },
    ReadDirEntry { error: String },
    BuildTarget { target: String, status: i32 },
    ReleasePageSelection { cause: String },
    DidNotSelectRelease,
    NpmPublish { version: SemVer, status: i32 },
}

/// A release as the publish prompt lists it.
#[derive(Debug)]
pub struct GitHubRelease {
    pub tag_name: String,
}

impl GitHubRelease {
    /// The release as the publish prompt lists it: its tag.
    pub fn to_string(&self) -> (r: String)
        ensures
            r@ == self.tag_name@,
    {
        self.tag_name.clone()
    }
}

/// The prompt items for releases with these tags, in the same order.
pub fn release_items(tag_names: Vec<String>) -> (r: Vec<GitHubRelease>)
    ensures
        r@.len() == tag_names@.len(),
        forall|i: int| 0 <= i < r@.len() ==> #[trigger] r@[i].tag_name@ == tag_names@[i]@,
{
    let mut r: Vec<GitHubRelease> = Vec::new();
    let mut i: usize = 0;
    while i < tag_names.len()
        invariant
            i <= tag_names@.len(),
            r@.len() == i,
            forall|k: int| 0 <= k < i ==> #[trigger] r@[k].tag_name@ == tag_names@[k]@,
        decreases tag_names@.len() - i,
    {
        r.push(GitHubRelease { tag_name: tag_names[i].clone() });
        i = i + 1;
    }
    r
}

/// Reads the answer of the publish prompt: the index of the chosen release,
/// or nothing when the prompt was dismissed.
pub fn release_selection_outcome(selection: Option<usize>) -> (r: Result<usize, PublishError>)
    ensures
        match selection {
            Some(i) => r == Ok::<usize, PublishError>(i),
            None => r matches Err(PublishError::DidNotSelectRelease),
        },
{
    match selection {
        Some(i) => Ok(i),
        None => Err(PublishError::DidNotSelectRelease),
    }
}

/// The targets that a release is cross-built for, in build order.
pub open spec fn publish_targets_text() -> Seq<Seq<char>> {
    seq![
        "x86_64-unknown-linux-gnu"@,
        "x86_64-pc-windows-gnu"@,
        "x86_64-apple-darwin"@,
        "aarch64-apple-darwin"@,
    ]
}

/// The number of targets that a release is cross-built for.
pub const PUBLISH_TARGET_COUNT: usize = 4;

/// The target at `index` of the build order.
pub fn publish_target(index: usize) -> (r: String)
    requires
        index < PUBLISH_TARGET_COUNT,
    ensures
        r@ == publish_targets_text()[index as int],
{
    if index == 0 {
        String::from_str("x86_64-unknown-linux-gnu")
    } else if index == 1 {
        String::from_str("x86_64-pc-windows-gnu")
    } else if index == 2 {
        String::from_str("x86_64-apple-darwin")
    } else {
        String::from_str("aarch64-apple-darwin")
    }
}

/// Reads the exit code of `cross build --release --target <target>`.
pub fn cross_build_outcome(target: &str, code: Option<i32>) -> (r: Result<(), PublishError>)
    ensures
        match exit_failure(code) {
            None => r is Ok,
            Some(s) => r matches Err(PublishError::BuildTarget { target: t, status }) && t@
                == target@ && status == s,
        },
{
    match code {
        Some(status) => if status == 0 {
            Ok(())
        } else {
            Err(PublishError::BuildTarget { target: target.to_string(), status })
        },
        None => Ok(()),
    }
}

/// What the cross-building of all targets asks for next.
#[derive(Debug)]
pub enum BuildStep {
    /// Cross-build this target and report the exit code.
    CrossBuild(String),
    /// All builds are over, with this result.
    Done(Result<(), PublishError>),
}

/// Cross-builds the targets one after the other, and stops at the first
/// build that fails.
#[derive(Debug)]
pub struct TargetBuilds {
    current: usize,
}

/// Begins cross-building the targets, with the first one.
pub fn build_targets() -> (r: (TargetBuilds, BuildStep))
    ensures
        r.0.wf(),
        r.0.current_index() == 0,
        r.1 matches BuildStep::CrossBuild(t) && t@ == publish_targets_text()[0],
{
    (TargetBuilds { current: 0 }, BuildStep::CrossBuild(publish_target(0)))
}

impl TargetBuilds {
    /// The index of the target being built.
    pub closed spec fn current_index(&self) -> nat {
        self.current as nat
    }

    /// Whether the index is that of a target.
    pub closed spec fn wf(&self) -> bool {
        self.current < PUBLISH_TARGET_COUNT
    }

    /// Reads the exit code of the current build and says what comes next.
    pub fn on_exit(&mut self, code: Option<i32>) -> (step: BuildStep)
        requires
            old(self).wf(),
        ensures
            final(self).wf(),
            match exit_failure(code) {
                Some(s) => step matches BuildStep::Done(Err(PublishError::BuildTarget { target, status }))
                    && target@ == publish_targets_text()[old(self).current_index() as int] && status
                    == s,
                None => if old(self).current_index() + 1 < PUBLISH_TARGET_COUNT {
                    &&& step matches BuildStep::CrossBuild(t)
                    &&& t@ == publish_targets_text()[old(self).current_index() + 1int]
                    &&& final(self).current_index() == old(self).current_index() + 1
                } else {
                    step matches BuildStep::Done(Ok(()))
                },
            },
    {
        let target = publish_target(self.current);
        match cross_build_outcome(target.as_str(), code) {
            Err(e) => BuildStep::Done(Err(e)),
            Ok(()) => {
                if self.current + 1 < PUBLISH_TARGET_COUNT {
                    self.current = self.current + 1;
                    BuildStep::CrossBuild(publish_target(self.current))
                } else {
                    BuildStep::Done(Ok(()))
                }
            },
        }
    }
}

/// Checks the source of a directory copy: it must be a directory.
pub fn copy_source_check(src: &str, src_is_dir: bool) -> (r: Result<(), PublishError>)
    ensures
        src_is_dir ==> r is Ok,
        !src_is_dir ==> (r matches Err(PublishError::SourceNonExistent { src: s }) && s@ == src@),
{
    if !src_is_dir {
        return Err(PublishError::SourceNonExistent { src: src.to_string() });
    }
    Ok(())
}

/// What copying one entry of a directory does.
#[derive(Debug)]
pub enum CopyAction {
    /// Copy the sub-directory `src` into `dest`, in the same way.
    CopyDir { src: String, dest: String },
    /// Copy the file `src` to `dest`.
    CopyFile { src: String, dest: String },
}

/// How the entry `entry_path`, whose file name is `file_name`, is copied
/// into the destination directory `dest`.
pub fn copy_entry_action(entry_path: &str, file_name: &str, entry_is_dir: bool, dest: &str) -> (r:
    CopyAction)
    ensures
        entry_is_dir ==> (r matches CopyAction::CopyDir { src, dest: d } && src@ == entry_path@
            && d@ == join_path(dest@, file_name@)),
        !entry_is_dir ==> (r matches CopyAction::CopyFile { src, dest: d } && src@ == entry_path@
            && d@ == join_path(dest@, file_name@)),
{
    let dest_child = join(dest, file_name);
    if entry_is_dir {
        CopyAction::CopyDir { src: entry_path.to_string(), dest: dest_child }
    } else {
        CopyAction::CopyFile { src: entry_path.to_string(), dest: dest_child }
    }
}

} // verus!
