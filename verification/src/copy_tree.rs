//! Copying a directory tree, as publishing does: the source must be a
//! directory, the destination is created where missing, and the entries are
//! copied in listing order, each sub-directory in full before the next
//! entry.
use vstd::prelude::*;
use crate::paths::{join, join_path};
use crate::publish::PublishError;

verus! {

/// An entry of a directory listing: its path, its file name and whether it
/// is a directory.
#[derive(Debug)]
pub struct DirEntryInfo {
    pub path: String,
    pub file_name: String,
    pub is_dir: bool,
}

/// The plain value of a listed entry, or the error of reading it.
pub type EntryView = Result<(Seq<char>, Seq<char>, bool), Seq<char>>;

/// The plain value of a listed entry.
pub open spec fn entry_view(e: Result<DirEntryInfo, String>) -> EntryView {
    match e {
        Ok(info) => Ok((info.path@, info.file_name@, info.is_dir)),
        Err(msg) => Err(msg@),
    }
}

/// A directory whose entries are being copied: its destination, its
/// listing, and the index of the next entry.
#[derive(Debug)]
pub struct CopyFrame {
    pub dest: String,
    pub entries: Vec<Result<DirEntryInfo, String>>,
    pub next: usize,
}

/// The plain value of a frame.
pub type FrameView = (Seq<char>, Seq<EntryView>, nat);

/// The plain value of a frame.
pub open spec fn frame_view(f: CopyFrame) -> FrameView {
    (f.dest@, f.entries@.map_values(|e: Result<DirEntryInfo, String>| entry_view(e)), f.next as nat)
}

/// The plain values of the frames, innermost last.
pub open spec fn frames_view(frames: Seq<CopyFrame>) -> Seq<FrameView> {
    frames.map_values(|f: CopyFrame| frame_view(f))
}

/// What the copy does with the next entry.
pub enum NextCopy {
    /// Every entry is copied.
    Finished,
    /// The next entry could not be read: the error.
    EntryError(Seq<char>),
    /// Copy the sub-directory at the first path into the second.
    Dir(Seq<char>, Seq<char>),
    /// Copy the file at the first path to the second.
    File(Seq<char>, Seq<char>),
}

/// The next entry to copy, and the frames once it is taken: the next entry
/// of the innermost directory that has one left, the finished directories
/// being left behind.
pub open spec fn advance(frames: Seq<FrameView>) -> (Seq<FrameView>, NextCopy)
    decreases frames.len(),
{
    if frames.len() == 0 {
        (frames, NextCopy::Finished)
    } else {
        let top = frames.last();
        if top.2 < top.1.len() {
            let taken = frames.update(frames.len() - 1, (top.0, top.1, top.2 + 1));
            match top.1[top.2 as int] {
                Err(msg) => (taken, NextCopy::EntryError(msg)),
                Ok(e) => if e.2 {
                    (taken, NextCopy::Dir(e.0, join_path(top.0, e.1)))
                } else {
                    (taken, NextCopy::File(e.0, join_path(top.0, e.1)))
                },
            }
        } else {
            advance(frames.drop_last())
        }
    }
}

/// The entries of a frame that are still to be copied, each with the
/// directory it is copied into.
pub open spec fn remaining(f: FrameView) -> Seq<(Seq<char>, EntryView)> {
    f.1.skip(f.2 as int).map_values(|e: EntryView| (f.0, e))
}

/// All entries still to be copied, in the order of the copy: those of the
/// innermost directory first, then those of the directories around it.
pub open spec fn pending(frames: Seq<FrameView>) -> Seq<(Seq<char>, EntryView)>
    decreases frames.len(),
{
    if frames.len() == 0 {
        Seq::empty()
    } else {
        remaining(frames.last()) + pending(frames.drop_last())
    }
}

/// No frame has gone past the end of its listing.
pub open spec fn frames_wf(frames: Seq<FrameView>) -> bool {
    forall|i: int| 0 <= i < frames.len() ==> #[trigger] frames[i].2 <= frames[i].1.len()
}

/// What copying one pending entry does.
pub open spec fn next_of(item: (Seq<char>, EntryView)) -> NextCopy {
    match item.1 {
        Err(msg) => NextCopy::EntryError(msg),
        Ok(e) => if e.2 {
            NextCopy::Dir(e.0, join_path(item.0, e.1))
        } else {
            NextCopy::File(e.0, join_path(item.0, e.1))
        },
    }
}

/// Every listed entry is copied once, in order: the copy takes the first
/// pending entry, and what stays pending is the rest; when nothing is
/// pending, the copy is over.
pub proof fn law_entries_copied_in_order(frames: Seq<FrameView>)
    requires
        frames_wf(frames),
    ensures
        frames_wf(advance(frames).0),
        pending(frames).len() == 0 ==> advance(frames).1 == NextCopy::Finished,
        pending(frames).len() > 0 ==> {
            &&& advance(frames).1 == next_of(pending(frames)[0])
            &&& pending(advance(frames).0) == pending(frames).drop_first()
        },
    decreases frames.len(),
{
    if frames.len() > 0 {
        let top = frames.last();
        let rest = frames.drop_last();
        assert(frames_wf(rest)) by {
            assert forall|i: int| 0 <= i < rest.len() implies #[trigger] rest[i].2 <= rest[i].1.len() by {
                assert(rest[i] == frames[i]);
            }
        }
        assert(top.2 <= top.1.len()) by {
            assert(frames[frames.len() - 1].2 <= frames[frames.len() - 1].1.len());
        }
        if top.2 < top.1.len() {
            let top2 = (top.0, top.1, top.2 + 1);
            let taken = frames.update(frames.len() - 1, top2);
            assert(taken.drop_last() =~= rest);
            assert(taken.last() == top2);
            assert(remaining(top2) =~= remaining(top).drop_first());
            assert(remaining(top)[0] == (top.0, top.1[top.2 as int]));
            assert(pending(frames) == remaining(top) + pending(rest));
            assert(pending(taken) == remaining(top2) + pending(rest));
            assert(pending(taken) =~= pending(frames).drop_first());
            assert(pending(frames)[0] == remaining(top)[0]);
            assert forall|i: int| 0 <= i < taken.len() implies #[trigger] taken[i].2 <= taken[i].1.len() by {
                if i < frames.len() - 1 {
                    assert(taken[i] == frames[i]);
                }
            }
        } else {
            assert(remaining(top) =~= Seq::<(Seq<char>, EntryView)>::empty());
            assert(pending(frames) =~= pending(rest));
            law_entries_copied_in_order(rest);
        }
    }
}

/// Listing a directory puts its entries before everything that was
/// pending, in listing order, each to be copied into the directory's
/// destination.
pub proof fn law_listing_comes_first(frames: Seq<FrameView>, dest: Seq<char>, entries: Seq<EntryView>)
    requires
        frames_wf(frames),
    ensures
        frames_wf(frames.push((dest, entries, 0))),
        pending(frames.push((dest, entries, 0))) == entries.map_values(|e: EntryView| (dest, e))
            + pending(frames),
{
    let pushed = frames.push((dest, entries, 0));
    assert(pushed.drop_last() =~= frames);
    assert(entries.skip(0) =~= entries);
    assert forall|i: int| 0 <= i < pushed.len() implies #[trigger] pushed[i].2 <= pushed[i].1.len() by {
        if i < frames.len() {
            assert(pushed[i] == frames[i]);
        }
    }
}

/// What copying the tree asks for next.
#[derive(Debug)]
pub enum CopyStep {
    /// Report whether this path is a directory.
    CheckSource(String),
    /// Create this directory where it does not exist, and report the error
    /// of creating it, if any.
    EnsureDestination(String),
    /// List this directory and report its entries, or the error of
    /// listing it.
    ReadDir(String),
    /// Copy the file `src` to `dest`, and report the error, if any.
    CopyFile { src: String, dest: String },
    /// The copy is over, with this result.
    Done(Result<(), PublishError>),
}

/// What happened after a [`CopyStep`].
#[derive(Debug)]
pub enum CopyEvent {
    SourceChecked(bool),
    DestinationReady(Option<String>),
    Listed(Result<Vec<Result<DirEntryInfo, String>>, String>),
    FileCopied(Option<String>),
}

/// How far the copy has gone.
#[derive(Debug)]
pub enum CopyStage {
    /// Checking that the directory `src` exists, to copy it into `dest`.
    CheckingSource { src: String, dest: String },
    /// Making sure that `dest` exists.
    EnsuringDestination { src: String, dest: String },
    /// Listing `src`.
    Reading { src: String, dest: String },
    /// Copying the file `src` to `dest`.
    CopyingFile { src: String, dest: String },
    Finished,
}

/// Copying the directory tree at a source into a destination.
#[derive(Debug)]
pub struct CopyTree {
    /// The directories whose entries are being copied, innermost last.
    pub frames: Vec<CopyFrame>,
    pub stage: CopyStage,
}

/// The step that copies the next entry, and the stage it leads to.
pub open spec fn step_for(next: NextCopy, step: CopyStep, stage: CopyStage) -> bool {
    match next {
        NextCopy::Finished => step matches CopyStep::Done(Ok(())) && stage is Finished,
        NextCopy::EntryError(msg) => step matches CopyStep::Done(
            Err(PublishError::ReadDirEntry { error }),
        ) && error@ == msg && stage is Finished,
        NextCopy::Dir(src, dest) => {
            &&& step matches CopyStep::CheckSource(p)
            &&& p@ == src
            &&& stage matches CopyStage::CheckingSource { src: s, dest: d }
            &&& s@ == src
            &&& d@ == dest
        },
        NextCopy::File(src, dest) => {
            &&& step matches CopyStep::CopyFile { src: s1, dest: d1 }
            &&& s1@ == src
            &&& d1@ == dest
            &&& stage matches CopyStage::CopyingFile { src: s, dest: d }
            &&& s@ == src
            &&& d@ == dest
        },
    }
}

/// Takes the next entry to copy off the frames.
fn next_entry(frames: &mut Vec<CopyFrame>) -> (r: (CopyStep, CopyStage))
    ensures
        frames_view(final(frames)@) == advance(frames_view(old(frames)@)).0,
        step_for(advance(frames_view(old(frames)@)).1, r.0, r.1),
{
    loop
        invariant
            advance(frames_view(frames@)) == advance(frames_view(old(frames)@)),
        decreases frames@.len(),
    {
        let n = frames.len();
        if n == 0 {
            return (CopyStep::Done(Ok(())), CopyStage::Finished);
        }
        let ghost before = frames_view(frames@);
        let mut top = frames.pop().unwrap();
        proof {
            assert(frames_view(frames@) =~= before.drop_last());
        }
        if top.next < top.entries.len() {
            let i = top.next;
            let (step, stage) = match &top.entries[i] {
                Err(msg) => (
                    CopyStep::Done(Err(PublishError::ReadDirEntry { error: msg.clone() })),
                    CopyStage::Finished,
                ),
                Ok(info) => {
                    let dest = join(top.dest.as_str(), info.file_name.as_str());
                    if info.is_dir {
                        (
                            CopyStep::CheckSource(info.path.clone()),
                            CopyStage::CheckingSource { src: info.path.clone(), dest },
                        )
                    } else {
                        (
                            CopyStep::CopyFile { src: info.path.clone(), dest: dest.clone() },
                            CopyStage::CopyingFile { src: info.path.clone(), dest },
                        )
                    }
                },
            };
            let ghost top_before = frame_view(top);
            top.next = i + 1;
            frames.push(top);
            proof {
                assert(frames_view(frames@) =~= before.update(
                    before.len() - 1,
                    (top_before.0, top_before.1, top_before.2 + 1),
                ));
            }
            return (step, stage);
        }
    }
}

impl CopyTree {
    /// No directory being copied has gone past the end of its listing.
    pub open spec fn wf(&self) -> bool {
        frames_wf(frames_view(self.frames@))
    }

    /// Whether `event` answers the step that the copy asked for last.
    pub open spec fn expects(&self, event: CopyEvent) -> bool {
        match self.stage {
            CopyStage::CheckingSource { .. } => event is SourceChecked,
            CopyStage::EnsuringDestination { .. } => event is DestinationReady,
            CopyStage::Reading { .. } => event is Listed,
            CopyStage::CopyingFile { .. } => event is FileCopied,
            CopyStage::Finished => false,
        }
    }

    /// Begins copying the tree at `src` into `dest`: first `src` must be a
    /// directory.
    pub fn start(src: &str, dest: &str) -> (r: (CopyTree, CopyStep))
        ensures
            r.0.wf(),
            r.0.frames@.len() == 0,
            r.0.stage matches CopyStage::CheckingSource { src: s, dest: d } && s@ == src@ && d@
                == dest@,
            r.1 matches CopyStep::CheckSource(p) && p@ == src@,
    {
        (
            CopyTree {
                frames: Vec::new(),
                stage: CopyStage::CheckingSource { src: src.to_string(), dest: dest.to_string() },
            },
            CopyStep::CheckSource(src.to_string()),
        )
    }

    /// Reads what happened and says what comes next.
    pub fn on_event(&mut self, event: CopyEvent) -> (step: CopyStep)
        requires
            old(self).wf(),
            old(self).expects(event),
        ensures
            final(self).wf(),
            old(self).stage matches CopyStage::CheckingSource { src, dest } ==> match event {
                CopyEvent::SourceChecked(is_dir) => if is_dir {
                    &&& step matches CopyStep::EnsureDestination(d)
                    &&& d@ == dest@
                    &&& final(self).stage matches CopyStage::EnsuringDestination { src: s2, dest: d2 }
                    &&& s2@ == src@
                    &&& d2@ == dest@
                    &&& frames_view(final(self).frames@) == frames_view(old(self).frames@)
                } else {
                    &&& step matches CopyStep::Done(Err(PublishError::SourceNonExistent { src: s }))
                    &&& s@ == src@
                    &&& final(self).stage is Finished
                },
                _ => true,
            },
            old(self).stage matches CopyStage::EnsuringDestination { src, dest } ==> match event {
                CopyEvent::DestinationReady(failure) => match failure {
                    Some(e) => {
                        &&& step matches CopyStep::Done(
                            Err(PublishError::DestinationCreation { dest: d, error }),
                        )
                        &&& d@ == dest@
                        &&& error@ == e@
                        &&& final(self).stage is Finished
                    },
                    None => {
                        &&& step matches CopyStep::ReadDir(s)
                        &&& s@ == src@
                        &&& final(self).stage matches CopyStage::Reading { src: s2, dest: d2 }
                        &&& s2@ == src@
                        &&& d2@ == dest@
                        &&& frames_view(final(self).frames@) == frames_view(old(self).frames@)
                    },
                },
                _ => true,
            },
            old(self).stage matches CopyStage::Reading { src, dest } ==> match event {
                CopyEvent::Listed(listing) => match listing {
                    Err(e) => {
                        &&& step matches CopyStep::Done(Err(PublishError::ReadDir { src: s, error }))
                        &&& s@ == src@
                        &&& error@ == e@
                        &&& final(self).stage is Finished
                    },
                    Ok(entries) => {
                        let pushed = frames_view(old(self).frames@).push(
                            (
                                dest@,
                                entries@.map_values(
                                    |e: Result<DirEntryInfo, String>| entry_view(e),
                                ),
                                0,
                            ),
                        );
                        &&& frames_view(final(self).frames@) == advance(pushed).0
                        &&& step_for(advance(pushed).1, step, final(self).stage)
                    },
                },
                _ => true,
            },
            old(self).stage matches CopyStage::CopyingFile { src, dest } ==> match event {
                CopyEvent::FileCopied(failure) => match failure {
                    Some(e) => {
                        &&& step matches CopyStep::Done(
                            Err(PublishError::CopyFile { entry_path, dest_child, error }),
                        )
                        &&& entry_path@ == src@
                        &&& dest_child@ == dest@
                        &&& error@ == e@
                        &&& final(self).stage is Finished
                    },
                    None => {
                        &&& frames_view(final(self).frames@) == advance(
                            frames_view(old(self).frames@),
                        ).0
                        &&& step_for(advance(frames_view(old(self).frames@)).1, step, final(self).stage)
                    },
                },
                _ => true,
            },
    {
        let mut stage = CopyStage::Finished;
        std::mem::swap(&mut stage, &mut self.stage);
        match stage {
            CopyStage::CheckingSource { src, dest } => match event {
                CopyEvent::SourceChecked(is_dir) => {
                    if is_dir {
                        let d = dest.clone();
                        self.stage = CopyStage::EnsuringDestination { src, dest };
                        CopyStep::EnsureDestination(d)
                    } else {
                        CopyStep::Done(Err(PublishError::SourceNonExistent { src }))
                    }
                },
                _ => CopyStep::Done(Ok(())),
            },
            CopyStage::EnsuringDestination { src, dest } => match event {
                CopyEvent::DestinationReady(failure) => match failure {
                    Some(error) => CopyStep::Done(
                        Err(PublishError::DestinationCreation { dest, error }),
                    ),
                    None => {
                        let s = src.clone();
                        self.stage = CopyStage::Reading { src, dest };
                        CopyStep::ReadDir(s)
                    },
                },
                _ => CopyStep::Done(Ok(())),
            },
            CopyStage::Reading { src, dest } => match event {
                CopyEvent::Listed(listing) => match listing {
                    Err(error) => CopyStep::Done(Err(PublishError::ReadDir { src, error })),
                    Ok(entries) => {
                        self.frames.push(CopyFrame { dest, entries, next: 0 });
                        proof {
                            assert(frames_view(self.frames@) =~= frames_view(
                                old(self).frames@,
                            ).push(frame_view(self.frames@.last())));
                        }
                        proof {
                            law_listing_comes_first(
                                frames_view(old(self).frames@),
                                frame_view(self.frames@.last()).0,
                                frame_view(self.frames@.last()).1,
                            );
                            law_entries_copied_in_order(frames_view(self.frames@));
                        }
                        let (step, stage) = next_entry(&mut self.frames);
                        self.stage = stage;
                        step
                    },
                },
                _ => CopyStep::Done(Ok(())),
            },
            CopyStage::CopyingFile { src, dest } => match event {
                CopyEvent::FileCopied(failure) => match failure {
                    Some(error) => CopyStep::Done(
                        Err(PublishError::CopyFile { entry_path: src, dest_child: dest, error }),
                    ),
                    None => {
                        proof {
                            law_entries_copied_in_order(frames_view(self.frames@));
                        }
                        let (step, stage) = next_entry(&mut self.frames);
                        self.stage = stage;
                        step
                    },
                },
                _ => CopyStep::Done(Ok(())),
            },
            CopyStage::Finished => CopyStep::Done(Ok(())),
        }
    }
}

} // verus!
