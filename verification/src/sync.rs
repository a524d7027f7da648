//! The directory synchronizer: a recursive, depth-first, pre-order walk of
//! the source tree, replayed on the destination as directory creation plus
//! one file transfer per file, one entry at a time. The machine keeps the
//! pending work as an explicit stack; the first error at any depth
//! propagates immediately and stops the whole walk, with no rollback.

use vstd::prelude::*;
use vstd::string::*;
use crate::command::CommandResult;
use crate::errors::TransferError;
use crate::listing::{parse_directory_listing, spec_join_path, spec_listing, EntryView, FileEntry, join_path};

verus! {

/// One unit of pending work: a directory to replay, or a file to copy.
pub enum SyncFrame {
    Dir { src: String, dst: String },
    File { src: String, dst: String },
}

/// The mathematical content of one frame.
pub ghost struct FrameView {
    pub is_dir: bool,
    pub src: Seq<char>,
    pub dst: Seq<char>,
}

impl View for SyncFrame {
    type V = FrameView;

    open spec fn view(&self) -> FrameView {
        match self {
            SyncFrame::Dir { src, dst } => FrameView { is_dir: true, src: src@, dst: dst@ },
            SyncFrame::File { src, dst } => FrameView { is_dir: false, src: src@, dst: dst@ },
        }
    }
}

/// Where the walk stands.
pub enum SyncPhase {
    /// The destination directory is being created; its source listing
    /// comes next.
    AwaitDir { src: String, dst: String },
    /// The source directory is being listed.
    AwaitList { src: String, dst: String },
    /// One file is being transferred.
    AwaitFile,
    /// Every entry has been replayed.
    Complete,
    /// The walk stopped at its first error.
    Failed,
}

/// What the caller reports back to the walk.
pub enum SyncEvent {
    /// The requested destination directory now exists.
    DirReady,
    /// The listing command finished with this result.
    Listing(CommandResult),
    /// The requested file transfer completed.
    FileDone,
    /// The requested sub-operation failed with this error.
    StepFailed(TransferError),
}

/// What the caller must do next.
pub enum SyncAction {
    /// Make this directory exist on the destination, under the privileged
    /// retry.
    EnsureDir { path: String },
    /// Run the long-format listing of this source directory.
    List { path: String },
    /// Transfer this one file from source to destination.
    CopyFile { src: String, dst: String },
    /// The whole tree has been replayed.
    Finished,
    /// The walk failed with this error.
    Fail(TransferError),
}

/// The step machine for one directory tree's synchronization.
pub struct DirSync {
    /// Pending work; the last element is taken up next.
    pub stack: Vec<SyncFrame>,
    pub phase: SyncPhase,
}

/// The pending work in the order it will be taken up.
pub open spec fn pending(m: DirSync) -> Seq<FrameView> {
    m.stack@.map_values(|f: SyncFrame| f@).reverse()
}

/// The work one listing adds: one frame per entry, in listing order, each
/// pairing the entry's source path with its name joined under the
/// destination directory.
pub open spec fn frames_of(entries: Seq<EntryView>, dst: Seq<char>) -> Seq<FrameView> {
    entries.map_values(
        |e: EntryView|
            FrameView { is_dir: e.is_folder, src: e.path, dst: spec_join_path(dst, e.name) },
    )
}

/// How the machine takes up the head of its work queue: an empty queue
/// completes the walk; a directory head is created and then listed; a
/// file head is copied.
pub open spec fn spec_advance(m: DirSync, queue: Seq<FrameView>, r: SyncAction) -> bool {
    if queue.len() == 0 {
        m.phase is Complete && r is Finished && pending(m).len() == 0
    } else {
        pending(m) == queue.drop_first() && (if queue[0].is_dir {
            m.phase matches SyncPhase::AwaitDir { src, dst } && src@ == queue[0].src && dst@
                == queue[0].dst && (r matches SyncAction::EnsureDir { path } && path@
                == queue[0].dst)
        } else {
            m.phase is AwaitFile && (r matches SyncAction::CopyFile { src, dst } && src@
                == queue[0].src && dst@ == queue[0].dst)
        })
    }
}

impl DirSync {
    /// Starts a walk: the first action creates the top destination
    /// directory.
    pub fn new(source_path: String, dest_path: String) -> (r: (DirSync, SyncAction))
        ensures
            r.0.phase matches SyncPhase::AwaitDir { src, dst } && src@ == source_path@ && dst@
                == dest_path@,
            pending(r.0).len() == 0,
            r.1 matches SyncAction::EnsureDir { path } && path@ == dest_path@,
    {
        let action = SyncAction::EnsureDir { path: dest_path.clone() };
        let m = DirSync {
            stack: Vec::new(),
            phase: SyncPhase::AwaitDir { src: source_path, dst: dest_path },
        };
        proof {
            assert(m.stack@.map_values(|f: SyncFrame| f@) =~= Seq::<FrameView>::empty());
            assert(pending(m) =~= Seq::<FrameView>::empty());
        }
        (m, action)
    }

    /// Takes up the next pending frame, or completes the walk.
    fn advance(&mut self) -> (r: SyncAction)
        requires
            !(old(self).phase is Complete),
            !(old(self).phase is Failed),
        ensures
            spec_advance(*final(self), pending(*old(self)), r),
            !(final(self).phase is Failed),
    {
        let ghost queue = pending(*old(self));
        proof {
            if self.stack@.len() > 0 {
                assert(queue[0] == self.stack@.map_values(|f: SyncFrame| f@)[self.stack@.len()
                    - 1]);
            }
        }
        match self.stack.pop() {
            None => {
                self.phase = SyncPhase::Complete;
                proof {
                    assert(pending(*self) =~= Seq::<FrameView>::empty());
                }
                SyncAction::Finished
            },
            Some(frame) => {
                proof {
                    assert(self.stack@ =~= old(self).stack@.drop_last());
                    assert(self.stack@.map_values(|f: SyncFrame| f@) =~= old(self).stack@.map_values(|f: SyncFrame| f@).drop_last());
                    assert(pending(*self) =~= queue.drop_first());
                }
                match frame {
                    SyncFrame::Dir { src, dst } => {
                        let path = dst.clone();
                        self.phase = SyncPhase::AwaitDir { src, dst };
                        proof {
                            assert(pending(*self) =~= queue.drop_first());
                        }
                        SyncAction::EnsureDir { path }
                    },
                    SyncFrame::File { src, dst } => {
                        self.phase = SyncPhase::AwaitFile;
                        proof {
                            assert(pending(*self) =~= queue.drop_first());
                        }
                        SyncAction::CopyFile { src, dst }
                    },
                }
            },
        }
    }

    /// Feeds the walk one event and yields the next action. The event
    /// must answer the pending action: directory readiness while a
    /// directory is being created, a listing result while listing, file
    /// completion while copying, or the sub-operation's failure.
    pub fn step(&mut self, e: SyncEvent) -> (r: SyncAction)
        requires
            !(old(self).phase is Complete),
            !(old(self).phase is Failed),
            old(self).phase is AwaitDir ==> (e is DirReady || e is StepFailed),
            old(self).phase is AwaitList ==> (e is Listing || e is StepFailed),
            old(self).phase is AwaitFile ==> (e is FileDone || e is StepFailed),
        ensures
            // the first error at any depth stops the whole walk
            e matches SyncEvent::StepFailed(err) ==> (final(self).phase is Failed && (r matches
                SyncAction::Fail(err2) && err2 == err)),
            // a ready directory is then listed
            old(self).phase matches SyncPhase::AwaitDir { src, dst } ==> (e is DirReady ==> (
            final(self).phase matches SyncPhase::AwaitList { src: src2, dst: dst2 } && src2@
                == src@ && dst2@ == dst@ && pending(*final(self)) == pending(*old(self)) && (r
                matches SyncAction::List { path } && path@ == src@))),
            // a failed listing stops the walk
            old(self).phase matches SyncPhase::AwaitList { src, dst } ==> (e matches
                SyncEvent::Listing(res) ==> (res.exit_code != 0 ==> (final(self).phase is Failed && (r matches SyncAction::Fail(err) && (err matches
                TransferError::ListFailed { exit_code } && exit_code == res.exit_code))))),
            // a parsed listing queues one frame per entry, in listing
            // order, ahead of the rest, and the head is taken up
            old(self).phase matches SyncPhase::AwaitList { src, dst } ==> (e matches
                SyncEvent::Listing(res) ==> (res.exit_code == 0 ==> spec_advance(
                *final(self),
                frames_of(spec_listing(res.stdout@, src@), dst@) + pending(*old(self)),
                r,
            ))),
            // a finished file lets the walk take up the next frame
            old(self).phase is AwaitFile ==> (e is FileDone ==> spec_advance(
                *final(self),
                pending(*old(self)),
                r,
            )),
            (r is Finished) <==> final(self).phase is Complete,
            (r is Fail) <==> final(self).phase is Failed,
    {
        match e {
            SyncEvent::StepFailed(err) => {
                self.phase = SyncPhase::Failed;
                SyncAction::Fail(err)
            },
            SyncEvent::DirReady => {
                let (src, dst) = match &self.phase {
                    SyncPhase::AwaitDir { src, dst } => (src.clone(), dst.clone()),
                    _ => vstd::pervasive::unreached(),
                };
                let path = src.clone();
                self.phase = SyncPhase::AwaitList { src, dst };
                SyncAction::List { path }
            },
            SyncEvent::Listing(res) => {
                let (src, dst) = match &self.phase {
                    SyncPhase::AwaitList { src, dst } => (src.clone(), dst.clone()),
                    _ => vstd::pervasive::unreached(),
                };
                match parse_directory_listing(&res, src.as_str()) {
                    Err(err) => {
                        self.phase = SyncPhase::Failed;
                        SyncAction::Fail(err)
                    },
                    Ok(entries) => {
                        let ghost evs = entries@.map_values(|x: FileEntry| x@);
                        let ghost fr = frames_of(evs, dst@);
                        let ghost base = pending(*self);
                        let n = entries.len();
                        let mut i: usize = n;
                        proof {
                            assert(fr.subrange(n as int, n as int) =~= Seq::<FrameView>::empty());
                            assert(Seq::<FrameView>::empty() + base =~= base);
                        }
                        while i > 0
                            invariant
                                i <= n,
                                n == entries@.len(),
                                evs == entries@.map_values(|x: FileEntry| x@),
                                fr == frames_of(evs, dst@),
                                pending(*self) == fr.subrange(i as int, n as int) + base,
                                self.phase == old(self).phase,
                            decreases i,
                        {
                            i = i - 1;
                            let entry = &entries[i];
                            let child_dst = join_path(dst.as_str(), entry.name.as_str());
                            let frame = if entry.is_folder {
                                SyncFrame::Dir { src: entry.path.clone(), dst: child_dst }
                            } else {
                                SyncFrame::File { src: entry.path.clone(), dst: child_dst }
                            };
                            proof {
                                assert(frame@ == fr[i as int]);
                            }
                            let ghost prior = self.stack@;
                            self.stack.push(frame);
                            proof {
                                assert(self.stack@.map_values(|f: SyncFrame| f@) =~= prior
                                    .map_values(|f: SyncFrame| f@).push(frame@));
                                assert(pending(*self) =~= seq![frame@] + (prior.map_values(
                                    |f: SyncFrame| f@,
                                ).reverse()));
                                assert(fr.subrange(i as int, n as int) =~= seq![fr[i as int]]
                                    + fr.subrange(i + 1 as int, n as int));
                                assert(pending(*self) =~= fr.subrange(i as int, n as int) + base);
                            }
                        }
                        proof {
                            assert(fr.subrange(0, n as int) =~= fr);
                        }
                        self.advance()
                    },
                }
            },
            SyncEvent::FileDone => {
                self.advance()
            },
        }
    }
}

} // verus!
