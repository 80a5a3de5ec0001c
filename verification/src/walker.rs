//! The tree walker: a state machine that decides the whole traversal. Each
//! step takes the outcome of the previous filesystem or tag-codec call and
//! answers with the next call to make, so that every decision (what to
//! rename, when to recurse, what counts as an edited record, which failures
//! abort the walk and which are soft) stands here, while a thin driver
//! performs the calls themselves.
//!
//! The walk is depth-first and pre-order: a directory is renamed first, then
//! listed, then its children are taken in listing order, recursing into
//! subdirectories. A media file is renamed, read, rewritten and saved; any
//! other file is only renamed. Failures on a single file are soft; a
//! directory that cannot be renamed or listed aborts the walk.

use crate::paths::{
    base_name, converted_path, is_media_path, media_name, name_ok, plan_rename, RenamePlan,
};
use crate::tags::{conv_field, FieldId, MediaRecord};
use crate::translit::conv_seq;
use vstd::prelude::*;

verus! {

/// One entry of a directory listing, as the driver reports it.
pub struct ChildEntry {
    /// The entry's full path.
    pub path: String,
    /// Whether the entry is itself a directory.
    pub is_dir: bool,
}

/// What the tag-codec made of one media file.
pub enum ReadOutcome {
    /// The file could not be parsed as a tag container.
    Failed,
    /// The file parsed but carries no primary tag.
    NoTag,
    /// The tracked fields of the file's primary tag.
    Tag(MediaRecord),
}

/// The failures that abort the walk. A failure to rename, read or save a
/// single file is soft: the driver reports it and answers with the matching
/// event, and the walk goes on with the next sibling.
pub enum WalkError {
    /// An entry's path has no extractable name.
    InvalidPath { path: String },
    /// A directory could not be renamed.
    RenameFailure { from: String, to: String },
    /// A directory's contents could not be listed.
    ListFailure { path: String },
}

/// What the walker asks the driver to do next.
pub enum Action {
    /// Report whether the path names a directory.
    Probe { path: String },
    /// Try the filesystem rename and report whether it succeeded.
    Rename { from: String, to: String },
    /// List the directory's immediate children.
    List { path: String },
    /// Read the tracked tag fields of the media file.
    Read { path: String },
    /// Persist the rewritten record to the media file.
    Save { path: String, record: MediaRecord },
    /// Nothing to perform: answer with Event::Go.
    Continue,
    /// The walk is over; the count of edited records.
    Finish { edited: u64 },
    /// The walk aborted.
    Fail { error: WalkError },
}

/// What the driver reports back to the walker.
pub enum Event {
    /// Nothing to report: the opening move, and the answer to
    /// Action::Continue.
    Go,
    /// Answers Action::Probe.
    ProbeDone { is_dir: bool },
    /// Answers Action::Rename.
    RenameDone { ok: bool },
    /// Answers Action::List: the children in enumeration order.
    ListDone { ok: bool, entries: Vec<ChildEntry> },
    /// Answers Action::Read.
    ReadDone { outcome: ReadOutcome },
    /// Answers Action::Save.
    SaveDone { ok: bool },
}

/// Where the walker stands between two steps.
pub enum Phase {
    /// Not started.
    Ready,
    /// Waiting to hear whether the root is a directory.
    Probing,
    /// Waiting for the rename of a directory to the carried path.
    RenamingDir { from: String, to: String },
    /// Waiting for the listing of the directory.
    Listing { path: String },
    /// Between children: the next one comes from the top frame.
    Scanning,
    /// Waiting for the rename of a file, and whether it is a media file.
    RenamingFile { to: String, media: bool },
    /// Waiting for the tag read of the media file.
    Reading { path: String },
    /// Waiting for the save of the rewritten record.
    Saving,
    /// Terminal: a Finish or Fail action was produced.
    Finished,
}

impl Clone for Phase {
    /// An equal copy of the phase.
    fn clone(&self) -> (r: Self)
        ensures
            r == *self,
    {
        match self {
            Phase::Ready => Phase::Ready,
            Phase::Probing => Phase::Probing,
            Phase::RenamingDir { from, to } => Phase::RenamingDir {
                from: from.clone(),
                to: to.clone(),
            },
            Phase::Listing { path } => Phase::Listing { path: path.clone() },
            Phase::Scanning => Phase::Scanning,
            Phase::RenamingFile { to, media } => Phase::RenamingFile {
                to: to.clone(),
                media: *media,
            },
            Phase::Reading { path } => Phase::Reading { path: path.clone() },
            Phase::Saving => Phase::Saving,
            Phase::Finished => Phase::Finished,
        }
    }
}

/// One directory being scanned: its children, in listing order, and how
/// many of them have been taken up already.
pub struct Frame {
    pub entries: Vec<ChildEntry>,
    pub next: usize,
}

/// The traversal state: the stack of directories being scanned, the running
/// count of edited records, and the phase between two steps.
pub struct Walker {
    /// The root path the walk was started on.
    pub root: String,
    /// The directories on the way from the root to the current entry.
    pub frames: Vec<Frame>,
    /// How many files had at least one tracked field rewritten.
    pub edited: u64,
    /// Where the walker stands.
    pub phase: Phase,
}

/// The running count after one more edited record, capped at the integer's
/// top so that the step stays total.
pub open spec fn bump(c: u64) -> u64 {
    if c == u64::MAX {
        c
    } else {
        (c + 1) as u64
    }
}

/// The saved record is the transliteration of the one that was read, field
/// by field.
pub open spec fn rec_conv(read: MediaRecord, saved: MediaRecord) -> bool {
    forall|f: FieldId| #[trigger] saved.spec_field(f) == conv_field(read.spec_field(f))
}

/// The phase and action that follow from taking up the directory at p:
/// fail on a path without a name, list directly where the name needs no
/// change, and otherwise ask for the rename first.
pub open spec fn dir_step(p: String, post_phase: Phase, act: Action) -> bool {
    if !name_ok(p@) {
        &&& post_phase == Phase::Finished
        &&& act == (Action::Fail { error: WalkError::InvalidPath { path: p } })
    } else if conv_seq(base_name(p@)) == base_name(p@) {
        &&& post_phase == (Phase::Listing { path: p })
        &&& act == (Action::List { path: p })
    } else {
        &&& (post_phase matches Phase::RenamingDir { from, to } && from == p && to@
            == converted_path(p@))
        &&& (act matches Action::Rename { from, to } && from == p && to@ == converted_path(p@))
    }
}

/// The phase and action that follow from taking up the file at p: fail on a
/// path without a name; where the name needs no change, read the tags of a
/// media file and skip any other file; otherwise ask for the rename first.
pub open spec fn file_step(p: String, post_phase: Phase, act: Action) -> bool {
    let media = media_name(base_name(p@));
    if !name_ok(p@) {
        &&& post_phase == Phase::Finished
        &&& act == (Action::Fail { error: WalkError::InvalidPath { path: p } })
    } else if conv_seq(base_name(p@)) == base_name(p@) {
        if media {
            &&& post_phase == (Phase::Reading { path: p })
            &&& act == (Action::Read { path: p })
        } else {
            &&& post_phase == Phase::Scanning
            &&& act == Action::Continue
        }
    } else {
        &&& (post_phase matches Phase::RenamingFile { to, media: m } && to@ == converted_path(p@)
            && m == media)
        &&& (act matches Action::Rename { from, to } && from == p && to@ == converted_path(p@))
    }
}

/// The full transition relation of the walker: given the state before the
/// step and the driver's event, it pins down the state after the step and
/// the action handed back.
pub open spec fn step_rel(pre: Walker, event: Event, post: Walker, act: Action) -> bool {
    &&& post.root == pre.root
    &&& match (pre.phase, event) {
        (Phase::Ready, Event::Go) => {
            &&& post.frames == pre.frames
            &&& post.edited == pre.edited
            &&& post.phase == Phase::Probing
            &&& act == (Action::Probe { path: pre.root })
        },
        (Phase::Probing, Event::ProbeDone { is_dir }) => {
            &&& post.frames == pre.frames
            &&& post.edited == pre.edited
            &&& if is_dir {
                dir_step(pre.root, post.phase, act)
            } else {
                post.phase == Phase::Finished && act == (Action::Finish { edited: pre.edited })
            }
        },
        (Phase::RenamingDir { from, to }, Event::RenameDone { ok }) => {
            &&& post.frames == pre.frames
            &&& post.edited == pre.edited
            &&& if ok {
                post.phase == (Phase::Listing { path: to }) && act == (Action::List { path: to })
            } else {
                post.phase == Phase::Finished && act == (Action::Fail {
                    error: WalkError::RenameFailure { from: from, to: to },
                })
            }
        },
        (Phase::Listing { path }, Event::ListDone { ok, entries }) => {
            &&& post.edited == pre.edited
            &&& if ok {
                &&& post.frames@ == pre.frames@.push(Frame { entries: entries, next: 0 })
                &&& post.phase == Phase::Scanning
                &&& act == Action::Continue
            } else {
                &&& post.frames == pre.frames
                &&& post.phase == Phase::Finished
                &&& act == (Action::Fail { error: WalkError::ListFailure { path: path } })
            }
        },
        (Phase::Scanning, Event::Go) => {
            if pre.frames@.len() == 0 {
                &&& post.frames == pre.frames
                &&& post.edited == pre.edited
                &&& post.phase == Phase::Finished
                &&& act == (Action::Finish { edited: pre.edited })
            } else {
                let top = pre.frames@.last();
                if top.next >= top.entries@.len() {
                    &&& post.frames@ == pre.frames@.drop_last()
                    &&& post.edited == pre.edited
                    &&& post.phase == Phase::Scanning
                    &&& act == Action::Continue
                } else {
                    let child = top.entries@[top.next as int];
                    &&& post.frames@ == pre.frames@.update(
                        pre.frames@.len() - 1,
                        Frame { entries: top.entries, next: (top.next + 1) as usize },
                    )
                    &&& post.edited == pre.edited
                    &&& if child.is_dir {
                        dir_step(child.path, post.phase, act)
                    } else {
                        file_step(child.path, post.phase, act)
                    }
                }
            }
        },
        (Phase::RenamingFile { to, media }, Event::RenameDone { ok }) => {
            &&& post.frames == pre.frames
            &&& post.edited == pre.edited
            &&& if ok && media {
                post.phase == (Phase::Reading { path: to }) && act == (Action::Read { path: to })
            } else {
                post.phase == Phase::Scanning && act == Action::Continue
            }
        },
        (Phase::Reading { path }, Event::ReadDone { outcome }) => {
            &&& post.frames == pre.frames
            &&& match outcome {
                ReadOutcome::Tag(rec) => {
                    if rec.any_field_changes() {
                        &&& post.edited == bump(pre.edited)
                        &&& post.phase == Phase::Saving
                        &&& (act matches Action::Save { path: sp, record: nr } && sp == path
                            && rec_conv(rec, nr))
                    } else {
                        &&& post.edited == pre.edited
                        &&& post.phase == Phase::Scanning
                        &&& act == Action::Continue
                    }
                },
                _ => {
                    &&& post.edited == pre.edited
                    &&& post.phase == Phase::Scanning
                    &&& act == Action::Continue
                },
            }
        },
        (Phase::Saving, Event::SaveDone { ok }) => {
            &&& post.frames == pre.frames
            &&& post.edited == pre.edited
            &&& post.phase == Phase::Scanning
            &&& act == Action::Continue
        },
        _ => false,
    }
}

impl Walker {
    /// The event kind the walker can take next.
    pub open spec fn spec_expects(self, event: Event) -> bool {
        match self.phase {
            Phase::Ready => event is Go,
            Phase::Probing => event is ProbeDone,
            Phase::RenamingDir { .. } => event is RenameDone,
            Phase::Listing { .. } => event is ListDone,
            Phase::Scanning => event is Go,
            Phase::RenamingFile { .. } => event is RenameDone,
            Phase::Reading { .. } => event is ReadDone,
            Phase::Saving => event is SaveDone,
            Phase::Finished => false,
        }
    }

    /// Whether the walker can take the given event next: the driver guards
    /// each step call with this test.
    pub fn expects(&self, event: &Event) -> (r: bool)
        ensures
            r == self.spec_expects(*event),
    {
        match (&self.phase, event) {
            (Phase::Ready, Event::Go) => true,
            (Phase::Probing, Event::ProbeDone { .. }) => true,
            (Phase::RenamingDir { .. }, Event::RenameDone { .. }) => true,
            (Phase::Listing { .. }, Event::ListDone { .. }) => true,
            (Phase::Scanning, Event::Go) => true,
            (Phase::RenamingFile { .. }, Event::RenameDone { .. }) => true,
            (Phase::Reading { .. }, Event::ReadDone { .. }) => true,
            (Phase::Saving, Event::SaveDone { .. }) => true,
            _ => false,
        }
    }

    /// A walker for the tree rooted at the given path, with nothing visited
    /// and nothing counted yet.
    pub fn new(root: String) -> (w: Walker)
        ensures
            w.root == root,
            w.frames@.len() == 0,
            w.edited == 0,
            w.phase == Phase::Ready,
    {
        Walker { root, frames: Vec::new(), edited: 0, phase: Phase::Ready }
    }

    /// Takes up the directory at p: plans the rename of its own name and
    /// moves to the matching phase.
    fn enter_dir(&mut self, p: String) -> (act: Action)
        ensures
            final(self).root == old(self).root,
            final(self).frames == old(self).frames,
            final(self).edited == old(self).edited,
            dir_step(p, final(self).phase, act),
    {
        match plan_rename(&p) {
            RenamePlan::Invalid => {
                self.phase = Phase::Finished;
                Action::Fail { error: WalkError::InvalidPath { path: p } }
            },
            RenamePlan::Keep => {
                self.phase = Phase::Listing { path: p.clone() };
                Action::List { path: p }
            },
            RenamePlan::Rename { to } => {
                self.phase = Phase::RenamingDir { from: p.clone(), to: to.clone() };
                Action::Rename { from: p, to }
            },
        }
    }

    /// Takes up the file at p: plans the rename of its name, and where no
    /// rename is needed goes straight to reading a media file's tags or to
    /// skipping any other file.
    fn enter_file(&mut self, p: String) -> (act: Action)
        ensures
            final(self).root == old(self).root,
            final(self).frames == old(self).frames,
            final(self).edited == old(self).edited,
            file_step(p, final(self).phase, act),
    {
        let media = is_media_path(&p);
        match plan_rename(&p) {
            RenamePlan::Invalid => {
                self.phase = Phase::Finished;
                Action::Fail { error: WalkError::InvalidPath { path: p } }
            },
            RenamePlan::Keep => {
                if media {
                    self.phase = Phase::Reading { path: p.clone() };
                    Action::Read { path: p }
                } else {
                    self.phase = Phase::Scanning;
                    Action::Continue
                }
            },
            RenamePlan::Rename { to } => {
                self.phase = Phase::RenamingFile { to: to.clone(), media };
                Action::Rename { from: p, to }
            },
        }
    }

    /// One transition of the traversal: takes the outcome of the previous
    /// action and produces the next one.
    pub fn step(&mut self, event: Event) -> (act: Action)
        requires
            old(self).spec_expects(event),
        ensures
            step_rel(*old(self), event, *final(self), act),
    {
        let ph = self.phase.clone();
        match (ph, event) {
            (Phase::Ready, Event::Go) => {
                self.phase = Phase::Probing;
                Action::Probe { path: self.root.clone() }
            },
            (Phase::Probing, Event::ProbeDone { is_dir }) => {
                if is_dir {
                    let root = self.root.clone();
                    self.enter_dir(root)
                } else {
                    self.phase = Phase::Finished;
                    Action::Finish { edited: self.edited }
                }
            },
            (Phase::RenamingDir { from, to }, Event::RenameDone { ok }) => {
                if ok {
                    self.phase = Phase::Listing { path: to.clone() };
                    Action::List { path: to }
                } else {
                    self.phase = Phase::Finished;
                    Action::Fail { error: WalkError::RenameFailure { from, to } }
                }
            },
            (Phase::Listing { path }, Event::ListDone { ok, entries }) => {
                if ok {
                    self.frames.push(Frame { entries, next: 0 });
                    self.phase = Phase::Scanning;
                    Action::Continue
                } else {
                    self.phase = Phase::Finished;
                    Action::Fail { error: WalkError::ListFailure { path } }
                }
            },
            (Phase::Scanning, Event::Go) => {
                if self.frames.len() == 0 {
                    self.phase = Phase::Finished;
                    Action::Finish { edited: self.edited }
                } else {
                    let mut top = self.frames.pop().unwrap();
                    if top.next >= top.entries.len() {
                        Action::Continue
                    } else {
                        let p = top.entries[top.next].path.clone();
                        let d = top.entries[top.next].is_dir;
                        top.next = top.next + 1;
                        self.frames.push(top);
                        proof {
                            assert(self.frames@ =~= old(self).frames@.update(
                                old(self).frames@.len() - 1,
                                Frame {
                                    entries: old(self).frames@.last().entries,
                                    next: (old(self).frames@.last().next + 1) as usize,
                                },
                            ));
                        }
                        if d {
                            self.enter_dir(p)
                        } else {
                            self.enter_file(p)
                        }
                    }
                }
            },
            (Phase::RenamingFile { to, media }, Event::RenameDone { ok }) => {
                if ok && media {
                    self.phase = Phase::Reading { path: to.clone() };
                    Action::Read { path: to }
                } else {
                    self.phase = Phase::Scanning;
                    Action::Continue
                }
            },
            (Phase::Reading { path }, Event::ReadDone { outcome }) => {
                match outcome {
                    ReadOutcome::Tag(rec) => {
                        let mut saved = rec;
                        let changed = saved.convert_fields();
                        if changed {
                            self.edited = if self.edited == u64::MAX {
                                u64::MAX
                            } else {
                                self.edited + 1
                            };
                            self.phase = Phase::Saving;
                            Action::Save { path, record: saved }
                        } else {
                            self.phase = Phase::Scanning;
                            Action::Continue
                        }
                    },
                    _ => {
                        self.phase = Phase::Scanning;
                        Action::Continue
                    },
                }
            },
            (Phase::Saving, Event::SaveDone { .. }) => {
                self.phase = Phase::Scanning;
                Action::Continue
            },
            _ => {
                proof {
                    assert(false);
                }
                Action::Continue
            },
        }
    }
}

/// Where the transliterated name equals the current one, taking up an
/// entry, directory or file, never asks the driver for a filesystem
/// rename: the entry keeps its path untouched.
pub proof fn lemma_no_spurious_rename(p: String, post_phase: Phase, act: Action)
    requires
        conv_seq(base_name(p@)) == base_name(p@),
        dir_step(p, post_phase, act) || file_step(p, post_phase, act),
    ensures
        !(act is Rename),
{
}

/// What makes the count grow: the walker was waiting on a tag read, the
/// read yielded a tag, and at least one tracked field changes under
/// transliteration.
pub open spec fn counts_as_edit(pre: Walker, event: Event) -> bool {
    &&& pre.phase is Reading
    &&& (event matches Event::ReadDone { outcome: ReadOutcome::Tag(rec) }
        && rec.any_field_changes())
}

/// The running count grows by one on exactly the step that finds a media
/// file whose tracked fields change under transliteration; no other step,
/// renames included, touches it.
pub proof fn lemma_count_only_edits(pre: Walker, event: Event, post: Walker, act: Action)
    requires
        step_rel(pre, event, post, act),
        pre.edited < u64::MAX,
    ensures
        counts_as_edit(pre, event) ==> post.edited == pre.edited + 1,
        !counts_as_edit(pre, event) ==> post.edited == pre.edited,
{
}

/// How many of the first n steps of a run count as edits.
pub open spec fn edits_in(states: Seq<Walker>, events: Seq<Event>, n: int) -> int
    decreases n,
{
    if n <= 0 {
        0
    } else {
        edits_in(states, events, n - 1) + if counts_as_edit(states[n - 1], events[n - 1]) {
            1int
        } else {
            0int
        }
    }
}

/// The number of counting steps lies between zero and the number of steps.
proof fn lemma_edits_in_bounds(states: Seq<Walker>, events: Seq<Event>, n: int)
    requires
        0 <= n,
    ensures
        0 <= edits_in(states, events, n) <= n,
    decreases n,
{
    if n > 0 {
        lemma_edits_in_bounds(states, events, n - 1);
    }
}

/// The count after the first n steps of a run.
proof fn lemma_run_count_upto(states: Seq<Walker>, events: Seq<Event>, acts: Seq<Action>, n: int)
    requires
        states.len() == events.len() + 1,
        acts.len() == events.len(),
        forall|i: int|
            0 <= i < events.len() ==> step_rel(
                #[trigger] states[i],
                events[i],
                states[i + 1],
                acts[i],
            ),
        states[0].edited + events.len() < u64::MAX,
        0 <= n <= events.len(),
    ensures
        states[n].edited == states[0].edited + edits_in(states, events, n),
    decreases n,
{
    if n > 0 {
        lemma_run_count_upto(states, events, acts, n - 1);
        lemma_edits_in_bounds(states, events, n - 1);
        lemma_count_only_edits(states[n - 1], events[n - 1], states[n], acts[n - 1]);
    }
}

/// Over a whole run of the walker, the count of edited records grows by
/// exactly the number of steps that found a media file whose tracked fields
/// change under transliteration: one per such file, and no step of any
/// other kind, renames included, contributes.
pub proof fn lemma_run_count(states: Seq<Walker>, events: Seq<Event>, acts: Seq<Action>)
    requires
        states.len() == events.len() + 1,
        acts.len() == events.len(),
        forall|i: int|
            0 <= i < events.len() ==> step_rel(
                #[trigger] states[i],
                events[i],
                states[i + 1],
                acts[i],
            ),
        states[0].edited + events.len() < u64::MAX,
    ensures
        states.last().edited == states[0].edited + edits_in(states, events, events.len() as int),
{
    lemma_run_count_upto(states, events, acts, events.len() as int);
}

} // verus!
