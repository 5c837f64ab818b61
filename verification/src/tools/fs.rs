//! A compact listing of a directory tree.
//!
//! The tool reads no directory itself. A [`Walk`] says which directory it
//! wants read next, takes the entries that its caller found there, and
//! lays the tree out line by line, depth first, within the limits of the
//! configuration.
use crate::config::Config;
use crate::text::buffer::{push_chars, push_str};
use crate::text::convert::{chars_of, str_equals, string_of, texts, views};
use crate::text::lines::{join, push_joined};
use crate::text::number::{decimal, push_decimal};
use vstd::prelude::*;

verus! {

/// FS tool: compact tree listing (no external command needed).
pub struct FsTool {
    path: String,
    max_depth: usize,
    max_entries: usize,
    skip: Vec<String>,
}

/// What the root of a listing is.
#[derive(Clone, Copy, Debug, PartialEq, Eq)]
pub enum PathKind {
    Missing,
    File,
    Directory,
}

/// One entry of a directory, as its reader found it.
pub struct DirEntry {
    pub name: String,
    pub is_dir: bool,
}

/// The model of an entry.
pub ghost struct EntryView {
    pub name: Seq<char>,
    pub is_dir: bool,
}

impl View for DirEntry {
    type V = EntryView;

    open spec fn view(&self) -> EntryView {
        EntryView { name: self.name@, is_dir: self.is_dir }
    }
}

/// The models of the entries.
pub open spec fn entry_views(entries: Seq<DirEntry>) -> Seq<EntryView> {
    entries.map_values(|e: DirEntry| e@)
}

/// A directory that is being listed: its entries, how many of them are
/// done, what stands before each of their lines, its depth below the
/// root, and the names that lead to it from there.
pub struct Frame {
    pub entries: Vec<DirEntry>,
    pub next: usize,
    pub prefix: Vec<char>,
    pub depth: usize,
    pub path: Vec<String>,
}

/// The model of a frame.
pub ghost struct FrameView {
    pub entries: Seq<EntryView>,
    pub next: nat,
    pub prefix: Seq<char>,
    pub depth: nat,
    pub path: Seq<Seq<char>>,
}

impl View for Frame {
    type V = FrameView;

    open spec fn view(&self) -> FrameView {
        FrameView {
            entries: entry_views(self.entries@),
            next: self.next as nat,
            prefix: self.prefix@,
            depth: self.depth as nat,
            path: texts(self.path@),
        }
    }
}

/// The models of the frames.
pub open spec fn frame_views(frames: Seq<Frame>) -> Seq<FrameView> {
    frames.map_values(|f: Frame| f@)
}

/// What a walk asks of its caller.
pub enum Step {
    /// Read the directory that these names lead to from the root, and hand
    /// its entries, sorted by name, to [`Walk::enter`].
    Read(Vec<String>),
    /// Nothing: ask again.
    More,
    /// The walk has ended.
    Done,
}

/// The model of a step.
pub ghost enum StepView {
    Read(Seq<Seq<char>>),
    More,
    Done,
}

impl View for Step {
    type V = StepView;

    open spec fn view(&self) -> StepView {
        match self {
            Step::Read(path) => StepView::Read(texts(path@)),
            Step::More => StepView::More,
            Step::Done => StepView::Done,
        }
    }
}

/// A listing in progress.
pub struct Walk {
    max_depth: usize,
    max_entries: usize,
    skip: Vec<String>,
    frames: Vec<Frame>,
    lines: Vec<Vec<char>>,
    awaited: Option<Frame>,
}

/// The model of a walk: its limits, the directories that are open, the
/// innermost last, the lines laid out so far, and the directory whose
/// entries are awaited, if any.
pub ghost struct WalkView {
    pub max_depth: nat,
    pub max_entries: nat,
    pub skip: Seq<Seq<char>>,
    pub frames: Seq<FrameView>,
    pub lines: Seq<Seq<char>>,
    pub awaited: Option<FrameView>,
}

/// The entries that are shown: those whose name is not to be skipped.
pub open spec fn visible(entries: Seq<EntryView>, skip: Seq<Seq<char>>) -> Seq<EntryView> {
    entries.filter(|e: EntryView| !skip.contains(e.name))
}

/// The line of an entry: behind the prefix of its directory a connector,
/// which tells whether it is the last one, then its name, and a slash
/// behind a directory.
pub open spec fn tree_line(prefix: Seq<char>, entry: EntryView, is_last: bool) -> Seq<char> {
    prefix + (if is_last {
        "└── "@
    } else {
        "├── "@
    }) + entry.name + (if entry.is_dir {
        "/"@
    } else {
        Seq::empty()
    })
}

/// What stands before the lines of the entries of a directory: the prefix
/// of the directory above, and a rule down to its later entries, or blanks
/// where it is the last one.
pub open spec fn child_prefix(prefix: Seq<char>, is_last: bool) -> Seq<char> {
    prefix + (if is_last {
        "    "@
    } else {
        "│   "@
    })
}

/// The walk after its caller has handed over the entries of the directory
/// that it awaited: that directory is open, with the entries that are
/// shown. A walk that awaited nothing stays as it is.
pub open spec fn entered(w: WalkView, listing: Seq<EntryView>) -> WalkView {
    match w.awaited {
        Some(f) => WalkView {
            max_depth: w.max_depth,
            max_entries: w.max_entries,
            skip: w.skip,
            frames: w.frames.push(
                FrameView {
                    entries: visible(listing, w.skip),
                    next: 0,
                    prefix: f.prefix,
                    depth: f.depth,
                    path: f.path,
                },
            ),
            lines: w.lines,
            awaited: None,
        },
        None => w,
    }
}

/// The walk after one step, and what it asks for.
///
/// A walk that awaits entries asks for them again. A walk with no open
/// directory has ended. An open directory is closed when all its entries
/// are done or more than the allowed number of lines are laid out. Else
/// its next entry gets its line; if that is a directory within the allowed
/// depth, and the lines are not yet more than allowed, its entries are
/// asked for.
pub open spec fn stepped(w: WalkView) -> (WalkView, StepView) {
    if w.awaited is Some {
        (w, StepView::Read(w.awaited->0.path))
    } else if w.frames.len() == 0 {
        (w, StepView::Done)
    } else {
        let top = w.frames.last();
        if top.next >= top.entries.len() || w.lines.len() > w.max_entries {
            (
                WalkView {
                    max_depth: w.max_depth,
                    max_entries: w.max_entries,
                    skip: w.skip,
                    frames: w.frames.drop_last(),
                    lines: w.lines,
                    awaited: None,
                },
                StepView::More,
            )
        } else {
            let entry = top.entries[top.next as int];
            let is_last = top.next + 1 == top.entries.len();
            let lines = w.lines.push(tree_line(top.prefix, entry, is_last));
            let frames = w.frames.drop_last().push(
                FrameView {
                    entries: top.entries,
                    next: top.next + 1,
                    prefix: top.prefix,
                    depth: top.depth,
                    path: top.path,
                },
            );
            if entry.is_dir && top.depth < w.max_depth && lines.len() <= w.max_entries {
                let child = FrameView {
                    entries: Seq::empty(),
                    next: 0,
                    prefix: child_prefix(top.prefix, is_last),
                    depth: top.depth + 1,
                    path: top.path.push(entry.name),
                };
                (
                    WalkView {
                        max_depth: w.max_depth,
                        max_entries: w.max_entries,
                        skip: w.skip,
                        frames,
                        lines,
                        awaited: Some(child),
                    },
                    StepView::Read(child.path),
                )
            } else {
                (
                    WalkView {
                        max_depth: w.max_depth,
                        max_entries: w.max_entries,
                        skip: w.skip,
                        frames,
                        lines,
                        awaited: None,
                    },
                    StepView::More,
                )
            }
        }
    }
}

/// A walk never lays out more than one line beyond the allowed number:
/// neither taking entries nor taking a step leads beyond that.
pub proof fn lemma_walk_bounded(w: WalkView, listing: Seq<EntryView>)
    requires
        w.lines.len() <= w.max_entries + 1,
    ensures
        entered(w, listing).lines.len() <= w.max_entries + 1,
        stepped(w).0.lines.len() <= w.max_entries + 1,
        entered(w, listing).max_entries == w.max_entries,
        stepped(w).0.max_entries == w.max_entries,
{
}

/// A walk that has ended stays ended, and one that awaits entries keeps
/// asking for them.
pub proof fn lemma_walk_waits(w: WalkView)
    ensures
        stepped(w).1 is Done ==> stepped(stepped(w).0) == stepped(w),
        w.awaited is Some ==> stepped(w).0 == w && stepped(w).1 is Read,
{
}

/// The text of a listing: a note where the root is missing or a file; else
/// the number of lines and the lines, with a closing note where they are
/// more than allowed.
pub open spec fn listing_text(path: Seq<char>, root: PathKind, w: WalkView) -> Seq<char> {
    match root {
        PathKind::Missing => "[ls] error: `"@ + path + "` does not exist"@,
        PathKind::File => "[ls] "@ + path + " (file)"@,
        PathKind::Directory => {
            let count = w.lines.len();
            "[ls] "@ + path + " ("@ + decimal(count) + " entries)\n"@ + join(
                if count > w.max_entries {
                    w.lines.push(
                        "… "@ + decimal(count) + " entries total, showing first "@ + decimal(
                            w.max_entries,
                        ),
                    )
                } else {
                    w.lines
                },
                "\n"@,
            )
        },
    }
}

impl View for Walk {
    type V = WalkView;

    closed spec fn view(&self) -> WalkView {
        WalkView {
            max_depth: self.max_depth as nat,
            max_entries: self.max_entries as nat,
            skip: texts(self.skip@),
            frames: frame_views(self.frames@),
            lines: views(self.lines@),
            awaited: match self.awaited {
                Some(f) => Some(f@),
                None => None,
            },
        }
    }
}

fn copy_names(names: &Vec<String>) -> (out: Vec<String>)
    ensures
        texts(out@) == texts(names@),
{
    let mut out: Vec<String> = Vec::new();
    let mut i: usize = 0;
    while i < names.len()
        invariant
            i <= names.len(),
            out.len() == i,
            forall|k: int| 0 <= k < i ==> out@[k]@ == names@[k]@,
        decreases names.len() - i,
    {
        out.push(names[i].clone());
        i += 1;
    }
    assert(texts(out@) =~= texts(names@));
    out
}

fn is_skipped(skip: &Vec<String>, name: &String) -> (b: bool)
    ensures
        b == texts(skip@).contains(name@),
{
    let mut i: usize = 0;
    while i < skip.len()
        invariant
            i <= skip.len(),
            forall|k: int| 0 <= k < i ==> texts(skip@)[k] != name@,
        decreases skip.len() - i,
    {
        if str_equals(skip[i].as_str(), name.as_str()) {
            assert(texts(skip@)[i as int] == name@);
            return true;
        }
        i += 1;
    }
    false
}

fn keep_visible(listing: Vec<DirEntry>, skip: &Vec<String>) -> (out: Vec<DirEntry>)
    ensures
        entry_views(out@) == visible(entry_views(listing@), texts(skip@)),
{
    let ghost all = entry_views(listing@);
    let ghost shown = |e: EntryView| !texts(skip@).contains(e.name);
    let mut out: Vec<DirEntry> = Vec::new();
    let mut i: usize = 0;
    proof {
        reveal(Seq::filter);
        assert(all.take(0) =~= Seq::empty());
        assert(entry_views(out@) =~= Seq::empty());
    }
    while i < listing.len()
        invariant
            i <= listing.len(),
            all == entry_views(listing@),
            shown == (|e: EntryView| !texts(skip@).contains(e.name)),
            entry_views(out@) == all.take(i as int).filter(shown),
        decreases listing.len() - i,
    {
        let ghost before = entry_views(out@);
        proof {
            assert(all.take(i + 1) =~= all.take(i as int).push(listing@[i as int]@));
            all.take(i as int).lemma_filter_push(listing@[i as int]@, shown);
        }
        if !is_skipped(skip, &listing[i].name) {
            out.push(DirEntry { name: listing[i].name.clone(), is_dir: listing[i].is_dir });
            assert(entry_views(out@) =~= before.push(listing@[i as int]@));
        }
        i += 1;
    }
    assert(all.take(listing.len() as int) =~= all);
    out
}

fn make_tree_line(prefix: &Vec<char>, entry: &DirEntry, is_last: bool) -> (out: Vec<char>)
    ensures
        out@ == tree_line(prefix@, entry@, is_last),
{
    let mut out = prefix.clone();
    if is_last {
        push_str(&mut out, "└── ");
    } else {
        push_str(&mut out, "├── ");
    }
    let name = chars_of(entry.name.as_str());
    push_chars(&mut out, &name);
    if entry.is_dir {
        push_str(&mut out, "/");
    }
    assert(out@ =~= tree_line(prefix@, entry@, is_last));
    out
}

fn make_child_prefix(prefix: &Vec<char>, is_last: bool) -> (out: Vec<char>)
    ensures
        out@ == child_prefix(prefix@, is_last),
{
    let mut out = prefix.clone();
    if is_last {
        push_str(&mut out, "    ");
    } else {
        push_str(&mut out, "│   ");
    }
    out
}

impl FsTool {
    /// The root of the listing.
    pub closed spec fn root(&self) -> Seq<char> {
        self.path@
    }

    /// How far below the root directories are entered.
    pub closed spec fn max_depth(&self) -> nat {
        self.max_depth as nat
    }

    /// How many lines are laid out before the listing stops.
    pub closed spec fn max_entries(&self) -> nat {
        self.max_entries as nat
    }

    /// The names that are left out.
    pub closed spec fn skip(&self) -> Seq<Seq<char>> {
        texts(self.skip@)
    }

    /// A listing of `path` within the limits that the configuration gives.
    pub fn new(path: String, cfg: &Config) -> (tool: Self)
        ensures
            tool.root() == path@,
            tool.max_depth() == cfg.ls_max_depth,
            tool.max_entries() == cfg.ls_max_entries,
            tool.skip() == texts(cfg.ls_skip@),
    {
        Self {
            path,
            max_depth: cfg.ls_max_depth,
            max_entries: cfg.ls_max_entries,
            skip: copy_names(&cfg.ls_skip),
        }
    }

    /// The root of the listing.
    pub fn path(&self) -> (path: &String)
        ensures
            path@ == self.root(),
    {
        &self.path
    }

    /// The walk at its start: nothing is laid out, and the entries of the
    /// root are awaited.
    pub open spec fn start(&self) -> WalkView {
        WalkView {
            max_depth: self.max_depth(),
            max_entries: self.max_entries(),
            skip: self.skip(),
            frames: Seq::empty(),
            lines: Seq::empty(),
            awaited: Some(
                FrameView {
                    entries: Seq::empty(),
                    next: 0,
                    prefix: Seq::empty(),
                    depth: 0,
                    path: Seq::empty(),
                },
            ),
        }
    }

    /// Start a walk of the root.
    pub fn walk(&self) -> (w: Walk)
        ensures
            w@ == self.start(),
    {
        let root = Frame {
            entries: Vec::new(),
            next: 0,
            prefix: Vec::new(),
            depth: 0,
            path: Vec::new(),
        };
        let w = Walk {
            max_depth: self.max_depth,
            max_entries: self.max_entries,
            skip: copy_names(&self.skip),
            frames: Vec::new(),
            lines: Vec::new(),
            awaited: Some(root),
        };
        proof {
            assert(entry_views(root.entries@) =~= Seq::empty());
            assert(texts(root.path@) =~= Seq::empty());
            assert(frame_views(w.frames@) =~= Seq::empty());
            assert(views(w.lines@) =~= Seq::empty());
        }
        w
    }

    /// The text to show for the root and the walk of it.
    pub fn report(&self, root: PathKind, walk: &Walk) -> (out: String)
        ensures
            out@ == listing_text(self.root(), root, walk@),
    {
        let mut out: Vec<char> = Vec::new();
        let path = chars_of(self.path.as_str());
        match root {
            PathKind::Missing => {
                push_str(&mut out, "[ls] error: `");
                push_chars(&mut out, &path);
                push_str(&mut out, "` does not exist");
                assert(out@ =~= listing_text(self.root(), root, walk@));
            },
            PathKind::File => {
                push_str(&mut out, "[ls] ");
                push_chars(&mut out, &path);
                push_str(&mut out, " (file)");
                assert(out@ =~= listing_text(self.root(), root, walk@));
            },
            PathKind::Directory => {
                let count = walk.lines.len();
                push_str(&mut out, "[ls] ");
                push_chars(&mut out, &path);
                push_str(&mut out, " (");
                push_decimal(&mut out, count);
                push_str(&mut out, " entries)\n");
                if count > walk.max_entries {
                    let mut note: Vec<char> = Vec::new();
                    push_str(&mut note, "… ");
                    push_decimal(&mut note, count);
                    push_str(&mut note, " entries total, showing first ");
                    push_decimal(&mut note, walk.max_entries);
                    let mut lines: Vec<Vec<char>> = Vec::new();
                    let mut i: usize = 0;
                    while i < count
                        invariant
                            i <= count,
                            count == walk.lines.len(),
                            lines.len() == i,
                            forall|k: int| 0 <= k < i ==> lines@[k]@ == walk.lines@[k]@,
                        decreases count - i,
                    {
                        lines.push(walk.lines[i].clone());
                        i += 1;
                    }
                    lines.push(note);
                    assert(views(lines@) =~= views(walk.lines@).push(
                        "… "@ + decimal(count as nat) + " entries total, showing first "@
                            + decimal(walk.max_entries as nat),
                    ));
                    push_joined(&mut out, &lines, "\n");
                } else {
                    push_joined(&mut out, &walk.lines, "\n");
                }
                assert(out@ =~= listing_text(self.root(), root, walk@));
            },
        }
        string_of(&out)
    }
}

impl Walk {
    /// Take the entries of the directory that was asked for; they are to be
    /// sorted by name.
    pub fn enter(&mut self, listing: Vec<DirEntry>)
        ensures
            final(self)@ == entered(old(self)@, entry_views(listing@)),
    {
        let awaited = self.awaited.take();
        match awaited {
            Some(f) => {
                let ghost before = frame_views(self.frames@);
                let entries = keep_visible(listing, &self.skip);
                self.frames.push(
                    Frame { entries, next: 0, prefix: f.prefix, depth: f.depth, path: f.path },
                );
                assert(frame_views(self.frames@) =~= before.push(
                    FrameView {
                        entries: visible(entry_views(listing@), texts(self.skip@)),
                        next: 0,
                        prefix: f.prefix@,
                        depth: f.depth as nat,
                        path: texts(f.path@),
                    },
                ));
            },
            None => {},
        }
    }

    /// Take one step, and say what is to be done before the next.
    pub fn step(&mut self) -> (s: Step)
        ensures
            (final(self)@, s@) == stepped(old(self)@),
    {
        match &self.awaited {
            Some(f) => {
                return Step::Read(copy_names(&f.path));
            },
            None => {},
        }
        if self.frames.len() == 0 {
            return Step::Done;
        }
        let ghost frames_before = frame_views(self.frames@);
        let ghost lines_before = views(self.lines@);
        let mut top = self.frames.pop().unwrap();
        assert(frame_views(self.frames@) =~= frames_before.drop_last());
        assert(top@ == frames_before.last());
        if top.next >= top.entries.len() || self.lines.len() > self.max_entries {
            return Step::More;
        }
        let is_last = top.next + 1 == top.entries.len();
        let entry = &top.entries[top.next];
        assert(entry@ == top@.entries[top.next as int]);
        let line = make_tree_line(&top.prefix, entry, is_last);
        self.lines.push(line);
        assert(views(self.lines@) =~= lines_before.push(tree_line(top.prefix@, entry@, is_last)));
        let descend = entry.is_dir && top.depth < self.max_depth && self.lines.len()
            <= self.max_entries;
        let mut request = Step::More;
        if descend {
            let mut path = copy_names(&top.path);
            path.push(entry.name.clone());
            assert(texts(path@) =~= texts(top.path@).push(entry.name@));
            let child = Frame {
                entries: Vec::new(),
                next: 0,
                prefix: make_child_prefix(&top.prefix, is_last),
                depth: top.depth + 1,
                path: copy_names(&path),
            };
            assert(entry_views(child.entries@) =~= Seq::empty());
            self.awaited = Some(child);
            request = Step::Read(path);
        }
        let ghost top_before = top@;
        top.next = top.next + 1;
        self.frames.push(top);
        assert(frame_views(self.frames@) =~= frames_before.drop_last().push(
            FrameView {
                entries: top_before.entries,
                next: top_before.next + 1,
                prefix: top_before.prefix,
                depth: top_before.depth,
                path: top_before.path,
            },
        ));
        request
    }
}

} // verus!
