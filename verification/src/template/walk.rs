//! Listing the templates of a project type and variant.
//!
//! The library reads no directory itself. A walk says which directory it needs
//! probed or listed next, the caller does that and reports what it found, and
//! the walk decides what to collect and where to go on. The shared layer is
//! walked first and the layer of the project type after it; each directory is
//! walked depth first, its entries in the order of the listing.

use crate::paths::{join, join_path};
use crate::template::loader::{ends_with_marker, has_template_marker};
use crate::template::{TemplateError, TemplateVariant};
use crate::text::chars_of;
use crate::ProjectType;
use vstd::prelude::*;

verus! {

/// One entry of a directory, as a listing reports it.
#[derive(Debug, Clone, PartialEq, Eq)]
pub struct DirEntry {
    /// The file name of the entry, without the directory.
    pub name: String,
    /// Whether the entry is a directory.
    pub is_dir: bool,
}

/// What the caller reports to a walk.
#[derive(Debug)]
pub enum WalkEvent {
    /// Whether the probed directory exists.
    Exists(bool),
    /// The entries of the listed directory, in the order of the listing.
    Entries(Vec<DirEntry>),
    /// The directory could not be listed.
    Unreadable(std::io::Error),
}

/// What a walk asks of the caller, or how it ended.
#[derive(Debug)]
pub enum WalkStep {
    /// Report whether the directory at `path` exists.
    Probe {
        /// The directory to probe.
        path: String,
    },
    /// Report the entries of the directory at `path`.
    List {
        /// The directory to list.
        path: String,
    },
    /// The walk is complete and holds the templates it found.
    Done,
    /// The walk failed.
    Failed(TemplateError),
}

/// Where a walk stands.
#[derive(Debug, Clone, Copy, PartialEq, Eq, Structural)]
pub enum WalkStage {
    /// Waiting to hear whether the directory of the project type exists.
    ProbeTyped,
    /// Waiting to hear whether the directory of the shared layer exists.
    ProbeShared,
    /// Waiting for the listing of a directory of the shared layer.
    ListShared,
    /// Waiting for the listing of a directory of the project type.
    ListTyped,
    /// Complete.
    Done,
    /// Failed.
    Failed,
}

/// An entry that a walk has seen and not yet looked at.
struct PendingEntry {
    path: String,
    is_dir: bool,
}

/// A pending entry as contracts speak of it.
pub ghost struct EntryView {
    /// The path of the entry.
    pub path: Seq<char>,
    /// Whether the entry is a directory.
    pub is_dir: bool,
}

/// A walk as contracts speak of it.
pub ghost struct WalkState {
    /// Where the walk stands.
    pub stage: WalkStage,
    /// The directory of the shared layer.
    pub base_dir: Seq<char>,
    /// The directory of the project type and variant.
    pub type_dir: Seq<char>,
    /// The directory whose listing is awaited.
    pub current: Seq<char>,
    /// The entries seen and not yet looked at; the last one is next.
    pub pending: Seq<EntryView>,
    /// The templates collected so far, in order.
    pub templates: Seq<Seq<char>>,
    /// How many of the templates belong to the shared layer, once that layer
    /// is complete.
    pub shared: nat,
}

/// The result of looking at pending entries up to the next directory.
pub ghost struct Drained {
    /// The entries that are still pending.
    pub pending: Seq<EntryView>,
    /// The templates collected.
    pub templates: Seq<Seq<char>>,
    /// The directory to list next, if one was reached.
    pub next_dir: Option<Seq<char>>,
}

/// The path of the entry called `name` in the directory `dir`.
pub open spec fn child_path(dir: Seq<char>, name: Seq<char>) -> Seq<char> {
    dir.push('/') + name
}

/// The entries of a listing of `dir` as pending entries, the first entry of
/// the listing last, so that it is looked at first.
pub open spec fn stacked(dir: Seq<char>, entries: Seq<DirEntry>) -> Seq<EntryView> {
    Seq::new(
        entries.len(),
        |k: int|
            EntryView {
                path: child_path(dir, entries[entries.len() - 1 - k].name@),
                is_dir: entries[entries.len() - 1 - k].is_dir,
            },
    )
}

/// Looks at pending entries from the last one down. A file is collected if it
/// has the template marker and dropped otherwise; the first directory stops
/// the search and is the one to list next.
pub open spec fn drained(pending: Seq<EntryView>, templates: Seq<Seq<char>>) -> Drained
    decreases pending.len(),
{
    if pending.len() == 0 {
        Drained { pending, templates, next_dir: None }
    } else {
        let top = pending.last();
        let rest = pending.drop_last();
        if top.is_dir {
            Drained { pending: rest, templates, next_dir: Some(top.path) }
        } else if has_template_marker(top.path) {
            drained(rest, templates.push(top.path))
        } else {
            drained(rest, templates)
        }
    }
}

/// The state after the listing of the current directory has arrived. Where
/// nothing is left of the shared layer the walk turns to the project type;
/// where nothing is left of the project type it is complete.
pub open spec fn after_listing(s: WalkState, entries: Seq<DirEntry>) -> WalkState {
    let d = drained(s.pending + stacked(s.current, entries), s.templates);
    match d.next_dir {
        Some(dir) => WalkState { current: dir, pending: d.pending, templates: d.templates, ..s },
        None => if s.stage == WalkStage::ListShared {
            WalkState {
                stage: WalkStage::ListTyped,
                current: s.type_dir,
                pending: d.pending,
                templates: d.templates,
                shared: d.templates.len(),
                ..s
            }
        } else {
            WalkState {
                stage: WalkStage::Done,
                pending: d.pending,
                templates: d.templates,
                ..s
            }
        },
    }
}

/// A failed walk: it holds no templates.
pub open spec fn failed(s: WalkState) -> WalkState {
    WalkState {
        stage: WalkStage::Failed,
        pending: Seq::empty(),
        templates: Seq::empty(),
        shared: 0,
        ..s
    }
}

/// The state that follows `s` on `event`. A missing directory of the project
/// type and an unreadable directory end the walk in failure; a missing shared
/// layer is passed over. An event that the stage does not wait for changes
/// nothing.
pub open spec fn next_state(s: WalkState, event: WalkEvent) -> WalkState {
    match (s.stage, event) {
        (WalkStage::ProbeTyped, WalkEvent::Exists(true)) => WalkState {
            stage: WalkStage::ProbeShared,
            ..s
        },
        (WalkStage::ProbeTyped, WalkEvent::Exists(false)) => failed(s),
        (WalkStage::ProbeShared, WalkEvent::Exists(true)) => WalkState {
            stage: WalkStage::ListShared,
            current: s.base_dir,
            ..s
        },
        (WalkStage::ProbeShared, WalkEvent::Exists(false)) => WalkState {
            stage: WalkStage::ListTyped,
            current: s.type_dir,
            ..s
        },
        (WalkStage::ListShared, WalkEvent::Entries(entries)) => after_listing(s, entries@),
        (WalkStage::ListTyped, WalkEvent::Entries(entries)) => after_listing(s, entries@),
        (WalkStage::ListShared, WalkEvent::Unreadable(_)) => failed(s),
        (WalkStage::ListTyped, WalkEvent::Unreadable(_)) => failed(s),
        _ => s,
    }
}

/// Whether the walk has ended, complete or failed.
pub open spec fn finished(s: WalkState) -> bool {
    s.stage == WalkStage::Done || s.stage == WalkStage::Failed
}

/// Whether `step` is what a walk in state `s` asks for.
pub open spec fn asks(s: WalkState, step: WalkStep) -> bool {
    match s.stage {
        WalkStage::ProbeTyped => step matches WalkStep::Probe { path } && path@ == s.type_dir,
        WalkStage::ProbeShared => step matches WalkStep::Probe { path } && path@ == s.base_dir,
        WalkStage::ListShared => step matches WalkStep::List { path } && path@ == s.current,
        WalkStage::ListTyped => step matches WalkStep::List { path } && path@ == s.current,
        WalkStage::Done => step is Done,
        WalkStage::Failed => step is Failed,
    }
}

/// Whether `step` is what a walk in state `s` answers to `event`: the failure
/// that the event causes, with the path it concerns, or else the request of
/// the state that follows.
pub open spec fn answers(s: WalkState, event: WalkEvent, step: WalkStep) -> bool {
    match (s.stage, event) {
        (WalkStage::ProbeTyped, WalkEvent::Exists(false)) => {
            step matches WalkStep::Failed(TemplateError::TemplateNotFound { path }) && path@
                == s.type_dir
        },
        (WalkStage::ListShared, WalkEvent::Unreadable(cause)) => {
            step matches WalkStep::Failed(TemplateError::LoadError { path, source }) && path@
                == s.current && source == cause
        },
        (WalkStage::ListTyped, WalkEvent::Unreadable(cause)) => {
            step matches WalkStep::Failed(TemplateError::LoadError { path, source }) && path@
                == s.current && source == cause
        },
        _ => !(step is Failed) && asks(next_state(s, event), step),
    }
}

/// Whether `path` lies below the directory `root`.
pub open spec fn below(root: Seq<char>, path: Seq<char>) -> bool {
    root.push('/').is_prefix_of(path)
}

/// Whether all of `entries` lie below `root`.
pub open spec fn all_below(root: Seq<char>, entries: Seq<EntryView>) -> bool {
    forall|i: int| 0 <= i < entries.len() ==> below(root, #[trigger] entries[i].path)
}

/// Whether the templates are those of the shared layer followed by those of
/// the project type: the first `shared` lie below `base_dir`, the others below
/// `type_dir`, and each has the template marker.
pub open spec fn layered(s: WalkState) -> bool {
    &&& s.shared <= s.templates.len()
    &&& forall|i: int|
        0 <= i < s.templates.len() ==> has_template_marker(#[trigger] s.templates[i])
    &&& forall|i: int| 0 <= i < s.shared ==> below(s.base_dir, #[trigger] s.templates[i])
    &&& forall|i: int|
        s.shared <= i < s.templates.len() ==> below(s.type_dir, #[trigger] s.templates[i])
}

/// What holds of a walk at every stage.
pub open spec fn well_formed(s: WalkState) -> bool {
    match s.stage {
        WalkStage::ProbeTyped | WalkStage::ProbeShared | WalkStage::Failed => {
            &&& s.templates.len() == 0
            &&& s.pending.len() == 0
            &&& s.shared == 0
        },
        WalkStage::ListShared => {
            &&& s.shared == 0
            &&& s.current == s.base_dir || below(s.base_dir, s.current)
            &&& all_below(s.base_dir, s.pending)
            &&& layered(WalkState { shared: s.templates.len(), ..s })
        },
        WalkStage::ListTyped => {
            &&& s.current == s.type_dir || below(s.type_dir, s.current)
            &&& all_below(s.type_dir, s.pending)
            &&& layered(s)
        },
        WalkStage::Done => {
            &&& s.pending.len() == 0
            &&& layered(s)
        },
    }
}

/// The pending entries of a walk as contracts speak of them.
spec fn pending_view(pending: Seq<PendingEntry>) -> Seq<EntryView> {
    Seq::new(pending.len(), |i: int| EntryView { path: pending[i].path@, is_dir: pending[i].is_dir })
}

/// The templates of a walk as contracts speak of them.
pub open spec fn texts(templates: Seq<String>) -> Seq<Seq<char>> {
    Seq::new(templates.len(), |i: int| templates[i]@)
}

/// A walk over the templates of one project type and variant.
pub struct TemplateWalk {
    stage: WalkStage,
    base_dir: String,
    type_dir: String,
    current: String,
    pending: Vec<PendingEntry>,
    templates: Vec<String>,
    shared: usize,
}

impl View for TemplateWalk {
    type V = WalkState;

    closed spec fn view(&self) -> WalkState {
        WalkState {
            stage: self.stage,
            base_dir: self.base_dir@,
            type_dir: self.type_dir@,
            current: self.current@,
            pending: pending_view(self.pending@),
            templates: texts(self.templates@),
            shared: self.shared as nat,
        }
    }
}

/// The state in which a walk over the repository at `base` begins.
pub open spec fn initial_state(base: Seq<char>, shape: ProjectType, variant: TemplateVariant) -> WalkState {
    WalkState {
        stage: WalkStage::ProbeTyped,
        base_dir: join_path(base, "base"@),
        type_dir: join_path(join_path(base, shape.dir_name()), variant.dir_name()),
        current: Seq::empty(),
        pending: Seq::empty(),
        templates: Seq::empty(),
        shared: 0,
    }
}

/// What a drain leaves of entries below `root`: the entries still pending and
/// the directory reached lie below `root`, the templates that were there stay
/// in place, and each one added lies below `root` and has the marker.
pub open spec fn drains_within(
    root: Seq<char>,
    templates: Seq<Seq<char>>,
    d: Drained,
) -> bool {
    &&& all_below(root, d.pending)
    &&& d.next_dir matches Some(dir) ==> below(root, dir)
    &&& d.next_dir is None ==> d.pending.len() == 0
    &&& templates.len() <= d.templates.len()
    &&& forall|i: int| 0 <= i < templates.len() ==> #[trigger] d.templates[i] == templates[i]
    &&& forall|i: int|
        templates.len() <= i < d.templates.len() ==> below(root, #[trigger] d.templates[i])
            && has_template_marker(d.templates[i])
}

proof fn lemma_drained_within(root: Seq<char>, pending: Seq<EntryView>, templates: Seq<Seq<char>>)
    requires
        all_below(root, pending),
    ensures
        drains_within(root, templates, drained(pending, templates)),
    decreases pending.len(),
{
    if pending.len() > 0 {
        let top = pending.last();
        let rest = pending.drop_last();
        let d = drained(pending, templates);
        assert(below(root, pending[pending.len() - 1].path));
        assert forall|i: int| 0 <= i < rest.len() implies below(root, #[trigger] rest[i].path) by {
            assert(rest[i] == pending[i]);
        }
        if !top.is_dir {
            if has_template_marker(top.path) {
                let more = templates.push(top.path);
                lemma_drained_within(root, rest, more);
                assert(d == drained(rest, more));
                assert forall|i: int| 0 <= i < templates.len() implies #[trigger] d.templates[i]
                    == templates[i] by {
                    assert(more[i] == templates[i]);
                }
                assert forall|i: int| templates.len() <= i < d.templates.len() implies below(
                    root,
                    #[trigger] d.templates[i],
                ) && has_template_marker(d.templates[i]) by {
                    if i == templates.len() {
                        assert(d.templates[i] == more[i]);
                    }
                }
            } else {
                lemma_drained_within(root, rest, templates);
            }
        }
    }
}

/// A well-formed walk stays well formed on every event: at every stage the
/// templates collected are those of the shared layer followed by those of the
/// project type.
pub proof fn lemma_step_keeps_well_formed(s: WalkState, event: WalkEvent)
    requires
        well_formed(s),
    ensures
        well_formed(next_state(s, event)),
{
    match (s.stage, event) {
        (WalkStage::ListShared, WalkEvent::Entries(entries)) => {
            lemma_listing_keeps_well_formed(s, entries@);
        },
        (WalkStage::ListTyped, WalkEvent::Entries(entries)) => {
            lemma_listing_keeps_well_formed(s, entries@);
        },
        _ => {},
    }
}

/// Where the directory of the project type is missing, the listing fails
/// with the error that names that directory, and holds no templates.
pub proof fn lemma_missing_type_directory(s: WalkState, step: WalkStep)
    requires
        s.stage == WalkStage::ProbeTyped,
        answers(s, WalkEvent::Exists(false), step),
    ensures
        step matches WalkStep::Failed(TemplateError::TemplateNotFound { path }) && path@
            == s.type_dir,
        next_state(s, WalkEvent::Exists(false)).stage == WalkStage::Failed,
        next_state(s, WalkEvent::Exists(false)).templates.len() == 0,
{
}

/// A listing fails for want of a directory only where the directory of the
/// project type is missing: once that directory is found to exist, no event
/// brings that error about.
pub proof fn lemma_not_found_only_at_first_probe(s: WalkState, event: WalkEvent, step: WalkStep)
    requires
        answers(s, event, step),
        step matches WalkStep::Failed(TemplateError::TemplateNotFound { .. }),
    ensures
        s.stage == WalkStage::ProbeTyped,
        event == WalkEvent::Exists(false),
{
}

proof fn lemma_listing_keeps_well_formed(s: WalkState, entries: Seq<DirEntry>)
    requires
        well_formed(s),
        s.stage == WalkStage::ListShared || s.stage == WalkStage::ListTyped,
    ensures
        well_formed(after_listing(s, entries)),
{
    let root = if s.stage == WalkStage::ListShared {
        s.base_dir
    } else {
        s.type_dir
    };
    let all = s.pending + stacked(s.current, entries);
    assert forall|i: int| 0 <= i < all.len() implies below(root, #[trigger] all[i].path) by {
        if i < s.pending.len() {
            assert(all[i] == s.pending[i]);
        } else {
            let k = i - s.pending.len();
            let e = entries[entries.len() - 1 - k];
            assert(all[i] == stacked(s.current, entries)[k]);
            assert(all[i].path == child_path(s.current, e.name@));
            assert(root.push('/').is_prefix_of(s.current.push('/')));
            assert(root.push('/').is_prefix_of(child_path(s.current, e.name@)));
        }
    }
    lemma_drained_within(root, all, s.templates);
    let d = drained(all, s.templates);
    let after = after_listing(s, entries);
    assert(after.templates == d.templates);
    assert forall|i: int| 0 <= i < d.templates.len() implies has_template_marker(
        #[trigger] d.templates[i],
    ) by {
        if i < s.templates.len() {
            assert(d.templates[i] == s.templates[i]);
        }
    }
    if s.stage == WalkStage::ListShared {
        assert forall|i: int| 0 <= i < d.templates.len() implies below(
            s.base_dir,
            #[trigger] d.templates[i],
        ) by {
            if i < s.templates.len() {
                assert(d.templates[i] == s.templates[i]);
            }
        }
    } else {
        assert forall|i: int| 0 <= i < s.shared implies below(
            s.base_dir,
            #[trigger] d.templates[i],
        ) by {
            assert(d.templates[i] == s.templates[i]);
        }
        assert forall|i: int| s.shared <= i < d.templates.len() implies below(
            s.type_dir,
            #[trigger] d.templates[i],
        ) by {
            if i < s.templates.len() {
                assert(d.templates[i] == s.templates[i]);
            }
        }
    }
}

impl TemplateWalk {
    /// Begins a walk over the repository at `base` for a project type and a
    /// variant. It first asks whether the directory of the project type exists.
    pub fn begin(base: &str, shape: ProjectType, variant: TemplateVariant) -> (started: (
        TemplateWalk,
        WalkStep,
    ))
        ensures
            started.0@ == initial_state(base@, shape, variant),
            well_formed(started.0@),
            asks(started.0@, started.1),
    {
        let base_dir = join(base, "base");
        let shape_dir = join(base, shape.directory());
        let type_dir = join(shape_dir.as_str(), variant.directory());
        let step = WalkStep::Probe { path: type_dir.clone() };
        let walk = TemplateWalk {
            stage: WalkStage::ProbeTyped,
            base_dir,
            type_dir,
            current: String::new(),
            pending: Vec::new(),
            templates: Vec::new(),
            shared: 0,
        };
        assert(walk@.pending =~= Seq::<EntryView>::empty());
        assert(walk@.templates =~= Seq::<Seq<char>>::empty());
        (walk, step)
    }

    /// Where the walk stands.
    pub fn stage(&self) -> (stage: WalkStage)
        ensures
            stage == self@.stage,
    {
        self.stage
    }

    /// The templates collected so far, in order.
    pub fn templates(&self) -> (found: &Vec<String>)
        ensures
            texts(found@) == self@.templates,
    {
        &self.templates
    }

    /// How many of the templates belong to the shared layer, once that layer
    /// is complete.
    pub fn shared_count(&self) -> (count: usize)
        ensures
            count == self@.shared,
    {
        self.shared
    }

    /// Ends the walk and hands out the templates collected.
    pub fn into_templates(self) -> (found: Vec<String>)
        ensures
            texts(found@) == self@.templates,
    {
        self.templates
    }

    fn fail(&mut self)
        ensures
            final(self)@ == failed(old(self)@),
    {
        self.stage = WalkStage::Failed;
        self.pending = Vec::new();
        self.templates = Vec::new();
        self.shared = 0;
        assert(self@.pending =~= Seq::<EntryView>::empty());
        assert(self@.templates =~= Seq::<Seq<char>>::empty());
    }

    fn stack(&mut self, entries: Vec<DirEntry>)
        ensures
            final(self)@ == (WalkState {
                pending: old(self)@.pending + stacked(old(self)@.current, entries@),
                ..old(self)@
            }),
    {
        let mut entries = entries;
        let ghost all = entries@;
        let ghost before = self@.pending;
        while entries.len() > 0
            invariant
                entries@ == all.take(entries.len() as int),
                entries.len() <= all.len(),
                self@ == (WalkState {
                    pending: before + stacked(old(self)@.current, all).take(
                        all.len() - entries.len(),
                    ),
                    ..old(self)@
                }),
            decreases entries.len(),
        {
            let ghost done = all.len() - entries.len();
            let ghost prior = self@.pending;
            let entry = entries.pop().unwrap();
            let mut path = self.current.clone();
            path.push('/');
            path.push_str(entry.name.as_str());
            self.pending.push(PendingEntry { path, is_dir: entry.is_dir });
            assert(entries@ =~= all.take(entries.len() as int));
            assert(self@.pending =~= prior.push(stacked(old(self)@.current, all)[done]));
            assert(self@.pending =~= before + stacked(old(self)@.current, all).take(done + 1));
        }
        assert(stacked(old(self)@.current, all).take(all.len() as int) =~= stacked(
            old(self)@.current,
            all,
        ));
    }

    fn drain(&mut self) -> (next_dir: Option<String>)
        ensures
            ({
                let d = drained(old(self)@.pending, old(self)@.templates);
                &&& final(self)@ == (WalkState {
                    pending: d.pending,
                    templates: d.templates,
                    ..old(self)@
                })
                &&& match next_dir {
                    Some(dir) => d.next_dir == Some(dir@),
                    None => d.next_dir is None,
                }
            }),
    {
        let ghost goal = drained(self@.pending, self@.templates);
        loop
            invariant
                goal == drained(old(self)@.pending, old(self)@.templates),
                drained(self@.pending, self@.templates) == goal,
                self@ == (WalkState {
                    pending: self@.pending,
                    templates: self@.templates,
                    ..old(self)@
                }),
            ensures
                self@ == (WalkState {
                    pending: goal.pending,
                    templates: goal.templates,
                    ..old(self)@
                }),
                goal.next_dir is None,
            decreases self.pending.len(),
        {
            let ghost prior = self@;
            match self.pending.pop() {
                None => {
                    assert(self@.pending =~= prior.pending);
                    break ;
                },
                Some(top) => {
                    assert(self@.pending =~= prior.pending.drop_last());
                    assert(prior.pending.last() == (EntryView {
                        path: top.path@,
                        is_dir: top.is_dir,
                    }));
                    if top.is_dir {
                        return Some(top.path);
                    }
                    if ends_with_marker(&chars_of(top.path.as_str())) {
                        self.templates.push(top.path);
                        assert(self@.templates =~= prior.templates.push(top.path@));
                    }
                },
            }
        }
        None
    }

    /// Whether the walk has ended, complete or failed, and takes no more events.
    pub fn is_finished(&self) -> (ended: bool)
        ensures
            ended == finished(self@),
    {
        self.stage == WalkStage::Done || self.stage == WalkStage::Failed
    }

    /// What the walk is waiting for.
    pub fn request(&self) -> (step: WalkStep)
        requires
            !finished(self@),
        ensures
            asks(self@, step),
            !(step is Failed),
    {
        match self.stage {
            WalkStage::ProbeTyped => WalkStep::Probe { path: self.type_dir.clone() },
            WalkStage::ProbeShared => WalkStep::Probe { path: self.base_dir.clone() },
            _ => WalkStep::List { path: self.current.clone() },
        }
    }

    /// Takes what the caller found and says what to do next.
    pub fn advance(&mut self, event: WalkEvent) -> (step: WalkStep)
        requires
            well_formed(old(self)@),
            !finished(old(self)@),
        ensures
            final(self)@ == next_state(old(self)@, event),
            answers(old(self)@, event, step),
            well_formed(final(self)@),
    {
        proof {
            lemma_step_keeps_well_formed(self@, event);
        }
        match event {
            WalkEvent::Exists(exists) => match self.stage {
                WalkStage::ProbeTyped => {
                    if exists {
                        self.stage = WalkStage::ProbeShared;
                        WalkStep::Probe { path: self.base_dir.clone() }
                    } else {
                        let path = self.type_dir.clone();
                        self.fail();
                        WalkStep::Failed(TemplateError::TemplateNotFound { path })
                    }
                },
                WalkStage::ProbeShared => {
                    if exists {
                        self.stage = WalkStage::ListShared;
                        self.current = self.base_dir.clone();
                    } else {
                        self.stage = WalkStage::ListTyped;
                        self.current = self.type_dir.clone();
                    }
                    WalkStep::List { path: self.current.clone() }
                },
                _ => self.request(),
            },
            WalkEvent::Entries(entries) => match self.stage {
                WalkStage::ListShared | WalkStage::ListTyped => {
                    self.stack(entries);
                    match self.drain() {
                        Some(dir) => {
                            self.current = dir;
                        },
                        None => {
                            if self.stage == WalkStage::ListShared {
                                self.stage = WalkStage::ListTyped;
                                self.current = self.type_dir.clone();
                                self.shared = self.templates.len();
                            } else {
                                self.stage = WalkStage::Done;
                                return WalkStep::Done;
                            }
                        },
                    }
                    WalkStep::List { path: self.current.clone() }
                },
                _ => self.request(),
            },
            WalkEvent::Unreadable(source) => match self.stage {
                WalkStage::ListShared | WalkStage::ListTyped => {
                    let path = self.current.clone();
                    self.fail();
                    WalkStep::Failed(TemplateError::LoadError { path, source })
                },
                _ => self.request(),
            },
        }
    }
}

} // verus!
