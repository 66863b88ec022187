//! The scan of one tree as a machine: each step takes what the outside
//! world answered and says what to do next.

use crate::content::{
    is_thumbnail_of, process_file, processed, starts_as_jpeg, FileInfo, FileInfoView,
    ProcessError, ProcessErrorView, THUMB_QUALITY, THUMB_SIZE,
};
use crate::inference::DatePath;
use crate::paths::relative_of;
pub use crate::paths::relative_slash_path;
use crate::tree::{resolution, MarkerRead, MarkerReadView, TreeErrorView, TreeView};
pub use crate::tree::{Tree, TreeError};
use vstd::prelude::*;

verus! {

/// The date rules that are configured for the trees of one marker.
#[derive(Clone, Debug, PartialEq, Eq)]
pub struct MarkerDatePaths {
    /// The marker that the rules are for.
    pub marker: String,
    /// The rules, in the order in which they are tried.
    pub date_paths: Vec<DatePath>,
}

/// What the walk over a tree's files gave when asked for the next one.
#[derive(Clone, Debug, PartialEq, Eq)]
pub enum Walk {
    /// The slash path of the next picture.
    Entry(String),
    /// An entry that could not be looked at, with the reason. The walk goes
    /// on behind it.
    Inaccessible(String),
    /// The walk could not be begun or cannot go on, with the reason.
    Broken(String),
    /// There are no more pictures.
    End,
}

/// What a `Walk` holds, as mathematical values.
pub enum WalkView {
    Entry(Seq<char>),
    Inaccessible(Seq<char>),
    Broken(Seq<char>),
    End,
}

impl View for Walk {
    type V = WalkView;

    open spec fn view(&self) -> WalkView {
        match self {
            Walk::Entry(path) => WalkView::Entry(path@),
            Walk::Inaccessible(reason) => WalkView::Inaccessible(reason@),
            Walk::Broken(reason) => WalkView::Broken(reason@),
            Walk::End => WalkView::End,
        }
    }
}

/// What the outside world answered to the last action.
#[derive(Clone, Debug, PartialEq, Eq)]
pub enum Event {
    /// The marker file was read, or not.
    Marker(MarkerRead),
    /// The walk gave its next item.
    Walked(Walk),
    /// The file was read and holds these bytes.
    Content(Vec<u8>),
    /// The file could not be read, for this reason.
    Unreadable(String),
    /// The catalog said whether it knows the location.
    Known(bool),
    /// The catalog took the record.
    Stored,
    /// The catalog could not be asked or written, for this reason.
    StoreFailed(String),
}

/// What an `Event` holds, as mathematical values.
pub enum EventView {
    Marker(MarkerReadView),
    Walked(WalkView),
    Content(Seq<u8>),
    Unreadable(Seq<char>),
    Known(bool),
    Stored,
    StoreFailed(Seq<char>),
}

impl View for Event {
    type V = EventView;

    open spec fn view(&self) -> EventView {
        match self {
            Event::Marker(read) => EventView::Marker(read@),
            Event::Walked(walk) => EventView::Walked(walk@),
            Event::Content(content) => EventView::Content(content@),
            Event::Unreadable(reason) => EventView::Unreadable(reason@),
            Event::Known(known) => EventView::Known(*known),
            Event::Stored => EventView::Stored,
            Event::StoreFailed(reason) => EventView::StoreFailed(reason@),
        }
    }
}

/// What the outside world is asked to do next.
#[derive(Clone, Debug, PartialEq, Eq)]
pub enum Action {
    /// Read the marker file at this path and answer with `Event::Marker`.
    ReadMarker(String),
    /// Take the next item of the walk over the tree and answer with
    /// `Event::Walked`.
    NextPath,
    /// Read the file at this path and answer with `Event::Content` or
    /// `Event::Unreadable`.
    ReadFile(String),
    /// Ask the catalog whether it knows this location and answer with
    /// `Event::Known`, or with `Event::StoreFailed`.
    Lookup { marker: String, relative: String },
    /// Put this record at this location into the catalog and answer with
    /// `Event::Stored`, or with `Event::StoreFailed`.
    Upsert { marker: String, relative: String, info: FileInfo },
    /// Nothing is left to do for this tree.
    Stop,
}

/// What an `Action` holds, as mathematical values.
pub enum ActionView {
    ReadMarker(Seq<char>),
    NextPath,
    ReadFile(Seq<char>),
    Lookup { marker: Seq<char>, relative: Seq<char> },
    Upsert { marker: Seq<char>, relative: Seq<char>, info: FileInfoView },
    Stop,
}

impl View for Action {
    type V = ActionView;

    open spec fn view(&self) -> ActionView {
        match self {
            Action::ReadMarker(path) => ActionView::ReadMarker(path@),
            Action::NextPath => ActionView::NextPath,
            Action::ReadFile(path) => ActionView::ReadFile(path@),
            Action::Lookup { marker, relative } => ActionView::Lookup {
                marker: marker@,
                relative: relative@,
            },
            Action::Upsert { marker, relative, info } => ActionView::Upsert {
                marker: marker@,
                relative: relative@,
                info: info@,
            },
            Action::Stop => ActionView::Stop,
        }
    }
}

impl ActionView {
    /// The thumbnail bytes that the action carries, if it carries a record.
    pub open spec fn thumb(self) -> Seq<u8> {
        match self {
            ActionView::Upsert { info, .. } => info.thumb,
            _ => Seq::empty(),
        }
    }
}

/// Why the scan of a tree was given up.
#[derive(Clone, Debug, PartialEq, Eq)]
pub enum TreeFailure {
    /// The marker is there and gave no tree.
    Marker(TreeError),
    /// The walk over the tree's files broke, for this reason.
    Walk(String),
    /// The catalog failed, for this reason.
    Store(String),
    /// An answer came that does not belong to what was asked.
    Protocol,
}

/// What a `TreeFailure` holds, as mathematical values.
pub enum TreeFailureView {
    Marker(TreeErrorView),
    Walk(Seq<char>),
    Store(Seq<char>),
    Protocol,
}

impl View for TreeFailure {
    type V = TreeFailureView;

    open spec fn view(&self) -> TreeFailureView {
        match self {
            TreeFailure::Marker(error) => TreeFailureView::Marker(error@),
            TreeFailure::Walk(reason) => TreeFailureView::Walk(reason@),
            TreeFailure::Store(reason) => TreeFailureView::Store(reason@),
            TreeFailure::Protocol => TreeFailureView::Protocol,
        }
    }
}

/// What is told to the operator about one step.
#[derive(Clone, Debug, PartialEq, Eq)]
pub enum Report {
    /// The tree is not there and is passed over.
    TreeSkipped(TreeError),
    /// An entry of the walk could not be looked at and is passed over.
    Inaccessible(String),
    /// A file could not be read and is passed over.
    Unreadable { path: String, reason: String },
    /// A path from the walk does not lie below the tree's root and is passed
    /// over.
    Outside { path: String },
    /// The catalog knows the location already; nothing was done.
    AlreadyKnown { relative: String },
    /// The file's content is no picture that can be decoded; it is passed
    /// over.
    Undecodable { relative: String, reason: String },
    /// The record of the file is in the catalog now.
    Stored { relative: String },
}

/// What a `Report` holds, as mathematical values.
pub enum ReportView {
    TreeSkipped(TreeErrorView),
    Inaccessible(Seq<char>),
    Unreadable { path: Seq<char>, reason: Seq<char> },
    Outside { path: Seq<char> },
    AlreadyKnown { relative: Seq<char> },
    Undecodable { relative: Seq<char>, reason: Seq<char> },
    Stored { relative: Seq<char> },
}

impl View for Report {
    type V = ReportView;

    open spec fn view(&self) -> ReportView {
        match self {
            Report::TreeSkipped(error) => ReportView::TreeSkipped(error@),
            Report::Inaccessible(reason) => ReportView::Inaccessible(reason@),
            Report::Unreadable { path, reason } => ReportView::Unreadable {
                path: path@,
                reason: reason@,
            },
            Report::Outside { path } => ReportView::Outside { path: path@ },
            Report::AlreadyKnown { relative } => ReportView::AlreadyKnown { relative: relative@ },
            Report::Undecodable { relative, reason } => ReportView::Undecodable {
                relative: relative@,
                reason: reason@,
            },
            Report::Stored { relative } => ReportView::Stored { relative: relative@ },
        }
    }
}

/// Where the scan of one tree stands.
#[derive(Clone, Debug, PartialEq, Eq)]
pub enum TreeState {
    /// The marker file at this path is being read.
    Resolving { marker_path: String },
    /// The next picture of the tree is being looked for.
    Walking { tree: Tree },
    /// The file at this path is being read.
    Reading { tree: Tree, path: String },
    /// The catalog is being asked whether it knows the file with this
    /// content at this relative path.
    Checking { tree: Tree, relative: String, content: Vec<u8> },
    /// The record of the file at this relative path is being stored.
    Storing { tree: Tree, relative: String },
    /// The tree is not there; its scan is over.
    Skipped,
    /// The scan of the tree was given up.
    Failed(TreeFailure),
    /// All pictures of the tree were dealt with.
    Done,
}

/// What a `TreeState` holds, as mathematical values.
pub enum TreeStateView {
    Resolving { marker_path: Seq<char> },
    Walking { tree: TreeView },
    Reading { tree: TreeView, path: Seq<char> },
    Checking { tree: TreeView, relative: Seq<char>, content: Seq<u8> },
    Storing { tree: TreeView, relative: Seq<char> },
    Skipped,
    Failed(TreeFailureView),
    Done,
}

impl View for TreeState {
    type V = TreeStateView;

    open spec fn view(&self) -> TreeStateView {
        match self {
            TreeState::Resolving { marker_path } => TreeStateView::Resolving {
                marker_path: marker_path@,
            },
            TreeState::Walking { tree } => TreeStateView::Walking { tree: tree@ },
            TreeState::Reading { tree, path } => TreeStateView::Reading {
                tree: tree@,
                path: path@,
            },
            TreeState::Checking { tree, relative, content } => TreeStateView::Checking {
                tree: tree@,
                relative: relative@,
                content: content@,
            },
            TreeState::Storing { tree, relative } => TreeStateView::Storing {
                tree: tree@,
                relative: relative@,
            },
            TreeState::Skipped => TreeStateView::Skipped,
            TreeState::Failed(failure) => TreeStateView::Failed(failure@),
            TreeState::Done => TreeStateView::Done,
        }
    }
}

impl TreeStateView {
    /// Whether the scan of the tree is over.
    pub open spec fn is_final(self) -> bool {
        self is Skipped || self is Failed || self is Done
    }
}

/// One step of the scan of a tree: where it stands now, what is to be done
/// next, and what is to be told.
#[derive(Clone, Debug, PartialEq, Eq)]
pub struct Step {
    pub state: TreeState,
    pub action: Action,
    pub report: Option<Report>,
}

/// What a `Step` holds, as mathematical values.
pub struct StepView {
    pub state: TreeStateView,
    pub action: ActionView,
    pub report: Option<ReportView>,
}

impl View for Step {
    type V = StepView;

    open spec fn view(&self) -> StepView {
        StepView {
            state: self.state@,
            action: self.action@,
            report: match self.report {
                Some(report) => Some(report@),
                None => None,
            },
        }
    }
}

/// The date rules that are configured for a marker: those of the first
/// entry, from index `from` on, that names it, and none where no entry does.
pub open spec fn rules_for(config: Seq<MarkerDatePaths>, marker: Seq<char>, from: int) -> Seq<
    DatePath,
>
    decreases config.len() - from,
{
    if 0 <= from < config.len() {
        if config[from].marker@ == marker {
            config[from].date_paths@
        } else {
            rules_for(config, marker, from + 1)
        }
    } else {
        Seq::empty()
    }
}

/// Whether no marker has more than one entry in the configuration. The
/// configuration is meant to hold the rules of each marker once; where a
/// marker has several entries, its first counts.
pub open spec fn markers_are_distinct(config: Seq<MarkerDatePaths>) -> bool {
    forall|i: int, j: int|
        0 <= i < j < config.len() ==> (#[trigger] config[i]).marker@ != (
        #[trigger] config[j]).marker@
}

/// In a configuration whose markers are distinct, the rules of a marker are
/// those of its one entry, seen from any index up to it.
pub proof fn lemma_rules_of_the_one_entry(config: Seq<MarkerDatePaths>, from: int, at: int)
    requires
        markers_are_distinct(config),
        0 <= from <= at < config.len(),
    ensures
        rules_for(config, config[at].marker@, from) == config[at].date_paths@,
    decreases at - from,
{
    if from < at {
        assert(config[from].marker@ != config[at].marker@);
        lemma_rules_of_the_one_entry(config, from + 1, at);
    }
}

/// The step that ends the scan of a tree in `state`.
pub open spec fn halted(state: TreeStateView, report: Option<ReportView>) -> StepView {
    StepView { state, action: ActionView::Stop, report }
}

/// The step that goes on to the tree's next picture.
pub open spec fn walking(tree: TreeView, report: Option<ReportView>) -> StepView {
    StepView { state: TreeStateView::Walking { tree }, action: ActionView::NextPath, report }
}

/// The step that gives the scan up because the answer does not belong to
/// what was asked.
pub open spec fn out_of_turn() -> StepView {
    halted(TreeStateView::Failed(TreeFailureView::Protocol), None)
}

/// The step that follows when the scan stands in `state` and the outside
/// world answers with `event`.
///
/// `thumb` stands for the bytes that a thumbnail came out as: they are the
/// one thing in a step that the state and the event do not fix.
pub open spec fn next_step(
    state: TreeStateView,
    event: EventView,
    config: Seq<MarkerDatePaths>,
    thumb: Seq<u8>,
) -> StepView {
    match state {
        TreeStateView::Resolving { marker_path } => match event {
            EventView::Marker(read) => match resolution(marker_path, read) {
                Ok(tree) => walking(tree, None),
                Err(TreeErrorView::NotFound(path)) => halted(
                    TreeStateView::Skipped,
                    Some(ReportView::TreeSkipped(TreeErrorView::NotFound(path))),
                ),
                Err(error) => halted(
                    TreeStateView::Failed(TreeFailureView::Marker(error)),
                    None,
                ),
            },
            _ => out_of_turn(),
        },
        TreeStateView::Walking { tree } => match event {
            EventView::Walked(WalkView::Entry(path)) => StepView {
                state: TreeStateView::Reading { tree, path },
                action: ActionView::ReadFile(path),
                report: None,
            },
            EventView::Walked(WalkView::Inaccessible(reason)) => walking(
                tree,
                Some(ReportView::Inaccessible(reason)),
            ),
            EventView::Walked(WalkView::Broken(reason)) => halted(
                TreeStateView::Failed(TreeFailureView::Walk(reason)),
                None,
            ),
            EventView::Walked(WalkView::End) => halted(TreeStateView::Done, None),
            _ => out_of_turn(),
        },
        TreeStateView::Reading { tree, path } => match event {
            EventView::Content(content) => match relative_of(tree.root, path) {
                Some(relative) => StepView {
                    state: TreeStateView::Checking { tree, relative, content },
                    action: ActionView::Lookup { marker: tree.marker, relative },
                    report: None,
                },
                None => walking(tree, Some(ReportView::Outside { path })),
            },
            EventView::Unreadable(reason) => walking(
                tree,
                Some(ReportView::Unreadable { path, reason }),
            ),
            _ => out_of_turn(),
        },
        TreeStateView::Checking { tree, relative, content } => match event {
            EventView::Known(known) => if known {
                walking(tree, Some(ReportView::AlreadyKnown { relative }))
            } else {
                match processed(content, relative, rules_for(config, tree.marker, 0), thumb) {
                    Ok(info) => StepView {
                        state: TreeStateView::Storing { tree, relative },
                        action: ActionView::Upsert { marker: tree.marker, relative, info },
                        report: None,
                    },
                    Err(ProcessErrorView::Decode(reason)) => walking(
                        tree,
                        Some(ReportView::Undecodable { relative, reason }),
                    ),
                }
            },
            EventView::StoreFailed(reason) => halted(
                TreeStateView::Failed(TreeFailureView::Store(reason)),
                None,
            ),
            _ => out_of_turn(),
        },
        TreeStateView::Storing { tree, relative } => match event {
            EventView::Stored => walking(tree, Some(ReportView::Stored { relative })),
            EventView::StoreFailed(reason) => halted(
                TreeStateView::Failed(TreeFailureView::Store(reason)),
                None,
            ),
            _ => out_of_turn(),
        },
        _ => halted(state, None),
    }
}

/// The first step of the scan of the tree with the marker file at
/// `marker_path`: the marker file is to be read.
pub open spec fn first_step(marker_path: Seq<char>) -> StepView {
    StepView {
        state: TreeStateView::Resolving { marker_path },
        action: ActionView::ReadMarker(marker_path),
        report: None,
    }
}

/// Finds the date rules that are configured for a marker.
pub fn date_paths_for<'a>(config: &'a Vec<MarkerDatePaths>, marker: &String) -> (found: Option<
    &'a Vec<DatePath>,
>)
    ensures
        found is Some <==> exists|i: int|
            0 <= i < config@.len() && (#[trigger] config@[i]).marker@ == marker@,
        found matches Some(rules) ==> rules@ == rules_for(config@, marker@, 0),
        found is None ==> rules_for(config@, marker@, 0) == Seq::<DatePath>::empty(),
{
    let mut at: usize = 0;
    while at < config.len()
        invariant
            at <= config.len(),
            rules_for(config@, marker@, 0) == rules_for(config@, marker@, at as int),
            forall|i: int| 0 <= i < at ==> (#[trigger] config@[i]).marker@ != marker@,
        decreases config.len() - at,
    {
        if config[at].marker == *marker {
            assert(config@[at as int].marker@ == marker@);
            return Some(&config[at].date_paths);
        }
        at = at + 1;
    }
    None
}

/// Whether no marker has more than one entry in the configuration.
pub fn has_distinct_markers(config: &Vec<MarkerDatePaths>) -> (yes: bool)
    ensures
        yes == markers_are_distinct(config@),
{
    let mut second: usize = 0;
    while second < config.len()
        invariant
            second <= config.len(),
            forall|i: int, j: int|
                0 <= i < j < second ==> (#[trigger] config@[i]).marker@ != (
                #[trigger] config@[j]).marker@,
        decreases config.len() - second,
    {
        let mut first: usize = 0;
        while first < second
            invariant
                first <= second < config.len(),
                forall|i: int|
                    0 <= i < first ==> (#[trigger] config@[i]).marker@ != config@[second as int].marker@,
            decreases second - first,
        {
            if config[first].marker == config[second].marker {
                assert(config@[first as int].marker@ == config@[second as int].marker@);
                return false;
            }
            first = first + 1;
        }
        second = second + 1;
    }
    true
}

/// Begins the scan of the tree with the marker file at `marker_path`.
pub fn start(marker_path: String) -> (step: Step)
    ensures
        step@ == first_step(marker_path@),
{
    let path = marker_path.clone();
    Step { state: TreeState::Resolving { marker_path }, action: Action::ReadMarker(path), report: None }
}

/// The step that ends the scan because the answer does not belong to what
/// was asked.
fn refuse() -> (step: Step)
    ensures
        step@ == out_of_turn(),
{
    Step { state: TreeState::Failed(TreeFailure::Protocol), action: Action::Stop, report: None }
}

/// The step that goes on to the tree's next picture.
fn walk_on(tree: Tree, report: Option<Report>) -> (step: Step)
    ensures
        step@ == walking(
            tree@,
            match report {
                Some(report) => Some(report@),
                None => None,
            },
        ),
{
    Step { state: TreeState::Walking { tree }, action: Action::NextPath, report }
}

/// The step that gives the scan of the tree up.
fn give_up(failure: TreeFailure) -> (step: Step)
    ensures
        step@ == halted(TreeStateView::Failed(failure@), None),
{
    Step { state: TreeState::Failed(failure), action: Action::Stop, report: None }
}

/// Takes the scan of one tree one step further: from where it stands and
/// what the outside world answered to where it stands next, what is to be
/// done next and what is to be told to the operator.
///
/// A tree is resolved from its marker, then walked; each picture is read,
/// looked up in the catalog by marker and relative path, and only if the
/// catalog does not know it, processed and stored. What goes wrong with one
/// file is reported and the walk goes on. A marker that is not there ends
/// the scan as skipped; a marker that gives no tree, a walk that breaks and
/// a catalog that fails end it as failed, and so does an answer that does
/// not belong to what was asked. A scan that is over stays as it is.
pub fn process_tree(
    state: TreeState,
    event: Event,
    date_paths_per_marker: &Vec<MarkerDatePaths>,
) -> (step: Step)
    ensures
        step@ == next_step(state@, event@, date_paths_per_marker@, step@.action.thumb()),
        step@.action matches ActionView::Upsert { info, .. } ==> info.wf() && starts_as_jpeg(
            info.thumb,
        ),
        step@.action is Upsert ==> state@ is Checking && is_thumbnail_of(
            state@->Checking_content,
            THUMB_SIZE,
            THUMB_QUALITY,
            step@.action.thumb(),
        ),
{
    match state {
        TreeState::Resolving { marker_path } => match event {
            Event::Marker(read) => match Tree::resolve(marker_path.as_str(), read) {
                Ok(tree) => walk_on(tree, None),
                Err(TreeError::NotFound(path)) => Step {
                    state: TreeState::Skipped,
                    action: Action::Stop,
                    report: Some(Report::TreeSkipped(TreeError::NotFound(path))),
                },
                Err(error) => give_up(TreeFailure::Marker(error)),
            },
            _ => refuse(),
        },
        TreeState::Walking { tree } => match event {
            Event::Walked(Walk::Entry(path)) => {
                let asked = path.clone();
                Step {
                    state: TreeState::Reading { tree, path },
                    action: Action::ReadFile(asked),
                    report: None,
                }
            },
            Event::Walked(Walk::Inaccessible(reason)) => walk_on(
                tree,
                Some(Report::Inaccessible(reason)),
            ),
            Event::Walked(Walk::Broken(reason)) => give_up(TreeFailure::Walk(reason)),
            Event::Walked(Walk::End) => Step {
                state: TreeState::Done,
                action: Action::Stop,
                report: None,
            },
            _ => refuse(),
        },
        TreeState::Reading { tree, path } => match event {
            Event::Content(content) => match relative_slash_path(
                tree.root.as_str(),
                path.as_str(),
            ) {
                Ok(relative) => {
                    let marker = tree.marker.clone();
                    let asked = relative.clone();
                    Step {
                        state: TreeState::Checking { tree, relative, content },
                        action: Action::Lookup { marker, relative: asked },
                        report: None,
                    }
                },
                Err(_) => walk_on(tree, Some(Report::Outside { path })),
            },
            Event::Unreadable(reason) => walk_on(tree, Some(Report::Unreadable { path, reason })),
            _ => refuse(),
        },
        TreeState::Checking { tree, relative, content } => match event {
            Event::Known(known) => {
                if known {
                    walk_on(tree, Some(Report::AlreadyKnown { relative }))
                } else {
                    let none: Vec<DatePath> = Vec::new();
                    let rules = match date_paths_for(date_paths_per_marker, &tree.marker) {
                        Some(rules) => rules,
                        None => &none,
                    };
                    match process_file(content.as_slice(), relative.as_str(), rules) {
                        Ok(info) => {
                            let marker = tree.marker.clone();
                            let stored = relative.clone();
                            Step {
                                state: TreeState::Storing { tree, relative },
                                action: Action::Upsert { marker, relative: stored, info },
                                report: None,
                            }
                        },
                        Err(ProcessError::Decode(reason)) => walk_on(
                            tree,
                            Some(Report::Undecodable { relative, reason }),
                        ),
                    }
                }
            },
            Event::StoreFailed(reason) => give_up(TreeFailure::Store(reason)),
            _ => refuse(),
        },
        TreeState::Storing { tree, relative } => match event {
            Event::Stored => walk_on(tree, Some(Report::Stored { relative })),
            Event::StoreFailed(reason) => give_up(TreeFailure::Store(reason)),
            _ => refuse(),
        },
        TreeState::Skipped => Step { state: TreeState::Skipped, action: Action::Stop, report: None },
        TreeState::Failed(failure) => Step {
            state: TreeState::Failed(failure),
            action: Action::Stop,
            report: None,
        },
        TreeState::Done => Step { state: TreeState::Done, action: Action::Stop, report: None },
    }
}

/// The outcome of a whole scan: how the trees ended.
#[derive(Clone, Debug, PartialEq, Eq)]
pub struct ScanSummary {
    /// How many trees were scanned to their end.
    pub done: usize,
    /// How many trees were not there.
    pub skipped: usize,
    /// Why the other trees were given up, in the order of the trees.
    pub failures: Vec<TreeFailure>,
}

/// Why the scan of a tree that ended in `state` counts as failed, if it
/// does. A tree that was skipped or done has not failed; a scan that was
/// left before its end counts as one that got an answer out of turn.
pub open spec fn failure_of(state: TreeStateView) -> Option<TreeFailureView> {
    match state {
        TreeStateView::Skipped => None,
        TreeStateView::Done => None,
        TreeStateView::Failed(failure) => Some(failure),
        _ => Some(TreeFailureView::Protocol),
    }
}

/// The failures among the first `upto` trees, in their order.
pub open spec fn failures_of(states: Seq<TreeState>, upto: int) -> Seq<TreeFailureView>
    decreases upto,
{
    if upto <= 0 {
        Seq::empty()
    } else {
        match failure_of(states[upto - 1]@) {
            Some(failure) => failures_of(states, upto - 1).push(failure),
            None => failures_of(states, upto - 1),
        }
    }
}

/// How many of the first `upto` trees ended in a state that `wanted` holds
/// of.
pub open spec fn count_of(
    states: Seq<TreeState>,
    upto: int,
    wanted: spec_fn(TreeStateView) -> bool,
) -> int
    decreases upto,
{
    if upto <= 0 {
        0
    } else {
        count_of(states, upto - 1, wanted) + if wanted(states[upto - 1]@) {
            1int
        } else {
            0int
        }
    }
}

/// The views of the failures in a list.
pub open spec fn failure_views(failures: Seq<TreeFailure>) -> Seq<TreeFailureView> {
    Seq::new(failures.len(), |i: int| failures[i]@)
}

/// Whether a failure means that the run as a whole has failed: the catalog
/// is not usable, or the scan was driven wrongly. Trees and files that are
/// missing or broken are reported and do not fail the run.
pub open spec fn is_fatal(failure: TreeFailureView) -> bool {
    failure is Store || failure is Protocol
}

impl TreeError {
    /// A copy of the error.
    pub fn duplicate(&self) -> (copy: TreeError)
        ensures
            copy@ == self@,
    {
        match self {
            TreeError::NotFound(path) => TreeError::NotFound(path.clone()),
            TreeError::Other { path, source } => TreeError::Other {
                path: path.clone(),
                source: source.clone(),
            },
        }
    }
}

impl TreeFailure {
    /// A copy of the failure.
    pub fn duplicate(&self) -> (copy: TreeFailure)
        ensures
            copy@ == self@,
    {
        match self {
            TreeFailure::Marker(error) => TreeFailure::Marker(error.duplicate()),
            TreeFailure::Walk(reason) => TreeFailure::Walk(reason.clone()),
            TreeFailure::Store(reason) => TreeFailure::Store(reason.clone()),
            TreeFailure::Protocol => TreeFailure::Protocol,
        }
    }

    /// Whether the failure fails the run as a whole.
    pub fn fatal(&self) -> (yes: bool)
        ensures
            yes == is_fatal(self@),
    {
        match self {
            TreeFailure::Store(_) => true,
            TreeFailure::Protocol => true,
            _ => false,
        }
    }
}

impl ScanSummary {
    /// Whether the run as a whole has succeeded: no tree was given up for a
    /// reason that is fatal. Trees that were skipped or failed for reasons of
    /// their own do not count against it.
    pub fn succeeded(&self) -> (yes: bool)
        ensures
            yes == forall|i: int|
                0 <= i < self.failures@.len() ==> !is_fatal(#[trigger] self.failures@[i]@),
    {
        let mut at: usize = 0;
        while at < self.failures.len()
            invariant
                at <= self.failures.len(),
                forall|i: int| 0 <= i < at ==> !is_fatal(#[trigger] self.failures@[i]@),
            decreases self.failures.len() - at,
        {
            if self.failures[at].fatal() {
                return false;
            }
            at = at + 1;
        }
        true
    }
}

/// Sums up a scan from the states in which its trees ended, one for each
/// configured marker and in their order.
///
/// Trees that were skipped and trees that are done are counted. For every
/// other tree the summary holds the reason why it was given up, in the order
/// of the trees. The scan of a tree that was left before its end counts as
/// failed.
pub fn scan(finished: &Vec<TreeState>) -> (summary: ScanSummary)
    ensures
        failure_views(summary.failures@) == failures_of(finished@, finished@.len() as int),
        summary.done == count_of(
            finished@,
            finished@.len() as int,
            |state: TreeStateView| state is Done,
        ),
        summary.skipped == count_of(
            finished@,
            finished@.len() as int,
            |state: TreeStateView| state is Skipped,
        ),
        summary.done + summary.skipped + summary.failures@.len() == finished@.len(),
{
    let mut done: usize = 0;
    let mut skipped: usize = 0;
    let mut failures: Vec<TreeFailure> = Vec::new();
    let mut at: usize = 0;
    while at < finished.len()
        invariant
            at <= finished.len(),
            failure_views(failures@) == failures_of(finished@, at as int),
            done == count_of(finished@, at as int, |state: TreeStateView| state is Done),
            skipped == count_of(finished@, at as int, |state: TreeStateView| state is Skipped),
            done + skipped + failures@.len() == at,
        decreases finished.len() - at,
    {
        let ghost before = failures@;
        match &finished[at] {
            TreeState::Done => {
                done = done + 1;
            },
            TreeState::Skipped => {
                skipped = skipped + 1;
            },
            TreeState::Failed(failure) => {
                failures.push(failure.duplicate());
                assert(failure_views(failures@) =~= failure_views(before).push(failure@));
            },
            _ => {
                failures.push(TreeFailure::Protocol);
                assert(failure_views(failures@) =~= failure_views(before).push(
                    TreeFailureView::Protocol,
                ));
            },
        }
        at = at + 1;
    }
    ScanSummary { done, skipped, failures }
}

} // verus!
