//! The catalog as the scan sees it, and what a scan that is answered
//! faithfully does to it.
//!
//! Nothing here runs: the catalog itself lives outside this library. This
//! module says what the steps of a scan amount to when each question to the
//! catalog is answered from the catalog as it is, and proves what must hold
//! of every scan.

use crate::content::{capture_date_of, rejection, FileInfoView};
use crate::fingerprint::fingerprint_of;
use crate::paths::relative_of;
use crate::scanning::{
    failure_of, first_step, halted, next_step, rules_for, walking, ActionView, EventView,
    MarkerDatePaths, ReportView, StepView, TreeFailureView, TreeStateView, WalkView,
};
use crate::tree::{resolution, MarkerReadView, TreeErrorView, TreeView};
use vstd::prelude::*;

verus! {

/// A place where a picture was seen: the marker of its tree and its path
/// relative to the tree's root. The catalog keeps one record for each.
pub struct Location {
    pub marker: Seq<char>,
    pub relative: Seq<char>,
}

/// One item of the walk over a tree, with what reading it gives.
pub enum Item {
    /// An entry that cannot be looked at.
    Inaccessible { reason: Seq<char> },
    /// A file that cannot be read.
    Unreadable { path: Seq<char>, reason: Seq<char> },
    /// A file with its content.
    File { path: Seq<char>, content: Seq<u8> },
}

impl Item {
    /// What the walk answers for this item.
    pub open spec fn walked(self) -> EventView {
        match self {
            Item::Inaccessible { reason } => EventView::Walked(WalkView::Inaccessible(reason)),
            Item::Unreadable { path, .. } => EventView::Walked(WalkView::Entry(path)),
            Item::File { path, .. } => EventView::Walked(WalkView::Entry(path)),
        }
    }

    /// What reading this item's file answers.
    pub open spec fn read(self) -> EventView {
        match self {
            Item::Inaccessible { reason } => EventView::Unreadable(reason),
            Item::Unreadable { reason, .. } => EventView::Unreadable(reason),
            Item::File { content, .. } => EventView::Content(content),
        }
    }
}

/// What a faithful catalog does with an action and answers to it.
pub open spec fn answer(catalog: Map<Location, FileInfoView>, action: ActionView) -> (
    Map<Location, FileInfoView>,
    EventView,
) {
    match action {
        ActionView::Lookup { marker, relative } => (
            catalog,
            EventView::Known(catalog.contains_key(Location { marker, relative })),
        ),
        ActionView::Upsert { marker, relative, info } => (
            catalog.insert(Location { marker, relative }, info),
            EventView::Stored,
        ),
        _ => (catalog, EventView::Stored),
    }
}

/// The steps of the scan for one item of the walk, from the walk's answer
/// until the next item is asked for, with a catalog that answers faithfully:
/// the catalog afterwards, and the last step.
pub open spec fn item_round(
    catalog: Map<Location, FileInfoView>,
    tree: TreeView,
    config: Seq<MarkerDatePaths>,
    item: Item,
    thumb: Seq<u8>,
) -> (Map<Location, FileInfoView>, StepView) {
    let met = next_step(TreeStateView::Walking { tree }, item.walked(), config, thumb);
    if met.action is ReadFile {
        let read = next_step(met.state, item.read(), config, thumb);
        if read.action is Lookup {
            let looked = answer(catalog, read.action);
            let checked = next_step(read.state, looked.1, config, thumb);
            if checked.action is Upsert {
                let stored = answer(looked.0, checked.action);
                (stored.0, next_step(checked.state, stored.1, config, thumb))
            } else {
                (looked.0, checked)
            }
        } else {
            (catalog, read)
        }
    } else {
        (catalog, met)
    }
}

/// The catalog after the scan has dealt with the items of a walk from index
/// `from` on, the thumbnail of item `i` coming out as `thumbs(i)`.
pub open spec fn walk_catalog(
    catalog: Map<Location, FileInfoView>,
    tree: TreeView,
    config: Seq<MarkerDatePaths>,
    items: Seq<Item>,
    thumbs: spec_fn(int) -> Seq<u8>,
    from: int,
) -> Map<Location, FileInfoView>
    decreases items.len() - from,
{
    if 0 <= from < items.len() {
        walk_catalog(
            item_round(catalog, tree, config, items[from], thumbs(from)).0,
            tree,
            config,
            items,
            thumbs,
            from + 1,
        )
    } else {
        catalog
    }
}

/// The scan of one tree from its first step to its end, with a catalog that
/// answers faithfully: the catalog afterwards, and the state in which the
/// scan ends. `read` is what reading the marker file gives and `items` is
/// what the walk over the tree gives.
pub open spec fn tree_scan(
    catalog: Map<Location, FileInfoView>,
    marker_path: Seq<char>,
    read: MarkerReadView,
    config: Seq<MarkerDatePaths>,
    items: Seq<Item>,
    thumbs: spec_fn(int) -> Seq<u8>,
) -> (Map<Location, FileInfoView>, TreeStateView) {
    let resolved = next_step(
        first_step(marker_path).state,
        EventView::Marker(read),
        config,
        Seq::empty(),
    );
    match resolved.state {
        TreeStateView::Walking { tree } => (
            walk_catalog(catalog, tree, config, items, thumbs, 0),
            next_step(resolved.state, EventView::Walked(WalkView::End), config, Seq::empty()).state,
        ),
        _ => (catalog, resolved.state),
    }
}

/// The location of an item in a tree, if it is a file below the tree's
/// root.
pub open spec fn location_of(tree: TreeView, item: Item) -> Option<Location> {
    match item {
        Item::File { path, .. } => match relative_of(tree.root, path) {
            Some(relative) => Some(Location { marker: tree.marker, relative }),
            None => None,
        },
        _ => None,
    }
}

/// The record that processing makes of a file.
pub open spec fn record_of(
    tree: TreeView,
    config: Seq<MarkerDatePaths>,
    relative: Seq<char>,
    content: Seq<u8>,
    thumb: Seq<u8>,
) -> FileInfoView {
    FileInfoView {
        hash: fingerprint_of(content),
        date: capture_date_of(content, relative, rules_for(config, tree.marker, 0)),
        thumb,
    }
}

/// Whether the scan has nothing to add to the catalog for an item: it is no
/// file below the root, or the catalog knows its location, or no thumbnail
/// can be made of its content.
pub open spec fn is_settled(catalog: Map<Location, FileInfoView>, tree: TreeView, item: Item) -> bool {
    match item {
        Item::File { path, content } => match relative_of(tree.root, path) {
            Some(relative) => catalog.contains_key(Location { marker: tree.marker, relative })
                || rejection(content) is Some,
            None => true,
        },
        _ => true,
    }
}

/// What a round comes to: the catalog gets one record, for a file below the
/// root whose location it did not know and of whose content a thumbnail can
/// be made, and is left as it was for every other item. Either way the scan
/// then asks for the next item of the same tree.
pub proof fn lemma_item_round(
    catalog: Map<Location, FileInfoView>,
    tree: TreeView,
    config: Seq<MarkerDatePaths>,
    item: Item,
    thumb: Seq<u8>,
)
    ensures
        item_round(catalog, tree, config, item, thumb).1.state == (TreeStateView::Walking { tree }),
        item_round(catalog, tree, config, item, thumb).1.action == ActionView::NextPath,
        is_settled(catalog, tree, item) ==> item_round(catalog, tree, config, item, thumb).0
            == catalog,
        !is_settled(catalog, tree, item) ==> (item matches Item::File { path, content }
            && relative_of(tree.root, path) matches Some(relative) && item_round(
            catalog,
            tree,
            config,
            item,
            thumb,
        ).0 == catalog.insert(
            Location { marker: tree.marker, relative },
            record_of(tree, config, relative, content, thumb),
        )),
{
}

/// A round only adds: every record of the catalog is there afterwards, as it
/// was, and the item of the round is settled.
pub proof fn lemma_round_keeps_records(
    catalog: Map<Location, FileInfoView>,
    tree: TreeView,
    config: Seq<MarkerDatePaths>,
    item: Item,
    thumb: Seq<u8>,
)
    ensures
        catalog.submap_of(item_round(catalog, tree, config, item, thumb).0),
        is_settled(item_round(catalog, tree, config, item, thumb).0, tree, item),
{
    lemma_item_round(catalog, tree, config, item, thumb);
}

/// A walk only adds: every record of the catalog is there afterwards, as it
/// was, and every item of the walk from `from` on is settled.
pub proof fn lemma_walk_settles(
    catalog: Map<Location, FileInfoView>,
    tree: TreeView,
    config: Seq<MarkerDatePaths>,
    items: Seq<Item>,
    thumbs: spec_fn(int) -> Seq<u8>,
    from: int,
)
    requires
        0 <= from,
    ensures
        catalog.submap_of(walk_catalog(catalog, tree, config, items, thumbs, from)),
        forall|i: int|
            from <= i < items.len() ==> is_settled(
                walk_catalog(catalog, tree, config, items, thumbs, from),
                tree,
                #[trigger] items[i],
            ),
    decreases items.len() - from,
{
    if from < items.len() {
        let next = item_round(catalog, tree, config, items[from], thumbs(from)).0;
        let last = walk_catalog(catalog, tree, config, items, thumbs, from);
        lemma_round_keeps_records(catalog, tree, config, items[from], thumbs(from));
        lemma_walk_settles(next, tree, config, items, thumbs, from + 1);
        assert(last == walk_catalog(next, tree, config, items, thumbs, from + 1));
        vstd::map_lib::lemma_submap_of_trans(catalog, next, last);
        assert(is_settled(last, tree, items[from])) by {
            lemma_settled_stays(next, last, tree, items[from]);
        }
    }
}

/// An item that is settled stays settled when the catalog grows.
pub proof fn lemma_settled_stays(
    before: Map<Location, FileInfoView>,
    after: Map<Location, FileInfoView>,
    tree: TreeView,
    item: Item,
)
    requires
        before.submap_of(after),
        is_settled(before, tree, item),
    ensures
        is_settled(after, tree, item),
{
}

/// A walk over items that are all settled leaves the catalog as it is.
pub proof fn lemma_settled_walk_changes_nothing(
    catalog: Map<Location, FileInfoView>,
    tree: TreeView,
    config: Seq<MarkerDatePaths>,
    items: Seq<Item>,
    thumbs: spec_fn(int) -> Seq<u8>,
    from: int,
)
    requires
        0 <= from,
        forall|i: int| from <= i < items.len() ==> is_settled(catalog, tree, #[trigger] items[i]),
    ensures
        walk_catalog(catalog, tree, config, items, thumbs, from) == catalog,
    decreases items.len() - from,
{
    if from < items.len() {
        assert(is_settled(catalog, tree, items[from]));
        lemma_item_round(catalog, tree, config, items[from], thumbs(from));
        lemma_settled_walk_changes_nothing(catalog, tree, config, items, thumbs, from + 1);
    }
}

/// A walk over one tree leaves the records of all other markers alone: it
/// neither adds one, nor takes one away, nor changes one.
pub proof fn lemma_walk_keeps_to_its_marker(
    catalog: Map<Location, FileInfoView>,
    tree: TreeView,
    config: Seq<MarkerDatePaths>,
    items: Seq<Item>,
    thumbs: spec_fn(int) -> Seq<u8>,
    from: int,
    other: Location,
)
    requires
        0 <= from,
        other.marker != tree.marker,
    ensures
        walk_catalog(catalog, tree, config, items, thumbs, from).contains_key(other)
            == catalog.contains_key(other),
        catalog.contains_key(other) ==> walk_catalog(
            catalog,
            tree,
            config,
            items,
            thumbs,
            from,
        )[other] == catalog[other],
    decreases items.len() - from,
{
    if from < items.len() {
        let next = item_round(catalog, tree, config, items[from], thumbs(from)).0;
        lemma_item_round(catalog, tree, config, items[from], thumbs(from));
        lemma_walk_keeps_to_its_marker(next, tree, config, items, thumbs, from + 1, other);
    }
}

/// The scan of a tree ends: as done where the marker file gave a tree, as
/// skipped where the file is not there, and as failed for the marker's fault
/// otherwise. Only a scan that is done has touched the catalog.
pub proof fn lemma_tree_scan_ends(
    catalog: Map<Location, FileInfoView>,
    marker_path: Seq<char>,
    read: MarkerReadView,
    config: Seq<MarkerDatePaths>,
    items: Seq<Item>,
    thumbs: spec_fn(int) -> Seq<u8>,
)
    ensures
        ({
            let end = tree_scan(catalog, marker_path, read, config, items, thumbs);
            match resolution(marker_path, read) {
                Ok(tree) => end.1 is Done && end.0 == walk_catalog(
                    catalog,
                    tree,
                    config,
                    items,
                    thumbs,
                    0,
                ),
                Err(TreeErrorView::NotFound(_)) => end.1 is Skipped && end.0 == catalog,
                Err(error) => end.1 == TreeStateView::Failed(TreeFailureView::Marker(error))
                    && end.0 == catalog,
            }
        }),
{
}

/// Idempotence: a second scan of a tree whose marker and files have not
/// changed leaves the catalog as the first scan left it, whatever the
/// catalog held before the first and whatever bytes the thumbnails come out
/// as.
pub proof fn lemma_second_scan_changes_nothing(
    catalog: Map<Location, FileInfoView>,
    marker_path: Seq<char>,
    read: MarkerReadView,
    config: Seq<MarkerDatePaths>,
    items: Seq<Item>,
    first_thumbs: spec_fn(int) -> Seq<u8>,
    second_thumbs: spec_fn(int) -> Seq<u8>,
)
    ensures
        ({
            let once = tree_scan(catalog, marker_path, read, config, items, first_thumbs);
            tree_scan(once.0, marker_path, read, config, items, second_thumbs) == once
        }),
{
    lemma_tree_scan_ends(catalog, marker_path, read, config, items, first_thumbs);
    let once = tree_scan(catalog, marker_path, read, config, items, first_thumbs);
    lemma_tree_scan_ends(once.0, marker_path, read, config, items, second_thumbs);
    match resolution(marker_path, read) {
        Ok(tree) => {
            lemma_rescan_changes_nothing(catalog, tree, config, items, first_thumbs, second_thumbs);
        },
        Err(_) => {},
    }
}

/// Idempotence of the walk: a second walk over files that have not changed
/// leaves the catalog as the first walk left it, whatever the catalog held
/// before the first and whatever bytes the thumbnails come out as.
pub proof fn lemma_rescan_changes_nothing(
    catalog: Map<Location, FileInfoView>,
    tree: TreeView,
    config: Seq<MarkerDatePaths>,
    items: Seq<Item>,
    first_thumbs: spec_fn(int) -> Seq<u8>,
    second_thumbs: spec_fn(int) -> Seq<u8>,
)
    ensures
        walk_catalog(
            walk_catalog(catalog, tree, config, items, first_thumbs, 0),
            tree,
            config,
            items,
            second_thumbs,
            0,
        ) == walk_catalog(catalog, tree, config, items, first_thumbs, 0),
{
    let once = walk_catalog(catalog, tree, config, items, first_thumbs, 0);
    lemma_walk_settles(catalog, tree, config, items, first_thumbs, 0);
    lemma_settled_walk_changes_nothing(once, tree, config, items, second_thumbs, 0);
}

/// A location that the catalog knows is not processed again: the step after
/// the catalog's answer asks for the next picture and carries no record,
/// whatever the file holds.
pub proof fn lemma_known_location_is_passed_over(
    tree: TreeView,
    relative: Seq<char>,
    content: Seq<u8>,
    config: Seq<MarkerDatePaths>,
    thumb: Seq<u8>,
)
    ensures
        next_step(
            TreeStateView::Checking { tree, relative, content },
            EventView::Known(true),
            config,
            thumb,
        ) == walking(tree, Some(ReportView::AlreadyKnown { relative })),
{
}

/// Dedup by identity, not content: two files with the same content at
/// different relative paths below one root, neither of which the catalog
/// knows, both get a record of their own, at two different locations and
/// with the same fingerprint, and nothing else changes.
pub proof fn lemma_same_content_two_locations(
    catalog: Map<Location, FileInfoView>,
    tree: TreeView,
    config: Seq<MarkerDatePaths>,
    first_path: Seq<char>,
    second_path: Seq<char>,
    content: Seq<u8>,
    thumbs: spec_fn(int) -> Seq<u8>,
)
    requires
        relative_of(tree.root, first_path) is Some,
        relative_of(tree.root, second_path) is Some,
        relative_of(tree.root, first_path) != relative_of(tree.root, second_path),
        rejection(content) is None,
        !catalog.contains_key(
            Location { marker: tree.marker, relative: relative_of(tree.root, first_path)->0 },
        ),
        !catalog.contains_key(
            Location { marker: tree.marker, relative: relative_of(tree.root, second_path)->0 },
        ),
    ensures
        ({
            let first = Location {
                marker: tree.marker,
                relative: relative_of(tree.root, first_path)->0,
            };
            let second = Location {
                marker: tree.marker,
                relative: relative_of(tree.root, second_path)->0,
            };
            let items = seq![
                Item::File { path: first_path, content },
                Item::File { path: second_path, content },
            ];
            let after = walk_catalog(catalog, tree, config, items, thumbs, 0);
            &&& first != second
            &&& after == catalog.insert(
                first,
                record_of(tree, config, first.relative, content, thumbs(0)),
            ).insert(second, record_of(tree, config, second.relative, content, thumbs(1)))
            &&& after.contains_key(first)
            &&& after.contains_key(second)
            &&& after[first].hash == fingerprint_of(content)
            &&& after[second].hash == fingerprint_of(content)
        }),
{
    let items = seq![
        Item::File { path: first_path, content },
        Item::File { path: second_path, content },
    ];
    let one = item_round(catalog, tree, config, items[0], thumbs(0)).0;
    let two = item_round(one, tree, config, items[1], thumbs(1)).0;
    lemma_item_round(catalog, tree, config, items[0], thumbs(0));
    lemma_item_round(one, tree, config, items[1], thumbs(1));
    assert(walk_catalog(catalog, tree, config, items, thumbs, 0) == two) by {
        assert(walk_catalog(two, tree, config, items, thumbs, 2) == two);
        assert(walk_catalog(one, tree, config, items, thumbs, 1) == two);
    }
}

/// Corrupt-image resilience: a file of whose content no thumbnail can be
/// made leaves the catalog as it is, is reported with the decoder's words
/// unless the catalog knew its location, and the scan asks for the tree's
/// next picture.
pub proof fn lemma_undecodable_file_is_passed_over(
    catalog: Map<Location, FileInfoView>,
    tree: TreeView,
    config: Seq<MarkerDatePaths>,
    path: Seq<char>,
    content: Seq<u8>,
    thumb: Seq<u8>,
)
    requires
        rejection(content) is Some,
    ensures
        ({
            let round = item_round(catalog, tree, config, Item::File { path, content }, thumb);
            &&& round.0 == catalog
            &&& round.1.state == TreeStateView::Walking { tree }
            &&& round.1.action == ActionView::NextPath
            &&& match relative_of(tree.root, path) {
                Some(relative) => !catalog.contains_key(
                    Location { marker: tree.marker, relative },
                ) ==> round.1.report == Some(
                    ReportView::Undecodable {
                        relative,
                        reason: rejection(content)->0,
                    },
                ),
                None => round.1.report == Some(ReportView::Outside { path }),
            }
        }),
{
}

/// Missing-marker skip: when the marker file is not there, the scan of the
/// tree ends as skipped after its first answer, reports that the marker was
/// not found, asks for nothing more, leaves the catalog alone and does not
/// count as failed.
pub proof fn lemma_missing_marker_skips_tree(
    catalog: Map<Location, FileInfoView>,
    marker_path: Seq<char>,
    config: Seq<MarkerDatePaths>,
    items: Seq<Item>,
    thumbs: spec_fn(int) -> Seq<u8>,
    thumb: Seq<u8>,
)
    ensures
        tree_scan(catalog, marker_path, MarkerReadView::Missing, config, items, thumbs) == (
            catalog,
            TreeStateView::Skipped,
        ),
        next_step(
            first_step(marker_path).state,
            EventView::Marker(MarkerReadView::Missing),
            config,
            thumb,
        ) == halted(
            TreeStateView::Skipped,
            Some(ReportView::TreeSkipped(TreeErrorView::NotFound(marker_path))),
        ),
        failure_of(TreeStateView::Skipped) is None,
{
}

/// A scan that is over stays over: whatever is answered, it asks for
/// nothing and tells nothing.
pub proof fn lemma_final_state_stays(
    state: TreeStateView,
    event: EventView,
    config: Seq<MarkerDatePaths>,
    thumb: Seq<u8>,
)
    requires
        state.is_final(),
    ensures
        next_step(state, event, config, thumb) == halted(state, None),
{
}

} // verus!
