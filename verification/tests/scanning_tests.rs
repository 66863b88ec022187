use photoscan::content::FileInfo;
use photoscan::date::CaptureDate;
use photoscan::fingerprint::fingerprint;
use photoscan::inference::DatePath;
use photoscan::scanning::{
    date_paths_for, has_distinct_markers, process_tree, scan, start, Action, Event, MarkerDatePaths, Report, Step,
    TreeFailure, TreeState, Walk,
};
use photoscan::tree::{MarkerRead, Tree, TreeError};
use std::collections::BTreeMap;

type Catalog = BTreeMap<(String, String), FileInfo>;

/// A tree on a disk that exists only here: what reading its marker gives,
/// and what the walk over it gives, each with what reading the file gives.
struct Disk {
    marker: MarkerRead,
    walk: Vec<(Walk, Result<Vec<u8>, String>)>,
}

/// What a run of the scan over one tree did.
struct Run {
    last: TreeState,
    reports: Vec<Report>,
    lookups: usize,
    upserts: usize,
}

fn jpeg(width: u32, height: u32, shade: u8) -> Vec<u8> {
    let picture = image::RgbImage::from_fn(width, height, |x, y| {
        image::Rgb([(x % 256) as u8, (y % 256) as u8, shade])
    });
    let mut bytes = Vec::new();
    image::DynamicImage::ImageRgb8(picture)
        .write_to(&mut bytes, image::ImageOutputFormat::Jpeg(85))
        .unwrap();
    bytes
}

fn file(path: &str, content: Vec<u8>) -> (Walk, Result<Vec<u8>, String>) {
    (Walk::Entry(path.to_string()), Ok(content))
}

fn disk(walk: Vec<(Walk, Result<Vec<u8>, String>)>) -> Disk {
    Disk { marker: MarkerRead::Found("card".to_string()), walk }
}

/// Drives the scan of one tree: does what each step asks for, on the disk
/// and the catalog given, and answers with what came of it.
fn run(marker_path: &str, disk: &Disk, catalog: &mut Catalog, config: &Vec<MarkerDatePaths>) -> Run {
    let mut reports = Vec::new();
    let mut lookups = 0;
    let mut upserts = 0;
    let mut next = 0;
    let mut current: Option<Result<Vec<u8>, String>> = None;
    let mut step = start(marker_path.to_string());
    loop {
        let Step { state, action, report } = step;
        reports.extend(report);
        let event = match action {
            Action::Stop => return Run { last: state, reports, lookups, upserts },
            Action::ReadMarker(path) => {
                assert_eq!(path, marker_path);
                Event::Marker(disk.marker.clone())
            }
            Action::NextPath => match disk.walk.get(next) {
                Some((walk, read)) => {
                    next += 1;
                    current = Some(read.clone());
                    Event::Walked(walk.clone())
                }
                None => Event::Walked(Walk::End),
            },
            Action::ReadFile(_) => match current.take().unwrap() {
                Ok(content) => Event::Content(content),
                Err(reason) => Event::Unreadable(reason),
            },
            Action::Lookup { marker, relative } => {
                lookups += 1;
                Event::Known(catalog.contains_key(&(marker, relative)))
            }
            Action::Upsert { marker, relative, info } => {
                upserts += 1;
                catalog.insert((marker, relative), info);
                Event::Stored
            }
        };
        step = process_tree(state, event, config);
    }
}

fn card_tree() -> Tree {
    Tree { marker: "card".to_string(), root: "/mnt/card".to_string() }
}

fn key(relative: &str) -> (String, String) {
    ("card".to_string(), relative.to_string())
}

#[test]
fn scan_begins_with_reading_the_marker() {
    let step = start("/mnt/card/marker.json".to_string());
    assert_eq!(step.state, TreeState::Resolving { marker_path: "/mnt/card/marker.json".to_string() });
    assert_eq!(step.action, Action::ReadMarker("/mnt/card/marker.json".to_string()));
    assert_eq!(step.report, None);
}

#[test]
fn missing_marker_skips_the_tree() {
    let mut catalog = Catalog::new();
    let absent = Disk { marker: MarkerRead::Missing, walk: vec![file("/mnt/card/a.jpg", jpeg(8, 8, 0))] };
    let done = run("/mnt/card/marker.json", &absent, &mut catalog, &vec![]);
    assert_eq!(done.last, TreeState::Skipped);
    assert_eq!(
        done.reports,
        vec![Report::TreeSkipped(TreeError::NotFound("/mnt/card/marker.json".to_string()))]
    );
    assert!(catalog.is_empty());
    let summary = scan(&vec![done.last]);
    assert_eq!((summary.done, summary.skipped, summary.failures.len()), (0, 1, 0));
    assert!(summary.succeeded());
}

#[test]
fn unreadable_marker_fails_the_tree_and_not_the_run() {
    let mut catalog = Catalog::new();
    let broken = Disk { marker: MarkerRead::Unreadable("missing field `id`".to_string()), walk: vec![] };
    let done = run("/mnt/card/marker.json", &broken, &mut catalog, &vec![]);
    let failure = TreeFailure::Marker(TreeError::Other {
        path: "/mnt/card/marker.json".to_string(),
        source: "missing field `id`".to_string(),
    });
    assert_eq!(done.last, TreeState::Failed(failure.clone()));
    assert!(done.reports.is_empty());
    let summary = scan(&vec![TreeState::Done, done.last, TreeState::Skipped]);
    assert_eq!((summary.done, summary.skipped), (1, 1));
    assert_eq!(summary.failures, vec![failure]);
    assert!(summary.succeeded());
}

#[test]
fn corrupt_picture_is_passed_over_and_the_scan_goes_on() {
    let second = jpeg(16, 16, 2);
    let files = disk(vec![
        file("/mnt/card/one.jpg", jpeg(16, 16, 1)),
        file("/mnt/card/two.jpg", second[..second.len() / 2].to_vec()),
        file("/mnt/card/three.jpeg", jpeg(16, 16, 3)),
    ]);
    let mut catalog = Catalog::new();
    let done = run("/mnt/card/marker.json", &files, &mut catalog, &vec![]);
    assert_eq!(done.last, TreeState::Done);
    assert_eq!(catalog.len(), 2);
    assert!(catalog.contains_key(&key("one.jpg")));
    assert!(!catalog.contains_key(&key("two.jpg")));
    assert!(catalog.contains_key(&key("three.jpeg")));
    let failed: Vec<&Report> = done
        .reports
        .iter()
        .filter(|report| matches!(report, Report::Undecodable { .. }))
        .collect();
    assert_eq!(failed.len(), 1);
    assert!(matches!(failed[0], Report::Undecodable { relative, .. } if relative == "two.jpg"));
    assert_eq!(done.reports.len(), 3);
    assert_eq!(done.reports[0], Report::Stored { relative: "one.jpg".to_string() });
    assert_eq!(done.reports[2], Report::Stored { relative: "three.jpeg".to_string() });
    assert!(scan(&vec![done.last]).succeeded());
}

#[test]
fn second_scan_changes_nothing_and_processes_nothing() {
    let files = disk(vec![
        file("/mnt/card/2019/one.jpg", jpeg(16, 16, 1)),
        file("/mnt/card/2019/two.jpg", jpeg(24, 16, 2)),
    ]);
    let mut catalog = Catalog::new();
    let first = run("/mnt/card/marker.json", &files, &mut catalog, &vec![]);
    assert_eq!((first.lookups, first.upserts), (2, 2));
    let before = catalog.clone();
    let second = run("/mnt/card/marker.json", &files, &mut catalog, &vec![]);
    assert_eq!(second.last, TreeState::Done);
    assert_eq!((second.lookups, second.upserts), (2, 0));
    assert_eq!(catalog, before);
    assert_eq!(
        second.reports,
        vec![
            Report::AlreadyKnown { relative: "2019/one.jpg".to_string() },
            Report::AlreadyKnown { relative: "2019/two.jpg".to_string() },
        ]
    );
}

#[test]
fn known_location_is_not_processed_whatever_the_file_holds() {
    let state = TreeState::Checking {
        tree: card_tree(),
        relative: "a.jpg".to_string(),
        content: b"this is no picture".to_vec(),
    };
    let step = process_tree(state, Event::Known(true), &vec![]);
    assert_eq!(step.state, TreeState::Walking { tree: card_tree() });
    assert_eq!(step.action, Action::NextPath);
    assert_eq!(step.report, Some(Report::AlreadyKnown { relative: "a.jpg".to_string() }));
}

#[test]
fn same_content_at_two_paths_gives_two_records() {
    let content = jpeg(16, 16, 7);
    let files = disk(vec![
        file("/mnt/card/a/x.jpg", content.clone()),
        file("/mnt/card/b/x.jpg", content.clone()),
    ]);
    let mut catalog = Catalog::new();
    let done = run("/mnt/card/marker.json", &files, &mut catalog, &vec![]);
    assert_eq!(done.upserts, 2);
    assert_eq!(catalog.len(), 2);
    assert_eq!(catalog[&key("a/x.jpg")].hash, fingerprint(&content));
    assert_eq!(catalog[&key("b/x.jpg")].hash, fingerprint(&content));
}

#[test]
fn unknown_picture_is_processed_and_stored() {
    let content = jpeg(16, 16, 9);
    let state = TreeState::Checking {
        tree: card_tree(),
        relative: "2015/06/a.jpg".to_string(),
        content: content.clone(),
    };
    let rules = vec![MarkerDatePaths {
        marker: "card".to_string(),
        date_paths: vec![DatePath {
            path: r"^(?P<y>\d{4})/(?P<m>\d{2})/".to_string(),
            date: "$y-$m-01 12:00:00".to_string(),
        }],
    }];
    let step = process_tree(state, Event::Known(false), &rules);
    assert_eq!(
        step.state,
        TreeState::Storing { tree: card_tree(), relative: "2015/06/a.jpg".to_string() }
    );
    assert_eq!(step.report, None);
    match step.action {
        Action::Upsert { marker, relative, info } => {
            assert_eq!(marker, "card");
            assert_eq!(relative, "2015/06/a.jpg");
            assert_eq!(info.hash, fingerprint(&content));
            assert_eq!(
                info.date,
                Some(CaptureDate { year: 2015, month: 6, day: 1, hour: 12, minute: 0, second: 0 })
            );
            assert!(!info.thumb.is_empty());
        }
        other => panic!("expected an upsert, got {:?}", other),
    }
    let step = process_tree(step.state, Event::Stored, &rules);
    assert_eq!(step.state, TreeState::Walking { tree: card_tree() });
    assert_eq!(step.action, Action::NextPath);
    assert_eq!(step.report, Some(Report::Stored { relative: "2015/06/a.jpg".to_string() }));
}

#[test]
fn rules_are_those_of_the_trees_marker() {
    let rule = |date: &str| DatePath { path: "^".to_string(), date: date.to_string() };
    let config = vec![
        MarkerDatePaths { marker: "other".to_string(), date_paths: vec![rule("2001-01-01")] },
        MarkerDatePaths { marker: "card".to_string(), date_paths: vec![rule("2002-02-02")] },
        MarkerDatePaths { marker: "card".to_string(), date_paths: vec![rule("2003-03-03")] },
    ];
    assert_eq!(date_paths_for(&config, &"card".to_string()), Some(&vec![rule("2002-02-02")]));
    assert_eq!(date_paths_for(&config, &"other".to_string()), Some(&vec![rule("2001-01-01")]));
    assert_eq!(date_paths_for(&config, &"none".to_string()), None);
    let files = disk(vec![file("/mnt/card/a.jpg", jpeg(8, 8, 1))]);
    let mut catalog = Catalog::new();
    run("/mnt/card/marker.json", &files, &mut catalog, &config);
    assert_eq!(
        catalog[&key("a.jpg")].date,
        Some(CaptureDate { year: 2002, month: 2, day: 2, hour: 0, minute: 0, second: 0 })
    );
}

#[test]
fn files_that_cannot_be_reached_are_reported_and_passed_over() {
    let files = disk(vec![
        (Walk::Inaccessible("permission denied".to_string()), Err(String::new())),
        (Walk::Entry("/mnt/card/locked.jpg".to_string()), Err("input/output error".to_string())),
        file("/elsewhere/a.jpg", jpeg(8, 8, 1)),
        file("/mnt/card/a.jpg", jpeg(8, 8, 1)),
    ]);
    let mut catalog = Catalog::new();
    let done = run("/mnt/card/marker.json", &files, &mut catalog, &vec![]);
    assert_eq!(done.last, TreeState::Done);
    assert_eq!(
        done.reports,
        vec![
            Report::Inaccessible("permission denied".to_string()),
            Report::Unreadable {
                path: "/mnt/card/locked.jpg".to_string(),
                reason: "input/output error".to_string()
            },
            Report::Outside { path: "/elsewhere/a.jpg".to_string() },
            Report::Stored { relative: "a.jpg".to_string() },
        ]
    );
    assert_eq!(catalog.len(), 1);
}

#[test]
fn broken_walk_fails_the_tree() {
    let files = disk(vec![
        file("/mnt/card/a.jpg", jpeg(8, 8, 1)),
        (Walk::Broken("pattern refused".to_string()), Err(String::new())),
        file("/mnt/card/b.jpg", jpeg(8, 8, 2)),
    ]);
    let mut catalog = Catalog::new();
    let done = run("/mnt/card/marker.json", &files, &mut catalog, &vec![]);
    assert_eq!(done.last, TreeState::Failed(TreeFailure::Walk("pattern refused".to_string())));
    assert_eq!(catalog.len(), 1);
    assert!(scan(&vec![done.last]).succeeded());
}

#[test]
fn failing_catalog_stops_the_tree_and_fails_the_run() {
    let checking = TreeState::Checking {
        tree: card_tree(),
        relative: "a.jpg".to_string(),
        content: jpeg(8, 8, 1),
    };
    let step = process_tree(checking, Event::StoreFailed("database is locked".to_string()), &vec![]);
    assert_eq!(step.state, TreeState::Failed(TreeFailure::Store("database is locked".to_string())));
    assert_eq!(step.action, Action::Stop);
    let storing = TreeState::Storing { tree: card_tree(), relative: "a.jpg".to_string() };
    let step = process_tree(storing, Event::StoreFailed("disk full".to_string()), &vec![]);
    assert_eq!(step.state, TreeState::Failed(TreeFailure::Store("disk full".to_string())));
    assert_eq!(step.action, Action::Stop);
    let summary = scan(&vec![TreeState::Done, step.state]);
    assert_eq!(summary.failures, vec![TreeFailure::Store("disk full".to_string())]);
    assert!(!summary.succeeded());
}

#[test]
fn answer_out_of_turn_fails_the_tree() {
    let walking = TreeState::Walking { tree: card_tree() };
    let step = process_tree(walking, Event::Stored, &vec![]);
    assert_eq!(step.state, TreeState::Failed(TreeFailure::Protocol));
    assert_eq!(step.action, Action::Stop);
    let resolving = TreeState::Resolving { marker_path: "/m".to_string() };
    let step = process_tree(resolving, Event::Known(true), &vec![]);
    assert_eq!(step.state, TreeState::Failed(TreeFailure::Protocol));
    let reading = TreeState::Reading { tree: card_tree(), path: "/mnt/card/a.jpg".to_string() };
    let step = process_tree(reading, Event::Walked(Walk::End), &vec![]);
    assert_eq!(step.state, TreeState::Failed(TreeFailure::Protocol));
    assert!(!scan(&vec![step.state]).succeeded());
}

#[test]
fn scan_that_is_over_stays_over() {
    for state in [TreeState::Skipped, TreeState::Done, TreeState::Failed(TreeFailure::Protocol)] {
        let step = process_tree(state.clone(), Event::Walked(Walk::Entry("/x".to_string())), &vec![]);
        assert_eq!(step.state, state);
        assert_eq!(step.action, Action::Stop);
        assert_eq!(step.report, None);
    }
}

#[test]
fn summary_counts_every_tree_once() {
    let summary = scan(&vec![]);
    assert_eq!((summary.done, summary.skipped, summary.failures.len()), (0, 0, 0));
    assert!(summary.succeeded());
    let walk = TreeFailure::Walk("w".to_string());
    let store = TreeFailure::Store("s".to_string());
    let summary = scan(&vec![
        TreeState::Failed(walk.clone()),
        TreeState::Done,
        TreeState::Walking { tree: card_tree() },
        TreeState::Skipped,
        TreeState::Done,
        TreeState::Failed(store.clone()),
    ]);
    assert_eq!((summary.done, summary.skipped), (2, 1));
    assert_eq!(summary.failures, vec![walk.clone(), TreeFailure::Protocol, store.clone()]);
    assert!(!summary.succeeded());
    assert!(!walk.fatal());
    assert!(store.fatal());
    assert!(TreeFailure::Protocol.fatal());
    assert_eq!(store.duplicate(), store);
}

#[test]
fn trees_keep_to_their_own_marker() {
    let content = jpeg(8, 8, 4);
    let card = disk(vec![file("/mnt/card/a.jpg", content.clone())]);
    let stick = Disk {
        marker: MarkerRead::Found("stick".to_string()),
        walk: vec![file("/mnt/stick/a.jpg", content.clone())],
    };
    let mut catalog = Catalog::new();
    run("/mnt/card/marker.json", &card, &mut catalog, &vec![]);
    let before = catalog[&key("a.jpg")].clone();
    let done = run("/mnt/stick/marker.json", &stick, &mut catalog, &vec![]);
    assert_eq!(done.upserts, 1);
    assert_eq!(catalog.len(), 2);
    assert_eq!(catalog[&key("a.jpg")], before);
    assert!(catalog.contains_key(&("stick".to_string(), "a.jpg".to_string())));
}

#[test]
fn stored_thumbnails_are_jpeg_files() {
    let files = disk(vec![file("/mnt/card/a.jpg", jpeg(300, 200, 4))]);
    let mut catalog = Catalog::new();
    run("/mnt/card/marker.json", &files, &mut catalog, &vec![]);
    let thumb = &catalog[&key("a.jpg")].thumb;
    assert_eq!(&thumb[..2], &[0xff, 0xd8]);
    assert_eq!(image::guess_format(thumb).unwrap(), image::ImageFormat::Jpeg);
}

#[test]
fn configuration_holds_each_marker_once() {
    let entry = |marker: &str| MarkerDatePaths { marker: marker.to_string(), date_paths: vec![] };
    assert!(has_distinct_markers(&vec![]));
    assert!(has_distinct_markers(&vec![entry("a")]));
    assert!(has_distinct_markers(&vec![entry("a"), entry("b"), entry("c")]));
    assert!(!has_distinct_markers(&vec![entry("a"), entry("b"), entry("a")]));
    assert!(!has_distinct_markers(&vec![entry("b"), entry("b")]));
}

#[test]
fn root_itself_is_looked_up_under_the_empty_relative_path() {
    let reading = TreeState::Reading { tree: card_tree(), path: "/mnt/card/".to_string() };
    let step = process_tree(reading, Event::Content(vec![1, 2, 3]), &vec![]);
    assert_eq!(
        step.action,
        Action::Lookup { marker: "card".to_string(), relative: String::new() }
    );
}
