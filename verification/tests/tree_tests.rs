use photoscan::tree::{MarkerRead, Tree, TreeError};

#[test]
fn marker_that_was_read_gives_the_tree_of_its_directory() {
    let tree = Tree::resolve("/mnt/card/marker.json", MarkerRead::Found("card-7".to_string())).unwrap();
    assert_eq!(tree.marker, "card-7");
    assert_eq!(tree.root, "/mnt/card");
}

#[test]
fn missing_marker_is_not_found() {
    match Tree::resolve("/mnt/card/marker.json", MarkerRead::Missing) {
        Err(TreeError::NotFound(path)) => assert_eq!(path, "/mnt/card/marker.json"),
        other => panic!("expected NotFound, got {:?}", other),
    }
    assert!(matches!(Tree::resolve("", MarkerRead::Missing), Err(TreeError::NotFound(_))));
}

#[test]
fn unreadable_marker_is_another_error() {
    match Tree::resolve("/mnt/card/marker.json", MarkerRead::Unreadable("expected value at line 1".to_string())) {
        Err(TreeError::Other { path, source }) => {
            assert_eq!(path, "/mnt/card/marker.json");
            assert_eq!(source, "expected value at line 1");
        }
        other => panic!("expected Other, got {:?}", other),
    }
}

#[test]
fn marker_path_without_directory_part_is_a_fault() {
    match Tree::resolve("/", MarkerRead::Found("id".to_string())) {
        Err(TreeError::Other { path, source }) => {
            assert_eq!(path, "/");
            assert_eq!(source, "Could not split parent directory of '/'");
        }
        other => panic!("expected Other, got {:?}", other),
    }
}

#[test]
fn tree_errors_have_words() {
    assert_eq!(
        TreeError::NotFound("/a/marker.json".to_string()).message(),
        "marker file not found at: '/a/marker.json'"
    );
    assert_eq!(
        TreeError::Other { path: "/a/marker.json".to_string(), source: "no id".to_string() }.message(),
        "error reading marker file at '/a/marker.json': no id"
    );
}

#[test]
fn pictures_are_jpeg_files() {
    assert_eq!(photoscan::tree::PICTURE_GLOB, "*.{jpg,jpeg}");
}
