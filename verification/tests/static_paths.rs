//! Lookup order of the embedded application's static files.

use itty_core::app_internal::app_path_candidates;

fn candidates(path: &str) -> Vec<Vec<u8>> {
    app_path_candidates(path.as_bytes())
}

#[test]
fn a_plain_path_is_tried_as_file_page_and_directory() {
    assert_eq!(
        candidates("about"),
        vec![
            b"about".to_vec(),
            b"about.html".to_vec(),
            b"about/index.html".to_vec(),
            b"404.html".to_vec(),
        ]
    );
}

#[test]
fn trailing_slashes_are_trimmed_before_lookup() {
    assert_eq!(
        candidates("docs///"),
        vec![
            b"docs".to_vec(),
            b"docs.html".to_vec(),
            b"docs/index.html".to_vec(),
            b"404.html".to_vec(),
        ]
    );
}

#[test]
fn the_empty_path_stands_for_the_index() {
    // The index substitution happens before the suffixed forms are built,
    // so they are derived from `index.html` itself.
    assert_eq!(
        candidates(""),
        vec![
            b"index.html".to_vec(),
            b"index.html.html".to_vec(),
            b"index.html/index.html".to_vec(),
            b"404.html".to_vec(),
        ]
    );
    assert_eq!(candidates("/"), candidates(""));
}
