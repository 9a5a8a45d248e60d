use pagenine::api::Catalog;
use pagenine::api::Page;
use pagenine::api::Thread;
use pagenine::api::title_contains;
use pagenine::response::APIPage;
use pagenine::response::APIThread;

fn sample_catalog() -> Catalog {
    Catalog(vec![
        Page {
            page: 1,
            threads: vec![
                Thread { no: 11, sub: String::from("cooking general"), bumplimit: false },
                Thread { no: 12, sub: String::from("model trains"), bumplimit: false },
            ],
        },
        Page {
            page: 2,
            threads: vec![
                Thread { no: 21, sub: String::from("trains and tracks"), bumplimit: true },
                Thread { no: 22, sub: String::from("gardening trains"), bumplimit: false },
            ],
        },
    ])
}

#[test]
fn find_first_match_in_traversal_order() {
    let catalog = sample_catalog();
    let found = catalog.find(&String::from("trains"), 5_000).expect("a match exists");
    assert_eq!(found.page, 1);
    assert_eq!(found.no, 12);
    assert_eq!(found.sub, String::from("model trains"));
    assert_eq!(found.time, 5_000);
    assert_eq!(found.position, 2);
    assert_eq!(found.page_length, 2);
    assert_eq!(found.bumplimit, false);
}

#[test]
fn find_on_later_page() {
    let catalog = sample_catalog();
    let found = catalog.find(&String::from("tracks"), 7_000).expect("a match exists");
    assert_eq!(found.page, 2);
    assert_eq!(found.no, 21);
    assert_eq!(found.position, 1);
    assert_eq!(found.page_length, 2);
    assert_eq!(found.bumplimit, true);
}

#[test]
fn find_no_match() {
    let catalog = sample_catalog();
    assert_eq!(catalog.find(&String::from("knitting"), 0), None);
}

#[test]
fn find_is_case_sensitive() {
    let catalog = sample_catalog();
    assert_eq!(catalog.find(&String::from("Trains"), 0), None);
}

#[test]
fn find_empty_title_takes_first_thread() {
    let catalog = sample_catalog();
    let found = catalog.find(&String::new(), 0).expect("everything matches");
    assert_eq!(found.no, 11);
    assert_eq!(found.position, 1);
}

#[test]
fn find_in_empty_catalog() {
    let catalog = Catalog(Vec::new());
    assert_eq!(catalog.find(&String::from("anything"), 0), None);
}

#[test]
fn from_pages_keeps_document_order() {
    let pages = vec![
        APIPage {
            page: 1,
            threads: vec![APIThread { no: 1, sub: String::from("alpha"), bumplimit: false }],
        },
        APIPage {
            page: 2,
            threads: vec![
                APIThread { no: 2, sub: String::from("beta"), bumplimit: true },
                APIThread { no: 3, sub: String::from("gamma"), bumplimit: false },
            ],
        },
    ];
    let catalog = Catalog::from_pages(pages);
    assert_eq!(catalog.0.len(), 2);
    assert_eq!(catalog.0[0].page, 1);
    assert_eq!(catalog.0[0].threads.len(), 1);
    assert_eq!(catalog.0[1].threads.len(), 2);
    assert_eq!(catalog.0[1].threads[0].no, 2);
    assert_eq!(catalog.0[1].threads[0].sub, String::from("beta"));
    assert!(catalog.0[1].threads[0].bumplimit);
    assert_eq!(catalog.0[1].threads[1].no, 3);
}

#[test]
fn title_contains_basics() {
    assert!(title_contains("model trains", "trains"));
    assert!(title_contains("model trains", ""));
    assert!(title_contains("abc", "abc"));
    assert!(!title_contains("abc", "abcd"));
    assert!(!title_contains("Model Trains", "trains"));
    assert!(title_contains("aab", "ab"));
}
