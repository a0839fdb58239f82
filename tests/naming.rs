use mimir2::text::compare_text;
use mimir2::naming::{index_name, root_doctype_dataset, split_index_name, versions_pattern};

#[test]
fn compose_names() {
    assert_eq!(root_doctype_dataset("book", "fr"), "book_fr");
    assert_eq!(index_name("book", "fr", "20210101"), "book_fr_20210101");
    assert_eq!(versions_pattern("book_fr"), "book_fr_*");
}

#[test]
fn name_round_trip() {
    let name = index_name("admin", "fr-ne", "20210502_151927_673737330");
    assert_eq!(split_index_name(&name), Some((String::from("admin"), String::from("fr-ne"))));
}

#[test]
fn names_that_do_not_split() {
    assert_eq!(split_index_name("book"), None);
    assert_eq!(split_index_name("book_fr"), None);
    assert_eq!(split_index_name("_fr_2021"), None);
    assert_eq!(split_index_name("book__2021"), None);
    assert_eq!(split_index_name("book_fr_"), Some((String::from("book"), String::from("fr"))));
}

#[test]
fn text_order_follows_strings() {
    for (a, b) in [("a", "b"), ("ab", "abc"), ("", "a"), ("book_fr_1", "book_fr_2"), ("Z", "a"), ("z", "é")] {
        assert!(a < b);
        assert!(compare_text(a, b) < 0);
        assert!(compare_text(b, a) > 0);
        assert_eq!(compare_text(a, a), 0);
    }
}
