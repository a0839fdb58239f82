use mimir2::error::Error;
use mimir2::index::{index_from_rows, parse_u32, ElasticsearchIndex, Index, IndexStatus};

fn row(name: &str, docs_count: Option<&str>) -> ElasticsearchIndex {
    ElasticsearchIndex {
        health: String::from("green"),
        status: String::from("open"),
        name: String::from(name),
        docs_count: docs_count.map(String::from),
        docs_deleted: None,
        pri: String::from("1"),
        pri_store_size: None,
        rep: String::from("1"),
        store_size: None,
        uuid: String::from("u"),
    }
}

#[test]
fn decimal_counts() {
    assert_eq!(parse_u32("0"), Some(0));
    assert_eq!(parse_u32("25"), Some(25));
    assert_eq!(parse_u32("4294967295"), Some(4294967295));
    assert_eq!(parse_u32("4294967296"), None);
    assert_eq!(parse_u32(""), None);
    assert_eq!(parse_u32("1a"), None);
    assert_eq!(parse_u32("+7"), Some(7));
    assert_eq!(parse_u32("+"), None);
    assert_eq!(parse_u32("-7"), None);
    assert_eq!(parse_u32("++7"), None);
}

#[test]
fn row_to_index() {
    let ix = Index::try_from(row("book_fr_20210101", Some("25"))).unwrap();
    assert_eq!(
        ix,
        Index {
            name: String::from("book_fr_20210101"),
            doc_type: String::from("book"),
            dataset: String::from("fr"),
            docs_count: 25,
            status: IndexStatus::Available,
        }
    );
    let ix = Index::try_from(row("book_fr_20210101", None)).unwrap();
    assert_eq!(ix.docs_count, 0);
}

#[test]
fn every_health_is_available() {
    assert_eq!(IndexStatus::from(String::from("red")), IndexStatus::Available);
}

#[test]
fn row_conversion_errors() {
    assert_eq!(
        Index::try_from(row("book", None)),
        Err(Error::IndexConversion {
            details: String::from("could not convert elasticsearch index into model index: book")
        })
    );
    assert_eq!(
        Index::try_from(row("book_fr_1", Some("x"))),
        Err(Error::IndexConversion { details: String::from("invalid document count for index book_fr_1") })
    );
}

#[test]
fn listing_takes_last_row() {
    assert_eq!(index_from_rows(vec![]), Ok(None));
    let r = index_from_rows(vec![row("a_b_1", None), row("book_fr_2", Some("3"))]).unwrap().unwrap();
    assert_eq!(r.name, "book_fr_2");
    assert_eq!(r.docs_count, 3);
}
