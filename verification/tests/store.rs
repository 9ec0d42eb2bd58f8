use shuttlings_cch24::quote::Quote;
use shuttlings_cch24::store::{QuoteStore, StoreError};

fn ids(quotes: &[Quote]) -> Vec<u128> {
    quotes.iter().map(|q| q.id).collect()
}

fn draft(store: &mut QuoteStore, id: u128, at: i64) -> Quote {
    store.draft(id, format!("a{}", id), format!("q{}", id), at).unwrap()
}

#[test]
fn new_store_is_empty() {
    let store = QuoteStore::new();
    assert_eq!(store.len(), 0);
    assert!(store.list_all().is_empty());
}

#[test]
fn draft_returns_the_row_at_version_one() {
    let mut store = QuoteStore::new();
    let row = store.draft(7, "A".to_string(), "Q".to_string(), 1_000).unwrap();
    assert_eq!(row.id, 7);
    assert_eq!(row.author, "A");
    assert_eq!(row.quote, "Q");
    assert_eq!(row.created_at, 1_000);
    assert_eq!(row.version, 1);
    assert_eq!(store.len(), 1);
}

#[test]
fn draft_then_cite_gives_the_same_row() {
    let mut store = QuoteStore::new();
    draft(&mut store, 1, 10);
    let drafted = store.draft(2, "A".to_string(), "Q".to_string(), 20).unwrap();
    let cited = store.cite(2).unwrap();
    assert_eq!(cited.id, drafted.id);
    assert_eq!(cited.author, "A");
    assert_eq!(cited.quote, "Q");
    assert_eq!(cited.created_at, 20);
    assert_eq!(cited.version, 1);
}

#[test]
fn draft_under_a_taken_identifier_is_turned_down() {
    let mut store = QuoteStore::new();
    draft(&mut store, 5, 10);
    let again = store.draft(5, "X".to_string(), "Y".to_string(), 11);
    assert_eq!(again.err(), Some(StoreError::DuplicateId));
    assert_eq!(store.len(), 1);
    assert_eq!(store.cite(5).unwrap().author, "a5");
}

#[test]
fn cite_of_a_missing_row_is_not_found() {
    let mut store = QuoteStore::new();
    assert_eq!(store.cite(1).err(), Some(StoreError::NotFound));
    draft(&mut store, 1, 10);
    assert_eq!(store.cite(2).err(), Some(StoreError::NotFound));
}

#[test]
fn undo_writes_text_and_moves_the_version_on() {
    let mut store = QuoteStore::new();
    draft(&mut store, 1, 10);
    draft(&mut store, 2, 20);
    let edited = store.undo(1, "A2".to_string(), "Q2".to_string()).unwrap();
    assert_eq!(edited.id, 1);
    assert_eq!(edited.author, "A2");
    assert_eq!(edited.quote, "Q2");
    assert_eq!(edited.created_at, 10);
    assert_eq!(edited.version, 2);
    let cited = store.cite(1).unwrap();
    assert_eq!(cited.author, "A2");
    assert_eq!(cited.version, 2);
    let again = store.undo(1, "A3".to_string(), "Q3".to_string()).unwrap();
    assert_eq!(again.version, 3);
    assert_eq!(store.cite(2).unwrap().version, 1);
    assert_eq!(ids(&store.list_all()), vec![1, 2]);
}

#[test]
fn undo_of_a_missing_row_is_not_found() {
    let mut store = QuoteStore::new();
    draft(&mut store, 1, 10);
    let missing = store.undo(9, "A".to_string(), "Q".to_string());
    assert_eq!(missing.err(), Some(StoreError::NotFound));
    assert_eq!(store.cite(1).unwrap().version, 1);
}

#[test]
fn remove_returns_the_row_and_deletes_it() {
    let mut store = QuoteStore::new();
    draft(&mut store, 1, 10);
    draft(&mut store, 2, 20);
    draft(&mut store, 3, 30);
    let removed = store.remove(2).unwrap();
    assert_eq!(removed.id, 2);
    assert_eq!(removed.author, "a2");
    assert_eq!(removed.quote, "q2");
    assert_eq!(removed.created_at, 20);
    assert_eq!(store.cite(2).err(), Some(StoreError::NotFound));
    assert_eq!(ids(&store.list_all()), vec![1, 3]);
    assert_eq!(store.remove(2).err(), Some(StoreError::NotFound));
    assert_eq!(store.len(), 2);
}

#[test]
fn reset_removes_every_row_and_can_be_repeated() {
    let mut store = QuoteStore::new();
    draft(&mut store, 1, 10);
    draft(&mut store, 2, 20);
    store.reset();
    assert_eq!(store.len(), 0);
    assert_eq!(store.cite(1).err(), Some(StoreError::NotFound));
    store.reset();
    assert_eq!(store.len(), 0);
    draft(&mut store, 1, 10);
    assert_eq!(store.len(), 1);
}

#[test]
fn listing_is_ordered_by_time_of_creation() {
    let mut store = QuoteStore::new();
    draft(&mut store, 1, 30);
    draft(&mut store, 2, 10);
    draft(&mut store, 3, 20);
    draft(&mut store, 4, 40);
    draft(&mut store, 5, -1);
    assert_eq!(ids(&store.list_all()), vec![5, 2, 3, 1, 4]);
}

#[test]
fn rows_of_one_instant_keep_the_order_of_drafting() {
    let mut store = QuoteStore::new();
    draft(&mut store, 3, 10);
    draft(&mut store, 1, 10);
    draft(&mut store, 2, 10);
    draft(&mut store, 9, 5);
    assert_eq!(ids(&store.list_all()), vec![9, 3, 1, 2]);
}

#[test]
fn version_wraps_from_largest_to_smallest() {
    let mut store = QuoteStore::new();
    draft(&mut store, 1, 10);
    let mut version = 1;
    for _ in 0..3 {
        version = store.undo(1, "a".to_string(), "q".to_string()).unwrap().version;
    }
    assert_eq!(version, 4);
}
