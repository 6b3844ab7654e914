//! Filtering behavior: identity on the empty query, exclusion of
//! non-matches, score ordering, stable ties, and determinism.

use zlaunch::controller::FilterController;
use zlaunch::item::Item;
use zlaunch::scorer::filter_sync;

fn item(name: &str) -> Item {
    Item::new(name.to_lowercase(), name.to_string(), None, None)
}

fn items(names: &[&str]) -> Vec<Item> {
    names.iter().map(|n| item(n)).collect()
}

#[test]
fn empty_query_is_identity() {
    let c = FilterController::new(items(&["Firefox", "Files", "Terminal"]));
    assert_eq!(c.filtered_indices().as_slice(), &[0, 1, 2]);
    assert_eq!(c.query(), "");
    assert_eq!(c.selected_index(), Some(0));
}

#[test]
fn empty_collection_has_no_selection() {
    let c = FilterController::new(Vec::new());
    assert_eq!(c.filtered_count(), 0);
    assert_eq!(c.selected_index(), None);
}

#[test]
fn non_matching_items_are_excluded() {
    let mut c = FilterController::new(items(&["Firefox", "Files", "Terminal"]));
    c.set_query_and_filter("fir".to_string());
    assert_eq!(c.filtered_indices().as_slice(), &[0]);
    assert_eq!(c.selected_index(), Some(0));
}

#[test]
fn no_match_at_all_empties_the_list() {
    let mut c = FilterController::new(items(&["Firefox", "Files"]));
    c.set_query_and_filter("zzzq".to_string());
    assert_eq!(c.filtered_count(), 0);
    assert_eq!(c.selected_index(), None);
}

#[test]
fn higher_score_comes_first() {
    // "term" matches "Terminal" at the head of the word, "xterm" only in
    // the middle: the better match moves up, ahead of collection order.
    let mut c = FilterController::new(items(&["xterm", "Terminal"]));
    c.set_query_and_filter("term".to_string());
    assert_eq!(c.filtered_indices().as_slice(), &[1, 0]);
}

#[test]
fn equal_scores_keep_collection_order() {
    let mut c = FilterController::new(items(&["Files", "Files"]));
    c.set_query_and_filter("fil".to_string());
    assert_eq!(c.filtered_indices().as_slice(), &[0, 1]);
}

#[test]
fn filtering_same_query_twice_is_identical() {
    let mut c = FilterController::new(items(&["Firefox", "Files", "Terminal", "Editor"]));
    c.set_query_and_filter("e".to_string());
    let first = c.filtered_indices().clone();
    c.set_query_and_filter("e".to_string());
    assert_eq!(c.filtered_indices(), &first);
}

#[test]
fn filter_then_clear_returns_to_identity() {
    let mut c = FilterController::new(items(&["Firefox", "Files", "Terminal"]));
    c.set_query_and_filter("fir".to_string());
    assert_eq!(c.filtered_indices().as_slice(), &[0]);
    c.clear_query();
    assert_eq!(c.query(), "");
    assert_eq!(c.filtered_indices().as_slice(), &[0, 1, 2]);
    assert_eq!(c.selected_index(), Some(0));
}

#[test]
fn filtered_indices_valid_and_distinct() {
    let names = ["Firefox", "Files", "Terminal", "Editor", "Fire", "files"];
    let coll = items(&names);
    for query in ["f", "fi", "e", "ter", ""] {
        let result = filter_sync(&coll, query);
        for &ix in &result {
            assert!(ix < coll.len());
        }
        let mut seen = vec![false; coll.len()];
        for &ix in &result {
            assert!(!seen[ix], "index {} twice for query {}", ix, query);
            seen[ix] = true;
        }
    }
}

#[test]
fn filter_sync_matches_controller() {
    let coll = items(&["Firefox", "Files", "Terminal"]);
    let direct = filter_sync(&coll, "fi");
    let mut c = FilterController::new(coll);
    c.set_query_and_filter("fi".to_string());
    assert_eq!(c.filtered_indices(), &direct);
}
