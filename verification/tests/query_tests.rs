use tonbridge::query::{map_order, page_keys, page_limit, range_keys, select_page, Order, DEFAULT_LIMIT, MAX_LIMIT};

fn keys(n: u64) -> Vec<u64> {
    (1..=n).collect()
}

#[test]
fn map_order_one_is_ascending() {
    assert_eq!(map_order(Some(1)), Order::Ascending);
    assert_eq!(map_order(None), Order::Ascending);
}

#[test]
fn map_order_other_values_are_descending() {
    assert_eq!(map_order(Some(0)), Order::Descending);
    assert_eq!(map_order(Some(2)), Order::Descending);
    assert_eq!(map_order(Some(255)), Order::Descending);
}

#[test]
fn page_limit_defaults_and_caps() {
    assert_eq!(page_limit(None), DEFAULT_LIMIT as usize);
    assert_eq!(page_limit(Some(5)), 5);
    assert_eq!(page_limit(Some(0)), 0);
    assert_eq!(page_limit(Some(30)), 30);
    assert_eq!(page_limit(Some(31)), MAX_LIMIT as usize);
    assert_eq!(page_limit(Some(u32::MAX)), 30);
}

#[test]
fn range_keys_bound_is_exclusive() {
    assert_eq!(range_keys(&vec![2, 4, 6, 8], Some(4)), vec![6, 8]);
    assert_eq!(range_keys(&vec![2, 4, 6, 8], Some(5)), vec![6, 8]);
    assert_eq!(range_keys(&vec![2, 4, 6, 8], None), vec![2, 4, 6, 8]);
    assert_eq!(range_keys(&vec![2, 4, 6, 8], Some(8)), Vec::<u64>::new());
}

#[test]
fn default_page_is_first_ten_ascending() {
    assert_eq!(page_keys(&keys(40), None, None, None), keys(10));
}

#[test]
fn page_is_capped_at_thirty() {
    assert_eq!(page_keys(&keys(40), None, Some(100), Some(1)), keys(30));
}

#[test]
fn ascending_page_after_bound() {
    assert_eq!(page_keys(&keys(40), Some(10), Some(3), Some(1)), vec![11, 12, 13]);
}

#[test]
fn descending_page_starts_from_the_top() {
    assert_eq!(page_keys(&keys(40), None, Some(3), Some(2)), vec![40, 39, 38]);
}

#[test]
fn descending_bound_is_still_a_lower_bound() {
    // the exclusive bound cuts the low end in both orders
    assert_eq!(page_keys(&keys(10), Some(6), Some(10), Some(2)), vec![10, 9, 8, 7]);
    assert_eq!(page_keys(&keys(10), Some(6), Some(2), Some(2)), vec![10, 9]);
}

#[test]
fn ascending_pages_continue_without_gap() {
    let all = keys(7);
    let first = page_keys(&all, None, Some(3), None);
    assert_eq!(first, vec![1, 2, 3]);
    let second = page_keys(&all, Some(*first.last().unwrap()), Some(3), None);
    assert_eq!(second, vec![4, 5, 6]);
    let third = page_keys(&all, Some(*second.last().unwrap()), Some(3), None);
    assert_eq!(third, vec![7]);
}

#[test]
fn descending_pages_do_not_continue() {
    let all = vec![1, 2, 3, 4];
    let first = page_keys(&all, None, Some(2), Some(2));
    assert_eq!(first, vec![4, 3]);
    let second = page_keys(&all, Some(*first.last().unwrap()), Some(2), Some(2));
    assert_eq!(second, vec![4]);
}

#[test]
fn empty_store_gives_empty_page() {
    assert_eq!(page_keys(&vec![], None, None, None), Vec::<u64>::new());
    assert_eq!(page_keys(&vec![], Some(3), Some(5), Some(2)), Vec::<u64>::new());
}

#[test]
fn zero_limit_gives_empty_page() {
    assert_eq!(page_keys(&keys(5), None, Some(0), None), Vec::<u64>::new());
}

#[test]
fn select_page_takes_settled_arguments() {
    assert_eq!(select_page(&keys(10), Some(2), 3, Order::Ascending), vec![3, 4, 5]);
    assert_eq!(select_page(&keys(10), Some(2), 3, Order::Descending), vec![10, 9, 8]);
    assert_eq!(select_page(&keys(10), None, 100, Order::Ascending), keys(10));
}

#[test]
fn ascending_pages_of_different_sizes_continue() {
    let all = keys(10);
    let first = page_keys(&all, Some(1), Some(2), Some(1));
    assert_eq!(first, vec![2, 3]);
    let next = page_keys(&all, Some(*first.last().unwrap()), Some(5), Some(1));
    assert_eq!(next, vec![4, 5, 6, 7, 8]);
}
