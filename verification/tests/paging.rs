use olp_storage::paging::split_page;

#[test]
fn split_page_distinguishes_complete_and_overfetched_results() {
    assert_eq!(split_page(vec![1, 2], 3, |item| *item), (vec![1, 2], None));
    assert_eq!(split_page(vec![1, 2], 2, |item| *item), (vec![1, 2], None));
    assert_eq!(
        split_page(vec![1, 2, 3], 2, |item| *item),
        (vec![1, 2], Some(2))
    );
}

#[test]
fn split_page_never_derives_a_cursor_without_a_visible_item() {
    assert_eq!(split_page(vec![1], 0, |item| *item), (Vec::new(), None));
}
