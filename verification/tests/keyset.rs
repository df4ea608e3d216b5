use cursor_pagination::cursor_connection::Direction;
use cursor_pagination::keyset::{probe_boundaries, select_page};

fn dataset() -> Vec<i64> {
    vec![1, 2, 3, 4, 5]
}

#[test]
fn forward_first_page_without_boundary() {
    let keys = dataset();
    let page = select_page(&keys, &Direction::Forward, 2, None);
    assert_eq!(page, vec![1, 2]);

    let (has_previous_page, has_next_page) = probe_boundaries(&keys, 1, 2);
    assert_eq!(has_previous_page, false);
    assert_eq!(has_next_page, true);
}

#[test]
fn forward_page_after_boundary() {
    let keys = dataset();
    let page = select_page(&keys, &Direction::Forward, 2, Some(2));
    assert_eq!(page, vec![3, 4]);

    let (has_previous_page, has_next_page) = probe_boundaries(&keys, 3, 4);
    assert_eq!(has_previous_page, true);
    assert_eq!(has_next_page, true);
}

#[test]
fn forward_short_last_page() {
    let keys = dataset();
    let page = select_page(&keys, &Direction::Forward, 2, Some(4));
    assert_eq!(page, vec![5]);

    let (has_previous_page, has_next_page) = probe_boundaries(&keys, 5, 5);
    assert_eq!(has_previous_page, true);
    assert_eq!(has_next_page, false);
}

#[test]
fn backward_last_page_without_boundary() {
    let keys = dataset();
    let page = select_page(&keys, &Direction::Backward, 2, None);
    assert_eq!(page, vec![4, 5]);

    let (has_previous_page, has_next_page) = probe_boundaries(&keys, 4, 5);
    assert_eq!(has_previous_page, true);
    assert_eq!(has_next_page, false);
}

#[test]
fn backward_page_before_boundary() {
    let keys = dataset();
    let page = select_page(&keys, &Direction::Backward, 2, Some(4));
    assert_eq!(page, vec![2, 3]);

    let (has_previous_page, has_next_page) = probe_boundaries(&keys, 2, 3);
    assert_eq!(has_previous_page, true);
    assert_eq!(has_next_page, true);
}

#[test]
fn empty_page_when_boundary_is_at_the_end() {
    let keys = dataset();
    let page = select_page(&keys, &Direction::Forward, 2, Some(5));
    assert_eq!(page, Vec::<i64>::new());
}

#[test]
fn limit_larger_than_the_dataset_returns_everything() {
    let keys = dataset();
    let page = select_page(&keys, &Direction::Forward, 100, None);
    assert_eq!(page, vec![1, 2, 3, 4, 5]);
    let page = select_page(&keys, &Direction::Backward, 100, None);
    assert_eq!(page, vec![1, 2, 3, 4, 5]);
}
