use auth_gateway::model::Params;
use auth_gateway::pagination::normalize_page_number;
use auth_gateway::pagination::normalize_page_size;
use auth_gateway::pagination::plan_page;
use auth_gateway::pagination::total_pages_for;
use auth_gateway::pagination::MAX_PAGE_SIZE;

fn params(page: Option<u32>, size: Option<u32>) -> Params {
    Params { page, size, sorting_dir: None, sorting_field: None }
}

#[test]
fn page_size_zero_normalizes_to_ceiling() {
    assert_eq!(normalize_page_size(Some(0)), 20);
}

#[test]
fn page_size_above_ceiling_normalizes_to_ceiling() {
    assert_eq!(normalize_page_size(Some(21)), 20);
}

#[test]
fn page_size_at_ceiling_stays() {
    assert_eq!(normalize_page_size(Some(20)), 20);
}

#[test]
fn page_size_in_range_stays() {
    assert_eq!(normalize_page_size(Some(5)), 5);
}

#[test]
fn page_size_absent_defaults_to_ceiling() {
    assert_eq!(normalize_page_size(None), MAX_PAGE_SIZE);
}

#[test]
fn forty_five_rows_make_three_pages_of_twenty() {
    assert_eq!(total_pages_for(45, 20), 3);
}

#[test]
fn page_zero_becomes_page_one() {
    assert_eq!(normalize_page_number(Some(0), 3), 1);
}

#[test]
fn page_past_the_end_clamps_to_last() {
    assert_eq!(normalize_page_number(Some(10), 3), 3);
}

#[test]
fn second_page_of_twenty_starts_at_offset_twenty() {
    let plan = plan_page(&params(Some(2), Some(20)), 45);
    assert_eq!(plan.total_pages, 3);
    assert_eq!(plan.current_page, 2);
    assert_eq!(plan.offset, 20);
    assert_eq!(plan.page_size, 20);
}

#[test]
fn zero_rows_make_zero_pages_without_underflow() {
    let plan = plan_page(&params(Some(1), Some(20)), 0);
    assert_eq!(plan.total_pages, 0);
    assert_eq!(plan.current_page, 0);
    assert_eq!(plan.offset, 0);
}

#[test]
fn zero_page_request_on_empty_listing_stays_in_range() {
    let plan = plan_page(&params(Some(0), None), 0);
    assert_eq!(plan.total_pages, 0);
    assert_eq!(plan.current_page, 0);
    assert_eq!(plan.offset, 0);
}

#[test]
fn defaults_give_first_page_of_twenty() {
    let plan = plan_page(&params(None, None), 45);
    assert_eq!(plan.page_size, 20);
    assert_eq!(plan.current_page, 1);
    assert_eq!(plan.offset, 0);
    assert_eq!(plan.total_pages, 3);
}

#[test]
fn exact_multiple_has_no_ragged_page() {
    assert_eq!(total_pages_for(40, 20), 2);
    assert_eq!(total_pages_for(41, 20), 3);
    assert_eq!(total_pages_for(1, 20), 1);
}
