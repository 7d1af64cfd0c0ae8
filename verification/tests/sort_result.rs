use package_sorter::sort_result::SortResult;

#[test]
fn test_any() {
    assert_eq!(
        SortResult::any(),
        [SortResult::Standard, SortResult::Special, SortResult::Rejected]
    );
}

#[test]
fn sort_result_test_any() {
    assert_eq!(
        SortResult::all(),
        [SortResult::Standard, SortResult::Special, SortResult::Rejected]
    );
}

#[test]
fn display_standard() {
    assert_eq!(SortResult::Standard.to_string(), "standard");
}

#[test]
fn sort_result_display_standard() {
    assert_eq!(SortResult::Standard.to_string(), "standard");
}

#[test]
fn display_special() {
    assert_eq!(SortResult::Special.to_string(), "special");
}

#[test]
fn sort_result_display_special() {
    assert_eq!(SortResult::Special.to_string(), "special");
}

#[test]
fn display_rejected() {
    assert_eq!(SortResult::Rejected.to_string(), "rejected");
}

#[test]
fn sort_result_display_rejected() {
    assert_eq!(SortResult::Rejected.to_string(), "rejected");
}
