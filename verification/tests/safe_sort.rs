use package_sorter::sort_error::SortError;
use package_sorter::sort_result::SortResult;
use package_sorter::{safe_sort, safe_sort_2, sort};

#[test]
fn standard_package_is_standard() {
    assert_eq!(safe_sort(1, 1, 1, 1), Ok(SortResult::Standard));
}

#[test]
fn bulky_dimensions_make_a_package_special() {
    // sum = 150, exactly on the inclusive boundary
    assert_eq!(safe_sort(148, 1, 1, 1), Ok(SortResult::Special));
}

#[test]
fn heavy_mass_makes_a_package_special() {
    assert_eq!(safe_sort(1, 1, 1, 20), Ok(SortResult::Special));
}

#[test]
fn bulky_and_heavy_packages_are_rejected() {
    assert_eq!(safe_sort(148, 1, 1, 20), Ok(SortResult::Rejected));
}

#[test]
fn dimension_boundary_is_inclusive_at_150() {
    // sum = 151: bulky beyond the boundary too
    assert_eq!(safe_sort(149, 1, 1, 1), Ok(SortResult::Special));
    // sum = 149: just below the boundary
    assert_eq!(safe_sort(147, 1, 1, 1), Ok(SortResult::Standard));
}

#[test]
fn mass_boundary_is_inclusive_at_20() {
    assert_eq!(safe_sort(1, 1, 1, 19), Ok(SortResult::Standard));
    assert_eq!(safe_sort(1, 1, 1, 20), Ok(SortResult::Special));
}

#[test]
fn invalid_width_is_reported_with_its_value() {
    assert_eq!(safe_sort(0, 5, 5, 5), Err(SortError::InvalidWidth(0)));
}

#[test]
fn invalid_height_is_reported_with_its_value() {
    assert_eq!(safe_sort(5, 0, 5, 5), Err(SortError::InvalidHeight(0)));
}

#[test]
fn invalid_length_is_reported_with_its_value() {
    assert_eq!(safe_sort(5, 5, 0, 5), Err(SortError::InvalidLength(0)));
}

#[test]
fn invalid_mass_is_reported_with_its_value() {
    assert_eq!(safe_sort(5, 5, 5, 0), Err(SortError::InvalidMass(0)));
}

#[test]
fn the_first_invalid_field_wins() {
    // every field is invalid; width is validated first
    assert_eq!(safe_sort(0, 0, 0, 0), Err(SortError::InvalidWidth(0)));
}

#[test]
fn safe_sort_2_renders_the_outcome() {
    assert_eq!(safe_sort_2(1, 1, 1, 1), "standard");
    assert_eq!(safe_sort_2(148, 1, 1, 1), "special");
    assert_eq!(safe_sort_2(148, 1, 1, 20), "rejected");
}

#[test]
fn safe_sort_2_collapses_errors_to_one_string() {
    assert_eq!(safe_sort_2(0, 1, 1, 1), "error");
    assert_eq!(safe_sort_2(1, 1, 1, 0), "error");
}

#[test]
fn sort_renders_valid_inputs() {
    assert_eq!(sort(1, 1, 1, 1), "standard");
    assert_eq!(sort(149, 1, 1, 1), "special");
    assert_eq!(sort(148, 1, 1, 20), "rejected");
}
