use package_sorter::simple::classification::Classification;
use package_sorter::simple::dimension_class::DimensionClass;
use package_sorter::simple::mass_class::MassClass;
use package_sorter::simple::{sort, validate_input};

#[test]
fn test_standard_classification() {
    assert_eq!(sort(1, 1, 1, 1), "standard");
}

#[test]
fn test_bulky_classification() {
    assert_eq!(sort(148, 1, 1, 1), "special");
}

#[test]
fn test_heavy_classification() {
    assert_eq!(sort(1, 1, 1, 20), "special");
}

#[test]
fn test_bulky_and_heavy_classification() {
    assert_eq!(sort(148, 1, 1, 20), "rejected");
}

#[test]
fn sorting_with_invalid_width_returns_empty_classification() {
    assert_eq!(sort(0, 1, 1, 1), "");
}

#[test]
fn sorting_with_invalid_height_returns_empty_classification() {
    assert_eq!(sort(1, 0, 1, 1), "");
}

#[test]
fn sorting_with_invalid_length_returns_empty_classification() {
    assert_eq!(sort(1, 1, 0, 1), "");
}

#[test]
fn sorting_with_invalid_mass_returns_empty_classification() {
    assert_eq!(sort(1, 1, 1, 0), "");
}

#[test]
fn validate_input_accepts_only_positive_values() {
    assert!(validate_input(1, 1, 1, 1));
    assert!(!validate_input(0, 1, 1, 1));
    assert!(!validate_input(1, 0, 1, 1));
    assert!(!validate_input(1, 1, 0, 1));
    assert!(!validate_input(1, 1, 1, 0));
}

#[test]
fn dimension_class_boundary_is_inclusive() {
    assert_eq!(DimensionClass::from(50, 50, 49), DimensionClass::STANDARD);
    assert_eq!(DimensionClass::from(50, 50, 50), DimensionClass::BULKY);
    assert_eq!(DimensionClass::from(50, 50, 51), DimensionClass::BULKY);
}

#[test]
fn dimension_class_sum_saturates() {
    assert_eq!(
        DimensionClass::from(usize::MAX, usize::MAX, usize::MAX),
        DimensionClass::BULKY
    );
}

#[test]
fn mass_class_boundary_is_inclusive() {
    assert_eq!(MassClass::from(19), MassClass::STANDARD);
    assert_eq!(MassClass::from(20), MassClass::HEAVY);
    assert_eq!(MassClass::from(21), MassClass::HEAVY);
}

#[test]
fn classification_renders_lowercase() {
    assert_eq!(Classification::STANDARD.to_string(), "standard");
    assert_eq!(Classification::SPECIAL.to_string(), "special");
    assert_eq!(Classification::REJECTED.to_string(), "rejected");
}
