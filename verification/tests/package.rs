use package_sorter::measurements::cm::Cm;
use package_sorter::measurements::kg::Kg;
use package_sorter::package::dimensions::{DimensionClass, PackageDimensions};
use package_sorter::package::mass::{Mass, MassClass};
use package_sorter::package::Package;
use package_sorter::sort_result::SortResult;

fn cm(value: usize) -> Cm {
    Cm::new(value).unwrap()
}

fn mass(value: usize) -> Mass {
    Mass::new(Kg::new(value).unwrap())
}

#[test]
fn the_sum_of_dimensions_is_the_sum_of_the_values() {
    let dimensions = PackageDimensions::new(cm(1), cm(2), cm(3));
    assert_eq!(dimensions.sum(), cm(6));
}

#[test]
fn dimension_classification_boundary_is_inclusive() {
    assert_eq!(
        PackageDimensions::new(cm(49), cm(50), cm(50)).classify(),
        DimensionClass::STANDARD
    );
    assert_eq!(
        PackageDimensions::new(cm(50), cm(50), cm(50)).classify(),
        DimensionClass::BULKY
    );
}

#[test]
fn dimension_sum_saturates_instead_of_overflowing() {
    let dimensions = PackageDimensions::new(cm(usize::MAX), cm(usize::MAX), cm(usize::MAX));
    assert_eq!(dimensions.sum(), cm(usize::MAX));
    assert_eq!(dimensions.classify(), DimensionClass::BULKY);
}

#[test]
fn mass_classification_boundary_is_inclusive() {
    assert_eq!(mass(19).classify(), MassClass::STANDARD);
    assert_eq!(mass(20).classify(), MassClass::HEAVY);
}

#[test]
fn bulky_and_heavy_packages_sort_as_rejected() {
    let p = Package::new(PackageDimensions::new(cm(50), cm(50), cm(50)), mass(20));
    assert_eq!(p.sort(), SortResult::Rejected);
}

#[test]
fn bulky_but_light_packages_sort_as_special() {
    let p = Package::new(PackageDimensions::new(cm(50), cm(50), cm(50)), mass(19));
    assert_eq!(p.sort(), SortResult::Special);
}

#[test]
fn heavy_but_small_packages_sort_as_special() {
    let p = Package::new(PackageDimensions::new(cm(1), cm(1), cm(1)), mass(20));
    assert_eq!(p.sort(), SortResult::Special);
}

#[test]
fn small_and_light_packages_sort_as_standard() {
    let p = Package::new(PackageDimensions::new(cm(1), cm(1), cm(1)), mass(19));
    assert_eq!(p.sort(), SortResult::Standard);
}

#[test]
fn sorting_the_same_package_twice_gives_the_same_result() {
    let p = Package::new(PackageDimensions::new(cm(49), cm(50), cm(51)), mass(20));
    assert_eq!(p.sort(), p.sort());
}
