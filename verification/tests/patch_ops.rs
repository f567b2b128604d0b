use conflux_residency::residency_core::graph::{next_power_of_two, type_compatible};
use conflux_residency::residency_core::ElementType;

#[test]
fn pow2_rounding() {
    assert_eq!(next_power_of_two(0), Some(1));
    assert_eq!(next_power_of_two(1), Some(1));
    assert_eq!(next_power_of_two(2), Some(2));
    assert_eq!(next_power_of_two(3), Some(4));
    assert_eq!(next_power_of_two(8), Some(8));
    assert_eq!(next_power_of_two(9), Some(16));
    assert_eq!(next_power_of_two(1024), Some(1024));
    assert_eq!(next_power_of_two(1025), Some(2048));
    assert_eq!(next_power_of_two(u64::MAX), None);
}

#[test]
fn type_compat_matrix() {
    assert!(type_compatible(ElementType::F32, ElementType::F32));
    assert!(!type_compatible(ElementType::F32, ElementType::U32));
    assert!(type_compatible(ElementType::F32, ElementType::Bytes));
    assert!(type_compatible(ElementType::Bytes, ElementType::F32));
}

#[test]
fn pow2_rounding_at_the_top_of_the_range() {
    assert_eq!(next_power_of_two(1 << 63), Some(1 << 63));
    assert_eq!(next_power_of_two((1 << 63) + 1), None);
    assert_eq!(next_power_of_two((1 << 62) + 1), Some(1 << 63));
}
