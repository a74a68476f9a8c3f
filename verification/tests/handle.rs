use hyper_rhi::handle::{Handle32, Handle64, ResourceHandle, WideHandle};

#[test]
fn new_handle_unpacks_to_its_halves() {
    let handle = ResourceHandle::new(0x1234, 0xABCD);
    assert_eq!(handle.value(), 0xABCD_1234);
    assert_eq!(handle.handle(), 0x1234);
    assert_eq!(handle.version(), 0xABCD);
}

#[test]
fn halves_round_trip_at_the_limits() {
    for &(slot, version) in &[(0u16, 0u16), (0xFFFF, 0), (0, 0xFFFF), (0xFFFF, 0xFFFF), (1, 2)] {
        let handle = ResourceHandle::new(slot, version);
        assert_eq!(handle.handle(), slot);
        assert_eq!(handle.version(), version);
        assert_eq!(ResourceHandle::from_raw(handle.value()), handle);
    }
}

#[test]
fn increase_version_keeps_the_slot() {
    let mut handle = ResourceHandle::new(7, 41);
    handle.increase_version();
    assert_eq!(handle.handle(), 7);
    assert_eq!(handle.version(), 42);
}

#[test]
fn increase_version_wraps_to_zero() {
    let mut handle = ResourceHandle::new(9, 0xFFFF);
    handle.increase_version();
    assert_eq!(handle.handle(), 9);
    assert_eq!(handle.version(), 0);
    assert_eq!(handle.value(), 9);
}

#[test]
fn swap_handle_exchanges_the_slot_half_only() {
    let mut handle = ResourceHandle::new(3, 0x0F0F);
    let mut other: u16 = 0xBEEF;
    handle.swap_handle(&mut other);
    assert_eq!(other, 3);
    assert_eq!(handle.handle(), 0xBEEF);
    assert_eq!(handle.version(), 0x0F0F);
}

#[test]
fn value_mut_writes_the_word() {
    let mut handle = ResourceHandle::new(1, 1);
    *handle.value_mut() = 0x0002_0003;
    assert_eq!(handle.handle(), 3);
    assert_eq!(handle.version(), 2);
}

#[test]
fn is_valid_compares_versions() {
    let handle = ResourceHandle::new(5, 10);
    assert!(handle.is_valid(10));
    assert!(!handle.is_valid(11));
}

#[test]
fn wide_handle_unpacks_to_its_halves() {
    let handle = WideHandle::new(0x1234_5678, 0x9ABC_DEF0);
    assert_eq!(handle.value(), 0x9ABC_DEF0_1234_5678);
    assert_eq!(handle.handle(), 0x1234_5678);
    assert_eq!(handle.version(), 0x9ABC_DEF0);
}

#[test]
fn wide_handle_version_wraps_and_swaps() {
    let mut handle = WideHandle::new(4, 0xFFFF_FFFF);
    handle.increase_version();
    assert_eq!(handle.version(), 0);
    assert_eq!(handle.handle(), 4);
    let mut other: u32 = 0xFFFF_FFFF;
    handle.swap_handle(&mut other);
    assert_eq!(other, 4);
    assert_eq!(handle.handle(), 0xFFFF_FFFF);
    assert_eq!(handle.version(), 0);
    assert!(handle.is_valid(0));
    assert_eq!(WideHandle::from_raw(0xFFFF_FFFF), handle);
}
