use sgx_heap::layout::{align_up, is_power_of_two, Layout};

#[test]
fn powers_of_two() {
    for shift in 0..usize::BITS {
        assert!(is_power_of_two(1usize << shift));
    }
    for x in [0usize, 3, 5, 6, 7, 9, 10, 12, 24, 100, 4095, 4097, usize::MAX, usize::MAX - 1] {
        assert!(!is_power_of_two(x));
    }
}

#[test]
fn layout_is_valid_when_its_alignment_is_a_power_of_two() {
    assert!(Layout::new(0, 1).is_valid());
    assert!(Layout::new(usize::MAX, 4096).is_valid());
    assert!(!Layout::new(16, 0).is_valid());
    assert!(!Layout::new(16, 48).is_valid());
    let layout = Layout::new(100, 16);
    assert_eq!(layout.size(), 100);
    assert_eq!(layout.align(), 16);
}

#[test]
fn align_up_gives_the_next_multiple() {
    assert_eq!(align_up(0, 8), Some(0));
    assert_eq!(align_up(1, 8), Some(8));
    assert_eq!(align_up(8, 8), Some(8));
    assert_eq!(align_up(9, 8), Some(16));
    assert_eq!(align_up(164, 16), Some(176));
    assert_eq!(align_up(4097, 4096), Some(8192));
    assert_eq!(align_up(12345, 1), Some(12345));
}

#[test]
fn align_up_at_the_end_of_the_address_space() {
    assert_eq!(align_up(usize::MAX, 1), Some(usize::MAX));
    assert_eq!(align_up(usize::MAX, 2), None);
    assert_eq!(align_up(usize::MAX - 7, 8), Some(usize::MAX - 7));
    assert_eq!(align_up(usize::MAX - 6, 8), None);
    assert_eq!(align_up(1, 1 << (usize::BITS - 1)), Some(1 << (usize::BITS - 1)));
    assert_eq!(align_up((1 << (usize::BITS - 1)) + 1, 1 << (usize::BITS - 1)), None);
}
