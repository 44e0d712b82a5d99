use sgx_heap::sys::sgx::{image_base, Enclave};
use sgx_heap::sys::unix::{Heap, HEAP_SIZE, PAGE_SIZE};
use sgx_heap::sys::{heap_base_ptr, heap_end_ptr, heap_size, Locator, Region};

#[test]
fn region_needs_a_base_and_room() {
    assert!(Region::new(0, 16).is_none());
    assert!(Region::new(usize::MAX, 1).is_none());
    assert!(Region::new(2, usize::MAX - 1).is_none());
    let whole = Region::new(1, usize::MAX - 1).unwrap();
    assert_eq!(whole.end_address(), usize::MAX);
    let region = Region::new(0x1000, 4096).unwrap();
    assert_eq!(region.base_address(), 0x1000);
    assert_eq!(region.size(), 4096);
    assert_eq!(region.end_address(), 0x2000);
    assert_eq!(Region::new(7, 0).unwrap().end_address(), 7);
}

#[test]
fn enclave_heap_lies_at_its_offset_in_the_image() {
    let enclave = Enclave::new(0x7000_0000, 0x2_0000, 0x10_0000);
    let locator = Locator::Sgx(enclave);
    assert_eq!(enclave.rel_ptr_mut(0x10), 0x7000_0010);
    assert_eq!(heap_base_ptr(&locator), 0x7002_0000);
    assert_eq!(heap_size(&locator), 0x10_0000);
    assert_eq!(heap_end_ptr(&locator), 0x7012_0000);
    let region = locator.region().unwrap();
    assert_eq!(region.base_address(), 0x7002_0000);
    assert_eq!(region.size(), 0x10_0000);
}

#[test]
fn offsets_wrap_at_the_end_of_the_address_space() {
    let enclave = Enclave::new(usize::MAX - 1, 5, 64);
    assert_eq!(enclave.rel_ptr_mut(1), usize::MAX);
    assert_eq!(enclave.rel_ptr_mut(2), 0);
    let locator = Locator::Sgx(enclave);
    assert_eq!(heap_base_ptr(&locator), 3);
    assert_eq!(heap_end_ptr(&locator), 67);
    let high = Locator::Sgx(Enclave::new(usize::MAX - 15, 0, 32));
    assert_eq!(heap_end_ptr(&high), 16);
    assert!(high.region().is_none());
}

#[test]
fn outside_an_enclave_offsets_are_addresses() {
    assert_eq!(image_base(), 0);
    let enclave = Enclave::new(image_base(), 0x4000, 0x1000);
    assert_eq!(heap_base_ptr(&Locator::Sgx(enclave)), 0x4000);
    assert!(Locator::Sgx(Enclave::new(image_base(), 0, 0x1000)).region().is_none());
}

#[test]
fn buffer_starts_on_a_page_and_ends_in_the_address_space() {
    assert_eq!(HEAP_SIZE, 4 * 1024 * 1024);
    assert_eq!(PAGE_SIZE, 4096);
    assert!(Heap::<HEAP_SIZE>::new(0).is_none());
    assert!(Heap::<HEAP_SIZE>::new(0x5000 + 1).is_none());
    assert!(Heap::<HEAP_SIZE>::new(usize::MAX - 4095).is_none());
    let heap = Heap::<HEAP_SIZE>::new(0x5000).unwrap();
    assert_eq!(heap.base_ptr(), 0x5000);
    assert_eq!(heap.size(), HEAP_SIZE);
    let small = Heap::<4096>::new(usize::MAX - 4095 - 4096).unwrap();
    assert_eq!(small.size(), 4096);
}

#[test]
fn buffer_locator() {
    let locator = Locator::Unix(Heap::new(0x40_0000).unwrap());
    assert_eq!(heap_base_ptr(&locator), 0x40_0000);
    assert_eq!(heap_size(&locator), HEAP_SIZE);
    assert_eq!(heap_end_ptr(&locator), 0x80_0000);
    let region = locator.region().unwrap();
    assert_eq!(region.base_address(), 0x40_0000);
    assert_eq!(region.end_address(), 0x80_0000);
}

#[test]
fn locator_gives_the_same_answer_every_time() {
    let locators = [
        Locator::Sgx(Enclave::new(0x7000_0000, 0x2_0000, 0x10_0000)),
        Locator::Unix(Heap::new(0x40_0000).unwrap()),
    ];
    for locator in locators {
        let base = locator.base_address();
        let size = locator.size();
        for _ in 0..10 {
            assert_eq!(locator.base_address(), base);
            assert_eq!(locator.size(), size);
            assert_eq!(heap_base_ptr(&locator), base);
            assert_eq!(heap_size(&locator), size);
            assert_eq!(locator.region(), Region::new(base, size));
        }
    }
}
