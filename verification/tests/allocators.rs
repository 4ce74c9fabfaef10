use dx12_core::descriptor::DescriptorHeap;
use dx12_core::upload::GpuMemoryHeap;

#[test]
fn descriptor_heap_hands_out_sequential_ranges() {
    let mut heap = DescriptorHeap::new(7, 0x1000, 0, 16, 32);
    assert_eq!(heap.size, 0);

    let first = heap.allocate_cpu_descriptors(4).expect("4 of 16 fits");
    assert_eq!(first, 0x1000);
    assert_eq!(heap.size, 4);

    let second = heap.allocate_cpu_descriptors(2).expect("6 of 16 fits");
    assert_eq!(second, 0x1000 + 4 * 32);
    assert_eq!(heap.size, 6);
}

#[test]
fn descriptor_heap_never_exceeds_capacity() {
    let mut heap = DescriptorHeap::new(7, 0x1000, 0, 8, 64);
    assert!(heap.allocate_cpu_descriptors(7).is_some());
    assert_eq!(heap.size, 7);

    // more than the remaining capacity must fail, not silently wrap
    assert!(heap.allocate_cpu_descriptors(4).is_none());
    assert_eq!(heap.size, 7);
    assert!(heap.size <= heap.capacity);

    // a request that would exactly reach the capacity is refused as well
    assert!(heap.allocate_cpu_descriptors(1).is_none());
    assert_eq!(heap.size, 7);
}

#[test]
fn shader_visible_heap_returns_cpu_and_gpu_addresses() {
    let mut heap = DescriptorHeap::new(8, 0x2000, 0x9000, 64, 32);
    let (cpu, gpu) = heap.allocate_gpu_descriptors(3).unwrap();
    assert_eq!(cpu, 0x2000);
    assert_eq!(gpu, 0x9000);

    let (cpu2, gpu2) = heap.allocate_gpu_descriptors(1).unwrap();
    assert_eq!(cpu2, 0x2000 + 3 * 32);
    assert_eq!(gpu2, 0x9000 + 3 * 32);
    assert_eq!(heap.size, 4);
}

#[test]
fn descriptor_heap_reset_forgets_consumption() {
    let mut heap = DescriptorHeap::new(8, 0x2000, 0x9000, 64, 32);
    heap.allocate_gpu_descriptors(10).unwrap();
    assert_eq!(heap.size, 10);
    heap.reset();
    assert_eq!(heap.size, 0);
    let (cpu, _) = heap.allocate_gpu_descriptors(1).unwrap();
    assert_eq!(cpu, 0x2000);
}

#[test]
fn upload_allocations_are_aligned_and_disjoint() {
    let mut heap = GpuMemoryHeap::new(3, 0x10000, 4096);

    let (off1, addr1) = heap.allocate(100).expect("fits");
    assert_eq!(off1, 0);
    assert_eq!(addr1, 0x10000);
    assert_eq!(addr1 % 256, 0);

    let (off2, addr2) = heap.allocate(1).expect("fits");
    assert_eq!(addr2 % 256, 0);
    // two consecutive successful allocations never overlap
    assert!(addr1 + 100 <= addr2);
    assert!(off1 + 100 <= off2);
    assert_eq!(off2, 256);
    assert_eq!(addr2, 0x10000 + 256);
}

#[test]
fn upload_request_of_300_consumes_512() {
    // 300 rounds up to the next 256 multiple: 256 * ceil(300 / 256) = 512
    let mut heap = GpuMemoryHeap::new(3, 0x40000, 1024);
    let (off, addr) = heap.allocate(300).expect("fits in an empty 1024-byte heap");
    assert_eq!(off, 0);
    assert_eq!(addr, 0x40000);
    assert_eq!(heap.size, 512);
}

#[test]
fn upload_exhaustion_is_signalled_not_asserted() {
    let mut heap = GpuMemoryHeap::new(3, 0x40000, 1024);
    assert!(heap.allocate(300).is_some());
    assert_eq!(heap.size, 512);

    // another 512 rounded bytes would reach the capacity: refused, unchanged
    assert!(heap.allocate(300).is_none());
    assert_eq!(heap.size, 512);

    // a smaller request still fits
    let (off, _) = heap.allocate(200).expect("768 of 1024 stays under capacity");
    assert_eq!(off, 512);
    assert_eq!(heap.size, 768);
}

#[test]
fn upload_reset_starts_over_from_the_base() {
    let mut heap = GpuMemoryHeap::new(3, 0x40000, 1024);
    heap.allocate(300).unwrap();
    heap.reset();
    assert_eq!(heap.size, 0);
    let (off, addr) = heap.allocate(1).unwrap();
    assert_eq!(off, 0);
    assert_eq!(addr, 0x40000);
}
