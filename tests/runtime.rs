use nexus_rt::entry::start_rust;
use nexus_rt::fault::{fault_message, FaultHandler, FaultPlan, FaultState};
use nexus_rt::heap::{Heap, HostMemory};
use nexus_rt::stack::{get_stack_size, settle_stack_size, UNCONFIGURED_STACK_SIZE};

#[test]
fn two_requests_are_aligned_and_apart() {
    let mut heap = Heap::new(3, 4096);
    let first = heap.allocate(16, 8).unwrap();
    let second = heap.allocate(4, 4).unwrap();
    assert_eq!(first % 8, 0);
    assert!(second >= first + 16);
    assert_eq!(second % 4, 0);
    assert_eq!(first, 8);
    assert_eq!(second, 24);
}

#[test]
fn aligned_start_is_not_moved() {
    let mut heap = Heap::new(64, 4096);
    assert_eq!(heap.allocate(10, 16), Some(64));
    assert_eq!(heap.allocate(1, 1), Some(74));
    assert_eq!(heap.allocate(8, 32), Some(96));
}

#[test]
fn many_requests_never_overlap() {
    let mut heap = Heap::new(1, 1 << 20);
    let mut regions: Vec<(usize, usize)> = Vec::new();
    let aligns = [1usize, 2, 4, 8, 16, 64, 4096];
    for k in 0..40usize {
        let align = aligns[k % aligns.len()];
        let size = (k * 7) % 33;
        let base = heap.allocate(size, align).unwrap();
        assert_eq!(base % align, 0);
        for &(b, s) in &regions {
            assert!(b + s <= base);
        }
        regions.push((base, size));
    }
}

#[test]
fn exhaustion_is_refused_and_changes_nothing() {
    let mut heap = Heap::new(8, 40);
    assert_eq!(heap.allocate(20, 4), Some(8));
    assert_eq!(heap.allocate(16, 4), None);
    assert_eq!(heap.allocate(12, 4), Some(28));
    assert_eq!(heap.allocate(1, 1), None);
}

#[test]
fn padding_that_passes_the_end_is_refused() {
    let mut heap = Heap::new(1, 8);
    assert_eq!(heap.allocate(0, 16), None);
    assert_eq!(heap.allocate(0, 8), Some(8));
}

#[test]
fn zero_sized_requests_succeed() {
    let mut heap = Heap::new(5, 5);
    assert_eq!(heap.allocate(0, 1), Some(5));
}

#[test]
fn near_the_top_of_the_address_space() {
    let mut heap = Heap::new(usize::MAX - 10, usize::MAX);
    assert_eq!(heap.allocate(4, 1 << 40), None);
    assert_eq!(heap.allocate(4, 2), Some(usize::MAX - 9));
    assert_eq!(heap.allocate(6, 1), None);
    assert_eq!(heap.allocate(5, 1), Some(usize::MAX - 5));
    assert_eq!(heap.allocate(0, 1), Some(usize::MAX));
}

#[test]
fn release_has_no_effect_on_later_requests() {
    let mut with_release = Heap::new(16, 1040);
    let mut without = Heap::new(16, 1040);
    let a = with_release.allocate(16, 8).unwrap();
    without.allocate(16, 8).unwrap();
    with_release.release(a, 16, 8);
    with_release.release(12345, 3, 1);
    let b = with_release.allocate(16, 8).unwrap();
    assert_eq!(b, without.allocate(16, 8).unwrap());
    assert_ne!(a, b);
    assert_eq!(b, 32);
}

#[test]
fn host_memory_carves_upward() {
    let mut host = HostMemory::new(10, 100);
    assert_eq!(host.sys_alloc_aligned(5, 4), Some(12));
    assert_eq!(host.sys_alloc_aligned(5, 4), Some(20));
    assert_eq!(host.sys_alloc_aligned(100, 1), None);
}

#[test]
fn addresses_are_never_null() {
    let mut heap = Heap::new(1, 64);
    let first = heap.allocate(0, 1).unwrap();
    let second = heap.allocate(8, 8).unwrap();
    assert!(first > 0);
    assert_eq!(second, 8);
}

#[test]
fn configured_stack_size_is_reported_as_is() {
    assert_eq!(get_stack_size(Some(0)), 0);
    assert_eq!(get_stack_size(Some(65536)), 65536);
    assert_eq!(get_stack_size(Some(i32::MAX as u32)), i32::MAX);
}

#[test]
fn unconfigured_stack_size_falls_back_to_host_default() {
    let reported = get_stack_size(None);
    assert_eq!(reported, UNCONFIGURED_STACK_SIZE);
    assert!(reported < 0);
    assert_eq!(settle_stack_size(reported, 0x8000), 0x8000);
}

#[test]
fn configured_stack_size_is_kept_by_boot_code() {
    assert_eq!(settle_stack_size(get_stack_size(Some(4096)), 0x8000), 4096);
    assert_eq!(settle_stack_size(get_stack_size(Some(0)), 0x8000), 0);
}

fn program(a0: u32, a1: u32, a2: u32) -> u32 {
    a0.wrapping_mul(31).wrapping_add(a1 ^ a2)
}

#[test]
fn trampoline_returns_what_main_returns() {
    for &(a0, a1, a2) in &[(0u32, 0u32, 0u32), (1, 2, 3), (u32::MAX, 7, 9), (5, u32::MAX, 0)] {
        assert_eq!(start_rust(program, a0, a1, a2), program(a0, a1, a2));
    }
}

#[test]
fn trampoline_forwards_arguments_in_order() {
    let seen = start_rust(|a0: u32, a1: u32, a2: u32| a0 * 100 + a1 * 10 + a2, 1, 2, 3);
    assert_eq!(seen, 123);
    assert_eq!(start_rust(|_: u32, _: u32, _: u32| u32::MAX, 0, 0, 0), u32::MAX);
}

#[test]
fn first_fault_logs_once_then_aborts() {
    let mut handler = FaultHandler::new();
    assert_eq!(handler.state(), FaultState::Running);
    let plan = handler.panic();
    assert_eq!(plan, FaultPlan::LogThenAbort);
    assert_eq!(handler.state(), FaultState::Halted);
}

#[test]
fn halted_process_never_logs_again() {
    let mut handler = FaultHandler::new();
    handler.panic();
    let plan = handler.panic();
    assert_eq!(plan, FaultPlan::AbortOnly);
    assert_eq!(handler.state(), FaultState::Halted);
}

#[test]
fn fault_message_is_fixed() {
    assert_eq!(fault_message(), "PANIC\n");
}
