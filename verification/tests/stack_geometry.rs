use contain::failure::Failure;
use contain::linux::Request;
use contain::stack::{Region, Stack};

const BASE: usize = 0x7f00_0000_0000;

#[test]
fn region_of_512_pages_of_4096_bytes() {
    assert_eq!(Stack::mapping_len(512, 4096), Ok(2_105_344));
    let stack = Stack::new(512, 4096, BASE).unwrap();
    assert_eq!(stack.len(), 2_105_344);
    assert_eq!(stack.top(), BASE + 4096 + 2_097_152);
    assert_eq!(stack.top() - stack.base(), 2_101_248);
    assert_eq!(stack.base(), BASE);
    assert_eq!(stack.pages(), 512);
    assert_eq!(stack.page_size(), 4096);
}

#[test]
fn length_is_pages_plus_two_guards() {
    for &(pages, page_size) in &[(0usize, 2usize), (1, 4096), (3, 16384), (512, 4096), (7, 65536), (1000, 3)] {
        assert_eq!(Stack::mapping_len(pages, page_size), Ok(pages * page_size + 2 * page_size));
    }
}

#[test]
fn top_is_page_aligned_and_above_interior() {
    for &(pages, page_size) in &[(0usize, 4096usize), (1, 4096), (3, 16384), (512, 4096), (9, 65536)] {
        let base = 40 * page_size;
        let stack = Stack::new(pages, page_size, base).unwrap();
        assert_eq!(stack.top(), base + page_size + pages * page_size);
        assert_eq!(stack.top() % page_size, 0);
        assert_eq!(stack.len(), pages * page_size + 2 * page_size);
    }
}

#[test]
fn guards_are_first_and_last_page() {
    let stack = Stack::new(4, 4096, 0x10000).unwrap();
    assert_eq!(stack.low_guard(), Region { addr: 0x10000, len: 4096 });
    assert_eq!(stack.interior(), Region { addr: 0x11000, len: 4 * 4096 });
    assert_eq!(stack.high_guard(), Region { addr: 0x15000, len: 4096 });
    assert_eq!(stack.whole(), Region { addr: 0x10000, len: 6 * 4096 });
    let low = stack.low_guard();
    let mid = stack.interior();
    let high = stack.high_guard();
    assert_eq!(low.addr + low.len, mid.addr);
    assert_eq!(mid.addr + mid.len, high.addr);
    assert_eq!(high.addr, stack.top());
    assert_eq!(high.addr + high.len, stack.base() + stack.len());
}

#[test]
fn stack_without_interior_is_two_guards() {
    let stack = Stack::new(0, 4096, 0x2000).unwrap();
    assert_eq!(stack.len(), 8192);
    assert_eq!(stack.top(), 0x3000);
    assert_eq!(stack.interior(), Region { addr: 0x3000, len: 0 });
}

#[test]
fn page_size_must_exceed_one() {
    assert_eq!(Stack::mapping_len(512, 0), Err(Failure::AllocationFailure));
    assert_eq!(Stack::mapping_len(512, 1), Err(Failure::AllocationFailure));
    assert_eq!(Stack::mapping_len(512, 2), Ok(1028));
    assert_eq!(Stack::new(512, 1, 0x1000).unwrap_err(), Failure::AllocationFailure);
    assert_eq!(Stack::new(512, 0, 0x1000).unwrap_err(), Failure::AllocationFailure);
}

#[test]
fn length_must_fit_the_address_space() {
    assert_eq!(Stack::mapping_len(usize::MAX, 4096), Err(Failure::AllocationFailure));
    assert_eq!(Stack::mapping_len(usize::MAX / 4096, 4096), Err(Failure::AllocationFailure));
    assert_eq!(Stack::mapping_len(1, usize::MAX / 2), Err(Failure::AllocationFailure));
    assert_eq!(
        Stack::mapping_len(usize::MAX / 4096 - 2, 4096),
        Ok((usize::MAX / 4096 - 2) * 4096 + 8192)
    );
}

#[test]
fn failed_mapping_is_rejected() {
    assert_eq!(Stack::new(512, 4096, usize::MAX).unwrap_err(), Failure::AllocationFailure);
    assert_eq!(Stack::new(512, 3, usize::MAX).unwrap_err(), Failure::AllocationFailure);
}

#[test]
fn unaligned_base_is_rejected() {
    assert_eq!(Stack::new(512, 4096, BASE + 1).unwrap_err(), Failure::AllocationFailure);
    assert_eq!(Stack::new(512, 4096, BASE + 2048).unwrap_err(), Failure::AllocationFailure);
    assert!(Stack::new(512, 4096, BASE + 4096).is_ok());
}

#[test]
fn region_must_end_within_the_address_space() {
    let last_page = usize::MAX - 4095;
    assert_eq!(Stack::new(1, 4096, last_page).unwrap_err(), Failure::AllocationFailure);
    assert_eq!(Stack::new(0, 4096, last_page - 4096).unwrap_err(), Failure::AllocationFailure);
    let fits = Stack::new(0, 4096, last_page - 2 * 4096).unwrap();
    assert_eq!(fits.base() + fits.len(), last_page);
}

#[test]
fn null_base_is_a_page_boundary() {
    let stack = Stack::new(2, 4096, 0).unwrap();
    assert_eq!(stack.top(), 3 * 4096);
}

#[test]
fn mapping_is_private_anonymous_stack_read_write() {
    let request = Stack::map_request(2_105_344);
    assert_eq!(request, Request::MapRegion { len: 2_105_344, prot: 3, flags: 0x2_0122 });
    assert_eq!(
        request,
        Request::MapRegion {
            len: 2_105_344,
            prot: libc::PROT_READ | libc::PROT_WRITE,
            flags: libc::MAP_PRIVATE | libc::MAP_ANONYMOUS | libc::MAP_GROWSDOWN | libc::MAP_STACK,
        }
    );
}

#[test]
fn guards_lose_all_access() {
    let stack = Stack::new(512, 4096, BASE).unwrap();
    assert_eq!(
        stack.protect_low_request(),
        Request::ProtectRegion { addr: BASE, len: 4096, prot: libc::PROT_NONE }
    );
    assert_eq!(
        stack.protect_high_request(),
        Request::ProtectRegion { addr: BASE + 4096 + 2_097_152, len: 4096, prot: 0 }
    );
}

#[test]
fn release_unmaps_the_whole_region_in_one_call() {
    let stack = Stack::new(512, 4096, BASE).unwrap();
    assert_eq!(stack.unmap_request(), Request::UnmapRegion { addr: BASE, len: 2_105_344 });
}
