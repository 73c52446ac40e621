use lib::kserver::page::{PageAlloc, PageManager, PAGE_SIZE, PPAGE_NUM};
use lib::arch::mem::{MEM_END, MEM_START};
use lib::utils::kerror::KError;

#[test]
fn pages_past_kernel_end_are_free_in_order() {
    // Page index 0x3fffe is the first one wholly past this kernel end.
    let mut pm = PageManager::init(0x3fff_e000).unwrap();
    assert_eq!(pm.alloc_ppage(), Ok(0xbfff_e000));
    assert_eq!(pm.alloc_ppage(), Ok(0xbfff_f000));
    assert_eq!(pm.alloc_ppage(), Err(KError::NotEnoughPage));
    assert_eq!(pm.alloc_ppage(), Err(KError::NotEnoughPage));
}

#[test]
fn kernel_end_is_rounded_up_to_a_page() {
    let mut pm = PageManager::init(0x3fff_d001).unwrap();
    assert_eq!(pm.alloc_ppage(), Ok(0xbfff_e000));
    assert_eq!(pm.alloc_ppage(), Ok(0xbfff_f000));
    assert_eq!(pm.alloc_ppage(), Err(KError::NotEnoughPage));
}

#[test]
fn kernel_end_at_zero_frees_all_of_ram() {
    let mut pm = PageManager::init(0).unwrap();
    assert_eq!(pm.alloc_ppage(), Ok(MEM_START));
    assert_eq!(pm.alloc_ppage(), Ok(MEM_START + PAGE_SIZE));
    let mut count = 2usize;
    let mut last = MEM_START + PAGE_SIZE;
    while let Ok(p) = pm.alloc_ppage() {
        assert_eq!(p, last + PAGE_SIZE);
        last = p;
        count += 1;
    }
    assert_eq!(count, PPAGE_NUM);
    assert_eq!(last, MEM_END - PAGE_SIZE);
}

#[test]
fn kernel_end_as_a_physical_address_leaves_nothing_free() {
    // The index is counted from the start of RAM, so an absolute address past it frees nothing.
    let mut pm = PageManager::init(0x8020_0000).unwrap();
    assert_eq!(pm.alloc_ppage(), Err(KError::NotEnoughPage));
}

#[test]
fn allocated_pages_are_distinct_and_aligned() {
    let mut pm = PageManager::init(0x3ff0_0000).unwrap();
    let mut seen = Vec::new();
    while let Ok(p) = pm.alloc_ppage() {
        assert_eq!(p % PAGE_SIZE, 0);
        assert!(p >= MEM_START && p < MEM_END);
        assert!(!seen.contains(&p));
        seen.push(p);
    }
    assert_eq!(seen.len(), 0x100);
}

#[test]
fn page_alloc_follows_alloc_ppage() {
    let mut a = PageManager::init(0x3fff_d000).unwrap();
    let mut b = PageManager::init(0x3fff_d000).unwrap();
    for _ in 0..4 {
        assert_eq!(a.alloc_page(), b.alloc_ppage());
    }
}
