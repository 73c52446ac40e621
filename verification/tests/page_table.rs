use lib::arch::mem::PhysMem;
use lib::arch::sv39::{Sv39, READ_BIT, VALID_BIT, WRITE_BIT};
use lib::kserver::page::{PageManager, PageSystem};
use lib::utils::kerror::KError;

const ROOT: u64 = 0x9000_0000;
// Index 1 in the first directory, 2 in the second, 3 in the third.
const VADDR: usize = (1 << 12) | (2 << 21) | (3 << 30);

fn entry_for(page: u64, flags: u64) -> u64 {
    ((page >> 12) << 10) | flags
}

fn three_pages() -> PageManager {
    // Pages 0xbfffd000, 0xbfffe000 and 0xbffff000 are free.
    PageManager::init(0x3fff_d000).unwrap()
}

#[test]
fn walk_builds_missing_directories() {
    let mut mem = PhysMem::new();
    let mut pages = three_pages();
    let mut sv = Sv39 {};
    let r = sv.walk_pagedir_alloc(&mut mem, ROOT, VADDR, &mut pages);
    assert_eq!(r, Ok(0xbfff_e018));
    assert_eq!(mem.read(ROOT + 8), entry_for(0xbfff_d000, VALID_BIT));
    assert_eq!(mem.read(0xbfff_d010), entry_for(0xbfff_e000, VALID_BIT));
    assert_eq!(mem.read(0xbfff_e018), entry_for(0xbfff_f000, VALID_BIT));
    assert_eq!(mem.read(0xbfff_e018) & VALID_BIT, VALID_BIT);
    assert_eq!(pages.alloc_ppage(), Err(KError::NotEnoughPage));
}

#[test]
fn walk_again_takes_no_page() {
    let mut mem = PhysMem::new();
    let mut pages = three_pages();
    let mut sv = Sv39 {};
    let first = sv.walk_pagedir_alloc(&mut mem, ROOT, VADDR, &mut pages);
    let mut more = three_pages();
    let second = sv.walk_pagedir_alloc(&mut mem, ROOT, VADDR, &mut more);
    assert_eq!(first, second);
    assert_eq!(mem.read(ROOT + 8), entry_for(0xbfff_d000, VALID_BIT));
    assert_eq!(mem.read(0xbfff_d010), entry_for(0xbfff_e000, VALID_BIT));
    assert_eq!(mem.read(0xbfff_e018), entry_for(0xbfff_f000, VALID_BIT));
    assert_eq!(more.alloc_ppage(), Ok(0xbfff_d000));
}

#[test]
fn walk_shares_directories_between_neighbours() {
    let mut mem = PhysMem::new();
    let mut pages = PageManager::init(0x3fff_c000).unwrap();
    let mut sv = Sv39 {};
    assert_eq!(sv.walk_pagedir_alloc(&mut mem, ROOT, VADDR, &mut pages), Ok(0xbfff_d018));
    // Same first two indices, index 4 in the third directory: one more page, not three.
    let other = VADDR + (1 << 30);
    assert_eq!(sv.walk_pagedir_alloc(&mut mem, ROOT, other, &mut pages), Ok(0xbfff_d020));
    assert_eq!(mem.read(0xbfff_d020), entry_for(0xbfff_f000, VALID_BIT));
    assert_eq!(pages.alloc_ppage(), Err(KError::NotEnoughPage));
}

#[test]
fn walk_stops_at_a_leaf_in_the_first_directory() {
    let mut mem = PhysMem::new();
    let leaf = entry_for(0x8040_0000, VALID_BIT | READ_BIT | WRITE_BIT);
    mem.write(ROOT + 8, leaf);
    let mut pages = three_pages();
    let mut sv = Sv39 {};
    assert_eq!(sv.walk_pagedir_alloc(&mut mem, ROOT, VADDR, &mut pages), Ok(ROOT + 8));
    assert_eq!(mem.read(ROOT + 8), leaf);
    assert_eq!(pages.alloc_ppage(), Ok(0xbfff_d000));
}

#[test]
fn walk_stops_at_a_leaf_in_the_second_directory() {
    let mut mem = PhysMem::new();
    mem.write(ROOT + 8, entry_for(0x8800_0000, VALID_BIT));
    let leaf = entry_for(0x8000_0000, VALID_BIT | READ_BIT);
    mem.write(0x8800_0010, leaf);
    let mut pages = three_pages();
    let mut sv = Sv39 {};
    assert_eq!(sv.walk_pagedir_alloc(&mut mem, ROOT, VADDR, &mut pages), Ok(0x8800_0010));
    assert_eq!(pages.alloc_ppage(), Ok(0xbfff_d000));
}

#[test]
fn walk_uses_existing_directories() {
    let mut mem = PhysMem::new();
    mem.write(ROOT + 8, entry_for(0x8800_0000, VALID_BIT));
    mem.write(0x8800_0010, entry_for(0x8800_1000, VALID_BIT));
    let mut pages = three_pages();
    let mut sv = Sv39 {};
    assert_eq!(sv.walk_pagedir_alloc(&mut mem, ROOT, VADDR, &mut pages), Ok(0x8800_1018));
    assert_eq!(mem.read(0x8800_1018), entry_for(0xbfff_d000, VALID_BIT));
    assert_eq!(pages.alloc_ppage(), Ok(0xbfff_e000));
}

#[test]
fn walk_without_pages_fails_and_writes_nothing() {
    let mut mem = PhysMem::new();
    let mut pages = PageManager::init(0x8020_0000).unwrap();
    let mut sv = Sv39 {};
    assert_eq!(sv.walk_pagedir_alloc(&mut mem, ROOT, VADDR, &mut pages), Err(KError::NotEnoughPage));
    assert_eq!(mem.read(ROOT + 8), 0);
}

#[test]
fn walk_running_out_keeps_what_it_built() {
    let mut mem = PhysMem::new();
    // Only page 0xbffff000 is free.
    let mut pages = PageManager::init(0x3fff_f000).unwrap();
    let mut sv = Sv39 {};
    assert_eq!(sv.walk_pagedir_alloc(&mut mem, ROOT, VADDR, &mut pages), Err(KError::NotEnoughPage));
    assert_eq!(mem.read(ROOT + 8), entry_for(0xbfff_f000, VALID_BIT));
    assert_eq!(mem.read(0xbfff_f010), 0);
}

#[test]
fn walk_root_index_comes_from_bits_12_to_20() {
    let mut mem = PhysMem::new();
    mem.write(ROOT + 0x1ff * 8, entry_for(0x8000_0000, VALID_BIT | READ_BIT));
    let mut pages = three_pages();
    let mut sv = Sv39 {};
    assert_eq!(sv.walk_pagedir_alloc(&mut mem, ROOT, 0x1ff000, &mut pages), Ok(ROOT + 0xff8));
    assert_eq!(sv.walk_pagedir_alloc(&mut mem, ROOT, 0x1f_ffff, &mut pages), Ok(ROOT + 0xff8));
}

#[test]
fn page_shift_is_twelve() {
    assert_eq!(<Sv39 as PageSystem>::PAGE_SHIFT, 12);
}

