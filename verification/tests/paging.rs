use tee_core::errors::TeeError;
use tee_core::paging::checksum_of_pages;
use tee_core::paging::Level;
use tee_core::paging::MappingWindow;
use tee_core::paging::PhysAddr;
use tee_core::paging::VirtAddr;

fn empty_window(table_addr: u64) -> MappingWindow {
    MappingWindow::new(table_addr, vec![0u64; 512])
}

/// Tests that the indices and offsets into page tables are properly
/// calculated. I used the "paging-calculator" facility to verify those
/// results.
#[test]
fn page_table_index_and_offset() {
    let addr = VirtAddr::new(0xdead_beef_1337_1337_u64);
    assert_eq!(addr.pt_index(Level::One), 369);
    assert_eq!(addr.pt_index(Level::Two), 153);
    assert_eq!(addr.pt_index(Level::Three), 444);
    assert_eq!(addr.pt_index(Level::Four), 381);
    assert_eq!(addr.pt_offset(Level::One), 0xb88);
    assert_eq!(addr.pt_offset(Level::Two), 0x4c8);
    assert_eq!(addr.pt_offset(Level::Three), 0xde0);
    assert_eq!(addr.pt_offset(Level::Four), 0xbe8);
}

#[test]
fn level_values() {
    assert_eq!(Level::One.val(), 1);
    assert_eq!(Level::Two.val(), 2);
    assert_eq!(Level::Three.val(), 3);
    assert_eq!(Level::Four.val(), 4);
}

#[test]
fn map_first_page_lands_at_reserved_offset() {
    let mut w = empty_window(0x4000_0000);
    let virt = w
        .map_phys_rel_base_addr(PhysAddr::new(0x0010_0000), 1, 0x3)
        .expect("one free slot must exist");
    // Slot 384 of the window whose base is the 2 MiB-aligned table address.
    assert_eq!(virt.val(), 0x4000_0000 + 384 * 4096);
}

#[test]
fn consecutive_single_page_maps_are_a_guard_gap_apart() {
    let mut w = empty_window(0x4000_0000);
    let v1 = w.map_phys_rel_base_addr(PhysAddr::new(0x0010_0000), 1, 0x3).unwrap();
    let v2 = w.map_phys_rel_base_addr(PhysAddr::new(0x0020_0000), 1, 0x3).unwrap();
    // One page for the mapping itself plus one guard slot.
    assert_eq!(v2.val() - v1.val(), 2 * 4096);
}

#[test]
fn map_multi_page_advances_the_frame_per_slot() {
    let mut w = empty_window(0x4000_0000);
    let v = w.map_phys_rel_base_addr(PhysAddr::new(0x0010_0000), 3, 0x3).unwrap();
    assert_eq!(v.val(), 0x4000_0000 + 384 * 4096);
    // Each mapped page translates back to the next physical frame.
    assert_eq!(w.get_physical_address(v.val()), Some(0x0010_0000));
    assert_eq!(w.get_physical_address(v.val() + 4096), Some(0x0010_1000));
    assert_eq!(w.get_physical_address(v.val() + 2 * 4096), Some(0x0010_2000));
}

#[test]
fn map_exhaustion_is_reported_explicitly() {
    let mut w = empty_window(0x4000_0000);
    // 512 - 384 = 128 slots remain; a 200-page request cannot fit.
    let r = w.map_phys_rel_base_addr(PhysAddr::new(0x0010_0000), 200, 0x3);
    assert_eq!(r, Err(TeeError::ResourceExhausted));
    // The window is spent afterwards: even one page is refused.
    let r = w.map_phys_rel_base_addr(PhysAddr::new(0x0010_0000), 1, 0x3);
    assert_eq!(r, Err(TeeError::ResourceExhausted));
}

#[test]
fn get_physical_address_on_unmapped_returns_none() {
    let w = empty_window(0x4000_0000);
    // Every entry is non-present: the lookup must miss without faulting.
    assert_eq!(w.get_physical_address(0x4000_0000 + 384 * 4096), None);
    assert_eq!(w.get_physical_address(0xdead_beef_1337_1337), None);
}

#[test]
fn get_physical_address_combines_frame_and_offset() {
    let mut w = empty_window(0x4000_0000);
    let v = w.map_phys_rel_base_addr(PhysAddr::new(0x0010_0000), 1, 0x3).unwrap();
    assert_eq!(w.get_physical_address(v.val() + 0x123), Some(0x0010_0123));
}

#[test]
fn get_physical_address_masks_the_no_execute_bit() {
    let mut w = empty_window(0x4000_0000);
    let v = w
        .map_phys_rel_base_addr(PhysAddr::new(0x0010_0000), 1, 0x3 | (1 << 63))
        .unwrap();
    assert_eq!(w.get_physical_address(v.val()), Some(0x0010_0000));
}

#[test]
fn get_virtual_address_synthesizes_from_slot_and_offset() {
    let mut w = empty_window(0x4000_0000);
    let v = w.map_phys_rel_base_addr(PhysAddr::new(0x0010_0000), 1, 0x3).unwrap();
    assert_eq!(w.get_virtual_address(0x0010_0123), Some(v.val() + 0x123));
}

#[test]
fn get_virtual_address_without_match_returns_none() {
    let mut w = empty_window(0x4000_0000);
    let _ = w.map_phys_rel_base_addr(PhysAddr::new(0x0010_0000), 1, 0x3).unwrap();
    assert_eq!(w.get_virtual_address(0x0055_5000), None);
}

#[test]
fn present_page_addrs_lists_mapped_slots_in_order() {
    let mut w = empty_window(0x4000_0000);
    let v = w.map_phys_rel_base_addr(PhysAddr::new(0x0010_0000), 2, 0x3).unwrap();
    let addrs = w.present_page_addrs();
    assert_eq!(addrs, vec![v.val(), v.val() + 4096]);
}

#[test]
fn checksum_accumulates_words_and_counts_pages() {
    // One page of 1024 words: 1, 2, 3, 0, 0, ... plus 1 for the page.
    let mut page = vec![0u32; 1024];
    page[0] = 1;
    page[1] = 2;
    page[2] = 3;
    assert_eq!(checksum_of_pages(&vec![page.clone()]), 1 + 2 + 3 + 1);
    // Two identical pages double the sum and the page count.
    assert_eq!(checksum_of_pages(&vec![page.clone(), page]), 2 * (1 + 2 + 3) + 2);
    // No present pages: the checksum is zero.
    assert_eq!(checksum_of_pages(&Vec::new()), 0);
}

#[test]
fn virt_and_phys_addr_keep_their_value() {
    assert_eq!(VirtAddr::new(0x1234).val(), 0x1234);
    assert_eq!(PhysAddr::new(0xabcd).val(), 0xabcd);
}
