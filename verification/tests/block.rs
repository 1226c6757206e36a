use raw_buffer::raw::block::{
    allocate, allocation_size, checked_allocation_size, deallocate, empty, reallocate,
};

#[test]
fn empty_block_has_no_slots_and_no_memory() {
    let block = empty::<u64>();
    assert_eq!(block.len(), 0);
    assert_eq!(block.capacity(), 0);
}

#[test]
fn allocate_gives_vacant_slots() {
    let block = allocate::<u32>(3);
    assert_eq!(block, vec![None, None, None]);
}

#[test]
fn allocate_one_slot() {
    let block = allocate::<u8>(1);
    assert_eq!(block, vec![None]);
}

#[test]
fn reallocate_grows_and_keeps_contents() {
    let mut block = allocate::<u16>(2);
    block[0] = Some(7);
    block[1] = Some(9);
    let block = reallocate(block, 2, 5);
    assert_eq!(block, vec![Some(7), Some(9), None, None, None]);
}

#[test]
fn reallocate_shrinks_to_prefix() {
    let mut block = allocate::<u16>(4);
    block[0] = Some(1);
    block[1] = Some(2);
    block[3] = Some(4);
    let block = reallocate(block, 4, 2);
    assert_eq!(block, vec![Some(1), Some(2)]);
}

#[test]
fn reallocate_to_same_capacity_changes_nothing() {
    let mut block = allocate::<i64>(3);
    block[1] = Some(-5);
    let block = reallocate(block, 3, 3);
    assert_eq!(block, vec![None, Some(-5), None]);
}

#[test]
fn deallocate_drops_each_element_once() {
    let witness = std::rc::Rc::new(());
    let mut block = allocate::<std::rc::Rc<()>>(3);
    block[0] = Some(witness.clone());
    block[2] = Some(witness.clone());
    assert_eq!(std::rc::Rc::strong_count(&witness), 3);
    deallocate(block, 3);
    assert_eq!(std::rc::Rc::strong_count(&witness), 1);
}

#[test]
fn allocation_size_is_the_exact_product() {
    assert_eq!(allocation_size::<u64>(4), 32);
    assert_eq!(allocation_size::<u8>(17), 17);
    assert_eq!(allocation_size::<[u32; 3]>(5), 60);
    assert_eq!(allocation_size::<u16>(usize::MAX / 2), usize::MAX - 1);
}

#[test]
fn allocation_size_of_zero_sized_elements_is_zero() {
    assert_eq!(allocation_size::<()>(1_000_000), 0);
    assert_eq!(allocation_size::<()>(usize::MAX), 0);
}

#[test]
fn checked_allocation_size_matches_when_it_fits() {
    assert_eq!(checked_allocation_size::<u64>(4), Some(32));
    assert_eq!(checked_allocation_size::<u8>(usize::MAX), Some(usize::MAX));
    assert_eq!(checked_allocation_size::<u64>(usize::MAX / 8), Some(usize::MAX / 8 * 8));
    assert_eq!(checked_allocation_size::<()>(usize::MAX), Some(0));
}

#[test]
fn checked_allocation_size_reports_overflow() {
    assert_eq!(checked_allocation_size::<u64>(usize::MAX), None);
    assert_eq!(checked_allocation_size::<u64>(usize::MAX / 8 + 1), None);
    assert_eq!(checked_allocation_size::<u16>(usize::MAX / 2 + 1), None);
}
