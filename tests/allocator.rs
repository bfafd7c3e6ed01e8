use tc37x_hal::can::can0::{CanModule0, CAN0_RAM_LOCATION, CAN0_RAM_SIZE};
use tc37x_hal::can::module_ram::BufferSize8;
use tc37x_hal::can::rx::CanRxFrame;
use tc37x_hal::can::tx::CanTxFrame;
use tc37x_hal::can::CanError;

#[test]
fn fresh_builder_has_nothing_used() {
    let (_module, builder) = CanModule0::new();
    assert_eq!(builder.used(), 0);
}

#[test]
fn take_hands_out_consecutive_frame_buffers() {
    let (_module, mut builder) = CanModule0::new();
    let rx = builder.take::<CanRxFrame<BufferSize8>>(4).unwrap();
    assert_eq!(rx.in_module_offset(), 0);
    assert_eq!(rx.elements(), 4);
    assert_eq!(builder.used(), 64);
    let tx = builder.take::<CanTxFrame<BufferSize8>>(2).unwrap();
    assert_eq!(tx.in_module_offset(), 64);
    assert_eq!(tx.elements(), 2);
    assert_eq!(builder.used(), 96);
}

#[test]
fn take_pads_for_alignment() {
    let (_module, mut builder) = CanModule0::new();
    let bytes = builder.take::<u8>(3).unwrap();
    assert_eq!(bytes.in_module_offset(), 0);
    assert_eq!(builder.used(), 3);
    let word = builder.take::<u32>(1).unwrap();
    assert_eq!(word.in_module_offset(), 4);
    assert_eq!((CAN0_RAM_LOCATION + word.in_module_offset()) % 4, 0);
    assert_eq!(builder.used(), 8);
    let wide = builder.take::<u64>(2).unwrap();
    assert_eq!(wide.in_module_offset() % core::mem::align_of::<u64>(), 0);
    assert_eq!(builder.used(), wide.in_module_offset() + 16);
}

#[test]
fn taken_buffers_do_not_overlap() {
    let (_module, mut builder) = CanModule0::new();
    let mut regions: Vec<(usize, usize)> = Vec::new();
    let a = builder.take::<u8>(5).unwrap();
    regions.push((a.in_module_offset(), a.in_module_offset() + 5));
    let b = builder.take::<u32>(3).unwrap();
    regions.push((b.in_module_offset(), b.in_module_offset() + 12));
    let c = builder.take::<CanTxFrame<BufferSize8>>(7).unwrap();
    regions.push((c.in_module_offset(), c.in_module_offset() + 7 * 16));
    let d = builder.take::<u16>(1).unwrap();
    regions.push((d.in_module_offset(), d.in_module_offset() + 2));
    for i in 0..regions.len() {
        for j in (i + 1)..regions.len() {
            assert!(regions[i].1 <= regions[j].0);
        }
    }
}

#[test]
fn take_past_the_end_fails_and_changes_nothing() {
    let (_module, mut builder) = CanModule0::new();
    // 64 buffers of 32 frames of 16 bytes fill the 32 KiB exactly.
    for i in 0..64usize {
        let mem = builder.take::<CanTxFrame<BufferSize8>>(32).unwrap();
        assert_eq!(mem.in_module_offset(), i * 512);
    }
    assert_eq!(builder.used(), CAN0_RAM_SIZE);
    let r = builder.take::<CanTxFrame<BufferSize8>>(1);
    assert!(matches!(r, Err(CanError::OutOfMemory)));
    assert_eq!(builder.used(), CAN0_RAM_SIZE);
    let r = builder.take::<u8>(1);
    assert!(matches!(r, Err(CanError::OutOfMemory)));
    assert_eq!(builder.used(), CAN0_RAM_SIZE);
}

#[test]
fn take_that_does_not_fit_leaves_room_for_smaller_requests() {
    let (_module, mut builder) = CanModule0::new();
    for _ in 0..63usize {
        builder.take::<CanTxFrame<BufferSize8>>(32).unwrap();
    }
    assert_eq!(builder.used(), CAN0_RAM_SIZE - 512);
    assert!(builder.take::<u8>(0).is_ok());
    let too_big = builder.take::<CanTxFrame<BufferSize8>>(32);
    assert!(too_big.is_ok());
    let nothing_left = builder.take::<CanRxFrame<BufferSize8>>(1);
    assert!(matches!(nothing_left, Err(CanError::OutOfMemory)));
}

#[test]
fn zero_elements_take_no_room() {
    let (_module, mut builder) = CanModule0::new();
    let empty = builder.take::<u32>(0).unwrap();
    assert_eq!(empty.elements(), 0);
    assert_eq!(builder.used(), 0);
}

#[test]
fn take_expect_returns_the_buffer() {
    let (_module, mut builder) = CanModule0::new();
    let mem = builder.take_expect::<CanRxFrame<BufferSize8>>(8);
    assert_eq!(mem.in_module_offset(), 0);
    assert_eq!(mem.elements(), 8);
    assert_eq!(builder.used(), 128);
}

#[test]
fn element_offsets_are_index_checked() {
    let (_module, mut builder) = CanModule0::new();
    builder.take::<u8>(4).unwrap();
    let mem = builder.take::<CanRxFrame<BufferSize8>>(3).unwrap();
    assert_eq!(mem.get(0), Some(4));
    assert_eq!(mem.get(1), Some(20));
    assert_eq!(mem.get(2), Some(36));
    assert_eq!(mem.get(3), None);
    assert_eq!(mem.get(255), None);
}
