use tc37x_hal::can::module_ram::{BufferSize8, CanBuffer, Sizes};
use tc37x_hal::can::rx::{CanRxFrame, RxMessageT1};
use tc37x_hal::can::tx::{CanTxFrame, TxMessageT0, TxMessageT1};
use tc37x_hal::can::{CanError, CanID};

#[test]
fn standard_id_round_trip() {
    for id in [0u16, 1, 0x123, 0x555, 0x7FF] {
        let mut frame = CanTxFrame::<BufferSize8>::new();
        frame.set_id(CanID::Standard(id));
        assert_eq!(frame.get_id(), CanID::Standard(id));
    }
}

#[test]
fn extended_id_round_trip() {
    for id in [0u32, 1, 0x7FF, 0x12345, 0x1ABC_DEF0, 0x1FFF_FFFF] {
        let mut frame = CanTxFrame::<BufferSize8>::new();
        frame.set_id(CanID::Extended(id));
        assert_eq!(frame.get_id(), CanID::Extended(id));
    }
}

#[test]
fn standard_id_is_shifted_and_flag_cleared() {
    let mut frame = CanTxFrame::<BufferSize8>::new();
    frame.set_id(CanID::Extended(0x1FFF_FFFF));
    frame.set_id(CanID::Standard(0x123));
    assert_eq!(frame.t0().id(), 0x123 << 18);
    assert!(!frame.t0().is_extended());
    assert_eq!(frame.t0().into_bits(), 0x123 << 18);
}

#[test]
fn extended_id_is_stored_raw_with_flag_set() {
    let mut frame = CanTxFrame::<BufferSize8>::new();
    frame.set_id(CanID::Extended(0x0ABC_DEF1));
    assert_eq!(frame.t0().id(), 0x0ABC_DEF1);
    assert!(frame.t0().is_extended());
    assert_eq!(frame.t0().into_bits(), 0x4ABC_DEF1);
}

#[test]
fn set_id_keeps_the_other_flags() {
    let mut t0 = TxMessageT0::from_bits(0xA000_0000);
    assert!(t0.rtr());
    assert!(t0.error_state());
    t0.set_id(0x1234);
    assert!(t0.rtr());
    assert!(t0.error_state());
    assert!(!t0.is_extended());
    assert_eq!(t0.into_bits(), 0xA000_1234);
}

#[test]
fn data_round_trip() {
    let payloads: [&[u8]; 4] = [&[], &[0xAB], &[1, 2, 3, 4, 5], &[9, 8, 7, 6, 5, 4, 3, 2]];
    for bytes in payloads {
        let mut frame = CanTxFrame::<BufferSize8>::new();
        assert_eq!(frame.set_data(bytes), Ok(()));
        assert_eq!(frame.data(), bytes);
        assert_eq!(frame.t1().dlc() as usize, bytes.len());
    }
}

#[test]
fn shorter_data_hides_older_bytes() {
    let mut frame = CanTxFrame::<BufferSize8>::new();
    frame.set_data(&[1, 2, 3, 4, 5, 6, 7, 8]).unwrap();
    frame.set_data(&[0xEE, 0xFF]).unwrap();
    assert_eq!(frame.data(), &[0xEE, 0xFF]);
    assert_eq!(frame.buffer(), &[0xEE, 0xFF, 3, 4, 5, 6, 7, 8]);
}

#[test]
fn data_longer_than_eight_bytes_is_refused() {
    let mut frame = CanTxFrame::<BufferSize8>::new();
    frame.set_data(&[1, 2, 3]).unwrap();
    let r = frame.set_data(&[0u8; 9]);
    assert_eq!(r, Err(CanError::PayloadTooLarge));
    assert_eq!(frame.data(), &[1, 2, 3]);
    assert_eq!(frame.set_data(&[0u8; 64]), Err(CanError::PayloadTooLarge));
}

#[test]
fn set_data_keeps_the_identifier() {
    let mut frame = CanTxFrame::<BufferSize8>::new();
    frame.set_id(CanID::Standard(0x42));
    frame.set_data(&[7, 7]).unwrap();
    assert_eq!(frame.get_id(), CanID::Standard(0x42));
    frame.set_id(CanID::Extended(0x42));
    assert_eq!(frame.data(), &[7, 7]);
}

#[test]
fn tx_second_word_layout() {
    let mut t1 = TxMessageT1::from_bits(0xAB00_0000 | (1 << 23) | (1 << 21) | (1 << 20));
    t1.set_dlc(8);
    assert_eq!(t1.dlc(), 8);
    assert_eq!(t1.into_bits(), 0xABB8_0000);
    assert_eq!(t1.message_marker(), 0xAB);
    assert!(t1.event_fifo_control());
    assert!(t1.is_fd_format());
    assert!(t1.bitrate_switching());
}

#[test]
fn rx_frame_decodes_standard_id_and_payload() {
    let t0 = TxMessageT0::from_bits(0x7FF << 18);
    let t1 = RxMessageT1::from_bits((3 << 16) | 0x1234);
    let frame = CanRxFrame::from_parts(t0, t1, BufferSize8::from_array([1, 2, 3, 4, 5, 6, 7, 8]));
    assert_eq!(frame.get_id(), CanID::Standard(0x7FF));
    assert_eq!(frame.data(), &[1, 2, 3]);
    assert_eq!(frame.t1().rx_timestamp(), 0x1234);
}

#[test]
fn rx_frame_decodes_extended_id() {
    let t0 = TxMessageT0::from_bits(0x4000_0000 | 0x1555_5555);
    let t1 = RxMessageT1::from_bits(8 << 16);
    let frame = CanRxFrame::from_parts(t0, t1, BufferSize8::from_array([8; 8]));
    assert_eq!(frame.get_id(), CanID::Extended(0x1555_5555));
    assert_eq!(frame.data(), &[8; 8]);
}

#[test]
fn rx_data_length_code_above_buffer_is_capped() {
    let t1 = RxMessageT1::from_bits(15 << 16);
    let frame = CanRxFrame::from_parts(
        TxMessageT0::new(),
        t1,
        BufferSize8::from_array([1, 2, 3, 4, 5, 6, 7, 8]),
    );
    assert_eq!(frame.t1().dlc(), 15);
    assert_eq!(frame.data(), &[1, 2, 3, 4, 5, 6, 7, 8]);
}

#[test]
fn rx_second_word_layout() {
    let t1 = RxMessageT1::from_bits(
        0x8000_0000 | (0x55 << 24) | (1 << 21) | (1 << 20) | (5 << 16) | 0xBEEF,
    );
    assert!(t1.accepted_non_matching_frame());
    assert_eq!(t1.filter_index(), 0x55);
    assert!(t1.is_fd_format());
    assert!(t1.bitrate_switching());
    assert_eq!(t1.dlc(), 5);
    assert_eq!(t1.rx_timestamp(), 0xBEEF);
}

#[test]
fn empty_frames_are_zero() {
    let tx = CanTxFrame::<BufferSize8>::default();
    assert_eq!(tx.t0().into_bits(), 0);
    assert_eq!(tx.t1().into_bits(), 0);
    assert_eq!(tx.buffer(), &[0u8; 8]);
    assert_eq!(tx.data(), &[] as &[u8]);
    let rx = CanRxFrame::<BufferSize8>::default();
    assert_eq!(rx.get_id(), CanID::Standard(0));
    assert_eq!(rx.data(), &[] as &[u8]);
}

#[test]
fn eight_byte_buffer_size_code() {
    assert_eq!(BufferSize8::buffer_len(), 8);
    assert_eq!(BufferSize8::buffer_size(), Sizes::BufferSize8);
    assert_eq!(Sizes::BufferSize8.code(), 0);
}

#[test]
fn data_length_is_the_data_length_code() {
    let mut frame = CanTxFrame::<BufferSize8>::new();
    for len in 0..=8usize {
        let bytes = [0x5Au8; 8];
        frame.set_data(&bytes[..len]).unwrap();
        assert_eq!(frame.data().len(), len);
    }
    let rx = CanRxFrame::from_parts(
        TxMessageT0::new(),
        RxMessageT1::from_bits(6 << 16),
        BufferSize8::from_array([1; 8]),
    );
    assert_eq!(rx.data().len(), 6);
}
