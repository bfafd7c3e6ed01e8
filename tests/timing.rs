use tc37x_hal::can::timing::{CanBitrate, Kbps, U32Ext};
use tc37x_hal::can::CanError;

#[test]
fn bitrate_500_kbps() {
    let t = CanBitrate::from_frequency(500u32.kbps()).unwrap_or_else(|_| panic!("refused"));
    assert_eq!(t.sync_jump_width(), 1);
    assert_eq!(t.tseg1(), 13);
    assert_eq!(t.tseg2(), 2);
    assert_eq!(t.pre_scaler(), 10);
}

#[test]
fn bitrate_50_kbps() {
    let t = CanBitrate::from_frequency(Kbps(50)).unwrap_or_else(|_| panic!("refused"));
    assert_eq!(t.sync_jump_width(), 1);
    assert_eq!(t.tseg1(), 6);
    assert_eq!(t.tseg2(), 1);
    assert_eq!(t.pre_scaler(), 200);
}

#[test]
fn other_bitrates_are_unsupported() {
    for kbps in [0u32, 49, 51, 100, 125, 250, 499, 501, 1000, u32::MAX] {
        assert!(matches!(
            CanBitrate::from_frequency(kbps.kbps()),
            Err(CanError::UnsupportedBitrate)
        ));
    }
}

#[test]
fn kbps_wraps_the_number() {
    assert_eq!(125u32.kbps(), Kbps(125));
}
