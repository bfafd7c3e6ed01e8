//! Nominal bit timing for the supported bus speeds.
use vstd::prelude::*;

use crate::can::CanError;

verus! {

/// Nominal bit timing: sync jump width, prescaler and the two phase segments,
/// each as a logical value of at least one.
pub struct CanBitrate {
    sync_jump_width: u8,
    pre_scaler: u16,
    time_segment1: u8,
    time_segment2: u8,
}

/// A bus speed in kilobits per second.
#[derive(PartialEq, Eq, Structural, Clone, Copy, Debug)]
pub struct Kbps(pub u32);

/// Reading a number as a bus speed.
pub trait U32Ext {
    /// The speed this number stands for, in kilobits per second.
    spec fn spec_kbps(&self) -> u32;

    /// Interpret the value as kilobits per second.
    fn kbps(&self) -> (r: Kbps)
        ensures
            r.0 == self.spec_kbps(),
    ;
}

impl U32Ext for u32 {
    open spec fn spec_kbps(&self) -> u32 {
        *self
    }

    fn kbps(&self) -> (r: Kbps) {
        Kbps(*self)
    }
}

impl CanBitrate {
    /// Every timing value is at least one.
    pub open spec fn wf(&self) -> bool {
        &&& self.spec_sync_jump_width() >= 1
        &&& self.spec_pre_scaler() >= 1
        &&& self.spec_tseg1() >= 1
        &&& self.spec_tseg2() >= 1
    }

    /// Sync jump width, in time quanta.
    pub closed spec fn spec_sync_jump_width(&self) -> u8 {
        self.sync_jump_width
    }

    /// Prescaler of the CAN clock.
    pub closed spec fn spec_pre_scaler(&self) -> u16 {
        self.pre_scaler
    }

    /// Phase segment 1, in time quanta.
    pub closed spec fn spec_tseg1(&self) -> u8 {
        self.time_segment1
    }

    /// Phase segment 2, in time quanta.
    pub closed spec fn spec_tseg2(&self) -> u8 {
        self.time_segment2
    }

    /// The timing as (sync jump width, phase segment 1, phase segment 2, prescaler).
    pub open spec fn spec_tuple(&self) -> (u8, u8, u8, u16) {
        (self.spec_sync_jump_width(), self.spec_tseg1(), self.spec_tseg2(), self.spec_pre_scaler())
    }

    /// The table entry for a bus speed, if there is one.
    pub open spec fn table(kbps: u32) -> Option<(u8, u8, u8, u16)> {
        if kbps == 50 {
            Some((1, 6, 1, 200))
        } else if kbps == 500 {
            Some((1, 13, 2, 10))
        } else {
            None
        }
    }

    /// Timing for `bitrate` with an 80 MHz CAN clock: a fixed entry, worked
    /// out by hand, for 50 and for 500 kbit/s; any other speed is refused.
    pub fn from_frequency(bitrate: Kbps) -> (r: Result<Self, CanError>)
        ensures
            match Self::table(bitrate.0) {
                Some(t) => r is Ok && r->Ok_0.spec_tuple() == t && r->Ok_0.wf(),
                None => r == Err::<Self, CanError>(CanError::UnsupportedBitrate),
            },
    {
        if bitrate == 50u32.kbps() {
            Ok(
                CanBitrate {
                    sync_jump_width: 1,
                    pre_scaler: 200,
                    time_segment1: 6,
                    time_segment2: 1,
                },
            )
        } else if bitrate == 500u32.kbps() {
            Ok(
                CanBitrate {
                    sync_jump_width: 1,
                    pre_scaler: 10,
                    time_segment1: 13,
                    time_segment2: 2,
                },
            )
        } else {
            Err(CanError::UnsupportedBitrate)
        }
    }

    /// Sync jump width, in time quanta.
    pub fn sync_jump_width(&self) -> (r: u8)
        ensures
            r == self.spec_sync_jump_width(),
    {
        self.sync_jump_width
    }

    /// Prescaler of the CAN clock.
    pub fn pre_scaler(&self) -> (r: u16)
        ensures
            r == self.spec_pre_scaler(),
    {
        self.pre_scaler
    }

    /// Phase segment 1, in time quanta.
    pub fn tseg1(&self) -> (r: u8)
        ensures
            r == self.spec_tseg1(),
    {
        self.time_segment1
    }

    /// Phase segment 2, in time quanta.
    pub fn tseg2(&self) -> (r: u8)
        ensures
            r == self.spec_tseg2(),
    {
        self.time_segment2
    }
}

} // verus!
