//! Error counters and protocol status of a running node.
use vstd::prelude::*;

verus! {

/// What the protocol controller is doing (PSR.ACT).
#[derive(PartialEq, Eq, Structural, Clone, Copy, Debug)]
pub enum Activity {
    /// Synchronizing to the bus.
    Synchronizing,
    /// Waiting for bus traffic.
    Idle,
    /// Receiving a frame.
    Receiver,
    /// Transmitting a frame.
    Transmitter,
}

impl Activity {
    /// The activity for the two-bit register code.
    pub open spec fn spec_from_code(code: u32) -> Activity {
        if code == 0 {
            Activity::Synchronizing
        } else if code == 1 {
            Activity::Idle
        } else if code == 2 {
            Activity::Receiver
        } else {
            Activity::Transmitter
        }
    }

    /// The activity for the two-bit register code.
    pub fn from_code(code: u32) -> (r: Activity)
        ensures
            r == Self::spec_from_code(code),
    {
        if code == 0 {
            Activity::Synchronizing
        } else if code == 1 {
            Activity::Idle
        } else if code == 2 {
            Activity::Receiver
        } else {
            Activity::Transmitter
        }
    }
}

/// Protocol status of a node.
#[derive(PartialEq, Eq, Structural, Clone, Copy, Debug)]
pub struct ProtocolStatus {
    activity: Activity,
    /// At least one error counter reached the warning limit of 96.
    warning_status: bool,
    in_error_passive: bool,
    bus_is_off: bool,
}

impl ProtocolStatus {
    /// The activity.
    pub closed spec fn spec_activity(self) -> Activity {
        self.activity
    }

    /// At least one error counter reached the warning limit.
    pub closed spec fn spec_warning_status(self) -> bool {
        self.warning_status
    }

    /// The node is error passive.
    pub closed spec fn spec_in_error_passive(self) -> bool {
        self.in_error_passive
    }

    /// The node is bus off.
    pub closed spec fn spec_bus_is_off(self) -> bool {
        self.bus_is_off
    }

    /// Whether the status shows something wrong: warning, error passive or bus off.
    pub open spec fn spec_indicates_error(self) -> bool {
        self.spec_warning_status() || self.spec_in_error_passive() || self.spec_bus_is_off()
    }

    /// The status from the decoded register fields.
    pub fn from_register_values(
        activity: Activity,
        warning_status: bool,
        in_error_passive: bool,
        bus_is_off: bool,
    ) -> (r: Self)
        ensures
            r.spec_activity() == activity,
            r.spec_warning_status() == warning_status,
            r.spec_in_error_passive() == in_error_passive,
            r.spec_bus_is_off() == bus_is_off,
    {
        ProtocolStatus { activity, warning_status, in_error_passive, bus_is_off }
    }

    /// The activity.
    pub fn activity(&self) -> (r: Activity)
        ensures
            r == self.spec_activity(),
    {
        self.activity
    }

    /// At least one error counter reached the warning limit.
    pub fn warning_status(&self) -> (r: bool)
        ensures
            r == self.spec_warning_status(),
    {
        self.warning_status
    }

    /// The node is error passive.
    pub fn in_error_passive(&self) -> (r: bool)
        ensures
            r == self.spec_in_error_passive(),
    {
        self.in_error_passive
    }

    /// The node is bus off.
    pub fn bus_is_off(&self) -> (r: bool)
        ensures
            r == self.spec_bus_is_off(),
    {
        self.bus_is_off
    }

    /// Whether the status shows something wrong: warning, error passive or bus off.
    pub fn indicates_error(&self) -> (r: bool)
        ensures
            r == self.spec_indicates_error(),
    {
        self.warning_status || self.in_error_passive || self.bus_is_off
    }
}

/// Error counters and protocol status of a node, in one snapshot.
#[derive(PartialEq, Eq, Structural, Clone, Copy, Debug)]
pub struct NodeErrorState {
    transmit_error_counter: u8,
    receive_error_counter: u8,
    protocol_status: ProtocolStatus,
}

impl NodeErrorState {
    /// Transmit error counter.
    pub closed spec fn spec_tec(self) -> u8 {
        self.transmit_error_counter
    }

    /// Receive error counter.
    pub closed spec fn spec_rec(self) -> u8 {
        self.receive_error_counter
    }

    /// Protocol status.
    pub closed spec fn spec_status(self) -> ProtocolStatus {
        self.protocol_status
    }

    /// `self` is the decoding of the protocol status (PSR) and error counter
    /// (ECR) values: TEC is ECR bits 0..8, REC bits 8..15; PSR.ACT is bits
    /// 3..5, EP bit 5, EW bit 6 and BO bit 7.
    pub open spec fn decodes(self, psr: u32, ecr: u32) -> bool {
        &&& self.spec_tec() == ecr & 0xFF
        &&& self.spec_rec() == (ecr >> 8u32) & 0x7F
        &&& self.spec_status().spec_activity() == Activity::spec_from_code((psr >> 3u32) & 0x3)
        &&& self.spec_status().spec_in_error_passive() == ((psr >> 5u32) & 1 == 1)
        &&& self.spec_status().spec_warning_status() == ((psr >> 6u32) & 1 == 1)
        &&& self.spec_status().spec_bus_is_off() == ((psr >> 7u32) & 1 == 1)
    }

    /// The snapshot decoded from the PSR and ECR register values.
    pub fn from_registers(psr: u32, ecr: u32) -> (r: NodeErrorState)
        ensures
            r.decodes(psr, ecr),
    {
        assert(ecr & 0xFFu32 <= 0xFF && (ecr >> 8u32) & 0x7Fu32 <= 0x7F) by (bit_vector);
        NodeErrorState {
            transmit_error_counter: (ecr & 0xFF) as u8,
            receive_error_counter: ((ecr >> 8u32) & 0x7F) as u8,
            protocol_status: ProtocolStatus::from_register_values(
                Activity::from_code((psr >> 3u32) & 0x3),
                (psr >> 6u32) & 1 == 1,
                (psr >> 5u32) & 1 == 1,
                (psr >> 7u32) & 1 == 1,
            ),
        }
    }

    /// Transmit error counter.
    pub fn transmit_error_counter(&self) -> (r: u8)
        ensures
            r == self.spec_tec(),
    {
        self.transmit_error_counter
    }

    /// Receive error counter.
    pub fn receive_error_counter(&self) -> (r: u8)
        ensures
            r == self.spec_rec(),
    {
        self.receive_error_counter
    }

    /// Protocol status.
    pub fn protocol_status(&self) -> (r: ProtocolStatus)
        ensures
            r == self.spec_status(),
    {
        self.protocol_status
    }
}

} // verus!
