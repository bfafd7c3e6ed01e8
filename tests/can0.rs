use tc37x_hal::can::can0::{ClockEnable, ClockEnablePhase, McrAction, MCR_CCCE, MCR_CI};
use tc37x_hal::can::node::NodeId;

/// Runs the sequence against a register that takes every write as it is.
fn run(node: NodeId, start: u32) -> (bool, u32, usize) {
    let mut mcr = start;
    let mut seq = ClockEnable::new(node);
    let mut steps = 0usize;
    loop {
        steps += 1;
        match seq.step(mcr) {
            McrAction::Write(v) => mcr = v,
            McrAction::Poll => {}
            McrAction::Finished(ok) => return (ok, mcr, steps),
        }
        assert!(steps < 16);
    }
}

#[test]
fn clock_enable_sequence_enables_each_node() {
    for (node, field) in [
        (NodeId::Node0, 0x03u32),
        (NodeId::Node1, 0x0C),
        (NodeId::Node2, 0x30),
        (NodeId::Node3, 0xC0),
    ] {
        let (ok, mcr, steps) = run(node, 0);
        assert!(ok);
        assert_eq!(mcr, field);
        assert_eq!(steps, 4);
    }
}

#[test]
fn clock_enable_keeps_other_selections() {
    let (ok, mcr, _) = run(NodeId::Node1, 0x03);
    assert!(ok);
    assert_eq!(mcr, 0x0F);
}

#[test]
fn clock_enable_writes_unlock_then_select_then_lock() {
    let mut seq = ClockEnable::new(NodeId::Node0);
    assert_eq!(seq.step(0), McrAction::Write(MCR_CI | MCR_CCCE));
    assert_eq!(seq.phase(), ClockEnablePhase::AwaitUnlocked);
    // Not unlocked yet: poll again.
    assert_eq!(seq.step(MCR_CI), McrAction::Poll);
    assert_eq!(seq.step(MCR_CI | MCR_CCCE), McrAction::Write(MCR_CI | MCR_CCCE | 0x3));
    assert_eq!(seq.step(MCR_CI | MCR_CCCE | 0x3), McrAction::Write(0x3));
    assert_eq!(seq.step(MCR_CCCE | 0x3), McrAction::Poll);
    assert_eq!(seq.step(0x3), McrAction::Finished(true));
    assert_eq!(seq.phase(), ClockEnablePhase::Done(true));
    assert_eq!(seq.step(0), McrAction::Finished(true));
}

#[test]
fn clock_enable_reports_a_selection_that_did_not_stick() {
    let mut seq = ClockEnable::new(NodeId::Node2);
    seq.step(0);
    seq.step(MCR_CI | MCR_CCCE);
    seq.step(MCR_CI | MCR_CCCE | 0x30);
    assert_eq!(seq.step(0x10), McrAction::Finished(false));
}
