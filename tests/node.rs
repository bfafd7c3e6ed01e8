use tc37x_hal::can::can0::{
    Available, CanModule0, ClockEnable, ClockEnablePhase, McrAction, Taken,
};
use tc37x_hal::can::connection::{DefaultDisconnected, Node0Pin, Node1Pin};
use tc37x_hal::can::error::{Activity, NodeErrorState, ProtocolStatus};
use tc37x_hal::can::module_ram::BufferSize8;
use tc37x_hal::can::node::{
    CanNode, CccrAction, InConfiguration, ModeSwitch, ModeSwitchPhase, NodeExt, NodeId,
    NodeRegisters, CCCR_CCE, CCCR_INIT,
};
use tc37x_hal::can::receive::{NoRx, RxFifo0Read, RxFifo0Status};
use tc37x_hal::can::rx::CanRxFrame;
use tc37x_hal::can::timing::{CanBitrate, Kbps};
use tc37x_hal::can::transceive::NoTx;
use tc37x_hal::can::tx::CanTxFrame;
use tc37x_hal::can::{CanError, CanID};

type Module = CanModule0<Available, Available>;

/// The clock-enable sequence of `node`, run against a register that takes
/// every write as it is.
fn clock_enabled(node: NodeId) -> ClockEnable {
    let mut sequence = ClockEnable::new(node);
    let mut mcr = 0u32;
    loop {
        match sequence.step(mcr) {
            McrAction::Write(v) => mcr = v,
            McrAction::Poll => {}
            McrAction::Finished(_) => return sequence,
        }
    }
}

/// The switch into configuration mode, run against a register that takes every
/// write as it is.
fn configuring() -> ModeSwitch {
    let mut switch = ModeSwitch::enter_configuration(0);
    let mut cccr = 0u32;
    loop {
        match switch.step(cccr) {
            CccrAction::Write(v) => cccr = v,
            CccrAction::Done => return switch,
        }
    }
}

fn start_node0<N1>(
    module: CanModule0<Available, N1>,
) -> (
    CanModule0<Taken, N1>,
    CanNode<DefaultDisconnected<Node0Pin>, InConfiguration, NoTx, NoRx, CanModule0<Available, N1>>,
) {
    module.node0(&clock_enabled(NodeId::Node0), &configuring())
}

fn start_node1<N0>(
    module: CanModule0<N0, Available>,
) -> (
    CanModule0<N0, Taken>,
    CanNode<DefaultDisconnected<Node1Pin>, InConfiguration, NoTx, NoRx, CanModule0<N0, Available>>,
) {
    module.node1(&clock_enabled(NodeId::Node1), &configuring())
}

#[test]
fn fresh_node_is_in_configuration() {
    let (module, _builder) = Module::new();
    let (_module, node) = start_node0(module);
    assert_eq!(node.node_id(), NodeId::Node0);
    let regs = node.registers();
    assert_eq!(regs, NodeRegisters::initial());
    assert!(regs.init && regs.cce);
    assert!(!regs.loopback);
}

#[test]
fn both_nodes_can_be_taken() {
    let (module, _builder) = Module::new();
    let (module, node0) = start_node0(module);
    let (_module, node1) = start_node1(module);
    assert_eq!(node0.node_id(), NodeId::Node0);
    assert_eq!(node1.node_id(), NodeId::Node1);
}

#[test]
fn loopback_then_finalize_runs_the_node() {
    let (_m, node) = start_node0(Module::new().0);
    let node = node.connect_internal_loopback();
    assert!(node.registers().loopback);
    let node = node.finalize();
    let regs = node.registers();
    assert!(!regs.init);
    assert!(!regs.cce);
    assert!(regs.loopback);
}

#[test]
fn pins_then_finalize_runs_the_node() {
    let (m, node0) = start_node0(Module::new().0);
    let node0 = node0.set_pins(Node0Pin::Rxdb).finalize();
    assert_eq!(node0.registers().rxsel, 0b001);
    assert!(!node0.registers().loopback);
    assert!(!node0.registers().init);
    let (_m, node1) = start_node1(m);
    let node1 = node1.set_pins(Node1Pin::Rxda).connect_internal_loopback().finalize();
    assert_eq!(node1.registers().rxsel, 0);
    assert!(node1.registers().loopback);
}

#[test]
fn set_bitrate_stores_values_minus_one() {
    let (_m, node) = start_node0(Module::new().0);
    let timing = CanBitrate::from_frequency(Kbps(500)).unwrap_or_else(|_| panic!("refused"));
    let node = node.set_bitrate(&timing);
    let regs = node.registers();
    assert_eq!((regs.nsjw, regs.ntseg1, regs.ntseg2, regs.nbrp), (0, 12, 1, 9));
    let slow = CanBitrate::from_frequency(Kbps(50)).unwrap_or_else(|_| panic!("refused"));
    let regs = node.set_bitrate(&slow).registers();
    assert_eq!((regs.nsjw, regs.ntseg1, regs.ntseg2, regs.nbrp), (0, 5, 0, 199));
    assert!(regs.init && regs.cce);
}

#[test]
fn set_rx_fifo0_configures_the_fifo() {
    let (module, mut builder) = Module::new();
    builder.take::<u32>(3).unwrap();
    let mem = builder.take::<CanRxFrame<BufferSize8>>(10).unwrap();
    assert_eq!(mem.in_module_offset(), 12);
    let (_m, node) = start_node0(module);
    let regs = node.set_rx_fifo0(mem).registers();
    assert_eq!(regs.rx_fifo0_start, 3);
    assert_eq!(regs.rx_fifo0_size, 10);
    assert!(!regs.rx_fifo0_overwrite);
    assert_eq!(regs.rx_fifo0_watermark, 0);
    assert_eq!(regs.rx_fifo0_data_size, 0);
    assert_eq!(regs.accept_non_matching, 0);
}

#[test]
fn set_tx_configures_dedicated_buffers() {
    let (module, mut builder) = Module::new();
    builder.take::<CanRxFrame<BufferSize8>>(4).unwrap();
    let mem = builder.take::<CanTxFrame<BufferSize8>>(31).unwrap();
    let (_m, node) = start_node0(module);
    let regs = node.connect_internal_loopback().set_tx(mem).registers();
    assert_eq!(regs.tx_buffers_start, 16);
    assert_eq!(regs.tx_buffers, 31);
    assert_eq!(regs.tx_data_size, 0);
}

#[test]
fn receive_from_an_empty_fifo_gives_nothing() {
    let (module, mut builder) = Module::new();
    let mem = builder.take::<CanRxFrame<BufferSize8>>(4).unwrap();
    let (_m, node) = start_node0(module);
    let mut node = node.connect_internal_loopback().set_rx_fifo0(mem).finalize();
    let status = RxFifo0Status { fill_level: 0, get_index: 2 };
    assert_eq!(node.try_receive_fifo0(status), Ok(None));
}

#[test]
fn receive_reads_and_acknowledges_the_get_index() {
    let (module, mut builder) = Module::new();
    builder.take::<u32>(8).unwrap();
    let mem = builder.take::<CanRxFrame<BufferSize8>>(4).unwrap();
    let (_m, node) = start_node0(module);
    let mut node = node.connect_internal_loopback().set_rx_fifo0(mem).finalize();
    let status = RxFifo0Status { fill_level: 3, get_index: 2 };
    assert_eq!(
        node.try_receive_fifo0(status),
        Ok(Some(RxFifo0Read { index: 2, offset: 32 + 2 * 16, ack: 2 }))
    );
    let status = RxFifo0Status { fill_level: 1, get_index: 0 };
    assert_eq!(
        node.try_receive_fifo0(status),
        Ok(Some(RxFifo0Read { index: 0, offset: 32, ack: 0 }))
    );
}

#[test]
fn receive_index_outside_the_fifo_is_a_configuration_error() {
    let (module, mut builder) = Module::new();
    let mem = builder.take::<CanRxFrame<BufferSize8>>(4).unwrap();
    let (_m, node) = start_node0(module);
    let mut node = node.set_pins(Node0Pin::Rxdb).set_rx_fifo0(mem).finalize();
    let status = RxFifo0Status { fill_level: 1, get_index: 4 };
    assert_eq!(node.try_receive_fifo0(status), Err(CanError::ConfigurationInvariantViolated));
}

#[test]
fn acquire_takes_the_first_free_buffer() {
    let (module, mut builder) = Module::new();
    let mem = builder.take::<CanTxFrame<BufferSize8>>(4).unwrap();
    let (_m, node) = start_node0(module);
    let mut node = node.connect_internal_loopback().set_tx(mem).finalize();
    assert_eq!(node.acquire_transmit_buffer(0).map(|b| b.index()), Some(0));
    assert_eq!(node.acquire_transmit_buffer(0b0001).map(|b| b.index()), Some(1));
    assert_eq!(node.acquire_transmit_buffer(0b1011).map(|b| b.index()), Some(2));
    assert_eq!(node.acquire_transmit_buffer(0b0111).map(|b| b.index()), Some(3));
}

#[test]
fn acquire_with_all_buffers_pending_gives_nothing() {
    let (module, mut builder) = Module::new();
    let mem = builder.take::<CanTxFrame<BufferSize8>>(4).unwrap();
    let (_m, node) = start_node0(module);
    let mut node = node.connect_internal_loopback().set_tx(mem).finalize();
    assert!(node.acquire_transmit_buffer(0b1111).is_none());
    // Pending bits beyond the configured buffers do not matter.
    assert!(node.acquire_transmit_buffer(0xFFFF_FFFF).is_none());
    assert_eq!(node.acquire_transmit_buffer(0xFFFF_FFF7).map(|b| b.index()), Some(3));
}

#[test]
fn set_frame_then_send_requests_the_buffer() {
    let (module, mut builder) = Module::new();
    builder.take::<CanRxFrame<BufferSize8>>(2).unwrap();
    let mem = builder.take::<CanTxFrame<BufferSize8>>(8).unwrap();
    let (_m, node) = start_node0(module);
    let mut node = node.connect_internal_loopback().set_tx(mem).finalize();
    let mut frame = CanTxFrame::<BufferSize8>::new();
    frame.set_id(CanID::Standard(0x100));
    frame.set_data(&[1, 2, 3]).unwrap();
    let buffer = node.acquire_transmit_buffer(0b0001_1111).unwrap();
    let (ready, write) = buffer.set_frame(frame);
    assert_eq!(write.offset, 32 + 5 * 16);
    assert_eq!(write.frame.get_id(), CanID::Standard(0x100));
    assert_eq!(write.frame.data(), &[1, 2, 3]);
    assert_eq!(ready.index(), 5);
    assert_eq!(ready.send(), 1 << 5);
}

#[test]
fn with_transmit_buffer_hands_over_the_free_buffer() {
    let (module, mut builder) = Module::new();
    let mem = builder.take::<CanTxFrame<BufferSize8>>(3).unwrap();
    let (_m, node) = start_node0(module);
    let mut node = node.connect_internal_loopback().set_tx(mem).finalize();
    let sent = node.with_transmit_buffer(0b001, |b| {
        let (ready, _write) = b.set_frame(CanTxFrame::new());
        ready.send()
    });
    assert_eq!(sent, Some(0b010));
    let none = node.with_transmit_buffer(0b111, |b| b.index());
    assert_eq!(none, None);
}

#[test]
fn error_state_is_decoded_from_the_registers() {
    let (_m, node) = start_node0(Module::new().0);
    let node = node.connect_internal_loopback().finalize();
    // ACT = receiver, EW set; TEC 96, REC 5.
    let state = node.clear_error((2 << 3) | (1 << 6), (5 << 8) | 96);
    assert_eq!(state.transmit_error_counter(), 96);
    assert_eq!(state.receive_error_counter(), 5);
    let status = state.protocol_status();
    assert_eq!(status.activity(), Activity::Receiver);
    assert!(status.warning_status());
    assert!(!status.in_error_passive());
    assert!(!status.bus_is_off());
    assert!(status.indicates_error());
}

#[test]
fn quiet_status_indicates_no_error() {
    let state = NodeErrorState::from_registers(1 << 3, 0);
    assert_eq!(state.protocol_status().activity(), Activity::Idle);
    assert!(!state.protocol_status().indicates_error());
    let passive = NodeErrorState::from_registers(1 << 5, 0x7F << 8);
    assert!(passive.protocol_status().in_error_passive());
    assert!(passive.protocol_status().indicates_error());
    assert_eq!(passive.receive_error_counter(), 0x7F);
    let off = ProtocolStatus::from_register_values(Activity::Synchronizing, false, false, true);
    assert!(off.indicates_error());
    let fine = ProtocolStatus::from_register_values(Activity::Transmitter, false, false, false);
    assert!(!fine.indicates_error());
}

#[test]
fn node_ext_switches_configuration_mode() {
    let mut regs = NodeRegisters::initial();
    regs.rxsel = 3;
    regs.disable_init();
    assert!(!regs.init && !regs.cce);
    assert_eq!(regs.rxsel, 3);
    regs.enable_init();
    assert!(regs.init && regs.cce);
    assert_eq!(regs.rxsel, 3);
}

/// Runs a mode switch against a register that takes every write as it is.
fn run_switch(mut switch: ModeSwitch, start: u32) -> (u32, usize) {
    let mut cccr = start;
    let mut steps = 0usize;
    loop {
        steps += 1;
        match switch.step(cccr) {
            CccrAction::Write(v) => cccr = v,
            CccrAction::Done => return (cccr, steps),
        }
        assert!(steps < 16);
    }
}

#[test]
fn entering_configuration_from_reset_sets_init_then_cce() {
    let mut switch = ModeSwitch::enter_configuration(0);
    assert_eq!(switch.phase(), ModeSwitchPhase::Enter);
    assert_eq!(switch.step(0), CccrAction::Write(CCCR_INIT));
    assert_eq!(switch.step(CCCR_INIT), CccrAction::Write(CCCR_INIT | CCCR_CCE));
    assert_eq!(switch.step(CCCR_INIT | CCCR_CCE), CccrAction::Done);
    assert_eq!(switch.phase(), ModeSwitchPhase::Done);
}

#[test]
fn entering_configuration_resets_a_node_left_initialising() {
    let start = 0xF0 | CCCR_INIT | CCCR_CCE;
    let mut switch = ModeSwitch::enter_configuration(start);
    assert_eq!(switch.phase(), ModeSwitchPhase::Leave { then_enter: true });
    assert_eq!(switch.step(start), CccrAction::Write(0xF0 | CCCR_INIT));
    assert_eq!(switch.step(0xF0 | CCCR_INIT), CccrAction::Write(0xF0));
    assert_eq!(switch.step(0xF0), CccrAction::Write(0xF0 | CCCR_INIT));
    let (end, steps) = run_switch(ModeSwitch::enter_configuration(start), start);
    assert_eq!(end, start);
    assert_eq!(steps, 5);
}

#[test]
fn writes_that_do_not_stick_are_repeated() {
    let mut switch = ModeSwitch::enter_configuration(0);
    assert_eq!(switch.step(0), CccrAction::Write(CCCR_INIT));
    assert_eq!(switch.step(0), CccrAction::Write(CCCR_INIT));
}

#[test]
fn leaving_configuration_clears_cce_then_init() {
    let mut switch = ModeSwitch::leave_configuration();
    assert_eq!(switch.step(CCCR_INIT | CCCR_CCE), CccrAction::Write(CCCR_INIT));
    assert_eq!(switch.step(CCCR_INIT), CccrAction::Write(0));
    assert_eq!(switch.step(0), CccrAction::Done);
    let (end, _) = run_switch(ModeSwitch::leave_configuration(), 0x30 | CCCR_CCE);
    assert_eq!(end, 0x30);
}

#[test]
fn finished_sequences_record_their_outcome() {
    let clock = clock_enabled(NodeId::Node1);
    assert_eq!(clock.node(), NodeId::Node1);
    assert_eq!(clock.phase(), ClockEnablePhase::Done(true));
    let mode = configuring();
    assert!(mode.entering());
    assert_eq!(mode.phase(), ModeSwitchPhase::Done);
    assert!(!ModeSwitch::leave_configuration().entering());
}

#[test]
fn acquire_leaves_the_node_unchanged() {
    let (module, mut builder) = Module::new();
    let mem = builder.take::<CanTxFrame<BufferSize8>>(2).unwrap();
    let (_m, node) = start_node0(module);
    let mut node = node.connect_internal_loopback().set_tx(mem).finalize();
    let before = node.registers();
    assert_eq!(node.acquire_transmit_buffer(0).map(|b| b.index()), Some(0));
    assert_eq!(node.registers(), before);
    assert_eq!(node.acquire_transmit_buffer(0).map(|b| b.index()), Some(0));
}
