use mcan::asynchronous::{on_interrupt, WakeSlot};
use mcan::config::{FdCanConfig, Ir};
use mcan::registers::{BitTimingFields, IR_DRX, IR_TC};
use mcan::tx_rx::{Esi, FrameFormat};
use mcan::registers::Registers;
use mcan::tx_rx::{AbortStart, AbortStep};
use mcan::{Progress, Transition};
use mcan::{
    basic_layout, ChipFamily, ClockSource, ConfigMode, DataFieldSize, Error, ExtendedId, FdCan,
    FdCanInstance, FdCanInstances, Id, MessageRam, MessageRamBuilder, MessageRamGuard,
    NominalBitTiming, PoweredDownMode, RamBuilderInitialState, Rcc, StandardId, TxBufferIdx,
    TxFrameHeader,
};

fn rcc() -> Rcc {
    Rcc {
        fdcan_enabled: false,
        fdcan_reset: false,
        source: ClockSource::Pll1Q,
        hse_on: false,
        pll1_q_on: true,
        pll2_q_on: false,
    }
}

/// The manager, the shared RAM and the first builder of a fresh H7 chip.
fn chip() -> (FdCanInstances, MessageRam, MessageRamBuilder<RamBuilderInitialState>) {
    let mut guard = MessageRamGuard::new();
    FdCanInstances::new(&mut guard, ChipFamily::H7, rcc()).ok().unwrap()
}

fn powered_down(instance: FdCanInstance) -> (FdCan<PoweredDownMode>, MessageRam) {
    let (mut all, ram, _) = chip();
    (all.take_enabled(instance).ok().unwrap(), ram)
}

/// The hardware side: a core that has acted on every request by the next
/// reading.
fn respond(mut r: Registers) -> Registers {
    r.cccr.csa = r.cccr.csr;
    r.txbrp |= r.txbar;
    r.txbcf &= !r.txbar;
    r.txbar = 0;
    r.txbrp &= !r.txbcr;
    r.txbcf |= r.txbcr;
    r.txbcr = 0;
    if r.rxf0_release {
        r.rxf0s.fill_level -= 1;
        r.rxf0s.get_index = if r.rxf0s.get_index + 1 >= r.rxf0c.size { 0 } else { r.rxf0s.get_index + 1 };
        r.rxf0_release = false;
    }
    if r.rxf1_release {
        r.rxf1s.fill_level -= 1;
        r.rxf1s.get_index = if r.rxf1s.get_index + 1 >= r.rxf1c.size { 0 } else { r.rxf1s.get_index + 1 };
        r.rxf1_release = false;
    }
    r
}

/// Steps a transition to its end, each reading made by `hw` from what the
/// driver wrote.
fn run_with<F, N>(
    t: Transition<F, N>,
    ram: &mut MessageRam,
    hw: &mut dyn FnMut(Registers) -> Registers,
) -> Result<FdCan<N>, (Error, FdCan<F>)> {
    let mut t = t;
    loop {
        let observed = hw(t.registers());
        match t.step(observed, ram) {
            Progress::Waiting(next) => t = next,
            Progress::Done(c) => return Ok(c),
            Progress::Failed(e, c) => return Err((e, c)),
        }
    }
}

fn finish<F, N>(t: Transition<F, N>, ram: &mut MessageRam) -> Result<FdCan<N>, (Error, FdCan<F>)> {
    run_with(t, ram, &mut respond)
}

fn enter(
    p: FdCan<PoweredDownMode>,
    ram: &mut MessageRam,
) -> Result<FdCan<ConfigMode>, (Error, FdCan<PoweredDownMode>)> {
    match p.into_config_mode() {
        Ok(t) => finish(t, ram),
        Err(x) => Err(x),
    }
}

fn config_mode(instance: FdCanInstance) -> (FdCan<ConfigMode>, MessageRam) {
    let (p, mut ram) = powered_down(instance);
    (enter(p, &mut ram).ok().unwrap(), ram)
}

/// The channel's registers as the hardware shows them after its last writes.
fn sync<M>(c: &mut FdCan<M>) {
    let r = respond(c.registers());
    c.set_registers(r);
}

fn message_ram_builder(_family: ChipFamily) -> MessageRamBuilder<RamBuilderInitialState> {
    chip().2
}

/// A layout for both channels with three dedicated 8- or 16-byte buffers.
fn layouts(size: DataFieldSize) -> (mcan::MessageRamLayout, mcan::MessageRamLayout, Vec<TxBufferIdx>, Vec<TxBufferIdx>) {
    let mut b = message_ram_builder(ChipFamily::H7);
    let mut out = Vec::new();
    let mut handles = Vec::new();
    for _ in 0..2 {
        let t = b
            .allocate_11bit_filters(1).ok().unwrap()
            .allocate_29bit_filters(0).ok().unwrap()
            .allocate_rx_fifo0_buffers(2, size).ok().unwrap()
            .allocate_rx_fifo1_buffers(0, size).ok().unwrap()
            .skip_dedicated_buffers()
            .allocate_tx_event_fifo_buffers(0).ok().unwrap()
            .tx_buffer_element_size(size);
        let (i0, t) = t.allocate_dedicated_tx_buffer().ok().unwrap();
        let (i1, t) = t.allocate_dedicated_tx_buffer().ok().unwrap();
        let (layout, next) = t.allocate_fifo_or_queue(0).ok().unwrap().allocate_triggers(0).ok().unwrap();
        out.push(layout);
        handles.push(vec![i0, i1]);
        b = next;
    }
    let h2 = handles.pop().unwrap();
    let h1 = handles.pop().unwrap();
    (out[0], out[1], h1, h2)
}

fn normal_with(size: DataFieldSize) -> (FdCan<mcan::NormalOperationMode>, MessageRam, Vec<TxBufferIdx>, Vec<TxBufferIdx>) {
    let (l1, _l2, h1, h2) = layouts(size);
    let (mut c, mut ram) = config_mode(FdCanInstance::FdCan1);
    c.set_layout(l1);
    (finish(c.into_normal(), &mut ram).ok().unwrap(), ram, h1, h2)
}

fn std_header(raw: u16) -> TxFrameHeader {
    TxFrameHeader::fd_brs(Id::Standard(StandardId::new(raw).unwrap()))
}

#[test]
fn nominal_timing_register_values() {
    let (mut c, mut ram) = config_mode(FdCanInstance::FdCan1);
    let t = NominalBitTiming { prescaler: 1, seg1: 11, seg2: 4, sync_jump_width: 4 };
    c.set_nominal_bit_timing(t);
    assert_eq!(c.registers().nbtp, BitTimingFields { brp: 0, tseg1: 10, tseg2: 3, sjw: 3 });
    assert_eq!((t.nbrp(), t.ntseg1(), t.ntseg2(), t.nsjw()), (1, 11, 4, 4));
    assert_eq!(c.config().nbtr, t);
}

#[test]
fn config_entry_zeroes_message_ram() {
    let (mut p, mut ram) = powered_down(FdCanInstance::FdCan1);
    ram.store_word(7, 0xDEAD_BEEF);
    ram.store_word(2559, 1);
    assert_eq!(ram.words()[7], 0xDEAD_BEEF);
    let c = enter(p, &mut ram).ok().unwrap();
    assert!(ram.words().iter().all(|w| *w == 0));
    assert_eq!(ram.words().len(), 2560);
    assert!(c.registers().cccr.init);
    assert!(c.registers().cccr.cce);
}

#[test]
fn wrong_endianness_register_fails() {
    let (mut p, mut ram) = powered_down(FdCanInstance::FdCan2);
    let mut r = p.registers();
    r.endn = 0x1234_5678;
    p.set_registers(r);
    match enter(p, &mut ram) {
        Err((e, back)) => {
            assert_eq!(e, Error::CoreCommunicationFailed);
            assert_eq!(back.instance(), FdCanInstance::FdCan2);
        },
        Ok(_) => panic!("must fail"),
    }
}

#[test]
fn wrong_core_release_fails() {
    let (mut p, mut ram) = powered_down(FdCanInstance::FdCan1);
    let mut r = p.registers();
    r.crel_rel = 2;
    p.set_registers(r);
    assert!(matches!(enter(p, &mut ram), Err((Error::UnsupportedCoreVersion, _))));
}

#[test]
fn clock_stop_not_released_times_out() {
    let (p, mut ram) = powered_down(FdCanInstance::FdCan1);
    let mut r = p.registers();
    r.cccr.csa = true;
    let mut p = p;
    p.set_registers(r);
    let t = p.into_config_mode().ok().unwrap();
    let mut reads: u32 = 0;
    let mut stuck = |r: Registers| {
        reads += 1;
        Registers { cccr: mcan::registers::Cccr { csa: true, ..r.cccr }, ..r }
    };
    match run_with(t, &mut ram, &mut stuck) {
        Err((e, back)) => {
            assert_eq!(e, Error::Timeout);
            assert_eq!(back.instance(), FdCanInstance::FdCan1);
        },
        Ok(_) => panic!("must time out"),
    }
    assert_eq!(reads, 10_000_000);
}

#[test]
fn unresponsive_core_keeps_config_mode_on_exit() {
    let (c, mut ram) = config_mode(FdCanInstance::FdCan1);
    let t = c.into_normal();
    let mut frozen = |r: Registers| Registers { cccr: mcan::registers::Cccr { init: true, ..r.cccr }, ..r };
    match run_with(t, &mut ram, &mut frozen) {
        Err((e, back)) => {
            assert_eq!(e, Error::Timeout);
            assert!(back.registers().cccr.init);
        },
        Ok(_) => panic!("must time out"),
    }
}

#[test]
fn mode_bits_of_each_exit() {
    let (c, mut ram) = config_mode(FdCanInstance::FdCan1);
    let n = finish(c.into_normal(), &mut ram).ok().unwrap();
    let r = n.registers();
    assert!(!r.cccr.init && !r.cccr.cce && !r.cccr.test && !r.cccr.mon && !r.test_lbck);
    let (c, mut ram) = config_mode(FdCanInstance::FdCan1);
    let i = finish(c.into_internal_loopback(), &mut ram).ok().unwrap();
    let r = i.registers();
    assert!(r.cccr.test && r.cccr.mon && r.test_lbck);
    let (c, mut ram) = config_mode(FdCanInstance::FdCan1);
    let e = finish(c.into_external_loopback(), &mut ram).ok().unwrap();
    let r = e.registers();
    assert!(r.cccr.test && !r.cccr.mon && r.test_lbck);
    let (c, mut ram) = config_mode(FdCanInstance::FdCan1);
    let m = finish(c.into_bus_monitoring(), &mut ram).ok().unwrap();
    assert!(m.registers().cccr.mon);
    let (c, mut ram) = config_mode(FdCanInstance::FdCan1);
    let s = finish(c.into_restricted(), &mut ram).ok().unwrap();
    assert!(s.registers().cccr.restricted_op);
    let (c, mut ram) = config_mode(FdCanInstance::FdCan1);
    let t = finish(c.into_test_mode(), &mut ram).ok().unwrap();
    assert!(t.registers().cccr.test);
}

#[test]
fn config_applied_in_full_on_exit() {
    let (mut c, mut ram) = config_mode(FdCanInstance::FdCan1);
    let cfg = FdCanConfig::default()
        .set_automatic_retransmit(false)
        .set_transmit_pause(true)
        .set_protocol_exception_handling(false)
        .select_interrupt_line_1(Ir(0x55))
        .set_frame_transmit(mcan::config::FrameTransmissionConfig::AllowFdCanAndBRS);
    c.apply_config(cfg);
    let n = finish(c.into_normal(), &mut ram).ok().unwrap();
    let r = n.registers();
    assert!(r.cccr.dar && r.cccr.txp && r.cccr.pxhd && r.cccr.fdoe && r.cccr.brse);
    assert_eq!(r.ils, 0x55);
    assert!(!n.config().automatic_retransmit);
}

#[test]
fn cycle_zeroes_ram_again() {
    let (l1, _, h1, _) = layouts(DataFieldSize::_64Bytes);
    let (mut c, mut ram) = config_mode(FdCanInstance::FdCan1);
    c.set_layout(l1);
    let mut n = finish(c.into_normal(), &mut ram).ok().unwrap();
    assert_eq!(n.registers().txbc_ndtb, 2);
    assert_eq!(n.write_tx_buffer_pend(&mut ram, h1[0], std_header(3), &[9; 8]), Ok(()));
    assert!(ram.words().iter().any(|w| *w != 0));
    let p = finish(n.into_powered_down(), &mut ram).ok().unwrap();
    assert!(p.registers().cccr.csr && p.registers().cccr.csa);
    let mut c = enter(p, &mut ram).ok().unwrap();
    assert!(ram.words().iter().all(|w| *w == 0));
    assert!(c.registers().cccr.init && !c.registers().cccr.csa);
    c.set_layout(l1);
    let n = finish(c.into_normal(), &mut ram).ok().unwrap();
    assert_eq!(n.registers().sidfc.size, 1);
}

#[test]
fn powered_down_after_normal_cycle() {
    let (c, mut ram) = config_mode(FdCanInstance::FdCan1);
    let n = finish(c.into_normal(), &mut ram).ok().unwrap();
    let p = finish(n.into_powered_down(), &mut ram).ok().unwrap();
    assert!(p.registers().cccr.csr && p.registers().cccr.csa);
    assert!(enter(p, &mut ram).is_ok());
    let (c, _ram) = config_mode(FdCanInstance::FdCan2);
    let p = finish(c.into_powered_down(), &mut ram).ok().unwrap();
    assert!(p.registers().cccr.csa && !p.registers().cccr.init);
}

#[test]
fn no_mode_bit_survives_a_cycle() {
    let (c, mut ram) = config_mode(FdCanInstance::FdCan1);
    let r = finish(c.into_restricted(), &mut ram).ok().unwrap();
    assert!(r.registers().cccr.restricted_op);
    let p = finish(r.into_powered_down(), &mut ram).ok().unwrap();
    let c = enter(p, &mut ram).ok().unwrap();
    let n = finish(c.into_normal(), &mut ram).ok().unwrap();
    assert!(!n.registers().cccr.restricted_op && !n.registers().cccr.mon && !n.registers().cccr.test);
}

#[test]
fn power_down_from_operating_mode_times_out() {
    let (mut c, mut ram) = config_mode(FdCanInstance::FdCan1);
    c.apply_config(FdCanConfig::default().set_timeouts(50, 50));
    let n = finish(c.into_normal(), &mut ram).ok().unwrap();
    let mut never = |r: Registers| r;
    match run_with(n.into_powered_down(), &mut ram, &mut never) {
        Err((e, p)) => {
            assert_eq!(e, Error::Timeout);
            assert!(p.registers().cccr.csr && !p.registers().cccr.csa);
        },
        Ok(_) => panic!("must time out"),
    }
}

#[test]
fn message_ram_is_shared_by_channels() {
    let (mut all, mut ram, b) = chip();
    let b = b.allocate_11bit_filters(0).ok().unwrap();
    let (l1, b) = b
        .allocate_29bit_filters(0).ok().unwrap()
        .allocate_rx_fifo0_buffers(0, DataFieldSize::_8Bytes).ok().unwrap()
        .allocate_rx_fifo1_buffers(0, DataFieldSize::_8Bytes).ok().unwrap()
        .skip_dedicated_buffers()
        .allocate_tx_event_fifo_buffers(0).ok().unwrap()
        .tx_buffer_element_size(DataFieldSize::_8Bytes)
        .allocate_dedicated_tx_buffer().ok().unwrap().1
        .allocate_fifo_or_queue(0).ok().unwrap()
        .allocate_triggers(0).ok().unwrap();
    let t = b
        .allocate_11bit_filters(0).ok().unwrap()
        .allocate_29bit_filters(0).ok().unwrap()
        .allocate_rx_fifo0_buffers(0, DataFieldSize::_8Bytes).ok().unwrap()
        .allocate_rx_fifo1_buffers(0, DataFieldSize::_8Bytes).ok().unwrap()
        .skip_dedicated_buffers()
        .allocate_tx_event_fifo_buffers(0).ok().unwrap()
        .tx_buffer_element_size(DataFieldSize::_8Bytes);
    let (i2, t) = t.allocate_dedicated_tx_buffer().ok().unwrap();
    let (l2, _) = t.allocate_fifo_or_queue(0).ok().unwrap().allocate_triggers(0).ok().unwrap();
    let c1 = all.take_enabled(FdCanInstance::FdCan1).ok().unwrap();
    let c2 = all.take_enabled(FdCanInstance::FdCan2).ok().unwrap();
    let mut c1 = enter(c1, &mut ram).ok().unwrap();
    let mut c2 = enter(c2, &mut ram).ok().unwrap();
    c1.set_layout(l1);
    c2.set_layout(l2);
    let n1 = finish(c1.into_normal(), &mut ram).ok().unwrap();
    let mut n2 = finish(c2.into_normal(), &mut ram).ok().unwrap();
    assert_eq!(n2.write_tx_buffer_pend(&mut ram, i2, std_header(7), &[0xAB; 4]), Ok(()));
    let a2 = l2.region(mcan::Region::TxBuffers).0 as usize;
    assert_eq!(ram.words()[a2 + 2], 0xABAB_ABAB);
    let a1 = l1.region(mcan::Region::TxBuffers).0 as usize;
    assert_eq!(ram.words()[a1], 0);
    let p1 = finish(n1.into_powered_down(), &mut ram).ok().unwrap();
    let _c1 = enter(p1, &mut ram).ok().unwrap();
    assert_eq!(ram.words()[a2 + 2], 0);
}

#[test]
fn payload_rounded_up_and_zero_filled() {
    let (mut n, mut ram, h1, _) = normal_with(DataFieldSize::_16Bytes);
    let data = [1u8, 2, 3, 4, 5, 6, 7, 8, 9, 10];
    assert_eq!(n.write_tx_buffer_pend(&mut ram, h1[1], std_header(0x123), &data), Ok(()));
    let layout = n.config().layout;
    let (addr, _) = layout.region(mcan::Region::TxBuffers);
    let base = addr as usize + 6;
    let ram = ram.words();
    assert_eq!(ram[base], 0x123 << 18);
    assert_eq!((ram[base + 1] >> 16) & 0xF, 9);
    assert_eq!(ram[base + 1] & (1 << 21), 1 << 21);
    assert_eq!(ram[base + 2], 0x0403_0201);
    assert_eq!(ram[base + 3], 0x0807_0605);
    assert_eq!(ram[base + 4], 0x0000_0A09);
    assert_eq!(ram[base + 5], 0);
    assert!(n.is_idle());
    sync(&mut n);
    assert!(!n.is_idle());
    assert!(n.has_pending_frame(h1[1]));
}

#[test]
fn payload_over_element_size_rejected() {
    let (mut n, mut ram, h1, _) = normal_with(DataFieldSize::_8Bytes);
    let before = n.registers();
    let data = [0u8; 10];
    assert_eq!(n.write_tx_buffer_pend(&mut ram, h1[0], std_header(1), &data), Err(Error::WrongDataSize));
    assert_eq!(n.registers(), before);
    let data = [0u8; 65];
    let (mut m, mut ram, g1, _) = normal_with(DataFieldSize::_64Bytes);
    assert_eq!(m.write_tx_buffer_pend(&mut ram, g1[0], std_header(1), &data), Err(Error::WrongDataSize));
}

#[test]
fn extended_header_word() {
    let (mut n, mut ram, h1, _) = normal_with(DataFieldSize::_8Bytes);
    let header = TxFrameHeader {
        frame_format: FrameFormat::Classic,
        id: Id::Extended(ExtendedId::new(0x1ABC_DEF0).unwrap()),
        bit_rate_switching: false,
        error_state: Esi::EsiTransmittedRecessive,
        marker: Some(0x42),
    };
    assert_eq!(n.write_tx_buffer_pend(&mut ram, h1[0], header, &[0xFF; 8]), Ok(()));
    let (addr, _) = n.config().layout.region(mcan::Region::TxBuffers);
    let ram = ram.words();
    assert_eq!(ram[addr as usize], 0x8000_0000 | 0x4000_0000 | 0x1ABC_DEF0);
    assert_eq!(ram[addr as usize + 1], 0x4200_0000 | 0x0080_0000 | (8 << 16));
    assert_eq!(ram[addr as usize + 2], 0xFFFF_FFFF);
}

#[test]
fn pend_then_abort_returns_true() {
    let (mut n, mut ram, h1, _) = normal_with(DataFieldSize::_8Bytes);
    assert_eq!(n.write_tx_buffer_pend(&mut ram, h1[0], std_header(5), &[1, 2]), Ok(()));
    assert_eq!(n.registers().txbar, 1);
    sync(&mut n);
    assert!(n.has_pending_frame(h1[0]));
    assert_eq!(n.abort(h1[0]), Ok(AbortStart::Requested));
    assert_eq!(n.registers().txbcr, 1);
    let before = n.registers();
    assert_eq!(n.abort_step(h1[0], before, 0), Ok(AbortStep::Again));
    let observed = respond(before);
    assert_eq!(n.abort_step(h1[0], observed, 1), Ok(AbortStep::Finished(true)));
    assert!(!n.has_pending_frame(h1[0]));
    assert!(n.is_idle());
}

#[test]
fn abort_without_pending_returns_false() {
    let (mut n, _ram, h1, _) = normal_with(DataFieldSize::_8Bytes);
    let before = n.registers();
    assert_eq!(n.abort(h1[1]), Ok(AbortStart::NothingPending));
    assert_eq!(n.registers(), before);
}

#[test]
fn abort_after_transmission_returns_false() {
    let (mut n, mut ram, h1, _) = normal_with(DataFieldSize::_8Bytes);
    assert_eq!(n.write_tx_buffer_pend(&mut ram, h1[0], std_header(5), &[1]), Ok(()));
    sync(&mut n);
    assert_eq!(n.abort(h1[0]), Ok(AbortStart::Requested));
    let mut observed = respond(n.registers());
    observed.txbto = 1;
    assert_eq!(n.abort_step(h1[0], observed, 0), Ok(AbortStep::Finished(false)));
}

#[test]
fn abort_times_out_on_unresponsive_core() {
    let (mut c, mut ram) = config_mode(FdCanInstance::FdCan1);
    let (l1, _, h1, _) = layouts(DataFieldSize::_8Bytes);
    c.set_layout(l1);
    c.apply_config(c.config().set_timeouts(3, 3));
    let mut n = finish(c.into_normal(), &mut ram).ok().unwrap();
    assert_eq!(n.write_tx_buffer_pend(&mut ram, h1[0], std_header(5), &[1]), Ok(()));
    sync(&mut n);
    assert_eq!(n.abort(h1[0]), Ok(AbortStart::Requested));
    let stale = n.registers();
    assert_eq!(n.abort_step(h1[0], stale, 0), Ok(AbortStep::Again));
    assert_eq!(n.abort_step(h1[0], stale, 1), Ok(AbortStep::Again));
    assert_eq!(n.abort_step(h1[0], stale, 2), Err(Error::Timeout));
}

#[test]
fn foreign_handle_rejected() {
    let (mut n, mut ram, _h1, h2) = normal_with(DataFieldSize::_8Bytes);
    assert_eq!(h2[0].instance(), FdCanInstance::FdCan2);
    assert_eq!(n.write_tx_buffer_pend(&mut ram, h2[0], std_header(5), &[1]), Err(Error::WrongInstance));
    assert_eq!(n.abort(h2[1]), Err(Error::WrongInstance));
}

#[test]
fn handle_past_dedicated_buffers_rejected() {
    let (l1, _, h1, _) = layouts(DataFieldSize::_8Bytes);
    let (basic, _) = basic_layout(message_ram_builder(ChipFamily::H7)).ok().unwrap();
    let (mut c, mut ram) = config_mode(FdCanInstance::FdCan1);
    c.set_layout(basic);
    let mut n = finish(c.into_normal(), &mut ram).ok().unwrap();
    assert_eq!(l1.dedicated_tx_buffers(), 2);
    assert_eq!(n.write_tx_buffer_pend(&mut ram, h1[0], std_header(5), &[1]), Err(Error::TxBufferIndexOutOfRange));
    assert_eq!(n.abort(h1[0]), Err(Error::TxBufferIndexOutOfRange));
}

#[test]
fn clearing_flags() {
    let (mut n, mut ram, _, _) = normal_with(DataFieldSize::_8Bytes);
    let mut r = n.registers();
    r.ir = IR_TC | 0x400 | 1;
    n.set_registers(r);
    n.clear_transmission_completed_flag();
    assert_eq!(n.registers().ir, 0x400 | 1);
    n.clear_transmission_cancelled_flag();
    assert_eq!(n.registers().ir, 1);
    assert!(!n.tx_queue_is_full());
}

#[test]
fn interrupt_wakes_on_dedicated_rx() {
    let (mut n, mut ram, _, _) = normal_with(DataFieldSize::_8Bytes);
    let mut w = WakeSlot::new();
    let mut r = n.registers();
    r.ir = 0x1;
    n.set_registers(r);
    on_interrupt(&mut n, &mut w);
    assert!(!w.take());
    assert_eq!(n.registers().ir, 0);
    let mut r = n.registers();
    r.ir = IR_DRX | 0xC000_0001;
    n.set_registers(r);
    on_interrupt(&mut n, &mut w);
    assert_eq!(n.registers().ir, 0xC000_0000);
    on_interrupt(&mut n, &mut w);
    assert!(w.take());
    assert!(!w.take());
}

fn store_frame(ram: &mut MessageRam, addr: usize, words: &[u32]) {
    for (k, w) in words.iter().enumerate() {
        ram.store_word(addr + k, *w);
    }
}

#[test]
fn receive_drains_oldest_fd_frame() {
    let (mut n, mut ram, _, _) = normal_with(DataFieldSize::_16Bytes);
    let (fifo_addr, fifo_len) = n.config().layout.region(mcan::Region::RxFifo0);
    assert_eq!(fifo_len, 2);
    let header1 = (1 << 21) | (9 << 16);
    store_frame(&mut ram, fifo_addr as usize, &[0x1234, header1, 0x0403_0201, 0x0807_0605, 0x0C0B_0A09, 0xFFFF_FFFF]);
    let mut r = n.registers();
    r.rxf0s.fill_level = 1;
    r.rxf0s.message_lost = true;
    n.set_registers(r);
    let mut buf = vec![0xEEu8; 3];
    let info = n.receive(&ram, mcan::FIFONr::FIFO0, &mut buf).unwrap();
    assert_eq!(info.header0, 0x1234);
    assert_eq!(info.len, 12);
    assert!(info.overrun);
    assert_eq!(buf, vec![1, 2, 3, 4, 5, 6, 7, 8, 9, 10, 11, 12]);
    assert!(n.registers().rxf0_release);
    assert_eq!(n.registers().rxf0a, 0);
    sync(&mut n);
    assert_eq!(n.registers().rxf0s.fill_level, 0);
    assert_eq!(n.registers().rxf0s.get_index, 1);
    assert!(n.receive(&ram, mcan::FIFONr::FIFO0, &mut buf).is_none());
    assert_eq!(buf.len(), 12);
}

#[test]
fn receive_classic_frame_caps_length() {
    let (mut n, mut ram, _, _) = normal_with(DataFieldSize::_16Bytes);
    let (fifo_addr, _) = n.config().layout.region(mcan::Region::RxFifo0);
    let second = fifo_addr as usize + 6;
    store_frame(&mut ram, second, &[7, 12 << 16, 0x6463_6261, 0x6867_6665]);
    let mut r = n.registers();
    r.rxf0s.fill_level = 1;
    r.rxf0s.get_index = 1;
    n.set_registers(r);
    let mut buf = Vec::new();
    let info = n.receive(&ram, mcan::FIFONr::FIFO0, &mut buf).unwrap();
    assert_eq!(info.len, 8);
    assert!(!info.overrun);
    assert_eq!(buf, b"abcdefgh".to_vec());
    assert_eq!(n.registers().rxf0a, 1);
    sync(&mut n);
    assert_eq!(n.registers().rxf0s.get_index, 0);
}

#[test]
fn receive_from_empty_fifo() {
    let (mut n, mut ram, _, _) = normal_with(DataFieldSize::_16Bytes);
    let before = n.registers();
    let mut buf = vec![1u8];
    assert!(n.receive(&ram, mcan::FIFONr::FIFO1, &mut buf).is_none());
    assert_eq!(buf, vec![1u8]);
    assert_eq!(n.registers(), before);
}

#[test]
fn dlc_codes() {
    assert_eq!(mcan::Dlc::from_len(10).unwrap().len(), 12);
    assert_eq!(mcan::Dlc::from_len(12).unwrap().len(), 12);
    assert_eq!(mcan::Dlc::from_len(10).unwrap().reg_value(), 9);
    assert_eq!(mcan::Dlc::from_len(33).unwrap().len(), 48);
    assert_eq!(mcan::Dlc::from_len(64).unwrap().reg_value(), 15);
    assert!(mcan::Dlc::from_len(65).is_none());
    assert_eq!(mcan::Dlc::from_len(7).unwrap().reg_value(), 7);
    assert!(StandardId::new(0x800).is_none());
    assert!(ExtendedId::new(0x2000_0000).is_none());
}

#[test]
fn remaining_setters_write_their_fields() {
    let (mut c, mut ram) = config_mode(FdCanInstance::FdCan1);
    c.set_data_bit_timing(mcan::DataBitTiming {
        transceiver_delay_compensation: true,
        prescaler: 2,
        seg1: 13,
        seg2: 2,
        sync_jump_width: 1,
    });
    assert_eq!(c.registers().dbtp, BitTimingFields { brp: 1, tseg1: 12, tseg2: 1, sjw: 0 });
    assert!(c.registers().dbtp_tdc);
    c.set_non_iso_mode(true);
    c.set_edge_filtering(true);
    c.set_transmit_pause(true);
    c.set_automatic_retransmit(false);
    c.set_protocol_exception_handling(false);
    let r = c.registers();
    assert!(r.cccr.niso && r.cccr.efbi && r.cccr.txp && r.cccr.dar && r.cccr.pxhd);
    c.set_frame_transmit(mcan::config::FrameTransmissionConfig::AllowFdCan);
    assert!(c.registers().cccr.fdoe && !c.registers().cccr.brse);
    c.set_timestamp_counter_source(mcan::config::TimestampSource::Prescaler(
        mcan::config::TimestampPrescaler::_16,
    ));
    assert_eq!((c.registers().tscc_tcp, c.registers().tscc_tss), (16, 1));
    c.set_timestamp_counter_source(mcan::config::TimestampSource::FromTIM3);
    assert_eq!((c.registers().tscc_tcp, c.registers().tscc_tss), (0, 2));
    let f = mcan::config::GlobalFilter::reject_all()
        .set_handle_standard_frames(mcan::config::NonMatchingFilter::IntoRxFifo1)
        .set_reject_remote_extended_frames(false);
    c.set_global_filter(f);
    let r = c.registers();
    assert_eq!((r.gfc_anfs, r.gfc_anfe, r.gfc_rrfs, r.gfc_rrfe), (1, 3, true, false));
    c.select_interrupt_line_1(Ir(IR_TC));
    assert_eq!(c.registers().ils, IR_TC);
    assert_eq!(c.config().global_filter, f);
    let cfg = FdCanConfig::default()
        .set_clock_divider(mcan::config::ClockDivider::_30)
        .set_edge_filtering(true)
        .set_non_iso_mode(true)
        .set_transmit_pause(true)
        .set_timeouts(5, 3);
    assert_eq!(mcan::config::ClockDivider::_30.bits(), 15);
    c.apply_config(cfg);
    assert_eq!(c.registers().ckdiv, 15);
    assert_eq!(c.config().timeout_iterations_short, 3);
    assert_eq!(c.registers().nbtp, BitTimingFields { brp: 0, tseg1: 10, tseg2: 3, sjw: 3 });
}

#[test]
fn poll_budgets_decide_handshakes() {
    for (latency, budget, ok) in [(4u32, 5u32, true), (5, 5, false), (0, 0, true), (1, 1, false)] {
        let (mut c, mut ram) = config_mode(FdCanInstance::FdCan1);
        c.apply_config(FdCanConfig::default().set_timeouts(100, budget));
        let mut reads = 0u32;
        let mut late = |r: Registers| {
            reads += 1;
            let init = reads <= latency;
            Registers { cccr: mcan::registers::Cccr { init, ..r.cccr }, ..r }
        };
        let outcome = run_with(c.into_normal(), &mut ram, &mut late);
        assert_eq!(outcome.is_ok(), ok, "latency {} budget {}", latency, budget);
    }
}

#[test]
fn poll_step_counts_reads() {
    let r = Registers::reset_value();
    assert_eq!(mcan::util::poll_step(mcan::registers::Probe::Init(true), &r, 0, 0), mcan::PollStep::Done);
    assert_eq!(mcan::util::poll_step(mcan::registers::Probe::Init(false), &r, 0, 0), mcan::PollStep::TimedOut);
    assert_eq!(mcan::util::poll_step(mcan::registers::Probe::Init(false), &r, 0, 2), mcan::PollStep::Again);
    assert_eq!(mcan::util::poll_step(mcan::registers::Probe::Init(false), &r, 1, 2), mcan::PollStep::TimedOut);
}

