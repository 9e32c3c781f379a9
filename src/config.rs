use vstd::prelude::*;
use crate::fdcan::{
    mode_select, BusMonitoringMode, ConfigMode, ExternalLoopbackMode, FdCan, FdCanInstance,
    InternalLoopbackMode, ModeSelect,
    NormalOperationMode, PoweredDownMode, RestrictedOperationMode, TestMode,
};
use crate::message_ram_layout::{ChipFamily, MessageRamLayout};
use crate::registers::{BitTimingFields, Cccr, RegionConfig, Registers};
use crate::transition::{leave_writes, Phase, Transition};

verus! {

/// Nominal bit timing. Each field is a count of time quanta, one more than
/// the value its hardware field holds.
#[derive(Clone, Copy, Debug, PartialEq, Eq, Structural)]
pub struct NominalBitTiming {
    /// Divider of the kernel clock that gives the time quantum: 1 to 512.
    pub prescaler: u16,
    /// Time segment before the sample point: 1 to 255.
    pub seg1: u8,
    /// Time segment after the sample point: 1 to 128.
    pub seg2: u8,
    /// Resynchronization jump width: 1 to 128.
    pub sync_jump_width: u8,
}

impl NominalBitTiming {
    /// Every field within the range its hardware field can hold.
    pub open spec fn wf(self) -> bool {
        &&& 1 <= self.prescaler <= 512
        &&& 1 <= self.seg1
        &&& 1 <= self.seg2 <= 128
        &&& 1 <= self.sync_jump_width <= 128
    }

    /// Prescaler in quanta.
    pub fn nbrp(&self) -> (r: u16)
        ensures
            r == self.prescaler,
    {
        self.prescaler
    }

    /// Segment 1 in quanta.
    pub fn ntseg1(&self) -> (r: u8)
        ensures
            r == self.seg1,
    {
        self.seg1
    }

    /// Segment 2 in quanta.
    pub fn ntseg2(&self) -> (r: u8)
        ensures
            r == self.seg2,
    {
        self.seg2
    }

    /// Jump width in quanta.
    pub fn nsjw(&self) -> (r: u8)
        ensures
            r == self.sync_jump_width,
    {
        self.sync_jump_width
    }
}

impl Default for NominalBitTiming {
    /// 500 kbit/s from an 8 MHz kernel clock.
    fn default() -> (r: Self)
        ensures
            r == (NominalBitTiming { prescaler: 1, seg1: 11, seg2: 4, sync_jump_width: 4 }),
    {
        NominalBitTiming { prescaler: 1, seg1: 11, seg2: 4, sync_jump_width: 4 }
    }
}

/// Data phase bit timing of CAN FD frames with bit rate switching. Each field
/// is a count of time quanta, one more than its hardware field holds.
#[derive(Clone, Copy, Debug, PartialEq, Eq, Structural)]
pub struct DataBitTiming {
    /// Transceiver delay compensation.
    pub transceiver_delay_compensation: bool,
    /// Divider of the kernel clock that gives the time quantum: 1 to 32.
    pub prescaler: u8,
    /// Time segment before the sample point: 1 to 32.
    pub seg1: u8,
    /// Time segment after the sample point: 1 to 16.
    pub seg2: u8,
    /// Resynchronization jump width: 1 to 16.
    pub sync_jump_width: u8,
}

impl DataBitTiming {
    /// Every field within the range its hardware field can hold.
    pub open spec fn wf(self) -> bool {
        &&& 1 <= self.prescaler <= 32
        &&& 1 <= self.seg1 <= 32
        &&& 1 <= self.seg2 <= 16
        &&& 1 <= self.sync_jump_width <= 16
    }

    /// Prescaler in quanta.
    pub fn dbrp(&self) -> (r: u8)
        ensures
            r == self.prescaler,
    {
        self.prescaler
    }

    /// Segment 1 in quanta.
    pub fn dtseg1(&self) -> (r: u8)
        ensures
            r == self.seg1,
    {
        self.seg1
    }

    /// Segment 2 in quanta.
    pub fn dtseg2(&self) -> (r: u8)
        ensures
            r == self.seg2,
    {
        self.seg2
    }

    /// Jump width in quanta.
    pub fn dsjw(&self) -> (r: u8)
        ensures
            r == self.sync_jump_width,
    {
        self.sync_jump_width
    }
}

impl Default for DataBitTiming {
    /// 500 kbit/s from an 8 MHz kernel clock.
    fn default() -> (r: Self)
        ensures
            r == (DataBitTiming {
                transceiver_delay_compensation: false,
                prescaler: 1,
                seg1: 11,
                seg2: 4,
                sync_jump_width: 4,
            }),
    {
        DataBitTiming {
            transceiver_delay_compensation: false,
            prescaler: 1,
            seg1: 11,
            seg2: 4,
            sync_jump_width: 4,
        }
    }
}

/// Which frames the channel may transmit. A frame header may ask for FD
/// format or bit rate switching; this setting decides whether it gets it.
#[derive(Clone, Copy, Debug, PartialEq, Eq, Structural)]
pub enum FrameTransmissionConfig {
    /// Classic CAN frames only.
    ClassicCanOnly,
    /// CAN FD frames without bit rate switching.
    AllowFdCan,
    /// CAN FD frames with bit rate switching.
    AllowFdCanAndBRS,
}

/// Divider of the kernel clock of a channel.
#[derive(Clone, Copy, Debug, PartialEq, Eq, Structural)]
pub enum ClockDivider {
    /// Divide by 1
    _1,
    /// Divide by 2
    _2,
    /// Divide by 4
    _4,
    /// Divide by 6
    _6,
    /// Divide by 8
    _8,
    /// Divide by 10
    _10,
    /// Divide by 12
    _12,
    /// Divide by 14
    _14,
    /// Divide by 16
    _16,
    /// Divide by 18
    _18,
    /// Divide by 20
    _20,
    /// Divide by 22
    _22,
    /// Divide by 24
    _24,
    /// Divide by 26
    _26,
    /// Divide by 28
    _28,
    /// Divide by 30
    _30,
}

impl ClockDivider {
    /// Hardware code of the divider.
    pub open spec fn code(self) -> u8 {
        match self {
            ClockDivider::_1 => 0,
            ClockDivider::_2 => 1,
            ClockDivider::_4 => 2,
            ClockDivider::_6 => 3,
            ClockDivider::_8 => 4,
            ClockDivider::_10 => 5,
            ClockDivider::_12 => 6,
            ClockDivider::_14 => 7,
            ClockDivider::_16 => 8,
            ClockDivider::_18 => 9,
            ClockDivider::_20 => 10,
            ClockDivider::_22 => 11,
            ClockDivider::_24 => 12,
            ClockDivider::_26 => 13,
            ClockDivider::_28 => 14,
            ClockDivider::_30 => 15,
        }
    }

    /// Hardware code of the divider.
    pub fn bits(&self) -> (r: u8)
        ensures
            r == self.code(),
    {
        match self {
            ClockDivider::_1 => 0,
            ClockDivider::_2 => 1,
            ClockDivider::_4 => 2,
            ClockDivider::_6 => 3,
            ClockDivider::_8 => 4,
            ClockDivider::_10 => 5,
            ClockDivider::_12 => 6,
            ClockDivider::_14 => 7,
            ClockDivider::_16 => 8,
            ClockDivider::_18 => 9,
            ClockDivider::_20 => 10,
            ClockDivider::_22 => 11,
            ClockDivider::_24 => 12,
            ClockDivider::_26 => 13,
            ClockDivider::_28 => 14,
            ClockDivider::_30 => 15,
        }
    }
}

/// Prescaler of the timestamp counter.
#[derive(Clone, Copy, Debug, PartialEq, Eq, Structural)]
pub enum TimestampPrescaler {
    _1,
    _2,
    _3,
    _4,
    _5,
    _6,
    _7,
    _8,
    _9,
    _10,
    _11,
    _12,
    _13,
    _14,
    _15,
    _16,
}

impl TimestampPrescaler {
    /// The division factor, 1 to 16.
    pub open spec fn factor(self) -> u8 {
        match self {
            TimestampPrescaler::_1 => 1,
            TimestampPrescaler::_2 => 2,
            TimestampPrescaler::_3 => 3,
            TimestampPrescaler::_4 => 4,
            TimestampPrescaler::_5 => 5,
            TimestampPrescaler::_6 => 6,
            TimestampPrescaler::_7 => 7,
            TimestampPrescaler::_8 => 8,
            TimestampPrescaler::_9 => 9,
            TimestampPrescaler::_10 => 10,
            TimestampPrescaler::_11 => 11,
            TimestampPrescaler::_12 => 12,
            TimestampPrescaler::_13 => 13,
            TimestampPrescaler::_14 => 14,
            TimestampPrescaler::_15 => 15,
            TimestampPrescaler::_16 => 16,
        }
    }

    /// The division factor, 1 to 16.
    pub fn value(&self) -> (r: u8)
        ensures
            r == self.factor(),
            1 <= r <= 16,
    {
        match self {
            TimestampPrescaler::_1 => 1,
            TimestampPrescaler::_2 => 2,
            TimestampPrescaler::_3 => 3,
            TimestampPrescaler::_4 => 4,
            TimestampPrescaler::_5 => 5,
            TimestampPrescaler::_6 => 6,
            TimestampPrescaler::_7 => 7,
            TimestampPrescaler::_8 => 8,
            TimestampPrescaler::_9 => 9,
            TimestampPrescaler::_10 => 10,
            TimestampPrescaler::_11 => 11,
            TimestampPrescaler::_12 => 12,
            TimestampPrescaler::_13 => 13,
            TimestampPrescaler::_14 => 14,
            TimestampPrescaler::_15 => 15,
            TimestampPrescaler::_16 => 16,
        }
    }
}

/// Source of the timestamp counter.
#[derive(Clone, Copy, Debug, PartialEq, Eq, Structural)]
pub enum TimestampSource {
    /// The counter is disabled.
    Disabled,
    /// The kernel clock through a prescaler.
    Prescaler(TimestampPrescaler),
    /// An external timer.
    FromTIM3,
}

/// Where a frame goes that no filter element matches.
#[derive(Clone, Copy, Debug, PartialEq, Eq, Structural)]
pub enum NonMatchingFilter {
    /// Into RX FIFO 0.
    IntoRxFifo0,
    /// Into RX FIFO 1.
    IntoRxFifo1,
    /// Rejected.
    Reject,
}

impl NonMatchingFilter {
    /// Hardware code of the choice.
    pub open spec fn code(self) -> u8 {
        match self {
            NonMatchingFilter::IntoRxFifo0 => 0,
            NonMatchingFilter::IntoRxFifo1 => 1,
            NonMatchingFilter::Reject => 3,
        }
    }

    /// Hardware code of the choice.
    pub fn bits(&self) -> (r: u8)
        ensures
            r == self.code(),
    {
        match self {
            NonMatchingFilter::IntoRxFifo0 => 0b00,
            NonMatchingFilter::IntoRxFifo1 => 0b01,
            NonMatchingFilter::Reject => 0b11,
        }
    }
}

/// Handling of frames that match no filter element, and of remote frames.
#[derive(Clone, Copy, Debug, PartialEq, Eq, Structural)]
pub struct GlobalFilter {
    /// Non-matching frames with an 11-bit identifier.
    pub handle_standard_frames: NonMatchingFilter,
    /// Non-matching frames with a 29-bit identifier.
    pub handle_extended_frames: NonMatchingFilter,
    /// Reject remote frames with an 11-bit identifier.
    pub reject_remote_standard_frames: bool,
    /// Reject remote frames with a 29-bit identifier.
    pub reject_remote_extended_frames: bool,
}

impl GlobalFilter {
    /// Rejects every non-matching frame and every remote frame.
    pub fn reject_all() -> (r: Self)
        ensures
            r == (GlobalFilter {
                handle_standard_frames: NonMatchingFilter::Reject,
                handle_extended_frames: NonMatchingFilter::Reject,
                reject_remote_standard_frames: true,
                reject_remote_extended_frames: true,
            }),
    {
        GlobalFilter {
            handle_standard_frames: NonMatchingFilter::Reject,
            handle_extended_frames: NonMatchingFilter::Reject,
            reject_remote_standard_frames: true,
            reject_remote_extended_frames: true,
        }
    }

    /// Sets where non-matching standard frames go.
    pub fn set_handle_standard_frames(self, filter: NonMatchingFilter) -> (r: Self)
        ensures
            r == (GlobalFilter { handle_standard_frames: filter, ..self }),
    {
        let mut s = self;
        s.handle_standard_frames = filter;
        s
    }

    /// Sets where non-matching extended frames go.
    pub fn set_handle_extended_frames(self, filter: NonMatchingFilter) -> (r: Self)
        ensures
            r == (GlobalFilter { handle_extended_frames: filter, ..self }),
    {
        let mut s = self;
        s.handle_extended_frames = filter;
        s
    }

    /// Sets whether remote standard frames are rejected.
    pub fn set_reject_remote_standard_frames(self, filter: bool) -> (r: Self)
        ensures
            r == (GlobalFilter { reject_remote_standard_frames: filter, ..self }),
    {
        let mut s = self;
        s.reject_remote_standard_frames = filter;
        s
    }

    /// Sets whether remote extended frames are rejected.
    pub fn set_reject_remote_extended_frames(self, filter: bool) -> (r: Self)
        ensures
            r == (GlobalFilter { reject_remote_extended_frames: filter, ..self }),
    {
        let mut s = self;
        s.reject_remote_extended_frames = filter;
        s
    }
}

impl Default for GlobalFilter {
    /// Non-matching frames go to RX FIFO 0 and remote frames are accepted.
    fn default() -> (r: Self)
        ensures
            r == (GlobalFilter {
                handle_standard_frames: NonMatchingFilter::IntoRxFifo0,
                handle_extended_frames: NonMatchingFilter::IntoRxFifo0,
                reject_remote_standard_frames: false,
                reject_remote_extended_frames: false,
            }),
    {
        GlobalFilter {
            handle_standard_frames: NonMatchingFilter::IntoRxFifo0,
            handle_extended_frames: NonMatchingFilter::IntoRxFifo0,
            reject_remote_standard_frames: false,
            reject_remote_extended_frames: false,
        }
    }
}

/// Interrupt register value: one bit per interrupt source.
#[derive(Clone, Copy, Debug, PartialEq, Eq, Structural)]
pub struct Ir(pub u32);

/// Configuration of a channel. It is cached by the channel and written to the
/// registers in full on every exit from the configuration mode.
#[derive(Clone, Copy, Debug)]
pub struct FdCanConfig {
    /// Nominal bit timing.
    pub nbtr: NominalBitTiming,
    /// Data phase bit timing.
    pub dbtr: DataBitTiming,
    /// Retransmit frames that were not acknowledged.
    pub automatic_retransmit: bool,
    /// Pause for two bit times after each transmission.
    pub transmit_pause: bool,
    /// Frames that may be transmitted.
    pub frame_transmit: FrameTransmissionConfig,
    /// Frame format of the Bosch CAN FD specification 1.0.
    pub non_iso_mode: bool,
    /// Two consecutive dominant quanta to detect an edge for hard synchronization.
    pub edge_filtering: bool,
    /// Protocol exception handling.
    pub protocol_exception_handling: bool,
    /// Kernel clock divider.
    pub clock_divider: ClockDivider,
    /// Interrupts routed to line 1; the others go to line 0.
    pub interrupt_line_config: Ir,
    /// Source of the timestamp counter.
    pub timestamp_source: TimestampSource,
    /// Handling of non-matching and remote frames.
    pub global_filter: GlobalFilter,
    /// Layout of the channel's regions in the message RAM.
    pub layout: MessageRamLayout,
    /// Poll budget, in iterations, of the clock stop and abort handshakes.
    pub timeout_iterations_long: u32,
    /// Poll budget, in iterations, of the init handshakes.
    pub timeout_iterations_short: u32,
}

impl FdCanConfig {
    /// Timings within their hardware ranges and a layout that the builder
    /// can produce.
    pub open spec fn wf(self) -> bool {
        &&& self.nbtr.wf()
        &&& self.dbtr.wf()
        &&& self.layout.wf()
    }

    /// Sets the nominal bit timing.
    pub fn set_nominal_bit_timing(self, btr: NominalBitTiming) -> (r: Self)
        ensures
            r == (FdCanConfig { nbtr: btr, ..self }),
    {
        let mut s = self;
        s.nbtr = btr;
        s
    }

    /// Sets the data phase bit timing.
    pub fn set_data_bit_timing(self, btr: DataBitTiming) -> (r: Self)
        ensures
            r == (FdCanConfig { dbtr: btr, ..self }),
    {
        let mut s = self;
        s.dbtr = btr;
        s
    }

    /// Enables or disables automatic retransmission of frames that were not acknowledged.
    pub fn set_automatic_retransmit(self, enabled: bool) -> (r: Self)
        ensures
            r == (FdCanConfig { automatic_retransmit: enabled, ..self }),
    {
        let mut s = self;
        s.automatic_retransmit = enabled;
        s
    }

    /// Enables or disables the pause of two bit times after each transmission.
    pub fn set_transmit_pause(self, enabled: bool) -> (r: Self)
        ensures
            r == (FdCanConfig { transmit_pause: enabled, ..self }),
    {
        let mut s = self;
        s.transmit_pause = enabled;
        s
    }

    /// Selects the frame format of the Bosch CAN FD specification 1.0 instead of ISO 11898-1.
    pub fn set_non_iso_mode(self, enabled: bool) -> (r: Self)
        ensures
            r == (FdCanConfig { non_iso_mode: enabled, ..self }),
    {
        let mut s = self;
        s.non_iso_mode = enabled;
        s
    }

    /// Requires two consecutive dominant quanta to detect an edge for hard synchronization.
    pub fn set_edge_filtering(self, enabled: bool) -> (r: Self)
        ensures
            r == (FdCanConfig { edge_filtering: enabled, ..self }),
    {
        let mut s = self;
        s.edge_filtering = enabled;
        s
    }

    /// Sets which frames may be transmitted.
    pub fn set_frame_transmit(self, fts: FrameTransmissionConfig) -> (r: Self)
        ensures
            r == (FdCanConfig { frame_transmit: fts, ..self }),
    {
        let mut s = self;
        s.frame_transmit = fts;
        s
    }

    /// Enables or disables protocol exception handling.
    pub fn set_protocol_exception_handling(self, peh: bool) -> (r: Self)
        ensures
            r == (FdCanConfig { protocol_exception_handling: peh, ..self }),
    {
        let mut s = self;
        s.protocol_exception_handling = peh;
        s
    }

    /// Routes the given interrupts to line 1 and every other one to line 0.
    pub fn select_interrupt_line_1(self, l1int: Ir) -> (r: Self)
        ensures
            r == (FdCanConfig { interrupt_line_config: l1int, ..self }),
    {
        let mut s = self;
        s.interrupt_line_config = l1int;
        s
    }

    /// Sets the kernel clock divider.
    pub fn set_clock_divider(self, div: ClockDivider) -> (r: Self)
        ensures
            r == (FdCanConfig { clock_divider: div, ..self }),
    {
        let mut s = self;
        s.clock_divider = div;
        s
    }

    /// Sets the source of the timestamp counter.
    pub fn set_timestamp_source(self, tss: TimestampSource) -> (r: Self)
        ensures
            r == (FdCanConfig { timestamp_source: tss, ..self }),
    {
        let mut s = self;
        s.timestamp_source = tss;
        s
    }

    /// Sets the handling of non-matching and remote frames.
    pub fn set_global_filter(self, filter: GlobalFilter) -> (r: Self)
        ensures
            r == (FdCanConfig { global_filter: filter, ..self }),
    {
        let mut s = self;
        s.global_filter = filter;
        s
    }

    /// Sets the layout of the channel's regions.
    pub fn set_layout(self, layout: MessageRamLayout) -> (r: Self)
        ensures
            r == (FdCanConfig { layout, ..self }),
    {
        let mut s = self;
        s.layout = layout;
        s
    }

    /// Sets the two poll budgets.
    pub fn set_timeouts(self, long: u32, short: u32) -> (r: Self)
        ensures
            r == (FdCanConfig { timeout_iterations_long: long, timeout_iterations_short: short, ..self }),
    {
        let mut s = self;
        s.timeout_iterations_long = long;
        s.timeout_iterations_short = short;
        s
    }

    /// The configuration after reset for a chip family: default timings,
    /// automatic retransmission and protocol exception handling on, classic
    /// frames only, an empty layout.
    pub open spec fn reset_spec(family: ChipFamily) -> FdCanConfig {
        FdCanConfig {
            nbtr: NominalBitTiming { prescaler: 1, seg1: 11, seg2: 4, sync_jump_width: 4 },
            dbtr: DataBitTiming {
                transceiver_delay_compensation: false,
                prescaler: 1,
                seg1: 11,
                seg2: 4,
                sync_jump_width: 4,
            },
            automatic_retransmit: true,
            transmit_pause: false,
            frame_transmit: FrameTransmissionConfig::ClassicCanOnly,
            non_iso_mode: false,
            edge_filtering: false,
            protocol_exception_handling: true,
            clock_divider: ClockDivider::_1,
            interrupt_line_config: Ir(0),
            timestamp_source: TimestampSource::Disabled,
            global_filter: GlobalFilter {
                handle_standard_frames: NonMatchingFilter::IntoRxFifo0,
                handle_extended_frames: NonMatchingFilter::IntoRxFifo0,
                reject_remote_standard_frames: false,
                reject_remote_extended_frames: false,
            },
            layout: MessageRamLayout::empty_spec(family, FdCanInstance::FdCan1),
            timeout_iterations_long: 10_000_000,
            timeout_iterations_short: 1_000_000,
        }
    }

    /// The configuration after reset for a chip family.
    pub fn default_for(family: ChipFamily) -> (r: Self)
        ensures
            r == Self::reset_spec(family),
            r.wf(),
    {
        FdCanConfig {
            nbtr: NominalBitTiming::default(),
            dbtr: DataBitTiming::default(),
            automatic_retransmit: true,
            transmit_pause: false,
            frame_transmit: FrameTransmissionConfig::ClassicCanOnly,
            non_iso_mode: false,
            edge_filtering: false,
            protocol_exception_handling: true,
            clock_divider: ClockDivider::_1,
            interrupt_line_config: Ir(0),
            timestamp_source: TimestampSource::Disabled,
            global_filter: GlobalFilter::default(),
            layout: MessageRamLayout::empty(family, FdCanInstance::FdCan1),
            timeout_iterations_long: 10_000_000,
            timeout_iterations_short: 1_000_000,
        }
    }
}

impl Default for FdCanConfig {
    /// The configuration after reset for the H7 family.
    fn default() -> (r: Self)
        ensures
            r == FdCanConfig::reset_spec(ChipFamily::H7),
    {
        FdCanConfig::default_for(ChipFamily::H7)
    }
}

/// Hardware fields of a nominal bit timing.
pub open spec fn nominal_fields(t: NominalBitTiming) -> BitTimingFields {
    BitTimingFields {
        brp: (t.prescaler - 1) as u16,
        tseg1: (t.seg1 - 1) as u8,
        tseg2: (t.seg2 - 1) as u8,
        sjw: (t.sync_jump_width - 1) as u8,
    }
}

/// Hardware fields of a data bit timing.
pub open spec fn data_fields(t: DataBitTiming) -> BitTimingFields {
    BitTimingFields {
        brp: (t.prescaler - 1) as u16,
        tseg1: (t.seg1 - 1) as u8,
        tseg2: (t.seg2 - 1) as u8,
        sjw: (t.sync_jump_width - 1) as u8,
    }
}

/// FD operation and bit rate switching bits of a transmission setting.
pub open spec fn frame_transmit_bits(f: FrameTransmissionConfig) -> (bool, bool) {
    match f {
        FrameTransmissionConfig::ClassicCanOnly => (false, false),
        FrameTransmissionConfig::AllowFdCan => (true, false),
        FrameTransmissionConfig::AllowFdCanAndBRS => (true, true),
    }
}

/// Prescaler and select fields of the timestamp counter configuration.
pub open spec fn timestamp_fields(t: TimestampSource) -> (u8, u8) {
    match t {
        TimestampSource::Disabled => (0, 0),
        TimestampSource::Prescaler(p) => (p.factor(), 1),
        TimestampSource::FromTIM3 => (0, 2),
    }
}

/// The CC control register with the bits that a configuration sets.
pub open spec fn configured_cccr(c: Cccr, cfg: FdCanConfig) -> Cccr {
    Cccr {
        dar: !cfg.automatic_retransmit,
        txp: cfg.transmit_pause,
        fdoe: frame_transmit_bits(cfg.frame_transmit).0,
        brse: frame_transmit_bits(cfg.frame_transmit).1,
        niso: cfg.non_iso_mode,
        efbi: cfg.edge_filtering,
        pxhd: !cfg.protocol_exception_handling,
        ..c
    }
}

/// The registers with the regions of a layout.
pub open(crate) spec fn layout_registers(regs: Registers, l: MessageRamLayout) -> Registers {
    Registers {
        sidfc: RegionConfig { start: l.eleven_bit_filters_addr, size: l.eleven_bit_filters_len },
        xidfc: RegionConfig { start: l.twenty_nine_bit_filters_addr, size: l.twenty_nine_bit_filters_len },
        rxf0c: RegionConfig { start: l.rx_fifo0_addr, size: l.rx_fifo0_len },
        rxf1c: RegionConfig { start: l.rx_fifo1_addr, size: l.rx_fifo1_len },
        rxbc_rbsa: l.rx_buffers_addr,
        rxesc_rbds: l.rx_buffers_data_size.code(),
        rxesc_f0ds: l.rx_fifo0_data_size.code(),
        rxesc_f1ds: l.rx_fifo1_data_size.code(),
        txefc: RegionConfig { start: l.tx_event_fifo_addr, size: l.tx_event_fifo_len },
        txbc_tbsa: l.tx_buffers_addr,
        txbc_ndtb: l.tx_buffers_len,
        txbc_tfqs: l.tx_fifo_or_queue_len,
        txesc_tbds: l.tx_buffers_data_size.code(),
        tttmc: RegionConfig { start: l.trigger_memory_addr, size: l.trigger_memory_len },
        ..regs
    }
}

/// The registers after every field that a configuration covers is written.
pub open(crate) spec fn configured(regs: Registers, cfg: FdCanConfig) -> Registers {
    let r = layout_registers(regs, cfg.layout);
    Registers {
        cccr: configured_cccr(regs.cccr, cfg),
        nbtp: nominal_fields(cfg.nbtr),
        dbtp: data_fields(cfg.dbtr),
        dbtp_tdc: cfg.dbtr.transceiver_delay_compensation,
        ckdiv: cfg.clock_divider.code(),
        tscc_tcp: timestamp_fields(cfg.timestamp_source).0,
        tscc_tss: timestamp_fields(cfg.timestamp_source).1,
        gfc_anfs: cfg.global_filter.handle_standard_frames.code(),
        gfc_anfe: cfg.global_filter.handle_extended_frames.code(),
        gfc_rrfs: cfg.global_filter.reject_remote_standard_frames,
        gfc_rrfe: cfg.global_filter.reject_remote_extended_frames,
        ils: cfg.interrupt_line_config.0,
        ..r
    }
}

/// Hardware fields of a nominal bit timing.
pub fn nominal_register_fields(t: &NominalBitTiming) -> (r: BitTimingFields)
    requires
        t.wf(),
    ensures
        r == nominal_fields(*t),
{
    BitTimingFields {
        brp: t.nbrp() - 1,
        tseg1: t.ntseg1() - 1,
        tseg2: t.ntseg2() - 1,
        sjw: t.nsjw() - 1,
    }
}

/// Hardware fields of a data bit timing.
pub fn data_register_fields(t: &DataBitTiming) -> (r: BitTimingFields)
    requires
        t.wf(),
    ensures
        r == data_fields(*t),
{
    BitTimingFields {
        brp: (t.dbrp() - 1) as u16,
        tseg1: t.dtseg1() - 1,
        tseg2: t.dtseg2() - 1,
        sjw: t.dsjw() - 1,
    }
}

fn frame_transmit_flags(f: FrameTransmissionConfig) -> (r: (bool, bool))
    ensures
        r == frame_transmit_bits(f),
{
    match f {
        FrameTransmissionConfig::ClassicCanOnly => (false, false),
        FrameTransmissionConfig::AllowFdCan => (true, false),
        FrameTransmissionConfig::AllowFdCanAndBRS => (true, true),
    }
}

fn timestamp_register_fields(t: TimestampSource) -> (r: (u8, u8))
    ensures
        r == timestamp_fields(t),
{
    match t {
        TimestampSource::Disabled => (0, 0b00),
        TimestampSource::Prescaler(p) => (p.value(), 0b01),
        TimestampSource::FromTIM3 => (0, 0b10),
    }
}

fn with_layout(regs: Registers, l: &MessageRamLayout) -> (r: Registers)
    ensures
        r == layout_registers(regs, *l),
{
    Registers {
        sidfc: RegionConfig { start: l.eleven_bit_filters_addr, size: l.eleven_bit_filters_len },
        xidfc: RegionConfig { start: l.twenty_nine_bit_filters_addr, size: l.twenty_nine_bit_filters_len },
        rxf0c: RegionConfig { start: l.rx_fifo0_addr, size: l.rx_fifo0_len },
        rxf1c: RegionConfig { start: l.rx_fifo1_addr, size: l.rx_fifo1_len },
        rxbc_rbsa: l.rx_buffers_addr,
        rxesc_rbds: l.rx_buffers_data_size.config_register(),
        rxesc_f0ds: l.rx_fifo0_data_size.config_register(),
        rxesc_f1ds: l.rx_fifo1_data_size.config_register(),
        txefc: RegionConfig { start: l.tx_event_fifo_addr, size: l.tx_event_fifo_len },
        txbc_tbsa: l.tx_buffers_addr,
        txbc_ndtb: l.tx_buffers_len,
        txbc_tfqs: l.tx_fifo_or_queue_len,
        txesc_tbds: l.tx_buffers_data_size.config_register(),
        tttmc: RegionConfig { start: l.trigger_memory_addr, size: l.trigger_memory_len },
        ..regs
    }
}

/// The registers with every field that a configuration covers written.
pub fn configured_registers(regs: Registers, config: &FdCanConfig) -> (r: Registers)
    requires
        config.wf(),
    ensures
        r == configured(regs, *config),
{
        let (fdoe, brse) = frame_transmit_flags(config.frame_transmit);
        let (tcp, tss) = timestamp_register_fields(config.timestamp_source);
        let c = Cccr {
            dar: !config.automatic_retransmit,
            txp: config.transmit_pause,
            fdoe,
            brse,
            niso: config.non_iso_mode,
            efbi: config.edge_filtering,
            pxhd: !config.protocol_exception_handling,
            ..regs.cccr
        };
        let r = with_layout(regs, &config.layout);
        Registers {
            cccr: c,
            nbtp: nominal_register_fields(&config.nbtr),
            dbtp: data_register_fields(&config.dbtr),
            dbtp_tdc: config.dbtr.transceiver_delay_compensation,
            ckdiv: config.clock_divider.bits(),
            tscc_tcp: tcp,
            tscc_tss: tss,
            gfc_anfs: config.global_filter.handle_standard_frames.bits(),
            gfc_anfe: config.global_filter.handle_extended_frames.bits(),
            gfc_rrfs: config.global_filter.reject_remote_standard_frames,
            gfc_rrfe: config.global_filter.reject_remote_extended_frames,
            ils: config.interrupt_line_config.0,
            ..r
        }
}

impl<M> FdCan<M> {
    /// Writes the cached configuration in full, disables configuration
    /// writes and clears the init bit.
    pub(crate) fn write_config_and_leave_init(&mut self)
        requires
            old(self).wf(),
        ensures
            final(self).regs() == leave_writes(old(self).regs(), old(self).cached()),
            final(self).cached() == old(self).cached(),
            final(self).channel() == old(self).channel(),
    {
        let config = self.config;
        let r1 = configured_registers(self.can, &config);
        let c = Cccr { cce: false, init: false, ..r1.cccr };
        self.can = Registers { cccr: c, ..r1 };
    }

}

impl FdCan<ConfigMode> {
    /// Writes every field of a configuration to the registers, whatever
    /// they held, and caches it.
    pub fn apply_config(&mut self, config: FdCanConfig)
        requires
            config.wf(),
            config.layout.family_spec() == old(self).cached().layout.family_spec(),
        ensures
            final(self).regs() == configured(old(self).regs(), config),
            final(self).cached() == config,
            final(self).channel() == old(self).channel(),
    {
        self.can = configured_registers(self.can, &config);
        self.config = config;
    }

    /// Writes the regions of a layout and caches it.
    pub fn set_layout(&mut self, layout: MessageRamLayout)
        requires
            layout.wf(),
            layout.family_spec() == old(self).cached().layout.family_spec(),
        ensures
            final(self).regs() == layout_registers(old(self).regs(), layout),
            final(self).cached() == (FdCanConfig { layout, ..old(self).cached() }),
            final(self).channel() == old(self).channel(),
    {
        self.can = with_layout(self.can, &layout);
        self.config.layout = layout;
    }

    /// Writes the nominal bit timing, each field one less than its count of quanta.
    pub fn set_nominal_bit_timing(&mut self, btr: NominalBitTiming)
        requires
            btr.wf(),
        ensures
            final(self).regs() == (Registers { nbtp: nominal_fields(btr), ..old(self).regs() }),
            final(self).cached() == (FdCanConfig { nbtr: btr, ..old(self).cached() }),
            final(self).channel() == old(self).channel(),
    {
        self.can.nbtp = nominal_register_fields(&btr);
        self.config.nbtr = btr;
    }

    /// Writes the data phase bit timing, each field one less than its count of quanta.
    pub fn set_data_bit_timing(&mut self, btr: DataBitTiming)
        requires
            btr.wf(),
        ensures
            final(self).regs() == (Registers { dbtp: data_fields(btr), dbtp_tdc: btr.transceiver_delay_compensation, ..old(self).regs() }),
            final(self).cached() == (FdCanConfig { dbtr: btr, ..old(self).cached() }),
            final(self).channel() == old(self).channel(),
    {
        self.can.dbtp = data_register_fields(&btr);
        self.can.dbtp_tdc = btr.transceiver_delay_compensation;
        self.config.dbtr = btr;
    }

    /// Enables or disables automatic retransmission.
    pub fn set_automatic_retransmit(&mut self, enabled: bool)
        ensures
            final(self).regs() == (Registers { cccr: Cccr { dar: !enabled, ..old(self).regs().cccr }, ..old(self).regs() }),
            final(self).cached() == (FdCanConfig { automatic_retransmit: enabled, ..old(self).cached() }),
            final(self).channel() == old(self).channel(),
    {
        let c = Cccr { dar: !enabled, ..self.can.cccr };
        self.can.cccr = c;
        self.config.automatic_retransmit = enabled;
    }

    /// Enables or disables the transmit pause.
    pub fn set_transmit_pause(&mut self, enabled: bool)
        ensures
            final(self).regs() == (Registers { cccr: Cccr { txp: enabled, ..old(self).regs().cccr }, ..old(self).regs() }),
            final(self).cached() == (FdCanConfig { transmit_pause: enabled, ..old(self).cached() }),
            final(self).channel() == old(self).channel(),
    {
        let c = Cccr { txp: enabled, ..self.can.cccr };
        self.can.cccr = c;
        self.config.transmit_pause = enabled;
    }

    /// Enables or disables the non-ISO frame format.
    pub fn set_non_iso_mode(&mut self, enabled: bool)
        ensures
            final(self).regs() == (Registers { cccr: Cccr { niso: enabled, ..old(self).regs().cccr }, ..old(self).regs() }),
            final(self).cached() == (FdCanConfig { non_iso_mode: enabled, ..old(self).cached() }),
            final(self).channel() == old(self).channel(),
    {
        let c = Cccr { niso: enabled, ..self.can.cccr };
        self.can.cccr = c;
        self.config.non_iso_mode = enabled;
    }

    /// Enables or disables edge filtering.
    pub fn set_edge_filtering(&mut self, enabled: bool)
        ensures
            final(self).regs() == (Registers { cccr: Cccr { efbi: enabled, ..old(self).regs().cccr }, ..old(self).regs() }),
            final(self).cached() == (FdCanConfig { edge_filtering: enabled, ..old(self).cached() }),
            final(self).channel() == old(self).channel(),
    {
        let c = Cccr { efbi: enabled, ..self.can.cccr };
        self.can.cccr = c;
        self.config.edge_filtering = enabled;
    }

    /// Enables or disables protocol exception handling.
    pub fn set_protocol_exception_handling(&mut self, enabled: bool)
        ensures
            final(self).regs() == (Registers { cccr: Cccr { pxhd: !enabled, ..old(self).regs().cccr }, ..old(self).regs() }),
            final(self).cached() == (FdCanConfig { protocol_exception_handling: enabled, ..old(self).cached() }),
            final(self).channel() == old(self).channel(),
    {
        let c = Cccr { pxhd: !enabled, ..self.can.cccr };
        self.can.cccr = c;
        self.config.protocol_exception_handling = enabled;
    }

    /// Sets which frames may be transmitted.
    pub fn set_frame_transmit(&mut self, fts: FrameTransmissionConfig)
        ensures
            final(self).regs() == (Registers { cccr: Cccr { fdoe: frame_transmit_bits(fts).0, brse: frame_transmit_bits(fts).1, ..old(self).regs().cccr }, ..old(self).regs() }),
            final(self).cached() == (FdCanConfig { frame_transmit: fts, ..old(self).cached() }),
            final(self).channel() == old(self).channel(),
    {
        let (fdoe, brse) = frame_transmit_flags(fts);
        let c = Cccr { fdoe, brse, ..self.can.cccr };
        self.can.cccr = c;
        self.config.frame_transmit = fts;
    }

    /// Routes the given interrupts to line 1 and every other one to line 0.
    pub fn select_interrupt_line_1(&mut self, l1int: Ir)
        ensures
            final(self).regs() == (Registers { ils: l1int.0, ..old(self).regs() }),
            final(self).cached() == (FdCanConfig { interrupt_line_config: l1int, ..old(self).cached() }),
            final(self).channel() == old(self).channel(),
    {
        self.can.ils = l1int.0;
        self.config.interrupt_line_config = l1int;
    }

    /// Configures the timestamp counter.
    pub fn set_timestamp_counter_source(&mut self, select: TimestampSource)
        ensures
            final(self).regs() == (Registers { tscc_tcp: timestamp_fields(select).0, tscc_tss: timestamp_fields(select).1, ..old(self).regs() }),
            final(self).cached() == (FdCanConfig { timestamp_source: select, ..old(self).cached() }),
            final(self).channel() == old(self).channel(),
    {
        let (tcp, tss) = timestamp_register_fields(select);
        self.can.tscc_tcp = tcp;
        self.can.tscc_tss = tss;
        self.config.timestamp_source = select;
    }

    /// Configures the handling of non-matching and remote frames.
    pub fn set_global_filter(&mut self, filter: GlobalFilter)
        ensures
            final(self).regs() == (Registers { gfc_anfs: filter.handle_standard_frames.code(), gfc_anfe: filter.handle_extended_frames.code(), gfc_rrfs: filter.reject_remote_standard_frames, gfc_rrfe: filter.reject_remote_extended_frames, ..old(self).regs() }),
            final(self).cached() == (FdCanConfig { global_filter: filter, ..old(self).cached() }),
            final(self).channel() == old(self).channel(),
    {
        self.can.gfc_anfs = filter.handle_standard_frames.bits();
        self.can.gfc_anfe = filter.handle_extended_frames.bits();
        self.can.gfc_rrfs = filter.reject_remote_standard_frames;
        self.can.gfc_rrfe = filter.reject_remote_extended_frames;
        self.config.global_filter = filter;
    }

    /// Starts the move to internal loopback: transmitted frames are received back, the bus is left alone: sets every mode bit as the mode needs it,
    /// writes the cached configuration in full, disables configuration
    /// writes and clears the init bit. The returned transition waits, within
    /// the short budget, for the init state to be left; on a timeout the
    /// channel comes back in the configuration mode.
    pub fn into_internal_loopback(self) -> (r: Transition<ConfigMode, InternalLoopbackMode>)
        requires
            self.wf(),
        ensures
            r.state().regs() == leave_writes(mode_select(self.regs(), ModeSelect::InternalLoopback), self.cached()),
            r.phase_spec() == Phase::LeaveInit,
            r.elapsed_spec() == 0,
            r.state().cached() == self.cached(),
            r.state().channel() == self.channel(),
            r.state().wf(),
    {
        let mut s = self;
        s.set_mode_select(ModeSelect::InternalLoopback);
        s.write_config_and_leave_init();
        Transition::new(s, Phase::LeaveInit, false)
    }

    /// Starts the move to external loopback: transmitted frames are received back and still driven on the bus: sets every mode bit as the mode needs it,
    /// writes the cached configuration in full, disables configuration
    /// writes and clears the init bit. The returned transition waits, within
    /// the short budget, for the init state to be left; on a timeout the
    /// channel comes back in the configuration mode.
    pub fn into_external_loopback(self) -> (r: Transition<ConfigMode, ExternalLoopbackMode>)
        requires
            self.wf(),
        ensures
            r.state().regs() == leave_writes(mode_select(self.regs(), ModeSelect::ExternalLoopback), self.cached()),
            r.phase_spec() == Phase::LeaveInit,
            r.elapsed_spec() == 0,
            r.state().cached() == self.cached(),
            r.state().channel() == self.channel(),
            r.state().wf(),
    {
        let mut s = self;
        s.set_mode_select(ModeSelect::ExternalLoopback);
        s.write_config_and_leave_init();
        Transition::new(s, Phase::LeaveInit, false)
    }

    /// Starts the move to restricted operation: sets every mode bit as the mode needs it,
    /// writes the cached configuration in full, disables configuration
    /// writes and clears the init bit. The returned transition waits, within
    /// the short budget, for the init state to be left; on a timeout the
    /// channel comes back in the configuration mode.
    pub fn into_restricted(self) -> (r: Transition<ConfigMode, RestrictedOperationMode>)
        requires
            self.wf(),
        ensures
            r.state().regs() == leave_writes(mode_select(self.regs(), ModeSelect::Restricted), self.cached()),
            r.phase_spec() == Phase::LeaveInit,
            r.elapsed_spec() == 0,
            r.state().cached() == self.cached(),
            r.state().channel() == self.channel(),
            r.state().wf(),
    {
        let mut s = self;
        s.set_mode_select(ModeSelect::Restricted);
        s.write_config_and_leave_init();
        Transition::new(s, Phase::LeaveInit, false)
    }

    /// Starts the move to normal operation: sets every mode bit as the mode needs it,
    /// writes the cached configuration in full, disables configuration
    /// writes and clears the init bit. The returned transition waits, within
    /// the short budget, for the init state to be left; on a timeout the
    /// channel comes back in the configuration mode.
    pub fn into_normal(self) -> (r: Transition<ConfigMode, NormalOperationMode>)
        requires
            self.wf(),
        ensures
            r.state().regs() == leave_writes(mode_select(self.regs(), ModeSelect::Normal), self.cached()),
            r.phase_spec() == Phase::LeaveInit,
            r.elapsed_spec() == 0,
            r.state().cached() == self.cached(),
            r.state().channel() == self.channel(),
            r.state().wf(),
    {
        let mut s = self;
        s.set_mode_select(ModeSelect::Normal);
        s.write_config_and_leave_init();
        Transition::new(s, Phase::LeaveInit, false)
    }

    /// Starts the move to bus monitoring: sets every mode bit as the mode needs it,
    /// writes the cached configuration in full, disables configuration
    /// writes and clears the init bit. The returned transition waits, within
    /// the short budget, for the init state to be left; on a timeout the
    /// channel comes back in the configuration mode.
    pub fn into_bus_monitoring(self) -> (r: Transition<ConfigMode, BusMonitoringMode>)
        requires
            self.wf(),
        ensures
            r.state().regs() == leave_writes(mode_select(self.regs(), ModeSelect::BusMonitoring), self.cached()),
            r.phase_spec() == Phase::LeaveInit,
            r.elapsed_spec() == 0,
            r.state().cached() == self.cached(),
            r.state().channel() == self.channel(),
            r.state().wf(),
    {
        let mut s = self;
        s.set_mode_select(ModeSelect::BusMonitoring);
        s.write_config_and_leave_init();
        Transition::new(s, Phase::LeaveInit, false)
    }

    /// Starts the move to the test mode: sets every mode bit as the mode needs it,
    /// writes the cached configuration in full, disables configuration
    /// writes and clears the init bit. The returned transition waits, within
    /// the short budget, for the init state to be left; on a timeout the
    /// channel comes back in the configuration mode.
    pub fn into_test_mode(self) -> (r: Transition<ConfigMode, TestMode>)
        requires
            self.wf(),
        ensures
            r.state().regs() == leave_writes(mode_select(self.regs(), ModeSelect::Test), self.cached()),
            r.phase_spec() == Phase::LeaveInit,
            r.elapsed_spec() == 0,
            r.state().cached() == self.cached(),
            r.state().channel() == self.channel(),
            r.state().wf(),
    {
        let mut s = self;
        s.set_mode_select(ModeSelect::Test);
        s.write_config_and_leave_init();
        Transition::new(s, Phase::LeaveInit, false)
    }

    /// Starts the move to power down: requests clock stop. The returned
    /// transition waits for it within the long budget, then writes the
    /// configuration, clears the init bit and waits, within the short
    /// budget, for the init state to be left. Clock stop is reached in the
    /// end whatever the waits saw, so the channel is powered down on either
    /// outcome.
    pub fn into_powered_down(self) -> (r: Transition<PoweredDownMode, PoweredDownMode>)
        requires
            self.wf(),
        ensures
            r.state().regs() == self.regs().clock_stop_requested(true),
            r.phase_spec() == Phase::StopClock,
            r.elapsed_spec() == 0,
            r.leaves_init(),
            r.state().cached() == self.cached(),
            r.state().channel() == self.channel(),
            r.state().wf(),
    {
        let mut s = self;
        s.can.request_clock_stop(true);
        Transition::new(s.into_mode(), Phase::StopClock, true)
    }
}

} // verus!
