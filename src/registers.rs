use vstd::prelude::*;

verus! {

/// Value of the endianness test register of every M_CAN core.
pub const CORE_ENDIANNESS_SENTINEL: u32 = 0x8765_4321;

/// Core release this driver is written for.
pub const SUPPORTED_CORE_RELEASE: u8 = 3;

/// Interrupt flag: a message was stored in a dedicated RX buffer.
pub const IR_DRX: u32 = 0x0008_0000;

/// Interrupt flag: transmission completed.
pub const IR_TC: u32 = 0x0000_0200;

/// Interrupt flag: transmission cancellation finished.
pub const IR_TCF: u32 = 0x0000_0400;

/// Bit `i` of a 32-bit register.
pub open spec fn bit(x: u32, i: u32) -> bool {
    (x >> i) & 1 == 1
}

/// The mode and handshake bits of the CC control register.
#[derive(Clone, Copy, Debug, PartialEq, Eq, Structural)]
pub struct Cccr {
    /// Initialization: set while the core is in its protected init state.
    pub init: bool,
    /// Configuration change enable.
    pub cce: bool,
    /// Restricted operation mode.
    pub restricted_op: bool,
    /// Clock stop acknowledge.
    pub csa: bool,
    /// Clock stop request.
    pub csr: bool,
    /// Bus monitoring mode.
    pub mon: bool,
    /// Automatic retransmission disabled.
    pub dar: bool,
    /// Test mode enable.
    pub test: bool,
    /// FD operation enable.
    pub fdoe: bool,
    /// Bit rate switching enable.
    pub brse: bool,
    /// Protocol exception handling disabled.
    pub pxhd: bool,
    /// Edge filtering during bus integration.
    pub efbi: bool,
    /// Transmit pause.
    pub txp: bool,
    /// Non-ISO operation.
    pub niso: bool,
}

/// Hardware fields of a bit timing register: each one less than the count
/// of quanta it stands for.
#[derive(Clone, Copy, Debug, PartialEq, Eq, Structural)]
pub struct BitTimingFields {
    pub brp: u16,
    pub tseg1: u8,
    pub tseg2: u8,
    pub sjw: u8,
}

/// Start address and element count of a region, as a region register holds it.
#[derive(Clone, Copy, Debug, PartialEq, Eq, Structural)]
pub struct RegionConfig {
    pub start: u16,
    pub size: u8,
}

/// Status of a receive FIFO.
#[derive(Clone, Copy, Debug, PartialEq, Eq, Structural)]
pub struct RxFifoStatus {
    /// Number of elements stored.
    pub fill_level: u8,
    /// Index of the oldest element.
    pub get_index: u8,
    /// A message was lost because the FIFO was full.
    pub message_lost: bool,
}

/// The control registers of one channel, field by field: a reading of the
/// hardware with the driver's writes on top. The driver never assumes that
/// the hardware has acted on a write; the acknowledgement bits (clock stop,
/// init, cancellation finished) come only from a fresh reading handed to a
/// poll step. The request registers (`txbar`, `txbcr`, the FIFO releases)
/// hold what is to be written and read back as zero.
#[derive(Clone, Copy, Debug, PartialEq, Eq, Structural)]
pub struct Registers {
    pub endn: u32,
    pub crel_rel: u8,
    pub cccr: Cccr,
    pub test_lbck: bool,
    pub nbtp: BitTimingFields,
    pub dbtp: BitTimingFields,
    pub dbtp_tdc: bool,
    pub ckdiv: u8,
    pub tscc_tcp: u8,
    pub tscc_tss: u8,
    pub gfc_anfs: u8,
    pub gfc_anfe: u8,
    pub gfc_rrfs: bool,
    pub gfc_rrfe: bool,
    pub ils: u32,
    pub ir: u32,
    pub sidfc: RegionConfig,
    pub xidfc: RegionConfig,
    pub rxf0c: RegionConfig,
    pub rxf1c: RegionConfig,
    pub rxbc_rbsa: u16,
    pub rxesc_rbds: u8,
    pub rxesc_f0ds: u8,
    pub rxesc_f1ds: u8,
    pub txefc: RegionConfig,
    pub txbc_tbsa: u16,
    pub txbc_ndtb: u8,
    pub txbc_tfqs: u8,
    pub txesc_tbds: u8,
    pub tttmc: RegionConfig,
    /// Transmission request pending, one bit per transmit buffer.
    pub txbrp: u32,
    /// Transmission occurred, one bit per transmit buffer.
    pub txbto: u32,
    /// Cancellation finished, one bit per transmit buffer.
    pub txbcf: u32,
    /// The transmit FIFO or queue is full.
    pub txfqs_full: bool,
    pub rxf0s: RxFifoStatus,
    pub rxf1s: RxFifoStatus,
    /// Add requests to write, one bit per transmit buffer.
    pub txbar: u32,
    /// Cancellation requests to write, one bit per transmit buffer.
    pub txbcr: u32,
    /// RX FIFO 0 element to release, where `rxf0_release` is set.
    pub rxf0a: u8,
    pub rxf0_release: bool,
    /// RX FIFO 1 element to release, where `rxf1_release` is set.
    pub rxf1a: u8,
    pub rxf1_release: bool,
}

pub(crate) proof fn lemma_bit_set(x: u32, i: u32, j: u32)
    requires
        i < 32,
        j < 32,
    ensures
        bit(x | (1u32 << i), j) == (j == i || bit(x, j)),
{
    assert(((x | (1u32 << i)) >> j) & 1 == 1 <==> (j == i || (x >> j) & 1 == 1)) by (bit_vector)
        requires
            i < 32,
            j < 32,
    ;
}

pub(crate) proof fn lemma_bit_clear(x: u32, i: u32, j: u32)
    requires
        i < 32,
        j < 32,
    ensures
        bit(x & !(1u32 << i), j) == (j != i && bit(x, j)),
{
    assert(((x & !(1u32 << i)) >> j) & 1 == 1 <==> (j != i && (x >> j) & 1 == 1)) by (bit_vector)
        requires
            i < 32,
            j < 32,
    ;
}

/// Register with bit `i` set.
pub open spec fn with_bit(x: u32, i: u32) -> u32 {
    x | (1u32 << i)
}

/// Register with bit `i` cleared.
pub open spec fn without_bit(x: u32, i: u32) -> u32 {
    x & !(1u32 << i)
}

impl Registers {
    /// The registers of a core just out of reset: in its init state, clock
    /// stop not requested, nothing configured.
    pub fn reset_value() -> (r: Registers)
        ensures
            r.endn == CORE_ENDIANNESS_SENTINEL,
            r.crel_rel == SUPPORTED_CORE_RELEASE,
            r.cccr.init,
            !r.cccr.csr,
            !r.cccr.csa,
            r.txbrp == 0,
            r.txbar == 0,
            r.txbcr == 0,
    {
        let zero = RegionConfig { start: 0, size: 0 };
        let fifo = RxFifoStatus { fill_level: 0, get_index: 0, message_lost: false };
        let timing = BitTimingFields { brp: 0, tseg1: 0, tseg2: 0, sjw: 0 };
        Registers {
            endn: CORE_ENDIANNESS_SENTINEL,
            crel_rel: SUPPORTED_CORE_RELEASE,
            cccr: Cccr {
                init: true,
                cce: false,
                restricted_op: false,
                csa: false,
                csr: false,
                mon: false,
                dar: false,
                test: false,
                fdoe: false,
                brse: false,
                pxhd: false,
                efbi: false,
                txp: false,
                niso: false,
            },
            test_lbck: false,
            nbtp: timing,
            dbtp: timing,
            dbtp_tdc: false,
            ckdiv: 0,
            tscc_tcp: 0,
            tscc_tss: 0,
            gfc_anfs: 0,
            gfc_anfe: 0,
            gfc_rrfs: false,
            gfc_rrfe: false,
            ils: 0,
            ir: 0,
            sidfc: zero,
            xidfc: zero,
            rxf0c: zero,
            rxf1c: zero,
            rxbc_rbsa: 0,
            rxesc_rbds: 0,
            rxesc_f0ds: 0,
            rxesc_f1ds: 0,
            txefc: zero,
            txbc_tbsa: 0,
            txbc_ndtb: 0,
            txbc_tfqs: 0,
            txesc_tbds: 0,
            tttmc: zero,
            txbrp: 0,
            txbto: 0,
            txbcf: 0,
            txfqs_full: false,
            rxf0s: fifo,
            rxf1s: fifo,
            txbar: 0,
            txbcr: 0,
            rxf0a: 0,
            rxf0_release: false,
            rxf1a: 0,
            rxf1_release: false,
        }
    }

    /// Registers after a write of the init bit.
    pub open spec fn init_requested(self, v: bool) -> Registers {
        Registers { cccr: Cccr { init: v, ..self.cccr }, ..self }
    }

    /// Registers after a write of the clock stop request bit.
    pub open spec fn clock_stop_requested(self, v: bool) -> Registers {
        Registers { cccr: Cccr { csr: v, ..self.cccr }, ..self }
    }

    /// Registers after an add request for transmit buffer `i`.
    pub open spec fn add_requested(self, i: u32) -> Registers {
        Registers { txbar: with_bit(self.txbar, i), ..self }
    }

    /// Registers after a cancellation request for transmit buffer `i`.
    pub open spec fn cancel_requested(self, i: u32) -> Registers {
        Registers { txbcr: with_bit(self.txbcr, i), ..self }
    }

    /// Writes the init bit.
    pub fn request_init(&mut self, v: bool)
        ensures
            *final(self) == old(self).init_requested(v),
    {
        let c = Cccr { init: v, ..self.cccr };
        self.cccr = c;
    }

    /// Writes the clock stop request bit.
    pub fn request_clock_stop(&mut self, v: bool)
        ensures
            *final(self) == old(self).clock_stop_requested(v),
    {
        let c = Cccr { csr: v, ..self.cccr };
        self.cccr = c;
    }

    /// Sets the add request bit of transmit buffer `i`.
    pub fn request_add(&mut self, i: u32)
        requires
            i < 32,
        ensures
            *final(self) == old(self).add_requested(i),
    {
        let mask: u32 = 1u32 << i;
        let requests = self.txbar | mask;
        self.txbar = requests;
    }

    /// Sets the cancellation request bit of transmit buffer `i`.
    pub fn request_cancel(&mut self, i: u32)
        requires
            i < 32,
        ensures
            *final(self) == old(self).cancel_requested(i),
    {
        let mask: u32 = 1u32 << i;
        let requests = self.txbcr | mask;
        self.txbcr = requests;
    }

    /// Whether bit `i` of a per-buffer register is set.
    pub fn test_bit(x: u32, i: u32) -> (r: bool)
        requires
            i < 32,
        ensures
            r == bit(x, i),
    {
        (x >> i) & 1 == 1
    }
}

/// What a bounded poll waits for.
#[derive(Clone, Copy, Debug, PartialEq, Eq, Structural)]
pub enum Probe {
    /// The clock stop acknowledgement to equal a value.
    ClockStop(bool),
    /// The init bit to equal a value.
    Init(bool),
    /// The cancellation of a transmit buffer to be finished.
    CancelFinished(u32),
}

impl Probe {
    /// Whether the condition is not met yet.
    pub open spec fn busy(self, regs: Registers) -> bool {
        match self {
            Probe::ClockStop(v) => regs.cccr.csa != v,
            Probe::Init(v) => regs.cccr.init != v,
            Probe::CancelFinished(i) => !bit(regs.txbcf, i),
        }
    }

    /// Whether the condition is not met yet.
    pub fn is_busy(&self, regs: &Registers) -> (r: bool)
        requires
            self matches Probe::CancelFinished(i) ==> i < 32,
        ensures
            r == self.busy(*regs),
    {
        match self {
            Probe::ClockStop(v) => regs.cccr.csa != *v,
            Probe::Init(v) => regs.cccr.init != *v,
            Probe::CancelFinished(i) => !Registers::test_bit(regs.txbcf, *i),
        }
    }
}

} // verus!
