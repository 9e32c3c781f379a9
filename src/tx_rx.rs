use vstd::prelude::*;
use crate::fdcan::{Error, FdCan, FdCanInstance, Receive, Transmit};
use crate::message_ram_layout::{DataFieldSize, FIFONr, MessageRamLayout, Region, TxBufferIdx};
use crate::registers::{bit, lemma_bit_set, Probe, Registers, RxFifoStatus, IR_TC, IR_TCF};
use crate::message_ram::MessageRam;
use crate::util::{poll_outcome, poll_step, PollStep};

verus! {

/// Data length code: the payload lengths that a CAN FD frame can carry.
#[derive(Clone, Copy, Debug, PartialEq, Eq, Structural)]
pub enum Dlc {
    _0Bytes,
    _1Bytes,
    _2Bytes,
    _3Bytes,
    _4Bytes,
    _5Bytes,
    _6Bytes,
    _7Bytes,
    _8Bytes,
    _12Bytes,
    _16Bytes,
    _20Bytes,
    _24Bytes,
    _32Bytes,
    _48Bytes,
    _64Bytes,
}

/// Payload length that carries `len` bytes: `len` itself up to eight, the
/// next of 12, 16, 20, 24, 32, 48 and 64 above; `None` past 64.
pub open spec fn dlc_step(len: nat) -> Option<nat> {
    if len <= 8 {
        Some(len)
    } else if len <= 12 {
        Some(12)
    } else if len <= 16 {
        Some(16)
    } else if len <= 20 {
        Some(20)
    } else if len <= 24 {
        Some(24)
    } else if len <= 32 {
        Some(32)
    } else if len <= 48 {
        Some(48)
    } else if len <= 64 {
        Some(64)
    } else {
        None
    }
}

impl Dlc {
    /// Payload length in bytes.
    pub open spec fn bytes(self) -> nat {
        match self {
            Dlc::_0Bytes => 0,
            Dlc::_1Bytes => 1,
            Dlc::_2Bytes => 2,
            Dlc::_3Bytes => 3,
            Dlc::_4Bytes => 4,
            Dlc::_5Bytes => 5,
            Dlc::_6Bytes => 6,
            Dlc::_7Bytes => 7,
            Dlc::_8Bytes => 8,
            Dlc::_12Bytes => 12,
            Dlc::_16Bytes => 16,
            Dlc::_20Bytes => 20,
            Dlc::_24Bytes => 24,
            Dlc::_32Bytes => 32,
            Dlc::_48Bytes => 48,
            Dlc::_64Bytes => 64,
        }
    }

    /// Four-bit code of the length in a frame header.
    pub open spec fn code(self) -> u8 {
        match self {
            Dlc::_0Bytes => 0,
            Dlc::_1Bytes => 1,
            Dlc::_2Bytes => 2,
            Dlc::_3Bytes => 3,
            Dlc::_4Bytes => 4,
            Dlc::_5Bytes => 5,
            Dlc::_6Bytes => 6,
            Dlc::_7Bytes => 7,
            Dlc::_8Bytes => 8,
            Dlc::_12Bytes => 9,
            Dlc::_16Bytes => 10,
            Dlc::_20Bytes => 11,
            Dlc::_24Bytes => 12,
            Dlc::_32Bytes => 13,
            Dlc::_48Bytes => 14,
            Dlc::_64Bytes => 15,
        }
    }

    /// Payload length in bytes.
    pub fn len(&self) -> (r: u8)
        ensures
            r as nat == self.bytes(),
            r <= 64,
    {
        match self {
            Dlc::_0Bytes => 0,
            Dlc::_1Bytes => 1,
            Dlc::_2Bytes => 2,
            Dlc::_3Bytes => 3,
            Dlc::_4Bytes => 4,
            Dlc::_5Bytes => 5,
            Dlc::_6Bytes => 6,
            Dlc::_7Bytes => 7,
            Dlc::_8Bytes => 8,
            Dlc::_12Bytes => 12,
            Dlc::_16Bytes => 16,
            Dlc::_20Bytes => 20,
            Dlc::_24Bytes => 24,
            Dlc::_32Bytes => 32,
            Dlc::_48Bytes => 48,
            Dlc::_64Bytes => 64,
        }
    }

    /// Four-bit code of the length in a frame header.
    pub fn reg_value(&self) -> (r: u8)
        ensures
            r == self.code(),
            r < 16,
    {
        match self {
            Dlc::_0Bytes => 0,
            Dlc::_1Bytes => 1,
            Dlc::_2Bytes => 2,
            Dlc::_3Bytes => 3,
            Dlc::_4Bytes => 4,
            Dlc::_5Bytes => 5,
            Dlc::_6Bytes => 6,
            Dlc::_7Bytes => 7,
            Dlc::_8Bytes => 8,
            Dlc::_12Bytes => 9,
            Dlc::_16Bytes => 10,
            Dlc::_20Bytes => 11,
            Dlc::_24Bytes => 12,
            Dlc::_32Bytes => 13,
            Dlc::_48Bytes => 14,
            Dlc::_64Bytes => 15,
        }
    }

    /// The shortest code whose payload length holds `len` bytes: `len`
    /// itself up to eight, the next step above; `None` past 64.
    pub fn from_len(len: usize) -> (r: Option<Dlc>)
        ensures
            r.is_some() <==> len <= 64,
            r.is_some() ==> Some(r.unwrap().bytes()) == dlc_step(len as nat),
    {
        match len {
            0 => Some(Dlc::_0Bytes),
            1 => Some(Dlc::_1Bytes),
            2 => Some(Dlc::_2Bytes),
            3 => Some(Dlc::_3Bytes),
            4 => Some(Dlc::_4Bytes),
            5 => Some(Dlc::_5Bytes),
            6 => Some(Dlc::_6Bytes),
            7 => Some(Dlc::_7Bytes),
            8 => Some(Dlc::_8Bytes),
            9..=12 => Some(Dlc::_12Bytes),
            13..=16 => Some(Dlc::_16Bytes),
            17..=20 => Some(Dlc::_20Bytes),
            21..=24 => Some(Dlc::_24Bytes),
            25..=32 => Some(Dlc::_32Bytes),
            33..=48 => Some(Dlc::_48Bytes),
            49..=64 => Some(Dlc::_64Bytes),
            _ => None,
        }
    }
}

/// An 11-bit identifier.
#[derive(Clone, Copy, Debug, PartialEq, Eq, Structural)]
pub struct StandardId(pub(crate) u16);

/// A 29-bit identifier.
#[derive(Clone, Copy, Debug, PartialEq, Eq, Structural)]
pub struct ExtendedId(pub(crate) u32);

impl StandardId {
    /// The identifier's value.
    pub open(crate) spec fn raw(self) -> u16 {
        self.0
    }

    /// The identifier with value `raw`, if it fits in 11 bits.
    pub fn new(raw: u16) -> (r: Option<StandardId>)
        ensures
            r.is_some() <==> raw <= 0x7FF,
            r.is_some() ==> r.unwrap().raw() == raw,
    {
        if raw <= 0x7FF {
            Some(StandardId(raw))
        } else {
            None
        }
    }

    /// The identifier's value.
    pub fn as_raw(&self) -> (r: u16)
        ensures
            r == self.raw(),
    {
        self.0
    }
}

impl ExtendedId {
    /// The identifier's value.
    pub open(crate) spec fn raw(self) -> u32 {
        self.0
    }

    /// The identifier with value `raw`, if it fits in 29 bits.
    pub fn new(raw: u32) -> (r: Option<ExtendedId>)
        ensures
            r.is_some() <==> raw <= 0x1FFF_FFFF,
            r.is_some() ==> r.unwrap().raw() == raw,
    {
        if raw <= 0x1FFF_FFFF {
            Some(ExtendedId(raw))
        } else {
            None
        }
    }

    /// The identifier's value.
    pub fn as_raw(&self) -> (r: u32)
        ensures
            r == self.raw(),
    {
        self.0
    }
}

/// A frame identifier, standard or extended.
#[derive(Clone, Copy, Debug, PartialEq, Eq, Structural)]
pub enum Id {
    Standard(StandardId),
    Extended(ExtendedId),
}

/// Classic or FD frame format.
#[derive(Clone, Copy, Debug, PartialEq, Eq, Structural)]
pub enum FrameFormat {
    Classic,
    FD,
}

/// Error state indicator of a transmitted FD frame.
#[derive(Clone, Copy, Debug, PartialEq, Eq, Structural)]
pub enum Esi {
    /// Dominant unless the node is error passive.
    EsiDependsOnErrorPassive,
    /// Always recessive.
    EsiTransmittedRecessive,
}

/// Header of a transmit request.
#[derive(Clone, Copy, Debug, PartialEq, Eq, Structural)]
pub struct TxFrameHeader {
    /// Classic or FD frame.
    pub frame_format: FrameFormat,
    /// Identifier.
    pub id: Id,
    /// Ask for bit rate switching; ignored unless the channel allows it.
    pub bit_rate_switching: bool,
    /// Error state indicator.
    pub error_state: Esi,
    /// Message marker copied to the TX event FIFO; with a marker the
    /// transmission is recorded there.
    pub marker: Option<u8>,
}

impl Id {
    /// The value fits the identifier's width.
    pub open spec fn wf(self) -> bool {
        match self {
            Id::Standard(s) => s.raw() <= 0x7FF,
            Id::Extended(e) => e.raw() <= 0x1FFF_FFFF,
        }
    }
}

impl TxFrameHeader {
    /// The identifier fits its width.
    pub open spec fn wf(self) -> bool {
        self.id.wf()
    }

    /// An FD frame with bit rate switching and no marker.
    pub fn fd_brs(id: Id) -> (r: Self)
        ensures
            r == (TxFrameHeader {
                frame_format: FrameFormat::FD,
                id,
                bit_rate_switching: true,
                error_state: Esi::EsiDependsOnErrorPassive,
                marker: Option::None,
            }),
    {
        TxFrameHeader {
            frame_format: FrameFormat::FD,
            id,
            bit_rate_switching: true,
            error_state: Esi::EsiDependsOnErrorPassive,
            marker: Option::None,
        }
    }
}

/// First header word of a transmit element: error state indicator in bit
/// 31, extended identifier flag in bit 30, a data frame (bit 29 clear), the
/// identifier below, a standard one in bits 28 to 18.
pub open spec fn tx_header_word0(h: TxFrameHeader) -> int {
    let esi: int = if h.error_state == Esi::EsiTransmittedRecessive { 1 } else { 0 };
    match h.id {
        Id::Standard(s) => esi * 0x8000_0000 + s.raw() * 0x4_0000,
        Id::Extended(e) => esi * 0x8000_0000 + 0x4000_0000 + e.raw(),
    }
}

/// Second header word of a transmit element: marker in bits 31 to 24, event
/// FIFO control in bit 23, FD format in bit 21, bit rate switching in bit 20
/// and the length code in bits 19 to 16.
pub open spec fn tx_header_word1(h: TxFrameHeader, code: u8) -> int {
    let mm: int = match h.marker {
        Some(m) => m as int,
        None => 0,
    };
    let efc: int = if h.marker.is_some() { 1 } else { 0 };
    let fdf: int = if h.frame_format == FrameFormat::FD { 1 } else { 0 };
    let brs: int = if h.bit_rate_switching { 1 } else { 0 };
    mm * 0x100_0000 + efc * 0x80_0000 + fdf * 0x20_0000 + brs * 0x10_0000 + code * 0x1_0000
}

/// Byte `j` of a payload, zero past its end.
pub open spec fn payload_byte(data: Seq<u8>, j: int) -> int {
    if 0 <= j < data.len() {
        data[j] as int
    } else {
        0
    }
}

/// Payload word `k`: bytes `4k` to `4k + 3` in little-endian order, the
/// bytes past the payload zero.
pub open spec fn payload_word(data: Seq<u8>, k: int) -> int {
    payload_byte(data, 4 * k) + payload_byte(data, 4 * k + 1) * 0x100 + payload_byte(data, 4 * k + 2)
        * 0x1_0000 + payload_byte(data, 4 * k + 3) * 0x100_0000
}

/// Where a transmit buffer element starts.
pub open(crate) spec fn tx_slot_addr(l: MessageRamLayout, slot: int) -> int {
    l.tx_buffers_addr + slot * l.tx_buffers_data_size.element_words()
}

/// Outcome of checking a transmit request: the payload length of its data
/// length code, or the error.
pub open(crate) spec fn tx_check(channel: FdCanInstance, l: MessageRamLayout, idx: TxBufferIdx, len: nat) -> Result<
    nat,
    Error,
> {
    if idx.owner() != channel {
        Err(Error::WrongInstance)
    } else if idx.slot() >= l.tx_buffers_len {
        Err(Error::TxBufferIndexOutOfRange)
    } else {
        match dlc_step(len) {
            None => Err(Error::WrongDataSize),
            Some(b) => if b > l.tx_buffers_data_size.bytes() {
                Err(Error::WrongDataSize)
            } else {
                Ok(b)
            },
        }
    }
}

/// The message RAM with a transmit element written at `addr`: the two header
/// words, then each payload word of the element's size.
pub open(crate) spec fn written_element(
    ram: Seq<u32>,
    addr: int,
    w0: int,
    w1: int,
    data: Seq<u8>,
    words: int,
) -> Seq<u32> {
    Seq::new(
        ram.len(),
        |i: int|
            if i == addr {
                w0 as u32
            } else if i == addr + 1 {
                w1 as u32
            } else if addr + 2 <= i < addr + 2 + words {
                payload_word(data, i - addr - 2) as u32
            } else {
                ram[i]
            },
    )
}

/// How an abort starts.
#[derive(Clone, Copy, Debug, PartialEq, Eq, Structural)]
pub enum AbortStart {
    /// No transmission was pending: nothing was written, and nothing was
    /// kept off the bus.
    NothingPending,
    /// Cancellation was requested; poll with [`FdCan::abort_step`].
    Requested,
}

/// Where an abort stands after one reading.
#[derive(Clone, Copy, Debug, PartialEq, Eq, Structural)]
pub enum AbortStep {
    /// The cancellation has not finished: read again.
    Again,
    /// The cancellation finished; whether the frame was kept off the bus
    /// (`false` where it was sent before the cancellation took effect).
    Finished(bool),
}

fn pack_word(data: &[u8], k: usize) -> (r: u32)
    requires
        k <= 16,
    ensures
        r as int == payload_word(data@, k as int),
{
    let j = 4 * k;
    let b0: u32 = if j < data.len() { data[j] as u32 } else { 0 };
    let b1: u32 = if j + 1 < data.len() { data[j + 1] as u32 } else { 0 };
    let b2: u32 = if j + 2 < data.len() { data[j + 2] as u32 } else { 0 };
    let b3: u32 = if j + 3 < data.len() { data[j + 3] as u32 } else { 0 };
    assert(b0 + b1 * 0x100 + b2 * 0x1_0000 + b3 * 0x100_0000 <= 0xFFFF_FFFF) by (nonlinear_arith)
        requires
            b0 <= 255,
            b1 <= 255,
            b2 <= 255,
            b3 <= 255,
    ;
    b0 + b1 * 0x100 + b2 * 0x1_0000 + b3 * 0x100_0000
}

fn header_word0(h: &TxFrameHeader) -> (r: u32)
    requires
        h.wf(),
    ensures
        r as int == tx_header_word0(*h),
{
    let esi: u32 = match h.error_state {
        Esi::EsiTransmittedRecessive => 1,
        Esi::EsiDependsOnErrorPassive => 0,
    };
    match h.id {
        Id::Standard(s) => esi * 0x8000_0000 + (s.0 as u32) * 0x4_0000,
        Id::Extended(e) => esi * 0x8000_0000 + 0x4000_0000 + e.0,
    }
}

fn header_word1(h: &TxFrameHeader, code: u8) -> (r: u32)
    requires
        code < 16,
    ensures
        r as int == tx_header_word1(*h, code),
{
    let mm: u32 = match h.marker {
        Some(m) => m as u32,
        None => 0,
    };
    let efc: u32 = if h.marker.is_some() { 1 } else { 0 };
    let fdf: u32 = match h.frame_format {
        FrameFormat::FD => 1,
        FrameFormat::Classic => 0,
    };
    let brs: u32 = if h.bit_rate_switching { 1 } else { 0 };
    mm * 0x100_0000 + efc * 0x80_0000 + fdf * 0x20_0000 + brs * 0x10_0000 + (code as u32) * 0x1_0000
}

impl<M: Transmit> FdCan<M> {
    /// Whether the transmit FIFO or queue is full.
    pub fn tx_queue_is_full(&self) -> (r: bool)
        ensures
            r == self.regs().txfqs_full,
    {
        self.can.txfqs_full
    }

    /// Writes a frame into a dedicated transmit buffer and requests its
    /// transmission. The handle must come from this channel and name a
    /// dedicated buffer of its layout; the payload is sent with the shortest
    /// data length code that holds it, which must fit the element size. The
    /// element's payload words past the payload are written with zeros.
    pub fn write_tx_buffer_pend(
        &mut self,
        ram: &mut MessageRam,
        idx: TxBufferIdx,
        tx_header: TxFrameHeader,
        data: &[u8],
    ) -> (r: Result<(), Error>)
        requires
            old(self).wf(),
            tx_header.wf(),
            old(ram).wf(),
            old(ram).family_spec() == old(self).cached().layout.family_spec(),
        ensures
            final(ram).wf(),
            final(ram).family_spec() == old(ram).family_spec(),
            match tx_check(old(self).channel(), old(self).cached().layout, idx, data@.len()) {
                Ok(b) => {
                    &&& r is Ok
                    &&& final(ram).contents() == written_element(
                        old(ram).contents(),
                        tx_slot_addr(old(self).cached().layout, idx.slot() as int),
                        tx_header_word0(tx_header),
                        tx_header_word1(tx_header, dlc_code_of(b)),
                        data@,
                        old(self).cached().layout.tx_buffers_data_size_spec().data_words() as int,
                    )
                    &&& final(self).regs() == old(self).regs().add_requested(idx.slot() as u32)
                },
                Err(e) => {
                    &&& r == Err::<(), Error>(e)
                    &&& final(ram).contents() == old(ram).contents()
                    &&& final(self).regs() == old(self).regs()
                },
            },
            final(self).cached() == old(self).cached(),
            final(self).channel() == old(self).channel(),
            final(self).wf(),
    {
        if idx.instance != self.instance {
            return Err(Error::WrongInstance);
        }
        let layout = self.config.layout;
        if layout.tx_buffers_len == 0 || idx.idx >= layout.tx_buffers_len {
            return Err(Error::TxBufferIndexOutOfRange);
        }
        let dlc = match Dlc::from_len(data.len()) {
            Some(d) => d,
            None => return Err(Error::WrongDataSize),
        };
        if dlc.len() > layout.tx_buffers_data_size.max_len() {
            return Err(Error::WrongDataSize);
        }
        proof {
            lemma_dlc_code(dlc);
        }
        let words = layout.tx_buffers_data_size.words() as usize;
        let element_words = words + 2;
        let slot = idx.idx as usize;
        proof {
            let l = layout;
            let total = l.tx_buffers_len + l.tx_fifo_or_queue_len;
            assert(l.len_of(Region::TxBuffers) == total);
            assert(l.end_of(Region::TxBuffers) <= l.family.ram_words_spec() - 4);
            assert((slot + 1) * element_words <= 4 * total * element_words) by (nonlinear_arith)
                requires
                    slot < total,
                    element_words >= 0,
            ;
            assert(slot * element_words + element_words == (slot + 1) * element_words) by (nonlinear_arith);
        }
        let addr = layout.tx_buffers_addr as usize + slot * element_words;
        let w0 = header_word0(&tx_header);
        let w1 = header_word1(&tx_header, dlc.reg_value());
        let ghost old_ram = ram.words@;
        assert(old_ram.len() <= 2560);
        ram.words.set(addr, w0);
        ram.words.set(addr + 1, w1);
        let mut k: usize = 0;
        while k < words
            invariant
                k <= words,
                words == layout.tx_buffers_data_size.data_words(),
                addr + 2 + words <= ram.words@.len(),
                ram.words@.len() == old_ram.len(),
                old_ram.len() <= 2560,
                ram.family == old(ram).family,
                self.can == old(self).can,
                self.config == old(self).config,
                self.instance == old(self).instance,
                layout == self.config.layout,
                ram.words@[addr as int] == w0,
                ram.words@[addr + 1] == w1,
                forall|i: int| addr + 2 <= i < addr + 2 + k ==> ram.words@[i] == payload_word(data@, i - addr - 2) as u32,
                forall|i: int| 0 <= i < ram.words@.len() && !(addr <= i < addr + 2 + words) ==> ram.words@[i] == old_ram[i],
            decreases words - k,
        {
            let v = pack_word(data, k);
            ram.words.set(addr + 2 + k, v);
            k += 1;
        }
        assert(ram.words@ =~= written_element(old_ram, addr as int, w0 as int, w1 as int, data@, words as int));
        self.can.request_add(idx.idx as u32);
        Ok(())
    }

    /// Whether transmit buffer `idx` has a pending transmission request.
    pub fn has_pending_frame(&self, idx: TxBufferIdx) -> (r: bool)
        requires
            idx.slot() < 32,
        ensures
            r == bit(self.regs().txbrp, idx.slot() as u32),
    {
        Registers::test_bit(self.can.txbrp, idx.idx as u32)
    }

    /// Starts aborting the transmission of a dedicated transmit buffer,
    /// from the latest reading of the registers. The handle must come from
    /// this channel (else `WrongInstance`) and name a dedicated buffer of its
    /// layout (else `TxBufferIndexOutOfRange`). With no transmission pending
    /// it writes nothing and returns `NothingPending`; otherwise it requests
    /// cancellation and returns `Requested`.
    pub fn abort(&mut self, idx: TxBufferIdx) -> (r: Result<AbortStart, Error>)
        requires
            old(self).wf(),
        ensures
            if idx.owner() != old(self).channel() {
                r == Err::<AbortStart, Error>(Error::WrongInstance) && final(self).regs() == old(self).regs()
            } else if idx.slot() >= old(self).cached().layout.tx_buffers_len_spec() {
                r == Err::<AbortStart, Error>(Error::TxBufferIndexOutOfRange) && final(self).regs() == old(self).regs()
            } else if !bit(old(self).regs().txbrp, idx.slot() as u32) {
                r == Ok::<AbortStart, Error>(AbortStart::NothingPending) && final(self).regs() == old(self).regs()
            } else {
                r == Ok::<AbortStart, Error>(AbortStart::Requested) && final(self).regs() == old(
                    self,
                ).regs().cancel_requested(idx.slot() as u32)
            },
            final(self).cached() == old(self).cached(),
            final(self).channel() == old(self).channel(),
            final(self).wf(),
    {
        if idx.instance != self.instance {
            return Err(Error::WrongInstance);
        }
        if idx.idx >= self.config.layout.tx_buffers_len {
            return Err(Error::TxBufferIndexOutOfRange);
        }
        proof {
            assert(self.config.layout.len_of(Region::TxBuffers) <= 32);
        }
        if !self.has_pending_frame(idx) {
            return Ok(AbortStart::NothingPending);
        }
        self.can.request_cancel(idx.idx as u32);
        Ok(AbortStart::Requested)
    }

    /// One poll of a requested abort on a fresh reading of the registers,
    /// within the long budget: `Again` while the cancellation has not
    /// finished, `Timeout` when the budget runs out, and once it has
    /// finished whether the frame was kept off the bus, from that reading's
    /// transmission occurred bit.
    pub fn abort_step(&mut self, idx: TxBufferIdx, observed: Registers, elapsed: u32) -> (r: Result<AbortStep, Error>)
        requires
            old(self).wf(),
        ensures
            if idx.owner() != old(self).channel() {
                r == Err::<AbortStep, Error>(Error::WrongInstance) && final(self).regs() == old(self).regs()
            } else if idx.slot() >= old(self).cached().layout.tx_buffers_len_spec() {
                r == Err::<AbortStep, Error>(Error::TxBufferIndexOutOfRange) && final(self).regs() == old(self).regs()
            } else {
                &&& final(self).regs() == observed
                &&& match poll_outcome(
                    Probe::CancelFinished(idx.slot() as u32),
                    observed,
                    elapsed,
                    old(self).cached().timeout_iterations_long,
                ) {
                    PollStep::Done => r == Ok::<AbortStep, Error>(AbortStep::Finished(!bit(observed.txbto, idx.slot() as u32))),
                    PollStep::Again => r == Ok::<AbortStep, Error>(AbortStep::Again),
                    PollStep::TimedOut => r == Err::<AbortStep, Error>(Error::Timeout),
                }
            },
            final(self).cached() == old(self).cached(),
            final(self).channel() == old(self).channel(),
            final(self).wf(),
    {
        if idx.instance != self.instance {
            return Err(Error::WrongInstance);
        }
        if idx.idx >= self.config.layout.tx_buffers_len {
            return Err(Error::TxBufferIndexOutOfRange);
        }
        proof {
            assert(self.config.layout.len_of(Region::TxBuffers) <= 32);
        }
        let slot = idx.idx as u32;
        self.can = observed;
        match poll_step(Probe::CancelFinished(slot), &observed, elapsed, self.config.timeout_iterations_long) {
            PollStep::Done => Ok(AbortStep::Finished(!Registers::test_bit(observed.txbto, slot))),
            PollStep::Again => Ok(AbortStep::Again),
            PollStep::TimedOut => Err(Error::Timeout),
        }
    }

    /// Whether no transmission is pending in any buffer.
    pub fn is_idle(&self) -> (r: bool)
        ensures
            r == (self.regs().txbrp == 0),
    {
        self.can.txbrp == 0
    }

    /// Clears the transmission completed flag.
    pub fn clear_transmission_completed_flag(&mut self)
        ensures
            final(self).regs() == (Registers { ir: old(self).regs().ir & !IR_TC, ..old(self).regs() }),
            final(self).cached() == old(self).cached(),
            final(self).channel() == old(self).channel(),
    {
        self.can.ir = self.can.ir & !IR_TC;
    }

    /// Clears the transmission cancellation finished flag.
    pub fn clear_transmission_cancelled_flag(&mut self)
        ensures
            final(self).regs() == (Registers { ir: old(self).regs().ir & !IR_TCF, ..old(self).regs() }),
            final(self).cached() == old(self).cached(),
            final(self).channel() == old(self).channel(),
    {
        self.can.ir = self.can.ir & !IR_TCF;
    }
}

/// A transmit buffer handle issued for another channel is refused with
/// `WrongInstance`, whatever its slot index and whatever the payload.
pub proof fn lemma_foreign_handle_refused(channel: FdCanInstance, l: MessageRamLayout, idx: TxBufferIdx, len: nat)
    requires
        idx.owner() != channel,
    ensures
        tx_check(channel, l, idx, len) == Err::<nat, Error>(Error::WrongInstance),
{
}

/// A frame taken from a receive FIFO.
#[derive(Clone, Copy, Debug, PartialEq, Eq, Structural)]
pub struct RxFrameInfo {
    /// First header word: error state, identifier kind, remote flag and
    /// identifier.
    pub header0: u32,
    /// Second header word: timestamp, length code, format flags, filter index.
    pub header1: u32,
    /// Payload length in bytes.
    pub len: u8,
    /// The FIFO had lost a frame for want of room before this one was read.
    pub overrun: bool,
}

/// Payload length of a received frame from its second header word: the
/// length of its code for an FD frame (bit 21), at most eight bytes for a
/// classic one.
pub open spec fn rx_frame_len(header1: u32) -> nat {
    let code = (header1 / 0x1_0000) % 16;
    let fd = (header1 / 0x20_0000) % 2 == 1;
    if code <= 8 {
        code as nat
    } else if !fd {
        8
    } else {
        match code {
            9 => 12,
            10 => 16,
            11 => 20,
            12 => 24,
            13 => 32,
            14 => 48,
            _ => 64,
        }
    }
}

/// Byte `j` of the payload of the element at `addr`, taken from its
/// payload words in little-endian order.
pub open spec fn element_byte(ram: Seq<u32>, addr: int, j: int) -> u8 {
    let w = ram[addr + 2 + j / 4] as int;
    let shift: int = if j % 4 == 0 {
        1
    } else if j % 4 == 1 {
        0x100
    } else if j % 4 == 2 {
        0x1_0000
    } else {
        0x100_0000
    };
    ((w / shift) % 256) as u8
}

/// Status and start, element count and element size of a receive FIFO.
pub open(crate) spec fn rx_fifo(regs: Registers, l: MessageRamLayout, fifo: FIFONr) -> (RxFifoStatus, int, int, DataFieldSize) {
    match fifo {
        FIFONr::FIFO0 => (regs.rxf0s, l.rx_fifo0_addr as int, l.rx_fifo0_len as int, l.rx_fifo0_data_size),
        FIFONr::FIFO1 => (regs.rxf1s, l.rx_fifo1_addr as int, l.rx_fifo1_len as int, l.rx_fifo1_data_size),
    }
}

/// Registers with the release of element `index` of a receive FIFO to write.
pub open spec fn released(regs: Registers, fifo: FIFONr, index: u8) -> Registers {
    match fifo {
        FIFONr::FIFO0 => Registers { rxf0a: index, rxf0_release: true, ..regs },
        FIFONr::FIFO1 => Registers { rxf1a: index, rxf1_release: true, ..regs },
    }
}

fn frame_len(header1: u32) -> (r: u8)
    ensures
        r as nat == rx_frame_len(header1),
        r <= 64,
{
    let code = (header1 / 0x1_0000) % 16;
    let fd = (header1 / 0x20_0000) % 2 == 1;
    if code <= 8 {
        code as u8
    } else if !fd {
        8
    } else {
        match code {
            9 => 12,
            10 => 16,
            11 => 20,
            12 => 24,
            13 => 32,
            14 => 48,
            _ => 64,
        }
    }
}

fn read_element_byte(ram: &Vec<u32>, addr: usize, j: usize) -> (r: u8)
    requires
        addr + 2 + j / 4 < ram@.len(),
        ram@.len() <= 2560,
    ensures
        r == element_byte(ram@, addr as int, j as int),
{
    let w = ram[addr + 2 + j / 4];
    let shift: u32 = if j % 4 == 0 {
        1
    } else if j % 4 == 1 {
        0x100
    } else if j % 4 == 2 {
        0x1_0000
    } else {
        0x100_0000
    };
    ((w / shift) % 256) as u8
}

impl<M: Receive> FdCan<M> {
    /// Takes the oldest frame of a receive FIFO: returns its header words,
    /// its length and whether the FIFO had overrun, puts its payload into
    /// `buffer` (replacing what it held) and requests the element's release. `None`,
    /// with nothing changed, where the FIFO is empty.
    pub fn receive(&mut self, ram: &MessageRam, fifo: FIFONr, buffer: &mut Vec<u8>) -> (r: Option<RxFrameInfo>)
        requires
            old(self).wf(),
            ram.wf(),
            ram.family_spec() == old(self).cached().layout.family_spec(),
        ensures
            final(self).wf(),
            final(self).cached() == old(self).cached(),
            final(self).channel() == old(self).channel(),
            ({
                let (status, start, size, data_size) = rx_fifo(old(self).regs(), old(self).cached().layout, fifo);
                let addr = start + status.get_index * data_size.element_words();
                if status.fill_level == 0 || status.get_index >= size {
                    &&& r is None
                    &&& final(self).regs() == old(self).regs()
                    &&& final(buffer)@ == old(buffer)@
                } else {
                    let ram = ram.contents();
                    let h1 = ram[addr + 1];
                    let n = if rx_frame_len(h1) <= data_size.bytes() {
                        rx_frame_len(h1)
                    } else {
                        data_size.bytes()
                    };
                    &&& r == Some(RxFrameInfo {
                        header0: ram[addr],
                        header1: h1,
                        len: n as u8,
                        overrun: status.message_lost,
                    })
                    &&& final(buffer)@ == Seq::new(n, |j: int| element_byte(ram, addr, j))
                    &&& final(self).regs() == released(old(self).regs(), fifo, status.get_index)
                }
            }),
    {
        let layout = self.config.layout;
        let (status, start, size, data_size) = match fifo {
            FIFONr::FIFO0 => (self.can.rxf0s, layout.rx_fifo0_addr, layout.rx_fifo0_len, layout.rx_fifo0_data_size),
            FIFONr::FIFO1 => (self.can.rxf1s, layout.rx_fifo1_addr, layout.rx_fifo1_len, layout.rx_fifo1_data_size),
        };
        if status.fill_level == 0 || status.get_index >= size {
            return None;
        }
        let element_words = data_size.words() as usize + 2;
        let get = status.get_index as usize;
        proof {
            let r = if fifo == FIFONr::FIFO0 { Region::RxFifo0 } else { Region::RxFifo1 };
            assert(layout.end_of(r) <= layout.family.ram_words_spec() - 4);
            assert((get + 1) * element_words <= 4 * (size as int) * element_words) by (nonlinear_arith)
                requires
                    get < size,
                    element_words >= 0,
            ;
            assert(get * element_words + element_words == (get + 1) * element_words) by (nonlinear_arith);
        }
        let addr = start as usize + get * element_words;
        let header0 = ram.words[addr];
        let header1 = ram.words[addr + 1];
        let len = frame_len(header1);
        let max = data_size.max_len();
        let n = if len <= max { len } else { max };
        let mut payload: Vec<u8> = Vec::new();
        let mut j: usize = 0;
        while j < n as usize
            invariant
                j <= n,
                n <= data_size.bytes(),
                data_size.bytes() <= 4 * data_size.data_words(),
                addr + 2 + data_size.data_words() <= ram.words@.len(),
                ram.words@.len() <= 2560,
                payload@ == Seq::new(j as nat, |k: int| element_byte(ram.words@, addr as int, k)),
            decreases n - j,
        {
            let b = read_element_byte(&ram.words, addr, j);
            payload.push(b);
            j += 1;
            assert(payload@ =~= Seq::new(j as nat, |k: int| element_byte(ram.words@, addr as int, k)));
        }
        *buffer = payload;
        match fifo {
            FIFONr::FIFO0 => {
                self.can = Registers { rxf0a: status.get_index, rxf0_release: true, ..self.can };
            },
            FIFONr::FIFO1 => {
                self.can = Registers { rxf1a: status.get_index, rxf1_release: true, ..self.can };
            },
        }
        Some(RxFrameInfo { header0, header1, len: n, overrun: status.message_lost })
    }
}

/// Header code of the data length code whose payload length is `b`.
pub open spec fn dlc_code_of(b: nat) -> u8 {
    if b <= 8 {
        b as u8
    } else if b == 12 {
        9
    } else if b == 16 {
        10
    } else if b == 20 {
        11
    } else if b == 24 {
        12
    } else if b == 32 {
        13
    } else if b == 48 {
        14
    } else {
        15
    }
}

proof fn lemma_dlc_code(d: Dlc)
    ensures
        dlc_code_of(d.bytes()) == d.code(),
{
}

/// A frame written to a dedicated buffer is requested for transmission;
/// once an abort of it has been requested and a reading shows the
/// cancellation finished with no transmission of the buffer, the abort
/// reports the frame kept off the bus.
pub proof fn lemma_pend_then_abort(regs: Registers, slot: u32, observed: Registers, elapsed: u32, long: u32)
    requires
        slot < 32,
        bit(observed.txbcf, slot),
        !bit(observed.txbto, slot),
    ensures
        bit(regs.add_requested(slot).txbar, slot),
        bit(regs.cancel_requested(slot).txbcr, slot),
        poll_outcome(Probe::CancelFinished(slot), observed, elapsed, long) == PollStep::Done,
{
    lemma_bit_set(regs.txbar, slot, slot);
    lemma_bit_set(regs.txbcr, slot, slot);
}

} // verus!
