use vstd::prelude::*;
use crate::fdcan::FdCanInstance;

verus! {

/// Payload capacity of an RX FIFO, RX buffer or TX buffer element. The element
/// itself is two header words longer.
#[derive(Clone, Copy, Debug, PartialEq, Eq, Structural)]
pub enum DataFieldSize {
    _8Bytes,
    _12Bytes,
    _16Bytes,
    _20Bytes,
    _24Bytes,
    _32Bytes,
    _48Bytes,
    _64Bytes,
}

impl DataFieldSize {
    /// Payload capacity in bytes.
    pub open spec fn bytes(self) -> nat {
        match self {
            DataFieldSize::_8Bytes => 8,
            DataFieldSize::_12Bytes => 12,
            DataFieldSize::_16Bytes => 16,
            DataFieldSize::_20Bytes => 20,
            DataFieldSize::_24Bytes => 24,
            DataFieldSize::_32Bytes => 32,
            DataFieldSize::_48Bytes => 48,
            DataFieldSize::_64Bytes => 64,
        }
    }

    /// Three-bit code of the size in the element size configuration registers.
    pub open spec fn code(self) -> u8 {
        match self {
            DataFieldSize::_8Bytes => 0,
            DataFieldSize::_12Bytes => 1,
            DataFieldSize::_16Bytes => 2,
            DataFieldSize::_20Bytes => 3,
            DataFieldSize::_24Bytes => 4,
            DataFieldSize::_32Bytes => 5,
            DataFieldSize::_48Bytes => 6,
            DataFieldSize::_64Bytes => 7,
        }
    }

    /// Words of payload: the byte capacity divided by four, rounded up.
    pub open spec fn data_words(self) -> nat {
        (self.bytes() + 3) / 4
    }

    /// Words of a whole element: the payload and two header words.
    pub open spec fn element_words(self) -> nat {
        self.data_words() + 2
    }

    /// The size whose hardware code is `code`, if it is one.
    pub open spec fn decode(code: u8) -> Option<DataFieldSize> {
        if code == 0 {
            Some(DataFieldSize::_8Bytes)
        } else if code == 1 {
            Some(DataFieldSize::_12Bytes)
        } else if code == 2 {
            Some(DataFieldSize::_16Bytes)
        } else if code == 3 {
            Some(DataFieldSize::_20Bytes)
        } else if code == 4 {
            Some(DataFieldSize::_24Bytes)
        } else if code == 5 {
            Some(DataFieldSize::_32Bytes)
        } else if code == 6 {
            Some(DataFieldSize::_48Bytes)
        } else if code == 7 {
            Some(DataFieldSize::_64Bytes)
        } else {
            None
        }
    }

    /// Largest payload in bytes.
    pub fn max_len(&self) -> (r: u8)
        ensures
            r as nat == self.bytes(),
    {
        match self {
            DataFieldSize::_8Bytes => 8,
            DataFieldSize::_12Bytes => 12,
            DataFieldSize::_16Bytes => 16,
            DataFieldSize::_20Bytes => 20,
            DataFieldSize::_24Bytes => 24,
            DataFieldSize::_32Bytes => 32,
            DataFieldSize::_48Bytes => 48,
            DataFieldSize::_64Bytes => 64,
        }
    }

    /// Words of payload.
    pub fn words(&self) -> (r: u16)
        ensures
            r as nat == self.data_words(),
            2 <= r <= 16,
    {
        match self {
            DataFieldSize::_8Bytes => 2,
            DataFieldSize::_12Bytes => 3,
            DataFieldSize::_16Bytes => 4,
            DataFieldSize::_20Bytes => 5,
            DataFieldSize::_24Bytes => 6,
            DataFieldSize::_32Bytes => 8,
            DataFieldSize::_48Bytes => 12,
            DataFieldSize::_64Bytes => 16,
        }
    }

    /// Hardware code of the size.
    pub fn config_register(&self) -> (r: u8)
        ensures
            r == self.code(),
            r < 8,
    {
        match self {
            DataFieldSize::_8Bytes => 0b000,
            DataFieldSize::_12Bytes => 0b001,
            DataFieldSize::_16Bytes => 0b010,
            DataFieldSize::_20Bytes => 0b011,
            DataFieldSize::_24Bytes => 0b100,
            DataFieldSize::_32Bytes => 0b101,
            DataFieldSize::_48Bytes => 0b110,
            DataFieldSize::_64Bytes => 0b111,
        }
    }

    /// The size that a hardware code stands for; `None` for a value that is
    /// wider than three bits.
    pub fn from_config_register(code: u8) -> (r: Option<DataFieldSize>)
        ensures
            r == DataFieldSize::decode(code),
    {
        match code {
            0 => Some(DataFieldSize::_8Bytes),
            1 => Some(DataFieldSize::_12Bytes),
            2 => Some(DataFieldSize::_16Bytes),
            3 => Some(DataFieldSize::_20Bytes),
            4 => Some(DataFieldSize::_24Bytes),
            5 => Some(DataFieldSize::_32Bytes),
            6 => Some(DataFieldSize::_48Bytes),
            7 => Some(DataFieldSize::_64Bytes),
            _ => None,
        }
    }
}

/// Decoding the hardware code of a size gives the size back, for each of the
/// eight sizes; every three-bit code is the code of a size.
pub proof fn lemma_data_field_size_code_round_trip(s: DataFieldSize, code: u8)
    ensures
        DataFieldSize::decode(s.code()) == Some(s),
        code < 8 ==> DataFieldSize::decode(code).is_some() && DataFieldSize::decode(code).unwrap().code()
            == code,
        code >= 8 ==> DataFieldSize::decode(code).is_none(),
{
}

/// Chip family of the controller: it fixes the message RAM size, the number of
/// channels and the largest element count of each region.
#[derive(Clone, Copy, Debug, PartialEq, Eq, Structural)]
pub enum ChipFamily {
    G0,
    H7,
}

/// The regions of the message RAM, in the order in which they are laid out.
#[derive(Clone, Copy, Debug, PartialEq, Eq, Structural)]
pub enum Region {
    ElevenBitFilters,
    TwentyNineBitFilters,
    RxFifo0,
    RxFifo1,
    RxBuffers,
    TxEventFifo,
    TxBuffers,
    TriggerMemory,
}

impl ChipFamily {
    /// Size of the message RAM in words.
    pub open spec fn ram_words_spec(self) -> nat {
        match self {
            ChipFamily::G0 => 512,
            ChipFamily::H7 => 2560,
        }
    }

    /// Largest element count of a region.
    pub open spec fn max_elements_spec(self, r: Region) -> nat {
        match self {
            ChipFamily::G0 => match r {
                Region::ElevenBitFilters => 28,
                Region::TwentyNineBitFilters => 8,
                Region::TriggerMemory => 0,
                _ => 3,
            },
            ChipFamily::H7 => match r {
                Region::ElevenBitFilters => 128,
                Region::TxEventFifo => 32,
                Region::TxBuffers => 32,
                _ => 64,
            },
        }
    }

    /// The channel whose layout follows that of `i`, if the family has one.
    pub open spec fn next_instance_spec(self, i: FdCanInstance) -> Option<FdCanInstance> {
        match (self, i) {
            (ChipFamily::G0, FdCanInstance::FdCan1) => Some(FdCanInstance::FdCan2),
            (ChipFamily::H7, FdCanInstance::FdCan1) => Some(FdCanInstance::FdCan2),
            (ChipFamily::H7, FdCanInstance::FdCan2) => Some(FdCanInstance::FdCan3),
            _ => None,
        }
    }

    /// Size of the message RAM in words.
    pub fn ram_words(&self) -> (r: usize)
        ensures
            r == self.ram_words_spec(),
    {
        match self {
            ChipFamily::G0 => 512,
            ChipFamily::H7 => 2560,
        }
    }

    /// Largest element count of a region.
    pub fn max_elements(&self, r: Region) -> (m: u8)
        ensures
            m == self.max_elements_spec(r),
    {
        match self {
            ChipFamily::G0 => match r {
                Region::ElevenBitFilters => 28,
                Region::TwentyNineBitFilters => 8,
                Region::TriggerMemory => 0,
                _ => 3,
            },
            ChipFamily::H7 => match r {
                Region::ElevenBitFilters => 128,
                Region::TxEventFifo => 32,
                Region::TxBuffers => 32,
                _ => 64,
            },
        }
    }

    /// The channel whose layout follows that of `i`, if the family has one.
    pub fn next_instance(&self, i: FdCanInstance) -> (r: Option<FdCanInstance>)
        ensures
            r == self.next_instance_spec(i),
    {
        match (self, i) {
            (ChipFamily::G0, FdCanInstance::FdCan1) => Some(FdCanInstance::FdCan2),
            (ChipFamily::H7, FdCanInstance::FdCan1) => Some(FdCanInstance::FdCan2),
            (ChipFamily::H7, FdCanInstance::FdCan2) => Some(FdCanInstance::FdCan3),
            _ => None,
        }
    }
}

/// Where each region of one channel lies in the message RAM: a word address
/// and an element count per region, and the element size of the data regions.
#[derive(Clone, Copy, Debug)]
pub struct MessageRamLayout {
    pub(crate) family: ChipFamily,
    pub(crate) instance: FdCanInstance,
    pub(crate) eleven_bit_filters_addr: u16,
    pub(crate) eleven_bit_filters_len: u8,
    pub(crate) twenty_nine_bit_filters_addr: u16,
    pub(crate) twenty_nine_bit_filters_len: u8,
    pub(crate) rx_fifo0_addr: u16,
    pub(crate) rx_fifo0_len: u8,
    pub(crate) rx_fifo0_data_size: DataFieldSize,
    pub(crate) rx_fifo1_addr: u16,
    pub(crate) rx_fifo1_len: u8,
    pub(crate) rx_fifo1_data_size: DataFieldSize,
    pub(crate) rx_buffers_addr: u16,
    pub(crate) rx_buffers_len: u8,
    pub(crate) rx_buffers_data_size: DataFieldSize,
    pub(crate) tx_event_fifo_addr: u16,
    pub(crate) tx_event_fifo_len: u8,
    pub(crate) tx_buffers_addr: u16,
    /// Number of dedicated transmit buffers.
    pub(crate) tx_buffers_len: u8,
    /// Size of the transmit FIFO or queue that follows them.
    pub(crate) tx_fifo_or_queue_len: u8,
    pub(crate) tx_buffers_data_size: DataFieldSize,
    pub(crate) trigger_memory_addr: u16,
    pub(crate) trigger_memory_len: u8,
}

/// Word extent of `len` elements of `element_words` words each, as the
/// partition builder reserves it: four times the product.
pub open spec fn extent(len: int, element_words: int) -> int {
    4 * len * element_words
}

impl MessageRamLayout {
    /// Field `family` of the layout.
    pub open(crate) spec fn family_spec(self) -> ChipFamily {
        self.family
    }

    /// Field `instance` of the layout.
    pub open(crate) spec fn instance_spec(self) -> FdCanInstance {
        self.instance
    }

    /// Field `eleven_bit_filters_addr` of the layout.
    pub open(crate) spec fn eleven_bit_filters_addr_spec(self) -> u16 {
        self.eleven_bit_filters_addr
    }

    /// Field `eleven_bit_filters_len` of the layout.
    pub open(crate) spec fn eleven_bit_filters_len_spec(self) -> u8 {
        self.eleven_bit_filters_len
    }

    /// Field `twenty_nine_bit_filters_addr` of the layout.
    pub open(crate) spec fn twenty_nine_bit_filters_addr_spec(self) -> u16 {
        self.twenty_nine_bit_filters_addr
    }

    /// Field `twenty_nine_bit_filters_len` of the layout.
    pub open(crate) spec fn twenty_nine_bit_filters_len_spec(self) -> u8 {
        self.twenty_nine_bit_filters_len
    }

    /// Field `rx_fifo0_addr` of the layout.
    pub open(crate) spec fn rx_fifo0_addr_spec(self) -> u16 {
        self.rx_fifo0_addr
    }

    /// Field `rx_fifo0_len` of the layout.
    pub open(crate) spec fn rx_fifo0_len_spec(self) -> u8 {
        self.rx_fifo0_len
    }

    /// Field `rx_fifo0_data_size` of the layout.
    pub open(crate) spec fn rx_fifo0_data_size_spec(self) -> DataFieldSize {
        self.rx_fifo0_data_size
    }

    /// Field `rx_fifo1_addr` of the layout.
    pub open(crate) spec fn rx_fifo1_addr_spec(self) -> u16 {
        self.rx_fifo1_addr
    }

    /// Field `rx_fifo1_len` of the layout.
    pub open(crate) spec fn rx_fifo1_len_spec(self) -> u8 {
        self.rx_fifo1_len
    }

    /// Field `rx_fifo1_data_size` of the layout.
    pub open(crate) spec fn rx_fifo1_data_size_spec(self) -> DataFieldSize {
        self.rx_fifo1_data_size
    }

    /// Field `rx_buffers_addr` of the layout.
    pub open(crate) spec fn rx_buffers_addr_spec(self) -> u16 {
        self.rx_buffers_addr
    }

    /// Field `rx_buffers_len` of the layout.
    pub open(crate) spec fn rx_buffers_len_spec(self) -> u8 {
        self.rx_buffers_len
    }

    /// Field `rx_buffers_data_size` of the layout.
    pub open(crate) spec fn rx_buffers_data_size_spec(self) -> DataFieldSize {
        self.rx_buffers_data_size
    }

    /// Field `tx_event_fifo_addr` of the layout.
    pub open(crate) spec fn tx_event_fifo_addr_spec(self) -> u16 {
        self.tx_event_fifo_addr
    }

    /// Field `tx_event_fifo_len` of the layout.
    pub open(crate) spec fn tx_event_fifo_len_spec(self) -> u8 {
        self.tx_event_fifo_len
    }

    /// Field `tx_buffers_addr` of the layout.
    pub open(crate) spec fn tx_buffers_addr_spec(self) -> u16 {
        self.tx_buffers_addr
    }

    /// Field `tx_buffers_len` of the layout.
    pub open(crate) spec fn tx_buffers_len_spec(self) -> u8 {
        self.tx_buffers_len
    }

    /// Field `tx_fifo_or_queue_len` of the layout.
    pub open(crate) spec fn tx_fifo_or_queue_len_spec(self) -> u8 {
        self.tx_fifo_or_queue_len
    }

    /// Field `tx_buffers_data_size` of the layout.
    pub open(crate) spec fn tx_buffers_data_size_spec(self) -> DataFieldSize {
        self.tx_buffers_data_size
    }

    /// Field `trigger_memory_addr` of the layout.
    pub open(crate) spec fn trigger_memory_addr_spec(self) -> u16 {
        self.trigger_memory_addr
    }

    /// Field `trigger_memory_len` of the layout.
    pub open(crate) spec fn trigger_memory_len_spec(self) -> u8 {
        self.trigger_memory_len
    }

    /// The layout with field `family` replaced.
    pub open(crate) spec fn set_family(self, v: ChipFamily) -> MessageRamLayout {
        MessageRamLayout { family: v, ..self }
    }

    /// The layout with field `instance` replaced.
    pub open(crate) spec fn set_instance(self, v: FdCanInstance) -> MessageRamLayout {
        MessageRamLayout { instance: v, ..self }
    }

    /// The layout with field `eleven_bit_filters_addr` replaced.
    pub open(crate) spec fn set_eleven_bit_filters_addr(self, v: u16) -> MessageRamLayout {
        MessageRamLayout { eleven_bit_filters_addr: v, ..self }
    }

    /// The layout with field `eleven_bit_filters_len` replaced.
    pub open(crate) spec fn set_eleven_bit_filters_len(self, v: u8) -> MessageRamLayout {
        MessageRamLayout { eleven_bit_filters_len: v, ..self }
    }

    /// The layout with field `twenty_nine_bit_filters_addr` replaced.
    pub open(crate) spec fn set_twenty_nine_bit_filters_addr(self, v: u16) -> MessageRamLayout {
        MessageRamLayout { twenty_nine_bit_filters_addr: v, ..self }
    }

    /// The layout with field `twenty_nine_bit_filters_len` replaced.
    pub open(crate) spec fn set_twenty_nine_bit_filters_len(self, v: u8) -> MessageRamLayout {
        MessageRamLayout { twenty_nine_bit_filters_len: v, ..self }
    }

    /// The layout with field `rx_fifo0_addr` replaced.
    pub open(crate) spec fn set_rx_fifo0_addr(self, v: u16) -> MessageRamLayout {
        MessageRamLayout { rx_fifo0_addr: v, ..self }
    }

    /// The layout with field `rx_fifo0_len` replaced.
    pub open(crate) spec fn set_rx_fifo0_len(self, v: u8) -> MessageRamLayout {
        MessageRamLayout { rx_fifo0_len: v, ..self }
    }

    /// The layout with field `rx_fifo0_data_size` replaced.
    pub open(crate) spec fn set_rx_fifo0_data_size(self, v: DataFieldSize) -> MessageRamLayout {
        MessageRamLayout { rx_fifo0_data_size: v, ..self }
    }

    /// The layout with field `rx_fifo1_addr` replaced.
    pub open(crate) spec fn set_rx_fifo1_addr(self, v: u16) -> MessageRamLayout {
        MessageRamLayout { rx_fifo1_addr: v, ..self }
    }

    /// The layout with field `rx_fifo1_len` replaced.
    pub open(crate) spec fn set_rx_fifo1_len(self, v: u8) -> MessageRamLayout {
        MessageRamLayout { rx_fifo1_len: v, ..self }
    }

    /// The layout with field `rx_fifo1_data_size` replaced.
    pub open(crate) spec fn set_rx_fifo1_data_size(self, v: DataFieldSize) -> MessageRamLayout {
        MessageRamLayout { rx_fifo1_data_size: v, ..self }
    }

    /// The layout with field `rx_buffers_addr` replaced.
    pub open(crate) spec fn set_rx_buffers_addr(self, v: u16) -> MessageRamLayout {
        MessageRamLayout { rx_buffers_addr: v, ..self }
    }

    /// The layout with field `rx_buffers_len` replaced.
    pub open(crate) spec fn set_rx_buffers_len(self, v: u8) -> MessageRamLayout {
        MessageRamLayout { rx_buffers_len: v, ..self }
    }

    /// The layout with field `rx_buffers_data_size` replaced.
    pub open(crate) spec fn set_rx_buffers_data_size(self, v: DataFieldSize) -> MessageRamLayout {
        MessageRamLayout { rx_buffers_data_size: v, ..self }
    }

    /// The layout with field `tx_event_fifo_addr` replaced.
    pub open(crate) spec fn set_tx_event_fifo_addr(self, v: u16) -> MessageRamLayout {
        MessageRamLayout { tx_event_fifo_addr: v, ..self }
    }

    /// The layout with field `tx_event_fifo_len` replaced.
    pub open(crate) spec fn set_tx_event_fifo_len(self, v: u8) -> MessageRamLayout {
        MessageRamLayout { tx_event_fifo_len: v, ..self }
    }

    /// The layout with field `tx_buffers_addr` replaced.
    pub open(crate) spec fn set_tx_buffers_addr(self, v: u16) -> MessageRamLayout {
        MessageRamLayout { tx_buffers_addr: v, ..self }
    }

    /// The layout with field `tx_buffers_len` replaced.
    pub open(crate) spec fn set_tx_buffers_len(self, v: u8) -> MessageRamLayout {
        MessageRamLayout { tx_buffers_len: v, ..self }
    }

    /// The layout with field `tx_fifo_or_queue_len` replaced.
    pub open(crate) spec fn set_tx_fifo_or_queue_len(self, v: u8) -> MessageRamLayout {
        MessageRamLayout { tx_fifo_or_queue_len: v, ..self }
    }

    /// The layout with field `tx_buffers_data_size` replaced.
    pub open(crate) spec fn set_tx_buffers_data_size(self, v: DataFieldSize) -> MessageRamLayout {
        MessageRamLayout { tx_buffers_data_size: v, ..self }
    }

    /// The layout with field `trigger_memory_addr` replaced.
    pub open(crate) spec fn set_trigger_memory_addr(self, v: u16) -> MessageRamLayout {
        MessageRamLayout { trigger_memory_addr: v, ..self }
    }

    /// The layout with field `trigger_memory_len` replaced.
    pub open(crate) spec fn set_trigger_memory_len(self, v: u8) -> MessageRamLayout {
        MessageRamLayout { trigger_memory_len: v, ..self }
    }

    /// Start of a region.
    pub open(crate) spec fn addr_of(self, r: Region) -> int {
        match r {
            Region::ElevenBitFilters => self.eleven_bit_filters_addr as int,
            Region::TwentyNineBitFilters => self.twenty_nine_bit_filters_addr as int,
            Region::RxFifo0 => self.rx_fifo0_addr as int,
            Region::RxFifo1 => self.rx_fifo1_addr as int,
            Region::RxBuffers => self.rx_buffers_addr as int,
            Region::TxEventFifo => self.tx_event_fifo_addr as int,
            Region::TxBuffers => self.tx_buffers_addr as int,
            Region::TriggerMemory => self.trigger_memory_addr as int,
        }
    }

    /// Element count of a region; for the transmit buffers the dedicated
    /// buffers and the FIFO or queue together.
    pub open(crate) spec fn len_of(self, r: Region) -> int {
        match r {
            Region::ElevenBitFilters => self.eleven_bit_filters_len as int,
            Region::TwentyNineBitFilters => self.twenty_nine_bit_filters_len as int,
            Region::RxFifo0 => self.rx_fifo0_len as int,
            Region::RxFifo1 => self.rx_fifo1_len as int,
            Region::RxBuffers => self.rx_buffers_len as int,
            Region::TxEventFifo => self.tx_event_fifo_len as int,
            Region::TxBuffers => self.tx_buffers_len as int + self.tx_fifo_or_queue_len as int,
            Region::TriggerMemory => self.trigger_memory_len as int,
        }
    }

    /// Words of one element of a region.
    pub open(crate) spec fn element_words_of(self, r: Region) -> int {
        match r {
            Region::ElevenBitFilters => 1,
            Region::RxFifo0 => self.rx_fifo0_data_size.element_words() as int,
            Region::RxFifo1 => self.rx_fifo1_data_size.element_words() as int,
            Region::RxBuffers => self.rx_buffers_data_size.element_words() as int,
            Region::TxBuffers => self.tx_buffers_data_size.element_words() as int,
            _ => 2,
        }
    }

    /// First word after a region.
    pub open(crate) spec fn end_of(self, r: Region) -> int {
        self.addr_of(r) + extent(self.len_of(r), self.element_words_of(r))
    }

    /// The regions follow one another without gap or overlap, in the fixed
    /// order, each within its family's element limit, and the last ends
    /// at or before `end`.
    pub open(crate) spec fn laid_out_within(self, end: int) -> bool {
        &&& self.twenty_nine_bit_filters_addr == self.end_of(Region::ElevenBitFilters)
        &&& self.rx_fifo0_addr == self.end_of(Region::TwentyNineBitFilters)
        &&& self.rx_fifo1_addr == self.end_of(Region::RxFifo0)
        &&& self.rx_buffers_addr == self.end_of(Region::RxFifo1)
        &&& self.tx_event_fifo_addr == self.end_of(Region::RxBuffers)
        &&& self.tx_buffers_addr == self.end_of(Region::TxEventFifo)
        &&& self.trigger_memory_addr == self.end_of(Region::TxBuffers)
        &&& self.end_of(Region::TriggerMemory) <= end
        &&& forall|r: Region| #[trigger] self.len_of(r) <= self.family.max_elements_spec(r)
    }

    /// A layout that the partition builder can produce: laid out within the
    /// family's RAM less its four reserved trailing words.
    pub open(crate) spec fn wf(self) -> bool {
        self.laid_out_within(self.family.ram_words_spec() - 4)
    }

    /// A layout with every region empty at address zero.
    pub open(crate) spec fn empty_spec(family: ChipFamily, instance: FdCanInstance) -> MessageRamLayout {
        MessageRamLayout {
            family,
            instance,
            eleven_bit_filters_addr: 0,
            eleven_bit_filters_len: 0,
            twenty_nine_bit_filters_addr: 0,
            twenty_nine_bit_filters_len: 0,
            rx_fifo0_addr: 0,
            rx_fifo0_len: 0,
            rx_fifo0_data_size: DataFieldSize::_8Bytes,
            rx_fifo1_addr: 0,
            rx_fifo1_len: 0,
            rx_fifo1_data_size: DataFieldSize::_8Bytes,
            rx_buffers_addr: 0,
            rx_buffers_len: 0,
            rx_buffers_data_size: DataFieldSize::_8Bytes,
            tx_event_fifo_addr: 0,
            tx_event_fifo_len: 0,
            tx_buffers_addr: 0,
            tx_buffers_len: 0,
            tx_fifo_or_queue_len: 0,
            tx_buffers_data_size: DataFieldSize::_8Bytes,
            trigger_memory_addr: 0,
            trigger_memory_len: 0,
        }
    }

    /// A layout with every region empty at address zero.
    pub fn empty(family: ChipFamily, instance: FdCanInstance) -> (r: MessageRamLayout)
        ensures
            r == Self::empty_spec(family, instance),
            forall|g: Region| r.addr_of(g) == 0 && r.len_of(g) == 0,
            r.wf(),
    {
        MessageRamLayout {
            family,
            instance,
            eleven_bit_filters_addr: 0,
            eleven_bit_filters_len: 0,
            twenty_nine_bit_filters_addr: 0,
            twenty_nine_bit_filters_len: 0,
            rx_fifo0_addr: 0,
            rx_fifo0_len: 0,
            rx_fifo0_data_size: DataFieldSize::_8Bytes,
            rx_fifo1_addr: 0,
            rx_fifo1_len: 0,
            rx_fifo1_data_size: DataFieldSize::_8Bytes,
            rx_buffers_addr: 0,
            rx_buffers_len: 0,
            rx_buffers_data_size: DataFieldSize::_8Bytes,
            tx_event_fifo_addr: 0,
            tx_event_fifo_len: 0,
            tx_buffers_addr: 0,
            tx_buffers_len: 0,
            tx_fifo_or_queue_len: 0,
            tx_buffers_data_size: DataFieldSize::_8Bytes,
            trigger_memory_addr: 0,
            trigger_memory_len: 0,
        }
    }

    /// Start address and element count of a region (for the transmit buffers
    /// the dedicated buffers and the FIFO or queue together).
    pub fn region(&self, r: Region) -> (res: (u16, u16))
        ensures
            res.0 as int == self.addr_of(r),
            res.1 as int == self.len_of(r),
    {
        match r {
            Region::ElevenBitFilters => (self.eleven_bit_filters_addr, self.eleven_bit_filters_len as u16),
            Region::TwentyNineBitFilters => (self.twenty_nine_bit_filters_addr, self.twenty_nine_bit_filters_len as u16),
            Region::RxFifo0 => (self.rx_fifo0_addr, self.rx_fifo0_len as u16),
            Region::RxFifo1 => (self.rx_fifo1_addr, self.rx_fifo1_len as u16),
            Region::RxBuffers => (self.rx_buffers_addr, self.rx_buffers_len as u16),
            Region::TxEventFifo => (self.tx_event_fifo_addr, self.tx_event_fifo_len as u16),
            Region::TxBuffers => (self.tx_buffers_addr, self.tx_buffers_len as u16 + self.tx_fifo_or_queue_len as u16),
            Region::TriggerMemory => (self.trigger_memory_addr, self.trigger_memory_len as u16),
        }
    }

    /// Number of dedicated transmit buffers.
    pub fn dedicated_tx_buffers(&self) -> (r: u8)
        ensures
            r == self.tx_buffers_len_spec(),
    {
        self.tx_buffers_len
    }

    /// Size of the transmit FIFO or queue.
    pub fn tx_fifo_or_queue_len(&self) -> (r: u8)
        ensures
            r == self.tx_fifo_or_queue_len_spec(),
    {
        self.tx_fifo_or_queue_len
    }

    /// Payload capacity of the transmit buffer elements.
    pub fn tx_buffers_data_size(&self) -> (r: DataFieldSize)
        ensures
            r == self.tx_buffers_data_size_spec(),
    {
        self.tx_buffers_data_size
    }

    /// Channel the layout was made for.
    pub fn instance(&self) -> (r: FdCanInstance)
        ensures
            r == self.instance_spec(),
    {
        self.instance
    }
}

/// Handle of a dedicated transmit buffer: the channel whose layout issued it
/// and the slot index.
#[derive(Clone, Copy, Debug, PartialEq, Eq, Structural)]
pub struct TxBufferIdx {
    pub(crate) instance: FdCanInstance,
    pub(crate) idx: u8,
}

impl TxBufferIdx {
    /// Channel that issued the handle.
    pub open(crate) spec fn owner(self) -> FdCanInstance {
        self.instance
    }

    /// Slot index within the transmit buffer region.
    pub open(crate) spec fn slot(self) -> nat {
        self.idx as nat
    }

    /// Slot index within the transmit buffer region.
    pub fn idx(&self) -> (r: usize)
        ensures
            r == self.slot(),
    {
        self.idx as usize
    }

    /// Channel that issued the handle.
    pub fn instance(&self) -> (r: FdCanInstance)
        ensures
            r == self.owner(),
    {
        self.instance
    }
}

/// Selects one of the two receive FIFOs.
#[derive(Clone, Copy, Debug, PartialEq, Eq, Structural)]
pub enum FIFONr {
    FIFO0,
    FIFO1,
}

impl FIFONr {
    /// Number of the FIFO.
    pub fn nr(&self) -> (r: usize)
        ensures
            r == (match self {
                FIFONr::FIFO0 => 0usize,
                FIFONr::FIFO1 => 1usize,
            }),
    {
        match self {
            FIFONr::FIFO0 => 0,
            FIFONr::FIFO1 => 1,
        }
    }
}

} // verus!
