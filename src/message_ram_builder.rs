use vstd::prelude::*;
use core::marker::PhantomData;
use crate::fdcan::FdCanInstance;
use crate::message_ram_layout::{
    extent, ChipFamily, DataFieldSize, MessageRamLayout, Region, TxBufferIdx,
};

verus! {

// The builder steps. The regions are allocated one after another in this order;
// the controller itself would accept any order, a fixed one keeps it simple.
pub struct ElevenBitFilters;

pub type RamBuilderInitialState = ElevenBitFilters;

pub struct TwentyNineBitFilters;

pub struct RxFifo0;

pub struct RxFifo1;

pub struct RxBuffers;

pub struct TxEventFifo;

pub struct TxBufferElementSize;

pub struct TxBuffers;

pub struct TriggerMemory;

/// Why a partition step failed. The builder is consumed by the failed step.
#[derive(Clone, Copy, Debug, PartialEq, Eq, Structural)]
pub enum MessageRamBuilderError {
    /// More elements than the region can hold on this chip family.
    TooManyElements,
    /// The region would end past the usable message RAM.
    OutOfMemory,
    /// Every channel of the chip already has its layout.
    TooManyInstances,
}

/// Outcome of reserving `len` elements of `element_words` words at cursor
/// `pos`, with at most `max` elements and the usable RAM ending at `end`:
/// the new cursor, or the error.
pub open spec fn alloc_outcome(pos: int, end: int, len: int, max: int, element_words: int) -> Result<
    int,
    MessageRamBuilderError,
> {
    if len > max {
        Err(MessageRamBuilderError::TooManyElements)
    } else if pos + extent(len, element_words) > end {
        Err(MessageRamBuilderError::OutOfMemory)
    } else {
        Ok(pos + extent(len, element_words))
    }
}

/// Partitions the message RAM into the regions of one channel after another.
pub struct MessageRamBuilder<S> {
    pub(crate) pos: u16,
    pub(crate) end: u16,
    pub(crate) layout: MessageRamLayout,
    /// The channel being laid out; it tags the transmit buffer handles.
    pub(crate) instance: Option<FdCanInstance>,
    pub(crate) _phantom: PhantomData<S>,
}

impl<S> MessageRamBuilder<S> {
    /// Word address where the next region starts.
    pub open(crate) spec fn cursor(self) -> int {
        self.pos as int
    }

    /// First word past the range that the builder may use.
    pub open(crate) spec fn limit(self) -> int {
        self.end as int
    }

    /// The layout as far as it is built.
    pub open(crate) spec fn partial(self) -> MessageRamLayout {
        self.layout
    }

    /// Channel being laid out, if any is left.
    pub open(crate) spec fn current(self) -> Option<FdCanInstance> {
        self.instance
    }

    /// The first `n` regions are allocated: each starts where the one before
    /// it ends, within its element limit, and the cursor is at the end of the
    /// last of them.
    pub open(crate) spec fn laid_out_before(self, n: int) -> bool {
        let l = self.layout;
        &&& self.pos <= self.end
        &&& self.end as int <= l.family.ram_words_spec() - 4
        &&& self.instance.is_some() ==> self.instance == Some(l.instance)
        &&& n >= 1 ==> self.instance.is_some()
        &&& n <= 5 ==> l.tx_buffers_len == 0
        &&& n >= 1 ==> l.end_of(region_at(n - 1)) == self.pos
        &&& n >= 1 ==> l.len_of(Region::ElevenBitFilters) <= l.family.max_elements_spec(Region::ElevenBitFilters)
        &&& n >= 2 ==> l.len_of(Region::TwentyNineBitFilters) <= l.family.max_elements_spec(Region::TwentyNineBitFilters)
            && l.addr_of(Region::TwentyNineBitFilters) == l.end_of(Region::ElevenBitFilters)
        &&& n >= 3 ==> l.len_of(Region::RxFifo0) <= l.family.max_elements_spec(Region::RxFifo0)
            && l.addr_of(Region::RxFifo0) == l.end_of(Region::TwentyNineBitFilters)
        &&& n >= 4 ==> l.len_of(Region::RxFifo1) <= l.family.max_elements_spec(Region::RxFifo1)
            && l.addr_of(Region::RxFifo1) == l.end_of(Region::RxFifo0)
        &&& n >= 5 ==> l.len_of(Region::RxBuffers) <= l.family.max_elements_spec(Region::RxBuffers)
            && l.addr_of(Region::RxBuffers) == l.end_of(Region::RxFifo1)
        &&& n >= 6 ==> l.len_of(Region::TxEventFifo) <= l.family.max_elements_spec(Region::TxEventFifo)
            && l.addr_of(Region::TxEventFifo) == l.end_of(Region::RxBuffers)
        &&& n >= 7 ==> l.len_of(Region::TxBuffers) <= l.family.max_elements_spec(Region::TxBuffers)
            && l.addr_of(Region::TxBuffers) == l.end_of(Region::TxEventFifo)
        &&& n >= 8 ==> l.len_of(Region::TriggerMemory) <= l.family.max_elements_spec(Region::TriggerMemory)
            && l.addr_of(Region::TriggerMemory) == l.end_of(Region::TxBuffers)
    }

    fn into_state<S2>(self) -> (r: MessageRamBuilder<S2>)
        ensures
            r.pos == self.pos,
            r.end == self.end,
            r.layout == self.layout,
            r.instance == self.instance,
    {
        MessageRamBuilder {
            pos: self.pos,
            end: self.end,
            layout: self.layout,
            instance: self.instance,
            _phantom: PhantomData,
        }
    }

    /// Chip family the builder partitions for.
    pub fn family(&self) -> (r: ChipFamily)
        ensures
            r == self.partial().family_spec(),
    {
        self.layout.family
    }

    /// Words that are still free.
    pub fn free_words(&self) -> (r: u16)
        requires
            self.cursor() <= self.limit(),
        ensures
            r == self.limit() - self.cursor(),
    {
        self.end - self.pos
    }
}

/// The region allocated `k`-th, counting from zero.
pub open spec fn region_at(k: int) -> Region {
    if k <= 0 {
        Region::ElevenBitFilters
    } else if k == 1 {
        Region::TwentyNineBitFilters
    } else if k == 2 {
        Region::RxFifo0
    } else if k == 3 {
        Region::RxFifo1
    } else if k == 4 {
        Region::RxBuffers
    } else if k == 5 {
        Region::TxEventFifo
    } else if k == 6 {
        Region::TxBuffers
    } else {
        Region::TriggerMemory
    }
}

/// Checks one allocation and returns the cursor after it.
fn check_and_advance(pos: u16, end: u16, len: u16, max: u8, element_words: u16) -> (r: Result<
    u16,
    MessageRamBuilderError,
>)
    requires
        pos <= end,
        len <= 512,
        element_words <= 18,
    ensures
        match r {
            Ok(p) => alloc_outcome(pos as int, end as int, len as int, max as int, element_words as int)
                == Ok::<int, MessageRamBuilderError>(p as int),
            Err(e) => alloc_outcome(pos as int, end as int, len as int, max as int, element_words as int)
                == Err::<int, MessageRamBuilderError>(e),
        },
{
    if len > max as u16 {
        return Err(MessageRamBuilderError::TooManyElements);
    }
    assert(4 * (len as int) * (element_words as int) <= 4 * 512 * 18) by (nonlinear_arith)
        requires
            len <= 512,
            element_words <= 18,
    ;
    let new_pos: u32 = pos as u32 + 4 * (len as u32) * (element_words as u32);
    if new_pos > end as u32 {
        return Err(MessageRamBuilderError::OutOfMemory);
    }
    Ok(new_pos as u16)
}

/// A builder for the first channel of a chip family, over the whole message
/// RAM but its four reserved trailing words.
pub(crate) fn message_ram_builder(family: ChipFamily) -> (r: MessageRamBuilder<ElevenBitFilters>)
    ensures
        r.cursor() == 0,
        r.limit() == family.ram_words_spec() - 4,
        r.current() == Some(FdCanInstance::FdCan1),
        r.partial() == MessageRamLayout::empty_spec(family, FdCanInstance::FdCan1),
        r.laid_out_before(0),
{
    let end = family.ram_words() as u16 - 4;
    MessageRamBuilder {
        pos: 0,
        end,
        layout: MessageRamLayout::empty(family, FdCanInstance::FdCan1),
        instance: Some(FdCanInstance::FdCan1),
        _phantom: PhantomData,
    }
}

impl MessageRamBuilder<ElevenBitFilters> {
    /// Allocates zero or more 11-bit filters and moves to the next step.
    pub fn allocate_11bit_filters(self, len: u8) -> (r: Result<MessageRamBuilder<TwentyNineBitFilters>, MessageRamBuilderError>)
        requires
            self.laid_out_before(0),
        ensures
            match r {
                Ok(b) => {
                &&& self.current().is_some()
                &&& alloc_outcome(
                    self.cursor(),
                    self.limit(),
                    len as int,
                    self.partial().family_spec().max_elements_spec(Region::ElevenBitFilters) as int,
                    1,
                ) == Ok::<int, MessageRamBuilderError>(b.cursor())
                &&& b.partial() == (self.partial().set_eleven_bit_filters_addr(self.cursor() as u16).set_eleven_bit_filters_len(len))
                &&& b.limit() == self.limit()
                &&& b.current() == self.current()
                &&& b.laid_out_before(1)
            },
                Err(e) => if self.current().is_none() {
                e == MessageRamBuilderError::TooManyInstances
            } else {
                alloc_outcome(
                    self.cursor(),
                    self.limit(),
                    len as int,
                    self.partial().family_spec().max_elements_spec(Region::ElevenBitFilters) as int,
                    1,
                ) == Err::<int, MessageRamBuilderError>(e)
            },
        },
    {
        if self.instance.is_none() {
            return Err(MessageRamBuilderError::TooManyInstances);
        }
        let max = self.layout.family.max_elements(Region::ElevenBitFilters);
        let new_pos = match check_and_advance(self.pos, self.end, len as u16, max, 1) {
            Ok(p) => p,
            Err(e) => return Err(e),
        };
        let mut s = self;
        s.layout.eleven_bit_filters_addr = s.pos;
        s.layout.eleven_bit_filters_len = len;
        s.pos = new_pos;
        Ok(s.into_state())
    }
}

impl MessageRamBuilder<TwentyNineBitFilters> {
    /// Allocates zero or more 29-bit filters and moves to the next step.
    pub fn allocate_29bit_filters(self, len: u8) -> (r: Result<MessageRamBuilder<RxFifo0>, MessageRamBuilderError>)
        requires
            self.laid_out_before(1),
        ensures
            match r {
                Ok(b) => {
                &&& alloc_outcome(
                    self.cursor(),
                    self.limit(),
                    len as int,
                    self.partial().family_spec().max_elements_spec(Region::TwentyNineBitFilters) as int,
                    2,
                ) == Ok::<int, MessageRamBuilderError>(b.cursor())
                &&& b.partial() == (self.partial().set_twenty_nine_bit_filters_addr(self.cursor() as u16).set_twenty_nine_bit_filters_len(len))
                &&& b.limit() == self.limit()
                &&& b.current() == self.current()
                &&& b.laid_out_before(2)
            },
                Err(e) => alloc_outcome(
                self.cursor(),
                self.limit(),
                len as int,
                self.partial().family_spec().max_elements_spec(Region::TwentyNineBitFilters) as int,
                2,
            ) == Err::<int, MessageRamBuilderError>(e),
        },
    {
        let max = self.layout.family.max_elements(Region::TwentyNineBitFilters);
        let new_pos = match check_and_advance(self.pos, self.end, len as u16, max, 2) {
            Ok(p) => p,
            Err(e) => return Err(e),
        };
        let mut s = self;
        s.layout.twenty_nine_bit_filters_addr = s.pos;
        s.layout.twenty_nine_bit_filters_len = len;
        s.pos = new_pos;
        Ok(s.into_state())
    }
}

impl MessageRamBuilder<RxFifo0> {
    /// Allocates zero or more RX FIFO 0 elements and moves to the next step.
    pub fn allocate_rx_fifo0_buffers(self, len: u8, data_size: DataFieldSize) -> (r: Result<MessageRamBuilder<RxFifo1>, MessageRamBuilderError>)
        requires
            self.laid_out_before(2),
        ensures
            match r {
                Ok(b) => {
                &&& alloc_outcome(
                    self.cursor(),
                    self.limit(),
                    len as int,
                    self.partial().family_spec().max_elements_spec(Region::RxFifo0) as int,
                    data_size.element_words() as int,
                ) == Ok::<int, MessageRamBuilderError>(b.cursor())
                &&& b.partial() == (self.partial().set_rx_fifo0_addr(self.cursor() as u16).set_rx_fifo0_len(len).set_rx_fifo0_data_size(data_size))
                &&& b.limit() == self.limit()
                &&& b.current() == self.current()
                &&& b.laid_out_before(3)
            },
                Err(e) => alloc_outcome(
                self.cursor(),
                self.limit(),
                len as int,
                self.partial().family_spec().max_elements_spec(Region::RxFifo0) as int,
                data_size.element_words() as int,
            ) == Err::<int, MessageRamBuilderError>(e),
        },
    {
        let max = self.layout.family.max_elements(Region::RxFifo0);
        let new_pos = match check_and_advance(self.pos, self.end, len as u16, max, 2 + data_size.words()) {
            Ok(p) => p,
            Err(e) => return Err(e),
        };
        let mut s = self;
        s.layout.rx_fifo0_addr = s.pos;
        s.layout.rx_fifo0_len = len;
        s.layout.rx_fifo0_data_size = data_size;
        s.pos = new_pos;
        Ok(s.into_state())
    }
}

impl MessageRamBuilder<RxFifo1> {
    /// Allocates zero or more RX FIFO 1 elements and moves to the next step.
    pub fn allocate_rx_fifo1_buffers(self, len: u8, data_size: DataFieldSize) -> (r: Result<MessageRamBuilder<RxBuffers>, MessageRamBuilderError>)
        requires
            self.laid_out_before(3),
        ensures
            match r {
                Ok(b) => {
                &&& alloc_outcome(
                    self.cursor(),
                    self.limit(),
                    len as int,
                    self.partial().family_spec().max_elements_spec(Region::RxFifo1) as int,
                    data_size.element_words() as int,
                ) == Ok::<int, MessageRamBuilderError>(b.cursor())
                &&& b.partial() == (self.partial().set_rx_fifo1_addr(self.cursor() as u16).set_rx_fifo1_len(len).set_rx_fifo1_data_size(data_size))
                &&& b.limit() == self.limit()
                &&& b.current() == self.current()
                &&& b.laid_out_before(4)
            },
                Err(e) => alloc_outcome(
                self.cursor(),
                self.limit(),
                len as int,
                self.partial().family_spec().max_elements_spec(Region::RxFifo1) as int,
                data_size.element_words() as int,
            ) == Err::<int, MessageRamBuilderError>(e),
        },
    {
        let max = self.layout.family.max_elements(Region::RxFifo1);
        let new_pos = match check_and_advance(self.pos, self.end, len as u16, max, 2 + data_size.words()) {
            Ok(p) => p,
            Err(e) => return Err(e),
        };
        let mut s = self;
        s.layout.rx_fifo1_addr = s.pos;
        s.layout.rx_fifo1_len = len;
        s.layout.rx_fifo1_data_size = data_size;
        s.pos = new_pos;
        Ok(s.into_state())
    }
}

impl MessageRamBuilder<RxBuffers> {
    /// Allocates zero or more dedicated RX buffers and moves to the next step.
    pub fn allocate_rx_buffers(self, len: u8, data_size: DataFieldSize) -> (r: Result<MessageRamBuilder<TxEventFifo>, MessageRamBuilderError>)
        requires
            self.laid_out_before(4),
        ensures
            match r {
                Ok(b) => {
                &&& alloc_outcome(
                    self.cursor(),
                    self.limit(),
                    len as int,
                    self.partial().family_spec().max_elements_spec(Region::RxBuffers) as int,
                    data_size.element_words() as int,
                ) == Ok::<int, MessageRamBuilderError>(b.cursor())
                &&& b.partial() == (self.partial().set_rx_buffers_addr(self.cursor() as u16).set_rx_buffers_len(len).set_rx_buffers_data_size(data_size))
                &&& b.limit() == self.limit()
                &&& b.current() == self.current()
                &&& b.laid_out_before(5)
            },
                Err(e) => alloc_outcome(
                self.cursor(),
                self.limit(),
                len as int,
                self.partial().family_spec().max_elements_spec(Region::RxBuffers) as int,
                data_size.element_words() as int,
            ) == Err::<int, MessageRamBuilderError>(e),
        },
    {
        let max = self.layout.family.max_elements(Region::RxBuffers);
        let new_pos = match check_and_advance(self.pos, self.end, len as u16, max, 2 + data_size.words()) {
            Ok(p) => p,
            Err(e) => return Err(e),
        };
        let mut s = self;
        s.layout.rx_buffers_addr = s.pos;
        s.layout.rx_buffers_len = len;
        s.layout.rx_buffers_data_size = data_size;
        s.pos = new_pos;
        Ok(s.into_state())
    }

    /// Leaves the dedicated RX buffer region empty and moves to the next step.
    pub fn skip_dedicated_buffers(self) -> (r: MessageRamBuilder<TxEventFifo>)
        requires
            self.laid_out_before(4),
        ensures
            r.cursor() == self.cursor(),
            r.partial() == (self.partial().set_rx_buffers_addr(self.cursor() as u16).set_rx_buffers_len(0)),
            r.limit() == self.limit(),
            r.current() == self.current(),
            r.laid_out_before(5),
    {
        let mut s = self;
        s.layout.rx_buffers_addr = s.pos;
        s.layout.rx_buffers_len = 0;
        proof {
            let w = s.layout.rx_buffers_data_size.element_words() as int;
            assert(extent(0, w) == 0) by (nonlinear_arith);
        }
        s.into_state()
    }
}

impl MessageRamBuilder<TxEventFifo> {
    /// Allocates zero or more TX event FIFO elements and moves to the next step.
    pub fn allocate_tx_event_fifo_buffers(self, len: u8) -> (r: Result<MessageRamBuilder<TxBufferElementSize>, MessageRamBuilderError>)
        requires
            self.laid_out_before(5),
        ensures
            match r {
                Ok(b) => {
                &&& alloc_outcome(
                    self.cursor(),
                    self.limit(),
                    len as int,
                    self.partial().family_spec().max_elements_spec(Region::TxEventFifo) as int,
                    2,
                ) == Ok::<int, MessageRamBuilderError>(b.cursor())
                &&& b.partial() == (self.partial().set_tx_event_fifo_addr(self.cursor() as u16).set_tx_event_fifo_len(len))
                &&& b.limit() == self.limit()
                &&& b.current() == self.current()
                &&& b.laid_out_before(6)
            },
                Err(e) => alloc_outcome(
                self.cursor(),
                self.limit(),
                len as int,
                self.partial().family_spec().max_elements_spec(Region::TxEventFifo) as int,
                2,
            ) == Err::<int, MessageRamBuilderError>(e),
        },
    {
        let max = self.layout.family.max_elements(Region::TxEventFifo);
        let new_pos = match check_and_advance(self.pos, self.end, len as u16, max, 2) {
            Ok(p) => p,
            Err(e) => return Err(e),
        };
        let mut s = self;
        s.layout.tx_event_fifo_addr = s.pos;
        s.layout.tx_event_fifo_len = len;
        s.pos = new_pos;
        Ok(s.into_state())
    }
}

impl MessageRamBuilder<TxBufferElementSize> {
    /// Fixes the payload capacity of the transmit buffer elements.
    pub fn tx_buffer_element_size(self, data_size: DataFieldSize) -> (r: MessageRamBuilder<TxBuffers>)
        requires
            self.laid_out_before(6),
        ensures
            r.cursor() == self.cursor(),
            r.partial() == (self.partial().set_tx_buffers_data_size(data_size)),
            r.limit() == self.limit(),
            r.current() == self.current(),
            r.laid_out_before(6),
    {
        let mut s = self;
        s.layout.tx_buffers_data_size = data_size;
        s.into_state()
    }

    /// Fixes the payload capacity of the transmit buffer elements and
    /// allocates `dedicated_buffers_len` dedicated buffers followed by a FIFO
    /// or queue of `fifo_or_queue_len` buffers, in one step.
    pub fn allocate_tx_buffers(
        self,
        dedicated_buffers_len: u8,
        fifo_or_queue_len: u8,
        data_size: DataFieldSize,
    ) -> (r: Result<MessageRamBuilder<TriggerMemory>, MessageRamBuilderError>)
        requires
            self.laid_out_before(6),
        ensures
            match r {
                Ok(b) => {
                    &&& alloc_outcome(
                        self.cursor(),
                        self.limit(),
                        dedicated_buffers_len + fifo_or_queue_len,
                        self.partial().family_spec().max_elements_spec(Region::TxBuffers) as int,
                        data_size.element_words() as int,
                    ) == Ok::<int, MessageRamBuilderError>(b.cursor())
                    &&& b.partial() == (self.partial().set_tx_buffers_addr(self.cursor() as u16).set_tx_buffers_len(dedicated_buffers_len).set_tx_fifo_or_queue_len(fifo_or_queue_len).set_tx_buffers_data_size(data_size))
                    &&& b.limit() == self.limit()
                    &&& b.current() == self.current()
                    &&& b.laid_out_before(7)
                },
                Err(e) => alloc_outcome(
                    self.cursor(),
                    self.limit(),
                    dedicated_buffers_len + fifo_or_queue_len,
                    self.partial().family_spec().max_elements_spec(Region::TxBuffers) as int,
                    data_size.element_words() as int,
                ) == Err::<int, MessageRamBuilderError>(e),
            },
    {
        let len: u16 = dedicated_buffers_len as u16 + fifo_or_queue_len as u16;
        let max = self.layout.family.max_elements(Region::TxBuffers);
        let new_pos = match check_and_advance(self.pos, self.end, len, max, 2 + data_size.words()) {
            Ok(p) => p,
            Err(e) => return Err(e),
        };
        let mut s = self;
        s.layout.tx_buffers_addr = s.pos;
        s.layout.tx_buffers_len = dedicated_buffers_len;
        s.layout.tx_fifo_or_queue_len = fifo_or_queue_len;
        s.layout.tx_buffers_data_size = data_size;
        s.pos = new_pos;
        Ok(s.into_state())
    }
}

impl MessageRamBuilder<TxBuffers> {
    /// Allocates one more dedicated transmit buffer and returns its handle,
    /// tagged with the channel being laid out. Its RAM is reserved by
    /// [`Self::allocate_fifo_or_queue`], together with the FIFO or queue.
    pub fn allocate_dedicated_tx_buffer(self) -> (r: Result<(TxBufferIdx, Self), MessageRamBuilderError>)
        requires
            self.laid_out_before(6),
        ensures
            match r {
                Ok((idx, b)) => {
                    &&& self.partial().tx_buffers_len_spec() < self.partial().family_spec().max_elements_spec(
                        Region::TxBuffers,
                    )
                    &&& idx.owner() == self.current().unwrap()
                    &&& idx.slot() == self.partial().tx_buffers_len_spec()
                    &&& b.partial() == (self.partial().set_tx_buffers_len((self.partial().tx_buffers_len_spec() + 1) as u8))
                    &&& b.cursor() == self.cursor()
                    &&& b.limit() == self.limit()
                    &&& b.current() == self.current()
                    &&& b.laid_out_before(6)
                },
                Err(e) => {
                    &&& self.partial().tx_buffers_len_spec() >= self.partial().family_spec().max_elements_spec(
                        Region::TxBuffers,
                    )
                    &&& e == MessageRamBuilderError::TooManyElements
                },
            },
    {
        let idx = self.layout.tx_buffers_len;
        let max = self.layout.family.max_elements(Region::TxBuffers);
        if idx >= max {
            return Err(MessageRamBuilderError::TooManyElements);
        }
        let instance = match self.instance {
            Some(i) => i,
            None => return Err(MessageRamBuilderError::TooManyInstances),
        };
        let mut s = self;
        s.layout.tx_buffers_len = idx + 1;
        Ok((TxBufferIdx { instance, idx }, s))
    }

    /// Allocates the dedicated transmit buffers handed out so far followed by
    /// a FIFO or queue of `fifo_or_queue_len` buffers; together they may not
    /// exceed the region's limit.
    pub fn allocate_fifo_or_queue(self, fifo_or_queue_len: u8) -> (r: Result<
        MessageRamBuilder<TriggerMemory>,
        MessageRamBuilderError,
    >)
        requires
            self.laid_out_before(6),
        ensures
            match r {
                Ok(b) => {
                    &&& alloc_outcome(
                        self.cursor(),
                        self.limit(),
                        self.partial().tx_buffers_len_spec() + fifo_or_queue_len,
                        self.partial().family_spec().max_elements_spec(Region::TxBuffers) as int,
                        self.partial().tx_buffers_data_size_spec().element_words() as int,
                    ) == Ok::<int, MessageRamBuilderError>(b.cursor())
                    &&& b.partial() == (self.partial().set_tx_buffers_addr(self.cursor() as u16).set_tx_fifo_or_queue_len(fifo_or_queue_len))
                    &&& b.limit() == self.limit()
                    &&& b.current() == self.current()
                    &&& b.laid_out_before(7)
                },
                Err(e) => alloc_outcome(
                    self.cursor(),
                    self.limit(),
                    self.partial().tx_buffers_len_spec() + fifo_or_queue_len,
                    self.partial().family_spec().max_elements_spec(Region::TxBuffers) as int,
                    self.partial().tx_buffers_data_size_spec().element_words() as int,
                ) == Err::<int, MessageRamBuilderError>(e),
            },
    {
        let len: u16 = self.layout.tx_buffers_len as u16 + fifo_or_queue_len as u16;
        let max = self.layout.family.max_elements(Region::TxBuffers);
        let words = 2 + self.layout.tx_buffers_data_size.words();
        let new_pos = match check_and_advance(self.pos, self.end, len, max, words) {
            Ok(p) => p,
            Err(e) => return Err(e),
        };
        let mut s = self;
        s.layout.tx_buffers_addr = s.pos;
        s.layout.tx_fifo_or_queue_len = fifo_or_queue_len;
        s.pos = new_pos;
        Ok(s.into_state())
    }
}

impl MessageRamBuilder<TriggerMemory> {
    /// Allocates zero or more trigger memory elements and completes the
    /// layout. Also returns a builder positioned after it, for the next
    /// channel of the chip, if there is one.
    pub fn allocate_triggers(self, len: u8) -> (r: Result<
        (MessageRamLayout, MessageRamBuilder<ElevenBitFilters>),
        MessageRamBuilderError,
    >)
        requires
            self.laid_out_before(7),
        ensures
            match r {
                Ok((layout, next)) => {
                    &&& alloc_outcome(
                        self.cursor(),
                        self.limit(),
                        len as int,
                        self.partial().family_spec().max_elements_spec(Region::TriggerMemory) as int,
                        2,
                    ) == Ok::<int, MessageRamBuilderError>(next.cursor())
                    &&& layout == (self.partial().set_trigger_memory_addr(self.cursor() as u16).set_trigger_memory_len(len))
                    &&& layout.laid_out_within(self.limit())
                    &&& layout.wf()
                    &&& layout.end_of(Region::TriggerMemory) == next.cursor()
                    &&& next.limit() == self.limit()
                    &&& next.current() == layout.family_spec().next_instance_spec(layout.instance_spec())
                    &&& next.partial().family_spec() == layout.family_spec()
                    &&& next.laid_out_before(0)
                },
                Err(e) => alloc_outcome(
                    self.cursor(),
                    self.limit(),
                    len as int,
                    self.partial().family_spec().max_elements_spec(Region::TriggerMemory) as int,
                    2,
                ) == Err::<int, MessageRamBuilderError>(e),
            },
    {
        let max = self.layout.family.max_elements(Region::TriggerMemory);
        let new_pos = match check_and_advance(self.pos, self.end, len as u16, max, 2) {
            Ok(p) => p,
            Err(e) => return Err(e),
        };
        let mut layout = self.layout;
        layout.trigger_memory_addr = self.pos;
        layout.trigger_memory_len = len;
        let family = layout.family;
        let next_instance = family.next_instance(layout.instance);
        let next_layout = match next_instance {
            Some(i) => MessageRamLayout::empty(family, i),
            None => MessageRamLayout::empty(family, layout.instance),
        };
        let next = MessageRamBuilder {
            pos: new_pos,
            end: self.end,
            layout: next_layout,
            instance: next_instance,
            _phantom: PhantomData,
        };
        Ok((layout, next))
    }
}

impl MessageRamLayout {
    /// A builder over the words that this layout occupies, for the channel
    /// it was made for: that channel can be partitioned anew without
    /// touching the RAM of any other.
    pub fn relayout(self) -> (r: MessageRamBuilder<ElevenBitFilters>)
        requires
            self.wf(),
        ensures
            r.cursor() == self.addr_of(Region::ElevenBitFilters),
            r.limit() == self.end_of(Region::TriggerMemory),
            r.current() == Some(self.instance_spec()),
            r.partial() == MessageRamLayout::empty_spec(self.family_spec(), self.instance_spec()),
            r.laid_out_before(0),
    {
        let end = self.trigger_memory_addr + 8 * (self.trigger_memory_len as u16);
        MessageRamBuilder {
            pos: self.eleven_bit_filters_addr,
            end,
            layout: MessageRamLayout::empty(self.family, self.instance),
            instance: Some(self.instance),
            _phantom: PhantomData,
        }
    }
}

/// A layout for one channel: one 11-bit and one 29-bit filter, one RX FIFO 0
/// element, one TX event FIFO element and one transmit FIFO element, all
/// data elements of 64 bytes.
pub fn basic_layout(builder: MessageRamBuilder<RamBuilderInitialState>) -> (r: Result<
    (MessageRamLayout, MessageRamBuilder<RamBuilderInitialState>),
    MessageRamBuilderError,
>)
    requires
        builder.laid_out_before(0),
    ensures
        match r {
            Ok((layout, next)) => {
                &&& layout.wf()
                &&& builder.current() == Some(layout.instance_spec())
                &&& layout.addr_of(Region::ElevenBitFilters) == builder.cursor()
                &&& layout.len_of(Region::ElevenBitFilters) == 1
                &&& layout.len_of(Region::TwentyNineBitFilters) == 1
                &&& layout.len_of(Region::RxFifo0) == 1
                &&& layout.len_of(Region::RxFifo1) == 0
                &&& layout.len_of(Region::RxBuffers) == 0
                &&& layout.len_of(Region::TxEventFifo) == 1
                &&& layout.len_of(Region::TxBuffers) == 1
                &&& layout.tx_buffers_len_spec() == 0
                &&& layout.tx_fifo_or_queue_len_spec() == 1
                &&& layout.len_of(Region::TriggerMemory) == 0
                &&& layout.rx_fifo0_data_size_spec() == DataFieldSize::_64Bytes
                &&& layout.rx_fifo1_data_size_spec() == DataFieldSize::_64Bytes
                &&& layout.tx_buffers_data_size_spec() == DataFieldSize::_64Bytes
                &&& layout.addr_of(Region::TwentyNineBitFilters) == builder.cursor() + 4
                &&& layout.addr_of(Region::RxFifo0) == builder.cursor() + 12
                &&& layout.addr_of(Region::RxFifo1) == builder.cursor() + 84
                &&& layout.addr_of(Region::RxBuffers) == builder.cursor() + 84
                &&& layout.addr_of(Region::TxEventFifo) == builder.cursor() + 84
                &&& layout.addr_of(Region::TxBuffers) == builder.cursor() + 92
                &&& layout.addr_of(Region::TriggerMemory) == builder.cursor() + 164
                &&& next.cursor() == builder.cursor() + 164
                &&& next.limit() == builder.limit()
                &&& next.current() == layout.family_spec().next_instance_spec(layout.instance_spec())
                &&& next.laid_out_before(0)
            },
            Err(e) => if builder.current().is_none() {
                e == MessageRamBuilderError::TooManyInstances
            } else {
                e == MessageRamBuilderError::OutOfMemory
            },
        },
        r is Ok <==> builder.current().is_some() && builder.cursor() + 164 <= builder.limit(),
{
    let b = match builder.allocate_11bit_filters(1) {
        Ok(b) => b,
        Err(e) => return Err(e),
    };
    let b = match b.allocate_29bit_filters(1) {
        Ok(b) => b,
        Err(e) => return Err(e),
    };
    let b = match b.allocate_rx_fifo0_buffers(1, DataFieldSize::_64Bytes) {
        Ok(b) => b,
        Err(e) => return Err(e),
    };
    let b = match b.allocate_rx_fifo1_buffers(0, DataFieldSize::_64Bytes) {
        Ok(b) => b,
        Err(e) => return Err(e),
    };
    let b = b.skip_dedicated_buffers();
    let b = match b.allocate_tx_event_fifo_buffers(1) {
        Ok(b) => b,
        Err(e) => return Err(e),
    };
    let b = b.tx_buffer_element_size(DataFieldSize::_64Bytes);
    let b = match b.allocate_fifo_or_queue(1) {
        Ok(b) => b,
        Err(e) => return Err(e),
    };
    b.allocate_triggers(0)
}

/// Sum of the extents of a sequence of allocations.
pub open spec fn total_extent(lens: Seq<int>, words: Seq<int>) -> int
    decreases lens.len(),
{
    if lens.len() == 0 {
        0
    } else {
        extent(lens[0], words[0]) + total_extent(lens.drop_first(), words.drop_first())
    }
}

/// Start addresses of a sequence of allocations made one after another from
/// cursor `pos`, as the builder steps make them, or the first error.
pub open spec fn partition(pos: int, end: int, lens: Seq<int>, maxes: Seq<int>, words: Seq<int>) -> Result<
    Seq<int>,
    MessageRamBuilderError,
>
    decreases lens.len(),
{
    if lens.len() == 0 {
        Ok(Seq::empty())
    } else {
        match alloc_outcome(pos, end, lens[0], maxes[0], words[0]) {
            Err(e) => Err(e),
            Ok(p) => match partition(p, end, lens.drop_first(), maxes.drop_first(), words.drop_first()) {
                Err(e) => Err(e),
                Ok(rest) => Ok(seq![pos].add(rest)),
            },
        }
    }
}

proof fn lemma_extent_nonneg(len: int, w: int)
    requires
        len >= 0,
        w >= 0,
    ensures
        extent(len, w) >= 0,
{
    assert(4 * len * w >= 0) by (nonlinear_arith)
        requires
            len >= 0,
            w >= 0,
    ;
}

proof fn lemma_total_extent_nonneg(lens: Seq<int>, words: Seq<int>)
    requires
        lens.len() == words.len(),
        forall|i: int| 0 <= i < lens.len() ==> lens[i] >= 0 && words[i] >= 0,
    ensures
        total_extent(lens, words) >= 0,
    decreases lens.len(),
{
    if lens.len() > 0 {
        lemma_extent_nonneg(lens[0], words[0]);
        lemma_total_extent_nonneg(lens.drop_first(), words.drop_first());
    }
}

/// Partitioning succeeds exactly when every count is within its region's
/// limit and the regions together fit between the cursor and the end of the
/// usable RAM. The regions then start in order, each where the one before
/// it ends, and none overlaps another or passes the end. With every count
/// within its limit a partition that does not fit fails with `OutOfMemory`;
/// one that fits but exceeds a limit fails with `TooManyElements`.
pub proof fn lemma_partition(pos: int, end: int, lens: Seq<int>, maxes: Seq<int>, words: Seq<int>)
    requires
        lens.len() == maxes.len(),
        lens.len() == words.len(),
        forall|i: int| 0 <= i < lens.len() ==> lens[i] >= 0 && words[i] >= 1,
        pos <= end,
    ensures
        partition(pos, end, lens, maxes, words) is Ok <==> (forall|i: int|
            0 <= i < lens.len() ==> lens[i] <= maxes[i]) && pos + total_extent(lens, words) <= end,
        (forall|i: int| 0 <= i < lens.len() ==> lens[i] <= maxes[i]) && pos + total_extent(lens, words)
            > end ==> partition(pos, end, lens, maxes, words) == Err::<Seq<int>, MessageRamBuilderError>(
            MessageRamBuilderError::OutOfMemory,
        ),
        (exists|i: int| 0 <= i < lens.len() && lens[i] > maxes[i]) && pos + total_extent(lens, words)
            <= end ==> partition(pos, end, lens, maxes, words) == Err::<Seq<int>, MessageRamBuilderError>(
            MessageRamBuilderError::TooManyElements,
        ),
        partition(pos, end, lens, maxes, words) is Ok ==> {
            let addrs = partition(pos, end, lens, maxes, words)->Ok_0;
            &&& addrs.len() == lens.len()
            &&& lens.len() > 0 ==> addrs[0] == pos
            &&& forall|i: int| 0 <= i < addrs.len() ==> pos <= #[trigger] addrs[i] && addrs[i] + extent(lens[i], words[i]) <= end
            &&& forall|i: int| 0 <= i < addrs.len() - 1 ==> #[trigger] addrs[i + 1] == addrs[i] + extent(lens[i], words[i])
            &&& forall|i: int, j: int| 0 <= i < j < addrs.len() ==> #[trigger] addrs[i] + extent(lens[i], words[i]) <= #[trigger] addrs[j]
        },
    decreases lens.len(),
{
    if lens.len() > 0 {
        let (l0, m0, w0) = (lens[0], maxes[0], words[0]);
        let (lr, mr, wr) = (lens.drop_first(), maxes.drop_first(), words.drop_first());
        lemma_extent_nonneg(l0, w0);
        lemma_total_extent_nonneg(lr, wr);
        let p = pos + extent(l0, w0);
        assert(forall|i: int| 0 <= i < lr.len() ==> lr[i] == lens[i + 1] && mr[i] == maxes[i + 1]);
        assert((forall|i: int| 0 <= i < lens.len() ==> lens[i] <= maxes[i]) <==> l0 <= m0 && (forall|i: int|
            0 <= i < lr.len() ==> lr[i] <= mr[i])) by {
            if l0 <= m0 && (forall|i: int| 0 <= i < lr.len() ==> lr[i] <= mr[i]) {
                assert forall|i: int| 0 <= i < lens.len() implies lens[i] <= maxes[i] by {
                    if i > 0 {
                        assert(lr[i - 1] <= mr[i - 1]);
                    }
                }
            }
        }
        if (exists|i: int| 0 <= i < lens.len() && lens[i] > maxes[i]) && l0 <= m0 {
            let i = choose|i: int| 0 <= i < lens.len() && lens[i] > maxes[i];
            assert(lr[i - 1] > mr[i - 1]);
        }
        if l0 <= m0 && p <= end {
            lemma_partition(p, end, lr, mr, wr);
            let pr = partition(p, end, lr, mr, wr);
            if pr is Ok {
                let rest = pr->Ok_0;
                let addrs = seq![pos].add(rest);
                assert(partition(pos, end, lens, maxes, words) == Ok::<Seq<int>, MessageRamBuilderError>(addrs));
                assert forall|i: int| 0 <= i < addrs.len() implies pos <= #[trigger] addrs[i] && addrs[i] + extent(lens[i], words[i]) <= end by {
                    if i > 0 {
                        assert(addrs[i] == rest[i - 1]);
                    }
                }
                assert forall|i: int| 0 <= i < addrs.len() - 1 implies #[trigger] addrs[i + 1] == addrs[i] + extent(lens[i], words[i]) by {
                    if i > 0 {
                        assert(addrs[i] == rest[i - 1]);
                        assert(addrs[i + 1] == rest[i]);
                    }
                }
                assert forall|i: int, j: int| 0 <= i < j < addrs.len() implies #[trigger] addrs[i] + extent(lens[i], words[i]) <= #[trigger] addrs[j] by {
                    assert(addrs[j] == rest[j - 1]);
                    if i > 0 {
                        assert(addrs[i] == rest[i - 1]);
                    }
                }
            }
        }
    }
}

} // verus!
