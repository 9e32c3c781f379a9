use mcan::{
    basic_layout, ChipFamily, ClockSource, DataFieldSize, FdCanInstance, FdCanInstances,
    MessageRamBuilder, MessageRamBuilderError, MessageRamGuard, RamBuilderInitialState, Rcc,
    Region,
};

fn message_ram_builder(family: ChipFamily) -> MessageRamBuilder<RamBuilderInitialState> {
    let rcc = Rcc {
        fdcan_enabled: false,
        fdcan_reset: false,
        source: ClockSource::Pclk1,
        hse_on: false,
        pll1_q_on: false,
        pll2_q_on: false,
    };
    let mut guard = MessageRamGuard::new();
    FdCanInstances::new(&mut guard, family, rcc).ok().unwrap().2
}

#[test]
fn basic_layout_regions_follow_each_other() {
    let (layout, _next) = match basic_layout(message_ram_builder(ChipFamily::H7)) {
        Ok(r) => r,
        Err(_) => panic!("basic layout must fit"),
    };
    assert_eq!(layout.region(Region::ElevenBitFilters), (0, 1));
    assert_eq!(layout.region(Region::TwentyNineBitFilters), (4, 1));
    assert_eq!(layout.region(Region::RxFifo0), (12, 1));
    assert_eq!(layout.region(Region::RxFifo1), (84, 0));
    assert_eq!(layout.region(Region::RxBuffers), (84, 0));
    assert_eq!(layout.region(Region::TxEventFifo), (84, 1));
    assert_eq!(layout.region(Region::TxBuffers), (92, 1));
    assert_eq!(layout.region(Region::TriggerMemory), (164, 0));
    assert_eq!(layout.instance(), FdCanInstance::FdCan1);
}

#[test]
fn consecutive_channels_do_not_overlap() {
    let (first, next) = basic_layout(message_ram_builder(ChipFamily::H7)).ok().unwrap();
    let (second, _) = basic_layout(next).ok().unwrap();
    assert_eq!(second.instance(), FdCanInstance::FdCan2);
    let first_end = first.region(Region::TriggerMemory).0;
    assert_eq!(second.region(Region::ElevenBitFilters).0, first_end);
    assert!(second.region(Region::TwentyNineBitFilters).0 > first_end);
}

#[test]
fn too_many_eleven_bit_filters() {
    let r = message_ram_builder(ChipFamily::H7).allocate_11bit_filters(129);
    assert!(matches!(r, Err(MessageRamBuilderError::TooManyElements)));
    let r = message_ram_builder(ChipFamily::H7).allocate_11bit_filters(128);
    assert!(r.is_ok());
    let r = message_ram_builder(ChipFamily::G0).allocate_11bit_filters(29);
    assert!(matches!(r, Err(MessageRamBuilderError::TooManyElements)));
}

#[test]
fn out_of_memory_on_small_ram() {
    let b = message_ram_builder(ChipFamily::G0);
    assert_eq!(b.free_words(), 508);
    let b = b.allocate_11bit_filters(28).ok().unwrap();
    let b = b.allocate_29bit_filters(8).ok().unwrap();
    let b = b.allocate_rx_fifo0_buffers(3, DataFieldSize::_64Bytes).ok().unwrap();
    assert_eq!(b.free_words(), 508 - 112 - 64 - 216);
    let r = b.allocate_rx_fifo1_buffers(3, DataFieldSize::_64Bytes);
    assert!(matches!(r, Err(MessageRamBuilderError::OutOfMemory)));
}

#[test]
fn exact_fit_is_accepted() {
    let b = message_ram_builder(ChipFamily::G0);
    let b = b.allocate_11bit_filters(28).ok().unwrap();
    let b = b.allocate_29bit_filters(8).ok().unwrap();
    let b = b.allocate_rx_fifo0_buffers(3, DataFieldSize::_64Bytes).ok().unwrap();
    let b = b.allocate_rx_fifo1_buffers(1, DataFieldSize::_8Bytes).ok().unwrap();
    assert_eq!(b.free_words(), 116 - 16);
}

#[test]
fn too_many_instances_after_last_channel() {
    let (_, b) = basic_layout(message_ram_builder(ChipFamily::G0)).ok().unwrap();
    let (_, b) = basic_layout(b).ok().unwrap();
    let r = b.allocate_11bit_filters(0);
    assert!(matches!(r, Err(MessageRamBuilderError::TooManyInstances)));
}

#[test]
fn three_channels_on_h7() {
    let (_, b) = basic_layout(message_ram_builder(ChipFamily::H7)).ok().unwrap();
    let (_, b) = basic_layout(b).ok().unwrap();
    let (third, b) = basic_layout(b).ok().unwrap();
    assert_eq!(third.instance(), FdCanInstance::FdCan3);
    assert!(matches!(basic_layout(b), Err(MessageRamBuilderError::TooManyInstances)));
}

#[test]
fn dedicated_tx_buffers_get_consecutive_handles() {
    let b = message_ram_builder(ChipFamily::H7)
        .allocate_11bit_filters(3).ok().unwrap()
        .allocate_29bit_filters(3).ok().unwrap()
        .allocate_rx_fifo0_buffers(3, DataFieldSize::_64Bytes).ok().unwrap()
        .allocate_rx_fifo1_buffers(0, DataFieldSize::_64Bytes).ok().unwrap()
        .allocate_rx_buffers(3, DataFieldSize::_64Bytes).ok().unwrap()
        .allocate_tx_event_fifo_buffers(3).ok().unwrap()
        .tx_buffer_element_size(DataFieldSize::_64Bytes);
    let (i0, b) = b.allocate_dedicated_tx_buffer().ok().unwrap();
    let (i1, b) = b.allocate_dedicated_tx_buffer().ok().unwrap();
    let (i2, b) = b.allocate_dedicated_tx_buffer().ok().unwrap();
    assert_eq!((i0.idx(), i1.idx(), i2.idx()), (0, 1, 2));
    assert_eq!(i2.instance(), FdCanInstance::FdCan1);
    let (layout, _) = b.allocate_fifo_or_queue(3).ok().unwrap().allocate_triggers(0).ok().unwrap();
    assert_eq!(layout.dedicated_tx_buffers(), 3);
    assert_eq!(layout.tx_fifo_or_queue_len(), 3);
    assert_eq!(layout.region(Region::TxBuffers).1, 6);
}

#[test]
fn dedicated_and_queue_together_limited() {
    let mut b = message_ram_builder(ChipFamily::H7)
        .allocate_11bit_filters(0).ok().unwrap()
        .allocate_29bit_filters(0).ok().unwrap()
        .allocate_rx_fifo0_buffers(0, DataFieldSize::_8Bytes).ok().unwrap()
        .allocate_rx_fifo1_buffers(0, DataFieldSize::_8Bytes).ok().unwrap()
        .skip_dedicated_buffers()
        .allocate_tx_event_fifo_buffers(0).ok().unwrap()
        .tx_buffer_element_size(DataFieldSize::_8Bytes);
    for _ in 0..32 {
        b = b.allocate_dedicated_tx_buffer().ok().unwrap().1;
    }
    assert!(matches!(
        b.allocate_dedicated_tx_buffer(),
        Err(MessageRamBuilderError::TooManyElements)
    ));
}

#[test]
fn queue_over_limit_with_dedicated() {
    let b = message_ram_builder(ChipFamily::H7)
        .allocate_11bit_filters(0).ok().unwrap()
        .allocate_29bit_filters(0).ok().unwrap()
        .allocate_rx_fifo0_buffers(0, DataFieldSize::_8Bytes).ok().unwrap()
        .allocate_rx_fifo1_buffers(0, DataFieldSize::_8Bytes).ok().unwrap()
        .skip_dedicated_buffers()
        .allocate_tx_event_fifo_buffers(0).ok().unwrap()
        .tx_buffer_element_size(DataFieldSize::_8Bytes);
    let (_, b) = b.allocate_dedicated_tx_buffer().ok().unwrap();
    assert!(matches!(b.allocate_fifo_or_queue(32), Err(MessageRamBuilderError::TooManyElements)));
}

#[test]
fn tx_buffers_in_one_step() {
    let b = message_ram_builder(ChipFamily::H7)
        .allocate_11bit_filters(1).ok().unwrap()
        .allocate_29bit_filters(1).ok().unwrap()
        .allocate_rx_fifo0_buffers(1, DataFieldSize::_64Bytes).ok().unwrap()
        .allocate_rx_fifo1_buffers(0, DataFieldSize::_64Bytes).ok().unwrap()
        .skip_dedicated_buffers()
        .allocate_tx_event_fifo_buffers(1).ok().unwrap();
    let (layout, _) = b
        .allocate_tx_buffers(1, 1, DataFieldSize::_64Bytes).ok().unwrap()
        .allocate_triggers(0).ok().unwrap();
    assert_eq!(layout.region(Region::TxBuffers), (92, 2));
    assert_eq!(layout.dedicated_tx_buffers(), 1);
    assert_eq!(layout.region(Region::TriggerMemory).0, 92 + 2 * 18 * 4);
}

#[test]
fn trigger_memory_absent_on_g0() {
    let b = message_ram_builder(ChipFamily::G0)
        .allocate_11bit_filters(0).ok().unwrap()
        .allocate_29bit_filters(0).ok().unwrap()
        .allocate_rx_fifo0_buffers(0, DataFieldSize::_8Bytes).ok().unwrap()
        .allocate_rx_fifo1_buffers(0, DataFieldSize::_8Bytes).ok().unwrap()
        .skip_dedicated_buffers()
        .allocate_tx_event_fifo_buffers(0).ok().unwrap()
        .tx_buffer_element_size(DataFieldSize::_8Bytes)
        .allocate_fifo_or_queue(0).ok().unwrap();
    assert!(matches!(b.allocate_triggers(1), Err(MessageRamBuilderError::TooManyElements)));
}

#[test]
fn relayout_reuses_own_words_only() {
    let (layout, _) = basic_layout(message_ram_builder(ChipFamily::H7)).ok().unwrap();
    let b = layout.relayout();
    assert_eq!(b.free_words(), 164);
    let (again, _) = basic_layout(b).ok().unwrap();
    assert_eq!(again.region(Region::TxBuffers), layout.region(Region::TxBuffers));
    let b = layout.relayout();
    let r = b.allocate_11bit_filters(42);
    assert!(matches!(r, Err(MessageRamBuilderError::OutOfMemory)));
}

#[test]
fn data_field_size_round_trip() {
    let all = [
        DataFieldSize::_8Bytes,
        DataFieldSize::_12Bytes,
        DataFieldSize::_16Bytes,
        DataFieldSize::_20Bytes,
        DataFieldSize::_24Bytes,
        DataFieldSize::_32Bytes,
        DataFieldSize::_48Bytes,
        DataFieldSize::_64Bytes,
    ];
    let words = [2, 3, 4, 5, 6, 8, 12, 16];
    let bytes = [8, 12, 16, 20, 24, 32, 48, 64];
    for (i, s) in all.iter().enumerate() {
        assert_eq!(s.config_register(), i as u8);
        assert_eq!(DataFieldSize::from_config_register(s.config_register()), Some(*s));
        assert_eq!(s.words(), words[i]);
        assert_eq!(s.max_len(), bytes[i]);
    }
    assert_eq!(DataFieldSize::from_config_register(8), None);
}

#[test]
fn standard_filter_element_word() {
    let e = mcan::filter::StandardFilterElement {
        sft: mcan::filter::StandardFilterType::Classic,
        sfec: mcan::filter::StandardFilterConfiguration::StoreInFIFO1,
        sfid1: 0x123,
        ssync: true,
        sfid2: 0x7FF,
    };
    let w = e.into_bits();
    assert_eq!(w, (0b10 << 30) | (0b010 << 27) | (0x123 << 16) | (1 << 15) | 0x7FF);
    assert_eq!(mcan::filter::StandardFilterElement::from_bits(w), e);
    assert_eq!(mcan::filter::StandardFilterType::from_bits(3), mcan::filter::StandardFilterType::Disabled);
    assert_eq!(
        mcan::filter::StandardFilterConfiguration::from_bits(7),
        mcan::filter::StandardFilterConfiguration::StoreAsDebugMessage
    );
}
