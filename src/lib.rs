//! Driver core for a Bosch M_CAN compatible CAN-FD controller: the mode state
//! machine, the message RAM partition builder, the clock/ownership manager of
//! the channels and the frame transport.
//!
//! The peripheral's control registers and its message RAM are held as plain
//! values ([`registers::Registers`] and a vector of RAM words), so that every
//! register write the driver performs is part of the verified behaviour.

pub mod asynchronous;
pub mod config;
pub mod fdcan;
pub mod filter;
pub mod instances;
pub mod message_ram;
pub mod message_ram_builder;
pub mod message_ram_layout;
pub mod registers;
pub mod transition;
pub mod tx_rx;
pub mod util;

pub use config::{DataBitTiming, NominalBitTiming};
pub use fdcan::{
    BusMonitoringMode, ConfigMode, Error, ExternalLoopbackMode, FdCan, FdCanInstance,
    InternalLoopbackMode, NormalOperationMode, PoweredDownMode, RestrictedOperationMode,
    Receive, TestMode, Transmit,
};
pub use message_ram_layout::{
    ChipFamily, DataFieldSize, FIFONr, MessageRamLayout, Region, TxBufferIdx,
};
pub use message_ram_builder::{
    basic_layout, MessageRamBuilder, MessageRamBuilderError, RamBuilderInitialState,
};
pub use transition::{Phase, Progress, Transition};
pub use util::PollStep;
pub use tx_rx::{AbortStart, AbortStep, Dlc, ExtendedId, Id, RxFrameInfo, StandardId, TxFrameHeader};
pub use message_ram::MessageRam;
pub use instances::{ClockSource, FdCanInstances, MessageRamGuard, Rcc};
