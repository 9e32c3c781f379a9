use vstd::prelude::*;
use core::marker::PhantomData;
use crate::config::FdCanConfig;
use crate::registers::{
    Cccr, Registers, CORE_ENDIANNESS_SENTINEL, SUPPORTED_CORE_RELEASE,
};
use crate::transition::{entry_start, Phase, Transition};

verus! {

/// Errors of the mode transitions, the ownership manager and the transport.
#[derive(Clone, Copy, Debug, PartialEq, Eq, Structural)]
pub enum Error {
    /// A channel, or the message RAM, was acquired twice.
    PeripheralTaken,
    /// The clock source selected for the peripheral is not running.
    ClockSourceIsDisabled,
    /// The endianness test register does not hold its fixed value.
    CoreCommunicationFailed,
    /// The core release is not the one this driver supports.
    UnsupportedCoreVersion,
    /// A bounded hardware handshake did not complete in its iteration budget.
    Timeout,
    /// Not every channel is back in the manager, which a clock operation needs.
    MissingInstance,
    /// A channel was returned twice, or a handle was used with another channel.
    WrongInstance,
    /// A transmit buffer handle does not name a dedicated buffer of the layout.
    TxBufferIndexOutOfRange,
    /// The payload length has no data length code within the element size.
    WrongDataSize,
}

/// Identity of a physical channel.
#[derive(Clone, Copy, Debug, PartialEq, Eq, Structural)]
pub enum FdCanInstance {
    FdCan1,
    FdCan2,
    FdCan3,
}

/// One channel in the mode `M`.
pub struct FdCan<M> {
    pub(crate) can: Registers,
    pub(crate) instance: FdCanInstance,
    pub(crate) config: FdCanConfig,
    pub(crate) _mode: PhantomData<M>,
}

/// Modes in which frames can be transmitted.
pub trait Transmit {}

/// Modes in which frames can be received.
pub trait Receive {}

/// Clock stopped; the channel can enter the configuration mode.
pub struct PoweredDownMode;

/// Protected configuration: the configuration registers are writable.
pub struct ConfigMode;

/// Hot self-test: the receive pin is disconnected, the transmit pin held
/// recessive, and transmitted frames are received back.
pub struct InternalLoopbackMode;

/// Self-test with the transmitted frames fed back internally and still
/// driven on the transmit pin.
pub struct ExternalLoopbackMode;

/// Normal operation on the bus.
pub struct NormalOperationMode;

/// Receives and acknowledges frames but transmits none.
pub struct RestrictedOperationMode;

/// Receives frames and sends only recessive bits.
pub struct BusMonitoringMode;

/// Production test mode.
pub struct TestMode;

impl Transmit for InternalLoopbackMode {}

impl Receive for InternalLoopbackMode {}

impl Transmit for ExternalLoopbackMode {}

impl Receive for ExternalLoopbackMode {}

impl Transmit for NormalOperationMode {}

impl Receive for NormalOperationMode {}

impl Receive for RestrictedOperationMode {}

impl Receive for BusMonitoringMode {}

/// The operating modes that the configuration mode can exit to, as
/// selected by the mode bits.
#[derive(Clone, Copy, Debug, PartialEq, Eq, Structural)]
pub enum ModeSelect {
    Normal,
    InternalLoopback,
    ExternalLoopback,
    Restricted,
    BusMonitoring,
    Test,
}

impl ModeSelect {
    /// Test mode, bus monitoring, loopback and restricted operation bits of
    /// the mode.
    pub open spec fn bits(self) -> (bool, bool, bool, bool) {
        match self {
            ModeSelect::Normal => (false, false, false, false),
            ModeSelect::InternalLoopback => (true, true, true, false),
            ModeSelect::ExternalLoopback => (true, false, true, false),
            ModeSelect::Restricted => (false, false, false, true),
            ModeSelect::BusMonitoring => (false, true, false, false),
            ModeSelect::Test => (true, false, false, false),
        }
    }
}

/// Registers with every mode bit set as a mode needs it, whatever an earlier
/// mode left there.
pub open spec fn mode_select(regs: Registers, m: ModeSelect) -> Registers {
    let (test, mon, lbck, restricted) = m.bits();
    Registers { cccr: Cccr { test, mon, restricted_op: restricted, ..regs.cccr }, test_lbck: lbck, ..regs }
}

impl<M> FdCan<M> {
    /// Register state of the channel.
    pub open(crate) spec fn regs(self) -> Registers {
        self.can
    }

    /// Identity of the channel.
    pub open(crate) spec fn channel(self) -> FdCanInstance {
        self.instance
    }

    /// The cached configuration.
    pub open(crate) spec fn cached(self) -> FdCanConfig {
        self.config
    }

    /// The cached configuration is valid.
    pub open(crate) spec fn wf(self) -> bool {
        self.config.wf()
    }

    pub(crate) fn into_mode<M2>(self) -> (r: FdCan<M2>)
        ensures
            r.regs() == self.regs(),
            r.channel() == self.channel(),
            r.cached() == self.cached(),
    {
        FdCan {
            can: self.can,
            instance: self.instance,
            config: self.config,
            _mode: PhantomData,
        }
    }

    /// Identity of the channel.
    pub fn instance(&self) -> (r: FdCanInstance)
        ensures
            r == self.channel(),
    {
        self.instance
    }

    /// The cached configuration.
    pub fn config(&self) -> (r: FdCanConfig)
        ensures
            r == self.cached(),
    {
        self.config
    }

    /// Current register state.
    pub fn registers(&self) -> (r: Registers)
        ensures
            r == self.regs(),
    {
        self.can
    }

    /// Replaces the register state with what the hardware now shows: the
    /// hardware side of the register-access capability.
    pub fn set_registers(&mut self, regs: Registers)
        ensures
            final(self).regs() == regs,
            final(self).channel() == old(self).channel(),
            final(self).cached() == old(self).cached(),
    {
        self.can = regs;
    }

    fn check_core(&self) -> (r: Result<(), Error>)
        ensures
            r == (if self.regs().endn != CORE_ENDIANNESS_SENTINEL {
                Err::<(), Error>(Error::CoreCommunicationFailed)
            } else if self.regs().crel_rel != SUPPORTED_CORE_RELEASE {
                Err(Error::UnsupportedCoreVersion)
            } else {
                Ok(())
            }),
    {
        if self.can.endn != CORE_ENDIANNESS_SENTINEL {
            return Err(Error::CoreCommunicationFailed);
        }
        if self.can.crel_rel != SUPPORTED_CORE_RELEASE {
            return Err(Error::UnsupportedCoreVersion);
        }
        Ok(())
    }

    /// Sets every mode bit as an operating mode needs it.
    pub(crate) fn set_mode_select(&mut self, m: ModeSelect)
        ensures
            final(self).regs() == mode_select(old(self).regs(), m),
            final(self).channel() == old(self).channel(),
            final(self).cached() == old(self).cached(),
    {
        let (test, mon, lbck, restricted) = match m {
            ModeSelect::Normal => (false, false, false, false),
            ModeSelect::InternalLoopback => (true, true, true, false),
            ModeSelect::ExternalLoopback => (true, false, true, false),
            ModeSelect::Restricted => (false, false, false, true),
            ModeSelect::BusMonitoring => (false, true, false, false),
            ModeSelect::Test => (true, false, false, false),
        };
        let c = Cccr { test, mon, restricted_op: restricted, ..self.can.cccr };
        self.can = Registers { cccr: c, test_lbck: lbck, ..self.can };
    }
}

impl FdCan<PoweredDownMode> {
    /// Starts the entry into the configuration mode, from the latest reading
    /// of the registers: checks the core's identity and release, then
    /// requests the release of clock stop. The returned transition waits for
    /// that (long budget), then for the init state (short budget), and
    /// zeroes the message RAM. On a mismatch the channel comes back
    /// unchanged with the error.
    pub fn into_config_mode(self) -> (r: Result<Transition<PoweredDownMode, ConfigMode>, (Error, FdCan<PoweredDownMode>)>)
        requires
            self.wf(),
        ensures
            match r {
                Ok(t) => {
                    &&& entry_start(self.regs()) == Ok::<Registers, Error>(t.state().regs())
                    &&& t.phase_spec() == Phase::ReleaseClockStop
                    &&& t.elapsed_spec() == 0
                    &&& t.state().cached() == self.cached()
                    &&& t.state().channel() == self.channel()
                    &&& t.state().wf()
                },
                Err((e, p)) => {
                    &&& entry_start(self.regs()) == Err::<Registers, Error>(e)
                    &&& p == self
                },
            },
    {
        match self.check_core() {
            Ok(()) => {},
            Err(e) => return Err((e, self)),
        }
        let mut s = self;
        s.can.request_clock_stop(false);
        Ok(Transition::new(s, Phase::ReleaseClockStop, false))
    }
}

impl FdCan<NormalOperationMode> {
    /// Starts the move from normal operation to power down: requests clock stop. The
    /// returned transition waits for it within the long budget. Clock stop
    /// is reached in the end whatever the wait saw, so the channel is
    /// powered down on either outcome.
    pub fn into_powered_down(self) -> (r: Transition<PoweredDownMode, PoweredDownMode>)
        requires
            self.wf(),
        ensures
            r.state().regs() == self.regs().clock_stop_requested(true),
            r.phase_spec() == Phase::StopClock,
            r.elapsed_spec() == 0,
            !r.leaves_init(),
            r.state().cached() == self.cached(),
            r.state().channel() == self.channel(),
            r.state().wf(),
    {
        let mut s = self;
        s.can.request_clock_stop(true);
        Transition::new(s.into_mode(), Phase::StopClock, false)
    }
}

impl FdCan<InternalLoopbackMode> {
    /// Starts the move from internal loopback to power down: requests clock stop. The
    /// returned transition waits for it within the long budget. Clock stop
    /// is reached in the end whatever the wait saw, so the channel is
    /// powered down on either outcome.
    pub fn into_powered_down(self) -> (r: Transition<PoweredDownMode, PoweredDownMode>)
        requires
            self.wf(),
        ensures
            r.state().regs() == self.regs().clock_stop_requested(true),
            r.phase_spec() == Phase::StopClock,
            r.elapsed_spec() == 0,
            !r.leaves_init(),
            r.state().cached() == self.cached(),
            r.state().channel() == self.channel(),
            r.state().wf(),
    {
        let mut s = self;
        s.can.request_clock_stop(true);
        Transition::new(s.into_mode(), Phase::StopClock, false)
    }
}

impl FdCan<ExternalLoopbackMode> {
    /// Starts the move from external loopback to power down: requests clock stop. The
    /// returned transition waits for it within the long budget. Clock stop
    /// is reached in the end whatever the wait saw, so the channel is
    /// powered down on either outcome.
    pub fn into_powered_down(self) -> (r: Transition<PoweredDownMode, PoweredDownMode>)
        requires
            self.wf(),
        ensures
            r.state().regs() == self.regs().clock_stop_requested(true),
            r.phase_spec() == Phase::StopClock,
            r.elapsed_spec() == 0,
            !r.leaves_init(),
            r.state().cached() == self.cached(),
            r.state().channel() == self.channel(),
            r.state().wf(),
    {
        let mut s = self;
        s.can.request_clock_stop(true);
        Transition::new(s.into_mode(), Phase::StopClock, false)
    }
}

impl FdCan<RestrictedOperationMode> {
    /// Starts the move from restricted operation to power down: requests clock stop. The
    /// returned transition waits for it within the long budget. Clock stop
    /// is reached in the end whatever the wait saw, so the channel is
    /// powered down on either outcome.
    pub fn into_powered_down(self) -> (r: Transition<PoweredDownMode, PoweredDownMode>)
        requires
            self.wf(),
        ensures
            r.state().regs() == self.regs().clock_stop_requested(true),
            r.phase_spec() == Phase::StopClock,
            r.elapsed_spec() == 0,
            !r.leaves_init(),
            r.state().cached() == self.cached(),
            r.state().channel() == self.channel(),
            r.state().wf(),
    {
        let mut s = self;
        s.can.request_clock_stop(true);
        Transition::new(s.into_mode(), Phase::StopClock, false)
    }
}

impl FdCan<BusMonitoringMode> {
    /// Starts the move from bus monitoring to power down: requests clock stop. The
    /// returned transition waits for it within the long budget. Clock stop
    /// is reached in the end whatever the wait saw, so the channel is
    /// powered down on either outcome.
    pub fn into_powered_down(self) -> (r: Transition<PoweredDownMode, PoweredDownMode>)
        requires
            self.wf(),
        ensures
            r.state().regs() == self.regs().clock_stop_requested(true),
            r.phase_spec() == Phase::StopClock,
            r.elapsed_spec() == 0,
            !r.leaves_init(),
            r.state().cached() == self.cached(),
            r.state().channel() == self.channel(),
            r.state().wf(),
    {
        let mut s = self;
        s.can.request_clock_stop(true);
        Transition::new(s.into_mode(), Phase::StopClock, false)
    }
}

impl FdCan<TestMode> {
    /// Starts the move from the test mode to power down: requests clock stop. The
    /// returned transition waits for it within the long budget. Clock stop
    /// is reached in the end whatever the wait saw, so the channel is
    /// powered down on either outcome.
    pub fn into_powered_down(self) -> (r: Transition<PoweredDownMode, PoweredDownMode>)
        requires
            self.wf(),
        ensures
            r.state().regs() == self.regs().clock_stop_requested(true),
            r.phase_spec() == Phase::StopClock,
            r.elapsed_spec() == 0,
            !r.leaves_init(),
            r.state().cached() == self.cached(),
            r.state().channel() == self.channel(),
            r.state().wf(),
    {
        let mut s = self;
        s.can.request_clock_stop(true);
        Transition::new(s.into_mode(), Phase::StopClock, false)
    }
}

} // verus!
