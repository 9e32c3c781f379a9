use vstd::prelude::*;
use core::marker::PhantomData;
use crate::config::FdCanConfig;
use crate::fdcan::{Error, FdCan, FdCanInstance, PoweredDownMode};
use crate::message_ram_builder::{message_ram_builder, MessageRamBuilder, RamBuilderInitialState};
use crate::message_ram_layout::{ChipFamily, MessageRamLayout};
use crate::message_ram::MessageRam;
use crate::registers::Registers;

verus! {

/// Input of the clock multiplexer that feeds the channels.
#[derive(Clone, Copy, Debug, PartialEq, Eq, Structural)]
pub enum ClockSource {
    Pclk1,
    Hse,
    Pll1Q,
    Pll2Q,
    Reserved,
}

/// The clock control bits shared by all channels: one enable, one reset and
/// one clock source serve them all.
#[derive(Clone, Copy, Debug, PartialEq, Eq, Structural)]
pub struct Rcc {
    /// Peripheral clock enable.
    pub fdcan_enabled: bool,
    /// Peripheral reset.
    pub fdcan_reset: bool,
    /// Selected kernel clock source.
    pub source: ClockSource,
    /// The external oscillator runs.
    pub hse_on: bool,
    /// Output Q of PLL 1 is enabled.
    pub pll1_q_on: bool,
    /// Output Q of PLL 2 is enabled.
    pub pll2_q_on: bool,
}

impl Rcc {
    /// The selected clock source runs.
    pub open spec fn source_running(self) -> bool {
        match self.source {
            ClockSource::Pclk1 => true,
            ClockSource::Hse => self.hse_on,
            ClockSource::Pll1Q => self.pll1_q_on,
            ClockSource::Pll2Q => self.pll2_q_on,
            ClockSource::Reserved => false,
        }
    }

    /// The selected clock source runs.
    pub fn is_source_running(&self) -> (r: bool)
        ensures
            r == self.source_running(),
    {
        match self.source {
            ClockSource::Pclk1 => true,
            ClockSource::Hse => self.hse_on,
            ClockSource::Pll1Q => self.pll1_q_on,
            ClockSource::Pll2Q => self.pll2_q_on,
            ClockSource::Reserved => false,
        }
    }
}

/// Guards the message RAM of the chip: its first builder can be had once.
pub struct MessageRamGuard {
    taken: bool,
}

impl MessageRamGuard {
    /// Whether the builder was handed out.
    pub closed spec fn is_taken(self) -> bool {
        self.taken
    }

    /// A guard whose builder is still to be had.
    pub fn new() -> (r: Self)
        ensures
            !r.is_taken(),
    {
        MessageRamGuard { taken: false }
    }
}

/// Owns the powered-down channels of a chip, one slot per channel, and the
/// clock control that all of them share.
pub struct FdCanInstances {
    family: ChipFamily,
    fdcan1: Option<FdCan<PoweredDownMode>>,
    fdcan2: Option<FdCan<PoweredDownMode>>,
    fdcan3: Option<FdCan<PoweredDownMode>>,
    rcc: Rcc,
}

/// Whether the family has a channel with this identity.
pub open spec fn has_channel(family: ChipFamily, i: FdCanInstance) -> bool {
    family == ChipFamily::H7 || i != FdCanInstance::FdCan3
}

impl FdCanInstances {
    /// Chip family.
    pub closed spec fn family_spec(self) -> ChipFamily {
        self.family
    }

    /// Shared clock control.
    pub closed spec fn rcc_spec(self) -> Rcc {
        self.rcc
    }

    /// The channel in the slot of `i`, if it is there.
    pub closed spec fn slot(self, i: FdCanInstance) -> Option<FdCan<PoweredDownMode>> {
        match i {
            FdCanInstance::FdCan1 => self.fdcan1,
            FdCanInstance::FdCan2 => self.fdcan2,
            FdCanInstance::FdCan3 => self.fdcan3,
        }
    }

    /// Every channel of the family is in its slot.
    pub open spec fn all_present(self) -> bool {
        forall|i: FdCanInstance| has_channel(self.family_spec(), i) ==> (#[trigger] self.slot(i)).is_some()
    }

    /// Each slot holds the channel of its identity, well formed, for this
    /// family; a family without a third channel leaves its slot empty.
    pub open(crate) spec fn wf(self) -> bool {
        &&& forall|i: FdCanInstance| #[trigger]
            self.slot(i).is_some() ==> {
                &&& has_channel(self.family_spec(), i)
                &&& self.slot(i).unwrap().channel() == i
                &&& self.slot(i).unwrap().wf()
                &&& self.slot(i).unwrap().cached().layout.family == self.family_spec()
            }
    }

    /// The clock control.
    pub fn rcc(&self) -> (r: Rcc)
        ensures
            r == self.rcc_spec(),
    {
        self.rcc
    }

    /// Whether the slot of `i` holds its channel.
    pub fn is_present(&self, i: FdCanInstance) -> (r: bool)
        ensures
            r == self.slot(i).is_some(),
    {
        match i {
            FdCanInstance::FdCan1 => self.fdcan1.is_some(),
            FdCanInstance::FdCan2 => self.fdcan2.is_some(),
            FdCanInstance::FdCan3 => self.fdcan3.is_some(),
        }
    }

    fn all_present_exec(&self) -> (r: bool)
        ensures
            r == self.all_present(),
    {
        let r = self.fdcan1.is_some() && self.fdcan2.is_some() && (self.family == ChipFamily::G0
            || self.fdcan3.is_some());
        proof {
            if r {
                assert forall|i: FdCanInstance| has_channel(self.family_spec(), i) implies (#[trigger] self.slot(
                    i,
                )).is_some() by {}
            } else {
                if self.fdcan1.is_none() {
                    assert(!self.slot(FdCanInstance::FdCan1).is_some());
                } else if self.fdcan2.is_none() {
                    assert(!self.slot(FdCanInstance::FdCan2).is_some());
                } else {
                    assert(!self.slot(FdCanInstance::FdCan3).is_some());
                }
            }
        }
        r
    }

    /// A manager with no channel, for a chip family and its clock control.
    pub fn empty(family: ChipFamily, rcc: Rcc) -> (r: Self)
        ensures
            r.family_spec() == family,
            r.rcc_spec() == rcc,
            forall|i: FdCanInstance| (#[trigger] r.slot(i)).is_none(),
            r.wf(),
    {
        FdCanInstances { family, fdcan1: None, fdcan2: None, fdcan3: None, rcc }
    }

    /// Takes the message RAM of the chip and creates its channels, powered
    /// down, with the shared clock disabled. Also returns the message RAM,
    /// shared by the channels, and the builder of the first channel's
    /// layout. Fails with `PeripheralTaken` where the guard has already
    /// handed out the message RAM.
    pub fn new(guard: &mut MessageRamGuard, family: ChipFamily, rcc: Rcc) -> (r: Result<
        (Self, MessageRam, MessageRamBuilder<RamBuilderInitialState>),
        Error,
    >)
        ensures
            final(guard).is_taken(),
            match r {
                Ok((s, ram, b)) => {
                    &&& !old(guard).is_taken()
                    &&& ram.family_spec() == family
                    &&& ram.wf()
                    &&& s.family_spec() == family
                    &&& s.rcc_spec() == (Rcc { fdcan_enabled: false, ..rcc })
                    &&& s.all_present()
                    &&& s.wf()
                    &&& b.cursor() == 0
                    &&& b.limit() == family.ram_words_spec() - 4
                    &&& b.partial() == MessageRamLayout::empty_spec(family, FdCanInstance::FdCan1)
                    &&& b.current() == Some(FdCanInstance::FdCan1)
                    &&& b.partial().family_spec() == family
                    &&& b.laid_out_before(0)
                },
                Err(e) => old(guard).is_taken() && e == Error::PeripheralTaken,
            },
    {
        if guard.taken {
            return Err(Error::PeripheralTaken);
        }
        guard.taken = true;
        let builder = message_ram_builder(family);
        let ram = MessageRam::new(family);
        let fdcan3 = match family {
            ChipFamily::H7 => Some(new_channel(FdCanInstance::FdCan3, family)),
            ChipFamily::G0 => None,
        };
        let s = FdCanInstances {
            family,
            fdcan1: Some(new_channel(FdCanInstance::FdCan1, family)),
            fdcan2: Some(new_channel(FdCanInstance::FdCan2, family)),
            fdcan3,
            rcc: Rcc { fdcan_enabled: false, ..rcc },
        };
        proof {
            assert forall|i: FdCanInstance| has_channel(s.family_spec(), i) implies (#[trigger] s.slot(
                i,
            )).is_some() by {}
        }
        Ok((s, ram, builder))
    }

    /// Enables the shared clock if it is off, then takes the channel `instance`
    /// out of its slot. Enabling needs every channel in its slot (else
    /// `MissingInstance`) and a running clock source (else
    /// `ClockSourceIsDisabled`); it resets the peripheral, enables its clock
    /// and releases the reset. An empty slot gives `PeripheralTaken`.
    pub fn take_enabled(&mut self, instance: FdCanInstance) -> (r: Result<FdCan<PoweredDownMode>, Error>)
        requires
            old(self).wf(),
        ensures
            final(self).wf(),
            final(self).family_spec() == old(self).family_spec(),
            if !old(self).rcc_spec().fdcan_enabled && !old(self).all_present() {
                &&& r == Err::<FdCan<PoweredDownMode>, Error>(Error::MissingInstance)
                &&& *final(self) == *old(self)
            } else if !old(self).rcc_spec().fdcan_enabled && !old(self).rcc_spec().source_running() {
                &&& r == Err::<FdCan<PoweredDownMode>, Error>(Error::ClockSourceIsDisabled)
                &&& *final(self) == *old(self)
            } else {
                &&& final(self).rcc_spec() == (Rcc {
                    fdcan_enabled: true,
                    fdcan_reset: if old(self).rcc_spec().fdcan_enabled {
                        old(self).rcc_spec().fdcan_reset
                    } else {
                        false
                    },
                    ..old(self).rcc_spec()
                })
                &&& forall|i: FdCanInstance|
                    i != instance ==> #[trigger] final(self).slot(i) == old(self).slot(i)
                &&& final(self).slot(instance).is_none()
                &&& match r {
                    Ok(c) => Some(c) == old(self).slot(instance),
                    Err(e) => e == Error::PeripheralTaken && old(self).slot(instance).is_none(),
                }
            },
    {
        if !self.rcc.fdcan_enabled {
            match self.enable_reset() {
                Ok(()) => {},
                Err(e) => return Err(e),
            }
        }
        let ghost mid = *self;
        assert(forall|i: FdCanInstance| #[trigger] mid.slot(i) == old(self).slot(i));
        let taken = match instance {
            FdCanInstance::FdCan1 => self.fdcan1.take(),
            FdCanInstance::FdCan2 => self.fdcan2.take(),
            FdCanInstance::FdCan3 => self.fdcan3.take(),
        };
        assert(forall|i: FdCanInstance| i != instance ==> #[trigger] self.slot(i) == mid.slot(i));
        assert(self.slot(instance).is_none());
        assert(taken == mid.slot(instance));
        assert(mid.slot(instance) == old(self).slot(instance));
        proof {
            assert forall|i: FdCanInstance| #[trigger] self.slot(i).is_some() implies {
                &&& has_channel(self.family_spec(), i)
                &&& self.slot(i).unwrap().channel() == i
                &&& self.slot(i).unwrap().wf()
                &&& self.slot(i).unwrap().cached().layout.family == self.family_spec()
            } by {
                assert(mid.slot(i) == old(self).slot(i));
                assert(old(self).slot(i).is_some());
            }
        }
        match taken {
            Some(c) => Ok(c),
            None => Err(Error::PeripheralTaken),
        }
    }

    /// Enables the shared clock with a reset of the peripheral, where every
    /// channel is in its slot and the clock source runs.
    fn enable_reset(&mut self) -> (r: Result<(), Error>)
        ensures
            if !old(self).all_present() {
                &&& r == Err::<(), Error>(Error::MissingInstance)
                &&& *final(self) == *old(self)
            } else if !old(self).rcc_spec().source_running() {
                &&& r == Err::<(), Error>(Error::ClockSourceIsDisabled)
                &&& *final(self) == *old(self)
            } else {
                &&& r is Ok
                &&& final(self).rcc_spec() == (Rcc {
                    fdcan_enabled: true,
                    fdcan_reset: false,
                    ..old(self).rcc_spec()
                })
                &&& final(self).family_spec() == old(self).family_spec()
                &&& forall|i: FdCanInstance| #[trigger] final(self).slot(i) == old(self).slot(i)
            },
    {
        if !self.all_present_exec() {
            return Err(Error::MissingInstance);
        }
        if !self.rcc.is_source_running() {
            return Err(Error::ClockSourceIsDisabled);
        }
        self.rcc.fdcan_reset = true;
        self.rcc.fdcan_enabled = true;
        self.rcc.fdcan_reset = false;
        Ok(())
    }

    /// Disables the shared clock. Every channel must be in its slot, else
    /// `MissingInstance` and nothing changes.
    pub fn disable(&mut self) -> (r: Result<(), Error>)
        ensures
            if old(self).all_present() {
                &&& r is Ok
                &&& final(self).rcc_spec() == (Rcc { fdcan_enabled: false, ..old(self).rcc_spec() })
                &&& forall|i: FdCanInstance| #[trigger] final(self).slot(i) == old(self).slot(i)
                &&& final(self).family_spec() == old(self).family_spec()
            } else {
                &&& r == Err::<(), Error>(Error::MissingInstance)
                &&& *final(self) == *old(self)
            },
    {
        if !self.all_present_exec() {
            return Err(Error::MissingInstance);
        }
        self.rcc.fdcan_enabled = false;
        Ok(())
    }

    /// Returns a powered-down channel to its slot. Fails with
    /// `WrongInstance`, changing nothing, where the slot is occupied, the
    /// channel is not `instance`, or the family has no such channel.
    pub fn put_back(&mut self, fdcan: FdCan<PoweredDownMode>, instance: FdCanInstance) -> (r: Result<(), Error>)
        requires
            old(self).wf(),
            fdcan.wf(),
            fdcan.cached().layout.family_spec() == old(self).family_spec(),
        ensures
            final(self).wf(),
            final(self).family_spec() == old(self).family_spec(),
            final(self).rcc_spec() == old(self).rcc_spec(),
            if old(self).slot(instance).is_some() || fdcan.channel() != instance || !has_channel(
                old(self).family_spec(),
                instance,
            ) {
                &&& r == Err::<(), Error>(Error::WrongInstance)
                &&& *final(self) == *old(self)
            } else {
                &&& r is Ok
                &&& final(self).slot(instance) == Some(fdcan)
                &&& forall|i: FdCanInstance| i != instance ==> #[trigger] final(self).slot(i) == old(self).slot(i)
            },
    {
        if fdcan.instance != instance || (self.family == ChipFamily::G0 && instance
            == FdCanInstance::FdCan3) {
            return Err(Error::WrongInstance);
        }
        match instance {
            FdCanInstance::FdCan1 => {
                if self.fdcan1.is_some() {
                    return Err(Error::WrongInstance);
                }
                self.fdcan1 = Some(fdcan);
            },
            FdCanInstance::FdCan2 => {
                if self.fdcan2.is_some() {
                    return Err(Error::WrongInstance);
                }
                self.fdcan2 = Some(fdcan);
            },
            FdCanInstance::FdCan3 => {
                if self.fdcan3.is_some() {
                    return Err(Error::WrongInstance);
                }
                self.fdcan3 = Some(fdcan);
            },
        }
        proof {
            assert forall|i: FdCanInstance| #[trigger] self.slot(i).is_some() implies {
                &&& has_channel(self.family_spec(), i)
                &&& self.slot(i).unwrap().channel() == i
                &&& self.slot(i).unwrap().wf()
                &&& self.slot(i).unwrap().cached().layout.family == self.family_spec()
            } by {
                if i != instance {
                    assert(old(self).slot(i).is_some());
                }
            }
        }
        Ok(())
    }
}

/// A channel just out of reset, powered down, with the default
/// configuration of its family.
fn new_channel(instance: FdCanInstance, family: ChipFamily) -> (r: FdCan<PoweredDownMode>)
    ensures
        r.channel() == instance,
        r.wf(),
        r.cached().layout.family == family,
{
    FdCan {
        can: Registers::reset_value(),
        instance,
        config: FdCanConfig::default_for(family),
        _mode: PhantomData,
    }
}

} // verus!
