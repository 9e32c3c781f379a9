use vstd::prelude::*;
use core::marker::PhantomData;
use crate::config::{configured, FdCanConfig};
use crate::fdcan::{Error, FdCan};
use crate::message_ram::MessageRam;
use crate::registers::{Cccr, Probe, Registers, CORE_ENDIANNESS_SENTINEL, SUPPORTED_CORE_RELEASE};
use crate::util::{poll_outcome, poll_step, PollStep};

verus! {

/// The hardware acknowledgement a mode transition waits for.
#[derive(Clone, Copy, Debug, PartialEq, Eq, Structural)]
pub enum Phase {
    /// Clock stop released (long budget).
    ReleaseClockStop,
    /// Init state entered (short budget).
    EnterInit,
    /// Clock stopped (long budget).
    StopClock,
    /// Init state left (short budget).
    LeaveInit,
}

impl Phase {
    /// Condition the phase polls for.
    pub open spec fn probe_spec(self) -> Probe {
        match self {
            Phase::ReleaseClockStop => Probe::ClockStop(false),
            Phase::EnterInit => Probe::Init(true),
            Phase::StopClock => Probe::ClockStop(true),
            Phase::LeaveInit => Probe::Init(false),
        }
    }

    /// Poll budget of the phase under a configuration.
    pub open spec fn budget_spec(self, cfg: FdCanConfig) -> u32 {
        match self {
            Phase::ReleaseClockStop | Phase::StopClock => cfg.timeout_iterations_long,
            Phase::EnterInit | Phase::LeaveInit => cfg.timeout_iterations_short,
        }
    }

    fn probe(&self) -> (r: Probe)
        ensures
            r == self.probe_spec(),
    {
        match self {
            Phase::ReleaseClockStop => Probe::ClockStop(false),
            Phase::EnterInit => Probe::Init(true),
            Phase::StopClock => Probe::ClockStop(true),
            Phase::LeaveInit => Probe::Init(false),
        }
    }

    fn budget(&self, cfg: &FdCanConfig) -> (r: u32)
        ensures
            r == self.budget_spec(*cfg),
    {
        match self {
            Phase::ReleaseClockStop | Phase::StopClock => cfg.timeout_iterations_long,
            Phase::EnterInit | Phase::LeaveInit => cfg.timeout_iterations_short,
        }
    }
}

/// Registers after the writes that end the configuration mode: the whole
/// configuration, then configuration writes disabled, then the init bit
/// cleared.
pub open spec fn leave_writes(regs: Registers, cfg: FdCanConfig) -> Registers {
    let r1 = configured(regs, cfg);
    Registers { cccr: Cccr { cce: false, init: false, ..r1.cccr }, ..r1 }
}

/// Registers after the first write of an entry into the configuration mode,
/// or the error of the identity check that comes before it.
pub open spec fn entry_start(regs: Registers) -> Result<Registers, Error> {
    if regs.endn != CORE_ENDIANNESS_SENTINEL {
        Err(Error::CoreCommunicationFailed)
    } else if regs.crel_rel != SUPPORTED_CORE_RELEASE {
        Err(Error::UnsupportedCoreVersion)
    } else {
        Ok(regs.clock_stop_requested(false))
    }
}

/// A mode transition of a channel waiting on a hardware acknowledgement. It
/// ends in mode `N`, or fails with the channel in mode `F`. Each call of
/// [`Transition::step`] takes a fresh reading of the channel's registers.
pub struct Transition<F, N> {
    pub(crate) can: FdCan<F>,
    pub(crate) phase: Phase,
    pub(crate) elapsed: u32,
    /// After clock stop, leave the init state too.
    pub(crate) leave_after_stop: bool,
    pub(crate) _to: PhantomData<N>,
}

/// Where a transition stands after one step.
pub enum Progress<F, N> {
    /// Still waiting: step again with a new reading.
    Waiting(Transition<F, N>),
    /// The channel is in its new mode.
    Done(FdCan<N>),
    /// A wait ran out of its budget.
    Failed(Error, FdCan<F>),
}

impl<F, N> Transition<F, N> {
    /// The channel as the transition holds it.
    pub open(crate) spec fn state(self) -> FdCan<F> {
        self.can
    }

    /// The acknowledgement being waited for.
    pub open(crate) spec fn phase_spec(self) -> Phase {
        self.phase
    }

    /// Readings taken in the current phase.
    pub open(crate) spec fn elapsed_spec(self) -> u32 {
        self.elapsed
    }

    /// Whether the init state is left after clock stop.
    pub open(crate) spec fn leaves_init(self) -> bool {
        self.leave_after_stop
    }

    pub(crate) fn new(can: FdCan<F>, phase: Phase, leave_after_stop: bool) -> (r: Self)
        ensures
            r.state() == can,
            r.phase_spec() == phase,
            r.elapsed_spec() == 0,
            r.leaves_init() == leave_after_stop,
    {
        Transition { can, phase, elapsed: 0, leave_after_stop, _to: PhantomData }
    }

    /// The registers to be written to the hardware before the next reading.
    pub fn registers(&self) -> (r: Registers)
        ensures
            r == self.state().regs(),
    {
        self.can.can
    }

    /// Identity of the channel in transition.
    pub fn instance(&self) -> (r: crate::fdcan::FdCanInstance)
        ensures
            r == self.state().channel(),
    {
        self.can.instance
    }

    /// The acknowledgement being waited for.
    pub fn phase(&self) -> (r: Phase)
        ensures
            r == self.phase_spec(),
    {
        self.phase
    }

    /// Takes one fresh reading of the channel's registers and goes on: reads
    /// again while the acknowledgement is missing and the phase's budget
    /// lasts, fails with `Timeout` when it runs out, and on the
    /// acknowledgement makes the next writes. Clock stop released, it
    /// requests the init state; the init state entered, it enables
    /// configuration writes and writes zero to the whole message RAM (the
    /// regions of every channel); clock stopped, it either ends or writes
    /// the configuration and leaves the init state; init left, it ends.
    pub fn step(self, observed: Registers, ram: &mut MessageRam) -> (r: Progress<F, N>)
        requires
            self.state().wf(),
            old(ram).wf(),
        ensures
            final(ram).wf(),
            final(ram).family_spec() == old(ram).family_spec(),
            ({
                let cfg = self.state().cached();
                let o = poll_outcome(self.phase_spec().probe_spec(), observed, self.elapsed_spec(), self.phase_spec().budget_spec(cfg));
                match r {
                    Progress::Waiting(t) => {
                        &&& t.state().cached() == cfg
                        &&& t.state().channel() == self.state().channel()
                        &&& t.state().wf()
                        &&& t.leaves_init() == self.leaves_init()
                        &&& final(ram).contents() == old(ram).contents()
                        &&& if o == PollStep::Again {
                            &&& t.phase_spec() == self.phase_spec()
                            &&& t.elapsed_spec() == self.elapsed_spec() + 1
                            &&& t.state().regs() == observed
                        } else {
                            &&& o == PollStep::Done
                            &&& t.elapsed_spec() == 0
                            &&& (self.phase_spec() == Phase::ReleaseClockStop ==> t.phase_spec() == Phase::EnterInit
                                && t.state().regs() == observed.init_requested(true))
                            &&& (self.phase_spec() == Phase::StopClock ==> self.leaves_init() && t.phase_spec()
                                == Phase::LeaveInit && t.state().regs() == leave_writes(observed, cfg))
                            &&& (self.phase_spec() == Phase::ReleaseClockStop || self.phase_spec() == Phase::StopClock)
                        }
                    },
                    Progress::Done(c) => {
                        &&& o == PollStep::Done
                        &&& c.cached() == cfg
                        &&& c.channel() == self.state().channel()
                        &&& c.wf()
                        &&& if self.phase_spec() == Phase::EnterInit {
                            &&& c.regs() == (Registers { cccr: Cccr { cce: true, ..observed.cccr }, ..observed })
                            &&& final(ram).contents() == Seq::new(old(ram).contents().len(), |i: int| 0u32)
                        } else {
                            &&& c.regs() == observed
                            &&& final(ram).contents() == old(ram).contents()
                            &&& (self.phase_spec() == Phase::LeaveInit || (self.phase_spec() == Phase::StopClock
                                && !self.leaves_init()))
                        }
                    },
                    Progress::Failed(e, c) => {
                        &&& o == PollStep::TimedOut
                        &&& e == Error::Timeout
                        &&& c.regs() == observed
                        &&& c.cached() == cfg
                        &&& c.channel() == self.state().channel()
                        &&& c.wf()
                        &&& final(ram).contents() == old(ram).contents()
                    },
                }
            }),
    {
        let probe = self.phase.probe();
        let budget = self.phase.budget(&self.can.config);
        let phase = self.phase;
        let elapsed = self.elapsed;
        let leave = self.leave_after_stop;
        let mut can = self.can;
        can.can = observed;
        match poll_step(probe, &observed, elapsed, budget) {
            PollStep::Again => Progress::Waiting(
                Transition { can, phase, elapsed: elapsed + 1, leave_after_stop: leave, _to: PhantomData },
            ),
            PollStep::TimedOut => Progress::Failed(Error::Timeout, can),
            PollStep::Done => match phase {
                Phase::ReleaseClockStop => {
                    can.can.request_init(true);
                    Progress::Waiting(Transition::new(can, Phase::EnterInit, leave))
                },
                Phase::EnterInit => {
                    let c = Cccr { cce: true, ..can.can.cccr };
                    can.can.cccr = c;
                    ram.zero();
                    Progress::Done(can.into_mode())
                },
                Phase::StopClock => {
                    if leave {
                        can.write_config_and_leave_init();
                        Progress::Waiting(Transition::new(can, Phase::LeaveInit, leave))
                    } else {
                        Progress::Done(can.into_mode())
                    }
                },
                Phase::LeaveInit => Progress::Done(can.into_mode()),
            },
        }
    }
}

/// Whether an entry into the configuration mode can start depends on the
/// identity and release registers of the reading alone, and the writes it
/// starts with on nothing else: a channel brought back to power down after
/// any earlier cycle starts its next entry exactly as a fresh one does, and
/// the entry ends with the whole message RAM zeroed (see
/// [`Transition::step`]), whatever the earlier cycle left in it.
pub proof fn lemma_entry_start_history_free(r1: Registers, r2: Registers)
    requires
        r1.endn == r2.endn,
        r1.crel_rel == r2.crel_rel,
    ensures
        entry_start(r1) is Ok <==> entry_start(r2) is Ok,
        entry_start(r1) is Err ==> entry_start(r1) == entry_start(r2),
        entry_start(r1) is Ok ==> entry_start(r1)->Ok_0.cccr.csr == entry_start(r2)->Ok_0.cccr.csr,
{
}

} // verus!
