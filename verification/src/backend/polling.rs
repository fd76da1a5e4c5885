//! The decisions of a device's measurement loops. Each round a loop first
//! checks whether it stops (enough samples, or a stop request), then takes
//! over a control message if one came, then polls or idles; the code that owns
//! the meter, the clock and the channels carries out what it is told.
use vstd::prelude::*;

use crate::backend::measure::{
    apply_cpu_control,
    apply_power_control,
    decode_power_sample,
    limit_reached,
    limit_reached_spec,
    sample_of,
    MeasureControl,
};
use crate::backend::message::{MeasureCpu, MeasurePower, PowerSample, Timespan};

verus! {

/// What a measurement loop does in one round.
#[derive(Debug, PartialEq, Eq, Structural)]
pub enum RoundAction {
    /// End the measurement and report what was taken.
    Stop,
    /// Take one reading.
    Poll,
    /// Pause (200 ms), then start the next round with a fresh clock.
    Idle,
}

/// When the next round starts after a poll.
#[derive(Debug, PartialEq, Eq, Structural)]
pub enum Pace {
    /// The reading was lost: start the next round at once, with a fresh clock.
    Retry,
    /// One poll interval after the slot of this reading.
    Wait(Timespan),
}

/// A power measurement's setup after an optional control message.
pub open spec fn power_controlled(cfg: MeasurePower, ctl: Option<MeasureControl<MeasurePower>>) -> MeasurePower {
    match ctl {
        None => cfg,
        Some(MeasureControl::Toggle) => MeasurePower { start_polling: !cfg.start_polling, ..cfg },
        Some(MeasureControl::NewState(n)) => MeasurePower {
            poll_interval: n.poll_interval,
            start_polling: n.start_polling,
            max_measurements: n.max_measurements,
            ..cfg
        },
    }
}

/// A CPU measurement's setup after an optional control message.
pub open spec fn cpu_controlled(cfg: MeasureCpu, ctl: Option<MeasureControl<MeasureCpu>>) -> MeasureCpu {
    match ctl {
        None => cfg,
        Some(MeasureControl::Toggle) => MeasureCpu { start_polling: !cfg.start_polling, ..cfg },
        Some(MeasureControl::NewState(n)) => n,
    }
}

/// What a round decides for a loop whose setup, after the round's control
/// message, is `polling`, having taken `taken` samples of at most `max`.
pub open spec fn round_action(taken: nat, max: Option<u64>, killed: bool, polling: bool) -> RoundAction {
    if limit_reached_spec(taken, max) || killed {
        RoundAction::Stop
    } else if polling {
        RoundAction::Poll
    } else {
        RoundAction::Idle
    }
}

/// A running power measurement: its setup and the samples taken.
pub struct PowerPoll {
    pub cfg: MeasurePower,
    pub samples: Vec<PowerSample>,
}

impl PowerPoll {
    /// A measurement that has taken no sample yet.
    pub fn new(cfg: MeasurePower) -> (p: PowerPoll)
        ensures
            p.cfg == cfg,
            p.samples@.len() == 0,
    {
        PowerPoll { cfg, samples: Vec::new() }
    }

    /// One round: stop when the maximum is reached (checked against the setup
    /// before `ctl`) or a stop was requested; else take over `ctl` and poll if
    /// polling is on.
    pub fn round(&mut self, killed: bool, ctl: Option<MeasureControl<MeasurePower>>) -> (a: RoundAction)
        ensures
            final(self).samples == old(self).samples,
            limit_reached_spec(old(self).samples@.len(), old(self).cfg.max_measurements) || killed ==> {
                &&& a == RoundAction::Stop
                &&& final(self).cfg == old(self).cfg
            },
            !(limit_reached_spec(old(self).samples@.len(), old(self).cfg.max_measurements) || killed) ==> {
                &&& final(self).cfg == power_controlled(old(self).cfg, ctl)
                &&& a == round_action(
                    old(self).samples@.len(),
                    old(self).cfg.max_measurements,
                    killed,
                    final(self).cfg.start_polling,
                )
            },
    {
        if limit_reached(self.samples.len(), self.cfg.max_measurements) || killed {
            return RoundAction::Stop;
        }
        match ctl {
            Some(c) => apply_power_control(&mut self.cfg, c),
            None => {},
        }
        if self.cfg.start_polling {
            RoundAction::Poll
        } else {
            RoundAction::Idle
        }
    }

    /// The outcome of a poll: the meter's reading, or `None` where it did not
    /// answer in time. A reading becomes a sample.
    pub fn reading(&mut self, reading: Option<&[u8]>) -> (p: Pace)
        requires
            reading matches Some(b) ==> b@.len() >= 24,
        ensures
            final(self).cfg == old(self).cfg,
            match reading {
                None => p == Pace::Retry && final(self).samples == old(self).samples,
                Some(b) => {
                    &&& p == Pace::Wait(old(self).cfg.poll_interval)
                    &&& final(self).samples@ == old(self).samples@.push(sample_of(b@))
                },
            },
    {
        match reading {
            None => Pace::Retry,
            Some(b) => {
                let s = decode_power_sample(b);
                self.samples.push(s);
                Pace::Wait(self.cfg.poll_interval)
            },
        }
    }
}

/// A running CPU measurement: its setup and the readings taken.
pub struct CpuPoll {
    pub cfg: MeasureCpu,
    pub readings: Vec<String>,
}

impl CpuPoll {
    /// A measurement that has taken no reading yet.
    pub fn new(cfg: MeasureCpu) -> (p: CpuPoll)
        ensures
            p.cfg == cfg,
            p.readings@.len() == 0,
    {
        CpuPoll { cfg, readings: Vec::new() }
    }

    /// One round, as for a power measurement.
    pub fn round(&mut self, killed: bool, ctl: Option<MeasureControl<MeasureCpu>>) -> (a: RoundAction)
        ensures
            final(self).readings == old(self).readings,
            limit_reached_spec(old(self).readings@.len(), old(self).cfg.max_measurements) || killed ==> {
                &&& a == RoundAction::Stop
                &&& final(self).cfg == old(self).cfg
            },
            !(limit_reached_spec(old(self).readings@.len(), old(self).cfg.max_measurements) || killed) ==> {
                &&& final(self).cfg == cpu_controlled(old(self).cfg, ctl)
                &&& a == round_action(
                    old(self).readings@.len(),
                    old(self).cfg.max_measurements,
                    killed,
                    final(self).cfg.start_polling,
                )
            },
    {
        if limit_reached(self.readings.len(), self.cfg.max_measurements) || killed {
            return RoundAction::Stop;
        }
        match ctl {
            Some(c) => apply_cpu_control(&mut self.cfg, c),
            None => {},
        }
        if self.cfg.start_polling {
            RoundAction::Poll
        } else {
            RoundAction::Idle
        }
    }

    /// A reading of the CPU counters; the next round comes one poll interval
    /// after this reading's slot.
    pub fn reading(&mut self, text: String) -> (t: Timespan)
        ensures
            final(self).cfg == old(self).cfg,
            final(self).readings@ == old(self).readings@.push(text),
            t == old(self).cfg.poll_interval,
    {
        self.readings.push(text);
        self.cfg.poll_interval
    }
}

/// A measurement never polls past its maximum: a round that polls starts with
/// fewer samples than the maximum, and a maximum of `m` samples is never
/// exceeded, since each poll adds one sample.
pub proof fn law_polls_stay_within_maximum(taken: nat, max: Option<u64>, killed: bool, polling: bool)
    requires
        round_action(taken, max, killed, polling) == RoundAction::Poll,
    ensures
        max matches Some(m) && taken < m,
        !killed,
{
}

/// A control message steers a power measurement: a new setup takes over the
/// poll interval, the polling flag and the maximum, keeping only the meter's
/// address; a toggle flips polling and keeps everything else; without a
/// message the setup stays.
pub proof fn law_power_control(cfg: MeasurePower, n: MeasurePower)
    ensures
        ({
            let c = power_controlled(cfg, Some(MeasureControl::NewState(n)));
            &&& c.start_polling == n.start_polling
            &&& c.poll_interval == n.poll_interval
            &&& c.max_measurements == n.max_measurements
            &&& c.mac_address == cfg.mac_address
        }),
        ({
            let t = power_controlled(cfg, Some(MeasureControl::Toggle));
            &&& t.start_polling == !cfg.start_polling
            &&& t.poll_interval == cfg.poll_interval
            &&& t.max_measurements == cfg.max_measurements
            &&& t.mac_address == cfg.mac_address
        }),
        power_controlled(cfg, None) == cfg,
{
}

/// A control message steers a CPU measurement: a new setup replaces the whole
/// setup, poll interval included; a toggle flips polling and keeps everything
/// else; without a message the setup stays.
pub proof fn law_cpu_control(cfg: MeasureCpu, n: MeasureCpu)
    ensures
        cpu_controlled(cfg, Some(MeasureControl::NewState(n))) == n,
        ({
            let t = cpu_controlled(cfg, Some(MeasureControl::Toggle));
            &&& t.start_polling == !cfg.start_polling
            &&& t.poll_interval == cfg.poll_interval
            &&& t.max_measurements == cfg.max_measurements
        }),
        cpu_controlled(cfg, None) == cfg,
{
}

/// A round stops when the maximum is reached or a stop was requested, and
/// otherwise polls exactly when polling is on (and idles when it is off).
pub proof fn law_round_action(taken: nat, max: Option<u64>, killed: bool, polling: bool)
    ensures
        limit_reached_spec(taken, max) || killed ==> round_action(taken, max, killed, polling) == RoundAction::Stop,
        !(limit_reached_spec(taken, max) || killed) ==> {
            &&& (round_action(taken, max, killed, polling) == RoundAction::Poll) == polling
            &&& (round_action(taken, max, killed, polling) == RoundAction::Idle) == !polling
        },
{
}

/// A measurement with a maximum of `m` samples stops exactly once it has taken
/// `m`; one without a maximum stops at once (the original orders a present
/// sample count above an absent maximum).
pub proof fn law_limit(taken: nat, m: u64)
    ensures
        limit_reached_spec(taken, Some(m)) == (taken >= m),
        limit_reached_spec(taken, None),
{
}

} // verus!
