//! The order of work in an experiment series: how a data plane is brought up
//! and taken down, and the steps of one measurement run (prepare the
//! measurements, start the packet generator, start the measurements, collect
//! and write the results). The runner carries out each action and reports back
//! with an event.
use vstd::prelude::*;

use crate::backend::message::{PowerSample, Sequence, S2C};
use crate::config::experiment::Dplane;
use crate::config::machine::Machine;

verus! {

/// Whether a data plane needs the data-plane compiler running on the runner.
pub fn needs_compiler(dplane: &Dplane) -> (r: bool)
    ensures
        r == (dplane is Trusded),
{
    match dplane {
        Dplane::Trusded(_) => true,
        _ => false,
    }
}

/// One step of bringing up a data plane on the machine under test.
#[derive(Debug, PartialEq, Eq, Structural)]
pub enum DplaneStep {
    /// Give the network card back to its kernel driver.
    UnbindDut,
    /// Bind the network card to DPDK.
    BindDut,
    /// Start the TruSDEd data plane.
    StartTrusded,
    /// Start `dpdk-testpmd`, over AF_PACKET if the flag is set.
    StartTestpmd(bool),
}

/// The steps that bring up `dplane` on `dut`: a TruSDEd data plane starts at
/// once; testpmd over AF_PACKET first gives the card back to its kernel driver
/// where the machine has a DPDK poll-mode driver; testpmd over DPDK first binds
/// the card to DPDK.
pub open spec fn start_steps(dplane: Dplane, dut: Machine) -> Seq<DplaneStep> {
    match dplane {
        Dplane::Trusded(_) => seq![DplaneStep::StartTrusded],
        Dplane::TestpmdAfPacket => if dut.supports_dpdk_pmd == Some(true) {
            seq![DplaneStep::UnbindDut, DplaneStep::StartTestpmd(true)]
        } else {
            seq![DplaneStep::StartTestpmd(true)]
        },
        Dplane::TestpmdDpdk => seq![DplaneStep::BindDut, DplaneStep::StartTestpmd(false)],
    }
}

/// The steps that bring up `dplane` on `dut`, in order.
pub fn dplane_start_steps(dplane: &Dplane, dut: &Machine) -> (r: Vec<DplaneStep>)
    ensures
        r@ == start_steps(*dplane, *dut),
{
    let mut out: Vec<DplaneStep> = Vec::new();
    match dplane {
        Dplane::Trusded(_) => {
            out.push(DplaneStep::StartTrusded);
        },
        Dplane::TestpmdAfPacket => {
            let pmd = match dut.supports_dpdk_pmd {
                Some(b) => b,
                None => false,
            };
            if pmd {
                out.push(DplaneStep::UnbindDut);
            }
            out.push(DplaneStep::StartTestpmd(true));
        },
        Dplane::TestpmdDpdk => {
            out.push(DplaneStep::BindDut);
            out.push(DplaneStep::StartTestpmd(false));
        },
    }
    assert(out@ =~= start_steps(*dplane, *dut));
    out
}

/// One step after a sweep of measurements over one data-plane setting.
#[derive(Debug, PartialEq, Eq, Structural)]
pub enum SweepEndStep {
    /// Fetch the packet generator's results directory.
    DownloadResults,
    /// Stop the data plane on the machine under test.
    StopDplane,
    /// Give the network card back to its kernel driver.
    UnbindDut,
}

/// The steps after a sweep with `dplane`: download the results, stop the data
/// plane, and, after testpmd over DPDK, give the card back to its kernel
/// driver. (Once every setting of a data plane is done, the compiler, if the
/// data plane needs one, is stopped too.)
pub open spec fn sweep_end(dplane: Dplane) -> Seq<SweepEndStep> {
    let common = seq![SweepEndStep::DownloadResults, SweepEndStep::StopDplane];
    if dplane is TestpmdDpdk {
        common.push(SweepEndStep::UnbindDut)
    } else {
        common
    }
}

/// The steps after a sweep with `dplane`, in order.
pub fn sweep_end_steps(dplane: &Dplane) -> (r: Vec<SweepEndStep>)
    ensures
        r@ == sweep_end(*dplane),
{
    let mut out: Vec<SweepEndStep> = Vec::new();
    out.push(SweepEndStep::DownloadResults);
    out.push(SweepEndStep::StopDplane);
    match dplane {
        Dplane::TestpmdDpdk => {
            out.push(SweepEndStep::UnbindDut);
        },
        _ => {},
    }
    assert(out@ =~= sweep_end(*dplane));
    out
}

/// The stage of a measurement run: what was last asked of the runner.
#[derive(Debug, PartialEq, Eq, Structural)]
pub enum Stage {
    Begin,
    AskedPower,
    AskedCpu,
    AskedPktgen,
    ToggledPower,
    ToggledCpu,
    AwaitingPktgen,
    AwaitingPower,
    AwaitingCpu,
    WrotePower,
    WroteCpu,
    Finished,
}

/// What the runner reports after carrying out an action.
#[derive(Debug)]
pub enum RunEvent {
    /// The action is carried out (also: the run may begin).
    Done,
    /// The request was sent; its reply will come under this number.
    Sent(Sequence),
    /// The awaited reply arrived.
    Replied(S2C),
}

/// What the runner does next.
#[derive(Debug)]
pub enum RunAction {
    /// Ask the packet generator to prepare a power measurement.
    PreparePower,
    /// Ask the machine under test to prepare a CPU measurement.
    PrepareCpu,
    /// Upload the measurement script and start the packet generator.
    StartPktgen,
    /// Start or pause the measurement with this number on the packet generator.
    ToggleTester(Sequence),
    /// Start or pause the measurement with this number on the machine under test.
    ToggleDut(Sequence),
    /// Wait for the packet generator's reply with this number.
    AwaitTester(Sequence),
    /// Wait for the reply of the machine under test with this number.
    AwaitDut(Sequence),
    /// Write these power samples to the run's CSV file.
    WritePower(Vec<PowerSample>),
    /// Write these CPU readings to the run's file.
    WriteCpu(Vec<String>),
    /// Report that the CPU measurement answered with something else.
    ReportCpu(S2C),
    /// The run is over.
    Finished,
}

/// The state of one measurement run.
pub struct MeasurementRun {
    /// Whether the power of the machine under test is measured.
    pub with_power: bool,
    pub stage: Stage,
    /// The numbers of the power measurement, CPU measurement and packet
    /// generator, as far as they were sent.
    pub power: Sequence,
    pub cpu: Sequence,
    pub pktgen: Sequence,
    /// The replies received and not yet written.
    pub power_reply: Option<S2C>,
    pub cpu_reply: Option<S2C>,
}

/// The event that the runner owes after the action of `stage`.
pub open spec fn fits(stage: Stage, ev: RunEvent) -> bool {
    match stage {
        Stage::AskedPower | Stage::AskedCpu | Stage::AskedPktgen => ev is Sent,
        Stage::AwaitingPktgen | Stage::AwaitingPower | Stage::AwaitingCpu => ev is Replied,
        Stage::Finished => true,
        _ => ev is Done,
    }
}

/// The action, and the stage it leaves the run in, that writes the CPU reply
/// `reply` (or reports it, if it holds no readings).
pub open spec fn cpu_outcome(reply: Option<S2C>) -> RunAction {
    match reply {
        Some(S2C::CpuData(c)) => RunAction::WriteCpu(c),
        Some(r) => RunAction::ReportCpu(r),
        None => RunAction::Finished,
    }
}

/// One step of a run: the next state and action after `ev`.
pub open spec fn step_spec(r: MeasurementRun, ev: RunEvent) -> (MeasurementRun, RunAction) {
    match r.stage {
        Stage::Begin => if r.with_power {
            (MeasurementRun { stage: Stage::AskedPower, ..r }, RunAction::PreparePower)
        } else {
            (MeasurementRun { stage: Stage::AskedCpu, ..r }, RunAction::PrepareCpu)
        },
        Stage::AskedPower => (
            MeasurementRun { stage: Stage::AskedCpu, power: ev->Sent_0, ..r },
            RunAction::PrepareCpu,
        ),
        Stage::AskedCpu => (
            MeasurementRun { stage: Stage::AskedPktgen, cpu: ev->Sent_0, ..r },
            RunAction::StartPktgen,
        ),
        Stage::AskedPktgen => if r.with_power {
            (
                MeasurementRun { stage: Stage::ToggledPower, pktgen: ev->Sent_0, ..r },
                RunAction::ToggleTester(r.power),
            )
        } else {
            (
                MeasurementRun { stage: Stage::ToggledCpu, pktgen: ev->Sent_0, ..r },
                RunAction::ToggleDut(r.cpu),
            )
        },
        Stage::ToggledPower => (MeasurementRun { stage: Stage::ToggledCpu, ..r }, RunAction::ToggleDut(r.cpu)),
        Stage::ToggledCpu => (
            MeasurementRun { stage: Stage::AwaitingPktgen, ..r },
            RunAction::AwaitTester(r.pktgen),
        ),
        Stage::AwaitingPktgen => if r.with_power {
            (MeasurementRun { stage: Stage::AwaitingPower, ..r }, RunAction::AwaitTester(r.power))
        } else {
            (MeasurementRun { stage: Stage::AwaitingCpu, ..r }, RunAction::AwaitDut(r.cpu))
        },
        Stage::AwaitingPower => (
            MeasurementRun { stage: Stage::AwaitingCpu, power_reply: Some(ev->Replied_0), ..r },
            RunAction::AwaitDut(r.cpu),
        ),
        Stage::AwaitingCpu => match r.power_reply {
            Some(S2C::PowerData(p)) => (
                MeasurementRun {
                    stage: Stage::WrotePower,
                    power_reply: None,
                    cpu_reply: Some(ev->Replied_0),
                    ..r
                },
                RunAction::WritePower(p),
            ),
            _ => (
                MeasurementRun { stage: Stage::WroteCpu, power_reply: None, cpu_reply: None, ..r },
                cpu_outcome(Some(ev->Replied_0)),
            ),
        },
        Stage::WrotePower => (
            MeasurementRun { stage: Stage::WroteCpu, cpu_reply: None, ..r },
            cpu_outcome(r.cpu_reply),
        ),
        Stage::WroteCpu | Stage::Finished => (MeasurementRun { stage: Stage::Finished, ..r }, RunAction::Finished),
    }
}

impl MeasurementRun {
    /// A run that has not begun; it measures power if `with_power`.
    pub fn new(with_power: bool) -> (r: MeasurementRun)
        ensures
            r.with_power == with_power,
            r.stage == Stage::Begin,
            r.power_reply is None,
            r.cpu_reply is None,
    {
        MeasurementRun {
            with_power,
            stage: Stage::Begin,
            power: Sequence(0),
            cpu: Sequence(0),
            pktgen: Sequence(0),
            power_reply: None,
            cpu_reply: None,
        }
    }

    /// Whether `ev` is the kind of event that the last action owes.
    pub fn accepts(&self, ev: &RunEvent) -> (r: bool)
        ensures
            r == fits(self.stage, *ev),
    {
        let (sent, replied, done) = match ev {
            RunEvent::Sent(_) => (true, false, false),
            RunEvent::Replied(_) => (false, true, false),
            RunEvent::Done => (false, false, true),
        };
        match self.stage {
            Stage::AskedPower | Stage::AskedCpu | Stage::AskedPktgen => sent,
            Stage::AwaitingPktgen | Stage::AwaitingPower | Stage::AwaitingCpu => replied,
            Stage::Finished => true,
            _ => done,
        }
    }

    /// Takes the event that the last action produced and gives the next action.
    pub fn step(&mut self, ev: RunEvent) -> (a: RunAction)
        requires
            fits(old(self).stage, ev),
        ensures
            (*final(self), a) == step_spec(*old(self), ev),
    {
        match self.stage {
            Stage::Begin => if self.with_power {
                self.stage = Stage::AskedPower;
                RunAction::PreparePower
            } else {
                self.stage = Stage::AskedCpu;
                RunAction::PrepareCpu
            },
            Stage::AskedPower => {
                if let RunEvent::Sent(s) = ev {
                    self.power = s;
                }
                self.stage = Stage::AskedCpu;
                RunAction::PrepareCpu
            },
            Stage::AskedCpu => {
                if let RunEvent::Sent(s) = ev {
                    self.cpu = s;
                }
                self.stage = Stage::AskedPktgen;
                RunAction::StartPktgen
            },
            Stage::AskedPktgen => {
                if let RunEvent::Sent(s) = ev {
                    self.pktgen = s;
                }
                if self.with_power {
                    self.stage = Stage::ToggledPower;
                    RunAction::ToggleTester(self.power)
                } else {
                    self.stage = Stage::ToggledCpu;
                    RunAction::ToggleDut(self.cpu)
                }
            },
            Stage::ToggledPower => {
                self.stage = Stage::ToggledCpu;
                RunAction::ToggleDut(self.cpu)
            },
            Stage::ToggledCpu => {
                self.stage = Stage::AwaitingPktgen;
                RunAction::AwaitTester(self.pktgen)
            },
            Stage::AwaitingPktgen => if self.with_power {
                self.stage = Stage::AwaitingPower;
                RunAction::AwaitTester(self.power)
            } else {
                self.stage = Stage::AwaitingCpu;
                RunAction::AwaitDut(self.cpu)
            },
            Stage::AwaitingPower => {
                if let RunEvent::Replied(reply) = ev {
                    self.power_reply = Some(reply);
                }
                self.stage = Stage::AwaitingCpu;
                RunAction::AwaitDut(self.cpu)
            },
            Stage::AwaitingCpu => {
                let reply = match ev {
                    RunEvent::Replied(reply) => reply,
                    RunEvent::Done => S2C::Pong,
                    RunEvent::Sent(_) => S2C::Pong,
                };
                let power = self.power_reply.take();
                match power {
                    Some(S2C::PowerData(p)) => {
                        self.stage = Stage::WrotePower;
                        self.cpu_reply = Some(reply);
                        RunAction::WritePower(p)
                    },
                    _ => {
                        self.stage = Stage::WroteCpu;
                        self.cpu_reply = None;
                        cpu_action(Some(reply))
                    },
                }
            },
            Stage::WrotePower => {
                self.stage = Stage::WroteCpu;
                let reply = self.cpu_reply.take();
                cpu_action(reply)
            },
            Stage::WroteCpu | Stage::Finished => {
                self.stage = Stage::Finished;
                RunAction::Finished
            },
        }
    }
}

fn cpu_action(reply: Option<S2C>) -> (a: RunAction)
    ensures
        a == cpu_outcome(reply),
{
    match reply {
        Some(S2C::CpuData(c)) => RunAction::WriteCpu(c),
        Some(r) => RunAction::ReportCpu(r),
        None => RunAction::Finished,
    }
}

/// A run that measures power, in which every request goes out and every
/// measurement answers with data, takes its steps in this order: prepare the
/// power and CPU measurements, start the packet generator, start both
/// measurements, wait for the packet generator, then for the power and CPU
/// data, write the power samples, write the CPU readings, and end.
pub proof fn law_run_order_with_power(
    p: Sequence,
    c: Sequence,
    g: Sequence,
    done: S2C,
    samples: Vec<PowerSample>,
    readings: Vec<String>,
)
    ensures
        ({
            let r0 = MeasurementRun {
                with_power: true,
                stage: Stage::Begin,
                power: Sequence(0),
                cpu: Sequence(0),
                pktgen: Sequence(0),
                power_reply: None,
                cpu_reply: None,
            };
            let (r1, a1) = step_spec(r0, RunEvent::Done);
            let (r2, a2) = step_spec(r1, RunEvent::Sent(p));
            let (r3, a3) = step_spec(r2, RunEvent::Sent(c));
            let (r4, a4) = step_spec(r3, RunEvent::Sent(g));
            let (r5, a5) = step_spec(r4, RunEvent::Done);
            let (r6, a6) = step_spec(r5, RunEvent::Done);
            let (r7, a7) = step_spec(r6, RunEvent::Replied(done));
            let (r8, a8) = step_spec(r7, RunEvent::Replied(S2C::PowerData(samples)));
            let (r9, a9) = step_spec(r8, RunEvent::Replied(S2C::CpuData(readings)));
            let (r10, a10) = step_spec(r9, RunEvent::Done);
            let (r11, a11) = step_spec(r10, RunEvent::Done);
            &&& a1 is PreparePower
            &&& a2 is PrepareCpu
            &&& a3 is StartPktgen
            &&& a4 == RunAction::ToggleTester(p)
            &&& a5 == RunAction::ToggleDut(c)
            &&& a6 == RunAction::AwaitTester(g)
            &&& a7 == RunAction::AwaitTester(p)
            &&& a8 == RunAction::AwaitDut(c)
            &&& a9 == RunAction::WritePower(samples)
            &&& a10 == RunAction::WriteCpu(readings)
            &&& a11 is Finished
            &&& r11.stage == Stage::Finished
        }),
{
}

/// A run without power measurement never touches a power measurement: it
/// prepares the CPU measurement, starts the packet generator, starts the CPU
/// measurement, waits for the packet generator and then the CPU data, writes
/// the readings and ends.
pub proof fn law_run_order_without_power(c: Sequence, g: Sequence, done: S2C, readings: Vec<String>)
    ensures
        ({
            let r0 = MeasurementRun {
                with_power: false,
                stage: Stage::Begin,
                power: Sequence(0),
                cpu: Sequence(0),
                pktgen: Sequence(0),
                power_reply: None,
                cpu_reply: None,
            };
            let (r1, a1) = step_spec(r0, RunEvent::Done);
            let (r2, a2) = step_spec(r1, RunEvent::Sent(c));
            let (r3, a3) = step_spec(r2, RunEvent::Sent(g));
            let (r4, a4) = step_spec(r3, RunEvent::Done);
            let (r5, a5) = step_spec(r4, RunEvent::Replied(done));
            let (r6, a6) = step_spec(r5, RunEvent::Replied(S2C::CpuData(readings)));
            let (r7, a7) = step_spec(r6, RunEvent::Done);
            &&& a1 is PrepareCpu
            &&& a2 is StartPktgen
            &&& a3 == RunAction::ToggleDut(c)
            &&& a4 == RunAction::AwaitTester(g)
            &&& a5 == RunAction::AwaitDut(c)
            &&& a6 == RunAction::WriteCpu(readings)
            &&& a7 is Finished
            &&& r7.stage == Stage::Finished
        }),
{
}

/// Bringing up a data plane ends with starting it, with the kind of start
/// the data plane calls for; the card is unbound first only for testpmd over
/// AF_PACKET on a machine that states it has a DPDK poll-mode driver (an unset
/// flag counts as none), and bound to DPDK first only for testpmd over DPDK.
pub proof fn law_start_steps(dplane: Dplane, dut: Machine)
    ensures
        start_steps(dplane, dut).len() >= 1,
        start_steps(dplane, dut).last() == match dplane {
            Dplane::Trusded(_) => DplaneStep::StartTrusded,
            Dplane::TestpmdAfPacket => DplaneStep::StartTestpmd(true),
            Dplane::TestpmdDpdk => DplaneStep::StartTestpmd(false),
        },
        (start_steps(dplane, dut)[0] == DplaneStep::UnbindDut) <==> (dplane is TestpmdAfPacket
            && dut.supports_dpdk_pmd == Some(true)),
        (start_steps(dplane, dut)[0] == DplaneStep::BindDut) <==> (dplane is TestpmdDpdk),
        start_steps(dplane, dut).len() == 2 <==> (start_steps(dplane, dut)[0] == DplaneStep::UnbindDut
            || start_steps(dplane, dut)[0] == DplaneStep::BindDut),
        start_steps(dplane, dut).len() <= 2,
        dplane is TestpmdAfPacket && dut.supports_dpdk_pmd != Some(true) ==> start_steps(dplane, dut)
            == seq![DplaneStep::StartTestpmd(true)],
{
}

/// An unset poll-mode-driver flag brings a data plane up as a flag that says
/// there is none: two machines that differ only there get the same steps.
pub proof fn law_unset_driver_flag_is_none(dplane: Dplane, dut: Machine)
    ensures
        start_steps(dplane, Machine { supports_dpdk_pmd: None, ..dut }) == start_steps(
            dplane,
            Machine { supports_dpdk_pmd: Some(false), ..dut },
        ),
{
}

/// After a sweep the results are downloaded first and the data plane is
/// stopped next; the card is then given back to its kernel driver exactly
/// after testpmd over DPDK, and nothing else happens.
pub proof fn law_sweep_end(dplane: Dplane)
    ensures
        sweep_end(dplane).len() >= 2,
        sweep_end(dplane)[0] == SweepEndStep::DownloadResults,
        sweep_end(dplane)[1] == SweepEndStep::StopDplane,
        sweep_end(dplane).len() == 3 <==> dplane is TestpmdDpdk,
        sweep_end(dplane).len() <= 3,
        sweep_end(dplane).len() == 3 ==> sweep_end(dplane)[2] == SweepEndStep::UnbindDut,
{
}

/// At the end of a run, power samples are written exactly when the power
/// measurement answered with samples, and then the CPU answer is written if it
/// holds readings and reported otherwise; nothing else is written.
pub proof fn law_results_written(r: MeasurementRun, cpu_reply: S2C)
    requires
        r.stage == Stage::AwaitingCpu,
    ensures
        ({
            let (r1, a1) = step_spec(r, RunEvent::Replied(cpu_reply));
            let (r2, a2) = step_spec(r1, RunEvent::Done);
            &&& (a1 is WritePower) == (r.power_reply matches Some(S2C::PowerData(_)))
            &&& r.power_reply matches Some(S2C::PowerData(p)) ==> (a1 == RunAction::WritePower(p) && (
            cpu_reply matches S2C::CpuData(c) ==> a2 == RunAction::WriteCpu(c)) && (!(
            cpu_reply is CpuData) ==> a2 == RunAction::ReportCpu(cpu_reply)))
            &&& !(r.power_reply matches Some(S2C::PowerData(_))) ==> ((cpu_reply matches S2C::CpuData(c)
                ==> a1 == RunAction::WriteCpu(c)) && (!(cpu_reply is CpuData) ==> a1
                == RunAction::ReportCpu(cpu_reply)))
        }),
{
}

} // verus!
