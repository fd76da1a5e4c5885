//! The decisions a device takes for each request that reaches it. The device
//! keeps, per running task, the handles by which the task is stopped or
//! steered; the handle types are left open, so that the code that owns the
//! channels decides what they are.
use std::collections::HashMap;
use vstd::prelude::*;
use vstd::string::*;

use crate::backend::message::{C2S, Command, MeasureCpu, MeasurePower, Message, S2C, SentFile, Sequence};
use crate::text::{decimal, decimal_text};

verus! {

broadcast use vstd::std_specs::hash::group_hash_axioms;

/// What the device does about one request.
#[derive(Debug)]
pub enum Directive<K> {
    /// Send this reply at once.
    Reply(Message<S2C>),
    /// Run a block of commands as task `seq`.
    RunCommands { seq: Sequence, cmds: Vec<Command> },
    /// Stop the task whose stop handle this is.
    Kill(K),
    /// Nothing to do.
    Nothing,
    /// Load these paths and send them back under `seq`.
    Download { seq: Sequence, paths: Vec<String> },
    /// Write these files below the device's working directory.
    Upload(Vec<SentFile>),
    /// Hand a new setup to the running power measurement `target`.
    UpdatePower { target: Sequence, setup: MeasurePower },
    /// Start a power measurement as task `seq`.
    StartPower { seq: Sequence, setup: MeasurePower },
    /// Hand a new setup to the running CPU measurement `target`.
    UpdateCpu { target: Sequence, cpu_setup: MeasureCpu },
    /// Start a CPU measurement as task `seq`.
    StartCpu { seq: Sequence, cpu_setup: MeasureCpu },
    /// Toggle polling of the measurements registered under `target`: the
    /// power measurement if `power`, the CPU measurement if `cpu`.
    Toggle { target: Sequence, power: bool, cpu: bool },
    /// Empty the results directory.
    ResetResults,
}

/// The text of the error that answers an update of a measurement that the
/// device does not know.
pub open spec fn missing_measurement_text(t: u64) -> Seq<char> {
    "Could not update MeasurePower("@ + decimal_text(t as nat) + "): does not exist"@
}

/// `d` answers request `seq` with the error that measurement `t` is unknown.
pub open spec fn reports_missing<K>(d: Directive<K>, seq: Sequence, t: Sequence) -> bool {
    match d {
        Directive::Reply(m) => m.seq == seq && match m.cmd {
            S2C::Error(e) => e@ == missing_measurement_text(t.0),
            _ => false,
        },
        _ => false,
    }
}

/// The handles a device holds: stop handles of all tasks, and the control
/// handles of running power and CPU measurements, each by sequence number.
pub struct DispatcherView<K, P, C> {
    pub kill: Map<u64, K>,
    pub power: Map<u64, P>,
    pub cpu: Map<u64, C>,
}

impl<K, P, C> DispatcherView<K, P, C> {
    /// The handles after the device has dealt with `req`: a `Terminate` drops
    /// the stop handle of its task; every other request leaves them.
    pub open spec fn after(self, req: C2S) -> Self {
        match req {
            C2S::Terminate(t) => DispatcherView {
                kill: self.kill.remove(t.0),
                power: self.power,
                cpu: self.cpu,
            },
            _ => self,
        }
    }

    /// The handles after a power measurement was registered under `seq`.
    pub open spec fn with_power(self, seq: Sequence, kill: K, ctl: P) -> Self {
        DispatcherView { kill: self.kill.insert(seq.0, kill), power: self.power.insert(seq.0, ctl), cpu: self.cpu }
    }

    /// The handles after a CPU measurement was registered under `seq`.
    pub open spec fn with_cpu(self, seq: Sequence, kill: K, ctl: C) -> Self {
        DispatcherView { kill: self.kill.insert(seq.0, kill), power: self.power, cpu: self.cpu.insert(seq.0, ctl) }
    }

    /// The handles after a command block was registered under `seq`.
    pub open spec fn with_commands(self, seq: Sequence, kill: K) -> Self {
        DispatcherView { kill: self.kill.insert(seq.0, kill), power: self.power, cpu: self.cpu }
    }

    /// `d` is what the device does about `msg` when it holds these handles.
    pub open spec fn answers(self, msg: Message<C2S>, d: Directive<K>) -> bool {
        match msg.cmd {
            C2S::Ping => d == Directive::<K>::Reply(Message { seq: msg.seq, cmd: S2C::Pong }),
            C2S::Commands(cmds) => d == Directive::<K>::RunCommands { seq: msg.seq, cmds },
            C2S::Terminate(t) => d == if self.kill.contains_key(t.0) {
                Directive::Kill(self.kill[t.0])
            } else {
                Directive::Nothing
            },
            C2S::Download(paths) => d == Directive::<K>::Download { seq: msg.seq, paths },
            C2S::Upload(files) => d == Directive::<K>::Upload(files),
            C2S::MeasurePower(setup, Some(t)) => if self.power.contains_key(t.0) {
                d == Directive::<K>::UpdatePower { target: t, setup }
            } else {
                reports_missing(d, msg.seq, t)
            },
            C2S::MeasurePower(setup, None) => d == Directive::<K>::StartPower { seq: msg.seq, setup },
            C2S::MeasureCpu(setup, Some(t)) => if self.cpu.contains_key(t.0) {
                d == Directive::<K>::UpdateCpu { target: t, cpu_setup: setup }
            } else {
                reports_missing(d, msg.seq, t)
            },
            C2S::MeasureCpu(setup, None) => d == Directive::<K>::StartCpu { seq: msg.seq, cpu_setup: setup },
            C2S::ToggleMeasurement(t) => d == Directive::<K>::Toggle {
                target: t,
                power: self.power.contains_key(t.0),
                cpu: self.cpu.contains_key(t.0),
            },
            C2S::ResetResults => d == Directive::<K>::ResetResults,
        }
    }
}

/// The bookkeeping of a device: the handles of its running tasks.
pub struct Dispatcher<K, P, C> {
    kill: HashMap<u64, K>,
    power: HashMap<u64, P>,
    cpu: HashMap<u64, C>,
}

impl<K, P, C> View for Dispatcher<K, P, C> {
    type V = DispatcherView<K, P, C>;

    closed spec fn view(&self) -> DispatcherView<K, P, C> {
        DispatcherView { kill: self.kill@, power: self.power@, cpu: self.cpu@ }
    }
}

/// Builds the error reply for an update of the unknown measurement `t`.
fn missing_measurement(seq: Sequence, t: Sequence) -> (m: Message<S2C>)
    ensures
        m.seq == seq,
        m.cmd matches S2C::Error(e) && e@ == missing_measurement_text(t.0),
{
    let mut text = String::new();
    text.append("Could not update MeasurePower(");
    let number = decimal(t.0);
    text.append(number.as_str());
    text.append("): does not exist");
    Message { seq, cmd: S2C::Error(text) }
}

impl<K, P, C> Dispatcher<K, P, C> {
    /// A device that runs no task.
    pub fn new() -> (d: Self)
        ensures
            d@.kill == Map::<u64, K>::empty(),
            d@.power == Map::<u64, P>::empty(),
            d@.cpu == Map::<u64, C>::empty(),
    {
        Dispatcher { kill: HashMap::new(), power: HashMap::new(), cpu: HashMap::new() }
    }

    /// Decides what to do about one request, and drops the stop handle of a
    /// task that the request terminates.
    pub fn handle(&mut self, msg: Message<C2S>) -> (d: Directive<K>)
        ensures
            old(self)@.answers(msg, d),
            final(self)@ == old(self)@.after(msg.cmd),
    {
        let Message { seq, cmd } = msg;
        match cmd {
            C2S::Ping => Directive::Reply(Message { seq, cmd: S2C::Pong }),
            C2S::Commands(cmds) => Directive::RunCommands { seq, cmds },
            C2S::Terminate(t) => {
                let killer = self.kill.remove(&t.0);
                match killer {
                    Some(k) => Directive::Kill(k),
                    None => Directive::Nothing,
                }
            },
            C2S::Download(paths) => Directive::Download { seq, paths },
            C2S::Upload(files) => Directive::Upload(files),
            C2S::MeasurePower(setup, Some(t)) => {
                if self.power.contains_key(&t.0) {
                    Directive::UpdatePower { target: t, setup }
                } else {
                    Directive::Reply(missing_measurement(seq, t))
                }
            },
            C2S::MeasurePower(setup, None) => Directive::StartPower { seq, setup },
            C2S::MeasureCpu(setup, Some(t)) => {
                if self.cpu.contains_key(&t.0) {
                    Directive::UpdateCpu { target: t, cpu_setup: setup }
                } else {
                    Directive::Reply(missing_measurement(seq, t))
                }
            },
            C2S::MeasureCpu(setup, None) => Directive::StartCpu { seq, cpu_setup: setup },
            C2S::ToggleMeasurement(t) => {
                let power = self.power.contains_key(&t.0);
                let cpu = self.cpu.contains_key(&t.0);
                Directive::Toggle { target: t, power, cpu }
            },
            C2S::ResetResults => Directive::ResetResults,
        }
    }

    /// Records the stop handle of the command block started as task `seq`.
    pub fn register_commands(&mut self, seq: Sequence, kill: K)
        ensures
            final(self)@ == old(self)@.with_commands(seq, kill),
    {
        self.kill.insert(seq.0, kill);
    }

    /// Records the handles of the power measurement started as task `seq`.
    pub fn register_power(&mut self, seq: Sequence, kill: K, ctl: P)
        ensures
            final(self)@ == old(self)@.with_power(seq, kill, ctl),
    {
        self.kill.insert(seq.0, kill);
        self.power.insert(seq.0, ctl);
    }

    /// Records the handles of the CPU measurement started as task `seq`.
    pub fn register_cpu(&mut self, seq: Sequence, kill: K, ctl: C)
        ensures
            final(self)@ == old(self)@.with_cpu(seq, kill, ctl),
    {
        self.kill.insert(seq.0, kill);
        self.cpu.insert(seq.0, ctl);
    }

    /// The control handle of the power measurement `seq`, if it runs.
    pub fn power_control(&self, seq: Sequence) -> (r: Option<&P>)
        ensures
            r == if self@.power.contains_key(seq.0) {
                Some(&self@.power[seq.0])
            } else {
                None::<&P>
            },
    {
        self.power.get(&seq.0)
    }

    /// The control handle of the CPU measurement `seq`, if it runs.
    pub fn cpu_control(&self, seq: Sequence) -> (r: Option<&C>)
        ensures
            r == if self@.cpu.contains_key(seq.0) {
                Some(&self@.cpu[seq.0])
            } else {
                None::<&C>
            },
    {
        self.cpu.get(&seq.0)
    }
}

/// A task is stopped at most once: after a `Terminate` for it, another
/// `Terminate` for it does nothing.
pub proof fn law_terminate_once<K, P, C>(v: DispatcherView<K, P, C>, first: Message<C2S>, again: Message<C2S>, t: Sequence, d: Directive<K>)
    requires
        first.cmd == C2S::Terminate(t),
        again.cmd == C2S::Terminate(t),
        v.after(first.cmd).answers(again, d),
    ensures
        d == Directive::<K>::Nothing,
{
}

/// Once a power measurement is registered under `seq`, a new setup for `seq`
/// reaches that measurement rather than being refused.
pub proof fn law_registered_power_is_updated<K, P, C>(
    v: DispatcherView<K, P, C>,
    seq: Sequence,
    kill: K,
    ctl: P,
    setup: MeasurePower,
    msg: Message<C2S>,
    d: Directive<K>,
)
    requires
        msg.cmd == C2S::MeasurePower(setup, Some(seq)),
        v.with_power(seq, kill, ctl).answers(msg, d),
    ensures
        d == (Directive::<K>::UpdatePower { target: seq, setup }),
{
}

/// Once a CPU measurement is registered under `seq`, a new setup for `seq`
/// reaches that measurement rather than being refused.
pub proof fn law_registered_cpu_is_updated<K, P, C>(
    v: DispatcherView<K, P, C>,
    seq: Sequence,
    kill: K,
    ctl: C,
    setup: MeasureCpu,
    msg: Message<C2S>,
    d: Directive<K>,
)
    requires
        msg.cmd == C2S::MeasureCpu(setup, Some(seq)),
        v.with_cpu(seq, kill, ctl).answers(msg, d),
    ensures
        d == (Directive::<K>::UpdateCpu { target: seq, cpu_setup: setup }),
{
}

/// A new setup for a power measurement that the device does not run is
/// answered, under the request's own number, with an error naming it.
pub proof fn law_unknown_power_refused<K, P, C>(
    v: DispatcherView<K, P, C>,
    setup: MeasurePower,
    t: Sequence,
    msg: Message<C2S>,
    d: Directive<K>,
)
    requires
        msg.cmd == C2S::MeasurePower(setup, Some(t)),
        !v.power.contains_key(t.0),
        v.answers(msg, d),
    ensures
        reports_missing(d, msg.seq, t),
{
}

/// A new setup for a CPU measurement that the device does not run is
/// answered, under the request's own number, with an error naming it.
pub proof fn law_unknown_cpu_refused<K, P, C>(
    v: DispatcherView<K, P, C>,
    setup: MeasureCpu,
    t: Sequence,
    msg: Message<C2S>,
    d: Directive<K>,
)
    requires
        msg.cmd == C2S::MeasureCpu(setup, Some(t)),
        !v.cpu.contains_key(t.0),
        v.answers(msg, d),
    ensures
        reports_missing(d, msg.seq, t),
{
}

/// The number under which the device answers, in one message, because of
/// `d`: a reply sent at once carries its own number; a command block, a
/// download and a new measurement each answer once, when done, under the
/// number they were started with (`CommandBlock::into_reply`, the download
/// reply, `power_report`, `cpu_report`); every other directive sends nothing.
pub open spec fn reply_number<K>(d: Directive<K>) -> Option<Sequence> {
    match d {
        Directive::Reply(m) => Some(m.seq),
        Directive::RunCommands { seq, .. } => Some(seq),
        Directive::Download { seq, .. } => Some(seq),
        Directive::StartPower { seq, .. } => Some(seq),
        Directive::StartCpu { seq, .. } => Some(seq),
        _ => None,
    }
}

/// `req` is a new setup for a measurement that the device runs.
pub open spec fn updates_running<K, P, C>(v: DispatcherView<K, P, C>, req: C2S) -> bool {
    match req {
        C2S::MeasurePower(_, Some(t)) => v.power.contains_key(t.0),
        C2S::MeasureCpu(_, Some(t)) => v.cpu.contains_key(t.0),
        _ => false,
    }
}

/// Every request is answered at most once, and under its own number: exactly
/// the requests that expect a reply are answered, except a new setup for a
/// running measurement, which is handed to that measurement and gets no reply
/// of its own.
pub proof fn law_one_reply_per_request<K, P, C>(v: DispatcherView<K, P, C>, msg: Message<C2S>, d: Directive<K>)
    requires
        v.answers(msg, d),
    ensures
        reply_number(d) == if msg.cmd.expects_reply() && !updates_running(v, msg.cmd) {
            Some(msg.seq)
        } else {
            None::<Sequence>
        },
{
}

/// What a request carries reaches its task unchanged, under the request's
/// number: a command block its commands, a download its paths, an upload its
/// files, and a new measurement its whole setup (polling flag, interval,
/// maximum and, for power, the meter's address, as sent); a new setup for a
/// running measurement reaches that measurement unchanged too.
pub proof fn law_requests_pass_through<K, P, C>(v: DispatcherView<K, P, C>, msg: Message<C2S>, d: Directive<K>)
    requires
        v.answers(msg, d),
    ensures
        msg.cmd matches C2S::Commands(cmds) ==> (d matches Directive::RunCommands { seq, cmds: c } && seq
            == msg.seq && c == cmds),
        msg.cmd matches C2S::Download(paths) ==> (d matches Directive::Download { seq, paths: p } && seq
            == msg.seq && p == paths),
        msg.cmd matches C2S::Upload(files) ==> (d matches Directive::Upload(f) && f == files),
        msg.cmd matches C2S::MeasurePower(setup, None) ==> (d matches Directive::StartPower { seq, setup: s }
            && seq == msg.seq && s.start_polling == setup.start_polling && s.poll_interval
            == setup.poll_interval && s.max_measurements == setup.max_measurements && s.mac_address
            == setup.mac_address),
        msg.cmd matches C2S::MeasureCpu(setup, None) ==> (d matches Directive::StartCpu { seq, cpu_setup: s }
            && seq == msg.seq && s.start_polling == setup.start_polling && s.poll_interval
            == setup.poll_interval && s.max_measurements == setup.max_measurements),
        msg.cmd matches C2S::MeasurePower(setup, Some(t)) ==> (v.power.contains_key(t.0) ==> (
        d matches Directive::UpdatePower { target, setup: s } && target == t && s == setup)),
        msg.cmd matches C2S::MeasureCpu(setup, Some(t)) ==> (v.cpu.contains_key(t.0) ==> (
        d matches Directive::UpdateCpu { target, cpu_setup: s } && target == t && s == setup)),
{
}

/// A ping is answered with a pong under its own number; a toggle reaches the
/// power and the CPU measurement registered under its target, each exactly
/// when one is registered; a reset empties the results; and an upload, a
/// toggle, a reset and a stop request send no reply.
pub proof fn law_direct_answers<K, P, C>(v: DispatcherView<K, P, C>, msg: Message<C2S>, d: Directive<K>)
    requires
        v.answers(msg, d),
    ensures
        msg.cmd is Ping ==> (d matches Directive::Reply(m) && m.seq == msg.seq && m.cmd is Pong),
        msg.cmd matches C2S::ToggleMeasurement(t) ==> (d matches Directive::Toggle { target, power, cpu }
            && target == t && power == v.power.contains_key(t.0) && cpu == v.cpu.contains_key(t.0)),
        msg.cmd is ResetResults ==> d is ResetResults,
        (msg.cmd is Upload || msg.cmd is ToggleMeasurement || msg.cmd is ResetResults || msg.cmd is Terminate)
            ==> !(d is Reply),
{
}

} // verus!
