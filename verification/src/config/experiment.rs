//! Experiment definitions. An experiment file may leave settings out and name
//! a prototype file; settings it leaves out are taken from the prototype, then
//! from the prototype's prototype, and so on; settings that no file of the
//! chain gives take their default values.
use vstd::prelude::*;
use vstd::std_specs::convert::FromSpecImpl;

use crate::config::number::{FloatBits, HALF_BITS, ONE_BITS};
use crate::config::range::ExperimentRange;
use crate::text::owned;

verus! {

/// A data plane to test, under a short name.
#[derive(Clone, Debug)]
pub struct NamedDplane {
    pub name: String,
    pub dplane: Dplane,
}

/// The kinds of data plane.
#[derive(Clone, Debug)]
pub enum Dplane {
    /// A TruSDEd data plane, by the path of its definition.
    Trusded(String),
    TestpmdDpdk,
    TestpmdAfPacket,
}

/// An experiment file as written: every setting may be left out.
#[derive(Clone, Debug)]
pub struct ExperimentFile {
    pub cores: Option<ExperimentRange<u64>>,
    pub rate: Option<ExperimentRange<FloatBits>>,
    pub upcall_percent: Option<ExperimentRange<FloatBits>>,
    pub upcall_timeout: Option<ExperimentRange<u64>>,
    pub dut_machines: Option<Vec<String>>,
    pub dplanes: Option<Vec<NamedDplane>>,
    pub pkt_size: Option<ExperimentRange<u64>>,
    pub iterations: Option<u64>,
    pub fill_up_percent_fair: Option<bool>,
    pub prototype_path: Option<String>,
}

/// A complete experiment.
#[derive(Clone, Debug)]
pub struct Experiment {
    pub cores: ExperimentRange<u64>,
    pub rate: ExperimentRange<FloatBits>,
    pub upcall_percent: ExperimentRange<FloatBits>,
    pub upcall_timeout: ExperimentRange<u64>,
    pub dut_machines: Vec<String>,
    pub dplanes: Vec<NamedDplane>,
    pub pkt_size: ExperimentRange<u64>,
    pub iterations: u64,
    pub fill_up_percent_fair: bool,
}

/// `a` where it is present, else `b`.
pub open spec fn first_some<T>(a: Option<T>, b: Option<T>) -> Option<T> {
    match a {
        Some(v) => Some(v),
        None => b,
    }
}

/// The default machines under test: the single machine `rpi`.
pub open spec fn default_dut_machines(v: Vec<String>) -> bool {
    v@.len() == 1 && v@[0]@ == "rpi"@
}

/// The default data planes: the TruSDEd MAC-swap example under the name `kxdp`.
pub open spec fn default_dplanes(v: Vec<NamedDplane>) -> bool {
    &&& v@.len() == 1
    &&& v@[0].name@ == "kxdp"@
    &&& v@[0].dplane matches Dplane::Trusded(p) && p@ == "../examples/01-macswap-xdp"@
}

/// The default packet sizes.
pub open spec fn default_pkt_size(r: ExperimentRange<u64>) -> bool {
    r matches ExperimentRange::List(l) && l@ == seq![64u64, 128, 256, 512, 1024, 1280, 1518]
}

impl Experiment {
    /// Whether every setting has its default value: one core, a rate of 1.0,
    /// an upcall share of 0.5, an upcall timeout of 1, the machine `rpi`, the
    /// `kxdp` data plane, the standard packet sizes, 10 iterations, and no
    /// fair filling of the upcall share.
    pub open spec fn is_default(&self) -> bool {
        &&& self.cores == ExperimentRange::Fixed(1u64)
        &&& self.rate == ExperimentRange::Fixed(FloatBits(ONE_BITS))
        &&& self.upcall_percent == ExperimentRange::Fixed(FloatBits(HALF_BITS))
        &&& self.upcall_timeout == ExperimentRange::Fixed(1u64)
        &&& default_dut_machines(self.dut_machines)
        &&& default_dplanes(self.dplanes)
        &&& default_pkt_size(self.pkt_size)
        &&& self.iterations == 10
        &&& !self.fill_up_percent_fair
    }
}

impl Default for Experiment {
    fn default() -> (e: Self)
        ensures
            e.is_default(),
    {
        let mut dut_machines: Vec<String> = Vec::new();
        dut_machines.push(owned("rpi"));
        let mut dplanes: Vec<NamedDplane> = Vec::new();
        dplanes.push(NamedDplane {
            name: owned("kxdp"),
            dplane: Dplane::Trusded(owned("../examples/01-macswap-xdp")),
        });
        let mut sizes: Vec<u64> = Vec::new();
        sizes.push(64);
        sizes.push(128);
        sizes.push(256);
        sizes.push(512);
        sizes.push(1024);
        sizes.push(1280);
        sizes.push(1518);
        assert(sizes@ =~= seq![64u64, 128, 256, 512, 1024, 1280, 1518]);
        Experiment {
            cores: ExperimentRange::Fixed(1),
            rate: ExperimentRange::Fixed(FloatBits(ONE_BITS)),
            upcall_percent: ExperimentRange::Fixed(FloatBits(HALF_BITS)),
            upcall_timeout: ExperimentRange::Fixed(1),
            dut_machines,
            dplanes,
            pkt_size: ExperimentRange::List(sizes),
            iterations: 10,
            fill_up_percent_fair: false,
        }
    }
}

/// The experiment file that states every setting of `e` and names no
/// prototype.
pub open spec fn file_of(e: Experiment) -> ExperimentFile {
    ExperimentFile {
        cores: Some(e.cores),
        rate: Some(e.rate),
        upcall_percent: Some(e.upcall_percent),
        upcall_timeout: Some(e.upcall_timeout),
        dut_machines: Some(e.dut_machines),
        dplanes: Some(e.dplanes),
        pkt_size: Some(e.pkt_size),
        iterations: Some(e.iterations),
        fill_up_percent_fair: Some(e.fill_up_percent_fair),
        prototype_path: None,
    }
}

impl From<Experiment> for ExperimentFile {
    fn from(val: Experiment) -> Self {
        ExperimentFile {
            cores: Some(val.cores),
            rate: Some(val.rate),
            upcall_percent: Some(val.upcall_percent),
            upcall_timeout: Some(val.upcall_timeout),
            dut_machines: Some(val.dut_machines),
            dplanes: Some(val.dplanes),
            pkt_size: Some(val.pkt_size),
            iterations: Some(val.iterations),
            prototype_path: None,
            fill_up_percent_fair: Some(val.fill_up_percent_fair),
        }
    }
}

impl FromSpecImpl<Experiment> for ExperimentFile {
    open spec fn obeys_from_spec() -> bool {
        true
    }

    open spec fn from_spec(v: Experiment) -> Self {
        file_of(v)
    }
}

impl ExperimentFile {
    /// The file after the settings it leaves out were taken from `proto`; it
    /// then names the prototype that `proto` names.
    pub open spec fn inherited(self, proto: ExperimentFile) -> ExperimentFile {
        ExperimentFile {
            cores: first_some(self.cores, proto.cores),
            rate: first_some(self.rate, proto.rate),
            upcall_percent: first_some(self.upcall_percent, proto.upcall_percent),
            upcall_timeout: first_some(self.upcall_timeout, proto.upcall_timeout),
            dut_machines: first_some(self.dut_machines, proto.dut_machines),
            dplanes: first_some(self.dplanes, proto.dplanes),
            pkt_size: first_some(self.pkt_size, proto.pkt_size),
            iterations: first_some(self.iterations, proto.iterations),
            fill_up_percent_fair: first_some(self.fill_up_percent_fair, proto.fill_up_percent_fair),
            prototype_path: proto.prototype_path,
        }
    }

    /// Whether `e` is the experiment that this file describes: each setting
    /// as the file states it, or its default value where the file leaves it
    /// out.
    pub open spec fn resolves_to(self, e: Experiment) -> bool {
        &&& match self.cores {
            Some(v) => e.cores == v,
            None => e.cores == ExperimentRange::Fixed(1u64),
        }
        &&& match self.rate {
            Some(v) => e.rate == v,
            None => e.rate == ExperimentRange::Fixed(FloatBits(ONE_BITS)),
        }
        &&& match self.upcall_percent {
            Some(v) => e.upcall_percent == v,
            None => e.upcall_percent == ExperimentRange::Fixed(FloatBits(HALF_BITS)),
        }
        &&& match self.upcall_timeout {
            Some(v) => e.upcall_timeout == v,
            None => e.upcall_timeout == ExperimentRange::Fixed(1u64),
        }
        &&& match self.dut_machines {
            Some(v) => e.dut_machines == v,
            None => default_dut_machines(e.dut_machines),
        }
        &&& match self.dplanes {
            Some(v) => e.dplanes == v,
            None => default_dplanes(e.dplanes),
        }
        &&& match self.pkt_size {
            Some(v) => e.pkt_size == v,
            None => default_pkt_size(e.pkt_size),
        }
        &&& match self.iterations {
            Some(v) => e.iterations == v,
            None => e.iterations == 10,
        }
        &&& match self.fill_up_percent_fair {
            Some(v) => e.fill_up_percent_fair == v,
            None => !e.fill_up_percent_fair,
        }
    }

    /// Takes the settings this file leaves out from its prototype `proto`, and
    /// names the prototype that `proto` names.
    pub fn inherit(&mut self, proto: ExperimentFile)
        ensures
            *final(self) == old(self).inherited(proto),
    {
        if self.cores.is_none() {
            self.cores = proto.cores;
        }
        if self.rate.is_none() {
            self.rate = proto.rate;
        }
        if self.upcall_percent.is_none() {
            self.upcall_percent = proto.upcall_percent;
        }
        if self.upcall_timeout.is_none() {
            self.upcall_timeout = proto.upcall_timeout;
        }
        if self.dut_machines.is_none() {
            self.dut_machines = proto.dut_machines;
        }
        if self.dplanes.is_none() {
            self.dplanes = proto.dplanes;
        }
        if self.pkt_size.is_none() {
            self.pkt_size = proto.pkt_size;
        }
        if self.iterations.is_none() {
            self.iterations = proto.iterations;
        }
        if self.fill_up_percent_fair.is_none() {
            self.fill_up_percent_fair = proto.fill_up_percent_fair;
        }
        self.prototype_path = proto.prototype_path;
    }

    /// The experiment this file describes: its settings over the defaults.
    pub fn into_experiment(self) -> (e: Experiment)
        ensures
            self.resolves_to(e),
    {
        let mut out = Experiment::default();
        if let Some(v) = self.cores {
            out.cores = v;
        }
        if let Some(v) = self.rate {
            out.rate = v;
        }
        if let Some(v) = self.upcall_percent {
            out.upcall_percent = v;
        }
        if let Some(v) = self.upcall_timeout {
            out.upcall_timeout = v;
        }
        if let Some(v) = self.dut_machines {
            out.dut_machines = v;
        }
        if let Some(v) = self.dplanes {
            out.dplanes = v;
        }
        if let Some(v) = self.iterations {
            out.iterations = v;
        }
        if let Some(v) = self.pkt_size {
            out.pkt_size = v;
        }
        if let Some(v) = self.fill_up_percent_fair {
            out.fill_up_percent_fair = v;
        }
        out
    }
}

/// Writing an experiment out as a file and reading the file back gives the
/// same experiment.
pub proof fn law_file_round_trip(e: Experiment, back: Experiment)
    requires
        file_of(e).resolves_to(back),
    ensures
        back == e,
{
}

/// A setting, once some file of the prototype chain states it, is not
/// overridden by files further along the chain: inheriting from `p` and then
/// from `q` takes each setting from the first of the three files that states
/// it.
pub proof fn law_first_statement_wins(a: ExperimentFile, p: ExperimentFile, q: ExperimentFile)
    ensures
        a.inherited(p).inherited(q).cores == first_some(a.cores, first_some(p.cores, q.cores)),
        a.inherited(p).inherited(q).rate == first_some(a.rate, first_some(p.rate, q.rate)),
        a.inherited(p).inherited(q).upcall_percent == first_some(
            a.upcall_percent,
            first_some(p.upcall_percent, q.upcall_percent),
        ),
        a.inherited(p).inherited(q).upcall_timeout == first_some(
            a.upcall_timeout,
            first_some(p.upcall_timeout, q.upcall_timeout),
        ),
        a.inherited(p).inherited(q).dut_machines == first_some(
            a.dut_machines,
            first_some(p.dut_machines, q.dut_machines),
        ),
        a.inherited(p).inherited(q).dplanes == first_some(a.dplanes, first_some(p.dplanes, q.dplanes)),
        a.inherited(p).inherited(q).pkt_size == first_some(a.pkt_size, first_some(p.pkt_size, q.pkt_size)),
        a.inherited(p).inherited(q).iterations == first_some(
            a.iterations,
            first_some(p.iterations, q.iterations),
        ),
        a.inherited(p).inherited(q).fill_up_percent_fair == first_some(
            a.fill_up_percent_fair,
            first_some(p.fill_up_percent_fair, q.fill_up_percent_fair),
        ),
        a.inherited(p).inherited(q).prototype_path == q.prototype_path,
{
}

/// A file that states every setting is unchanged by inheriting from any
/// prototype, apart from the prototype it names.
pub proof fn law_complete_file_ignores_prototype(e: Experiment, p: ExperimentFile)
    ensures
        file_of(e).inherited(p) == (ExperimentFile { prototype_path: p.prototype_path, ..file_of(e) }),
{
}

} // verus!
