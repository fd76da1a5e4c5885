//! The requests the runner sends to the machines of the testbed while it runs
//! an experiment, and the names of the files it writes.
use vstd::prelude::*;
use vstd::string::*;

use crate::backend::message::{C2S, Command, FileClass, Invocation, SentFile};
use crate::backend::message::{MeasureCpu, MeasurePower, Timespan};
use crate::config::experiment::Dplane;
use crate::config::machine::Machine;
use crate::config::number::FloatBits;
use crate::backend::PORT;
use crate::text::{decimal, decimal_text, owned, replace_char, replaced, text_eq};

verus! {

/// The texts of a list of strings.
pub open spec fn texts(v: Vec<String>) -> Seq<Seq<char>> {
    v@.map_values(|s: String| s@)
}

/// The texts of a list of environment variables.
pub open spec fn env_texts(env: Vec<(String, String)>) -> Seq<(Seq<char>, Seq<char>)> {
    env@.map_values(|p: (String, String)| (p.0@, p.1@))
}

/// `inv` runs program `prog` with arguments `args`.
pub open spec fn runs(inv: Invocation, prog: Seq<char>, args: Seq<Seq<char>>) -> bool {
    inv.prog@ == prog && texts(inv.args) == args
}

/// `c` runs the single program `prog` with arguments `args`, in the device's
/// working directory and with no extra environment.
pub open spec fn runs_alone(c: Command, prog: Seq<char>, args: Seq<Seq<char>>) -> bool {
    &&& c.command@.len() == 1
    &&& runs(c.command@[0], prog, args)
    &&& c.env@.len() == 0
    &&& c.cwd is None
}

/// `req` is a block of exactly one command.
pub open spec fn single(req: C2S) -> Option<Command> {
    match req {
        C2S::Commands(cmds) => if cmds@.len() == 1 {
            Some(cmds@[0])
        } else {
            None
        },
        _ => None,
    }
}

/// Owned copies of a list of texts (as `vecify` writes them).
pub fn vecify(data: &[&str]) -> (r: Vec<String>)
    ensures
        texts(r) == data@.map_values(|s: &str| s@),
{
    let mut out: Vec<String> = Vec::new();
    let mut i: usize = 0;
    while i < data.len()
        invariant
            i <= data@.len(),
            texts(out) == data@.subrange(0, i as int).map_values(|s: &str| s@),
        decreases data@.len() - i,
    {
        let ghost before = texts(out);
        push_text(&mut out, data[i]);
        assert(data@.subrange(0, i + 1).map_values(|s: &str| s@) =~= data@.subrange(0, i as int).map_values(
            |s: &str| s@,
        ).push(data@[i as int]@));
        i = i + 1;
    }
    assert(data@.subrange(0, data@.len() as int) =~= data@);
    out
}

/// Appends an owned copy of `s`.
fn push_text(v: &mut Vec<String>, s: &str)
    ensures
        texts(*final(v)) == texts(*old(v)).push(s@),
{
    v.push(owned(s));
    assert(texts(*v) =~= texts(*old(v)).push(s@));
}

/// Appends an owned string.
fn push_owned(v: &mut Vec<String>, s: String)
    ensures
        texts(*final(v)) == texts(*old(v)).push(s@),
{
    let ghost t = s@;
    v.push(s);
    assert(texts(*v) =~= texts(*old(v)).push(t));
}

fn invocation(prog: &str, args: Vec<String>) -> (r: Invocation)
    ensures
        r.prog@ == prog@,
        r.args == args,
{
    Invocation { prog: owned(prog), args }
}

fn command_of(invs: Vec<Invocation>, cwd: Option<String>) -> (r: Command)
    ensures
        r.command == invs,
        r.env@.len() == 0,
        r.cwd == cwd,
{
    Command { command: invs, env: Vec::new(), cwd }
}

fn one(c: Command) -> (r: C2S)
    ensures
        single(r) == Some(c),
{
    let mut v: Vec<Command> = Vec::new();
    v.push(c);
    C2S::Commands(v)
}

/// The request that builds the programs of the testbed on the runner: a
/// release build for the runner itself, then one for 64-bit ARM, both from
/// the parent directory.
pub fn compile_commands() -> (r: C2S)
    ensures
        r matches C2S::Commands(cmds) && {
            &&& cmds@.len() == 2
            &&& cmds@[0].command@.len() == 1
            &&& runs(cmds@[0].command@[0], "cargo"@, seq!["b"@, "--release"@])
            &&& cmds@[0].env@.len() == 0
            &&& cmds@[0].cwd matches Some(d) && d@ == "../"@
            &&& cmds@[1].command@.len() == 1
            &&& runs(
                cmds@[1].command@[0],
                "cargo"@,
                seq!["b"@, "--release"@, "--target"@, "aarch64-unknown-linux-gnu"@],
            )
            &&& cmds@[1].env@.len() == 0
            &&& cmds@[1].cwd matches Some(d) && d@ == "../"@
        },
{
    let mut a0: Vec<String> = Vec::new();
    push_text(&mut a0, "b");
    push_text(&mut a0, "--release");
    let mut i0: Vec<Invocation> = Vec::new();
    i0.push(invocation("cargo", a0));
    let mut a1: Vec<String> = Vec::new();
    push_text(&mut a1, "b");
    push_text(&mut a1, "--release");
    push_text(&mut a1, "--target");
    push_text(&mut a1, "aarch64-unknown-linux-gnu");
    assert(texts(a0) =~= seq!["b"@, "--release"@]);
    assert(texts(a1) =~= seq!["b"@, "--release"@, "--target"@, "aarch64-unknown-linux-gnu"@]);
    let mut i1: Vec<Invocation> = Vec::new();
    i1.push(invocation("cargo", a1));
    let mut cmds: Vec<Command> = Vec::new();
    cmds.push(command_of(i0, Some(owned("../"))));
    cmds.push(command_of(i1, Some(owned("../"))));
    C2S::Commands(cmds)
}

/// The request that ships the two programs of the testbed, renamed to
/// `chainsmith` and `pulley`.
pub fn upload_binaries(chainsmith: SentFile, pulley: SentFile) -> (r: C2S)
    ensures
        r matches C2S::Upload(files) && {
            &&& files@.len() == 2
            &&& files@[0].filename == chainsmith.filename
            &&& files@[0].data == chainsmith.data
            &&& files@[0].class == chainsmith.class
            &&& files@[0].rename matches Some(n) && n@ == "chainsmith"@
            &&& files@[1].filename == pulley.filename
            &&& files@[1].data == pulley.data
            &&& files@[1].class == pulley.class
            &&& files@[1].rename matches Some(n) && n@ == "pulley"@
        },
{
    let mut c = chainsmith;
    c.rename = Some(owned("chainsmith"));
    let mut p = pulley;
    p.rename = Some(owned("pulley"));
    let mut files: Vec<SentFile> = Vec::new();
    files.push(c);
    files.push(p);
    C2S::Upload(files)
}

/// The request that makes the shipped programs executable.
pub fn chmod_commands() -> (r: C2S)
    ensures
        single(r) matches Some(c) && {
            &&& c.command@.len() == 2
            &&& runs(c.command@[0], "chmod"@, seq!["ugo+x"@, "tmp/chainsmith"@])
            &&& runs(c.command@[1], "chmod"@, seq!["ugo+x"@, "tmp/pulley"@])
            &&& c.env@.len() == 0
            &&& c.cwd is None
        },
{
    let mut a0: Vec<String> = Vec::new();
    push_text(&mut a0, "ugo+x");
    push_text(&mut a0, "tmp/chainsmith");
    let mut a1: Vec<String> = Vec::new();
    push_text(&mut a1, "ugo+x");
    push_text(&mut a1, "tmp/pulley");
    assert(texts(a0) =~= seq!["ugo+x"@, "tmp/chainsmith"@]);
    assert(texts(a1) =~= seq!["ugo+x"@, "tmp/pulley"@]);
    let mut invs: Vec<Invocation> = Vec::new();
    invs.push(invocation("chmod", a0));
    invs.push(invocation("chmod", a1));
    one(command_of(invs, None))
}

/// The request that starts the data-plane compiler for `dplane`, listening on
/// port 8081.
pub fn dplane_compiler_command(dplane: &str) -> (r: C2S)
    ensures
        single(r) matches Some(c) && runs_alone(
            c,
            "../target/release/chainsmith"@,
            seq![dplane@, "--conn-string"@, "0.0.0.0:8081"@],
        ),
{
    let mut a: Vec<String> = Vec::new();
    push_text(&mut a, dplane);
    push_text(&mut a, "--conn-string");
    push_text(&mut a, "0.0.0.0:8081");
    assert(texts(a) =~= seq![dplane@, "--conn-string"@, "0.0.0.0:8081"@]);
    let mut invs: Vec<Invocation> = Vec::new();
    invs.push(invocation("../target/release/chainsmith", a));
    one(command_of(invs, None))
}

/// Why a request cannot be built for a machine.
#[derive(Debug)]
pub enum PlanError {
    /// The machine has no PCIe address for DPDK.
    NotDpdkHost(String),
    /// The machine has no network interface for a data plane.
    NotDataplaneHost(String),
    /// The packet generator has no PktGen installation directory.
    NoPktgenHome(String),
    /// The machine under test, wired directly to the packet generator, has
    /// no known link rate.
    NoLinkRate(String),
}

impl PlanError {
    /// The explanation of the error, naming the machine.
    pub open spec fn text(&self) -> Seq<char> {
        match self {
            PlanError::NotDpdkHost(n) => "Device "@ + n@ + " cannot be used as DPDK host"@,
            PlanError::NotDataplaneHost(n) => "Device "@ + n@ + " cannot be used as TruSDEd host"@,
            PlanError::NoPktgenHome(n) => "FATAL: Need PktGen install directory (`pktgen_home`) on "@
                + n@,
            PlanError::NoLinkRate(n) => "Machine "@ + n@ + " does not have a known link rate."@,
        }
    }

    /// The explanation of the error, naming the machine.
    pub fn describe(&self) -> (r: String)
        ensures
            r@ == self.text(),
    {
        let mut r = String::new();
        match self {
            PlanError::NotDpdkHost(n) => {
                r.append("Device ");
                r.append(n.as_str());
                r.append(" cannot be used as DPDK host");
            },
            PlanError::NotDataplaneHost(n) => {
                r.append("Device ");
                r.append(n.as_str());
                r.append(" cannot be used as TruSDEd host");
            },
            PlanError::NoPktgenHome(n) => {
                r.append("FATAL: Need PktGen install directory (`pktgen_home`) on ");
                r.append(n.as_str());
            },
            PlanError::NoLinkRate(n) => {
                r.append("Machine ");
                r.append(n.as_str());
                r.append(" does not have a known link rate.");
            },
        }
        r
    }
}

/// The request that binds the machine's network card to DPDK: it allows
/// VFIO without an IOMMU, then binds the card at the machine's PCIe address to
/// `vfio-pci`. Refused for a machine without a PCIe address.
pub fn bind_dpdk_command(machine: &Machine) -> (r: Result<C2S, PlanError>)
    ensures
        match machine.dpdk_pcie_addr {
            None => r matches Err(PlanError::NotDpdkHost(n)) && n@ == machine.name@,
            Some(pcie) => r matches Ok(req) && single(req) matches Some(c) && {
                &&& c.command@.len() == 2
                &&& runs(
                    c.command@[0],
                    "bash"@,
                    seq!["-c"@, "echo 1 > /sys/module/vfio/parameters/enable_unsafe_noiommu_mode"@],
                )
                &&& runs(c.command@[1], "dpdk-devbind.py"@, seq!["--bind=vfio-pci"@, pcie@, "--force"@])
                &&& c.env@.len() == 0
                &&& c.cwd is None
            },
        },
{
    match &machine.dpdk_pcie_addr {
        None => Err(PlanError::NotDpdkHost(machine.name.clone())),
        Some(pcie) => {
            let mut a0: Vec<String> = Vec::new();
            push_text(&mut a0, "-c");
            push_text(&mut a0, "echo 1 > /sys/module/vfio/parameters/enable_unsafe_noiommu_mode");
            let mut a1: Vec<String> = Vec::new();
            push_text(&mut a1, "--bind=vfio-pci");
            push_text(&mut a1, pcie.as_str());
            push_text(&mut a1, "--force");
            assert(texts(a0) =~= seq!["-c"@, "echo 1 > /sys/module/vfio/parameters/enable_unsafe_noiommu_mode"@]);
            assert(texts(a1) =~= seq!["--bind=vfio-pci"@, pcie@, "--force"@]);
            let mut invs: Vec<Invocation> = Vec::new();
            invs.push(invocation("bash", a0));
            invs.push(invocation("dpdk-devbind.py", a1));
            Ok(one(command_of(invs, None)))
        },
    }
}

/// The request that gives the machine's network card back to the `e1000e`
/// kernel driver. Refused for a machine without a PCIe address.
pub fn unbind_dpdk_command(machine: &Machine) -> (r: Result<C2S, PlanError>)
    ensures
        match machine.dpdk_pcie_addr {
            None => r matches Err(PlanError::NotDpdkHost(n)) && n@ == machine.name@,
            Some(pcie) => r matches Ok(req) && single(req) matches Some(c) && runs_alone(
                c,
                "dpdk-devbind.py"@,
                seq!["--bind=e1000e"@, pcie@],
            ),
        },
{
    match &machine.dpdk_pcie_addr {
        None => Err(PlanError::NotDpdkHost(machine.name.clone())),
        Some(pcie) => {
            let mut a: Vec<String> = Vec::new();
            push_text(&mut a, "--bind=e1000e");
            push_text(&mut a, pcie.as_str());
            assert(texts(a) =~= seq!["--bind=e1000e"@, pcie@]);
            let mut invs: Vec<Invocation> = Vec::new();
            invs.push(invocation("dpdk-devbind.py", a));
            Ok(one(command_of(invs, None)))
        },
    }
}

/// The bit pattern of 1000.0, the rate in Mbit/s of a switched link.
pub const SWITCHED_RATE_BITS: u64 = 0x408F_4000_0000_0000u64;

/// The link rate, in Mbit/s, against which the packet generator's rate is
/// scaled: the machine under test's own where it is wired directly to the
/// packet generator (refused where unknown), else that of a switched link.
pub fn max_rate(dut_machine: &Machine, back_to_back: bool) -> (r: Result<FloatBits, PlanError>)
    ensures
        !back_to_back ==> r == Ok::<FloatBits, PlanError>(FloatBits(SWITCHED_RATE_BITS)),
        back_to_back ==> match dut_machine.link_rate_mbps {
            Some(v) => r == Ok::<FloatBits, PlanError>(v),
            None => r matches Err(PlanError::NoLinkRate(n)) && n@ == dut_machine.name@,
        },
{
    if !back_to_back {
        return Ok(FloatBits(SWITCHED_RATE_BITS));
    }
    match dut_machine.link_rate_mbps {
        Some(v) => Ok(v),
        None => Err(PlanError::NoLinkRate(dut_machine.name.clone())),
    }
}

/// The environment with which PktGen runs a measurement.
pub open spec fn pktgen_env(
    iter: u64,
    rate_frac: Seq<char>,
    rate_display: Seq<char>,
    pkt_sz: u64,
    core_ct: u64,
    dst_mac: Option<String>,
    home: Seq<char>,
) -> Seq<(Seq<char>, Seq<char>)> {
    let base = seq![
        ("TEST_STRESS_ITER"@, decimal_text(iter as nat)),
        ("TEST_STRESS_RATE"@, rate_frac),
        ("TEST_STRESS_RATE_DISPLAY"@, rate_display),
        ("TEST_STRESS_SZ"@, decimal_text(pkt_sz as nat)),
        ("TEST_STRESS_CORE_CT"@, decimal_text(core_ct as nat)),
        ("TEST_STRESS_SUFFIX"@, Seq::<char>::empty()),
    ];
    let with_mac = match dst_mac {
        Some(m) => base.push(("TEST_STRESS_DST_MAC"@, m@)),
        None => base,
    };
    with_mac.push(("PKTGEN_HOME"@, home))
}

/// The names of a list of variables are pairwise distinct.
pub open spec fn names_distinct(env: Seq<(Seq<char>, Seq<char>)>) -> bool {
    forall|i: int, j: int|
        #![trigger env[i], env[j]]
        0 <= i < env.len() && 0 <= j < env.len() && i != j ==> env[i].0 != env[j].0
}

proof fn lemma_pktgen_names_distinct(
    iter: u64,
    rate_frac: Seq<char>,
    rate_display: Seq<char>,
    pkt_sz: u64,
    core_ct: u64,
    dst_mac: Option<String>,
    home: Seq<char>,
)
    ensures
        names_distinct(pktgen_env(iter, rate_frac, rate_display, pkt_sz, core_ct, dst_mac, home)),
{
    reveal_strlit("TEST_STRESS_ITER");
    reveal_strlit("TEST_STRESS_RATE");
    reveal_strlit("TEST_STRESS_RATE_DISPLAY");
    reveal_strlit("TEST_STRESS_SZ");
    reveal_strlit("TEST_STRESS_CORE_CT");
    reveal_strlit("TEST_STRESS_SUFFIX");
    reveal_strlit("TEST_STRESS_DST_MAC");
    reveal_strlit("PKTGEN_HOME");
    let env = pktgen_env(iter, rate_frac, rate_display, pkt_sz, core_ct, dst_mac, home);
    assert("TEST_STRESS_ITER"@[12] != "TEST_STRESS_RATE"@[12]);
    assert("TEST_STRESS_CORE_CT"@[12] != "TEST_STRESS_DST_MAC"@[12]);
    assert forall|i: int, j: int|
        0 <= i < env.len() && 0 <= j < env.len() && i != j implies #[trigger] env[i].0 != #[trigger] env[j].0 by {
        assert(env[i].0.len() != env[j].0.len() || env[i].0[12] != env[j].0[12]);
    }
}

/// The list `env` sets variable `name` to `value`.
pub open spec fn sets(env: Seq<(Seq<char>, Seq<char>)>, name: Seq<char>, value: Seq<char>) -> bool {
    exists|i: int| 0 <= i < env.len() && #[trigger] env[i] == (name, value)
}

/// PktGen's environment sets each variable once: the iteration, the rate on
/// PktGen's scale and for display, the packet size and the core count (the
/// numbers in decimal), an empty suffix, PktGen's directory, and the
/// destination MAC exactly when the machine under test's is known.
pub proof fn law_pktgen_env(
    iter: u64,
    rate_frac: Seq<char>,
    rate_display: Seq<char>,
    pkt_sz: u64,
    core_ct: u64,
    dst_mac: Option<String>,
    home: Seq<char>,
)
    ensures
        ({
            let e = pktgen_env(iter, rate_frac, rate_display, pkt_sz, core_ct, dst_mac, home);
            &&& names_distinct(e)
            &&& e.len() == if dst_mac is Some { 8nat } else { 7nat }
            &&& sets(e, "TEST_STRESS_ITER"@, decimal_text(iter as nat))
            &&& sets(e, "TEST_STRESS_RATE"@, rate_frac)
            &&& sets(e, "TEST_STRESS_RATE_DISPLAY"@, rate_display)
            &&& sets(e, "TEST_STRESS_SZ"@, decimal_text(pkt_sz as nat))
            &&& sets(e, "TEST_STRESS_CORE_CT"@, decimal_text(core_ct as nat))
            &&& sets(e, "TEST_STRESS_SUFFIX"@, Seq::<char>::empty())
            &&& sets(e, "PKTGEN_HOME"@, home)
            &&& dst_mac matches Some(m) ==> sets(e, "TEST_STRESS_DST_MAC"@, m@)
            &&& dst_mac is None ==> forall|i: int| 0 <= i < e.len() ==> (#[trigger] e[i]).0
                != "TEST_STRESS_DST_MAC"@
        }),
{
    lemma_pktgen_names_distinct(iter, rate_frac, rate_display, pkt_sz, core_ct, dst_mac, home);
    let e = pktgen_env(iter, rate_frac, rate_display, pkt_sz, core_ct, dst_mac, home);
    assert(e[0] == ("TEST_STRESS_ITER"@, decimal_text(iter as nat)));
    assert(e[1] == ("TEST_STRESS_RATE"@, rate_frac));
    assert(e[2] == ("TEST_STRESS_RATE_DISPLAY"@, rate_display));
    assert(e[3] == ("TEST_STRESS_SZ"@, decimal_text(pkt_sz as nat)));
    assert(e[4] == ("TEST_STRESS_CORE_CT"@, decimal_text(core_ct as nat)));
    assert(e[5] == ("TEST_STRESS_SUFFIX"@, Seq::<char>::empty()));
    match dst_mac {
        Some(m) => {
            assert(e[6] == ("TEST_STRESS_DST_MAC"@, m@));
            assert(e[7] == ("PKTGEN_HOME"@, home));
        },
        None => {
            assert(e[6] == ("PKTGEN_HOME"@, home));
            reveal_strlit("TEST_STRESS_ITER");
            reveal_strlit("TEST_STRESS_RATE");
            reveal_strlit("TEST_STRESS_RATE_DISPLAY");
            reveal_strlit("TEST_STRESS_SZ");
            reveal_strlit("TEST_STRESS_CORE_CT");
            reveal_strlit("TEST_STRESS_SUFFIX");
            reveal_strlit("TEST_STRESS_DST_MAC");
            reveal_strlit("PKTGEN_HOME");
            assert("TEST_STRESS_CORE_CT"@[12] != "TEST_STRESS_DST_MAC"@[12]);
            assert forall|i: int| 0 <= i < e.len() implies (#[trigger] e[i]).0 != "TEST_STRESS_DST_MAC"@ by {
                assert(e[i].0.len() != "TEST_STRESS_DST_MAC"@.len() || e[i].0[12] != "TEST_STRESS_DST_MAC"@[12]);
            }
        },
    }
}

fn push_var(env: &mut Vec<(String, String)>, key: &str, value: String)
    ensures
        env_texts(*final(env)) == env_texts(*old(env)).push((key@, value@)),
{
    let ghost v = value@;
    env.push((owned(key), value));
    assert(env_texts(*env) =~= env_texts(*old(env)).push((key@, v)));
}

/// The request that starts PktGen on the packet generator with the uploaded
/// measurement script, for iteration `iter` at rate `rate_frac` (PktGen's
/// scale; `rate_display` in Mbit/s for the record), packet size `pkt_sz` and
/// `core_ct` data-plane cores; the destination MAC is the machine under test's
/// where it is known. Refused when the packet generator has no PktGen
/// directory.
pub fn pktgen_command(
    pktgen_machine: &Machine,
    dut_machine: &Machine,
    core_ct: u64,
    pkt_sz: u64,
    rate_frac: &str,
    rate_display: &str,
    iter: u64,
) -> (r: Result<C2S, PlanError>)
    ensures
        match pktgen_machine.pktgen_home {
            None => r matches Err(PlanError::NoPktgenHome(n)) && n@ == pktgen_machine.name@,
            Some(home) => r matches Ok(req) && single(req) matches Some(c) && {
                &&& c.command@.len() == 1
                &&& runs(
                    c.command@[0],
                    "pktgen"@,
                    seq![
                        "-n"@,
                        "2"@,
                        "-l"@,
                        "0,2,4"@,
                        "--"@,
                        "-m"@,
                        "[2:4].0"@,
                        "-f"@,
                        "tmp/pktgen-measure.lua"@,
                    ],
                )
                &&& env_texts(c.env) == pktgen_env(
                    iter,
                    rate_frac@,
                    rate_display@,
                    pkt_sz,
                    core_ct,
                    dut_machine.mac_address,
                    home@,
                )
                &&& c.cwd is None
                &&& c.vars_once()
            },
        },
{
    let home = match &pktgen_machine.pktgen_home {
        None => {
            return Err(PlanError::NoPktgenHome(pktgen_machine.name.clone()));
        },
        Some(h) => h,
    };
    let mut env: Vec<(String, String)> = Vec::new();
    push_var(&mut env, "TEST_STRESS_ITER", decimal(iter));
    push_var(&mut env, "TEST_STRESS_RATE", owned(rate_frac));
    push_var(&mut env, "TEST_STRESS_RATE_DISPLAY", owned(rate_display));
    push_var(&mut env, "TEST_STRESS_SZ", decimal(pkt_sz));
    push_var(&mut env, "TEST_STRESS_CORE_CT", decimal(core_ct));
    push_var(&mut env, "TEST_STRESS_SUFFIX", String::new());
    let ghost base = env_texts(env);
    match &dut_machine.mac_address {
        Some(mac) => push_var(&mut env, "TEST_STRESS_DST_MAC", mac.clone()),
        None => {},
    }
    push_var(&mut env, "PKTGEN_HOME", home.clone());
    proof {
        let b = seq![
            ("TEST_STRESS_ITER"@, decimal_text(iter as nat)),
            ("TEST_STRESS_RATE"@, rate_frac@),
            ("TEST_STRESS_RATE_DISPLAY"@, rate_display@),
            ("TEST_STRESS_SZ"@, decimal_text(pkt_sz as nat)),
            ("TEST_STRESS_CORE_CT"@, decimal_text(core_ct as nat)),
            ("TEST_STRESS_SUFFIX"@, Seq::<char>::empty()),
        ];
        assert(base =~= b);
    }
    let mut a: Vec<String> = Vec::new();
    push_text(&mut a, "-n");
    push_text(&mut a, "2");
    push_text(&mut a, "-l");
    push_text(&mut a, "0,2,4");
    push_text(&mut a, "--");
    push_text(&mut a, "-m");
    push_text(&mut a, "[2:4].0");
    push_text(&mut a, "-f");
    push_text(&mut a, "tmp/pktgen-measure.lua");
    assert(texts(a) =~= seq![
        "-n"@,
        "2"@,
        "-l"@,
        "0,2,4"@,
        "--"@,
        "-m"@,
        "[2:4].0"@,
        "-f"@,
        "tmp/pktgen-measure.lua"@,
    ]);
    proof {
        lemma_pktgen_names_distinct(
            iter,
            rate_frac@,
            rate_display@,
            pkt_sz,
            core_ct,
            dut_machine.mac_address,
            home@,
        );
        assert forall|i: int, j: int|
            0 <= i < env@.len() && 0 <= j < env@.len() && i != j implies #[trigger] env@[i].0@
                != #[trigger] env@[j].0@ by {
            assert(env_texts(env)[i] == (env@[i].0@, env@[i].1@));
            assert(env_texts(env)[j] == (env@[j].0@, env@[j].1@));
        }
    }
    let mut invs: Vec<Invocation> = Vec::new();
    invs.push(invocation("pktgen", a));
    Ok(one(Command { command: invs, env, cwd: None }))
}

/// The request that starts a TruSDEd data plane on `machine`: it puts the
/// interface into promiscuous mode, then runs the shipped `pulley` on it with
/// `core_ct` XDP cores, a shared UMEM, load-balancing chance `upcall_chance`,
/// upcall poll timeout `upcall_timeout`, and the compiler on
/// `compiler_machine`. Refused for a machine without an interface.
pub fn trusded_command(
    machine: &Machine,
    compiler_machine: &Machine,
    core_ct: u64,
    upcall_chance: &str,
    upcall_timeout: u64,
) -> (r: Result<C2S, PlanError>)
    ensures
        match machine.iface {
            None => r matches Err(PlanError::NotDataplaneHost(n)) && n@ == machine.name@,
            Some(iface) => r matches Ok(req) && single(req) matches Some(c) && {
                &&& c.command@.len() == 2
                &&& runs(c.command@[0], "ip"@, seq!["link"@, "set"@, iface@, "promisc"@, "on"@])
                &&& runs(
                    c.command@[1],
                    "tmp/pulley"@,
                    seq![
                        "-i"@,
                        iface@,
                        "--xdp-cores"@,
                        decimal_text(core_ct as nat),
                        "--share-umem"@,
                        "--loadbalance-chance"@,
                        upcall_chance@,
                        "--upcall-poll-timeout"@,
                        decimal_text(upcall_timeout as nat),
                        "ws://"@ + compiler_machine.host() + ":8080"@,
                    ],
                )
                &&& c.env@.len() == 0
                &&& c.cwd is None
            },
        },
{
    let iface = match &machine.iface {
        None => {
            return Err(PlanError::NotDataplaneHost(machine.name.clone()));
        },
        Some(i) => i,
    };
    let mut args: Vec<String> = Vec::new();
    push_text(&mut args, "-i");
    push_text(&mut args, iface.as_str());
    push_text(&mut args, "--xdp-cores");
    push_owned(&mut args, decimal(core_ct));
    push_text(&mut args, "--share-umem");
    push_text(&mut args, "--loadbalance-chance");
    push_text(&mut args, upcall_chance);
    push_text(&mut args, "--upcall-poll-timeout");
    push_owned(&mut args, decimal(upcall_timeout));
    let mut url = String::new();
    url.append("ws://");
    url.append(compiler_machine.hostname());
    url.append(":8080");
    push_owned(&mut args, url);
    assert(texts(args) =~= seq![
        "-i"@,
        iface@,
        "--xdp-cores"@,
        decimal_text(core_ct as nat),
        "--share-umem"@,
        "--loadbalance-chance"@,
        upcall_chance@,
        "--upcall-poll-timeout"@,
        decimal_text(upcall_timeout as nat),
        "ws://"@ + compiler_machine.host() + ":8080"@,
    ]);
    let mut promisc: Vec<String> = Vec::new();
    push_text(&mut promisc, "link");
    push_text(&mut promisc, "set");
    push_text(&mut promisc, iface.as_str());
    push_text(&mut promisc, "promisc");
    push_text(&mut promisc, "on");
    assert(texts(promisc) =~= seq!["link"@, "set"@, iface@, "promisc"@, "on"@]);
    let mut invs: Vec<Invocation> = Vec::new();
    invs.push(invocation("ip", promisc));
    invs.push(invocation("tmp/pulley", args));
    Ok(one(command_of(invs, None)))
}

/// The arguments of `dpdk-testpmd` for a machine: cores 0 and 2; without
/// huge pages and with 640 MB of memory where the machine has no DPDK poll-mode
/// driver; an AF_PACKET device on the interface where asked for; and MAC-swap
/// forwarding.
pub open spec fn testpmd_args(machine: Machine, iface: Seq<char>, use_af_packet: bool) -> Seq<Seq<char>> {
    let cores = seq!["-l"@, "0,2"@];
    let memory = if !(machine.supports_dpdk_pmd == Some(true)) {
        cores + seq!["--no-huge"@, "-m"@, "640"@]
    } else {
        cores
    };
    let device = if use_af_packet {
        memory.push(
            "--vdev=eth_af_packet0,iface="@ + iface
                + ",blocksz=4096,framesz=2048,framecnt=2048,qdisc_bypass=1"@,
        )
    } else {
        memory
    };
    device + seq!["--"@, "--forward-mode=macswap"@]
}

/// The arguments of `dpdk-testpmd`: always cores 0 and 2 first and MAC-swap
/// forwarding last; `--no-huge -m 640` right after the cores exactly when the
/// machine does not state that it has a DPDK poll-mode driver (an unset flag
/// counts as none); the AF_PACKET device on the interface, just before the
/// forwarding mode, exactly when asked for; and nothing else.
pub proof fn law_testpmd_args(machine: Machine, iface: Seq<char>, use_af_packet: bool)
    ensures
        ({
            let a = testpmd_args(machine, iface, use_af_packet);
            let no_pmd = machine.supports_dpdk_pmd != Some(true);
            &&& a.len() == 4 + (if no_pmd { 3int } else { 0int }) + (if use_af_packet { 1int } else { 0int })
            &&& a[0] == "-l"@ && a[1] == "0,2"@
            &&& a[a.len() - 2] == "--"@ && a[a.len() - 1] == "--forward-mode=macswap"@
            &&& no_pmd ==> (a[2] == "--no-huge"@ && a[3] == "-m"@ && a[4] == "640"@)
            &&& !no_pmd ==> a[2] != "--no-huge"@
            &&& use_af_packet ==> a[a.len() - 3] == "--vdev=eth_af_packet0,iface="@ + iface
                + ",blocksz=4096,framesz=2048,framecnt=2048,qdisc_bypass=1"@
        }),
        testpmd_args(Machine { supports_dpdk_pmd: None, ..machine }, iface, use_af_packet) == testpmd_args(
            Machine { supports_dpdk_pmd: Some(false), ..machine },
            iface,
            use_af_packet,
        ),
{
    reveal_strlit("--no-huge");
    reveal_strlit("--");
    reveal_strlit("--vdev=eth_af_packet0,iface=");
    let a = testpmd_args(machine, iface, use_af_packet);
    if machine.supports_dpdk_pmd == Some(true) {
        if use_af_packet {
            let v = "--vdev=eth_af_packet0,iface="@ + iface
                + ",blocksz=4096,framesz=2048,framecnt=2048,qdisc_bypass=1"@;
            assert(a[2] == v);
            assert(v[2] == 'v');
            assert("--no-huge"@[2] == 'n');
        } else {
            assert(a[2] == "--"@);
            assert("--"@.len() != "--no-huge"@.len());
        }
    }
}

/// The request that starts `dpdk-testpmd` as the data plane of `machine`;
/// with `use_af_packet` the interface is first put into promiscuous mode.
/// Refused for a machine without an interface.
pub fn testpmd_command(machine: &Machine, use_af_packet: bool) -> (r: Result<C2S, PlanError>)
    ensures
        match machine.iface {
            None => r matches Err(PlanError::NotDataplaneHost(n)) && n@ == machine.name@,
            Some(iface) => r matches Ok(req) && single(req) matches Some(c) && {
                &&& c.command@.len() == if use_af_packet { 2nat } else { 1nat }
                &&& use_af_packet ==> runs(
                    c.command@[0],
                    "ip"@,
                    seq!["link"@, "set"@, iface@, "promisc"@, "on"@],
                )
                &&& runs(
                    c.command@.last(),
                    "dpdk-testpmd"@,
                    testpmd_args(*machine, iface@, use_af_packet),
                )
                &&& c.env@.len() == 0
                &&& c.cwd is None
            },
        },
{
    let iface = match &machine.iface {
        None => {
            return Err(PlanError::NotDataplaneHost(machine.name.clone()));
        },
        Some(i) => i,
    };
    let mut invs: Vec<Invocation> = Vec::new();
    if use_af_packet {
        let mut promisc: Vec<String> = Vec::new();
        push_text(&mut promisc, "link");
        push_text(&mut promisc, "set");
        push_text(&mut promisc, iface.as_str());
        push_text(&mut promisc, "promisc");
        push_text(&mut promisc, "on");
        assert(texts(promisc) =~= seq!["link"@, "set"@, iface@, "promisc"@, "on"@]);
        invs.push(invocation("ip", promisc));
    }
    let mut args: Vec<String> = Vec::new();
    push_text(&mut args, "-l");
    push_text(&mut args, "0,2");
    let pmd = match machine.supports_dpdk_pmd {
        Some(b) => b,
        None => false,
    };
    if !pmd {
        push_text(&mut args, "--no-huge");
        push_text(&mut args, "-m");
        push_text(&mut args, "640");
    }
    if use_af_packet {
        let mut vdev = String::new();
        vdev.append("--vdev=eth_af_packet0,iface=");
        vdev.append(iface.as_str());
        vdev.append(",blocksz=4096,framesz=2048,framecnt=2048,qdisc_bypass=1");
        push_owned(&mut args, vdev);
    }
    push_text(&mut args, "--");
    push_text(&mut args, "--forward-mode=macswap");
    assert(texts(args) =~= testpmd_args(*machine, iface@, use_af_packet));
    invs.push(invocation("dpdk-testpmd", args));
    Ok(one(command_of(invs, None)))
}

/// The results subdirectory of a data plane: for TruSDEd it names the data
/// plane and its upcall settings.
pub open spec fn dplane_subfolder_text(dplane: Dplane, short: Seq<char>, upcall: Seq<char>, timeout: u64) -> Seq<char> {
    match dplane {
        Dplane::Trusded(_) => "tru-"@ + short + "-"@ + upcall + "p-"@ + decimal_text(timeout as nat) + "ms"@,
        Dplane::TestpmdAfPacket => "testpmd-afp"@,
        Dplane::TestpmdDpdk => "testpmd-dpdk"@,
    }
}

/// The results subdirectory of a data plane.
pub fn dplane_subfolder(dplane: &Dplane, short: &str, upcall: &str, timeout: u64) -> (r: String)
    ensures
        r@ == dplane_subfolder_text(*dplane, short@, upcall@, timeout),
{
    let mut r = String::new();
    match dplane {
        Dplane::Trusded(_) => {
            r.append("tru-");
            r.append(short);
            r.append("-");
            r.append(upcall);
            r.append("p-");
            let t = decimal(timeout);
            r.append(t.as_str());
            r.append("ms");
        },
        Dplane::TestpmdAfPacket => {
            r.append("testpmd-afp");
        },
        Dplane::TestpmdDpdk => {
            r.append("testpmd-dpdk");
        },
    }
    r
}

/// The directory of one series of results:
/// `results/{experiment}/{time}/{machine under test}/{subfolder}/`.
pub fn results_dir(experiment: &str, time: &str, dut: &str, subfolder: &str) -> (r: String)
    ensures
        r@ == "results/"@ + experiment@ + "/"@ + time@ + "/"@ + dut@ + "/"@ + subfolder@ + "/"@,
{
    let mut r = String::new();
    r.append("results/");
    r.append(experiment);
    r.append("/");
    r.append(time);
    r.append("/");
    r.append(dut);
    r.append("/");
    r.append(subfolder);
    r.append("/");
    r
}

/// The name of a result file: `{dir}{kind}-{size}B-{rate}M-{cores}C-{iteration}{suffix}`.
pub open spec fn result_file_text(
    dir: Seq<char>,
    kind: Seq<char>,
    pkt_sz: u64,
    rate: Seq<char>,
    core_ct: u64,
    iter: u64,
    suffix: Seq<char>,
) -> Seq<char> {
    dir + kind + "-"@ + decimal_text(pkt_sz as nat) + "B-"@ + rate + "M-"@ + decimal_text(
        core_ct as nat,
    ) + "C-"@ + decimal_text(iter as nat) + suffix
}

fn result_file(dir: &str, kind: &str, pkt_sz: u64, rate: &str, core_ct: u64, iter: u64, suffix: &str) -> (r: String)
    ensures
        r@ == result_file_text(dir@, kind@, pkt_sz, rate@, core_ct, iter, suffix@),
{
    let mut r = String::new();
    r.append(dir);
    r.append(kind);
    r.append("-");
    let a = decimal(pkt_sz);
    r.append(a.as_str());
    r.append("B-");
    r.append(rate);
    r.append("M-");
    let b = decimal(core_ct);
    r.append(b.as_str());
    r.append("C-");
    let c = decimal(iter);
    r.append(c.as_str());
    r.append(suffix);
    r
}

/// The file that holds the power samples of one run, as CSV.
pub fn power_file(dir: &str, pkt_sz: u64, rate: &str, core_ct: u64, iter: u64) -> (r: String)
    ensures
        r@ == result_file_text(dir@, "p"@, pkt_sz, rate@, core_ct, iter, ".csv"@),
{
    result_file(dir, "p", pkt_sz, rate, core_ct, iter, ".csv")
}

/// The file that holds the CPU readings of one run.
pub fn cpu_file(dir: &str, pkt_sz: u64, rate: &str, core_ct: u64, iter: u64) -> (r: String)
    ensures
        r@ == result_file_text(dir@, "c"@, pkt_sz, rate@, core_ct, iter, ".dat"@),
{
    result_file(dir, "c", pkt_sz, rate, core_ct, iter, ".dat")
}

/// The request that prepares a CPU measurement on the machine under test:
/// one reading every 500 ms, paused until toggled, at most 50 readings.
pub fn cpu_request() -> (r: C2S)
    ensures
        r == C2S::MeasureCpu(
            MeasureCpu {
                poll_interval: Timespan { secs: 0, nanos: 500_000_000 },
                start_polling: false,
                max_measurements: Some(50),
            },
            None,
        ),
{
    C2S::MeasureCpu(
        MeasureCpu { poll_interval: Timespan::from_millis(500), start_polling: false, max_measurements: Some(50) },
        None,
    )
}

/// Whether the experiment names ask for every experiment of the instances
/// directory: the first name is `!`.
pub fn wants_all(names: &Vec<String>) -> (r: bool)
    ensures
        r == (names@.len() > 0 && names@[0]@ == "!"@),
{
    names.len() > 0 && text_eq(names[0].as_str(), "!")
}

/// The experiments to run, each with the name it is run under: the `i`-th
/// experiment file goes with the `i`-th name given, as far as both lists
/// reach (so with `!`, which lists every file, only the first file runs, under
/// the name `!`).
pub fn pair_with_names<P>(paths: Vec<P>, names: &Vec<String>) -> (r: Vec<(P, String)>)
    ensures
        r@.len() == if paths@.len() < names@.len() { paths@.len() } else { names@.len() },
        forall|i: int| 0 <= i < r@.len() ==> (#[trigger] r@[i]).0 == paths@[i] && r@[i].1@ == names@[i]@,
{
    let n = if paths.len() < names.len() { paths.len() } else { names.len() };
    let mut rest = paths;
    let mut out: Vec<(P, String)> = Vec::new();
    let mut i: usize = 0;
    while i < n
        invariant
            n <= paths@.len(),
            n <= names@.len(),
            i <= n,
            rest@ == paths@.subrange(i as int, paths@.len() as int),
            out@.len() == i,
            forall|j: int| 0 <= j < i ==> (#[trigger] out@[j]).0 == paths@[j] && out@[j].1@ == names@[j]@,
        decreases n - i,
    {
        let p = rest.remove(0);
        let name = names[i].clone();
        out.push((p, name));
        i = i + 1;
        assert(rest@ =~= paths@.subrange(i as int, paths@.len() as int));
    }
    out
}

/// The name of a run for use in paths: slashes and backslashes become dashes.
pub fn sanitised_name(name: &str) -> (r: String)
    ensures
        r@ == replaced(replaced(name@, '/', '-'), '\\', '-'),
{
    let a = replace_char(name, '/', '-');
    replace_char(a.as_str(), '\\', '-')
}

/// The label of the time at which a series starts, for use in paths: the
/// colons of the timestamp become dots.
pub fn time_label(timestamp: &str) -> (r: String)
    ensures
        r@ == replaced(timestamp@, ':', '.'),
{
    replace_char(timestamp, ':', '.')
}

/// The bytes of the MAC address that `text` spells, as the `mac_address`
/// crate parses it.
pub uninterp spec fn parsed_mac(text: Seq<char>) -> Option<Seq<u8>>;

/// The value of a hexadecimal digit, either case; -1 for any other character.
pub open spec fn hex_value(c: char) -> int {
    let n = c as int;
    if 48 <= n <= 57 {
        n - 48
    } else if 97 <= n <= 102 {
        n - 87
    } else if 65 <= n <= 70 {
        n - 55
    } else {
        -1
    }
}

/// The characters at `at` and `at + 1` are hexadecimal digits.
pub open spec fn hex_pair_at(t: Seq<char>, at: int) -> bool {
    hex_value(t[at]) >= 0 && hex_value(t[at + 1]) >= 0
}

/// The byte that the two hexadecimal digits at `at` spell.
pub open spec fn pair_byte(t: Seq<char>, at: int) -> u8 {
    (hex_value(t[at]) * 16 + hex_value(t[at + 1])) as u8
}

/// The character after the `k`-th digit pair of a separated address is a
/// colon or a dash.
pub open spec fn separator_after(t: Seq<char>, k: int) -> bool {
    t[3 * k + 2] == ':' || t[3 * k + 2] == '-'
}

/// The bytes of a MAC address written in one of its plain forms: six pairs of
/// hexadecimal digits, either each but the last followed by a colon or a dash
/// (17 characters), or with no separators (12 characters).
pub open spec fn plain_mac(t: Seq<char>) -> Option<Seq<u8>> {
    if t.len() == 17 && (forall|k: int| 0 <= k < 5 ==> #[trigger] separator_after(t, k)) && (forall|
        k: int,
    |
        0 <= k < 6 ==> #[trigger] hex_pair_at(t, 3 * k)) {
        Some(Seq::new(6, |k: int| pair_byte(t, 3 * k)))
    } else if t.len() == 12 && (forall|k: int| 0 <= k < 6 ==> #[trigger] hex_pair_at(t, 2 * k)) {
        Some(Seq::new(6, |k: int| pair_byte(t, 2 * k)))
    } else {
        None
    }
}

/// `mac_address::MacAddress::from_str` (through `str::parse`) followed by
/// `MacAddress::bytes`: the six bytes of the MAC address that `text` spells,
/// or `None` where it spells none. Its result is named `parsed_mac`; beyond
/// that, it is stated that only texts of 12 characters (no separators) or 17
/// characters (with separators) parse, as the crate's source checks the
/// length before anything else, and that a text in one of the plain forms
/// (`plain_mac`) gives the bytes its digit pairs spell, as the crate splits
/// at colons and dashes (or into pairs) and reads each pair with
/// `u8::from_str_radix` in base 16. What else the crate accepts in a digit
/// pair (for instance a sign that `u8::from_str_radix` takes) is left
/// unstated.
#[verifier::external_body]
fn parse_mac(text: &str) -> (r: Option<[u8; 6]>)
    ensures
        match r {
            Some(b) => parsed_mac(text@) == Some(b@),
            None => parsed_mac(text@) is None,
        },
        r is Some ==> (text@.len() == 12 || text@.len() == 17),
        plain_mac(text@) is Some ==> (r is Some && r.unwrap()@ == plain_mac(text@).unwrap()),
{
    match text.parse::<mac_address::MacAddress>() {
        Ok(m) => Some(m.bytes()),
        Err(_) => None,
    }
}

/// Why no power measurement can be set up on a packet generator.
#[derive(Debug, PartialEq, Eq, Structural)]
pub enum PowerSetupError {
    /// The machine names no address of a power meter.
    NoMeterAddress,
    /// The address of its power meter is no MAC address.
    BadMeterAddress,
}

/// The request that prepares a power measurement on the packet generator:
/// through the meter at its address, one sample every 100 ms, paused until
/// toggled, at most 125 samples.
pub fn power_request(tester: &Machine) -> (r: Result<C2S, PowerSetupError>)
    ensures
        match tester.um24c_addr {
            None => r == Err::<C2S, PowerSetupError>(PowerSetupError::NoMeterAddress),
            Some(a) => match parsed_mac(a@) {
                None => r == Err::<C2S, PowerSetupError>(PowerSetupError::BadMeterAddress),
                Some(bytes) => r matches Ok(C2S::MeasurePower(setup, None)) && {
                    &&& setup.mac_address@ == bytes
                    &&& setup.poll_interval == (Timespan { secs: 0, nanos: 100_000_000 })
                    &&& !setup.start_polling
                    &&& setup.max_measurements == Some(125u64)
                },
            },
        },
        tester.um24c_addr matches Some(a) ==> (plain_mac(a@) is Some ==> (r matches Ok(
            C2S::MeasurePower(setup, None),
        ) && setup.mac_address@ == plain_mac(a@).unwrap())),
{
    let addr = match &tester.um24c_addr {
        None => {
            return Err(PowerSetupError::NoMeterAddress);
        },
        Some(a) => a,
    };
    match parse_mac(addr.as_str()) {
        None => Err(PowerSetupError::BadMeterAddress),
        Some(mac_address) => Ok(
            C2S::MeasurePower(
                MeasurePower {
                    mac_address,
                    poll_interval: Timespan::from_millis(100),
                    start_polling: false,
                    max_measurements: Some(125),
                },
                None,
            ),
        ),
    }
}

/// The index of the last of the first `n` machines that is named `name`.
pub open spec fn last_named(ms: Seq<Machine>, name: Seq<char>, n: nat) -> Option<nat>
    decreases n,
{
    if n == 0 {
        None
    } else if ms[n - 1].name@ == name {
        Some((n - 1) as nat)
    } else {
        last_named(ms, name, (n - 1) as nat)
    }
}

proof fn lemma_last_named_bound(ms: Seq<Machine>, name: Seq<char>, n: nat)
    ensures
        last_named(ms, name, n) matches Some(k) ==> k < n,
    decreases n,
{
    if n > 0 {
        lemma_last_named_bound(ms, name, (n - 1) as nat);
    }
}

/// The machines an experiment uses, by their indices in the definition list.
#[derive(Debug, PartialEq, Eq, Structural)]
pub struct Selection {
    pub dut: usize,
    pub tester: usize,
    pub runner: usize,
}

/// Why the machines of an experiment cannot be found.
#[derive(Debug)]
pub enum SelectError {
    /// No machine of the definition list has this name.
    UnknownMachine(String),
    /// No machine is named `runner`.
    NoRunner,
}

/// Finds the machine under test, the packet generator and the runner in the
/// definition list (the last machine of each name counts). The machine under
/// test is looked for first, then the packet generator, then the runner.
pub fn select_machines(machines: &Vec<Machine>, dut_name: &str, pktgen_name: &str) -> (r: Result<Selection, SelectError>)
    ensures
        ({
            let dut = last_named(machines@, dut_name@, machines@.len());
            let tester = last_named(machines@, pktgen_name@, machines@.len());
            let runner = last_named(machines@, "runner"@, machines@.len());
            match r {
                Ok(s) => dut == Some(s.dut as nat) && tester == Some(s.tester as nat) && runner == Some(
                    s.runner as nat,
                ),
                Err(SelectError::UnknownMachine(n)) => (dut is None && n@ == dut_name@) || (dut is Some
                    && tester is None && n@ == pktgen_name@),
                Err(SelectError::NoRunner) => dut is Some && tester is Some && runner is None,
            }
        }),
{
    let mut dut: Option<usize> = None;
    let mut tester: Option<usize> = None;
    let mut runner: Option<usize> = None;
    let mut i: usize = 0;
    while i < machines.len()
        invariant
            i <= machines@.len(),
            dut == match last_named(machines@, dut_name@, i as nat) {
                Some(k) => Some(k as usize),
                None => None::<usize>,
            },
            tester == match last_named(machines@, pktgen_name@, i as nat) {
                Some(k) => Some(k as usize),
                None => None::<usize>,
            },
            runner == match last_named(machines@, "runner"@, i as nat) {
                Some(k) => Some(k as usize),
                None => None::<usize>,
            },
        decreases machines@.len() - i,
    {
        let name = machines[i].name.as_str();
        if text_eq(name, "runner") {
            runner = Some(i);
        }
        if text_eq(name, dut_name) {
            dut = Some(i);
        }
        if text_eq(name, pktgen_name) {
            tester = Some(i);
        }
        i = i + 1;
    }
    proof {
        lemma_last_named_bound(machines@, dut_name@, machines@.len());
        lemma_last_named_bound(machines@, pktgen_name@, machines@.len());
        lemma_last_named_bound(machines@, "runner"@, machines@.len());
    }
    match (dut, tester, runner) {
        (None, _, _) => Err(SelectError::UnknownMachine(owned(dut_name))),
        (Some(_), None, _) => Err(SelectError::UnknownMachine(owned(pktgen_name))),
        (Some(_), Some(_), None) => Err(SelectError::NoRunner),
        (Some(d), Some(t), Some(r)) => Ok(Selection { dut: d, tester: t, runner: r }),
    }
}

/// The certificate files of the first `n` machines other than the runner, in
/// the order of the list: `{host}.cert.der`.
pub open spec fn cert_files(ms: Seq<Machine>, n: nat) -> Seq<Seq<char>>
    decreases n,
{
    if n == 0 {
        seq![]
    } else if ms[n - 1].name@ == "runner"@ {
        cert_files(ms, (n - 1) as nat)
    } else {
        cert_files(ms, (n - 1) as nat).push(ms[n - 1].host() + ".cert.der"@)
    }
}

/// The certificate files of the machines the runner trusts: every machine but
/// the runner itself.
pub fn trusted_cert_files(machines: &Vec<Machine>) -> (r: Vec<String>)
    ensures
        texts(r) == cert_files(machines@, machines@.len()),
{
    let mut out: Vec<String> = Vec::new();
    let mut i: usize = 0;
    while i < machines.len()
        invariant
            i <= machines@.len(),
            texts(out) == cert_files(machines@, i as nat),
        decreases machines@.len() - i,
    {
        let m = &machines[i];
        if !text_eq(m.name.as_str(), "runner") {
            let mut f = String::new();
            f.append(m.hostname());
            f.append(".cert.der");
            push_owned(&mut out, f);
        }
        i = i + 1;
    }
    out
}

/// The address under which a device is reached: `wss://{host}:9832`.
pub fn device_url(machine: &Machine) -> (r: String)
    ensures
        r@ == "wss://"@ + machine.host() + ":"@ + decimal_text(PORT as nat),
{
    let mut r = String::new();
    r.append("wss://");
    r.append(machine.hostname());
    r.append(":");
    let p = decimal(PORT as u64);
    r.append(p.as_str());
    r
}

} // verus!
