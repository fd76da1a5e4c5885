//! Messages exchanged between the runner (client to server, `C2S`) and a
//! device (server to client, `S2C`).
use vstd::prelude::*;

verus! {

/// The number that ties a reply to the request it answers.
#[derive(Copy, Clone, Debug, PartialEq, Eq, Hash, Structural)]
pub struct Sequence(pub u64);

/// A command or reply together with its sequence number.
#[derive(Debug)]
pub struct Message<T> {
    pub seq: Sequence,
    pub cmd: T,
}

/// A length of time: whole seconds and the nanoseconds beyond them, as
/// `std::time::Duration` holds it.
#[derive(Copy, Clone, Debug, PartialEq, Eq, Structural)]
pub struct Timespan {
    pub secs: u64,
    pub nanos: u32,
}

impl Timespan {
    /// The span of `ms` milliseconds (as `Duration::from_millis` builds it).
    pub fn from_millis(ms: u64) -> (r: Timespan)
        ensures
            r.secs == ms / 1000,
            r.nanos == (ms % 1000) * 1_000_000,
            r.nanos < 1_000_000_000,
    {
        Timespan { secs: ms / 1000, nanos: ((ms % 1000) as u32) * 1_000_000 }
    }
}

/// Requests from the runner to a device.
#[derive(Debug)]
pub enum C2S {
    Ping,
    Commands(Vec<Command>),
    ResetResults,
    Terminate(Sequence),
    Download(Vec<String>),
    Upload(Vec<SentFile>),
    MeasurePower(MeasurePower, Option<Sequence>),
    MeasureCpu(MeasureCpu, Option<Sequence>),
    ToggleMeasurement(Sequence),
}

/// Setup of a power measurement through a USB power meter reached over
/// Bluetooth. A measurement stops once `max_measurements` samples were taken.
#[derive(Debug)]
pub struct MeasurePower {
    pub mac_address: [u8; 6],
    pub poll_interval: Timespan,
    pub start_polling: bool,
    pub max_measurements: Option<u64>,
}

/// Setup of a CPU-load measurement.
#[derive(Debug)]
pub struct MeasureCpu {
    pub poll_interval: Timespan,
    pub start_polling: bool,
    pub max_measurements: Option<u64>,
}

impl C2S {
    /// Whether the device answers this request with a reply message.
    pub open spec fn expects_reply(&self) -> bool {
        match self {
            C2S::Ping => true,
            C2S::Commands(_) => true,
            C2S::Download(_) => true,
            C2S::MeasurePower(_, _) => true,
            C2S::MeasureCpu(_, _) => true,
            _ => false,
        }
    }

    /// Whether the device answers this request with a reply message.
    pub fn has_reply(&self) -> (r: bool)
        ensures
            r == self.expects_reply(),
    {
        match self {
            C2S::Ping | C2S::Commands(_) | C2S::Download(_) | C2S::MeasurePower(_, _)
            | C2S::MeasureCpu(_, _) => true,
            _ => false,
        }
    }
}

/// A block of programs run one after the other, with the given environment
/// variables and working directory. The variables are name-value pairs, each
/// name at most once (`vars_once`), as a map of variables holds them.
#[derive(Debug)]
pub struct Command {
    pub command: Vec<Invocation>,
    pub env: Vec<(String, String)>,
    pub cwd: Option<String>,
}

impl Command {
    /// No environment variable is named twice.
    pub open spec fn vars_once(&self) -> bool {
        forall|i: int, j: int|
            #![trigger self.env@[i], self.env@[j]]
            0 <= i < self.env@.len() && 0 <= j < self.env@.len() && i != j ==> self.env@[i].0@
                != self.env@[j].0@
    }
}

/// One program and its arguments.
#[derive(Debug)]
pub struct Invocation {
    pub prog: String,
    pub args: Vec<String>,
}

/// Replies from a device to the runner.
#[derive(Debug)]
pub enum S2C {
    Pong,
    CommandDone(Vec<(i32, Vec<u8>, Vec<u8>)>),
    Download(Vec<SentFile>),
    PowerData(Vec<PowerSample>),
    CpuData(Vec<String>),
    Error(String),
}

/// A file or directory (as a tar archive) shipped over the connection.
#[derive(Clone, Debug)]
pub struct SentFile {
    pub filename: String,
    pub rename: Option<String>,
    pub data: Vec<u8>,
    pub class: FileClass,
}

impl SentFile {
    /// The name under which the file is written on arrival: `rename` where it
    /// is given, else the original file name.
    pub fn target_name(&self) -> (r: &String)
        ensures
            r@ == match self.rename {
                Some(n) => n@,
                None => self.filename@,
            },
    {
        match &self.rename {
            Some(n) => n,
            None => &self.filename,
        }
    }
}

/// Whether a `SentFile` holds a plain file or a tar archive of a directory.
#[derive(Clone, Copy, Debug, PartialEq, Eq, Structural)]
pub enum FileClass {
    File,
    Directory,
}

/// One reading of the power meter.
#[derive(Clone, Copy, Debug, PartialEq, Eq, Structural)]
pub struct PowerSample {
    pub total_m_watt_hour: u32,
    pub total_m_amp_hour: u32,
    pub m_watts: u32,
    pub m_volts: u16,
    pub m_amps: u16,
}

} // verus!
