//! Measurements taken on a device: the decisions of the polling loops, the
//! decoding of power-meter readings, and the reports sent back.
use vstd::prelude::*;
use vstd::string::*;

use crate::backend::message::{MeasureCpu, MeasurePower, Message, PowerSample, S2C, Sequence};
use crate::text::{hex_byte, hex_byte_text};

verus! {

/// A control message for a running measurement.
#[derive(Debug)]
pub enum MeasureControl<T> {
    /// Start polling if it is paused, pause it if it runs.
    Toggle,
    /// Take over this setup.
    NewState(T),
}

/// Whether a measurement that has taken `taken` samples stops: when it has
/// reached its maximum, and always when it has none (a present number of
/// samples orders above an absent maximum).
pub open spec fn limit_reached_spec(taken: nat, max: Option<u64>) -> bool {
    match max {
        Some(m) => taken >= m,
        None => true,
    }
}

/// Whether a measurement that has taken `taken` samples stops.
pub fn limit_reached(taken: usize, max: Option<u64>) -> (r: bool)
    ensures
        r == limit_reached_spec(taken as nat, max),
{
    match max {
        Some(m) => taken as u64 >= m,
        None => true,
    }
}

/// Applies a control message to a running power measurement: a toggle flips
/// polling; a new setup replaces the poll interval, the polling flag and the
/// maximum (the meter's address stays).
pub fn apply_power_control(cfg: &mut MeasurePower, ctl: MeasureControl<MeasurePower>)
    ensures
        final(cfg).mac_address == old(cfg).mac_address,
        match ctl {
            MeasureControl::Toggle => {
                &&& final(cfg).start_polling == !old(cfg).start_polling
                &&& final(cfg).poll_interval == old(cfg).poll_interval
                &&& final(cfg).max_measurements == old(cfg).max_measurements
            },
            MeasureControl::NewState(n) => {
                &&& final(cfg).start_polling == n.start_polling
                &&& final(cfg).poll_interval == n.poll_interval
                &&& final(cfg).max_measurements == n.max_measurements
            },
        },
{
    match ctl {
        MeasureControl::Toggle => {
            cfg.start_polling = !cfg.start_polling;
        },
        MeasureControl::NewState(n) => {
            cfg.poll_interval = n.poll_interval;
            cfg.start_polling = n.start_polling;
            cfg.max_measurements = n.max_measurements;
        },
    }
}

/// Applies a control message to a running CPU measurement: a toggle flips
/// polling; a new setup replaces the setup.
pub fn apply_cpu_control(cfg: &mut MeasureCpu, ctl: MeasureControl<MeasureCpu>)
    ensures
        match ctl {
            MeasureControl::Toggle => {
                &&& final(cfg).start_polling == !old(cfg).start_polling
                &&& final(cfg).poll_interval == old(cfg).poll_interval
                &&& final(cfg).max_measurements == old(cfg).max_measurements
            },
            MeasureControl::NewState(n) => *final(cfg) == n,
        },
{
    match ctl {
        MeasureControl::Toggle => {
            cfg.start_polling = !cfg.start_polling;
        },
        MeasureControl::NewState(n) => {
            *cfg = n;
        },
    }
}

/// The unsigned number that four bytes encode, most significant first.
pub open spec fn be_u32(b0: u8, b1: u8, b2: u8, b3: u8) -> int {
    b0 * 0x100_0000 + b1 * 0x1_0000 + b2 * 0x100 + b3
}

/// The unsigned number that two bytes encode, most significant first.
pub open spec fn be_u16(b0: u8, b1: u8) -> int {
    b0 * 0x100 + b1
}

/// Reads a big-endian `u32` from the start of `buf` (as `u32::from_be_bytes`
/// on its first four bytes).
pub fn gu32(buf: &[u8]) -> (r: u32)
    requires
        buf@.len() >= 4,
    ensures
        r == be_u32(buf@[0], buf@[1], buf@[2], buf@[3]),
{
    (buf[0] as u32) * 0x100_0000 + (buf[1] as u32) * 0x1_0000 + (buf[2] as u32) * 0x100 + (buf[3] as u32)
}

/// Reads a big-endian `u16` from the start of `buf` (as `u16::from_be_bytes`
/// on its first two bytes).
pub fn gu16(buf: &[u8]) -> (r: u16)
    requires
        buf@.len() >= 2,
    ensures
        r == be_u16(buf@[0], buf@[1]),
{
    (buf[0] as u16) * 0x100 + (buf[1] as u16)
}

/// Copies `buf` from `start` on.
fn tail(buf: &[u8], start: usize) -> (r: Vec<u8>)
    requires
        start <= buf@.len(),
    ensures
        r@ == buf@.subrange(start as int, buf@.len() as int),
{
    let mut out: Vec<u8> = Vec::new();
    let mut i = start;
    while i < buf.len()
        invariant
            start <= i <= buf@.len(),
            out@ == buf@.subrange(start as int, i as int),
        decreases buf@.len() - i,
    {
        out.push(buf[i]);
        i = i + 1;
        assert(out@ =~= buf@.subrange(start as int, i as int));
    }
    out
}

/// The sample that a reading of the power meter holds: voltage at byte 2,
/// current at byte 4, power at byte 6, and the running totals of charge and
/// energy at bytes 16 and 20, all big-endian.
pub open spec fn sample_of(b: Seq<u8>) -> PowerSample {
    PowerSample {
        total_m_watt_hour: be_u32(b[16], b[17], b[18], b[19]) as u32,
        total_m_amp_hour: be_u32(b[20], b[21], b[22], b[23]) as u32,
        m_watts: be_u32(b[6], b[7], b[8], b[9]) as u32,
        m_volts: be_u16(b[2], b[3]) as u16,
        m_amps: be_u16(b[4], b[5]) as u16,
    }
}

/// Decodes one reading of the power meter.
pub fn decode_power_sample(buf: &[u8]) -> (s: PowerSample)
    requires
        buf@.len() >= 24,
    ensures
        s == sample_of(buf@),
{
    let energy = tail(buf, 16);
    let charge = tail(buf, 20);
    let power = tail(buf, 6);
    let volts = tail(buf, 2);
    let amps = tail(buf, 4);
    PowerSample {
        total_m_watt_hour: gu32(energy.as_slice()),
        total_m_amp_hour: gu32(charge.as_slice()),
        m_watts: gu32(power.as_slice()),
        m_volts: gu16(volts.as_slice()),
        m_amps: gu16(amps.as_slice()),
    }
}

/// The address of a Bluetooth device as `rfcomm` takes it: six lower-case
/// two-digit hexadecimal bytes joined by colons.
pub open spec fn mac_text_spec(mac: Seq<u8>) -> Seq<char> {
    hex_byte_text(mac[0]) + ":"@ + hex_byte_text(mac[1]) + ":"@ + hex_byte_text(mac[2]) + ":"@
        + hex_byte_text(mac[3]) + ":"@ + hex_byte_text(mac[4]) + ":"@ + hex_byte_text(mac[5])
}

/// Writes the address of a Bluetooth device as `rfcomm` takes it.
pub fn mac_text(mac: &[u8; 6]) -> (r: String)
    ensures
        r@ == mac_text_spec(mac@),
{
    let mut s = String::new();
    let mut i: usize = 0;
    while i < 6
        invariant
            i <= 6,
            mac@.len() == 6,
            s@ == if i == 0 {
                Seq::<char>::empty()
            } else {
                mac_prefix(mac@, i as nat)
            },
        decreases 6 - i,
    {
        if i > 0 {
            s.append(":");
        }
        let h = hex_byte(mac[i]);
        s.append(h.as_str());
        i = i + 1;
    }
    assert(mac_prefix(mac@, 6) =~= mac_text_spec(mac@)) by {
        reveal_with_fuel(mac_prefix, 6);
    }
    s
}

/// The first `n` bytes of an address, written as `mac_text_spec` writes them.
pub open spec fn mac_prefix(mac: Seq<u8>, n: nat) -> Seq<char>
    decreases n,
{
    if n <= 1 {
        hex_byte_text(mac[0])
    } else {
        mac_prefix(mac, (n - 1) as nat) + ":"@ + hex_byte_text(mac[n - 1])
    }
}

/// The reply that ends a power measurement: its samples, or the error that
/// stopped it.
pub fn power_report(seq: Sequence, result: Result<Vec<PowerSample>, String>) -> (m: Message<S2C>)
    ensures
        m.seq == seq,
        match result {
            Ok(samples) => m.cmd == S2C::PowerData(samples),
            Err(e) => m.cmd matches S2C::Error(t) && t@ == "Power measurement fatal error: "@ + e@,
        },
{
    match result {
        Ok(samples) => Message { seq, cmd: S2C::PowerData(samples) },
        Err(e) => {
            let mut t = String::new();
            t.append("Power measurement fatal error: ");
            t.append(e.as_str());
            Message { seq, cmd: S2C::Error(t) }
        },
    }
}

/// The reply that ends a CPU measurement: the readings taken, or the error that
/// stopped it.
pub fn cpu_report(seq: Sequence, result: Result<Vec<String>, String>) -> (m: Message<S2C>)
    ensures
        m.seq == seq,
        match result {
            Ok(readings) => m.cmd == S2C::CpuData(readings),
            Err(e) => m.cmd matches S2C::Error(t) && t@ == "Cpu measurement fatal error: "@ + e@,
        },
{
    match result {
        Ok(readings) => Message { seq, cmd: S2C::CpuData(readings) },
        Err(e) => {
            let mut t = String::new();
            t.append("Cpu measurement fatal error: ");
            t.append(e.as_str());
            Message { seq, cmd: S2C::Error(t) }
        },
    }
}

} // verus!
