use testbed::backend::command_block::{CommandBlock, Outcome};
use testbed::backend::dispatch::{Directive, Dispatcher};
use testbed::backend::measure::{
    apply_cpu_control, apply_power_control, cpu_report, decode_power_sample, gu16, gu32, limit_reached, mac_text,
    power_report, MeasureControl,
};
use testbed::backend::polling::{CpuPoll, Pace, PowerPoll, RoundAction};
use testbed::backend::message::{
    Command, Invocation, MeasureCpu, MeasurePower, Message, PowerSample, Sequence, Timespan, C2S, S2C,
};

fn msg(seq: u64, cmd: C2S) -> Message<C2S> {
    Message { seq: Sequence(seq), cmd }
}

fn power_setup(polling: bool) -> MeasurePower {
    MeasurePower {
        mac_address: [0xaa, 0xbb, 0xcc, 0xdd, 0xee, 0xff],
        poll_interval: Timespan::from_millis(100),
        start_polling: polling,
        max_measurements: Some(125),
    }
}

fn cpu_setup(polling: bool) -> MeasureCpu {
    MeasureCpu { poll_interval: Timespan::from_millis(500), start_polling: polling, max_measurements: Some(50) }
}

fn inv(prog: &str) -> Invocation {
    Invocation { prog: prog.to_string(), args: vec![] }
}

fn cmd(progs: &[&str]) -> Command {
    Command { command: progs.iter().map(|p| inv(p)).collect(), env: vec![], cwd: None }
}

fn exited(code: i32, out: &[u8]) -> Outcome {
    Outcome::Exited { code, stdout: out.to_vec(), stderr: vec![] }
}

#[test]
fn ping_is_answered_with_pong() {
    let mut d: Dispatcher<u8, u8, u8> = Dispatcher::new();
    match d.handle(msg(7, C2S::Ping)) {
        Directive::Reply(Message { seq, cmd: S2C::Pong }) => assert_eq!(seq, Sequence(7)),
        other => panic!("unexpected {:?}", other),
    }
}

#[test]
fn commands_start_a_task_under_the_request_number() {
    let mut d: Dispatcher<u8, u8, u8> = Dispatcher::new();
    match d.handle(msg(3, C2S::Commands(vec![cmd(&["true"])]))) {
        Directive::RunCommands { seq, cmds } => {
            assert_eq!(seq, Sequence(3));
            assert_eq!(cmds.len(), 1);
        },
        other => panic!("unexpected {:?}", other),
    }
}

#[test]
fn terminate_stops_a_task_once() {
    let mut d: Dispatcher<&'static str, u8, u8> = Dispatcher::new();
    d.register_commands(Sequence(4), "killer-4");
    assert!(matches!(d.handle(msg(5, C2S::Terminate(Sequence(4)))), Directive::Kill("killer-4")));
    assert!(matches!(d.handle(msg(6, C2S::Terminate(Sequence(4)))), Directive::Nothing));
    assert!(matches!(d.handle(msg(7, C2S::Terminate(Sequence(99)))), Directive::Nothing));
}

#[test]
fn unknown_power_update_is_refused() {
    let mut d: Dispatcher<u8, u8, u8> = Dispatcher::new();
    match d.handle(msg(12, C2S::MeasurePower(power_setup(true), Some(Sequence(7))))) {
        Directive::Reply(Message { seq, cmd: S2C::Error(e) }) => {
            assert_eq!(seq, Sequence(12));
            assert_eq!(e, "Could not update MeasurePower(7): does not exist");
        },
        other => panic!("unexpected {:?}", other),
    }
}

#[test]
fn unknown_cpu_update_is_refused_with_the_same_text() {
    let mut d: Dispatcher<u8, u8, u8> = Dispatcher::new();
    match d.handle(msg(13, C2S::MeasureCpu(cpu_setup(true), Some(Sequence(1234))))) {
        Directive::Reply(Message { seq, cmd: S2C::Error(e) }) => {
            assert_eq!(seq, Sequence(13));
            assert_eq!(e, "Could not update MeasurePower(1234): does not exist");
        },
        other => panic!("unexpected {:?}", other),
    }
}

#[test]
fn registered_measurements_are_updated_and_toggled() {
    let mut d: Dispatcher<u8, &'static str, &'static str> = Dispatcher::new();
    assert!(matches!(
        d.handle(msg(2, C2S::MeasurePower(power_setup(false), None))),
        Directive::StartPower { seq: Sequence(2), .. }
    ));
    d.register_power(Sequence(2), 1, "power-2");
    assert!(matches!(
        d.handle(msg(3, C2S::MeasureCpu(cpu_setup(false), None))),
        Directive::StartCpu { seq: Sequence(3), .. }
    ));
    d.register_cpu(Sequence(3), 2, "cpu-3");
    assert!(matches!(
        d.handle(msg(4, C2S::MeasurePower(power_setup(true), Some(Sequence(2))))),
        Directive::UpdatePower { target: Sequence(2), .. }
    ));
    assert!(matches!(
        d.handle(msg(5, C2S::MeasureCpu(cpu_setup(true), Some(Sequence(3))))),
        Directive::UpdateCpu { target: Sequence(3), .. }
    ));
    assert_eq!(d.power_control(Sequence(2)), Some(&"power-2"));
    assert_eq!(d.power_control(Sequence(3)), None);
    assert_eq!(d.cpu_control(Sequence(3)), Some(&"cpu-3"));
    assert!(matches!(
        d.handle(msg(6, C2S::ToggleMeasurement(Sequence(2)))),
        Directive::Toggle { target: Sequence(2), power: true, cpu: false }
    ));
    assert!(matches!(
        d.handle(msg(7, C2S::ToggleMeasurement(Sequence(3)))),
        Directive::Toggle { target: Sequence(3), power: false, cpu: true }
    ));
    // Terminating a measurement task leaves its control handle in place.
    assert!(matches!(d.handle(msg(8, C2S::Terminate(Sequence(2)))), Directive::Kill(1)));
    assert_eq!(d.power_control(Sequence(2)), Some(&"power-2"));
}

#[test]
fn other_requests_pass_through() {
    let mut d: Dispatcher<u8, u8, u8> = Dispatcher::new();
    assert!(matches!(
        d.handle(msg(1, C2S::Download(vec!["tmp/results".into()]))),
        Directive::Download { seq: Sequence(1), ref paths } if paths.len() == 1
    ));
    assert!(matches!(d.handle(msg(2, C2S::Upload(vec![]))), Directive::Upload(ref f) if f.is_empty()));
    assert!(matches!(d.handle(msg(3, C2S::ResetResults)), Directive::ResetResults));
}

fn exits_of(b: CommandBlock) -> Vec<(i32, Vec<u8>, Vec<u8>)> {
    match b.into_reply(Sequence(0)).cmd {
        S2C::CommandDone(e) => e,
        _ => panic!("not a command report"),
    }
}

#[test]
fn one_record_per_command() {
    let mut b = CommandBlock::new(vec![cmd(&["a"]), cmd(&["b"])]);
    assert_eq!(b.pending().unwrap().1.prog, "a");
    b.record(exited(0, b"one"));
    assert_eq!(b.pending().unwrap().1.prog, "b");
    b.record(exited(3, b"two"));
    assert!(b.is_done());
    assert!(b.pending().is_none());
    assert_eq!(exits_of(b), vec![(0, b"one".to_vec(), vec![]), (3, b"two".to_vec(), vec![])]);
}

#[test]
fn last_invocation_of_a_command_is_reported() {
    let mut b = CommandBlock::new(vec![cmd(&["x", "y"])]);
    b.record(exited(1, b"x"));
    assert_eq!(b.pending().unwrap().1.prog, "y");
    b.record(exited(2, b"y"));
    assert!(b.is_done());
    assert_eq!(exits_of(b), vec![(2, b"y".to_vec(), vec![])]);
}

#[test]
fn failure_reports_error_then_earlier_output_and_skips_rest_of_command() {
    let mut b = CommandBlock::new(vec![cmd(&["x", "missing", "z"]), cmd(&["w"])]);
    b.record(exited(0, b"x"));
    b.record(Outcome::Failed(b"NotFound".to_vec()));
    assert_eq!(b.pending().unwrap().1.prog, "w");
    b.record(exited(0, b"w"));
    assert_eq!(
        exits_of(b),
        vec![(-1, vec![], b"NotFound".to_vec()), (0, b"x".to_vec(), vec![]), (0, b"w".to_vec(), vec![])]
    );
}

#[test]
fn kill_ends_the_block() {
    let mut b = CommandBlock::new(vec![cmd(&["a"]), cmd(&["b", "c"]), cmd(&["d"])]);
    b.record(exited(0, b"a"));
    b.record(exited(0, b"b"));
    b.record(Outcome::Killed);
    assert!(b.is_done());
    assert!(b.pending().is_none());
    assert_eq!(exits_of(b), vec![(0, b"a".to_vec(), vec![])]);
}

#[test]
fn empty_commands_are_skipped() {
    let mut b = CommandBlock::new(vec![cmd(&[]), cmd(&["a"]), cmd(&[])]);
    assert_eq!(b.pending().unwrap().1.prog, "a");
    b.record(exited(0, b""));
    assert!(b.is_done());
    assert_eq!(exits_of(b).len(), 1);
    let b = CommandBlock::new(vec![]);
    assert!(b.is_done());
    assert!(exits_of(b).is_empty());
}

#[test]
fn big_endian_reads() {
    assert_eq!(gu32(&[0x12, 0x34, 0x56, 0x78, 0xff]), 0x1234_5678);
    assert_eq!(gu32(&[0xff, 0xff, 0xff, 0xff]), u32::MAX);
    assert_eq!(gu16(&[0xab, 0xcd]), 0xabcd);
    assert_eq!(gu16(&[0x00, 0x01, 0x99]), 1);
}

#[test]
fn power_reading_is_decoded_at_its_offsets() {
    let mut buf = [0u8; 130];
    buf[2] = 0x13;
    buf[3] = 0x88; // 5000 mV
    buf[4] = 0x01;
    buf[5] = 0xf4; // 500 mA
    buf[6..10].copy_from_slice(&2500u32.to_be_bytes());
    buf[16..20].copy_from_slice(&77u32.to_be_bytes());
    buf[20..24].copy_from_slice(&66u32.to_be_bytes());
    let s = decode_power_sample(&buf);
    assert_eq!(
        s,
        PowerSample { total_m_watt_hour: 77, total_m_amp_hour: 66, m_watts: 2500, m_volts: 5000, m_amps: 500 }
    );
}

#[test]
fn limit_without_maximum_stops_at_once() {
    assert!(limit_reached(0, None));
    assert!(!limit_reached(0, Some(2)));
    assert!(!limit_reached(1, Some(2)));
    assert!(limit_reached(2, Some(2)));
}

#[test]
fn controls_change_measurements() {
    let mut p = power_setup(false);
    apply_power_control(&mut p, MeasureControl::Toggle);
    assert!(p.start_polling);
    apply_power_control(&mut p, MeasureControl::Toggle);
    assert!(!p.start_polling);
    let mut n = power_setup(true);
    n.mac_address = [9; 6];
    n.max_measurements = Some(7);
    n.poll_interval = Timespan::from_millis(3000);
    apply_power_control(&mut p, MeasureControl::NewState(n));
    assert_eq!(p.mac_address, [0xaa, 0xbb, 0xcc, 0xdd, 0xee, 0xff]);
    assert!(p.start_polling);
    assert_eq!(p.max_measurements, Some(7));
    assert_eq!(p.poll_interval, Timespan { secs: 3, nanos: 0 });

    let mut c = cpu_setup(false);
    apply_cpu_control(&mut c, MeasureControl::Toggle);
    assert!(c.start_polling);
    apply_cpu_control(&mut c, MeasureControl::NewState(MeasureCpu {
        poll_interval: Timespan::from_millis(1),
        start_polling: false,
        max_measurements: None,
    }));
    assert!(!c.start_polling);
    assert_eq!(c.max_measurements, None);
    assert_eq!(c.poll_interval, Timespan { secs: 0, nanos: 1_000_000 });
}

#[test]
fn meter_address_for_rfcomm() {
    assert_eq!(mac_text(&[0x01, 0x23, 0x45, 0x67, 0x89, 0xab]), "01:23:45:67:89:ab");
    assert_eq!(mac_text(&[0, 0, 0, 0, 0, 0xff]), "00:00:00:00:00:ff");
}

#[test]
fn measurement_reports() {
    let m = power_report(Sequence(4), Err("no meter".into()));
    assert_eq!(m.seq, Sequence(4));
    assert!(matches!(m.cmd, S2C::Error(ref e) if e == "Power measurement fatal error: no meter"));
    let m = power_report(Sequence(4), Ok(vec![]));
    assert!(matches!(m.cmd, S2C::PowerData(ref v) if v.is_empty()));
    let m = cpu_report(Sequence(5), Err("gone".into()));
    assert!(matches!(m.cmd, S2C::Error(ref e) if e == "Cpu measurement fatal error: gone"));
    let m = cpu_report(Sequence(5), Ok(vec!["cpu 1 2 3".into()]));
    assert!(matches!(m.cmd, S2C::CpuData(ref v) if v.len() == 1));
}

#[test]
fn power_polling_rounds() {
    let mut setup = power_setup(false);
    setup.max_measurements = Some(2);
    let mut poll = PowerPoll::new(setup);
    assert_eq!(poll.round(false, None), RoundAction::Idle);
    assert_eq!(poll.round(false, Some(MeasureControl::Toggle)), RoundAction::Poll);
    assert_eq!(poll.reading(None), Pace::Retry);
    assert!(poll.samples.is_empty());
    let mut buf = [0u8; 130];
    buf[7] = 1;
    assert_eq!(poll.reading(Some(&buf[..])), Pace::Wait(Timespan::from_millis(100)));
    assert_eq!(poll.samples.len(), 1);
    assert_eq!(poll.samples[0].m_watts, 0x10000);
    assert_eq!(poll.round(false, None), RoundAction::Poll);
    poll.reading(Some(&buf[..]));
    assert_eq!(poll.round(false, Some(MeasureControl::Toggle)), RoundAction::Stop);
    assert!(poll.cfg.start_polling);
    let mut other = PowerPoll::new(power_setup(true));
    assert_eq!(other.round(true, None), RoundAction::Stop);
    let mut unbounded = power_setup(true);
    unbounded.max_measurements = None;
    assert_eq!(PowerPoll::new(unbounded).round(false, None), RoundAction::Stop);
}

#[test]
fn cpu_polling_rounds() {
    let mut poll = CpuPoll::new(cpu_setup(true));
    assert_eq!(poll.round(false, None), RoundAction::Poll);
    assert_eq!(poll.reading("cpu 1 2 3".into()), Timespan::from_millis(500));
    assert_eq!(poll.readings, vec!["cpu 1 2 3".to_string()]);
    let mut next = cpu_setup(false);
    next.max_measurements = Some(1);
    assert_eq!(poll.round(false, Some(MeasureControl::NewState(next))), RoundAction::Idle);
    assert_eq!(poll.cfg.max_measurements, Some(1));
    assert_eq!(poll.round(false, None), RoundAction::Stop);
}
