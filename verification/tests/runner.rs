use testbed::backend::message::{Command, FileClass, SentFile, Sequence, Timespan, C2S};
use testbed::config::experiment::Dplane;
use testbed::config::machine::Machine;
use testbed::runner::keys::{ascii_text, cert_subject_names, generate_keys, key_files, machine_keys, KeyGenError};
use testbed::runner::plan::{
    bind_dpdk_command, chmod_commands, compile_commands, cpu_file, cpu_request, device_url, dplane_compiler_command,
    dplane_subfolder, max_rate, pktgen_command, power_file, power_request, results_dir, sanitised_name, select_machines,
    testpmd_command, time_label, trusded_command, trusted_cert_files, unbind_dpdk_command, upload_binaries, vecify,
    PlanError, PowerSetupError, SelectError, Selection,
};

fn machine(name: &str) -> Machine {
    Machine {
        name: name.into(),
        hostname: None,
        arch: None,
        iface: None,
        dpdk_pcie_addr: None,
        um24c_addr: None,
        link_rate_mbps: None,
        pktgen_home: None,
        mac_address: None,
        supports_power_measurement: None,
        supports_dpdk_pmd: None,
        driver_name: None,
    }
}

fn only(req: C2S) -> Command {
    match req {
        C2S::Commands(mut cmds) => {
            assert_eq!(cmds.len(), 1);
            cmds.remove(0)
        },
        other => panic!("not a command block: {:?}", other),
    }
}

fn strs(v: &[&str]) -> Vec<String> {
    v.iter().map(|s| s.to_string()).collect()
}

#[test]
fn vecify_copies() {
    assert_eq!(vecify(&["b", "--release"]), strs(&["b", "--release"]));
    assert!(vecify(&[]).is_empty());
}

#[test]
fn build_commands() {
    match compile_commands() {
        C2S::Commands(cmds) => {
            assert_eq!(cmds.len(), 2);
            assert_eq!(cmds[0].command[0].prog, "cargo");
            assert_eq!(cmds[0].command[0].args, strs(&["b", "--release"]));
            assert_eq!(cmds[0].cwd.as_deref(), Some("../"));
            assert_eq!(cmds[1].command[0].args, strs(&["b", "--release", "--target", "aarch64-unknown-linux-gnu"]));
            assert!(cmds[1].env.is_empty());
        },
        other => panic!("{:?}", other),
    }
    let c = only(chmod_commands());
    assert_eq!(c.command.len(), 2);
    assert_eq!(c.command[0].prog, "chmod");
    assert_eq!(c.command[0].args, strs(&["ugo+x", "tmp/chainsmith"]));
    assert_eq!(c.command[1].args, strs(&["ugo+x", "tmp/pulley"]));
}

#[test]
fn binaries_are_renamed_for_upload() {
    let f = |n: &str| SentFile { filename: n.into(), rename: None, data: vec![7], class: FileClass::File };
    match upload_binaries(f("../target/release/chainsmith"), f("../target/release/pulley")) {
        C2S::Upload(files) => {
            assert_eq!(files[0].rename.as_deref(), Some("chainsmith"));
            assert_eq!(files[1].rename.as_deref(), Some("pulley"));
            assert_eq!(files[1].filename, "../target/release/pulley");
        },
        other => panic!("{:?}", other),
    }
}

#[test]
fn compiler_command() {
    let c = only(dplane_compiler_command("../examples/01-macswap-xdp"));
    assert_eq!(c.command[0].prog, "../target/release/chainsmith");
    assert_eq!(c.command[0].args, strs(&["../examples/01-macswap-xdp", "--conn-string", "0.0.0.0:8081"]));
    assert_eq!(c.cwd, None);
}

#[test]
fn dpdk_binding() {
    let m = machine("dut");
    let e = bind_dpdk_command(&m).unwrap_err();
    assert_eq!(e.describe(), "Device dut cannot be used as DPDK host");
    assert!(matches!(unbind_dpdk_command(&m), Err(PlanError::NotDpdkHost(ref n)) if n == "dut"));
    let mut m = machine("dut");
    m.dpdk_pcie_addr = Some("0000:01:00.0".into());
    let c = only(bind_dpdk_command(&m).unwrap());
    assert_eq!(c.command[0].prog, "bash");
    assert_eq!(c.command[0].args, strs(&["-c", "echo 1 > /sys/module/vfio/parameters/enable_unsafe_noiommu_mode"]));
    assert_eq!(c.command[1].prog, "dpdk-devbind.py");
    assert_eq!(c.command[1].args, strs(&["--bind=vfio-pci", "0000:01:00.0", "--force"]));
    let c = only(unbind_dpdk_command(&m).unwrap());
    assert_eq!(c.command[0].args, strs(&["--bind=e1000e", "0000:01:00.0"]));
}

#[test]
fn pktgen_environment() {
    let mut gen = machine("pktgen");
    let mut dut = machine("dut");
    let e = pktgen_command(&gen, &dut, 2, 64, "1", "100", 0).unwrap_err();
    assert_eq!(e.describe(), "FATAL: Need PktGen install directory (`pktgen_home`) on pktgen");
    gen.pktgen_home = Some("/opt/pktgen".into());
    dut.mac_address = Some("aa:bb:cc:dd:ee:ff".into());
    let c = only(pktgen_command(&gen, &dut, 2, 64, "0.5", "50", 3).unwrap());
    assert_eq!(c.command[0].prog, "pktgen");
    assert_eq!(
        c.command[0].args,
        strs(&["-n", "2", "-l", "0,2,4", "--", "-m", "[2:4].0", "-f", "tmp/pktgen-measure.lua"])
    );
    let env: Vec<(&str, &str)> = c.env.iter().map(|(k, v)| (k.as_str(), v.as_str())).collect();
    assert_eq!(
        env,
        vec![
            ("TEST_STRESS_ITER", "3"),
            ("TEST_STRESS_RATE", "0.5"),
            ("TEST_STRESS_RATE_DISPLAY", "50"),
            ("TEST_STRESS_SZ", "64"),
            ("TEST_STRESS_CORE_CT", "2"),
            ("TEST_STRESS_SUFFIX", ""),
            ("TEST_STRESS_DST_MAC", "aa:bb:cc:dd:ee:ff"),
            ("PKTGEN_HOME", "/opt/pktgen"),
        ]
    );
    for i in 0..env.len() {
        for j in 0..env.len() {
            assert!(i == j || env[i].0 != env[j].0);
        }
    }
    dut.mac_address = None;
    let c = only(pktgen_command(&gen, &dut, 2, 64, "0.5", "50", 3).unwrap());
    assert_eq!(c.env.len(), 7);
}

#[test]
fn trusded_data_plane() {
    let mut dut = machine("dut");
    let mut compiler = machine("runner");
    compiler.hostname = Some("runner.local".into());
    assert_eq!(
        trusded_command(&dut, &compiler, 2, "0.5", 10).unwrap_err().describe(),
        "Device dut cannot be used as TruSDEd host"
    );
    dut.iface = Some("eth1".into());
    let c = only(trusded_command(&dut, &compiler, 2, "0.5", 10).unwrap());
    assert_eq!(c.command[0].prog, "ip");
    assert_eq!(c.command[0].args, strs(&["link", "set", "eth1", "promisc", "on"]));
    assert_eq!(c.command[1].prog, "tmp/pulley");
    assert_eq!(
        c.command[1].args,
        strs(&[
            "-i",
            "eth1",
            "--xdp-cores",
            "2",
            "--share-umem",
            "--loadbalance-chance",
            "0.5",
            "--upcall-poll-timeout",
            "10",
            "ws://runner.local:8080",
        ])
    );
}

#[test]
fn testpmd_data_plane() {
    let mut dut = machine("dut");
    assert!(matches!(testpmd_command(&dut, true), Err(PlanError::NotDataplaneHost(_))));
    dut.iface = Some("eth0".into());
    let c = only(testpmd_command(&dut, true).unwrap());
    assert_eq!(c.command.len(), 2);
    assert_eq!(c.command[0].args, strs(&["link", "set", "eth0", "promisc", "on"]));
    assert_eq!(c.command[1].prog, "dpdk-testpmd");
    assert_eq!(
        c.command[1].args,
        strs(&[
            "-l",
            "0,2",
            "--no-huge",
            "-m",
            "640",
            "--vdev=eth_af_packet0,iface=eth0,blocksz=4096,framesz=2048,framecnt=2048,qdisc_bypass=1",
            "--",
            "--forward-mode=macswap",
        ])
    );
    dut.supports_dpdk_pmd = Some(true);
    let c = only(testpmd_command(&dut, false).unwrap());
    assert_eq!(c.command.len(), 1);
    assert_eq!(c.command[0].args, strs(&["-l", "0,2", "--", "--forward-mode=macswap"]));
}

#[test]
fn result_paths() {
    assert_eq!(dplane_subfolder(&Dplane::Trusded("x".into()), "kxdp", "0.5", 10), "tru-kxdp-0.5p-10ms");
    assert_eq!(dplane_subfolder(&Dplane::TestpmdAfPacket, "a", "0.5", 10), "testpmd-afp");
    assert_eq!(dplane_subfolder(&Dplane::TestpmdDpdk, "a", "0.5", 10), "testpmd-dpdk");
    let dir = results_dir("lat", "2024-01-01T10.00.00+00.00", "rpi", "testpmd-dpdk");
    assert_eq!(dir, "results/lat/2024-01-01T10.00.00+00.00/rpi/testpmd-dpdk/");
    assert_eq!(power_file(&dir, 64, "100", 2, 0), format!("{dir}p-64B-100M-2C-0.csv"));
    assert_eq!(cpu_file(&dir, 1518, "0.1", 1, 9), format!("{dir}c-1518B-0.1M-1C-9.dat"));
    assert_eq!(sanitised_name("a/b\\c"), "a-b-c");
    assert_eq!(time_label("2024-01-01T10:00:00+01:00"), "2024-01-01T10.00.00+01.00");
}

#[test]
fn measurement_requests() {
    match cpu_request() {
        C2S::MeasureCpu(s, None) => {
            assert_eq!(s.poll_interval, Timespan { secs: 0, nanos: 500_000_000 });
            assert!(!s.start_polling);
            assert_eq!(s.max_measurements, Some(50));
        },
        other => panic!("{:?}", other),
    }
    let mut t = machine("pktgen");
    assert_eq!(power_request(&t).unwrap_err(), PowerSetupError::NoMeterAddress);
    t.um24c_addr = Some("not-a-mac".into());
    assert_eq!(power_request(&t).unwrap_err(), PowerSetupError::BadMeterAddress);
    t.um24c_addr = Some("80:FA:5B:41:10:6B".into());
    match power_request(&t).unwrap() {
        C2S::MeasurePower(s, None) => {
            assert_eq!(s.mac_address, [128, 250, 91, 65, 16, 107]);
            assert_eq!(s.poll_interval, Timespan { secs: 0, nanos: 100_000_000 });
            assert_eq!(s.max_measurements, Some(125));
            assert!(!s.start_polling);
        },
        other => panic!("{:?}", other),
    }
    t.um24c_addr = Some("0123456789AB".into());
    match power_request(&t).unwrap() {
        C2S::MeasurePower(s, _) => assert_eq!(s.mac_address, [0x01, 0x23, 0x45, 0x67, 0x89, 0xab]),
        other => panic!("{:?}", other),
    }
}

#[test]
fn machines_are_selected_by_name() {
    let ms = vec![machine("runner"), machine("rpi"), machine("pktgen"), machine("rpi")];
    assert_eq!(select_machines(&ms, "rpi", "pktgen").unwrap(), Selection { dut: 3, tester: 2, runner: 0 });
    assert!(matches!(select_machines(&ms, "nuc", "pktgen"), Err(SelectError::UnknownMachine(ref n)) if n == "nuc"));
    assert!(matches!(select_machines(&ms, "rpi", "gen"), Err(SelectError::UnknownMachine(ref n)) if n == "gen"));
    let no_runner = vec![machine("rpi"), machine("pktgen")];
    assert!(matches!(select_machines(&no_runner, "rpi", "pktgen"), Err(SelectError::NoRunner)));
}

#[test]
fn trusted_certificates_skip_the_runner() {
    let mut a = machine("rpi");
    a.hostname = Some("pi.lab".into());
    let ms = vec![machine("runner"), a, machine("pktgen")];
    assert_eq!(trusted_cert_files(&ms), strs(&["pi.lab.cert.der", "pktgen.cert.der"]));
}

#[test]
fn device_addresses() {
    let mut m = machine("rpi");
    assert_eq!(device_url(&m), "wss://rpi:9832");
    m.hostname = Some("10.0.0.2".into());
    assert_eq!(device_url(&m), "wss://10.0.0.2:9832");
}

#[test]
fn key_material_names() {
    assert_eq!(cert_subject_names("pi"), strs(&["localhost", "pi", "pi.local"]));
    let mut m = machine("rpi");
    m.hostname = Some("pi".into());
    let (c, k) = key_files(&m);
    assert_eq!(c, "pi.cert.der");
    assert_eq!(k, "pi.key.der");
}

#[test]
fn keys_are_generated() {
    let keys = machine_keys(&machine("rpi")).expect("key generation");
    assert!(!keys.cert_der.is_empty());
    assert!(!keys.key_der.is_empty());
    assert_eq!(keys.cert_der[0], 0x30);
    assert_eq!(keys.key_der[0], 0x30);
    let holds = |t: &[u8]| keys.cert_der.windows(t.len()).any(|w| w == t);
    assert!(holds(b"localhost"));
    assert!(holds(b"rpi.local"));
    assert!(holds(b"rpi"));
    let other = generate_keys(cert_subject_names("rpi")).expect("key generation");
    assert_ne!(other.key_der, keys.key_der);
}

#[test]
fn non_ascii_host_names_are_refused() {
    let mut m = machine("rpi");
    m.hostname = Some("r\u{e4}spi".into());
    assert!(matches!(machine_keys(&m), Err(KeyGenError::NonAsciiName)));
    assert!(ascii_text("rpi-4.local"));
    assert!(!ascii_text("\u{e4}"));
    assert!(ascii_text(""));
}

#[test]
fn kill_request_shape() {
    assert!(matches!(C2S::Terminate(Sequence(4)), C2S::Terminate(Sequence(4))));
}

#[test]
fn link_rate_for_scaling() {
    let mut dut = machine("dut");
    assert_eq!(max_rate(&dut, false).unwrap().0, 1000.0f64.to_bits());
    let e = max_rate(&dut, true).unwrap_err();
    assert_eq!(e.describe(), "Machine dut does not have a known link rate.");
    dut.link_rate_mbps = Some(testbed::config::number::FloatBits(100.0f64.to_bits()));
    assert_eq!(max_rate(&dut, true).unwrap().0, 100.0f64.to_bits());
    assert_eq!(max_rate(&dut, false).unwrap().0, 1000.0f64.to_bits());
}
