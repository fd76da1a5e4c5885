use testbed::config::experiment::{Dplane, Experiment, ExperimentFile, NamedDplane};
use testbed::config::machine::Machine;
use testbed::config::number::FloatBits;
use testbed::config::range::ExperimentRange;

fn values(r: &ExperimentRange<u64>, limit: usize) -> Vec<u64> {
    let mut it = r.iter();
    let mut out = vec![];
    while out.len() < limit {
        match it.next() {
            Some(v) => out.push(v),
            None => break,
        }
    }
    out
}

fn bits(x: f64) -> FloatBits {
    FloatBits(x.to_bits())
}

fn empty_file() -> ExperimentFile {
    ExperimentFile {
        cores: None,
        rate: None,
        upcall_percent: None,
        upcall_timeout: None,
        dut_machines: None,
        dplanes: None,
        pkt_size: None,
        iterations: None,
        fill_up_percent_fair: None,
        prototype_path: None,
    }
}

fn machine(name: &str, hostname: Option<&str>) -> Machine {
    Machine {
        name: name.into(),
        hostname: hostname.map(|h| h.into()),
        arch: None,
        iface: None,
        dpdk_pcie_addr: None,
        um24c_addr: None,
        link_rate_mbps: None,
        pktgen_home: None,
        mac_address: None,
        supports_power_measurement: None,
        supports_dpdk_pmd: None,
        driver_name: None,
    }
}

#[test]
fn variability_of_ranges() {
    assert!(!ExperimentRange::Fixed(3u64).is_variable());
    assert!(!ExperimentRange::List(vec![3u64]).is_variable());
    assert!(ExperimentRange::List(vec![3u64, 4]).is_variable());
    assert!(ExperimentRange::Range { start: 1u64, end: 1 }.is_variable());
    assert!(ExperimentRange::RangeStride { start: 1u64, end: 9, stride: 2 }.is_variable());
}

#[test]
fn fixed_and_list_values() {
    assert_eq!(values(&ExperimentRange::Fixed(5), 10), vec![5]);
    assert_eq!(values(&ExperimentRange::List(vec![64, 128, 256]), 10), vec![64, 128, 256]);
    assert_eq!(values(&ExperimentRange::List(vec![]), 10), Vec::<u64>::new());
}

#[test]
fn range_yields_interval() {
    assert_eq!(values(&ExperimentRange::Range { start: 3, end: 6 }, 10), vec![3, 4, 5, 6]);
    assert_eq!(values(&ExperimentRange::Range { start: 6, end: 6 }, 10), vec![6]);
    assert_eq!(values(&ExperimentRange::Range { start: 7, end: 6 }, 10), Vec::<u64>::new());
}

#[test]
fn stride_range_values() {
    assert_eq!(values(&ExperimentRange::RangeStride { start: 1, end: 10, stride: 3 }, 10), vec![1, 4, 7, 10]);
    assert_eq!(values(&ExperimentRange::RangeStride { start: 1, end: 9, stride: 3 }, 10), vec![1, 4, 7]);
    assert_eq!(values(&ExperimentRange::RangeStride { start: 4, end: 4, stride: 0 }, 5), vec![4, 4, 4, 4, 4]);
    assert_eq!(values(&ExperimentRange::RangeStride { start: 5, end: 4, stride: 1 }, 5), Vec::<u64>::new());
    assert_eq!(
        values(&ExperimentRange::RangeStride { start: 3, end: u64::MAX, stride: u64::MAX - 3 }, 2),
        vec![3, u64::MAX]
    );
}

#[test]
fn exhausted_iterator_stays_exhausted() {
    let mut it = ExperimentRange::Range { start: 1u64, end: 2 }.into_iter();
    assert_eq!(it.next(), Some(1));
    assert_eq!(it.next(), Some(2));
    assert_eq!(it.next(), None);
    assert_eq!(it.position(), 2);
    assert_eq!(it.next(), None);
    assert_eq!(it.position(), 2);
}

#[test]
fn iterator_exposes_its_position() {
    let mut it = ExperimentRange::List(vec![bits(0.1), bits(0.2)]).into_iter();
    assert_eq!(it.position(), 0);
    assert!(matches!(it.source(), ExperimentRange::List(l) if l.len() == 2));
    it.advance();
    assert_eq!(it.position(), 1);
}

#[test]
fn hostname_falls_back_to_name() {
    assert_eq!(machine("pktgen", None).hostname(), "pktgen");
    assert_eq!(machine("pktgen", Some("gen.lab")).hostname(), "gen.lab");
}

#[test]
fn default_experiment() {
    let e = Experiment::default();
    assert!(matches!(e.cores, ExperimentRange::Fixed(1)));
    assert!(matches!(e.rate, ExperimentRange::Fixed(b) if b == bits(1.0)));
    assert!(matches!(e.upcall_percent, ExperimentRange::Fixed(b) if b == bits(0.5)));
    assert!(matches!(e.upcall_timeout, ExperimentRange::Fixed(1)));
    assert_eq!(e.dut_machines, vec!["rpi".to_string()]);
    assert_eq!(e.dplanes.len(), 1);
    assert_eq!(e.dplanes[0].name, "kxdp");
    assert!(matches!(e.dplanes[0].dplane, Dplane::Trusded(ref p) if p == "../examples/01-macswap-xdp"));
    assert!(matches!(e.pkt_size, ExperimentRange::List(ref l) if *l == vec![64, 128, 256, 512, 1024, 1280, 1518]));
    assert_eq!(e.iterations, 10);
    assert!(!e.fill_up_percent_fair);
}

#[test]
fn empty_file_resolves_to_defaults() {
    let e = empty_file().into_experiment();
    assert!(matches!(e.cores, ExperimentRange::Fixed(1)));
    assert_eq!(e.iterations, 10);
    assert_eq!(e.dut_machines, vec!["rpi".to_string()]);
}

#[test]
fn prototype_fills_only_missing_settings() {
    let mut f = empty_file();
    f.iterations = Some(3);
    f.prototype_path = Some("base.ron".into());
    let mut proto = empty_file();
    proto.iterations = Some(99);
    proto.cores = Some(ExperimentRange::Range { start: 1, end: 4 });
    proto.dut_machines = Some(vec!["pi4".into()]);
    proto.prototype_path = Some("root.ron".into());
    f.inherit(proto);
    assert_eq!(f.iterations, Some(3));
    assert!(matches!(f.cores, Some(ExperimentRange::Range { start: 1, end: 4 })));
    assert_eq!(f.dut_machines, Some(vec!["pi4".to_string()]));
    assert_eq!(f.prototype_path, Some("root.ron".to_string()));
    let mut root = empty_file();
    root.cores = Some(ExperimentRange::Fixed(8));
    root.fill_up_percent_fair = Some(true);
    f.inherit(root);
    assert!(matches!(f.cores, Some(ExperimentRange::Range { start: 1, end: 4 })));
    assert_eq!(f.fill_up_percent_fair, Some(true));
    assert_eq!(f.prototype_path, None);
    let e = f.into_experiment();
    assert_eq!(e.iterations, 3);
    assert!(e.fill_up_percent_fair);
    assert!(matches!(e.pkt_size, ExperimentRange::List(ref l) if l.len() == 7));
}

#[test]
fn experiment_round_trips_through_file() {
    let e = Experiment {
        cores: ExperimentRange::List(vec![1, 2]),
        rate: ExperimentRange::RangeStride { start: bits(10.0), end: bits(100.0), stride: bits(10.0) },
        upcall_percent: ExperimentRange::Fixed(bits(0.25)),
        upcall_timeout: ExperimentRange::Fixed(5),
        dut_machines: vec!["a".into(), "b".into()],
        dplanes: vec![NamedDplane { name: "tp".into(), dplane: Dplane::TestpmdDpdk }],
        pkt_size: ExperimentRange::Fixed(64),
        iterations: 2,
        fill_up_percent_fair: true,
    };
    let f = ExperimentFile::from(e.clone());
    assert_eq!(f.prototype_path, None);
    let back = f.into_experiment();
    assert!(matches!(back.cores, ExperimentRange::List(ref l) if *l == vec![1, 2]));
    assert!(matches!(back.upcall_percent, ExperimentRange::Fixed(b) if b == bits(0.25)));
    assert_eq!(back.dut_machines, e.dut_machines);
    assert_eq!(back.dplanes[0].name, "tp");
    assert_eq!(back.iterations, 2);
    assert!(back.fill_up_percent_fair);
}
