//! The machines of a testbed, as the machine definition file lists them.
use vstd::prelude::*;

use crate::config::number::FloatBits;

verus! {

/// One machine of the testbed and what it offers.
#[derive(Clone, Debug)]
pub struct Machine {
    pub name: String,
    pub hostname: Option<String>,
    pub arch: Option<String>,
    pub iface: Option<String>,
    pub dpdk_pcie_addr: Option<String>,
    pub um24c_addr: Option<String>,
    pub link_rate_mbps: Option<FloatBits>,
    pub pktgen_home: Option<String>,
    pub mac_address: Option<String>,
    pub supports_power_measurement: Option<bool>,
    pub supports_dpdk_pmd: Option<bool>,
    pub driver_name: Option<String>,
}

impl Machine {
    /// The name under which the machine is reached: its host name where it has
    /// one, else its name.
    pub open spec fn host(&self) -> Seq<char> {
        match self.hostname {
            Some(h) => h@,
            None => self.name@,
        }
    }

    /// The name under which the machine is reached.
    pub fn hostname(&self) -> (r: &str)
        ensures
            r@ == self.host(),
    {
        match &self.hostname {
            Some(host) => host.as_str(),
            None => self.name.as_str(),
        }
    }
}

/// The list that a TOML definition file holds under `data`.
#[derive(Clone, Debug)]
pub struct TomlList<T> {
    pub data: Vec<T>,
}

} // verus!
