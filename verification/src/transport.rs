//! Start-up decisions of the two transports: which Reticulum TCP interfaces are
//! brought up, on which addresses, and where the Iroh endpoint binds.

use vstd::prelude::*;
use crate::config::{Config, InterfaceConfig, NamedInterface};
use crate::text::{concat3, decimal, decimal_string, strip_trailing, trim_end_matches_char};

verus! {

broadcast use vstd::string::group_string_axioms;

/// Unit type under which the Reticulum transport is brought up.
pub struct ReticulumTransport;

/// Unit type under which the Iroh transport is brought up.
pub struct IrohTransport;

/// Name under which the daemon registers with the Reticulum transport.
pub fn transport_name() -> (r: &'static str)
    ensures
        r@ == "aerowan-daemon"@,
{
    "aerowan-daemon"
}

/// `host:port` where trailing colons of `host` are dropped first.
pub open spec fn spec_host_port(host: Seq<char>, port: u16) -> Seq<char> {
    strip_trailing(host, ':') + seq![':'] + decimal(port as nat)
}

/// Formats an interface address as `format!("{}:{}", host.trim_end_matches(':'), port)`.
pub fn host_port(host: &str, port: u16) -> (r: String)
    ensures
        r@ == spec_host_port(host@, port),
{
    let h = trim_end_matches_char(host, ':');
    let p = decimal_string(port as u64);
    proof {
        reveal_strlit(":");
    }
    concat3(h.as_str(), ":", p.as_str())
}

/// The side of a TCP interface.
#[derive(PartialEq, Eq, Clone, Copy)]
pub enum InterfaceRole {
    Server,
    Client,
}

/// A Reticulum interface to bring up.
pub struct InterfaceLaunch {
    pub name: String,
    pub role: InterfaceRole,
    pub addr: String,
}

/// What an [`InterfaceLaunch`] holds, as plain values.
pub struct LaunchView {
    pub name: Seq<char>,
    pub role: InterfaceRole,
    pub addr: Seq<char>,
}

impl View for InterfaceLaunch {
    type V = LaunchView;

    open spec fn view(&self) -> LaunchView {
        LaunchView { name: self.name@, role: self.role, addr: self.addr@ }
    }
}

/// The launch an interface asks for, or `None` when it is disabled.
pub open spec fn spec_launch(i: NamedInterface) -> Option<LaunchView> {
    match i.config {
        InterfaceConfig::TCPServerInterface { interface_enabled, bind_host, bind_port } => {
            if interface_enabled {
                Some(
                    LaunchView {
                        name: i.name@,
                        role: InterfaceRole::Server,
                        addr: spec_host_port(bind_host@, bind_port),
                    },
                )
            } else {
                None
            }
        },
        InterfaceConfig::TCPClientInterface { interface_enabled, target_host, target_port } => {
            if interface_enabled {
                Some(
                    LaunchView {
                        name: i.name@,
                        role: InterfaceRole::Client,
                        addr: spec_host_port(target_host@, target_port),
                    },
                )
            } else {
                None
            }
        },
    }
}

/// The launches of the enabled interfaces among `ifaces`, in order.
pub open spec fn spec_launches(ifaces: Seq<NamedInterface>) -> Seq<LaunchView>
    decreases ifaces.len(),
{
    if ifaces.len() == 0 {
        Seq::empty()
    } else {
        match spec_launch(ifaces.last()) {
            Some(l) => spec_launches(ifaces.drop_last()).push(l),
            None => spec_launches(ifaces.drop_last()),
        }
    }
}

/// The launch for one configured interface.
pub fn interface_launch(i: &NamedInterface) -> (r: Option<InterfaceLaunch>)
    ensures
        match r {
            Some(l) => spec_launch(*i) == Some(l@),
            None => spec_launch(*i) is None,
        },
{
    match &i.config {
        InterfaceConfig::TCPServerInterface { interface_enabled, bind_host, bind_port } => {
            if *interface_enabled {
                Some(
                    InterfaceLaunch {
                        name: i.name.clone(),
                        role: InterfaceRole::Server,
                        addr: host_port(bind_host.as_str(), *bind_port),
                    },
                )
            } else {
                None
            }
        },
        InterfaceConfig::TCPClientInterface { interface_enabled, target_host, target_port } => {
            if *interface_enabled {
                Some(
                    InterfaceLaunch {
                        name: i.name.clone(),
                        role: InterfaceRole::Client,
                        addr: host_port(target_host.as_str(), *target_port),
                    },
                )
            } else {
                None
            }
        },
    }
}

impl ReticulumTransport {
    /// The interfaces that start-up brings up: every enabled TCP server and
    /// client interface of `config`, in configuration order, each on
    /// `host:port` with trailing colons of the host dropped.
    pub fn interface_launches(config: &Config) -> (r: Vec<InterfaceLaunch>)
        ensures
            r@.map_values(|l: InterfaceLaunch| l@) == spec_launches(config.interfaces@),
    {
        let mut out: Vec<InterfaceLaunch> = Vec::new();
        let n = config.interfaces.len();
        let mut k: usize = 0;
        while k < n
            invariant
                n == config.interfaces@.len(),
                k <= n,
                out@.map_values(|l: InterfaceLaunch| l@) == spec_launches(
                    config.interfaces@.take(k as int),
                ),
            decreases n - k,
        {
            let ghost before = out@;
            let launch = interface_launch(&config.interfaces[k]);
            assert(config.interfaces@.take(k + 1).drop_last() =~= config.interfaces@.take(
                k as int,
            ));
            assert(config.interfaces@.take(k + 1).last() == config.interfaces@[k as int]);
            match launch {
                Some(l) => {
                    let ghost lv = l@;
                    out.push(l);
                    assert(out@.map_values(|l: InterfaceLaunch| l@) =~= before.map_values(
                        |l: InterfaceLaunch| l@,
                    ).push(lv));
                },
                None => {},
            }
            k = k + 1;
        }
        assert(config.interfaces@.take(n as int) =~= config.interfaces@);
        out
    }
}

/// The address the Iroh endpoint binds when a fixed port is configured.
pub open spec fn spec_iroh_bind_addr(port: u16) -> Option<Seq<char>> {
    if port != 0 {
        Some("0.0.0.0:"@ + decimal(port as nat))
    } else {
        None
    }
}

/// `0.0.0.0:port`, the address the daemon listens on for a port.
pub fn any_addr(port: u16) -> (r: String)
    ensures
        r@ == "0.0.0.0:"@ + decimal(port as nat),
{
    let p = decimal_string(port as u64);
    crate::text::concat("0.0.0.0:", p.as_str())
}

impl IrohTransport {
    /// Whether the Iroh endpoint is started at all.
    pub fn enabled(config: &Config) -> (r: bool)
        ensures
            r == config.iroh.enabled,
    {
        config.iroh.enabled
    }

    /// The address the Iroh endpoint binds: `0.0.0.0:port` for a configured
    /// port, or `None` to let the OS choose (port 0).
    pub fn bind_addr(config: &Config) -> (r: Option<String>)
        ensures
            match r {
                Some(a) => spec_iroh_bind_addr(config.iroh.bind_port) == Some(a@),
                None => spec_iroh_bind_addr(config.iroh.bind_port) is None,
            },
    {
        if config.iroh.bind_port != 0 {
            Some(any_addr(config.iroh.bind_port))
        } else {
            None
        }
    }
}

} // verus!
