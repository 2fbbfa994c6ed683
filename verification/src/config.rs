//! Daemon configuration: its sections, their defaults, and where the
//! configuration directory is looked for.

use vstd::prelude::*;
use crate::text::{extend_bytes, joined, join_path};
use vstd::utf8::encode_utf8;
use vstd::string::StrSliceExecFns;

verus! {

broadcast use vstd::string::group_string_axioms;

/// Reticulum mesh settings.
pub struct ReticulumConfig {
    pub enable_transport: bool,
    pub share_instance: bool,
    pub shared_instance_port: u16,
    pub instance_control_port: u16,
    pub panic_on_interface_error: bool,
}

/// Iroh (QUIC) settings. `bind_port` 0 lets the OS pick the port; an empty
/// `relay_url` means Iroh's default relays.
pub struct IrohConfig {
    pub enabled: bool,
    pub bind_port: u16,
    pub relay_url: String,
}

/// Logging verbosity, 1 (errors only) to 7 and above (trace).
pub struct LoggingConfig {
    pub loglevel: u8,
}

/// Local REST API settings.
pub struct ApiConfig {
    pub port: u16,
}

/// A Reticulum TCP interface.
pub enum InterfaceConfig {
    TCPServerInterface { interface_enabled: bool, bind_host: String, bind_port: u16 },
    TCPClientInterface { interface_enabled: bool, target_host: String, target_port: u16 },
}

/// An interface together with the name it is configured under.
pub struct NamedInterface {
    pub name: String,
    pub config: InterfaceConfig,
}

/// Whether no two interfaces share a name (a name identifies one interface).
pub open spec fn distinct_names(ifaces: Seq<NamedInterface>) -> bool {
    forall|i: int, j: int|
        0 <= i < j < ifaces.len() ==> (#[trigger] ifaces[i]).name@ != (#[trigger] ifaces[j]).name@
}

/// The whole daemon configuration. Its interfaces are keyed by name, so a
/// well-formed configuration has [`distinct_names`].
pub struct Config {
    pub reticulum: ReticulumConfig,
    pub iroh: IrohConfig,
    pub logging: LoggingConfig,
    pub api: ApiConfig,
    pub interfaces: Vec<NamedInterface>,
}

/// Default for boolean switches that are on unless configured otherwise.
pub fn default_true() -> (r: bool)
    ensures
        r,
{
    true
}

/// Default port of the shared Reticulum instance.
pub fn default_shared_port() -> (r: u16)
    ensures
        r == 37428,
{
    37428
}

/// Default port of the Reticulum instance control channel.
pub fn default_control_port() -> (r: u16)
    ensures
        r == 37429,
{
    37429
}

/// Default log level (info).
pub fn default_loglevel() -> (r: u8)
    ensures
        r == 4,
{
    4
}

/// Default port of the local REST API.
pub fn default_api_port() -> (r: u16)
    ensures
        r == 37430,
{
    37430
}

impl Default for ReticulumConfig {
    fn default() -> (r: Self)
        ensures
            !r.enable_transport,
            r.share_instance,
            r.shared_instance_port == 37428,
            r.instance_control_port == 37429,
            !r.panic_on_interface_error,
    {
        ReticulumConfig {
            enable_transport: false,
            share_instance: true,
            shared_instance_port: 37428,
            instance_control_port: 37429,
            panic_on_interface_error: false,
        }
    }
}

impl Default for IrohConfig {
    fn default() -> (r: Self)
        ensures
            r.enabled,
            r.bind_port == 0,
            r.relay_url@ == Seq::<char>::empty(),
    {
        IrohConfig { enabled: true, bind_port: 0, relay_url: String::new() }
    }
}

impl Default for LoggingConfig {
    fn default() -> (r: Self)
        ensures
            r.loglevel == 4,
    {
        LoggingConfig { loglevel: 4 }
    }
}

impl Default for ApiConfig {
    fn default() -> (r: Self)
        ensures
            r.port == 37430,
    {
        ApiConfig { port: 37430 }
    }
}

/// Every section at its default and no interfaces.
pub open spec fn is_default_sections(c: Config) -> bool {
    &&& !c.reticulum.enable_transport
    &&& c.reticulum.share_instance
    &&& c.reticulum.shared_instance_port == 37428
    &&& c.reticulum.instance_control_port == 37429
    &&& !c.reticulum.panic_on_interface_error
    &&& c.iroh.enabled
    &&& c.iroh.bind_port == 0
    &&& c.iroh.relay_url@ == Seq::<char>::empty()
    &&& c.logging.loglevel == 4
    &&& c.api.port == 37430
}

impl Default for Config {
    fn default() -> (r: Self)
        ensures
            is_default_sections(r),
            r.interfaces@.len() == 0,
            distinct_names(r.interfaces@),
    {
        Config {
            reticulum: ReticulumConfig::default(),
            iroh: IrohConfig::default(),
            logging: LoggingConfig::default(),
            api: ApiConfig::default(),
            interfaces: Vec::new(),
        }
    }
}

/// The log filter that a log level selects.
pub open spec fn spec_log_filter(level: u8) -> Seq<char> {
    if level <= 1 {
        "error"@
    } else if level == 2 {
        "warn"@
    } else if level <= 4 {
        "info"@
    } else if level <= 6 {
        "debug"@
    } else {
        "trace"@
    }
}

/// The configuration file inside a configuration directory (paths as the bytes
/// the operating system holds).
pub open spec fn spec_config_file(dir: Seq<u8>) -> Seq<u8> {
    joined(dir, encode_utf8("config.toml"@))
}

/// The directories searched for a configuration, in order, given the user's home.
pub open spec fn spec_search_paths(home: Option<Seq<u8>>) -> Seq<Seq<u8>> {
    match home {
        Some(h) => seq![
            encode_utf8("/etc/aerowan"@),
            joined(h, encode_utf8(".config/aerowan"@)),
            joined(h, encode_utf8(".aerowan"@)),
        ],
        None => seq![encode_utf8("/etc/aerowan"@)],
    }
}

/// The user's home directory, through `dirs::home_dir`, as the bytes of the
/// path (`into_encoded_bytes`, which on Unix are the path's own bytes). It comes
/// from `$HOME` or the password database, so nothing is promised of it but that
/// it is not empty when present.
#[verifier::external_body]
fn home_dir() -> (r: Option<Vec<u8>>)
    ensures
        r matches Some(h) ==> h@.len() > 0,
{
    dirs::home_dir().map(|p| p.into_os_string().into_encoded_bytes())
}

/// Whether no two interfaces share a name: every operation that builds or
/// changes a configuration keeps this, as a map keyed by name would.
pub open spec fn config_well_formed(c: Config) -> bool {
    distinct_names(c.interfaces@)
}

impl Config {
    /// The configuration defaults written on first run: every section at its
    /// default and one disabled TCP server interface on `[::]:4242`.
    pub fn default_config() -> (r: Self)
        ensures
            is_default_sections(r),
            r.interfaces@.len() == 1,
            distinct_names(r.interfaces@),
            r.interfaces@[0].name@ == "Default TCP Server"@,
            r.interfaces@[0].config matches InterfaceConfig::TCPServerInterface {
                interface_enabled,
                bind_host,
                bind_port,
            } && !interface_enabled && bind_host@ == "[::]"@ && bind_port == 4242,
    {
        let mut interfaces: Vec<NamedInterface> = Vec::new();
        interfaces.push(
            NamedInterface {
                name: "Default TCP Server".to_owned(),
                config: InterfaceConfig::TCPServerInterface {
                    interface_enabled: false,
                    bind_host: "[::]".to_owned(),
                    bind_port: 4242,
                },
            },
        );
        Config {
            reticulum: ReticulumConfig::default(),
            iroh: IrohConfig::default(),
            logging: LoggingConfig::default(),
            api: ApiConfig::default(),
            interfaces,
        }
    }

    /// The log filter for the configured log level: 0 or 1 "error", 2 "warn",
    /// 3 or 4 "info", 5 or 6 "debug", above that "trace".
    pub fn log_filter(&self) -> (r: &'static str)
        ensures
            r@ == spec_log_filter(self.logging.loglevel),
    {
        let level = self.logging.loglevel;
        if level <= 1 {
            "error"
        } else if level == 2 {
            "warn"
        } else if level <= 4 {
            "info"
        } else if level <= 6 {
            "debug"
        } else {
            "trace"
        }
    }

    /// The directories searched for a configuration when the home directory is
    /// `home`: `/etc/aerowan`, then `~/.config/aerowan` and `~/.aerowan`.
    pub fn search_paths_from(home: Option<&[u8]>) -> (r: Vec<Vec<u8>>)
        ensures
            r@.map_values(|p: Vec<u8>| p@) == spec_search_paths(
                match home {
                    Some(h) => Some(h@),
                    None => None,
                },
            ),
    {
        proof {
            reveal_strlit(".config/aerowan");
            reveal_strlit(".aerowan");
        }
        let mut paths: Vec<Vec<u8>> = Vec::new();
        paths.push("/etc/aerowan".as_bytes_vec());
        match home {
            Some(h) => {
                paths.push(join_path(h, ".config/aerowan"));
                paths.push(join_path(h, ".aerowan"));
            },
            None => {},
        }
        assert(paths@.map_values(|p: Vec<u8>| p@) =~= spec_search_paths(
            match home {
                Some(h) => Some(h@),
                None => None,
            },
        ));
        paths
    }

    /// The directories searched for a configuration, for the current user's home
    /// directory.
    pub fn search_paths() -> (r: Vec<Vec<u8>>)
        ensures
            exists|home: Option<Seq<u8>>|
                (home matches Some(h) ==> h.len() > 0) && r@.map_values(|p: Vec<u8>| p@) == spec_search_paths(
                    home,
                ),
    {
        let home = home_dir();
        let r = match &home {
            Some(h) => Self::search_paths_from(Some(h.as_slice())),
            None => Self::search_paths_from(None),
        };
        proof {
            let w: Option<Seq<u8>> = match home {
                Some(h) => Some(h@),
                None => None,
            };
            assert(r@.map_values(|p: Vec<u8>| p@) == spec_search_paths(w));
        }
        r
    }

    /// The configuration file inside directory `dir`.
    pub fn config_file(dir: &[u8]) -> (r: Vec<u8>)
        ensures
            r@ == spec_config_file(dir@),
    {
        proof {
            reveal_strlit("config.toml");
        }
        join_path(dir, "config.toml")
    }

    /// The first of `candidates` that holds a configuration file, where
    /// `has_config[i]` tells whether `candidates[i]` does.
    pub fn find_existing(candidates: &Vec<Vec<u8>>, has_config: &Vec<bool>) -> (r: Option<Vec<u8>>)
        requires
            candidates@.len() == has_config@.len(),
        ensures
            match r {
                Some(p) => exists|i: int|
                    0 <= i < has_config@.len() && has_config@[i] && p@ == candidates@[i]@ && forall|
                        j: int,
                    | 0 <= j < i ==> !has_config@[j],
                None => forall|j: int| 0 <= j < has_config@.len() ==> !has_config@[j],
            },
    {
        let mut k: usize = 0;
        while k < candidates.len()
            invariant
                candidates@.len() == has_config@.len(),
                k <= candidates@.len(),
                forall|j: int| 0 <= j < k ==> !has_config@[j],
            decreases candidates.len() - k,
        {
            if has_config[k] {
                let mut p: Vec<u8> = Vec::new();
                extend_bytes(&mut p, candidates[k].as_slice());
                assert(p@ =~= candidates@[k as int]@);
                return Some(p);
            }
            k = k + 1;
        }
        None
    }

    /// The configuration directory created on first run inside home directory `home`.
    pub fn default_path_in(home: &[u8]) -> (r: Vec<u8>)
        ensures
            r@ == joined(home@, encode_utf8(".config/aerowan"@)),
    {
        proof {
            reveal_strlit(".config/aerowan");
        }
        join_path(home, ".config/aerowan")
    }

    /// The configuration directory created on first run, `~/.config/aerowan`, or
    /// `None` when the user has no home directory.
    pub fn default_path() -> (r: Option<Vec<u8>>)
        ensures
            r matches Some(p) ==> exists|h: Seq<u8>|
                h.len() > 0 && p@ == joined(h, encode_utf8(".config/aerowan"@)),
    {
        match home_dir() {
            Some(h) => Some(Self::default_path_in(h.as_slice())),
            None => None,
        }
    }

    /// Adds interface `config` under `name`, as inserting into a map keyed by
    /// name does: an interface already under that name is replaced in place,
    /// otherwise the new one is appended.
    pub fn insert_interface(&mut self, name: String, config: InterfaceConfig)
        requires
            config_well_formed(*old(self)),
        ensures
            config_well_formed(*final(self)),
            final(self).reticulum == old(self).reticulum,
            final(self).iroh == old(self).iroh,
            final(self).logging == old(self).logging,
            final(self).api == old(self).api,
            match spec_index_of(old(self).interfaces@, name@) {
                Some(i) => final(self).interfaces@ == old(self).interfaces@.update(
                    i,
                    NamedInterface { name: old(self).interfaces@[i].name, config },
                ),
                None => final(self).interfaces@ == old(self).interfaces@.push(
                    NamedInterface { name, config },
                ),
            },
    {
        let n = self.interfaces.len();
        let mut k: usize = 0;
        while k < n
            invariant
                *self == *old(self),
                config_well_formed(*self),
                n == self.interfaces@.len(),
                k <= n,
                forall|j: int| 0 <= j < k ==> self.interfaces@[j].name@ != name@,
            decreases n - k,
        {
            if self.interfaces[k].name == name {
                proof {
                    lemma_index_of_first(self.interfaces@, name@, k as int);
                }
                let ghost before = self.interfaces@;
                let old_name = self.interfaces[k].name.clone();
                self.interfaces.set(k, NamedInterface { name: old_name, config });
                assert(distinct_names(self.interfaces@)) by {
                    assert forall|i: int, j: int| 0 <= i < j < self.interfaces@.len() implies (
                    #[trigger] self.interfaces@[i]).name@ != (#[trigger] self.interfaces@[j]).name@ by {
                        assert(before[i].name@ != before[j].name@);
                    }
                }
                return;
            }
            k = k + 1;
        }
        proof {
            lemma_index_of_none(self.interfaces@, name@);
        }
        let ghost before = self.interfaces@;
        let ghost nm = name@;
        self.interfaces.push(NamedInterface { name, config });
        assert(distinct_names(self.interfaces@)) by {
            assert forall|i: int, j: int| 0 <= i < j < self.interfaces@.len() implies (
            #[trigger] self.interfaces@[i]).name@ != (#[trigger] self.interfaces@[j]).name@ by {
                if j < before.len() {
                    assert(before[i].name@ != before[j].name@);
                } else {
                    assert(self.interfaces@[j].name@ == nm);
                    assert(before[i].name@ != nm);
                }
            }
        }
    }
}

/// The position of the interface named `name`, if any.
pub open spec fn spec_index_of(ifaces: Seq<NamedInterface>, name: Seq<char>) -> Option<int> {
    if exists|i: int| 0 <= i < ifaces.len() && ifaces[i].name@ == name {
        Some(choose|i: int| 0 <= i < ifaces.len() && ifaces[i].name@ == name)
    } else {
        None
    }
}

proof fn lemma_index_of_first(ifaces: Seq<NamedInterface>, name: Seq<char>, k: int)
    requires
        0 <= k < ifaces.len(),
        ifaces[k].name@ == name,
        forall|j: int| 0 <= j < k ==> ifaces[j].name@ != name,
        distinct_names(ifaces),
    ensures
        spec_index_of(ifaces, name) == Some(k),
{
    let c = choose|i: int| 0 <= i < ifaces.len() && ifaces[i].name@ == name;
    if c != k {
        if c < k {
            assert(ifaces[c].name@ != ifaces[k].name@);
        } else {
            assert(ifaces[k].name@ != ifaces[c].name@);
        }
    }
}

proof fn lemma_index_of_none(ifaces: Seq<NamedInterface>, name: Seq<char>)
    requires
        forall|j: int| 0 <= j < ifaces.len() ==> ifaces[j].name@ != name,
    ensures
        spec_index_of(ifaces, name) is None,
{
}

} // verus!
