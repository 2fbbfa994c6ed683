//! Detection and classification of the host's network adapters.

use vstd::prelude::*;
use crate::text::{chars_of, starts_with};
use network_interface::NetworkInterfaceConfig;

verus! {

broadcast use vstd::string::group_string_axioms;

/// The kinds of physical link a node can use.
#[derive(PartialEq, Eq, Clone, Copy, Debug)]
pub enum Interface {
    Wifi,
    Ethernet,
    Bluetooth,
    LoRa,
    Serial,
}

/// The transports a node runs.
#[derive(PartialEq, Eq, Clone, Copy, Debug)]
pub enum Protocol {
    Iroh,
    Reticulum,
}

/// A detected network adapter.
pub struct NetworkIF {
    pub interface: Interface,
    pub name: String,
    pub power: bool,
}

/// Failure to list the host's adapters, with the operating system's message.
pub struct DetectionError {
    pub message: String,
}

/// What std's `str::to_lowercase` returns for a string (Unicode lowercase mapping).
pub uninterp spec fn lowercase(s: Seq<char>) -> Seq<char>;

/// Lowercases through std's `str::to_lowercase`, which depends on its argument alone.
#[verifier::external_body]
fn to_lowercase(s: &str) -> (r: String)
    ensures
        r@ == lowercase(s@),
{
    s.to_lowercase()
}

/// Whether `pat` occurs somewhere in `s`.
pub open spec fn occurs_in(pat: Seq<char>, s: Seq<char>) -> bool {
    exists|i: int| 0 <= i <= s.len() - pat.len() && #[trigger] s.subrange(i, i + pat.len()) == pat
}

/// Whether the non-empty `pat` occurs in `s`, as std's `str::contains` with a string pattern.
pub fn contains(s: &str, pat: &str) -> (b: bool)
    ensures
        b == occurs_in(pat@, s@),
{
    let sv = chars_of(s);
    let pv = chars_of(pat);
    let n = sv.len();
    let p = pv.len();
    if p > n {
        return false;
    }
    let mut i: usize = 0;
    loop
        invariant
            sv@ == s@,
            pv@ == pat@,
            n == sv@.len(),
            p == pv@.len(),
            p <= n,
            i <= n - p,
            forall|j: int| 0 <= j < i ==> #[trigger] sv@.subrange(j, j + p) != pv@,
        decreases n - p - i,
    {
        let mut k: usize = 0;
        let mut same = true;
        while k < p && same
            invariant
                n == sv@.len(),
                p == pv@.len(),
                i + p <= n,
                k <= p,
                same ==> forall|m: int| 0 <= m < k ==> sv@[i + m] == pv@[m],
                !same ==> sv@.subrange(i as int, i + p) != pv@,
            decreases (p - k) as int + if same { 1int } else { 0int },
        {
            if sv[i + k] != pv[k] {
                same = false;
                assert(sv@.subrange(i as int, i + p)[k as int] == sv@[i + k]);
            } else {
                k = k + 1;
            }
        }
        if same {
            assert(sv@.subrange(i as int, i + p) =~= pv@);
            return true;
        }
        if i == n - p {
            return false;
        }
        i = i + 1;
    }
}

/// Class of an adapter from its lowercase name, by the usual Linux and macOS
/// naming conventions; names that fit none count as Ethernet.
pub open spec fn spec_classify(n: Seq<char>) -> Interface {
    if "wlan"@.is_prefix_of(n) || "wlp"@.is_prefix_of(n) || "wi"@.is_prefix_of(n)
        || "en0"@.is_prefix_of(n) {
        Interface::Wifi
    } else if "eth"@.is_prefix_of(n) || "enp"@.is_prefix_of(n) || "eno"@.is_prefix_of(n)
        || "en1"@.is_prefix_of(n) {
        Interface::Ethernet
    } else if "tty"@.is_prefix_of(n) || "serial"@.is_prefix_of(n) || "cu."@.is_prefix_of(n)
        || "ttyusb"@.is_prefix_of(n) {
        Interface::Serial
    } else if occurs_in("bt"@, n) || occurs_in("bluetooth"@, n) {
        Interface::Bluetooth
    } else {
        Interface::Ethernet
    }
}

/// Classifies an already lowercased adapter name.
pub fn classify_lowercase(n: &str) -> (r: Interface)
    ensures
        r == spec_classify(n@),
{
    if starts_with(n, "wlan") || starts_with(n, "wlp") || starts_with(n, "wi") || starts_with(
        n,
        "en0",
    ) {
        Interface::Wifi
    } else if starts_with(n, "eth") || starts_with(n, "enp") || starts_with(n, "eno")
        || starts_with(n, "en1") {
        Interface::Ethernet
    } else if starts_with(n, "tty") || starts_with(n, "serial") || starts_with(n, "cu.")
        || starts_with(n, "ttyusb") {
        Interface::Serial
    } else if contains(n, "bt") || contains(n, "bluetooth") {
        Interface::Bluetooth
    } else {
        Interface::Ethernet
    }
}

/// Classifies an adapter by its name, compared in lowercase.
pub fn classify_interface(name: &str) -> (r: Interface)
    ensures
        r == spec_classify(lowercase(name@)),
{
    let lower = to_lowercase(name);
    classify_lowercase(lower.as_str())
}

/// What an adapter of a given name becomes: skipped when it is a loopback (its
/// name begins with `lo`), else classified and taken as powered up.
pub open spec fn spec_adapter(name: Seq<char>) -> Option<(Interface, Seq<char>, bool)> {
    if "lo"@.is_prefix_of(name) {
        None
    } else {
        Some((spec_classify(lowercase(name)), name, true))
    }
}

/// The adapters kept from a list of names, in order.
pub open spec fn spec_adapters(names: Seq<Seq<char>>) -> Seq<(Interface, Seq<char>, bool)>
    decreases names.len(),
{
    if names.len() == 0 {
        Seq::empty()
    } else {
        match spec_adapter(names.last()) {
            Some(a) => spec_adapters(names.drop_last()).push(a),
            None => spec_adapters(names.drop_last()),
        }
    }
}

/// An adapter as plain values.
pub open spec fn adapter_view(i: NetworkIF) -> (Interface, Seq<char>, bool) {
    (i.interface, i.name@, i.power)
}

/// The adapters made from the names the operating system reported.
pub fn interfaces_from_names(names: Vec<String>) -> (r: Vec<NetworkIF>)
    ensures
        r@.map_values(|i: NetworkIF| adapter_view(i)) == spec_adapters(names.deep_view()),
{
    let mut out: Vec<NetworkIF> = Vec::new();
    let n = names.len();
    let mut k: usize = 0;
    while k < n
        invariant
            n == names@.len(),
            k <= n,
            out@.map_values(|i: NetworkIF| adapter_view(i)) == spec_adapters(
                names.deep_view().take(k as int),
            ),
        decreases n - k,
    {
        let ghost before = out@;
        let name = &names[k];
        assert(names.deep_view().take(k + 1).drop_last() =~= names.deep_view().take(k as int));
        assert(names.deep_view().take(k + 1).last() == name@);
        if !starts_with(name.as_str(), "lo") {
            let kind = classify_interface(name.as_str());
            let adapter = NetworkIF { interface: kind, name: name.clone(), power: true };
            let ghost av = adapter_view(adapter);
            out.push(adapter);
            assert(out@.map_values(|i: NetworkIF| adapter_view(i)) =~= before.map_values(
                |i: NetworkIF| adapter_view(i),
            ).push(av));
        }
        k = k + 1;
    }
    assert(names.deep_view().take(n as int) =~= names.deep_view());
    out
}

#[verifier::external_type_specification]
#[verifier::external_body]
pub struct ExNetworkInterfaceError(network_interface::Error);

/// Names of the host's network adapters, through `NetworkInterface::show` of the
/// `network_interface` crate. The list reflects the machine's state at the time
/// of the call, so nothing is promised of it.
#[verifier::external_body]
fn adapter_names() -> (r: Result<Vec<String>, network_interface::Error>) {
    network_interface::NetworkInterface::show().map(|v| v.into_iter().map(|i| i.name).collect())
}

/// The message of a `network_interface` error, through its `Display` impl.
#[verifier::external_body]
fn adapter_error_text(e: &network_interface::Error) -> (r: String) {
    e.to_string()
}

/// Lists the host's adapters, skipping loopbacks and classifying the others by name.
pub fn detect_interfaces() -> (r: Result<Vec<NetworkIF>, DetectionError>)
    ensures
        r matches Ok(v) ==> exists|names: Seq<Seq<char>>|
            v@.map_values(|i: NetworkIF| adapter_view(i)) == spec_adapters(names),
{
    match adapter_names() {
        Ok(names) => {
            let ghost nv = names.deep_view();
            let v = interfaces_from_names(names);
            assert(v@.map_values(|i: NetworkIF| adapter_view(i)) == spec_adapters(nv));
            Ok(v)
        },
        Err(e) => Err(DetectionError { message: adapter_error_text(&e) }),
    }
}

} // verus!
