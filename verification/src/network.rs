//! The connection type, told from the names of the network interfaces.

use vstd::prelude::*;
use crate::volatile::Connection;

verus! {

/// `sysinfo::Networks`, the list of network interfaces, taken as opaque.
#[verifier::external_type_specification]
#[verifier::external_body]
pub struct ExNetworks(sysinfo::Networks);

/// `sysinfo::NetworkData`, what the list holds for each interface, taken
/// as opaque; nothing here looks into it.
#[verifier::external_type_specification]
#[verifier::external_body]
pub struct ExNetworkData(sysinfo::NetworkData);

/// The names of the interfaces that a `sysinfo::Networks` lists.
pub uninterp spec fn interface_names(networks: sysinfo::Networks) -> Set<Seq<char>>;

/// The name of the wireless interface.
pub open spec fn wifi_interface() -> Seq<char> {
    "wlp1s0"@
}

/// The views of a list of names, in order.
pub open spec fn name_views(names: Seq<String>) -> Seq<Seq<char>> {
    Seq::new(names.len(), |i: int| names[i]@)
}

/// The connection type told from a list of interface names: none with at
/// most one interface (the loopback alone), wireless where the wireless
/// interface is among them, wired otherwise.
pub open spec fn connection_among(names: Seq<Seq<char>>) -> Connection {
    if names.len() <= 1 {
        Connection::Offline
    } else if names.contains(wifi_interface()) {
        Connection::Wifi
    } else {
        Connection::Wired
    }
}

/// The connection type told from a set of interface names.
pub open spec fn connection_of(names: Set<Seq<char>>) -> Connection {
    if names.len() <= 1 {
        Connection::Offline
    } else if names.contains(wifi_interface()) {
        Connection::Wifi
    } else {
        Connection::Wired
    }
}

/// Walks the interface map of `sysinfo::Networks` (its `Deref` target, a
/// `HashMap` keyed by interface name) and hands out a copy of each key.
///
/// Trusted: the list holds each interface name, and nothing else; it is as
/// long as the map has entries, since a map holds a key once. The order of
/// the list is that of the walk and is left open.
#[verifier::external_body]
fn list_interfaces(networks: &sysinfo::Networks) -> (names: Vec<String>)
    ensures
        names@.len() == interface_names(*networks).len(),
        name_views(names@).to_set() == interface_names(*networks),
{
    networks.keys().cloned().collect()
}

/// Returns the connection type for a list of interface names.
pub fn classify_interfaces(names: &Vec<String>) -> (connection: Connection)
    ensures
        connection == connection_among(name_views(names@)),
{
    if names.len() <= 1 {
        return Connection::Offline;
    }
    let wifi = String::from_str("wlp1s0");
    let ghost views = name_views(names@);
    let mut i: usize = 0;
    while i < names.len()
        invariant
            1 < names.len(),
            i <= names.len(),
            wifi@ == wifi_interface(),
            views == name_views(names@),
            forall|j: int| 0 <= j < i ==> views[j] != wifi_interface(),
        decreases names.len() - i,
    {
        if names[i] == wifi {
            assert(views[i as int] == wifi_interface());
            assert(views.contains(wifi_interface()));
            return Connection::Wifi;
        }
        i += 1;
    }
    Connection::Wired
}

/// Returns the connection type of the listed interfaces.
pub fn get_connection(networks: &sysinfo::Networks) -> (connection: Connection)
    ensures
        connection == connection_of(interface_names(*networks)),
{
    let names = list_interfaces(networks);
    classify_interfaces(&names)
}

} // verus!
