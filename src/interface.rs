//! Choosing the local interface through which a device is reached.

use vstd::prelude::*;

use ipnetwork::Ipv4Network;

verus! {

/// The address of a local network interface; IPv4 addresses and masks are
/// written as `u32` in network order (the first octet highest).
#[derive(Clone, Copy, Debug, PartialEq, Eq, Structural)]
pub enum InterfaceAddr {
    V4 { ip: u32, netmask: u32 },
    V6,
}

/// Whether `mask` is a network mask: some leading ones, then only zeros.
pub open spec fn is_netmask(mask: u32) -> bool {
    let low = (!mask) as u64;
    low & ((low + 1) as u64) == 0
}

/// Whether `target` lies in the network of `ip` under `mask`.
pub open spec fn in_subnet(ip: u32, mask: u32, target: u32) -> bool {
    target & mask == ip & mask
}

/// Whether the network of interface address `a` holds `target`.
pub open spec fn reaches(a: InterfaceAddr, target: u32) -> bool {
    match a {
        InterfaceAddr::V4 { ip, netmask } => is_netmask(netmask) && in_subnet(ip, netmask, target),
        InterfaceAddr::V6 => false,
    }
}

pub open spec fn ip_of(a: InterfaceAddr) -> u32 {
    match a {
        InterfaceAddr::V4 { ip, .. } => ip,
        InterfaceAddr::V6 => 0,
    }
}

/// Relies on ipnetwork's `Ipv4Network::with_netmask`, which builds a network
/// exactly for masks of leading ones, and on `Ipv4Network::contains`, which
/// then compares `target` and `ip` on the bits of the mask.
#[verifier::external_body]
fn subnet_contains(ip: u32, netmask: u32, target: u32) -> (r: Option<bool>)
    ensures
        r is Some <==> is_netmask(netmask),
        r matches Some(b) ==> b == in_subnet(ip, netmask, target),
{
    match Ipv4Network::with_netmask(ip.into(), netmask.into()) {
        Ok(net) => Some(net.contains(target.into())),
        Err(_) => None,
    }
}

/// The local IPv4 address of the first interface whose network holds `addr`.
pub fn get_matching_interface(addr: u32, interfaces: &Vec<InterfaceAddr>) -> (r: Option<u32>)
    ensures
        r is None ==> forall|i: int| 0 <= i < interfaces@.len() ==> !reaches(#[trigger] interfaces@[i], addr),
        r matches Some(ip) ==> exists|i: int|
            0 <= i < interfaces@.len() && reaches(#[trigger] interfaces@[i], addr) && ip_of(interfaces@[i]) == ip
                && forall|j: int| 0 <= j < i ==> !reaches(#[trigger] interfaces@[j], addr),
{
    let mut i: usize = 0;
    while i < interfaces.len()
        invariant
            0 <= i <= interfaces@.len(),
            forall|j: int| 0 <= j < i ==> !reaches(#[trigger] interfaces@[j], addr),
        decreases interfaces@.len() - i,
    {
        match interfaces[i] {
            InterfaceAddr::V4 { ip, netmask } => {
                if let Some(true) = subnet_contains(ip, netmask, addr) {
                    assert(reaches(interfaces@[i as int], addr));
                    return Some(ip);
                }
            },
            InterfaceAddr::V6 => {},
        }
        i += 1;
    }
    None
}

} // verus!
