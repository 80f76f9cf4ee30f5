//! Network addresses as plain values.
use vstd::prelude::*;

verus! {

/// An IP address, held as its octets.
#[derive(Clone, Copy, Debug, PartialEq, Eq)]
pub enum IpAddr {
    V4([u8; 4]),
    V6([u8; 16]),
}

/// An IP address and a port, with what else an address of version 6 can hold.
#[derive(Clone, Copy, Debug, PartialEq, Eq)]
pub struct SocketAddr {
    pub ip: IpAddr,
    pub port: u16,
    /// The flow information; zero for version 4.
    pub flowinfo: u32,
    /// The scope in which the address holds; zero for version 4.
    pub scope_id: u32,
}

impl IpAddr {
    /// The octets of the address, in network order: four or sixteen of them.
    pub open spec fn octets(self) -> Seq<u8> {
        match self {
            IpAddr::V4(octets) => octets@,
            IpAddr::V6(octets) => octets@,
        }
    }

    /// Whether both addresses are of the same version of the protocol.
    pub open spec fn same_family(self, other: IpAddr) -> bool {
        self is V4 <==> other is V4
    }
}

impl SocketAddr {
    /// The address of a host and a port on it, without flow information and scope.
    pub fn new(ip: IpAddr, port: u16) -> (r: SocketAddr)
        ensures
            r.ip == ip,
            r.port == port,
            r.flowinfo == 0,
            r.scope_id == 0,
    {
        SocketAddr { ip, port, flowinfo: 0, scope_id: 0 }
    }
}

/// An address of version 4 has four octets and one of version 6 sixteen, each in its place, and the
/// two are not of one family.
pub proof fn lemma_octets(v4: [u8; 4], v6: [u8; 16])
    ensures
        IpAddr::V4(v4).octets() == v4@ && IpAddr::V4(v4).octets().len() == 4,
        IpAddr::V6(v6).octets() == v6@ && IpAddr::V6(v6).octets().len() == 16,
        !IpAddr::V4(v4).same_family(IpAddr::V6(v6)),
{
}

} // verus!
