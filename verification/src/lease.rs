//! The address assignment of a connected station, and the handle made of it.

use vstd::prelude::*;

verus! {

/// An IPv4 address, by its four octets in the order written.
#[derive(Clone, Copy, Debug, PartialEq, Eq, Structural)]
pub struct Ipv4Address(pub u8, pub u8, pub u8, pub u8);

/// What the network's address-assignment service gave the station.
#[derive(Clone, Copy, Debug, PartialEq, Eq, Structural)]
pub struct IpLease {
    /// The station's own address.
    pub address: Ipv4Address,
    /// The subnet, as the number of leading one bits of its mask.
    pub subnet_prefix: u8,
    /// The gateway of the subnet.
    pub gateway: Ipv4Address,
}

/// The interface that a successful bring-up leaves behind. It is a snapshot:
/// nothing changes it once it is made.
#[derive(Clone, Copy, Debug)]
pub struct NetworkHandle {
    lease: IpLease,
}

impl NetworkHandle {
    /// The lease that the interface runs on.
    pub closed spec fn lease(&self) -> IpLease {
        self.lease
    }

    pub(crate) fn new(lease: IpLease) -> (handle: NetworkHandle)
        ensures
            handle.lease() == lease,
    {
        NetworkHandle { lease }
    }

    /// The address assigned to the station.
    pub fn address(&self) -> (address: Ipv4Address)
        ensures
            address == self.lease().address,
    {
        self.lease.address
    }

    /// The subnet, as the number of leading one bits of its mask.
    pub fn subnet_prefix(&self) -> (prefix: u8)
        ensures
            prefix == self.lease().subnet_prefix,
    {
        self.lease.subnet_prefix
    }

    /// The gateway that was probed before the handle was made.
    pub fn gateway(&self) -> (gateway: Ipv4Address)
        ensures
            gateway == self.lease().gateway,
    {
        self.lease.gateway
    }
}

} // verus!
