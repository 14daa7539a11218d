//! The configuration of a stack.

use crate::internet::ip::IPv4Addr;
use crate::internet::InternetProtocol;
use crate::link::MacAddress;
use crate::transport::TransportProtocol;
use vstd::prelude::*;

verus! {

/// What a stack is configured with. It does not change while the stack runs.
#[derive(Clone, Debug, PartialEq, Eq)]
pub struct PeachPSOption {
    /// The hardware address of the device, used as the source of every frame.
    pub dev_addr: MacAddress,
    /// The IPv4 address of this host.
    pub ip_addr: IPv4Addr,
    /// The network mask, from which the directed broadcast address follows.
    pub network_mask: IPv4Addr,
    /// Whether failures are reported.
    pub debug: bool,
    /// The internet protocols that are handled; frames of others are dropped.
    pub internet_filter: Vec<InternetProtocol>,
    /// The transport protocols that are handled; packets of others are dropped.
    pub transport_filter: Vec<TransportProtocol>,
}

impl PeachPSOption {
    /// Whether frames of internet protocol `p` are handled.
    pub open spec fn spec_allows_internet(&self, p: InternetProtocol) -> bool {
        self.internet_filter@.contains(p)
    }

    /// Whether packets of transport protocol `p` are handled.
    pub open spec fn spec_allows_transport(&self, p: TransportProtocol) -> bool {
        self.transport_filter@.contains(p)
    }

    /// Whether frames of internet protocol `p` are handled.
    #[verifier::when_used_as_spec(spec_allows_internet)]
    pub fn allows_internet(&self, p: InternetProtocol) -> (b: bool)
        ensures
            b == self.spec_allows_internet(p),
    {
        let mut i: usize = 0;
        while i < self.internet_filter.len()
            invariant
                i <= self.internet_filter@.len(),
                forall|j: int| 0 <= j < i ==> self.internet_filter@[j] != p,
            decreases self.internet_filter@.len() - i,
        {
            if self.internet_filter[i] == p {
                return true;
            }
            i += 1;
        }
        false
    }

    /// Whether packets of transport protocol `p` are handled.
    #[verifier::when_used_as_spec(spec_allows_transport)]
    pub fn allows_transport(&self, p: TransportProtocol) -> (b: bool)
        ensures
            b == self.spec_allows_transport(p),
    {
        let mut i: usize = 0;
        while i < self.transport_filter.len()
            invariant
                i <= self.transport_filter@.len(),
                forall|j: int| 0 <= j < i ==> self.transport_filter@[j] != p,
            decreases self.transport_filter@.len() - i,
        {
            if self.transport_filter[i] == p {
                return true;
            }
            i += 1;
        }
        false
    }
}

impl Default for PeachPSOption {
    fn default() -> (r: Self)
        ensures
            r.dev_addr == MacAddress::spec_zero(),
            r.ip_addr == IPv4Addr::spec_any(),
            r.network_mask == IPv4Addr::spec_any(),
            !r.debug,
            r.internet_filter@ == Seq::<InternetProtocol>::empty(),
            r.transport_filter@ == Seq::<TransportProtocol>::empty(),
    {
        Self {
            dev_addr: MacAddress::zero(),
            ip_addr: IPv4Addr::any(),
            network_mask: IPv4Addr::any(),
            debug: false,
            internet_filter: Vec::new(),
            transport_filter: Vec::new(),
        }
    }
}

} // verus!
