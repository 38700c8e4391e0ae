//! The server's IPv4 address pool: a subnet with the network, broadcast and
//! server addresses permanently reserved, handing out host addresses by a
//! deterministic linear scan.

use std::collections::HashMap;
use vstd::prelude::*;

verus! {

broadcast use vstd::std_specs::hash::group_hash_axioms;

/// An allocator over the host addresses of one IPv4 subnet.
pub struct IpPool {
    network: u32,
    mask: u32,
    server_ip: u32,
    allocated: HashMap<u32, ()>,
}

impl IpPool {
    /// The subnet's network address.
    pub closed spec fn spec_network(self) -> u32 {
        self.network
    }

    /// The subnet mask.
    pub closed spec fn spec_mask(self) -> u32 {
        self.mask
    }

    /// The server's own address inside the subnet.
    pub closed spec fn spec_server_ip(self) -> u32 {
        self.server_ip
    }

    /// The set of addresses currently reserved or handed out.
    pub closed spec fn allocated(self) -> Set<u32> {
        self.allocated@.dom()
    }

    /// The subnet's broadcast address.
    pub open spec fn broadcast_addr(self) -> u32 {
        self.spec_network() | !self.spec_mask()
    }

    /// Structural well-formedness: the network address is the server
    /// address under the mask.
    pub open spec fn wf(self) -> bool {
        self.spec_network() == self.spec_server_ip() & self.spec_mask()
    }

    /// The three permanently reserved addresses are marked allocated.
    pub open spec fn reserved_held(self) -> bool {
        &&& self.allocated().contains(self.spec_network())
        &&& self.allocated().contains(self.broadcast_addr())
        &&& self.allocated().contains(self.spec_server_ip())
    }

    /// `ip` lies strictly above the network address and no higher than the
    /// broadcast address.
    pub open spec fn in_host_range(self, ip: u32) -> bool {
        self.spec_network() < ip <= self.spec_network() + !self.spec_mask()
    }

    /// The first unallocated candidate at or after scan position `i`
    /// (candidate `i` is `network + i`; positions run from 1 to `!mask`).
    pub open spec fn first_free_from(self, i: int) -> Option<u32>
        decreases !self.spec_mask() + 1 - i,
    {
        if 1 <= i <= !self.spec_mask() {
            if !self.allocated().contains((self.spec_network() + i) as u32) {
                Some((self.spec_network() + i) as u32)
            } else {
                self.first_free_from(i + 1)
            }
        } else {
            None
        }
    }

    /// The address the next allocation returns, if any.
    pub open spec fn spec_first_free(self) -> Option<u32> {
        self.first_free_from(1)
    }

    /// How one call of `allocate` relates the pool before (`pre`) and after
    /// (`post`): the configuration is unchanged, a returned address is the
    /// first free candidate and becomes allocated, and `None` leaves the
    /// pool as it was.
    pub open spec fn alloc_step(pre: IpPool, post: IpPool, r: Option<u32>) -> bool {
        &&& post.spec_network() == pre.spec_network()
        &&& post.spec_mask() == pre.spec_mask()
        &&& post.spec_server_ip() == pre.spec_server_ip()
        &&& r == pre.spec_first_free()
        &&& match r {
            Some(ip) => post.allocated() == pre.allocated().insert(ip),
            None => post.allocated() == pre.allocated(),
        }
    }

    /// Builds a pool over the subnet of `ip` under `mask`, with the
    /// network, broadcast and server addresses reserved from the start.
    pub fn new(ip: u32, mask: u32) -> (p: IpPool)
        ensures
            p.wf(),
            p.spec_network() == ip & mask,
            p.spec_mask() == mask,
            p.spec_server_ip() == ip,
            p.allocated() == Set::empty().insert(ip).insert(ip & mask).insert(
                (ip & mask) | !mask,
            ),
    {
        let network: u32 = ip & mask;
        let mut allocated: HashMap<u32, ()> = HashMap::new();
        allocated.insert(ip, ());
        allocated.insert(network, ());
        allocated.insert(network | !mask, ());
        let p = IpPool { network, mask, server_ip: ip, allocated };
        proof {
            assert(p.allocated() =~= Set::empty().insert(ip).insert(ip & mask).insert(
                (ip & mask) | !mask,
            ));
        }
        p
    }

    /// Hands out the lowest free host address, scanning from just above the
    /// network address, or `None` when every candidate is taken.
    pub fn allocate(&mut self) -> (r: Option<u32>)
        requires
            old(self).wf(),
        ensures
            final(self).wf(),
            IpPool::alloc_step(*old(self), *final(self), r),
    {
        let hostmax: u32 = !self.mask;
        proof {
            let s = self.spec_server_ip();
            let m = self.spec_mask();
            let n = self.spec_network();
            let h = hostmax;
            assert((s & m) & !m == 0u32) by (bit_vector);
            assert(n & h == 0 ==> n <= !h) by (bit_vector);
            assert(!h == 0xffff_ffffu32 - h) by (bit_vector);
        }
        let mut i: u64 = 1;
        while i <= hostmax as u64
            invariant
                *self == *old(self),
                self.wf(),
                hostmax == !self.spec_mask(),
                self.spec_network() + hostmax <= u32::MAX,
                1 <= i <= hostmax as u64 + 1,
                self.spec_first_free() == self.first_free_from(i as int),
            decreases hostmax as u64 + 1 - i,
        {
            let candidate: u32 = self.network + (i as u32);
            if !self.allocated.contains_key(&candidate) {
                self.allocated.insert(candidate, ());
                proof {
                    assert(self.allocated() =~= old(self).allocated().insert(candidate));
                }
                return Some(candidate);
            }
            i = i + 1;
        }
        None
    }

    /// Returns `ip` to the pool, unless it is the server's own address,
    /// which stays reserved.
    pub fn release(&mut self, ip: u32)
        ensures
            final(self).spec_network() == old(self).spec_network(),
            final(self).spec_mask() == old(self).spec_mask(),
            final(self).spec_server_ip() == old(self).spec_server_ip(),
            ip == old(self).spec_server_ip() ==> final(self).allocated() == old(self).allocated(),
            ip != old(self).spec_server_ip() ==> final(self).allocated() == old(
                self,
            ).allocated().remove(ip),
            old(self).wf() ==> final(self).wf(),
    {
        if ip != self.server_ip {
            self.allocated.remove(&ip);
            proof {
                assert(self.allocated() =~= old(self).allocated().remove(ip));
            }
        } else {
            proof {
                assert(self.allocated() =~= old(self).allocated());
            }
        }
    }

    /// Every address the scan can return is a free host address, and every
    /// candidate below it is taken.
    pub proof fn lemma_first_free_props(self, i: int)
        requires
            self.wf(),
            self.first_free_from(i) is Some,
        ensures
            ({
                let ip = self.first_free_from(i)->Some_0;
                &&& i <= ip - self.spec_network() <= !self.spec_mask()
                &&& self.in_host_range(ip)
                &&& !self.allocated().contains(ip)
                &&& forall|j: int|
                    i <= j < ip - self.spec_network() ==> self.allocated().contains(
                        #[trigger] ((self.spec_network() + j) as u32),
                    )
            }),
        decreases !self.spec_mask() + 1 - i,
    {
        let n = self.spec_network();
        let m = self.spec_mask();
        let s = self.spec_server_ip();
        assert((s & m) & !m == 0u32) by (bit_vector);
        assert(n & !m == 0 ==> n + !m == (n | !m)) by (bit_vector);
        if 1 <= i <= !self.spec_mask() {
            if !self.allocated().contains((self.spec_network() + i) as u32) {
            } else {
                self.lemma_first_free_props(i + 1);
            }
        }
    }

    /// A full scan returns `None` exactly when every host candidate is
    /// allocated.
    pub proof fn lemma_first_free_none(self, i: int)
        requires
            self.first_free_from(i) is None,
            i >= 1,
        ensures
            forall|j: int|
                i <= j <= !self.spec_mask() ==> self.allocated().contains(
                    #[trigger] ((self.spec_network() + j) as u32),
                ),
        decreases !self.spec_mask() + 1 - i,
    {
        if 1 <= i <= !self.spec_mask() {
            self.lemma_first_free_none(i + 1);
        }
    }

    /// An allocated address lies strictly between the network and the
    /// broadcast address, and was not allocated before the call.
    pub proof fn lemma_allocate_in_host_range(pre: IpPool, post: IpPool, ip: u32)
        requires
            pre.wf(),
            pre.reserved_held(),
            IpPool::alloc_step(pre, post, Some(ip)),
        ensures
            pre.spec_network() < ip < pre.broadcast_addr(),
            !pre.allocated().contains(ip),
            post.allocated().contains(ip),
            post.reserved_held(),
    {
        pre.lemma_first_free_props(1);
        let n = pre.spec_network();
        let m = pre.spec_mask();
        let s = pre.spec_server_ip();
        assert(n & !m == 0 ==> n + !m == (n | !m)) by (bit_vector);
        assert((s & m) & !m == 0u32) by (bit_vector);
    }

    /// Allocation never forgets: the allocated set only grows, so an
    /// address handed out once is never handed out again until released.
    pub proof fn lemma_alloc_monotonic(pre: IpPool, post: IpPool, r: Option<u32>)
        requires
            IpPool::alloc_step(pre, post, r),
        ensures
            pre.allocated().subset_of(post.allocated()),
            r matches Some(ip) ==> post.allocated().contains(ip),
    {
    }

    /// Two successive successful allocations return distinct addresses.
    pub proof fn lemma_allocations_distinct(
        p0: IpPool,
        p1: IpPool,
        p2: IpPool,
        ip1: u32,
        ip2: u32,
    )
        requires
            p0.wf(),
            IpPool::alloc_step(p0, p1, Some(ip1)),
            IpPool::alloc_step(p1, p2, Some(ip2)),
        ensures
            ip1 != ip2,
    {
        p1.lemma_first_free_props(1);
    }
}

} // verus!
