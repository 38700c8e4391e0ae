//! The server's client registry: a bidirectional mapping between assigned
//! tunnel IPs and the remote UDP endpoints they were assigned to, backed by
//! the subnet pool.

use std::collections::HashMap;
use vstd::prelude::*;
use crate::addr::{lemma_endpoint_key_injective, spec_endpoint_key, endpoint_key, Endpoint};
use crate::pool::IpPool;

verus! {

broadcast use vstd::std_specs::hash::group_hash_axioms;

/// Assigns tunnel IPs to remote endpoints and answers lookups in both
/// directions.  Both directions and the pool sit behind one owner, so all
/// mutations are serial.
pub struct ClientManager {
    by_ip: HashMap<u32, Endpoint>,
    by_addr: HashMap<u64, u32>,
    pool: IpPool,
}

impl ClientManager {
    /// The forward direction: assigned tunnel IP to remote endpoint.
    pub closed spec fn ips(self) -> Map<u32, Endpoint> {
        self.by_ip@
    }

    /// The reverse direction: packed remote endpoint to tunnel IP.
    pub closed spec fn addrs(self) -> Map<u64, u32> {
        self.by_addr@
    }

    /// The address pool the registry allocates from.
    pub closed spec fn spec_pool(self) -> IpPool {
        self.pool
    }

    /// The two maps are mutual inverses, and every assigned IP is marked
    /// allocated in the pool.
    pub open spec fn wf(self) -> bool {
        &&& self.spec_pool().wf()
        &&& forall|k: u64| #[trigger]
            self.addrs().contains_key(k) ==> self.ips().contains_key(self.addrs()[k])
                && spec_endpoint_key(self.ips()[self.addrs()[k]]) == k
        &&& forall|ip: u32| #[trigger]
            self.ips().contains_key(ip) ==> self.addrs().contains_key(
                spec_endpoint_key(self.ips()[ip]),
            ) && self.addrs()[spec_endpoint_key(self.ips()[ip])] == ip
        &&& forall|ip: u32| #[trigger]
            self.ips().contains_key(ip) ==> self.spec_pool().allocated().contains(ip)
    }

    /// The IP a registration of `e` returns: the already assigned one where
    /// `e` is known, otherwise whatever the pool hands out next.
    pub open spec fn spec_register_result(self, e: Endpoint) -> Option<u32> {
        if self.addrs().contains_key(spec_endpoint_key(e)) {
            Some(self.addrs()[spec_endpoint_key(e)])
        } else {
            self.spec_pool().spec_first_free()
        }
    }

    /// How one call of `register` relates the registry before (`pre`) and
    /// after (`post`): a known endpoint changes nothing; a fresh endpoint
    /// takes the pool's next address and extends both directions; an
    /// exhausted pool changes nothing.
    pub open spec fn register_step(pre: ClientManager, post: ClientManager, e: Endpoint) -> bool {
        let k = spec_endpoint_key(e);
        if pre.addrs().contains_key(k) {
            &&& post.ips() == pre.ips()
            &&& post.addrs() == pre.addrs()
            &&& post.spec_pool() == pre.spec_pool()
        } else {
            match pre.spec_pool().spec_first_free() {
                Some(ip) => {
                    &&& IpPool::alloc_step(pre.spec_pool(), post.spec_pool(), Some(ip))
                    &&& post.ips() == pre.ips().insert(ip, e)
                    &&& post.addrs() == pre.addrs().insert(k, ip)
                },
                None => {
                    &&& post.ips() == pre.ips()
                    &&& post.addrs() == pre.addrs()
                    &&& IpPool::alloc_step(pre.spec_pool(), post.spec_pool(), None)
                },
            }
        }
    }

    /// A fresh registry over `pool`, with nothing assigned yet.
    pub fn new(pool: IpPool) -> (m: ClientManager)
        ensures
            m.ips() == Map::<u32, Endpoint>::empty(),
            m.addrs() == Map::<u64, u32>::empty(),
            m.spec_pool() == pool,
            pool.wf() ==> m.wf(),
    {
        let m = ClientManager { by_ip: HashMap::new(), by_addr: HashMap::new(), pool };
        m
    }

    /// Returns the tunnel IP assigned to `addr`, assigning a fresh one from
    /// the pool on first contact.  Re-registration is idempotent; `None`
    /// comes exactly when the endpoint is new and the pool is exhausted.
    pub fn register(&mut self, addr: Endpoint) -> (r: Option<u32>)
        requires
            old(self).wf(),
        ensures
            final(self).wf(),
            r == old(self).spec_register_result(addr),
            ClientManager::register_step(*old(self), *final(self), addr),
    {
        let k = endpoint_key(&addr);
        match self.by_addr.get(&k) {
            Some(ip) => {
                proof {
                    assert(self.wf());
                }
                Some(*ip)
            },
            None => {
                match self.pool.allocate() {
                    Some(ip) => {
                        proof {
                            old(self).spec_pool().lemma_first_free_props(1);
                        }
                        self.by_ip.insert(ip, addr);
                        self.by_addr.insert(k, ip);
                        proof {
                            assert forall|k2: u64| #[trigger] self.addrs().contains_key(k2) implies
                                self.ips().contains_key(self.addrs()[k2]) && spec_endpoint_key(
                                self.ips()[self.addrs()[k2]],
                            ) == k2 by {
                                if k2 != k {
                                    assert(old(self).addrs().contains_key(k2));
                                    assert(old(self).ips().contains_key(old(self).addrs()[k2]));
                                }
                            }
                            assert forall|ip2: u32| #[trigger]
                                self.ips().contains_key(ip2) implies self.addrs().contains_key(
                                spec_endpoint_key(self.ips()[ip2]),
                            ) && self.addrs()[spec_endpoint_key(self.ips()[ip2])] == ip2 by {
                                if ip2 != ip {
                                    assert(old(self).ips().contains_key(ip2));
                                    if spec_endpoint_key(old(self).ips()[ip2]) == k {
                                        assert(old(self).addrs().contains_key(k));
                                    }
                                }
                            }
                            assert forall|ip2: u32| #[trigger]
                                self.ips().contains_key(ip2) implies self.spec_pool(
                            ).allocated().contains(ip2) by {
                                if ip2 != ip {
                                    assert(old(self).ips().contains_key(ip2));
                                }
                            }
                            assert(self.wf());
                        }
                        Some(ip)
                    },
                    None => {
                        proof {
                            assert(self.wf());
                        }
                        None
                    },
                }
            },
        }
    }

    /// The endpoint a tunnel IP was assigned to, if any.
    pub fn get_addr(&self, ip: u32) -> (r: Option<Endpoint>)
        ensures
            r == if self.ips().contains_key(ip) {
                Some(self.ips()[ip])
            } else {
                Option::<Endpoint>::None
            },
    {
        match self.by_ip.get(&ip) {
            Some(e) => Some(*e),
            None => None,
        }
    }

    /// The tunnel IP assigned to a remote endpoint, if any.
    pub fn get_ip(&self, addr: &Endpoint) -> (r: Option<u32>)
        ensures
            r == if self.addrs().contains_key(spec_endpoint_key(*addr)) {
                Some(self.addrs()[spec_endpoint_key(*addr)])
            } else {
                Option::<u32>::None
            },
    {
        let k = endpoint_key(addr);
        match self.by_addr.get(&k) {
            Some(ip) => Some(*ip),
            None => None,
        }
    }

    /// The two directions are mutual inverses: looking up by the IP that a
    /// registered endpoint maps to gives that endpoint back.
    pub proof fn lemma_maps_inverse(self, e: Endpoint)
        requires
            self.wf(),
            self.addrs().contains_key(spec_endpoint_key(e)),
        ensures
            self.ips().contains_key(self.addrs()[spec_endpoint_key(e)]),
            self.ips()[self.addrs()[spec_endpoint_key(e)]] == e,
    {
        let k = spec_endpoint_key(e);
        lemma_endpoint_key_injective(self.ips()[self.addrs()[k]], e);
    }

    /// Registering the same endpoint again returns the same IP and leaves
    /// the registry untouched.
    pub proof fn lemma_register_idempotent(
        m0: ClientManager,
        m1: ClientManager,
        e: Endpoint,
        ip1: u32,
    )
        requires
            m0.spec_register_result(e) == Some(ip1),
            ClientManager::register_step(m0, m1, e),
        ensures
            m1.spec_register_result(e) == Some(ip1),
            forall|m2: ClientManager|
                #[trigger] ClientManager::register_step(m1, m2, e) ==> m2.ips() == m1.ips()
                    && m2.addrs() == m1.addrs() && m2.spec_pool() == m1.spec_pool(),
    {
        let k = spec_endpoint_key(e);
        assert(m1.addrs().contains_key(k) && m1.addrs()[k] == ip1);
    }
}

} // verus!
