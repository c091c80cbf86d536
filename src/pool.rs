//! A cache of connections by server id.
use vstd::prelude::*;
use std::collections::HashMap;
use crate::ident::{ident_of, xxhash64_of_str};

verus! {

broadcast use vstd::std_specs::hash::group_hash_axioms;

/// The pool after a lookup of `server_id`, and the connection handed out:
/// the cached one if there is one, else `fresh`, which is cached from then on.
pub open spec fn pool_get<C>(m: Map<u64, C>, server_id: u64, fresh: C) -> (Map<u64, C>, C) {
    if m.contains_key(server_id) {
        (m, m[server_id])
    } else {
        (m.insert(server_id, fresh), fresh)
    }
}

/// Connections to peers, keyed by server id. Entries are made on first use
/// and never evicted.
pub struct ClientPool<C> {
    clients: HashMap<u64, C>,
}

impl<C> ClientPool<C> {
    pub closed spec fn view(&self) -> Map<u64, C> {
        self.clients@
    }

    pub fn new() -> (r: ClientPool<C>)
        ensures
            r@ == Map::<u64, C>::empty(),
    {
        ClientPool { clients: HashMap::new() }
    }

    /// The cached connection to server `server_id`; `None` means that one
    /// must be opened and handed to `insert`.
    pub fn get_by_id(&self, server_id: u64) -> (r: Option<&C>)
        ensures
            match r {
                Some(c) => self@.contains_key(server_id) && *c == self@[server_id],
                None => !self@.contains_key(server_id),
            },
    {
        self.clients.get(&server_id)
    }

    /// The cached connection to the server at `address`, whose server id is
    /// the hash of the address.
    pub fn get(&self, address: &String) -> (r: Option<&C>)
        ensures
            match r {
                Some(c) => self@.contains_key(ident_of(address@)) && *c == self@[ident_of(address@)],
                None => !self@.contains_key(ident_of(address@)),
            },
    {
        let server_id = xxhash64_of_str(address.as_str());
        self.clients.get(&server_id)
    }

    /// Caches a connection that was opened to server `server_id` after
    /// `get_by_id` found none.
    pub fn insert(&mut self, server_id: u64, client: C)
        requires
            !old(self)@.contains_key(server_id),
        ensures
            final(self)@ == pool_get(old(self)@, server_id, client).0,
    {
        self.clients.insert(server_id, client);
    }
}

/// Looking up the same server id again, with no eviction in between, hands
/// out the same connection as the first lookup and opens none.
pub proof fn lemma_get_by_id_stable<C>(m: Map<u64, C>, server_id: u64, fresh1: C, fresh2: C)
    ensures
        pool_get(pool_get(m, server_id, fresh1).0, server_id, fresh2) == pool_get(
            m,
            server_id,
            fresh1,
        ),
{
}

} // verus!
