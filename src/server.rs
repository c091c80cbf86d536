//! The service registry of a server and the routing of inbound requests.
use vstd::prelude::*;
use std::collections::HashMap;
use vstd::std_specs::iter::IteratorSpec;
use crate::ident::{ident_of, xxhash64_of_str};
use crate::wire::{
    encode_res, lemma_request_round_trip, read_u64_head, request_frame, request_payload,
    request_service, response_frame, response_result, RPCRequestError,
};

verus! {

broadcast use vstd::std_specs::hash::group_hash_axioms;

/// What a server does with one inbound request.
pub enum Inbound {
    /// Hand `payload` to the handler registered under `service_id`, then
    /// send back what `encode_res` makes of its result.
    Dispatch { service_id: u64, payload: Vec<u8> },
    /// No handler is registered under `service_id`: send back `response`
    /// at once; no handler runs.
    NotFound { service_id: u64, response: Vec<u8> },
}

/// What a server does with request bytes, given the ids it has handlers for:
/// `Ok` names the handler and its payload, `Err` holds the response.
pub open spec fn route_of(known: Set<u64>, frame: Seq<u8>) -> Result<(u64, Seq<u8>), Seq<u8>> {
    if known.contains(request_service(frame)) {
        Ok((request_service(frame), request_payload(frame)))
    } else {
        Err(response_frame(Err(RPCRequestError::ServiceIdNotFound)))
    }
}

impl Inbound {
    pub open spec fn view(&self) -> Result<(u64, Seq<u8>), Seq<u8>> {
        match self {
            Inbound::Dispatch { service_id, payload } => Ok((*service_id, payload@)),
            Inbound::NotFound { response, .. } => Err(response@),
        }
    }
}

/// A server's table of service handlers, keyed by service id, with its own
/// address and the server id that the address hashes to.
pub struct Server<H> {
    services: HashMap<u64, H>,
    address: String,
    server_id: u64,
    shortcut: bool,
}

impl<H> Server<H> {
    /// The handlers by service id.
    pub closed spec fn services(&self) -> Map<u64, H> {
        self.services@
    }

    /// The address the server listens on.
    pub closed spec fn address_view(&self) -> Seq<char> {
        self.address@
    }

    /// The server's own id.
    pub closed spec fn id(&self) -> u64 {
        self.server_id
    }

    /// Whether callers in the same process may reach the handlers directly.
    pub closed spec fn shortcut_enabled(&self) -> bool {
        self.shortcut
    }

    /// A server for `address` with no service registered, whose handlers
    /// callers in the same process may reach directly.
    pub fn new(address: &String) -> (r: Server<H>)
        ensures
            r.services() == Map::<u64, H>::empty(),
            r.address_view() == address@,
            r.id() == ident_of(address@),
            r.shortcut_enabled(),
    {
        Server::with_shortcut(address, true)
    }

    /// A server for `address` with no service registered; with `shortcut`
    /// false every call, local ones too, goes over the wire.
    pub fn with_shortcut(address: &String, shortcut: bool) -> (r: Server<H>)
        ensures
            r.services() == Map::<u64, H>::empty(),
            r.address_view() == address@,
            r.id() == ident_of(address@),
            r.shortcut_enabled() == shortcut,
    {
        Server {
            services: HashMap::new(),
            address: address.clone(),
            server_id: xxhash64_of_str(address.as_str()),
            shortcut,
        }
    }

    /// Registers `service` under `service_id`, in place of any earlier one.
    pub fn register_service(&mut self, service_id: u64, service: H)
        ensures
            final(self).services() == old(self).services().insert(service_id, service),
            final(self).address_view() == old(self).address_view(),
            final(self).id() == old(self).id(),
            final(self).shortcut_enabled() == old(self).shortcut_enabled(),
    {
        self.services.insert(service_id, service);
    }

    /// Removes the handler registered under `service_id`, if any.
    pub fn remove_service(&mut self, service_id: u64)
        ensures
            final(self).services() == old(self).services().remove(service_id),
            final(self).address_view() == old(self).address_view(),
            final(self).id() == old(self).id(),
            final(self).shortcut_enabled() == old(self).shortcut_enabled(),
    {
        self.services.remove(&service_id);
    }

    pub fn address(&self) -> (r: &String)
        ensures
            r@ == self.address_view(),
    {
        &self.address
    }

    pub fn server_id(&self) -> (r: u64)
        ensures
            r == self.id(),
    {
        self.server_id
    }

    /// The handler registered under `service_id`.
    pub fn service(&self, service_id: u64) -> (r: Option<&H>)
        ensures
            match r {
                Some(h) => self.services().contains_key(service_id) && *h == self.services()[service_id],
                None => !self.services().contains_key(service_id),
            },
    {
        self.services.get(&service_id)
    }

    /// The ids of the registered services, each once, for diagnosis.
    pub fn service_ids(&self) -> (r: Vec<u64>)
        ensures
            r@.to_set() == self.services().dom(),
            r@.no_duplicates(),
    {
        let mut ids: Vec<u64> = Vec::new();
        let ghost all = self.services.keys().remaining();
        for k in it: self.services.keys()
            invariant
                it.seq() == all,
                ids@ == it.seq().take(it.index() as int).map_values(|x: &u64| *x),
        {
            ids.push(*k);
        }
        proof {
            assert(ids@ =~= all.map_values(|x: &u64| *x));
            assert(all.unref() =~= all.map_values(|x: &u64| *x));
        }
        ids
    }

    /// The handler that a call for service `service_id` on server
    /// `server_id` may reach without the wire: there is one only when the
    /// shortcut is enabled, the call is for this server, and the service is
    /// registered now.
    pub fn shortcut(&self, server_id: u64, service_id: u64) -> (r: Option<&H>)
        ensures
            match r {
                Some(h) => self.shortcut_enabled() && server_id == self.id()
                    && self.services().contains_key(service_id) && *h == self.services()[service_id],
                None => !(self.shortcut_enabled() && server_id == self.id()
                    && self.services().contains_key(service_id)),
            },
    {
        if self.shortcut && server_id == self.server_id {
            self.services.get(&service_id)
        } else {
            None
        }
    }

    /// Decides what to do with the bytes of one inbound request: dispatch it
    /// to the handler of its service id, or answer `ServiceIdNotFound` at once
    /// when no handler is registered under that id.
    pub fn route(&self, request: Vec<u8>) -> (r: Inbound)
        requires
            request@.len() >= 8,
        ensures
            r@ == route_of(self.services().dom(), request@),
            r matches Inbound::NotFound { service_id, .. } ==> service_id == request_service(request@),
    {
        let (service_id, payload) = read_u64_head(request);
        if self.services.contains_key(&service_id) {
            Inbound::Dispatch { service_id, payload }
        } else {
            Inbound::NotFound {
                service_id,
                response: encode_res(Err(RPCRequestError::ServiceIdNotFound)),
            }
        }
    }
}

/// A request for an unregistered service id is answered with the single
/// status byte 2, which the client reads as `ServiceIdNotFound`; no handler
/// is chosen.
pub proof fn lemma_unknown_service_rejected(known: Set<u64>, frame: Seq<u8>)
    requires
        !known.contains(request_service(frame)),
    ensures
        route_of(known, frame) == Err::<(u64, Seq<u8>), Seq<u8>>(seq![2u8]),
        response_result(seq![2u8]) == Err::<Seq<u8>, RPCRequestError>(
            RPCRequestError::ServiceIdNotFound,
        ),
{
    assert(response_frame(Err(RPCRequestError::ServiceIdNotFound)) =~= seq![2u8]);
}

/// A request framed for a registered service reaches that service's handler
/// with exactly the payload it was framed with.
pub proof fn lemma_framed_request_dispatched(known: Set<u64>, service_id: u64, payload: Seq<u8>)
    requires
        known.contains(service_id),
    ensures
        route_of(known, request_frame(service_id, payload)) == Ok::<(u64, Seq<u8>), Seq<u8>>(
            (service_id, payload),
        ),
{
    lemma_request_round_trip(service_id, payload);
}

} // verus!
