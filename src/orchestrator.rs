use vstd::prelude::*;
use crate::actor::{lemma_actor_eq, ActorId};

verus! {

/// Route names and the actors they lead to, in a hashbrown map.
#[verifier::external_body]
pub struct RouteTable {
    inner: hashbrown::HashMap<String, ActorId>,
}

/// What a [`RouteTable`] holds.
pub uninterp spec fn routes_of(t: RouteTable) -> Map<Seq<char>, ActorId>;

pub open spec fn no_routes() -> Map<Seq<char>, ActorId> {
    Map::empty()
}

impl RouteTable {
    /// Relies on hashbrown's `HashMap::new`: a new map is empty.
    #[verifier::external_body]
    pub fn new() -> (r: RouteTable)
        ensures
            routes_of(r) == no_routes(),
    {
        RouteTable { inner: hashbrown::HashMap::new() }
    }

    /// Relies on hashbrown's `HashMap::insert`: the key now maps to the value.
    #[verifier::external_body]
    pub fn insert(&mut self, route: String, actor_id: ActorId)
        ensures
            routes_of(*final(self)) == routes_of(*old(self)).insert(route@, actor_id),
    {
        self.inner.insert(route, actor_id);
    }

    /// Relies on hashbrown's `HashMap::remove`: the key is gone.
    #[verifier::external_body]
    pub fn remove(&mut self, route: &String)
        ensures
            routes_of(*final(self)) == routes_of(*old(self)).remove(route@),
    {
        self.inner.remove(route);
    }

    /// Relies on hashbrown's `HashMap::get`: the value under the key, if any.
    #[verifier::external_body]
    pub fn get(&self, route: &String) -> (r: Option<ActorId>)
        ensures
            r == (if routes_of(*self).contains_key(route@) {
                Some(routes_of(*self)[route@])
            } else {
                None
            }),
    {
        self.inner.get(route).copied()
    }
}

/// What the router hands on: who sent the request, and its raw bytes.
#[derive(Debug, PartialEq, Eq)]
pub struct Payload {
    pub origin: ActorId,
    pub payload: Vec<u8>,
}

/// A request to the router.
pub enum OrchestratorAction {
    AddRoute(String, ActorId),
    DeleteRoute(String),
    /// Forward the bytes on behalf of the given origin along the named route.
    Route(ActorId, String, Vec<u8>),
}

/// The router's reply.
#[derive(Debug, PartialEq, Eq)]
pub enum OrchestratorEvent {
    NewRouteCreated(String, ActorId),
    RouteRemoved(String),
    RoutingSuccess,
    RoutingFailed,
    RouteNotFound,
    NotOwner,
}

/// What the router does with a request: answer it, or forward a payload
/// to an actor and answer once the send is done.
#[derive(Debug, PartialEq, Eq)]
pub enum Dispatch {
    Reply(OrchestratorEvent),
    Forward { destination: ActorId, payload: Payload },
}

/// Routes requests between actors by route name.
pub struct Orchestrator {
    pub owner: ActorId,
    pub routes: RouteTable,
}

impl Orchestrator {
    pub fn new(owner: ActorId) -> (r: Orchestrator)
        ensures
            r.owner == owner,
            routes_of(r.routes) == no_routes(),
    {
        Orchestrator { owner, routes: RouteTable::new() }
    }

    pub fn add_route(&mut self, route: String, actor_id: ActorId) -> (r: OrchestratorEvent)
        ensures
            final(self).owner == old(self).owner,
            routes_of(final(self).routes) == routes_of(old(self).routes).insert(route@, actor_id),
            r == OrchestratorEvent::NewRouteCreated(route, actor_id),
    {
        self.routes.insert(route.clone(), actor_id);
        OrchestratorEvent::NewRouteCreated(route, actor_id)
    }

    pub fn delete_route(&mut self, route: String) -> (r: OrchestratorEvent)
        ensures
            final(self).owner == old(self).owner,
            routes_of(final(self).routes) == routes_of(old(self).routes).remove(route@),
            r == OrchestratorEvent::RouteRemoved(route),
    {
        self.routes.remove(&route);
        OrchestratorEvent::RouteRemoved(route)
    }

    /// Where the named route leads, with the payload to send there.
    pub fn route(&self, origin: ActorId, route: &String, request_bytes: Vec<u8>) -> (r: Result<
        (ActorId, Payload),
        OrchestratorEvent,
    >)
        ensures
            r is Ok == routes_of(self.routes).contains_key(route@),
            r matches Ok((destination, payload)) ==> destination == routes_of(self.routes)[route@]
                && payload == (Payload { origin, payload: request_bytes }),
            r matches Err(e) ==> e == OrchestratorEvent::RouteNotFound,
    {
        match self.routes.get(route) {
            Some(destination) => Ok((destination, Payload { origin, payload: request_bytes })),
            None => Err(OrchestratorEvent::RouteNotFound),
        }
    }

    /// Handles one request from `caller`: only the owner may change routes,
    /// anyone may route.
    pub fn handle(&mut self, caller: ActorId, action: OrchestratorAction) -> (r: Dispatch)
        ensures
            final(self).owner == old(self).owner,
            match action {
                OrchestratorAction::AddRoute(route, actor_id) => if caller == old(self).owner {
                    routes_of(final(self).routes) == routes_of(old(self).routes).insert(route@, actor_id)
                        && r == Dispatch::Reply(OrchestratorEvent::NewRouteCreated(route, actor_id))
                } else {
                    routes_of(final(self).routes) == routes_of(old(self).routes)
                        && r == Dispatch::Reply(OrchestratorEvent::NotOwner)
                },
                OrchestratorAction::DeleteRoute(route) => if caller == old(self).owner {
                    routes_of(final(self).routes) == routes_of(old(self).routes).remove(route@)
                        && r == Dispatch::Reply(OrchestratorEvent::RouteRemoved(route))
                } else {
                    routes_of(final(self).routes) == routes_of(old(self).routes)
                        && r == Dispatch::Reply(OrchestratorEvent::NotOwner)
                },
                OrchestratorAction::Route(origin, route, bytes) => {
                    &&& routes_of(final(self).routes) == routes_of(old(self).routes)
                    &&& r == (if routes_of(old(self).routes).contains_key(route@) {
                        Dispatch::Forward {
                            destination: routes_of(old(self).routes)[route@],
                            payload: Payload { origin, payload: bytes },
                        }
                    } else {
                        Dispatch::Reply(OrchestratorEvent::RouteNotFound)
                    })
                },
            },
    {
        proof {
            lemma_actor_eq(caller, self.owner);
        }
        match action {
            OrchestratorAction::AddRoute(route, actor_id) => {
                if caller == self.owner {
                    Dispatch::Reply(self.add_route(route, actor_id))
                } else {
                    Dispatch::Reply(OrchestratorEvent::NotOwner)
                }
            },
            OrchestratorAction::DeleteRoute(route) => {
                if caller == self.owner {
                    Dispatch::Reply(self.delete_route(route))
                } else {
                    Dispatch::Reply(OrchestratorEvent::NotOwner)
                }
            },
            OrchestratorAction::Route(origin, route, bytes) => {
                match self.route(origin, &route, bytes) {
                    Ok((destination, payload)) => Dispatch::Forward { destination, payload },
                    Err(e) => Dispatch::Reply(e),
                }
            },
        }
    }
}

} // verus!
