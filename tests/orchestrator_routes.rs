use quest_harbor::actor::ActorId;
use quest_harbor::orchestrator::{Dispatch, Orchestrator, OrchestratorAction, OrchestratorEvent, Payload};

const SELF_ID: u64 = 2;
const FAKE_ACTOR_ID: u64 = 3;

fn actor(n: u64) -> ActorId {
    ActorId::from_u64(n)
}

fn init_orchestrator() -> Orchestrator {
    Orchestrator::new(actor(SELF_ID))
}

#[test]
fn add_route() {
    let mut o = init_orchestrator();
    let route = String::from("login");
    let res = o.handle(actor(SELF_ID), OrchestratorAction::AddRoute(route.clone(), actor(FAKE_ACTOR_ID)));
    assert_eq!(res, Dispatch::Reply(OrchestratorEvent::NewRouteCreated(route, actor(FAKE_ACTOR_ID))));
}

#[test]
fn add_route_fail_not_owner() {
    let mut o = init_orchestrator();
    let route = String::from("login");
    let res = o.handle(actor(FAKE_ACTOR_ID), OrchestratorAction::AddRoute(route.clone(), actor(FAKE_ACTOR_ID)));
    assert_eq!(res, Dispatch::Reply(OrchestratorEvent::NotOwner));
    let routed = o.handle(actor(SELF_ID), OrchestratorAction::Route(actor(SELF_ID), route, vec![1]));
    assert_eq!(routed, Dispatch::Reply(OrchestratorEvent::RouteNotFound));
}

#[test]
fn delete_route() {
    let mut o = init_orchestrator();
    let route = String::from("random");
    o.handle(actor(SELF_ID), OrchestratorAction::AddRoute(route.clone(), actor(FAKE_ACTOR_ID)));
    let res = o.handle(actor(SELF_ID), OrchestratorAction::DeleteRoute(route.clone()));
    assert_eq!(res, Dispatch::Reply(OrchestratorEvent::RouteRemoved(route.clone())));
    let routed = o.handle(actor(SELF_ID), OrchestratorAction::Route(actor(SELF_ID), route, vec![1]));
    assert_eq!(routed, Dispatch::Reply(OrchestratorEvent::RouteNotFound));
}

#[test]
fn delete_route_fail_not_owner() {
    let mut o = init_orchestrator();
    let route = String::from("random");
    o.handle(actor(SELF_ID), OrchestratorAction::AddRoute(route.clone(), actor(FAKE_ACTOR_ID)));
    let res = o.handle(actor(FAKE_ACTOR_ID), OrchestratorAction::DeleteRoute(route.clone()));
    assert_eq!(res, Dispatch::Reply(OrchestratorEvent::NotOwner));
    assert_eq!(o.routes.get(&route), Some(actor(FAKE_ACTOR_ID)));
}

#[test]
fn route() {
    let mut o = init_orchestrator();
    let route = String::from("login");
    let payload = String::from("Hello World!").into_bytes();
    o.handle(actor(SELF_ID), OrchestratorAction::AddRoute(route.clone(), actor(FAKE_ACTOR_ID)));
    let res = o.handle(actor(SELF_ID), OrchestratorAction::Route(actor(SELF_ID), route, payload.clone()));
    assert_eq!(
        res,
        Dispatch::Forward {
            destination: actor(FAKE_ACTOR_ID),
            payload: Payload { origin: actor(SELF_ID), payload },
        }
    );
}

#[test]
fn route_success() {
    let mut o = init_orchestrator();
    let route = String::from("wallet_login");
    o.handle(actor(SELF_ID), OrchestratorAction::AddRoute(route.clone(), actor(FAKE_ACTOR_ID)));
    let res = o.route(actor(SELF_ID), &route, vec![]);
    assert_eq!(res, Ok((actor(FAKE_ACTOR_ID), Payload { origin: actor(SELF_ID), payload: vec![] })));
}
