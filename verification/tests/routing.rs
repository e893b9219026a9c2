use simple_web_server::acceptor::{acceptor_step, AcceptDecision, AcceptEvent};
use simple_web_server::persistence::{DbClient, DummyDbClient, InMemoryDbClient};
use simple_web_server::routes::RouteTable;

#[test]
fn lookup_finds_what_was_registered() {
    let mut routes = RouteTable::new();
    routes.register("/".into(), "hello.html".into());
    routes.register("/2".into(), "world.html".into());

    assert_eq!(routes.lookup(&"/".to_string()).unwrap().as_str(), "hello.html");
    assert_eq!(routes.lookup(&"/2".to_string()).unwrap().as_str(), "world.html");
    assert!(routes.lookup(&"/missing".to_string()).is_none());
}

#[test]
fn registering_a_path_again_overwrites_its_locator() {
    let mut routes = RouteTable::new();
    routes.register("/".into(), "old.html".into());
    routes.register("/".into(), "new.html".into());
    assert_eq!(routes.lookup(&"/".to_string()).unwrap().as_str(), "new.html");
}

#[test]
fn a_snapshot_is_independent_of_later_changes() {
    let mut routes = RouteTable::new();
    routes.register("/".into(), "old.html".into());
    let snapshot = routes.snapshot();
    routes.register("/".into(), "new.html".into());
    assert_eq!(snapshot.lookup(&"/".to_string()).unwrap().as_str(), "old.html");
    assert_eq!(routes.lookup(&"/".to_string()).unwrap().as_str(), "new.html");
}

#[test]
fn the_accept_loop_dispatches_and_polls_and_stops() {
    assert_eq!(acceptor_step(AcceptEvent::Accepted, false), AcceptDecision::Dispatch);
    // A pending connection is served even once the signal is up.
    assert_eq!(acceptor_step(AcceptEvent::Accepted, true), AcceptDecision::Dispatch);
    assert_eq!(acceptor_step(AcceptEvent::WouldBlock, false), AcceptDecision::ContinuePolling);
    assert_eq!(acceptor_step(AcceptEvent::WouldBlock, true), AcceptDecision::ShutDown);
    assert_eq!(acceptor_step(AcceptEvent::Failed, false), AcceptDecision::Terminate);
    assert_eq!(acceptor_step(AcceptEvent::Failed, true), AcceptDecision::Terminate);
}

#[test]
fn persistence_stubs_accept_every_commit() {
    assert!(DummyDbClient {}.commit("data".to_string()).is_ok());
    assert!(InMemoryDbClient::new().commit("data".to_string()).is_ok());
}
