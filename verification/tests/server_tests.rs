use simple_web_server::handler::{DummyHandler, Handler, ResponseAction};
use simple_web_server::lifecycle::LifecycleError;
use simple_web_server::server::Server;
use simple_web_server::serverinternal::ServerInternal;

fn get_address() -> String {
    "localhost:10000".to_string()
}

#[test]
fn server_can_only_be_stopped_while_listening() {
    // Server cannot be stopped before starting listening initially.
    let mut server = ServerInternal::new(DummyHandler {});
    let result = server.stop_listening();
    assert!(result.is_err());

    // Server cannot be stopped when no longer listening.
    let address = get_address();
    server.listen(&address).unwrap();
    server.stop_listening().unwrap();
    let result = server.stop_listening();
    assert!(result.is_err());
}

#[test]
fn server_can_only_listen_once_at_a_time() {
    let mut server = ServerInternal::new(DummyHandler {});
    let address = get_address();
    server.listen(&address).unwrap();

    // Listening again on the same address should fail.
    let result = server.listen(&address);
    assert!(result.is_err());

    // Listening again on a different address should fail.
    let result = server.listen("localhost:10001");
    assert!(result.is_err());

    // A stopped server is stopped for good: it cannot listen again.
    server.stop_listening().unwrap();
    let result = server.listen(&address);
    assert!(result.is_err());
}

#[test]
fn starting_twice_reports_already_listening() {
    let mut server = Server::new();
    server.register_route("/".into(), "./src/html/hello_world.html".into()).unwrap();
    let first = server.start("0.0.0.0:10005");
    assert!(first.is_ok());
    let second = server.start("0.0.0.0:10006");
    assert_eq!(second.unwrap_err(), LifecycleError::AlreadyListening);
    // The first session is untouched by the refusal.
    assert!(server.is_listening());
}

#[test]
fn stopping_without_a_session_reports_not_listening() {
    let mut server = Server::new();
    assert_eq!(server.stop_listening().unwrap_err(), LifecycleError::NotListening);

    server.start("0.0.0.0:10005").unwrap();
    server.stop_listening().unwrap();
    assert_eq!(server.stop_listening().unwrap_err(), LifecycleError::NotListening);
}

#[test]
fn routes_are_locked_once_the_server_starts() {
    let mut server = Server::new();
    server.register_route("/".into(), "a.html".into()).unwrap();
    server.start("0.0.0.0:10005").unwrap();
    let result = server.register_route("/2".into(), "b.html".into());
    assert_eq!(result.unwrap_err(), LifecycleError::RoutesLocked);

    server.stop_listening().unwrap();
    let result = server.register_route("/2".into(), "b.html".into());
    assert_eq!(result.unwrap_err(), LifecycleError::RoutesLocked);
}

#[test]
fn a_failed_bind_leaves_the_server_startable() {
    let mut server = Server::new();
    server.register_route("/".into(), "a.html".into()).unwrap();
    server.start("0.0.0.0:80").unwrap();
    // The embedding program could not bind the address: roll back.
    assert_eq!(server.bind_failed(), LifecycleError::Bind);
    assert!(!server.is_listening());

    // The server never listened, so routes are still open and a new start
    // succeeds.
    server.register_route("/2".into(), "b.html".into()).unwrap();
    assert!(server.start("0.0.0.0:10005").is_ok());
}

#[test]
fn the_server_core_carries_its_handler() {
    let server = ServerInternal::new(DummyHandler {});
    match server.handler().handle(&b"x".to_vec()) {
        ResponseAction::Write(bytes) => assert_eq!(bytes, b"DUMMY\n".to_vec()),
        _ => panic!("expected the dummy reply"),
    }
}

#[test]
fn starting_hands_out_a_responder_over_the_routes() {
    let mut server = Server::new();
    server.register_route("/".into(), "hello.html".into()).unwrap();
    let handler = server.start("0.0.0.0:10005").unwrap();

    match handler.handle(&b"GET / HTTP/1.1\r\n".to_vec()) {
        ResponseAction::Load(status, locator) => {
            assert!(matches!(status, simple_web_server::response::HttpStatus::Success));
            assert_eq!(locator, "hello.html");
        }
        _ => panic!("expected the route's content to be loaded"),
    }
}
