use modulehost::echo::{new_echo_handlers_registrar, EchoServiceHandlers, EchoServiceImpl};
use modulehost::errors::Error;
use modulehost::protocol::Protocol;
use modulehost::registrar::ProtocolServerHandle;

fn handlers() -> EchoServiceHandlers {
    EchoServiceHandlers::new(EchoServiceImpl::new())
}

#[test]
fn registration_with_an_accepting_grpc_server_succeeds() {
    let servers = vec![ProtocolServerHandle { protocol: Protocol::Grpc, port: 50051 }];
    let registrar = new_echo_handlers_registrar(servers).unwrap();

    let report = registrar.register_handlers(handlers(), &vec![true]);
    assert!(report.first_error.is_none());
    let registered = report.registered.get(Protocol::Grpc).unwrap();
    assert_eq!(registered.len(), 1);
    assert_eq!(registered[0].as_str(), "service");
}

#[test]
fn one_failing_server_is_surfaced_beside_the_successes() {
    let servers = vec![
        ProtocolServerHandle { protocol: Protocol::Grpc, port: 50051 },
        ProtocolServerHandle { protocol: Protocol::Http, port: 8080 },
    ];
    let registrar = new_echo_handlers_registrar(servers).unwrap();

    // The gRPC server accepts; the echo handler set has no adapter for the
    // HTTP server, so that registration fails.
    let report = registrar.register_handlers(handlers(), &vec![true, true]);

    assert!(report.registered.contains(Protocol::Grpc), "the success must be kept");
    assert!(!report.registered.contains(Protocol::Http));
    let failure = report.first_error.unwrap();
    assert_eq!(failure.protocol, Protocol::Http);
    assert_eq!(failure.server_index, 1);
    assert!(!failure.rejected, "no adapter exists for the HTTP server");
}

#[test]
fn a_rejecting_server_is_reported_with_its_index() {
    let servers = vec![
        ProtocolServerHandle { protocol: Protocol::Grpc, port: 50051 },
        ProtocolServerHandle { protocol: Protocol::Http, port: 8080 },
    ];
    let registrar = new_echo_handlers_registrar(servers).unwrap();

    let report = registrar.register_handlers(handlers(), &vec![false, true]);
    assert!(!report.registered.contains(Protocol::Grpc));
    let failure = report.first_error.unwrap();
    assert_eq!(failure.server_index, 0);
    assert_eq!(failure.protocol, Protocol::Grpc);
    assert!(failure.rejected, "the server itself rejected the registration");
}

#[test]
fn partial_failure_collapses_to_a_registration_error() {
    let servers = vec![
        ProtocolServerHandle { protocol: Protocol::Grpc, port: 50051 },
        ProtocolServerHandle { protocol: Protocol::Http, port: 8080 },
    ];
    let registrar = new_echo_handlers_registrar(servers).unwrap();

    let report = registrar.register_handlers(handlers(), &vec![true, true]);
    assert_eq!(report.into_result().unwrap_err(), Error::HandlerRegistrationFailed);
}

#[test]
fn full_success_collapses_to_the_map() {
    let servers = vec![ProtocolServerHandle { protocol: Protocol::Grpc, port: 50051 }];
    let registrar = new_echo_handlers_registrar(servers).unwrap();

    let report = registrar.register_handlers(handlers(), &vec![true]);
    let map = report.into_result().unwrap();
    assert_eq!(map.len(), 1);
}

#[test]
fn no_servers_means_an_empty_successful_report() {
    let registrar = new_echo_handlers_registrar(vec![]).unwrap();
    let report = registrar.register_handlers(handlers(), &vec![]);
    assert!(report.first_error.is_none());
    assert_eq!(report.registered.len(), 0);
}
