use modulehost::connector::ServiceConnector;
use modulehost::echo::{echo_direct_closure_enabler, new_echo_service_gateways, EchoServiceHandle,
    EchoServiceHandlers, EchoServiceImpl, ServiceGatewayEchoExt};
use modulehost::errors::Error;
use modulehost::gateway::{GatewayFactoryFuncs, ServiceGateway, ServiceGatewayFactory};
use modulehost::ids::{ModuleId, ServiceId};
use modulehost::protocol::{ConnectorConfig, Protocol};
use modulehost::remote::ServiceRegistrySnapshot;

fn local_echo_world() -> (ServiceConnector, modulehost::echo::EchoServiceGatewaysImpl) {
    let mut connector = ServiceConnector::new(
        ServiceRegistrySnapshot::new(),
        ConnectorConfig::standard(),
    );
    let mut gateways = new_echo_service_gateways();
    let handlers = EchoServiceHandlers::new(EchoServiceImpl::new());
    let enabled = echo_direct_closure_enabler(&mut connector, &mut gateways, handlers);
    assert!(enabled);
    (connector, gateways)
}

#[test]
fn local_auto_call_round_trips_without_lookup() {
    let (connector, gateways) = local_echo_world();

    let report = gateways.get_service(&connector, Protocol::Auto);
    assert_eq!(report.lookups.len(), 0, "the direct path must never touch the remote registry");

    let gateway = report.outcome.unwrap();
    let handle = gateway.as_echo_service().unwrap();
    let response = handle.echo_local("hello".to_string()).unwrap();
    assert_eq!(response, "hello");
}

#[test]
fn repeated_gateway_requests_are_equivalent() {
    let (connector, gateways) = local_echo_world();

    let first = gateways.get_service(&connector, Protocol::Auto).outcome.unwrap();
    let second = gateways.get_service(&connector, Protocol::Auto).outcome.unwrap();

    assert_eq!(first.protocol(), second.protocol());
    let r1 = first.as_echo_service().unwrap().echo_local("x".to_string()).unwrap();
    let r2 = second.as_echo_service().unwrap().echo_local("x".to_string()).unwrap();
    assert_eq!(r1, "x");
    assert_eq!(r2, "x");
}

#[test]
fn remote_auto_call_takes_one_lookup_and_one_connection() {
    let mut snapshot = ServiceRegistrySnapshot::new();
    snapshot.advertise(
        ModuleId::from_name("echo"),
        Protocol::Grpc,
        "http://localhost:50051".to_string(),
    );
    let connector = ServiceConnector::new(snapshot, ConnectorConfig::standard());
    let gateways = new_echo_service_gateways();

    let report = gateways.get_service(&connector, Protocol::Auto);
    assert_eq!(report.lookups, vec![Protocol::Grpc], "exactly one remote lookup");

    let gateway = report.outcome.unwrap();
    let handle = gateway.as_echo_service().unwrap();
    match handle {
        EchoServiceHandle::Remote(connection) => {
            assert_eq!(connection.protocol, Protocol::Grpc);
            assert_eq!(connection.address, "http://localhost:50051");
            let connection = connection.established(true).unwrap();
            // The transport client is a test double here: the connection
            // reaches the same in-process implementation a real server
            // would dispatch to.
            let server_side = EchoServiceImpl::new();
            let response = server_side.echo("hello".to_string()).unwrap();
            assert_eq!(response, "hello");
            assert_eq!(connection.address, "http://localhost:50051");
        },
        EchoServiceHandle::Local(_) => panic!("the module is not local in this scenario"),
    }
}

#[test]
fn failed_dial_is_a_connection_error() {
    let mut snapshot = ServiceRegistrySnapshot::new();
    snapshot.advertise(
        ModuleId::from_name("echo"),
        Protocol::Grpc,
        "http://localhost:50051".to_string(),
    );
    let connector = ServiceConnector::new(snapshot, ConnectorConfig::standard());
    let gateways = new_echo_service_gateways();

    let gateway = gateways.get_service(&connector, Protocol::Auto).outcome.unwrap();
    let handle = gateway.as_echo_service().unwrap();
    match handle {
        EchoServiceHandle::Remote(connection) => {
            assert_eq!(connection.established(false).unwrap_err(), Error::ConnectionFailed);
        },
        EchoServiceHandle::Local(_) => panic!("the module is not local in this scenario"),
    }
}

#[test]
fn direct_resolution_without_constructor_is_not_implemented() {
    let mut connector = ServiceConnector::new(
        ServiceRegistrySnapshot::new(),
        ConnectorConfig::standard(),
    );
    // The connector knows the module is local, but the caller supplied no
    // direct constructor.
    connector.enable_direct_closure(
        ModuleId::from_name("echo"),
        vec![ServiceId::from_name("service")],
    );
    let factory: ServiceGatewayFactory<EchoServiceImpl> = ServiceGatewayFactory::new(
        ModuleId::from_name("echo"),
        ServiceId::from_name("service"),
        GatewayFactoryFuncs { direct: None, grpc: true, http: false },
    );

    let report = factory.new_service_gateway(&connector, Protocol::Direct);
    assert_eq!(report.outcome.unwrap_err(), Error::ProtocolNotImplemented);
}

#[test]
fn resolved_transport_without_constructor_is_not_implemented() {
    let mut snapshot = ServiceRegistrySnapshot::new();
    snapshot.advertise(
        ModuleId::from_name("echo"),
        Protocol::Http,
        "http://localhost:8080".to_string(),
    );
    let connector = ServiceConnector::new(snapshot, ConnectorConfig::standard());
    // The echo provider supplies no HTTP constructor.
    let gateways = new_echo_service_gateways();

    let report = gateways.get_service(&connector, Protocol::Http);
    assert_eq!(report.outcome.unwrap_err(), Error::ProtocolNotImplemented);
}

#[test]
fn gateway_variants_expose_their_path() {
    let direct: ServiceGateway<EchoServiceImpl> = ServiceGateway::Direct(EchoServiceImpl::new());
    assert_eq!(direct.protocol(), Protocol::Direct);
    assert!(direct.direct_handler().is_some());
    assert!(direct.connection().is_none());
}
