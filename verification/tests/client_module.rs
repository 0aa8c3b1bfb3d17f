use modulehost::connector::ServiceConnector;
use modulehost::echo::{EchoServerModule, EchoServerServiceProvider, EchoServiceHandlers,
    EchoServiceImpl};
use modulehost::echo_client::{create_module, create_service_provider, EchoClientModule,
    EchoClientModuleConfig, EchoClientServiceProvider};
use modulehost::errors::Error;
use modulehost::ids::{ModuleId, ServiceId};
use modulehost::protocol::{ConnectorConfig, Protocol};
use modulehost::remote::ServiceRegistrySnapshot;

#[test]
fn client_defaults_and_identity() {
    let config = EchoClientModuleConfig::default();
    assert_eq!(config.module_id.as_str(), "echo-client");

    let provider = EchoClientServiceProvider::new();
    assert_eq!(provider.get_gateways().module_id().as_str(), "echo");

    let module = create_module(create_service_provider());
    assert_eq!(module.id().as_str(), "echo-client");
}

#[test]
fn client_start_calls_the_local_echo_service() {
    let mut connector = ServiceConnector::new(
        ServiceRegistrySnapshot::new(),
        ConnectorConfig::standard(),
    );
    connector.enable_direct_closure(
        ModuleId::from_name("echo"),
        vec![ServiceId::from_name("service")],
    );

    let mut provider = create_service_provider();
    provider.enable_direct_closure(EchoServiceHandlers::new(EchoServiceImpl::new()));
    let mut module = EchoClientModule::new(provider, "hello".to_string());

    let response = module.start(&connector).unwrap();
    assert_eq!(response, Some("hello".to_string()));
    module.stop().unwrap();
}

#[test]
fn client_start_over_a_transport_defers_the_call() {
    let mut snapshot = ServiceRegistrySnapshot::new();
    snapshot.advertise(
        ModuleId::from_name("echo"),
        Protocol::Grpc,
        "http://localhost:50051".to_string(),
    );
    let connector = ServiceConnector::new(snapshot, ConnectorConfig::standard());

    let mut module = create_module(create_service_provider());
    let response = module.start(&connector).unwrap();
    assert_eq!(response, None, "the remote call belongs to the transport client");
}

#[test]
fn client_start_without_any_route_fails() {
    let connector = ServiceConnector::new(
        ServiceRegistrySnapshot::new(),
        ConnectorConfig::standard(),
    );

    let mut module = create_module(create_service_provider());
    assert_eq!(module.start(&connector).unwrap_err(), Error::NoProtocolAvailable);
}

#[test]
fn server_module_lifecycle() {
    let mut module = EchoServerModule::new(EchoServerServiceProvider {});
    assert_eq!(module.id().as_str(), "echo");
    module.start().unwrap();
    module.stop().unwrap();
}
