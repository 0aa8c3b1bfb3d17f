use modulehost::connector::{ResolvedPath, ServiceConnector};
use modulehost::direct::DirectClosureRegistry;
use modulehost::errors::Error;
use modulehost::ids::{ModuleId, ServiceId};
use modulehost::protocol::{ConnectorConfig, Protocol};
use modulehost::remote::ServiceRegistrySnapshot;

fn echo_target() -> (ModuleId, ServiceId) {
    (ModuleId::from_name("echo"), ServiceId::from_name("echo-service"))
}

#[test]
fn direct_fails_for_remote_module() {
    let (module, service) = echo_target();
    let mut snapshot = ServiceRegistrySnapshot::new();
    snapshot.advertise(module.duplicate(), Protocol::Grpc, "http://localhost:50051".to_string());
    let connector = ServiceConnector::new(snapshot, ConnectorConfig::standard());

    let report = connector.resolve(&module, &service, Protocol::Direct);
    assert_eq!(report.outcome.unwrap_err(), Error::NotLocallyAvailable);
    assert_eq!(report.lookups.len(), 0);
}

#[test]
fn auto_prefers_local_without_lookup() {
    let (module, service) = echo_target();
    let mut snapshot = ServiceRegistrySnapshot::new();
    snapshot.advertise(module.duplicate(), Protocol::Grpc, "http://localhost:50051".to_string());
    let mut connector = ServiceConnector::new(snapshot, ConnectorConfig::standard());
    let enabled = connector.enable_direct_closure(
        module.duplicate(),
        vec![service.duplicate()],
    );
    assert!(enabled);

    let report = connector.resolve(&module, &service, Protocol::Auto);
    assert!(matches!(report.outcome.unwrap(), ResolvedPath::DirectPath));
    assert_eq!(report.lookups.len(), 0, "a local module must cost no remote lookup");
}

#[test]
fn auto_falls_back_in_priority_order() {
    let (module, service) = echo_target();
    let mut snapshot = ServiceRegistrySnapshot::new();
    snapshot.advertise(module.duplicate(), Protocol::Http, "http://localhost:8080".to_string());
    snapshot.advertise(module.duplicate(), Protocol::Grpc, "http://localhost:50051".to_string());
    let connector = ServiceConnector::new(snapshot, ConnectorConfig::standard());

    let report = connector.resolve(&module, &service, Protocol::Auto);
    match report.outcome.unwrap() {
        ResolvedPath::RemotePath { protocol, address } => {
            assert_eq!(protocol, Protocol::Grpc);
            assert_eq!(address, "http://localhost:50051");
        },
        ResolvedPath::DirectPath => panic!("expected a remote path"),
    }
    assert_eq!(report.lookups, vec![Protocol::Grpc]);
}

#[test]
fn custom_priority_is_respected() {
    let (module, service) = echo_target();
    let mut snapshot = ServiceRegistrySnapshot::new();
    snapshot.advertise(module.duplicate(), Protocol::Http, "http://localhost:8080".to_string());
    snapshot.advertise(module.duplicate(), Protocol::Grpc, "http://localhost:50051".to_string());
    let config = ConnectorConfig::try_new(vec![Protocol::Http, Protocol::Grpc]).unwrap();
    let connector = ServiceConnector::new(snapshot, config);

    let report = connector.resolve(&module, &service, Protocol::Auto);
    match report.outcome.unwrap() {
        ResolvedPath::RemotePath { protocol, address } => {
            assert_eq!(protocol, Protocol::Http);
            assert_eq!(address, "http://localhost:8080");
        },
        ResolvedPath::DirectPath => panic!("expected a remote path"),
    }
}

#[test]
fn auto_tries_every_transport_before_giving_up() {
    let (module, service) = echo_target();
    let connector = ServiceConnector::new(
        ServiceRegistrySnapshot::new(),
        ConnectorConfig::standard(),
    );

    let report = connector.resolve(&module, &service, Protocol::Auto);
    assert_eq!(report.outcome.unwrap_err(), Error::NoProtocolAvailable);
    assert_eq!(report.lookups, vec![Protocol::Grpc, Protocol::Http]);
}

#[test]
fn explicit_transport_miss_is_unresolvable() {
    let (module, service) = echo_target();
    let connector = ServiceConnector::new(
        ServiceRegistrySnapshot::new(),
        ConnectorConfig::standard(),
    );

    let report = connector.resolve(&module, &service, Protocol::Grpc);
    assert_eq!(report.outcome.unwrap_err(), Error::ServiceUnresolvable);
    assert_eq!(report.lookups, vec![Protocol::Grpc]);
}

#[test]
fn explicit_transport_hit_resolves() {
    let (module, service) = echo_target();
    let mut snapshot = ServiceRegistrySnapshot::new();
    snapshot.advertise(module.duplicate(), Protocol::Grpc, "http://localhost:50051".to_string());
    let connector = ServiceConnector::new(snapshot, ConnectorConfig::standard());

    let report = connector.resolve(&module, &service, Protocol::Grpc);
    match report.outcome.unwrap() {
        ResolvedPath::RemotePath { protocol, address } => {
            assert_eq!(protocol, Protocol::Grpc);
            assert_eq!(address, "http://localhost:50051");
        },
        ResolvedPath::DirectPath => panic!("expected a remote path"),
    }
}

#[test]
fn first_advertisement_wins() {
    let (module, service) = echo_target();
    let mut snapshot = ServiceRegistrySnapshot::new();
    snapshot.advertise(module.duplicate(), Protocol::Grpc, "http://one:50051".to_string());
    snapshot.advertise(module.duplicate(), Protocol::Grpc, "http://two:50051".to_string());
    let connector = ServiceConnector::new(snapshot, ConnectorConfig::standard());

    let report = connector.resolve(&module, &service, Protocol::Grpc);
    match report.outcome.unwrap() {
        ResolvedPath::RemotePath { address, .. } => assert_eq!(address, "http://one:50051"),
        ResolvedPath::DirectPath => panic!("expected a remote path"),
    }
}

#[test]
fn direct_closure_is_written_once() {
    let (module, service) = echo_target();
    let mut connector = ServiceConnector::new(
        ServiceRegistrySnapshot::new(),
        ConnectorConfig::standard(),
    );

    assert!(connector.enable_direct_closure(module.duplicate(), vec![service.duplicate()]));
    assert!(!connector.enable_direct_closure(module.duplicate(), vec![]));
    assert!(connector.is_local(&module));
}

#[test]
fn direct_registry_tracks_modules_and_services() {
    let (module, service) = echo_target();
    let mut registry = DirectClosureRegistry::new();
    assert!(!registry.is_local(&module));

    assert!(registry.enable(module.duplicate(), vec![service.duplicate()]));
    assert!(registry.is_local(&module));
    assert!(registry.has_local_service(&module, &service));
    assert!(!registry.has_local_service(&module, &ServiceId::from_name("other-service")));
    assert!(!registry.is_local(&ModuleId::from_name("other")));
}

#[test]
fn connector_config_rejects_invalid_orders() {
    assert!(ConnectorConfig::try_new(vec![Protocol::Auto]).is_none());
    assert!(ConnectorConfig::try_new(vec![Protocol::Direct]).is_none());
    assert!(ConnectorConfig::try_new(vec![Protocol::Grpc, Protocol::Grpc]).is_none());
    let config = ConnectorConfig::try_new(vec![Protocol::Http]).unwrap();
    assert_eq!(config.len(), 1);
}
