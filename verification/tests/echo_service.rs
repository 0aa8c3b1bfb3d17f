use modulehost::echo::{EchoGrpcGatewayFactory, EchoModule, EchoServiceImpl, ServiceGatewayEchoExt};
use modulehost::gateway::{GatewayFactoryFuncs, RemoteConnection, ServiceGateway,
    ServiceGatewayFactory};
use modulehost::ids::{ModuleId, ServiceId};
use modulehost::protocol::Protocol;

#[test]
fn test_echo_service() {
    let service = EchoServiceImpl::new();

    let result = service.echo("Hello, Rust!".to_string()).unwrap();
    assert_eq!(result, "Hello, Rust!");
}

#[test]
fn test_echo_empty() {
    let service = EchoServiceImpl::new();

    let result = service.echo("".to_string()).unwrap();
    assert_eq!(result, "");
}

#[test]
fn test_echo_unicode() {
    let service = EchoServiceImpl::new();

    let result = service.echo("🦀 Rust! 🚀".to_string()).unwrap();
    assert_eq!(result, "🦀 Rust! 🚀");
}

#[test]
fn test_factory_creation() {
    let factory = EchoGrpcGatewayFactory::new();
    let _ = factory;

    let factory2 = EchoGrpcGatewayFactory::default();
    let _ = factory2;
}

#[test]
fn test_module_creation() {
    let module = EchoModule::new();
    assert_eq!(module.id().as_str(), "echo");
}

#[test]
fn test_module_has_services() {
    let module = EchoModule::new();
    let handlers = module.service_handlers_map();

    assert!(handlers.is_some());
    let handlers = handlers.unwrap();
    assert_eq!(handlers.len(), 1);
    assert!(handlers.contains_key(&ServiceId::from_name("echo-service")));
}

#[test]
fn module_accepts_gateway_factory_injection() {
    let mut module = EchoModule::new();
    assert!(!module.has_gateway_factory());
    let factory = ServiceGatewayFactory::new(
        ModuleId::from_name("other"),
        ServiceId::from_name("some-service"),
        GatewayFactoryFuncs::<EchoServiceImpl> { direct: None, grpc: true, http: false },
    );
    module.set_service_gateway_factory(factory);
    assert!(module.has_gateway_factory());
    assert_eq!(module.id().as_str(), "echo");
}

#[test]
fn test_module_lifecycle() {
    let mut module = EchoModule::new();

    module.start().unwrap();

    module.stop().unwrap();
}

#[test]
fn test_extension_trait_for_direct_gateway() {
    let mock_service = EchoServiceImpl::new();
    let gateway: ServiceGateway<EchoServiceImpl> = ServiceGateway::Direct(mock_service);

    let echo_service = gateway.as_echo_service();
    assert!(echo_service.is_ok());
}

#[test]
fn test_extension_trait_for_http_gateway() {
    let gateway: ServiceGateway<EchoServiceImpl> = ServiceGateway::Http(RemoteConnection {
        protocol: Protocol::Http,
        address: "http://localhost:8080".to_string(),
    });

    let result = gateway.as_echo_service();
    assert!(result.is_err());
}
