use modulehost::echo_client::{init_echo_client_module, init_echo_server_module,
    EchoClientModuleConfig, EchoServerModuleConfig};
use modulehost::errors::Error;
use modulehost::ids::{ModuleId, ServiceId};
use modulehost::registry::{CapabilityRegistry, ModuleDescriptor};

fn descriptor(services: Vec<&str>, provides_handlers: bool, enables_direct: bool)
    -> ModuleDescriptor {
    let mut service_ids = Vec::new();
    for s in services {
        service_ids.push(ServiceId::from_name(s));
    }
    ModuleDescriptor { service_ids, provides_handlers, enables_direct_closure: enables_direct }
}

#[test]
fn fresh_registration_is_appended_in_order() {
    let mut registry = CapabilityRegistry::new();
    registry.register(ModuleId::from_name("a"), descriptor(vec![], false, false)).unwrap();
    registry.register(ModuleId::from_name("b"), descriptor(vec!["s"], true, true)).unwrap();

    assert_eq!(registry.len(), 2);
    assert_eq!(registry.module_at(0).as_str(), "a");
    assert_eq!(registry.module_at(1).as_str(), "b");
    assert!(registry.descriptor_at(1).provides_handlers);
}

#[test]
fn identical_reregistration_is_a_noop() {
    let mut registry = CapabilityRegistry::new();
    registry.register(ModuleId::from_name("echo"), descriptor(vec!["s"], true, true)).unwrap();
    registry.register(ModuleId::from_name("echo"), descriptor(vec!["s"], true, true)).unwrap();

    assert_eq!(registry.len(), 1);
}

#[test]
fn conflicting_reregistration_is_rejected_not_replaced() {
    let mut registry = CapabilityRegistry::new();
    registry.register(ModuleId::from_name("echo"), descriptor(vec!["s"], true, true)).unwrap();

    let err = registry
        .register(ModuleId::from_name("echo"), descriptor(vec!["other"], false, false))
        .unwrap_err();
    assert_eq!(err, Error::AlreadyRegistered);

    assert_eq!(registry.len(), 1);
    let kept = registry.descriptor_at(0);
    assert!(kept.provides_handlers, "the first descriptor must survive unchanged");
    assert_eq!(kept.service_ids.len(), 1);
    assert_eq!(kept.service_ids[0].as_str(), "s");
}

#[test]
fn init_functions_register_the_echo_modules() {
    let mut registry = CapabilityRegistry::new();
    init_echo_server_module(EchoServerModuleConfig::default(), &mut registry).unwrap();
    init_echo_client_module(EchoClientModuleConfig::default(), &mut registry).unwrap();

    assert_eq!(registry.len(), 2);
    assert_eq!(registry.module_at(0).as_str(), "echo");
    assert_eq!(registry.module_at(1).as_str(), "echo-client");
    assert!(registry.descriptor_at(0).enables_direct_closure);
    assert!(!registry.descriptor_at(1).provides_handlers);

    // Initialisation is idempotent: registering the same configuration again
    // changes nothing.
    init_echo_server_module(EchoServerModuleConfig::default(), &mut registry).unwrap();
    assert_eq!(registry.len(), 2);
}
