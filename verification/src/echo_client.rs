//! The echo client: a module that consumes the echo service through the
//! gateway provider, plus the registration wiring for both echo modules.
//!
//! Registration is an explicit bootstrap step: the embedder calls the init
//! functions with the capability registry it owns, and the runtime later
//! consumes the registry in registration order.

use vstd::prelude::*;

use crate::connector::{spec_resolve, ServiceConnector};
use crate::echo::{echo_funcs, new_echo_service_gateways, EchoGatewaysModel,
    EchoServiceGatewaysImpl, EchoServiceHandle, EchoServiceHandlers, EchoServiceImpl,
    ServiceGatewayEchoExt};
use crate::errors::Error;
use crate::gateway::{spec_new_gateway, GatewayModel};
use crate::ids::ModuleId;
use crate::protocol::Protocol;
use crate::registry::{spec_register, CapabilityRegistry, DescriptorModel, ModuleDescriptor};

verus! {

/// The client module's service provider: it owns the gateway provider
/// through which the client reaches the echo service.
pub struct EchoClientServiceProvider {
    gateways: EchoServiceGatewaysImpl,
}

impl View for EchoClientServiceProvider {
    type V = EchoGatewaysModel;

    closed spec fn view(&self) -> EchoGatewaysModel {
        self.gateways@
    }
}

impl EchoClientServiceProvider {
    /// Creates the provider with a fresh echo gateway provider.  The target
    /// module identifier is intrinsic to the echo integration code, not a
    /// parameter.
    pub fn new() -> (r: Self)
        ensures
            r@.module == "echo"@,
            r@.handlers is None,
    {
        EchoClientServiceProvider { gateways: new_echo_service_gateways() }
    }

    /// The gateway provider.
    pub fn get_gateways(&self) -> (r: &EchoServiceGatewaysImpl)
        ensures
            r@ == self@,
    {
        &self.gateways
    }

    /// Stores direct handlers in the owned gateway provider.
    pub fn enable_direct_closure(&mut self, handlers: EchoServiceHandlers)
        ensures
            final(self)@.module == old(self)@.module,
            final(self)@.handlers == Some(handlers),
    {
        self.gateways.enable_direct_closure(handlers);
    }
}

/// The mathematical value of an [`EchoClientModule`].
pub ghost struct ClientModuleModel {
    pub id: Seq<char>,
    pub gateways: EchoGatewaysModel,
    pub message: Seq<char>,
}

/// What the client's start hook computes from the gateway it obtained: the
/// echoed message on the direct path, nothing yet on a remote path — the
/// remote call itself belongs to the transport client — and the gateway
/// error otherwise.
pub open spec fn spec_client_start(
    gw: Result<GatewayModel<EchoServiceImpl>, Error>,
    message: Seq<char>,
) -> Result<Option<Seq<char>>, Error> {
    match gw {
        Err(e) => Err(e),
        Ok(GatewayModel::Direct(_)) => Ok(Some(message)),
        Ok(GatewayModel::Grpc(_)) => Ok(None),
        Ok(GatewayModel::Http(_)) => Err(Error::ProtocolNotImplemented),
    }
}

/// The echo client module: on start it asks for an echo gateway with
/// automatic protocol selection and, when the service is in-process, calls
/// it.
pub struct EchoClientModule {
    id: ModuleId,
    service_provider: EchoClientServiceProvider,
    message: String,
}

impl View for EchoClientModule {
    type V = ClientModuleModel;

    closed spec fn view(&self) -> ClientModuleModel {
        ClientModuleModel {
            id: self.id@,
            gateways: self.service_provider@,
            message: self.message@,
        }
    }
}

impl EchoClientModule {
    /// Creates the client module around its service provider and the
    /// message it will send.
    pub fn new(service_provider: EchoClientServiceProvider, message: String) -> (r: Self)
        ensures
            r@.id == "echo-client"@,
            r@.gateways == service_provider@,
            r@.message == message@,
    {
        EchoClientModule { id: ModuleId::from_name("echo-client"), service_provider, message }
    }

    /// The module's identifier.
    pub fn id(&self) -> (r: &ModuleId)
        ensures
            r@ == self@.id,
    {
        &self.id
    }

    /// Starts the module: obtains an echo gateway with `Auto` selection and
    /// calls the service when the direct path was chosen.  Returns the
    /// echoed response on the direct path and `None` when the call is a
    /// remote one for the transport client to carry.
    pub fn start(&mut self, connector: &ServiceConnector) -> (r: Result<Option<String>, Error>)
        ensures
            final(self)@ == old(self)@,
            (match r {
                Ok(Some(s)) => Ok(Some(s@)),
                Ok(None) => Ok(None),
                Err(e) => Err(e),
            }) == spec_client_start(
                spec_new_gateway(
                    echo_funcs(old(self)@.gateways),
                    spec_resolve(connector@, old(self)@.gateways.module, Protocol::Auto),
                ),
                old(self)@.message,
            ),
    {
        let report = self.service_provider.gateways.get_service(connector, Protocol::Auto);
        match report.outcome {
            Err(e) => Err(e),
            Ok(gw) => match gw.as_echo_service() {
                Err(e) => Err(e),
                Ok(handle) => match handle {
                    EchoServiceHandle::Local(_) => {
                        match handle.echo_local(self.message.clone()) {
                            Ok(response) => Ok(Some(response)),
                            Err(e) => Err(e),
                        }
                    },
                    EchoServiceHandle::Remote(_) => Ok(None),
                },
            },
        }
    }

    /// Stops the module.
    pub fn stop(&mut self) -> (r: Result<(), Error>)
        ensures
            r == Ok::<(), Error>(()),
            final(self)@ == old(self)@,
    {
        Ok(())
    }
}

/// Configuration of the echo client module: its identifier in the registry.
pub struct EchoClientModuleConfig {
    /// The identifier the module registers under.
    pub module_id: ModuleId,
}

impl Default for EchoClientModuleConfig {
    fn default() -> (r: Self)
        ensures
            r.module_id@ == "echo-client"@,
    {
        EchoClientModuleConfig { module_id: ModuleId::from_name("echo-client") }
    }
}

/// Configuration of the echo server module: its identifier in the registry.
pub struct EchoServerModuleConfig {
    /// The identifier the module registers under.
    pub module_id: ModuleId,
}

impl Default for EchoServerModuleConfig {
    fn default() -> (r: Self)
        ensures
            r.module_id@ == "echo"@,
    {
        EchoServerModuleConfig { module_id: ModuleId::from_name("echo") }
    }
}

/// The descriptor the client registers: no hosted services, no handlers
/// registrar, no direct closure.
pub open spec fn client_descriptor_model() -> DescriptorModel {
    DescriptorModel {
        service_ids: Seq::<Seq<char>>::empty(),
        provides_handlers: false,
        enables_direct_closure: false,
    }
}

/// The descriptor the server registers: it hosts the echo service, takes
/// part in handler registration and enables the direct closure.
pub open spec fn server_descriptor_model() -> DescriptorModel {
    DescriptorModel {
        service_ids: seq!["echo-service"@],
        provides_handlers: true,
        enables_direct_closure: true,
    }
}

/// Creates the client's service provider.
pub fn create_service_provider() -> (r: EchoClientServiceProvider)
    ensures
        r@.module == "echo"@,
        r@.handlers is None,
{
    EchoClientServiceProvider::new()
}

/// Creates the client module from its service provider.  The client hosts
/// no services, so there is no handler set beside it.
pub fn create_module(service_provider: EchoClientServiceProvider) -> (r: EchoClientModule)
    ensures
        r@.id == "echo-client"@,
        r@.gateways == service_provider@,
        r@.message == "Hello from Rust client!"@,
{
    EchoClientModule::new(service_provider, "Hello from Rust client!".to_owned())
}

/// Registers the echo client module's descriptor.  Registering the same
/// configuration twice is a no-op; a conflicting registration under the
/// same identifier is rejected.
pub fn init_echo_client_module(config: EchoClientModuleConfig, registry: &mut CapabilityRegistry)
    -> (r: Result<(), Error>)
    requires
        old(registry).wf(),
    ensures
        final(registry).wf(),
        final(registry)@ == spec_register(old(registry)@, config.module_id@,
            client_descriptor_model()).0,
        r == spec_register(old(registry)@, config.module_id@, client_descriptor_model()).1,
{
    let descriptor = ModuleDescriptor {
        service_ids: Vec::new(),
        provides_handlers: false,
        enables_direct_closure: false,
    };
    proof {
        assert(descriptor@.service_ids =~= client_descriptor_model().service_ids);
    }
    registry.register(config.module_id, descriptor)
}

/// Registers the echo server module's descriptor.
pub fn init_echo_server_module(config: EchoServerModuleConfig, registry: &mut CapabilityRegistry)
    -> (r: Result<(), Error>)
    requires
        old(registry).wf(),
    ensures
        final(registry).wf(),
        final(registry)@ == spec_register(old(registry)@, config.module_id@,
            server_descriptor_model()).0,
        r == spec_register(old(registry)@, config.module_id@, server_descriptor_model()).1,
{
    let mut service_ids: Vec<crate::ids::ServiceId> = Vec::new();
    service_ids.push(crate::ids::ServiceId::from_name("echo-service"));
    let descriptor = ModuleDescriptor {
        service_ids,
        provides_handlers: true,
        enables_direct_closure: true,
    };
    proof {
        assert(descriptor@.service_ids =~= server_descriptor_model().service_ids);
    }
    registry.register(config.module_id, descriptor)
}

} // verus!
