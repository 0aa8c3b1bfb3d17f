//! The echo service: a minimal module built on the runtime.
//!
//! The echo contract answers every message with itself.  This module holds
//! the domain implementation, the handler bundle, the server-side module
//! types, the gateway provider through which callers reach the service, the
//! handlers registrar and the direct-closure enabler — the whole of one
//! service's integration with the core.

use vstd::prelude::*;

use crate::connector::{spec_lookup_trace, spec_resolve, ServiceConnector};
use crate::errors::Error;
use crate::gateway::{gateway_outcome_model, spec_new_gateway, GatewayFactoryFuncs, GatewayModel,
    GatewayReport, RemoteConnection, RemoteConnectionModel, ServiceGateway, ServiceGatewayFactory};
use crate::ids::{ModuleId, ServiceId};
use crate::protocol::Protocol;
use crate::registrar::{register_handlers_with, registration_post, ProtocolServerHandle,
    RegistrationReport};

verus! {

/// The echo service implementation: pure domain logic, no protocol
/// knowledge.
#[derive(Clone, Copy, Debug)]
pub struct EchoServiceImpl {}

impl EchoServiceImpl {
    /// Creates a new echo service.
    pub fn new() -> (r: Self)
        ensures
            r == (EchoServiceImpl {}),
    {
        EchoServiceImpl {}
    }

    /// Echoes the input message back unchanged.
    pub fn echo(&self, message: String) -> (r: Result<String, Error>)
        ensures
            r == Ok::<String, Error>(message),
    {
        Ok(message)
    }
}

impl Default for EchoServiceImpl {
    fn default() -> (r: Self)
        ensures
            r == (EchoServiceImpl {}),
    {
        EchoServiceImpl::new()
    }
}

/// The handler bundle the echo module hands to registration and to the
/// direct-closure registry: one field per hosted service.
#[derive(Clone, Copy, Debug)]
pub struct EchoServiceHandlers {
    /// The echo service implementation.
    pub service: EchoServiceImpl,
}

impl EchoServiceHandlers {
    /// Bundles the given service implementation.
    pub fn new(service: EchoServiceImpl) -> (r: Self)
        ensures
            r.service == service,
    {
        EchoServiceHandlers { service }
    }
}

/// The closed union of handler types the runtime can host: one variant per
/// service contract.
#[derive(Clone, Copy, Debug)]
pub enum ServiceHandler {
    /// A handler for the echo contract.
    Echo(EchoServiceImpl),
}

/// The services a module hosts, keyed by service identifier.
pub struct ServiceHandlersMap {
    entries: Vec<(ServiceId, ServiceHandler)>,
}

impl View for ServiceHandlersMap {
    type V = Seq<(Seq<char>, ServiceHandler)>;

    closed spec fn view(&self) -> Seq<(Seq<char>, ServiceHandler)> {
        self.entries@.map_values(|e: (ServiceId, ServiceHandler)| (e.0@, e.1))
    }
}

/// Whether the map binds the service identifier `s`.
pub open spec fn handlers_map_contains(m: Seq<(Seq<char>, ServiceHandler)>, s: Seq<char>) -> bool {
    exists|i: int| 0 <= i < m.len() && (#[trigger] m[i]).0 == s
}

impl ServiceHandlersMap {
    /// An empty map.
    pub fn new() -> (r: Self)
        ensures
            r@ == Seq::<(Seq<char>, ServiceHandler)>::empty(),
    {
        let r = ServiceHandlersMap { entries: Vec::new() };
        proof {
            assert(r@ =~= Seq::<(Seq<char>, ServiceHandler)>::empty());
        }
        r
    }

    /// Binds `service` to `handler`.
    pub fn insert(&mut self, service: ServiceId, handler: ServiceHandler)
        ensures
            final(self)@ == old(self)@.push((service@, handler)),
    {
        let ghost pre = self@;
        self.entries.push((service, handler));
        proof {
            assert(self@ =~= pre.push((self.entries@.last().0@, self.entries@.last().1)));
        }
    }

    /// How many services are bound.
    pub fn len(&self) -> (r: usize)
        ensures
            r == self@.len(),
    {
        self.entries.len()
    }

    /// Whether `service` is bound.
    pub fn contains_key(&self, service: &ServiceId) -> (r: bool)
        ensures
            r == handlers_map_contains(self@, service@),
    {
        let n = self.entries.len();
        let mut i: usize = 0;
        while i < n
            invariant
                0 <= i <= n,
                n == self.entries@.len(),
                self@.len() == n,
                forall|k: int| 0 <= k < i ==> (#[trigger] self@[k]).0 != service@,
            decreases n - i,
        {
            assert(self@[i as int].0 == self.entries@[i as int].0@);
            if &self.entries[i].0 == service {
                assert(handlers_map_contains(self@, service@));
                return true;
            }
            i += 1;
        }
        false
    }
}

/// The echo module: identity, hosted services, and lifecycle hooks.
pub struct EchoModule {
    id: ModuleId,
    service: EchoServiceImpl,
    gateway_factory: Option<ServiceGatewayFactory<EchoServiceImpl>>,
}

impl EchoModule {
    /// Creates the echo module with its service implementation.  The
    /// gateway factory is injected by the runtime before start.
    pub fn new() -> (r: Self)
        ensures
            r.spec_id() == "echo"@,
            !r.spec_has_gateway_factory(),
    {
        EchoModule {
            id: ModuleId::from_name("echo"),
            service: EchoServiceImpl::new(),
            gateway_factory: None,
        }
    }

    /// Whether the runtime has injected a gateway factory yet.
    pub closed spec fn spec_has_gateway_factory(&self) -> bool {
        self.gateway_factory is Some
    }

    /// Whether the runtime has injected a gateway factory.
    pub fn has_gateway_factory(&self) -> (r: bool)
        ensures
            r == self.spec_has_gateway_factory(),
    {
        self.gateway_factory.is_some()
    }

    /// Injects the gateway factory through which this module would call
    /// other modules' services.
    pub fn set_service_gateway_factory(&mut self, factory: ServiceGatewayFactory<EchoServiceImpl>)
        ensures
            final(self).spec_id() == old(self).spec_id(),
            final(self).spec_has_gateway_factory(),
    {
        self.gateway_factory = Some(factory);
    }

    /// The value of the module's identifier.
    pub closed spec fn spec_id(&self) -> Seq<char> {
        self.id@
    }

    /// The module's identifier.
    pub fn id(&self) -> (r: &ModuleId)
        ensures
            r@ == self.spec_id(),
    {
        &self.id
    }

    /// The services this module hosts: the echo service, under
    /// `"echo-service"`.
    pub fn service_handlers_map(&self) -> (r: Option<ServiceHandlersMap>)
        ensures
            match r {
                Some(m) => m@.len() == 1 && m@[0].0 == "echo-service"@ && m@[0].1
                    == ServiceHandler::Echo(EchoServiceImpl {}),
                None => false,
            },
    {
        let mut map = ServiceHandlersMap::new();
        map.insert(ServiceId::from_name("echo-service"), ServiceHandler::Echo(self.service));
        Some(map)
    }

    /// Starts the module.  The echo service needs no resources, so the hook
    /// only reports success.
    pub fn start(&mut self) -> (r: Result<(), Error>)
        ensures
            r == Ok::<(), Error>(()),
            *final(self) == *old(self),
    {
        Ok(())
    }

    /// Stops the module.
    pub fn stop(&mut self) -> (r: Result<(), Error>)
        ensures
            r == Ok::<(), Error>(()),
            *final(self) == *old(self),
    {
        Ok(())
    }
}

impl Default for EchoModule {
    fn default() -> (r: Self)
        ensures
            r.spec_id() == "echo"@,
    {
        EchoModule::new()
    }
}

/// The server module's service provider.  The server side hands out
/// handlers for registration and needs no gateways of its own.
#[derive(Clone, Copy, Debug)]
pub struct EchoServerServiceProvider {}

/// The echo server module: the module-layer wrapper the runtime drives.
pub struct EchoServerModule {
    id: ModuleId,
    service_provider: EchoServerServiceProvider,
}

impl EchoServerModule {
    /// Creates the server module around its service provider.
    pub fn new(service_provider: EchoServerServiceProvider) -> (r: Self)
        ensures
            r.spec_id() == "echo"@,
    {
        EchoServerModule { id: ModuleId::from_name("echo"), service_provider }
    }

    /// The value of the module's identifier.
    pub closed spec fn spec_id(&self) -> Seq<char> {
        self.id@
    }

    /// The module's identifier.
    pub fn id(&self) -> (r: &ModuleId)
        ensures
            r@ == self.spec_id(),
    {
        &self.id
    }

    /// Starts the module; its handlers are registered beforehand, so the
    /// hook only reports readiness.
    pub fn start(&mut self) -> (r: Result<(), Error>)
        ensures
            r == Ok::<(), Error>(()),
            *final(self) == *old(self),
    {
        let _ = &self.service_provider;
        Ok(())
    }

    /// Stops the module.
    pub fn stop(&mut self) -> (r: Result<(), Error>)
        ensures
            r == Ok::<(), Error>(()),
            *final(self) == *old(self),
    {
        Ok(())
    }
}

/// The per-contract constructor tag for the gRPC-like transport: supplying
/// it to a gateway configuration says the echo contract can be reached over
/// that transport.
#[derive(Clone, Copy, Debug)]
pub struct EchoGrpcGatewayFactory;

impl EchoGrpcGatewayFactory {
    /// Creates a new factory instance.
    pub fn new() -> (r: Self)
        ensures
            r == EchoGrpcGatewayFactory,
    {
        EchoGrpcGatewayFactory
    }
}

impl Default for EchoGrpcGatewayFactory {
    fn default() -> (r: Self)
        ensures
            r == EchoGrpcGatewayFactory,
    {
        EchoGrpcGatewayFactory::new()
    }
}

/// A typed handle on the echo service, extracted from a gateway: either the
/// in-process implementation or the connection a transport client is built
/// from.
pub enum EchoServiceHandle {
    /// The locally hosted implementation.
    Local(EchoServiceImpl),
    /// A remote connection descriptor for a transport client.
    Remote(RemoteConnection),
}

/// The mathematical value of an [`EchoServiceHandle`].
pub ghost enum EchoHandleModel {
    Local(EchoServiceImpl),
    Remote(RemoteConnectionModel),
}

impl View for EchoServiceHandle {
    type V = EchoHandleModel;

    open spec fn view(&self) -> EchoHandleModel {
        match self {
            EchoServiceHandle::Local(s) => EchoHandleModel::Local(*s),
            EchoServiceHandle::Remote(c) => EchoHandleModel::Remote(c@),
        }
    }
}

impl EchoServiceHandle {
    /// Invokes the echo service when the handle is local; a remote handle
    /// must go through its transport client instead and is answered with
    /// [`Error::NotLocallyAvailable`] here.
    pub fn echo_local(&self, message: String) -> (r: Result<String, Error>)
        ensures
            self@ is Local ==> r == Ok::<String, Error>(message),
            self@ is Remote ==> r == Err::<String, Error>(Error::NotLocallyAvailable),
    {
        match self {
            EchoServiceHandle::Local(s) => s.echo(message),
            EchoServiceHandle::Remote(_) => Err(Error::NotLocallyAvailable),
        }
    }

    /// The connection descriptor, when the handle is remote.
    pub fn connection(&self) -> (r: Option<&RemoteConnection>)
        ensures
            match r {
                Some(c) => self@ == EchoHandleModel::Remote(c@),
                None => self@ is Local,
            },
    {
        match self {
            EchoServiceHandle::Local(_) => None,
            EchoServiceHandle::Remote(c) => Some(c),
        }
    }
}

/// What extracting the echo contract from a gateway yields: the local
/// handler or the remote connection; the HTTP-like transport has no echo
/// client yet.
pub open spec fn spec_as_echo_service(g: GatewayModel<EchoServiceImpl>) -> Result<
    EchoHandleModel,
    Error,
> {
    match g {
        GatewayModel::Direct(h) => Ok(EchoHandleModel::Local(h)),
        GatewayModel::Grpc(c) => Ok(EchoHandleModel::Remote(c)),
        GatewayModel::Http(_) => Err(Error::ProtocolNotImplemented),
    }
}

/// Extension of [`ServiceGateway`] with the echo-contract accessor, so call
/// sites read protocol-agnostically.
pub trait ServiceGatewayEchoExt {
    /// Extracts an echo service handle, whatever protocol the gateway uses.
    fn as_echo_service(&self) -> Result<EchoServiceHandle, Error>;
}

impl ServiceGatewayEchoExt for ServiceGateway<EchoServiceImpl> {
    /// Maps the gateway's variant to a typed echo handle.
    fn as_echo_service(&self) -> (r: Result<EchoServiceHandle, Error>)
        ensures
            match r {
                Ok(h) => spec_as_echo_service(self@) == Ok::<EchoHandleModel, Error>(h@),
                Err(e) => spec_as_echo_service(self@) == Err::<EchoHandleModel, Error>(e),
            },
    {
        match self {
            ServiceGateway::Direct(h) => Ok(EchoServiceHandle::Local(*h)),
            ServiceGateway::Grpc(c) => Ok(
                EchoServiceHandle::Remote(
                    RemoteConnection { protocol: c.protocol, address: c.address.clone() },
                ),
            ),
            ServiceGateway::Http(_) => Err(Error::ProtocolNotImplemented),
        }
    }
}

/// The mathematical value of an [`EchoServiceGatewaysImpl`].
pub ghost struct EchoGatewaysModel {
    pub module: Seq<char>,
    pub handlers: Option<EchoServiceHandlers>,
}

/// The constructors the echo gateway provider supplies: the stored direct
/// handler when the direct closure is enabled, and a client constructor for
/// the gRPC-like transport.
pub open spec fn echo_funcs(m: EchoGatewaysModel) -> GatewayFactoryFuncs<EchoServiceImpl> {
    GatewayFactoryFuncs {
        direct: match m.handlers {
            Some(h) => Some(h.service),
            None => None,
        },
        grpc: true,
        http: false,
    }
}

/// The gateway provider for the echo contract: callers obtain a typed
/// gateway to the echo module through it, without naming a protocol.
pub struct EchoServiceGatewaysImpl {
    module_id: ModuleId,
    service_handlers: Option<EchoServiceHandlers>,
}

impl View for EchoServiceGatewaysImpl {
    type V = EchoGatewaysModel;

    closed spec fn view(&self) -> EchoGatewaysModel {
        EchoGatewaysModel { module: self.module_id@, handlers: self.service_handlers }
    }
}

impl EchoServiceGatewaysImpl {
    /// A provider for the module `module_id`, with no direct handlers yet.
    pub fn new(module_id: ModuleId) -> (r: Self)
        ensures
            r@.module == module_id@,
            r@.handlers is None,
    {
        EchoServiceGatewaysImpl { module_id, service_handlers: None }
    }

    /// The target module's identifier.
    pub fn module_id(&self) -> (r: ModuleId)
        ensures
            r@ == self@.module,
    {
        self.module_id.duplicate()
    }

    /// The service identifiers this provider reaches.
    pub fn service_ids(&self) -> (r: Vec<ServiceId>)
        ensures
            r@.len() == 1,
            r@[0]@ == "service"@,
    {
        let mut r: Vec<ServiceId> = Vec::new();
        r.push(ServiceId::from_name("service"));
        r
    }

    /// Stores the handlers for direct (in-process) calls; later gateways
    /// for `Direct` — and `Auto`, once the connector knows the module is
    /// local — carry them.
    pub fn enable_direct_closure(&mut self, handlers: EchoServiceHandlers)
        ensures
            final(self)@.module == old(self)@.module,
            final(self)@.handlers == Some(handlers),
    {
        self.service_handlers = Some(handlers);
    }

    /// Builds a typed gateway to the echo service over the preferred
    /// protocol, reporting every remote lookup taken on the way.
    pub fn get_service(&self, connector: &ServiceConnector, protocol: Protocol) -> (r:
        GatewayReport<EchoServiceImpl>)
        ensures
            gateway_outcome_model(r.outcome) == spec_new_gateway(
                echo_funcs(self@),
                spec_resolve(connector@, self@.module, protocol),
            ),
            r.lookups@ == spec_lookup_trace(connector@, self@.module, protocol),
    {
        let direct_handler = match &self.service_handlers {
            Some(h) => Some(h.service),
            None => None,
        };
        let factory = ServiceGatewayFactory::new(
            self.module_id.duplicate(),
            ServiceId::from_name("service"),
            GatewayFactoryFuncs { direct: direct_handler, grpc: true, http: false },
        );
        factory.new_service_gateway(connector, protocol)
    }
}

/// Creates the gateway provider for the echo module.  The target identifier
/// is fixed: this provider is the echo contract's own integration code, and
/// knowing its module is its identity, not configuration.
pub fn new_echo_service_gateways() -> (r: EchoServiceGatewaysImpl)
    ensures
        r@.module == "echo"@,
        r@.handlers is None,
{
    EchoServiceGatewaysImpl::new(ModuleId::from_name("echo"))
}

/// The handlers registrar for the echo contract: registers the echo
/// handlers with every active protocol server.
pub struct EchoHandlersRegistrar {
    protocol_servers: Vec<ProtocolServerHandle>,
}

impl View for EchoHandlersRegistrar {
    type V = Seq<ProtocolServerHandle>;

    closed spec fn view(&self) -> Seq<ProtocolServerHandle> {
        self.protocol_servers@
    }
}

impl EchoHandlersRegistrar {
    /// A registrar over the given active protocol servers.
    pub fn new(protocol_servers: Vec<ProtocolServerHandle>) -> (r: Result<Self, Error>)
        ensures
            match r {
                Ok(g) => g@ == protocol_servers@,
                Err(_) => false,
            },
    {
        Ok(EchoHandlersRegistrar { protocol_servers })
    }

    /// Registers the echo handlers with every server, `outcomes[i]` being
    /// server `i`'s accept/reject answer from the transport layer.
    ///
    /// The echo contract has a server adapter for the gRPC-like transport
    /// only; a server of another transport is reported as a failure, never
    /// silently skipped.  The report carries the successful part of the map
    /// and the first failure.
    pub fn register_handlers(&self, handlers: EchoServiceHandlers, outcomes: &Vec<bool>) -> (r:
        RegistrationReport)
        requires
            outcomes@.len() == self@.len(),
            forall|i: int, j: int|
                0 <= i < j < self@.len() ==> (#[trigger] self@[i]).protocol != (
                #[trigger] self@[j]).protocol,
        ensures
            r.registered.wf(),
            registration_post(
                self@,
                seq![Protocol::Grpc],
                seq!["service"@],
                outcomes@,
                r.registered@,
                r.first_error,
            ),
    {
        let _ = &handlers;
        let mut supported: Vec<Protocol> = Vec::new();
        supported.push(Protocol::Grpc);
        let mut services: Vec<ServiceId> = Vec::new();
        services.push(ServiceId::from_name("service"));
        proof {
            assert(supported@ =~= seq![Protocol::Grpc]);
            assert(services@.map_values(|s: ServiceId| s@) =~= seq!["service"@]);
        }
        register_handlers_with(&self.protocol_servers, &supported, &services, outcomes)
    }
}

/// Creates an echo handlers registrar over the given protocol servers.
pub fn new_echo_handlers_registrar(protocol_servers: Vec<ProtocolServerHandle>) -> (r: Result<
    EchoHandlersRegistrar,
    Error,
>)
    ensures
        match r {
            Ok(g) => g@ == protocol_servers@,
            Err(_) => false,
        },
{
    EchoHandlersRegistrar::new(protocol_servers)
}

/// Enables the direct closure for the echo module: marks the module as
/// locally satisfiable with the connector, and stores the handlers in the
/// gateway provider, so later `Auto` and `Direct` gateways for it resolve
/// in-process.
///
/// Returns whether the connector entry was newly written; a repeated call
/// leaves the connector's first entry in place.
pub fn echo_direct_closure_enabler(
    connector: &mut ServiceConnector,
    gateways: &mut EchoServiceGatewaysImpl,
    handlers: EchoServiceHandlers,
) -> (r: bool)
    requires
        old(connector).wf(),
    ensures
        final(connector).wf(),
        final(connector)@.registry == old(connector)@.registry,
        final(connector)@.priority == old(connector)@.priority,
        r == !crate::direct::spec_is_local(old(connector)@.direct, old(gateways)@.module),
        !r ==> final(connector)@.direct == old(connector)@.direct,
        crate::direct::spec_is_local(final(connector)@.direct, old(gateways)@.module),
        final(gateways)@.module == old(gateways)@.module,
        final(gateways)@.handlers == Some(handlers),
{
    let module_id = gateways.module_id();
    let service_ids = gateways.service_ids();
    let r = connector.enable_direct_closure(module_id, service_ids);
    gateways.enable_direct_closure(handlers);
    r
}

} // verus!
