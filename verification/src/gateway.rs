//! The service gateway factory: turns a connector resolution into a
//! uniformly typed gateway value.
//!
//! [`ServiceGateway`] is a closed sum over the supported paths — one variant
//! per concrete protocol — generic in the handler type `H` carried by the
//! direct variant.  The remote variants carry a connection descriptor; the
//! protocol adapter of each contract turns that descriptor into a typed
//! client outside this core.  The factory never panics on an unexpected
//! variant: a resolved protocol for which the caller supplied no constructor
//! is answered with [`Error::ProtocolNotImplemented`].

use vstd::prelude::*;

use crate::connector::{outcome_model, spec_lookup_trace, spec_resolve, PathModel, ResolvedPath,
    ServiceConnector};
use crate::errors::Error;
use crate::ids::{ModuleId, ServiceId};
use crate::protocol::Protocol;

verus! {

/// A descriptor of an established (or establishable) connection: the
/// transport and the resolved network address.  The transport adapter turns
/// it into a live channel.
#[derive(Debug)]
pub struct RemoteConnection {
    /// The transport the address was resolved for.
    pub protocol: Protocol,
    /// The network address the remote registry answered.
    pub address: String,
}

/// The mathematical value of a [`RemoteConnection`].
pub ghost struct RemoteConnectionModel {
    pub protocol: Protocol,
    pub address: Seq<char>,
}

impl View for RemoteConnection {
    type V = RemoteConnectionModel;

    open spec fn view(&self) -> RemoteConnectionModel {
        RemoteConnectionModel { protocol: self.protocol, address: self.address@ }
    }
}

/// The uniform handle a caller invokes a service through, whatever path was
/// chosen.
#[derive(Debug)]
pub enum ServiceGateway<H> {
    /// In-process invocation through the handler `H`.
    Direct(H),
    /// Remote invocation over the gRPC-like transport.
    Grpc(RemoteConnection),
    /// Remote invocation over the HTTP-like transport.
    Http(RemoteConnection),
}

/// The mathematical value of a [`ServiceGateway`].
pub ghost enum GatewayModel<H> {
    Direct(H),
    Grpc(RemoteConnectionModel),
    Http(RemoteConnectionModel),
}

impl<H> View for ServiceGateway<H> {
    type V = GatewayModel<H>;

    open spec fn view(&self) -> GatewayModel<H> {
        match self {
            ServiceGateway::Direct(h) => GatewayModel::Direct(*h),
            ServiceGateway::Grpc(c) => GatewayModel::Grpc(c@),
            ServiceGateway::Http(c) => GatewayModel::Http(c@),
        }
    }
}

impl<H> ServiceGateway<H> {
    /// The concrete protocol this gateway uses.
    pub fn protocol(&self) -> (r: Protocol)
        ensures
            r == (match self@ {
                GatewayModel::Direct(_) => Protocol::Direct,
                GatewayModel::Grpc(_) => Protocol::Grpc,
                GatewayModel::Http(_) => Protocol::Http,
            }),
    {
        match self {
            ServiceGateway::Direct(_) => Protocol::Direct,
            ServiceGateway::Grpc(_) => Protocol::Grpc,
            ServiceGateway::Http(_) => Protocol::Http,
        }
    }

    /// The direct handler, when this gateway takes the direct path.
    pub fn direct_handler(&self) -> (r: Option<&H>)
        ensures
            match r {
                Some(h) => self@ == GatewayModel::Direct(*h),
                None => !(self@ is Direct),
            },
    {
        match self {
            ServiceGateway::Direct(h) => Some(h),
            _ => None,
        }
    }

    /// The connection descriptor, when this gateway takes a remote path.
    pub fn connection(&self) -> (r: Option<&RemoteConnection>)
        ensures
            match r {
                Some(c) => self@ == GatewayModel::<H>::Grpc(c@) || self@ == GatewayModel::<H>::Http(c@),
                None => self@ is Direct,
            },
    {
        match self {
            ServiceGateway::Direct(_) => None,
            ServiceGateway::Grpc(c) => Some(c),
            ServiceGateway::Http(c) => Some(c),
        }
    }
}

impl RemoteConnection {
    /// Folds the transport layer's dialing outcome in: the descriptor when
    /// the connection to the resolved address was established, and
    /// [`Error::ConnectionFailed`] when it was not.
    pub fn established(self, connected: bool) -> (r: Result<RemoteConnection, Error>)
        ensures
            connected ==> r == Ok::<RemoteConnection, Error>(self),
            !connected ==> r == Err::<RemoteConnection, Error>(Error::ConnectionFailed),
    {
        if connected {
            Ok(self)
        } else {
            Err(Error::ConnectionFailed)
        }
    }
}

/// The per-protocol constructors a calling module supplies for one contract.
///
/// `direct` holds the locally stored handler and is populated only when one
/// is actually available.  The remote flags say whether the module's protocol
/// adapter can turn a connection descriptor for that transport into a typed
/// client.
#[derive(Clone, Copy)]
pub struct GatewayFactoryFuncs<H> {
    /// The handler the direct variant is built from, if the target module is
    /// locally satisfiable.
    pub direct: Option<H>,
    /// Whether a constructor for the gRPC-like transport is supplied.
    pub grpc: bool,
    /// Whether a constructor for the HTTP-like transport is supplied.
    pub http: bool,
}

/// The value of a gateway construction outcome.
pub open spec fn gateway_outcome_model<H>(r: Result<ServiceGateway<H>, Error>) -> Result<
    GatewayModel<H>,
    Error,
> {
    match r {
        Ok(g) => Ok(g@),
        Err(e) => Err(e),
    }
}

/// What the factory builds from a resolution: the matching variant, or
/// [`Error::ProtocolNotImplemented`] when the caller supplied no constructor
/// for the resolved protocol.
pub open spec fn spec_new_gateway<H>(
    funcs: GatewayFactoryFuncs<H>,
    resolution: Result<PathModel, Error>,
) -> Result<GatewayModel<H>, Error> {
    match resolution {
        Err(e) => Err(e),
        Ok(PathModel::Direct) => match funcs.direct {
            Some(h) => Ok(GatewayModel::Direct(h)),
            None => Err(Error::ProtocolNotImplemented),
        },
        Ok(PathModel::Remote { protocol, address }) => if protocol == Protocol::Grpc && funcs.grpc {
            Ok(GatewayModel::Grpc(RemoteConnectionModel { protocol, address }))
        } else if protocol == Protocol::Http && funcs.http {
            Ok(GatewayModel::Http(RemoteConnectionModel { protocol, address }))
        } else {
            Err(Error::ProtocolNotImplemented)
        },
    }
}

/// A gateway construction together with the remote lookups it took.
pub struct GatewayReport<H> {
    /// The built gateway, or why none could be built.
    pub outcome: Result<ServiceGateway<H>, Error>,
    /// The transports whose registry lookup was consulted, in order.
    pub lookups: Vec<Protocol>,
}

/// The mathematical value of a [`ServiceGatewayFactory`].
pub ghost struct FactoryModel<H> {
    pub module: Seq<char>,
    pub service: Seq<char>,
    pub funcs: GatewayFactoryFuncs<H>,
}

/// The generic gateway factory for one contract: the target coordinates and
/// the caller's per-protocol constructors.
///
/// It holds no mutable state, so it is safe to use repeatedly; two calls
/// with identical arguments against an unchanged connector build equal
/// gateways.
pub struct ServiceGatewayFactory<H> {
    module_id: ModuleId,
    service_id: ServiceId,
    funcs: GatewayFactoryFuncs<H>,
}

impl<H> View for ServiceGatewayFactory<H> {
    type V = FactoryModel<H>;

    closed spec fn view(&self) -> FactoryModel<H> {
        FactoryModel { module: self.module_id@, service: self.service_id@, funcs: self.funcs }
    }
}

impl<H: Copy> ServiceGatewayFactory<H> {
    /// A factory for `(module_id, service_id)` with the given constructors.
    pub fn new(module_id: ModuleId, service_id: ServiceId, funcs: GatewayFactoryFuncs<H>) -> (r:
        Self)
        ensures
            r@ == (FactoryModel { module: module_id@, service: service_id@, funcs }),
    {
        ServiceGatewayFactory { module_id, service_id, funcs }
    }

    /// Resolves the target through `connector` and builds the matching
    /// gateway variant, reporting every remote lookup performed on the way.
    pub fn new_service_gateway(&self, connector: &ServiceConnector, preference: Protocol) -> (r:
        GatewayReport<H>)
        ensures
            gateway_outcome_model(r.outcome) == spec_new_gateway(
                self@.funcs,
                spec_resolve(connector@, self@.module, preference),
            ),
            r.lookups@ == spec_lookup_trace(connector@, self@.module, preference),
    {
        let report = connector.resolve(&self.module_id, &self.service_id, preference);
        let outcome = match report.outcome {
            Err(e) => Err(e),
            Ok(ResolvedPath::DirectPath) => match &self.funcs.direct {
                Some(h) => Ok(ServiceGateway::Direct(*h)),
                None => Err(Error::ProtocolNotImplemented),
            },
            Ok(ResolvedPath::RemotePath { protocol, address }) => {
                if protocol == Protocol::Grpc && self.funcs.grpc {
                    Ok(ServiceGateway::Grpc(RemoteConnection { protocol, address }))
                } else if protocol == Protocol::Http && self.funcs.http {
                    Ok(ServiceGateway::Http(RemoteConnection { protocol, address }))
                } else {
                    Err(Error::ProtocolNotImplemented)
                }
            },
        };
        GatewayReport { outcome, lookups: report.lookups }
    }
}

/// Building a gateway is a function of the factory, the connector state and
/// the requested preference alone: two calls with identical arguments on an
/// unchanged connector yield equal gateways — in particular, two direct
/// gateways carry the same handler, and two remote gateways the same
/// connection descriptor.
pub proof fn lemma_gateway_idempotent<H>(
    funcs: GatewayFactoryFuncs<H>,
    resolution: Result<PathModel, Error>,
    r1: Result<GatewayModel<H>, Error>,
    r2: Result<GatewayModel<H>, Error>,
)
    requires
        r1 == spec_new_gateway(funcs, resolution),
        r2 == spec_new_gateway(funcs, resolution),
    ensures
        r1 == r2,
{
}

} // verus!
