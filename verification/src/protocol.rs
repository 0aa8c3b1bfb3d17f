//! The closed set of transport preferences, and the configured priority order
//! that automatic selection follows.

use vstd::prelude::*;

verus! {

/// A transport preference.
///
/// `Auto` is never a concrete resolved protocol: it is resolved to exactly one
/// concrete member before a gateway is built.
#[derive(Clone, Copy, PartialEq, Eq, Structural, Debug)]
pub enum Protocol {
    /// Defer the concrete choice to the connector's policy.
    Auto,
    /// Same-process invocation.
    Direct,
    /// A gRPC-like remote transport.
    Grpc,
    /// An HTTP-like remote transport.
    Http,
}

impl Protocol {
    /// A protocol that reaches a remote peer over the network.
    pub open spec fn is_transport(self) -> bool {
        self == Protocol::Grpc || self == Protocol::Http
    }

    /// A protocol the connector may hand to a gateway: anything but `Auto`.
    pub open spec fn is_concrete(self) -> bool {
        self != Protocol::Auto
    }
}

/// The priority order in which automatic selection tries remote transports.
///
/// The order is explicit configuration, not guessed from registration order.
pub struct ConnectorConfig {
    priority: Vec<Protocol>,
}

impl View for ConnectorConfig {
    type V = Seq<Protocol>;

    closed spec fn view(&self) -> Seq<Protocol> {
        self.priority@
    }
}

/// Every listed protocol is a remote transport and none repeats.
pub open spec fn priority_wf(order: Seq<Protocol>) -> bool {
    &&& forall|i: int| 0 <= i < order.len() ==> (#[trigger] order[i]).is_transport()
    &&& forall|i: int, j: int| 0 <= i < j < order.len() ==> order[i] != order[j]
}

impl ConnectorConfig {
    /// Every listed protocol is a remote transport and none repeats.
    pub open spec fn wf(&self) -> bool {
        priority_wf(self@)
    }

    /// The default order: prefer the gRPC-like transport, then the HTTP-like
    /// one.
    pub fn standard() -> (r: Self)
        ensures
            r@ == seq![Protocol::Grpc, Protocol::Http],
            r.wf(),
    {
        let priority: Vec<Protocol> = vec![Protocol::Grpc, Protocol::Http];
        proof {
            assert(priority@ =~= seq![Protocol::Grpc, Protocol::Http]);
        }
        ConnectorConfig { priority }
    }

    /// Accepts a custom priority order, or rejects one that names `Auto` or
    /// `Direct` or repeats a transport.
    pub fn try_new(priority: Vec<Protocol>) -> (r: Option<Self>)
        ensures
            match r {
                Some(c) => c@ == priority@ && c.wf(),
                None => !priority_wf(priority@),
            },
    {
        let n = priority.len();
        let mut i: usize = 0;
        while i < n
            invariant
                0 <= i <= n,
                n == priority@.len(),
                forall|k: int| 0 <= k < i ==> (#[trigger] priority@[k]).is_transport(),
                forall|k: int, l: int| 0 <= k < l < i ==> priority@[k] != priority@[l],
            decreases n - i,
        {
            let p = priority[i];
            if !(p == Protocol::Grpc || p == Protocol::Http) {
                return None;
            }
            let mut j: usize = 0;
            while j < i
                invariant
                    0 <= j <= i < n,
                    n == priority@.len(),
                    p == priority@[i as int],
                    forall|k: int| 0 <= k < j ==> priority@[k] != p,
                decreases i - j,
            {
                if priority[j] == p {
                    return None;
                }
                j += 1;
            }
            i += 1;
        }
        Some(ConnectorConfig { priority })
    }

    /// The configured order.
    pub fn priority(&self) -> (r: &Vec<Protocol>)
        ensures
            r@ == self@,
    {
        &self.priority
    }

    /// How many transports are configured.
    pub fn len(&self) -> (r: usize)
        ensures
            r == self@.len(),
    {
        self.priority.len()
    }
}

} // verus!
