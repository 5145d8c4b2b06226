//! The records exchanged with the API, and their mathematical views.
//!
//! Field names follow the wire names of the API, which is why they are not in
//! snake case.
use vstd::prelude::*;

verus! {

/// A cluster member.
#[derive(Debug)]
pub struct Node {
    pub Node: String,
    pub Address: String,
}

/// A registered service instance.
#[derive(Debug)]
pub struct Service {
    pub ID: String,
    pub Service: String,
    pub Tags: Option<Vec<String>>,
    pub Port: u32,
}

/// A node paired with one of its services, as health queries report them.
#[derive(Debug)]
pub struct HealthService {
    pub Node: Node,
    pub Service: Service,
}

/// A health check attached to a service registration.
///
/// One of `ttl`, `http` and `script` is expected to be set; the type does not
/// enforce it.
#[derive(Debug)]
pub struct Check {
    pub ttl: Option<String>,
    pub interval: String,
    pub http: Option<String>,
    pub script: Option<String>,
    pub DeregisterCriticalServiceAfter: String,
}

/// The payload that registers a service with the local agent.
#[derive(Debug)]
pub struct RegisterService {
    pub ID: String,
    pub Name: String,
    pub Tags: Vec<String>,
    pub Port: u16,
    pub Address: String,
    pub Check: Option<Check>,
}

/// A TTL-based health check record.
#[derive(Debug)]
pub struct TtlHealthCheck {
    pub ServiceID: String,
    pub ID: String,
    pub Name: String,
    pub Notes: String,
    pub TTL: String,
}

/// View of a [`Node`].
pub struct NodeView {
    pub Node: Seq<char>,
    pub Address: Seq<char>,
}

/// View of a [`Service`].
pub struct ServiceView {
    pub ID: Seq<char>,
    pub Service: Seq<char>,
    pub Tags: Option<Seq<Seq<char>>>,
    pub Port: nat,
}

/// View of a [`HealthService`].
pub struct HealthServiceView {
    pub Node: NodeView,
    pub Service: ServiceView,
}

/// View of a [`Check`].
pub struct CheckView {
    pub ttl: Option<Seq<char>>,
    pub interval: Seq<char>,
    pub http: Option<Seq<char>>,
    pub script: Option<Seq<char>>,
    pub DeregisterCriticalServiceAfter: Seq<char>,
}

/// View of a [`RegisterService`].
pub struct RegisterServiceView {
    pub ID: Seq<char>,
    pub Name: Seq<char>,
    pub Tags: Seq<Seq<char>>,
    pub Port: nat,
    pub Address: Seq<char>,
    pub Check: Option<CheckView>,
}

/// View of a [`TtlHealthCheck`].
pub struct TtlHealthCheckView {
    pub ServiceID: Seq<char>,
    pub ID: Seq<char>,
    pub Name: Seq<char>,
    pub Notes: Seq<char>,
    pub TTL: Seq<char>,
}

/// The texts of a list of strings.
pub open spec fn texts(items: Seq<String>) -> Seq<Seq<char>> {
    Seq::new(items.len(), |i: int| items[i]@)
}

/// The text of an optional string.
pub open spec fn optional_text(item: Option<String>) -> Option<Seq<char>> {
    match item {
        Some(s) => Some(s@),
        None => None,
    }
}

impl View for Node {
    type V = NodeView;

    open spec fn view(&self) -> NodeView {
        NodeView { Node: self.Node@, Address: self.Address@ }
    }
}

impl View for Service {
    type V = ServiceView;

    open spec fn view(&self) -> ServiceView {
        ServiceView {
            ID: self.ID@,
            Service: self.Service@,
            Tags: match self.Tags {
                Some(tags) => Some(texts(tags@)),
                None => None,
            },
            Port: self.Port as nat,
        }
    }
}

impl View for HealthService {
    type V = HealthServiceView;

    open spec fn view(&self) -> HealthServiceView {
        HealthServiceView { Node: self.Node@, Service: self.Service@ }
    }
}

impl View for Check {
    type V = CheckView;

    open spec fn view(&self) -> CheckView {
        CheckView {
            ttl: optional_text(self.ttl),
            interval: self.interval@,
            http: optional_text(self.http),
            script: optional_text(self.script),
            DeregisterCriticalServiceAfter: self.DeregisterCriticalServiceAfter@,
        }
    }
}

impl View for RegisterService {
    type V = RegisterServiceView;

    open spec fn view(&self) -> RegisterServiceView {
        RegisterServiceView {
            ID: self.ID@,
            Name: self.Name@,
            Tags: texts(self.Tags@),
            Port: self.Port as nat,
            Address: self.Address@,
            Check: match self.Check {
                Some(check) => Some(check@),
                None => None,
            },
        }
    }
}

impl View for TtlHealthCheck {
    type V = TtlHealthCheckView;

    open spec fn view(&self) -> TtlHealthCheckView {
        TtlHealthCheckView {
            ServiceID: self.ServiceID@,
            ID: self.ID@,
            Name: self.Name@,
            Notes: self.Notes@,
            TTL: self.TTL@,
        }
    }
}

} // verus!
