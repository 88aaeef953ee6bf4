//! The service descriptor that a registration carries.

use vstd::prelude::*;

verus! {

/// A health check that the registry runs against the service over HTTP.
#[derive(Debug, PartialEq, Eq)]
pub struct ServiceCheck {
    pub name: String,
    /// The URL that the registry fetches.
    pub http: String,
    /// How often the registry runs the check, such as `10s`.
    pub interval: String,
}

/// The mathematical value of a [`ServiceCheck`].
pub struct ServiceCheckView {
    pub name: Seq<char>,
    pub http: Seq<char>,
    pub interval: Seq<char>,
}

impl View for ServiceCheck {
    type V = ServiceCheckView;

    open spec fn view(&self) -> ServiceCheckView {
        ServiceCheckView { name: self.name@, http: self.http@, interval: self.interval@ }
    }
}

impl DeepView for ServiceCheck {
    type V = ServiceCheckView;

    open spec fn deep_view(&self) -> ServiceCheckView {
        self@
    }
}

/// A full description of one service instance. Registering it replaces
/// whatever the registry held for the same `id`.
#[derive(Debug, PartialEq, Eq)]
pub struct AgentServiceRegister {
    pub name: String,
    pub id: Option<String>,
    pub tags: Vec<String>,
    pub address: Option<String>,
    pub port: Option<u16>,
    pub checks: Vec<ServiceCheck>,
}

/// The mathematical value of an [`AgentServiceRegister`].
pub struct AgentServiceRegisterView {
    pub name: Seq<char>,
    pub id: Option<Seq<char>>,
    pub tags: Seq<Seq<char>>,
    pub address: Option<Seq<char>>,
    pub port: Option<u16>,
    pub checks: Seq<ServiceCheckView>,
}

impl View for AgentServiceRegister {
    type V = AgentServiceRegisterView;

    open spec fn view(&self) -> AgentServiceRegisterView {
        AgentServiceRegisterView {
            name: self.name@,
            id: self.id.deep_view(),
            tags: self.tags.deep_view(),
            address: self.address.deep_view(),
            port: self.port,
            checks: self.checks.deep_view(),
        }
    }
}

impl Default for AgentServiceRegister {
    /// A descriptor with an empty name and nothing else.
    fn default() -> (service: Self)
        ensures
            service@ == (AgentServiceRegisterView {
                name: Seq::empty(),
                id: None,
                tags: Seq::empty(),
                address: None,
                port: None,
                checks: Seq::empty(),
            }),
    {
        let service = AgentServiceRegister {
            name: String::new(),
            id: None,
            tags: Vec::new(),
            address: None,
            port: None,
            checks: Vec::new(),
        };
        assert(service.tags.deep_view() =~= Seq::empty());
        assert(service.checks.deep_view() =~= Seq::empty());
        service
    }
}

} // verus!
