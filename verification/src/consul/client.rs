//! The registry client: it describes each call as a [`Request`] for a driver
//! to send, and names the values that the answers decode to.

use crate::config::{BalancerConfig, BalancerConfigView};
use crate::consul::config::{Config, ConfigView};
use crate::consul::service::{
    AgentServiceRegister,
    AgentServiceRegisterView,
    ServiceCheck,
    ServiceCheckView,
};
use crate::text::{decimal, decimal_string};
use vstd::prelude::*;
use vstd::string::*;

verus! {

/// One entry of the key-value store, its value decoded to plain text.
#[derive(Debug, PartialEq, Eq)]
pub struct KVResponse {
    pub key: String,
    pub value: String,
}

/// The mathematical value of a [`KVResponse`].
pub struct KVResponseView {
    pub key: Seq<char>,
    pub value: Seq<char>,
}

impl View for KVResponse {
    type V = KVResponseView;

    open spec fn view(&self) -> KVResponseView {
        KVResponseView { key: self.key@, value: self.value@ }
    }
}

impl DeepView for KVResponse {
    type V = KVResponseView;

    open spec fn deep_view(&self) -> KVResponseView {
        self@
    }
}

impl Clone for KVResponse {
    fn clone(&self) -> (copy: Self)
        ensures
            copy@ == self@,
    {
        KVResponse { key: self.key.clone(), value: self.value.clone() }
    }
}

/// What the registry reports of this node's service entry: its tags. Their
/// order carries no meaning.
#[derive(Debug, PartialEq, Eq)]
pub struct ServiceResponse {
    pub tags: Vec<String>,
}

impl View for ServiceResponse {
    type V = Seq<Seq<char>>;

    /// The tags, in the order reported.
    open spec fn view(&self) -> Seq<Seq<char>> {
        self.tags.deep_view()
    }
}

impl DeepView for ServiceResponse {
    type V = Seq<Seq<char>>;

    open spec fn deep_view(&self) -> Seq<Seq<char>> {
        self@
    }
}

impl Clone for ServiceResponse {
    fn clone(&self) -> (copy: Self)
        ensures
            copy@ == self@,
    {
        let mut tags: Vec<String> = Vec::new();
        let mut i: usize = 0;
        while i < self.tags.len()
            invariant
                i <= self.tags.len(),
                tags.len() == i,
                forall|j: int| 0 <= j < i ==> tags@[j]@ == self.tags@[j]@,
            decreases self.tags.len() - i,
        {
            tags.push(self.tags[i].clone());
            i = i + 1;
        }
        assert(tags.deep_view() =~= self.tags.deep_view());
        ServiceResponse { tags }
    }
}

/// The HTTP methods that the client uses.
#[derive(Clone, Copy, Debug, PartialEq, Eq, Structural)]
pub enum Method {
    Get,
    Put,
}

/// What a request carries.
#[derive(Debug, PartialEq, Eq)]
pub enum Body {
    Empty,
    /// The text itself, sent as it is.
    Text(String),
    /// A service descriptor, sent as JSON.
    Service(AgentServiceRegister),
}

/// The mathematical value of a [`Body`].
pub enum BodyView {
    Empty,
    Text(Seq<char>),
    Service(AgentServiceRegisterView),
}

impl View for Body {
    type V = BodyView;

    open spec fn view(&self) -> BodyView {
        match self {
            Body::Empty => BodyView::Empty,
            Body::Text(text) => BodyView::Text(text@),
            Body::Service(service) => BodyView::Service(service@),
        }
    }
}

/// A call to the registry, ready to be sent.
#[derive(Debug, PartialEq, Eq)]
pub struct Request {
    pub method: Method,
    pub url: String,
    pub body: Body,
}

/// The mathematical value of a [`Request`].
pub struct RequestView {
    pub method: Method,
    pub url: Seq<char>,
    pub body: BodyView,
}

impl View for Request {
    type V = RequestView;

    open spec fn view(&self) -> RequestView {
        RequestView { method: self.method, url: self.url@, body: self.body@ }
    }
}

/// The tags that a registration carries for a node that is `active` or not
/// and `eligible` or not: `live` always, then one of `active` and `backup`,
/// then one of `eligible` and `ineligible`.
pub open spec fn service_tags(active: bool, eligible: bool) -> Seq<Seq<char>> {
    seq![
        "live"@,
        if active {
            "active"@
        } else {
            "backup"@
        },
        if eligible {
            "eligible"@
        } else {
            "ineligible"@
        },
    ]
}

/// The mathematical value of a [`Consul`]: the two configurations it holds.
pub struct ConsulView {
    pub config: ConfigView,
    pub app_config: BalancerConfigView,
}

impl ConsulView {
    /// A request for `path` at the registry's address.
    pub open spec fn make_request(self, method: Method, path: Seq<char>) -> RequestView {
        RequestView { method, url: self.config.address + path, body: BodyView::Empty }
    }

    /// Asks which server leads the registry's cluster.
    pub open spec fn status_leader(self) -> RequestView {
        self.make_request(Method::Get, "/v1/status/leader"@)
    }

    /// Asks for the entries stored at `path`.
    pub open spec fn get_kv(self, path: Seq<char>) -> RequestView {
        self.make_request(Method::Get, "/v1/kv/"@ + path)
    }

    /// Stores `value` at `path`.
    pub open spec fn put_kv(self, path: Seq<char>, value: Seq<char>) -> RequestView {
        RequestView {
            body: BodyView::Text(value),
            ..self.make_request(Method::Put, "/v1/kv/"@ + path)
        }
    }

    /// Asks for this node's own service entry.
    pub open spec fn get_self(self) -> RequestView {
        self.make_request(
            Method::Get,
            "/v1/agent/service/"@ + self.app_config.consul.service_name + "/"@
                + self.app_config.hostname,
        )
    }

    /// The health check of this node's service: the registry fetches
    /// `/healthz` from the advertised address and the listen port.
    pub open spec fn health_check(self) -> ServiceCheckView {
        ServiceCheckView {
            name: "Check It's Still There"@,
            http: "http://"@ + self.app_config.consul.service_address + ":"@ + decimal(
                self.app_config.http.port as nat,
            ) + "/healthz"@,
            interval: "10s"@,
        }
    }

    /// The descriptor that registers this node as `active` or not and
    /// `eligible` or not.
    pub open spec fn service(self, active: bool, eligible: bool) -> AgentServiceRegisterView {
        AgentServiceRegisterView {
            name: self.app_config.consul.service_name,
            id: Some(self.app_config.consul.service_name + "/"@ + self.app_config.hostname),
            tags: service_tags(active, eligible),
            address: Some(self.app_config.consul.service_address),
            port: Some(self.app_config.http.port),
            checks: seq![self.health_check()],
        }
    }

    /// Replaces this node's service entry.
    pub open spec fn register_service(self, active: bool, eligible: bool) -> RequestView {
        RequestView {
            body: BodyView::Service(self.service(active, eligible)),
            ..self.make_request(Method::Put, "/v1/agent/service/register"@)
        }
    }
}

/// The registry client. It holds no connection: each method describes one
/// call, and none of them retries.
pub struct Consul {
    config: Config,
    app_config: BalancerConfig,
}

impl View for Consul {
    type V = ConsulView;

    closed spec fn view(&self) -> ConsulView {
        ConsulView { config: self.config@, app_config: self.app_config@ }
    }
}

impl Consul {
    pub fn new(config: Config, app_config: BalancerConfig) -> (consul: Self)
        ensures
            consul@ == (ConsulView { config: config@, app_config: app_config@ }),
    {
        Consul { config, app_config }
    }

    /// The configuration of the node that this client registers.
    pub fn app_config(&self) -> (app_config: &BalancerConfig)
        ensures
            app_config@ == self@.app_config,
    {
        &self.app_config
    }

    /// A request without a body for `path` at the registry's address.
    pub fn make_request(&self, method: Method, path: &str) -> (request: Request)
        ensures
            request@ == self@.make_request(method, path@),
    {
        let mut url = self.config.address.clone();
        url.append(path);
        Request { method, url, body: Body::Empty }
    }

    /// Asks which server leads the registry's cluster. The answer is a JSON
    /// string.
    pub fn status_leader(&self) -> (request: Request)
        ensures
            request@ == self@.status_leader(),
    {
        self.make_request(Method::Get, "/v1/status/leader")
    }

    /// Asks for the entries stored at `path`. The answer is a JSON array of
    /// entries, each value base64-encoded; none or one is expected.
    pub fn get_kv(&self, path: String) -> (request: Request)
        ensures
            request@ == self@.get_kv(path@),
    {
        let mut full = String::from_str("/v1/kv/");
        full.append(path.as_str());
        self.make_request(Method::Get, full.as_str())
    }

    /// Stores `value` at `path`. The answer is a JSON boolean: whether the
    /// registry stored it.
    pub fn put_kv(&self, path: String, value: String) -> (request: Request)
        ensures
            request@ == self@.put_kv(path@, value@),
    {
        let mut full = String::from_str("/v1/kv/");
        full.append(path.as_str());
        let request = self.make_request(Method::Put, full.as_str());
        Request { method: request.method, url: request.url, body: Body::Text(value) }
    }

    /// Asks for this node's own service entry. The answer is a JSON object
    /// that holds the entry's tags.
    pub fn get_self(&self) -> (request: Request)
        ensures
            request@ == self@.get_self(),
    {
        let mut path = String::from_str("/v1/agent/service/");
        path.append(self.app_config.consul.service_name.as_str());
        path.append("/");
        path.append(self.app_config.hostname.as_str());
        self.make_request(Method::Get, path.as_str())
    }

    /// Replaces this node's service entry by one with the tags for `active`
    /// and `eligible`, the advertised address and port, and the health
    /// check. Sending the same request again changes nothing further. Only
    /// the status code of the answer matters.
    pub fn register_service(&self, active: bool, eligible: bool) -> (request: Request)
        ensures
            request@ == self@.register_service(active, eligible),
    {
        let hostname = &self.app_config.hostname;
        let service_name = &self.app_config.consul.service_name;

        let mut tags: Vec<String> = Vec::new();
        tags.push(String::from_str("live"));
        if active {
            tags.push(String::from_str("active"));
        } else {
            tags.push(String::from_str("backup"));
        }
        if eligible {
            tags.push(String::from_str("eligible"));
        } else {
            tags.push(String::from_str("ineligible"));
        }
        assert(tags.deep_view() =~= service_tags(active, eligible));

        let service_address = &self.app_config.consul.service_address;
        let service_port = self.app_config.http.port;

        let mut http = String::from_str("http://");
        http.append(service_address.as_str());
        http.append(":");
        http.append(decimal_string(service_port).as_str());
        http.append("/healthz");
        let http_check = ServiceCheck {
            http,
            interval: String::from_str("10s"),
            name: String::from_str("Check It's Still There"),
        };

        let mut id = service_name.clone();
        id.append("/");
        id.append(hostname.as_str());

        let mut checks: Vec<ServiceCheck> = Vec::new();
        checks.push(http_check);
        assert(checks.deep_view() =~= seq![self@.health_check()]);

        let service = AgentServiceRegister {
            name: service_name.clone(),
            id: Some(id),
            address: Some(service_address.clone()),
            port: Some(service_port),
            tags,
            checks,
        };

        let request = self.make_request(Method::Put, "/v1/agent/service/register");
        Request { method: request.method, url: request.url, body: Body::Service(service) }
    }
}

} // verus!
