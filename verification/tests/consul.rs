use balancer::config::{BalancerConfig, ConfigConsul, ConfigHttp};
use balancer::consul::client::{Body, Consul, KVResponse, Method, Request, ServiceResponse};
use balancer::consul::config::Config;
use balancer::consul::service::{AgentServiceRegister, ServiceCheck};
use balancer::consul::util::{decoded_text, deserialize_base64_string, ValueError};

fn app_config(port: u16) -> BalancerConfig {
    BalancerConfig {
        hostname: "node-1".to_string(),
        external_url: "https://lb.example.org".to_string(),
        consul: ConfigConsul {
            agent_url: "http://127.0.0.1:8500".to_string(),
            kv_prefix: "balancer/hosts".to_string(),
            service_name: "web".to_string(),
            service_address: "10.0.0.5".to_string(),
        },
        http: ConfigHttp { address: "0.0.0.0".to_string(), port, reverse_proxy: None },
    }
}

fn consul(port: u16) -> Consul {
    Consul::new(Config { address: "http://127.0.0.1:8500".to_string() }, app_config(port))
}

fn service(tags: [&str; 3], port: u16) -> AgentServiceRegister {
    AgentServiceRegister {
        name: "web".to_string(),
        id: Some("web/node-1".to_string()),
        tags: tags.iter().map(|t| t.to_string()).collect(),
        address: Some("10.0.0.5".to_string()),
        port: Some(port),
        checks: vec![ServiceCheck {
            name: "Check It's Still There".to_string(),
            http: format!("http://10.0.0.5:{}/healthz", port),
            interval: "10s".to_string(),
        }],
    }
}

#[test]
fn new_keeps_the_app_config() {
    assert_eq!(consul(3000).app_config(), &app_config(3000));
}

#[test]
fn make_request_joins_address_and_path() {
    assert_eq!(
        consul(3000).make_request(Method::Get, "/v1/anything"),
        Request {
            method: Method::Get,
            url: "http://127.0.0.1:8500/v1/anything".to_string(),
            body: Body::Empty,
        }
    );
    assert_eq!(
        consul(3000).make_request(Method::Put, ""),
        Request {
            method: Method::Put,
            url: "http://127.0.0.1:8500".to_string(),
            body: Body::Empty,
        }
    );
}

#[test]
fn status_leader_request() {
    assert_eq!(
        consul(3000).status_leader(),
        Request {
            method: Method::Get,
            url: "http://127.0.0.1:8500/v1/status/leader".to_string(),
            body: Body::Empty,
        }
    );
}

#[test]
fn get_kv_request() {
    assert_eq!(
        consul(3000).get_kv("balancer/hosts/node-1/eligible".to_string()),
        Request {
            method: Method::Get,
            url: "http://127.0.0.1:8500/v1/kv/balancer/hosts/node-1/eligible".to_string(),
            body: Body::Empty,
        }
    );
}

#[test]
fn put_kv_request_carries_the_raw_value() {
    assert_eq!(
        consul(3000).put_kv("balancer/hosts/node-1/eligible".to_string(), "TRUE".to_string()),
        Request {
            method: Method::Put,
            url: "http://127.0.0.1:8500/v1/kv/balancer/hosts/node-1/eligible".to_string(),
            body: Body::Text("TRUE".to_string()),
        }
    );
}

#[test]
fn get_self_request() {
    assert_eq!(
        consul(3000).get_self(),
        Request {
            method: Method::Get,
            url: "http://127.0.0.1:8500/v1/agent/service/web/node-1".to_string(),
            body: Body::Empty,
        }
    );
}

#[test]
fn register_service_active_and_eligible() {
    assert_eq!(
        consul(3000).register_service(true, true),
        Request {
            method: Method::Put,
            url: "http://127.0.0.1:8500/v1/agent/service/register".to_string(),
            body: Body::Service(service(["live", "active", "eligible"], 3000)),
        }
    );
}

#[test]
fn register_service_tags_for_each_state() {
    let tags_of = |active: bool, eligible: bool| match consul(3000)
        .register_service(active, eligible)
        .body
    {
        Body::Service(service) => service.tags,
        other => panic!("no service descriptor: {:?}", other),
    };
    assert_eq!(tags_of(true, true), vec!["live", "active", "eligible"]);
    assert_eq!(tags_of(true, false), vec!["live", "active", "ineligible"]);
    assert_eq!(tags_of(false, true), vec!["live", "backup", "eligible"]);
    assert_eq!(tags_of(false, false), vec!["live", "backup", "ineligible"]);
}

#[test]
fn register_service_is_the_same_request_every_time() {
    let client = consul(8080);
    assert_eq!(client.register_service(false, true), client.register_service(false, true));
}

#[test]
fn register_service_health_check_names_the_port() {
    for port in [0u16, 9, 80, 8080, 65535] {
        assert_eq!(
            consul(port).register_service(false, false).body,
            Body::Service(service(["live", "backup", "ineligible"], port))
        );
    }
}

#[test]
fn default_service_is_empty() {
    assert_eq!(
        AgentServiceRegister::default(),
        AgentServiceRegister {
            name: String::new(),
            id: None,
            tags: Vec::new(),
            address: None,
            port: None,
            checks: Vec::new(),
        }
    );
}

#[test]
fn responses_clone_equal() {
    let entry = KVResponse { key: "k".to_string(), value: "TRUE".to_string() };
    assert_eq!(entry.clone(), entry);
    let response = ServiceResponse { tags: vec!["live".to_string(), "backup".to_string()] };
    assert_eq!(response.clone(), response);
    let empty = ServiceResponse { tags: Vec::new() };
    assert_eq!(empty.clone(), empty);
    let config = Config { address: "http://127.0.0.1:8500".to_string() };
    assert_eq!(config.clone(), config);
}

#[test]
fn deserialize_base64_string_decodes_the_flag_values() {
    assert_eq!(deserialize_base64_string("VFJVRQ=="), Ok("TRUE".to_string()));
    assert_eq!(deserialize_base64_string("RkFMU0U="), Ok("FALSE".to_string()));
}

#[test]
fn deserialize_base64_string_decodes_other_text() {
    assert_eq!(deserialize_base64_string(""), Ok(String::new()));
    assert_eq!(deserialize_base64_string("aGVsbG8gd29ybGQ="), Ok("hello world".to_string()));
    assert_eq!(deserialize_base64_string("w6l0w6k="), Ok("\u{e9}t\u{e9}".to_string()));
    assert_eq!(deserialize_base64_string("Pz8/"), Ok("???".to_string()));
}

#[test]
fn deserialize_base64_string_rejects_what_is_not_base64() {
    assert_eq!(deserialize_base64_string("TRUE!"), Err(ValueError::NotBase64));
    assert_eq!(deserialize_base64_string("VFJVRQ"), Err(ValueError::NotBase64));
    assert_eq!(deserialize_base64_string("VFJVRQ=="), Ok("TRUE".to_string()));
    assert_eq!(deserialize_base64_string("VFJVRQ==\n"), Err(ValueError::NotBase64));
    assert_eq!(deserialize_base64_string("Pz8_"), Err(ValueError::NotBase64));
    assert_eq!(deserialize_base64_string("VFJVRR=="), Err(ValueError::NotBase64));
    assert_eq!(deserialize_base64_string("="), Err(ValueError::NotBase64));
}

#[test]
fn deserialize_base64_string_rejects_what_is_not_text() {
    // "//4=" encodes the bytes ff fe.
    assert_eq!(deserialize_base64_string("//4="), Err(ValueError::NotUtf8));
    // "wyg=" encodes c3 28, a broken two-byte sequence.
    assert_eq!(deserialize_base64_string("wyg="), Err(ValueError::NotUtf8));
}

#[test]
fn decoded_text_of_each_outcome() {
    assert_eq!(decoded_text(None), Err(ValueError::NotBase64));
    assert_eq!(decoded_text(Some(Vec::new())), Ok(String::new()));
    assert_eq!(decoded_text(Some(b"TRUE".to_vec())), Ok("TRUE".to_string()));
    assert_eq!(decoded_text(Some(vec![0xe2, 0x82, 0xac])), Ok("\u{20ac}".to_string()));
    assert_eq!(decoded_text(Some(vec![0xff])), Err(ValueError::NotUtf8));
    assert_eq!(decoded_text(Some(vec![0xed, 0xa0, 0x80])), Err(ValueError::NotUtf8));
    assert_eq!(decoded_text(Some(vec![0xc0, 0x80])), Err(ValueError::NotUtf8));
}
