use balancer::config::{BalancerConfig, ConfigConsul, ConfigHttp};
use balancer::util::{
    eligibility_status_code, get_listen_host, json_status_response, status_envelope,
    StatusEnvelope,
};
use std::sync::Arc;

fn config(address: &str, port: u16) -> Arc<BalancerConfig> {
    Arc::new(BalancerConfig {
        hostname: "node-1".to_string(),
        external_url: "https://lb.example.org".to_string(),
        consul: ConfigConsul {
            agent_url: "http://127.0.0.1:8500".to_string(),
            kv_prefix: "balancer/hosts".to_string(),
            service_name: "web".to_string(),
            service_address: "10.0.0.5".to_string(),
        },
        http: ConfigHttp { address: address.to_string(), port, reverse_proxy: None },
    })
}

#[test]
fn get_listen_host_joins_address_and_port() {
    assert_eq!(get_listen_host(config("0.0.0.0", 3000)), "0.0.0.0:3000");
    assert_eq!(get_listen_host(config("127.0.0.1", 80)), "127.0.0.1:80");
    assert_eq!(get_listen_host(config("[::1]", 65535)), "[::1]:65535");
    assert_eq!(get_listen_host(config("", 0)), ":0");
}

#[test]
fn eligibility_status_code_is_200_or_418() {
    assert_eq!(eligibility_status_code(true), 200);
    assert_eq!(eligibility_status_code(false), 418);
}

#[test]
fn json_status_response_for_an_eligible_node() {
    assert_eq!(
        json_status_response(eligibility_status_code(true)),
        StatusEnvelope { ok: true, code: 200, msg: Some("OK".to_string()) }
    );
}

#[test]
fn json_status_response_for_an_ineligible_node() {
    assert_eq!(
        json_status_response(eligibility_status_code(false)),
        StatusEnvelope { ok: false, code: 418, msg: Some("I'm a teapot".to_string()) }
    );
}

#[test]
fn json_status_response_of_other_codes() {
    assert_eq!(
        json_status_response(404),
        StatusEnvelope { ok: false, code: 404, msg: Some("Not Found".to_string()) }
    );
    assert_eq!(
        json_status_response(500),
        StatusEnvelope { ok: false, code: 500, msg: Some("Internal Server Error".to_string()) }
    );
    assert_eq!(
        json_status_response(204),
        StatusEnvelope { ok: true, code: 204, msg: Some("No Content".to_string()) }
    );
    assert_eq!(
        json_status_response(100),
        StatusEnvelope { ok: false, code: 100, msg: Some("Continue".to_string()) }
    );
}

#[test]
fn json_status_response_of_a_code_without_phrase() {
    assert_eq!(json_status_response(299), StatusEnvelope { ok: true, code: 299, msg: None });
    assert_eq!(json_status_response(199), StatusEnvelope { ok: false, code: 199, msg: None });
    assert_eq!(json_status_response(300 + 99), StatusEnvelope { ok: false, code: 399, msg: None });
    assert_eq!(json_status_response(999), StatusEnvelope { ok: false, code: 999, msg: None });
}

#[test]
fn json_status_response_of_what_is_no_status_code() {
    assert_eq!(json_status_response(0), StatusEnvelope { ok: false, code: 0, msg: None });
    assert_eq!(json_status_response(99), StatusEnvelope { ok: false, code: 99, msg: None });
    assert_eq!(json_status_response(1000), StatusEnvelope { ok: false, code: 1000, msg: None });
    assert_eq!(
        json_status_response(u16::MAX),
        StatusEnvelope { ok: false, code: u16::MAX, msg: None }
    );
}

#[test]
fn json_status_response_agrees_with_hyper() {
    for code in 100..=999u16 {
        let status = hyper::StatusCode::from_u16(code).unwrap();
        assert_eq!(
            json_status_response(code),
            StatusEnvelope {
                ok: status.is_success(),
                code: status.as_u16(),
                msg: status.canonical_reason().map(|phrase| phrase.to_string()),
            }
        );
    }
}

#[test]
fn status_envelope_takes_the_phrase_it_is_given() {
    assert_eq!(
        status_envelope(200, Some("Fine".to_string())),
        StatusEnvelope { ok: true, code: 200, msg: Some("Fine".to_string()) }
    );
    assert_eq!(status_envelope(200, None), StatusEnvelope { ok: true, code: 200, msg: None });
    assert_eq!(
        status_envelope(300, Some("x".to_string())),
        StatusEnvelope { ok: false, code: 300, msg: Some("x".to_string()) }
    );
    assert_eq!(
        status_envelope(50, Some("x".to_string())),
        StatusEnvelope { ok: false, code: 50, msg: None }
    );
}
