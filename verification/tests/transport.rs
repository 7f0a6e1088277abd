use manx::connect::{advance, encrypted, first_stage, ConnectStage};
use manx::error::{ErrorKind, SessionError};
use manx::transport::{plan, plan_for, Channel, ConnectPlan};
use url::Url;

fn parts(host: &str, port: u16, scheme: &str, cert: Option<Vec<u8>>) -> Result<ConnectPlan, SessionError> {
    plan(Some(host.to_string()), Some(port), scheme.to_string(), cert)
}

#[test]
fn plain_scheme_gives_a_plain_plan() {
    assert_eq!(
        parts("example.com", 80, "ws", None),
        Ok(ConnectPlan { host: "example.com".to_string(), port: 80, channel: Channel::Plain })
    );
}

#[test]
fn plain_scheme_ignores_a_certificate() {
    assert_eq!(
        parts("example.com", 8080, "ws", Some(vec![1, 2])),
        Ok(ConnectPlan { host: "example.com".to_string(), port: 8080, channel: Channel::Plain })
    );
}

#[test]
fn encrypted_scheme_keeps_the_certificate() {
    assert_eq!(
        parts("example.com", 443, "wss", Some(vec![1, 2, 3])),
        Ok(ConnectPlan {
            host: "example.com".to_string(),
            port: 443,
            channel: Channel::Tls { certificate: vec![1, 2, 3] },
        })
    );
}

#[test]
fn encrypted_scheme_without_certificate_is_a_config_error() {
    let err = parts("host", 443, "wss", None).unwrap_err();
    assert_eq!(err.kind, ErrorKind::Config);
    assert_eq!(err.detail, "No certificate found for tls");
    assert_eq!(err.message(), "No certificate found for tls");
}

#[test]
fn other_schemes_are_unsupported() {
    for scheme in ["http", "https", "WS", "wsss", "w", ""] {
        let err = parts("host", 80, scheme, Some(vec![1])).unwrap_err();
        assert_eq!(err.kind, ErrorKind::UnsupportedScheme);
        assert_eq!(err.detail, "unsupported scheme");
    }
}

#[test]
fn other_schemes_are_unsupported_without_host_or_port() {
    let cases: [(Option<&str>, Option<u16>); 4] =
        [(None, None), (None, Some(80)), (Some("example.com"), None), (Some("example.com"), Some(70))];
    for scheme in ["gopher", "foo", "data", "mailto", "http"] {
        for (host, port) in cases {
            for cert in [None, Some(vec![1u8])] {
                let err =
                    plan(host.map(|h| h.to_string()), port, scheme.to_string(), cert).unwrap_err();
                assert_eq!(err.kind, ErrorKind::UnsupportedScheme);
                assert_eq!(err.detail, "unsupported scheme");
            }
        }
    }
}

#[test]
fn missing_host_cannot_be_resolved() {
    for scheme in ["ws", "wss"] {
        for port in [None, Some(80)] {
            let err = plan(None, port, scheme.to_string(), Some(vec![1])).unwrap_err();
            assert_eq!(err.kind, ErrorKind::Resolution);
            assert_eq!(err.detail, "Can't parse host");
        }
    }
}

#[test]
fn missing_port_cannot_be_resolved() {
    for scheme in ["ws", "wss"] {
        let err = plan(Some("host".to_string()), None, scheme.to_string(), None).unwrap_err();
        assert_eq!(err.kind, ErrorKind::Resolution);
        assert_eq!(err.detail, "Can't guess port");
    }
}

#[test]
fn url_with_default_port_is_planned() {
    let url = Url::parse("ws://example.com/chat").unwrap();
    assert_eq!(
        plan_for(&url, None),
        Ok(ConnectPlan { host: "example.com".to_string(), port: 80, channel: Channel::Plain })
    );
    let url = Url::parse("wss://example.com/chat").unwrap();
    assert_eq!(
        plan_for(&url, Some(vec![7])),
        Ok(ConnectPlan {
            host: "example.com".to_string(),
            port: 443,
            channel: Channel::Tls { certificate: vec![7] },
        })
    );
}

#[test]
fn url_with_written_port_is_planned() {
    let url = Url::parse("ws://127.0.0.1:9001").unwrap();
    assert_eq!(
        plan_for(&url, None),
        Ok(ConnectPlan { host: "127.0.0.1".to_string(), port: 9001, channel: Channel::Plain })
    );
}

#[test]
fn scenario_encrypted_url_without_certificate_fails_fast() {
    let url = Url::parse("wss://host").unwrap();
    let err = plan_for(&url, None).unwrap_err();
    assert_eq!(err.kind, ErrorKind::Config);
}

#[test]
fn url_with_other_scheme_is_refused() {
    for text in ["http://example.com", "http://host:80", "https://example.com:8443/x"] {
        let url = Url::parse(text).unwrap();
        let err = plan_for(&url, Some(vec![1])).unwrap_err();
        assert_eq!(err.kind, ErrorKind::UnsupportedScheme);
        assert_eq!(err.detail, "unsupported scheme");
    }
}

#[test]
fn url_with_other_scheme_and_no_host_is_unsupported() {
    for text in ["data:text/plain,hello", "mailto:someone@example.com"] {
        let url = Url::parse(text).unwrap();
        assert_eq!(url.host_str(), None);
        let err = plan_for(&url, None).unwrap_err();
        assert_eq!(err.kind, ErrorKind::UnsupportedScheme);
        assert_eq!(err.detail, "unsupported scheme");
    }
}

#[test]
fn url_with_other_scheme_and_no_known_port_is_unsupported() {
    for text in ["gopher://example.com", "foo://example.com"] {
        let url = Url::parse(text).unwrap();
        assert_eq!(url.port_or_known_default(), None);
        let err = plan_for(&url, None).unwrap_err();
        assert_eq!(err.kind, ErrorKind::UnsupportedScheme);
        assert_eq!(err.detail, "unsupported scheme");
    }
}

#[test]
fn url_of_a_supported_scheme_always_has_a_port() {
    for (text, port) in [("ws://example.com", 80), ("wss://example.com", 443), ("ws://h:1", 1)] {
        let url = Url::parse(text).unwrap();
        let plan = plan_for(&url, Some(vec![1])).unwrap();
        assert_eq!(plan.port, port);
    }
}

fn walk(encrypted: bool) -> Vec<ConnectStage> {
    let mut stage = first_stage();
    let mut seen = vec![stage];
    while stage != ConnectStage::Ready {
        stage = advance(stage, encrypted, Ok(())).unwrap();
        seen.push(stage);
    }
    seen
}

#[test]
fn plain_connection_takes_three_steps() {
    assert_eq!(
        walk(false),
        vec![
            ConnectStage::Resolving,
            ConnectStage::Opening,
            ConnectStage::Upgrading,
            ConnectStage::Ready
        ]
    );
}

#[test]
fn encrypted_connection_takes_five_steps() {
    assert_eq!(
        walk(true),
        vec![
            ConnectStage::Resolving,
            ConnectStage::Trusting,
            ConnectStage::Opening,
            ConnectStage::Securing,
            ConnectStage::Upgrading,
            ConnectStage::Ready,
        ]
    );
}

#[test]
fn ready_stays_ready() {
    assert_eq!(advance(ConnectStage::Ready, false, Ok(())), Ok(ConnectStage::Ready));
    assert_eq!(advance(ConnectStage::Ready, true, Ok(())), Ok(ConnectStage::Ready));
}

#[test]
fn each_step_fails_with_its_kind() {
    let cases = [
        (ConnectStage::Resolving, ErrorKind::Resolution),
        (ConnectStage::Trusting, ErrorKind::Tls),
        (ConnectStage::Opening, ErrorKind::Connect),
        (ConnectStage::Securing, ErrorKind::Tls),
        (ConnectStage::Upgrading, ErrorKind::Handshake),
        (ConnectStage::Ready, ErrorKind::Transport),
    ];
    for (stage, kind) in cases {
        for encrypted in [false, true] {
            let err = advance(stage, encrypted, Err("boom".to_string())).unwrap_err();
            assert_eq!(err, SessionError { kind, detail: "boom".to_string() });
        }
    }
}

#[test]
fn channels_know_whether_they_are_encrypted() {
    assert!(!encrypted(&Channel::Plain));
    assert!(encrypted(&Channel::Tls { certificate: Vec::new() }));
}

#[test]
fn error_messages_read_as_one_line() {
    let broken = SessionError::new(ErrorKind::Transport, "reset by peer".to_string());
    assert_eq!(broken.message(), "Connection Closed: reset by peer");
    assert_eq!(broken.kind, ErrorKind::Transport);
    let refused = SessionError::new(ErrorKind::Connect, "connection refused".to_string());
    assert_eq!(refused.message(), "connection refused");
    assert_eq!(SessionError::unsupported_scheme().message(), "unsupported scheme");
    assert_eq!(SessionError::invalid_utf8().kind, ErrorKind::Decode);
    assert_eq!(SessionError::missing_certificate().kind, ErrorKind::Config);
    assert_eq!(SessionError::missing_host().detail, "Can't parse host");
    assert_eq!(SessionError::missing_port().detail, "Can't guess port");
}
