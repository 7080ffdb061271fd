use publisher::config::{otlp_endpoint, rabbit_settings, ConfigError, DEFAULT_LOG_FILTER};

fn s(v: &str) -> Option<String> {
    Some(v.to_string())
}

#[test]
fn rabbit_settings_default_when_unset() {
    let settings = rabbit_settings(None, None, None, None).ok().unwrap();
    assert_eq!(settings.host, "localhost");
    assert_eq!(settings.port, 5672);
    assert_eq!(settings.user, "guest");
    assert_eq!(settings.password, "guest");
}

#[test]
fn rabbit_settings_take_configured_values() {
    let settings = rabbit_settings(s("rabbit"), s("5671"), s("svc"), s("SECRET-REDACTED")).ok().unwrap();
    assert_eq!(settings.host, "rabbit");
    assert_eq!(settings.port, 5671);
    assert_eq!(settings.user, "svc");
    assert_eq!(settings.password, "SECRET-REDACTED");
}

#[test]
fn rabbit_port_parsing() {
    let port = |p: &str| rabbit_settings(None, s(p), None, None).ok().map(|x| x.port);
    assert_eq!(port("+80"), Some(80));
    assert_eq!(port("0"), Some(0));
    assert_eq!(port("00080"), Some(80));
    assert_eq!(port("65535"), Some(65535));
    assert_eq!(port("65536"), None);
    assert_eq!(port(""), None);
    assert_eq!(port("+"), None);
    assert_eq!(port("-1"), None);
    assert_eq!(port(" 80"), None);
    assert_eq!(port("80 "), None);
    assert_eq!(port("8o"), None);
}

#[test]
fn invalid_port_is_refused_with_message() {
    match rabbit_settings(None, s("amqp"), None, None) {
        Err(e) => {
            assert_eq!(e.message(), "RABBITMQ_PORT must be a valid u16");
            match e {
                ConfigError::InvalidRabbitPort(cause) => {
                    assert_eq!(cause.to_string(), "invalid digit found in string")
                }
            }
        }
        Ok(_) => panic!("a non-numeric port must be refused"),
    }
}

#[test]
fn otlp_endpoint_defaults_to_local_collector() {
    assert_eq!(otlp_endpoint(None), "http://localhost:4317");
    assert_eq!(otlp_endpoint(s("http://otel:4317")), "http://otel:4317");
    assert_eq!(DEFAULT_LOG_FILTER, "app=debug,tower_http=debug,axum::rejection=trace");
}

#[test]
fn invalid_port_keeps_the_parse_cause() {
    let cause = |p: &str| match rabbit_settings(None, s(p), None, None) {
        Err(ConfigError::InvalidRabbitPort(c)) => c.kind().clone(),
        Ok(_) => panic!("{p} must be refused"),
    };
    assert_eq!(cause(""), std::num::IntErrorKind::Empty);
    assert_eq!(cause("70000"), std::num::IntErrorKind::PosOverflow);
    assert_eq!(cause("x1"), std::num::IntErrorKind::InvalidDigit);
}
