use kafka_pump::cli::Action;
use kafka_pump::cli::Args;
use kafka_pump::cli::ListenFlags;
use kafka_pump::cli::ProduceFlags;
use kafka_pump::cli::SecurityProtocol;

fn base_args() -> Args {
    Args {
        action: Action::Produce(ProduceFlags {
            file: "payload.json".to_string(),
            topic: "events".to_string(),
            key: None,
            iterations: Some(5),
        }),
        kafka_log_level: 6,
        brokers: vec!["localhost:9092".to_string()],
        security_protocol: None,
        sasl_username: None,
        sasl_password: None,
        sasl_mechanism: None,
    }
}

#[test]
fn to_map_is_empty_without_security_options() {
    let args = base_args();
    assert_eq!(args.to_map(), Vec::<(String, String)>::new());
}

#[test]
fn to_map_collects_every_given_option_in_order() {
    let mut args = base_args();
    args.sasl_username = Some("user".to_string());
    args.sasl_password = Some("SECRET-REDACTED".to_string());
    args.sasl_mechanism = Some("PLAIN".to_string());
    args.security_protocol = Some(SecurityProtocol::SaslSsl);
    assert_eq!(
        args.to_map(),
        vec![
            ("sasl.username".to_string(), "user".to_string()),
            ("sasl.password".to_string(), "SECRET-REDACTED".to_string()),
            ("sasl.mechanism".to_string(), "PLAIN".to_string()),
            ("security.protocol".to_string(), "SASL_SSL".to_string()),
        ]
    );
}

#[test]
fn to_map_skips_what_was_not_given() {
    let mut args = base_args();
    args.sasl_mechanism = Some("SCRAM-SHA-256".to_string());
    args.security_protocol = Some(SecurityProtocol::Plaintext);
    assert_eq!(
        args.to_map(),
        vec![
            ("sasl.mechanism".to_string(), "SCRAM-SHA-256".to_string()),
            ("security.protocol".to_string(), "PLAINTEXT".to_string()),
        ]
    );
}

#[test]
fn protocol_parses_each_name() {
    assert_eq!(
        SecurityProtocol::from_str("PLAINTEXT"),
        Ok(SecurityProtocol::Plaintext)
    );
    assert_eq!(SecurityProtocol::from_str("SSL"), Ok(SecurityProtocol::Ssl));
    assert_eq!(
        SecurityProtocol::from_str("SASL_PLAINTEXT"),
        Ok(SecurityProtocol::SaslPlaintext)
    );
    assert_eq!(
        SecurityProtocol::from_str("SASL_SSL"),
        Ok(SecurityProtocol::SaslSsl)
    );
}

#[test]
fn protocol_rejects_other_names() {
    assert_eq!(
        SecurityProtocol::from_str("ssl"),
        Err("Invalid security protocol: ssl".to_string())
    );
    assert_eq!(
        SecurityProtocol::from_str(""),
        Err("Invalid security protocol: ".to_string())
    );
}

#[test]
fn protocol_round_trips_through_its_name() {
    for p in [
        SecurityProtocol::Plaintext,
        SecurityProtocol::Ssl,
        SecurityProtocol::SaslPlaintext,
        SecurityProtocol::SaslSsl,
    ] {
        assert_eq!(SecurityProtocol::from_str(&p.to_string()), Ok(p));
    }
}

#[test]
fn protocol_defaults_to_plaintext() {
    assert_eq!(SecurityProtocol::default(), SecurityProtocol::Plaintext);
}

#[test]
fn listen_flags_carry_their_fields() {
    let f = ListenFlags {
        group_id: Some("g".to_string()),
        topic: "t".to_string(),
        json: true,
    };
    assert_eq!(f.group_id.as_deref(), Some("g"));
    assert!(f.json);
}
