use iron_jwt::codec;
use iron_jwt::Algorithm;
use iron_jwt::ErrorKind;
use iron_jwt::HeaderConfig;
use iron_jwt::JWTConfig;
use iron_jwt::ValidationConfig;

fn config_with(secret: &str) -> JWTConfig {
    JWTConfig {
        secret: secret.as_bytes().to_vec(),
        header: HeaderConfig { alg: Algorithm::HS256 },
        validation: ValidationConfig { alg: Algorithm::HS256, leeway_secs: 0, validate_exp: true, iss: None, aud: None },
    }
}

#[test]
fn encode_produces_three_segments() {
    let cfg = config_with("secret-key");
    let payload = b"{\"sub\":\"user1\"}".to_vec();
    let token = codec::encode(&cfg.header, &payload, &cfg.secret).unwrap();
    let dots = token.chars().filter(|c| *c == '.').count();
    assert_eq!(dots, 2);
    assert_ne!(token.as_bytes(), payload.as_slice());
}

#[test]
fn payload_round_trips_through_decode() {
    let cfg = config_with("secret-key");
    let payload = b"{\"sub\":\"user1\"}".to_vec();
    let token = codec::encode(&cfg.header, &payload, &cfg.secret).unwrap();
    let back = codec::decode(&token, &cfg.secret, &cfg.validation).unwrap();
    assert_eq!(back, payload);
}

#[test]
fn wrong_key_is_invalid_signature() {
    let cfg = config_with("secret-key");
    let other = config_with("wrong-key");
    let payload = b"{\"sub\":\"user1\"}".to_vec();
    let token = codec::encode(&cfg.header, &payload, &cfg.secret).unwrap();
    let err = codec::decode(&token, &other.secret, &other.validation).unwrap_err();
    assert_eq!(err.kind, ErrorKind::InvalidSignature);
}

#[test]
fn flipped_signature_byte_is_rejected() {
    let cfg = config_with("secret-key");
    let payload = b"{\"sub\":\"user1\"}".to_vec();
    let token = codec::encode(&cfg.header, &payload, &cfg.secret).unwrap();
    let sig_start = token.rfind('.').unwrap() + 1;
    let mut bytes = token.clone().into_bytes();
    // Swap one character in the middle of the signature segment for a
    // different character of the token alphabet.
    let pos = sig_start + 2;
    bytes[pos] = if bytes[pos] == b'A' { b'B' } else { b'A' };
    let tampered = String::from_utf8(bytes).unwrap();
    assert_ne!(tampered, token);
    let err = codec::decode(&tampered, &cfg.secret, &cfg.validation).unwrap_err();
    assert_eq!(err.kind, ErrorKind::InvalidSignature);
}

#[test]
fn expired_token_is_rejected_even_with_valid_signature() {
    let cfg = config_with("secret-key");
    let payload = b"{\"exp\":1,\"sub\":\"x\"}".to_vec();
    let token = codec::encode(&cfg.header, &payload, &cfg.secret).unwrap();
    let err = codec::decode(&token, &cfg.secret, &cfg.validation).unwrap_err();
    assert_eq!(err.kind, ErrorKind::Expired);
    // The same token is fine once the expiry rule is off: the signature is
    // valid all along.
    let lax = ValidationConfig { alg: Algorithm::HS256, leeway_secs: 0, validate_exp: false, iss: None, aud: None };
    let back = codec::decode(&token, &cfg.secret, &lax).unwrap();
    assert_eq!(back, payload);
}

#[test]
fn far_future_expiry_is_accepted() {
    let cfg = config_with("secret-key");
    let payload = b"{\"exp\":33197904000,\"sub\":\"x\"}".to_vec();
    let token = codec::encode(&cfg.header, &payload, &cfg.secret).unwrap();
    let back = codec::decode(&token, &cfg.secret, &cfg.validation).unwrap();
    assert_eq!(back, payload);
}

#[test]
fn malformed_tokens_are_rejected_as_malformed() {
    let cfg = config_with("secret-key");
    for bad in ["", "not-a-token", "a.b", "a.b.c.d", "!!.!!.!!"] {
        let err = codec::decode(bad, &cfg.secret, &cfg.validation).unwrap_err();
        assert_eq!(err.kind, ErrorKind::MalformedToken, "token {:?}", bad);
    }
}

#[test]
fn wrong_algorithm_is_a_validation_failure() {
    let cfg = config_with("secret-key");
    let payload = b"{\"sub\":\"user1\"}".to_vec();
    let token = codec::encode(&cfg.header, &payload, &cfg.secret).unwrap();
    let strict = ValidationConfig { alg: Algorithm::HS384, leeway_secs: 0, validate_exp: true, iss: None, aud: None };
    let err = codec::decode(&token, &cfg.secret, &strict).unwrap_err();
    assert_eq!(err.kind, ErrorKind::ValidationFailed);
}

#[test]
fn non_json_payload_is_an_encoding_error() {
    let cfg = config_with("secret-key");
    let payload = b"not json at all".to_vec();
    let err = codec::encode(&cfg.header, &payload, &cfg.secret).unwrap_err();
    assert_eq!(err.kind, ErrorKind::EncodingError);
}

#[test]
fn each_hmac_algorithm_round_trips() {
    for alg in [Algorithm::HS256, Algorithm::HS384, Algorithm::HS512] {
        let header = HeaderConfig { alg };
        let validation = ValidationConfig { alg, leeway_secs: 0, validate_exp: true, iss: None, aud: None };
        let secret = b"secret-key".to_vec();
        let payload = b"{\"sub\":\"user1\"}".to_vec();
        let token = codec::encode(&header, &payload, &secret).unwrap();
        let back = codec::decode(&token, &secret, &validation).unwrap();
        assert_eq!(back, payload);
    }
}

#[test]
fn leeway_tolerates_a_recent_expiry() {
    let now = std::time::SystemTime::now()
        .duration_since(std::time::UNIX_EPOCH)
        .unwrap()
        .as_secs();
    let cfg = config_with("secret-key");
    let payload = format!("{{\"exp\":{},\"sub\":\"x\"}}", now - 100).into_bytes();
    let token = codec::encode(&cfg.header, &payload, &cfg.secret).unwrap();
    let err = codec::decode(&token, &cfg.secret, &cfg.validation).unwrap_err();
    assert_eq!(err.kind, ErrorKind::Expired);
    let tolerant = ValidationConfig { alg: Algorithm::HS256, leeway_secs: 1000, validate_exp: true, iss: None, aud: None };
    let back = codec::decode(&token, &cfg.secret, &tolerant).unwrap();
    assert_eq!(back, payload);
}

fn rules_with(iss: Option<&str>, aud: Option<&str>) -> ValidationConfig {
    ValidationConfig {
        alg: Algorithm::HS256,
        leeway_secs: 0,
        validate_exp: true,
        iss: iss.map(|s| s.to_string()),
        aud: aud.map(|s| s.to_string()),
    }
}

#[test]
fn issuer_rule_checks_a_present_issuer() {
    let cfg = config_with("secret-key");
    let payload = b"{\"iss\":\"authsvc\",\"sub\":\"x\"}".to_vec();
    let token = codec::encode(&cfg.header, &payload, &cfg.secret).unwrap();
    let accept = rules_with(Some("authsvc"), None);
    assert_eq!(codec::decode(&token, &cfg.secret, &accept).unwrap(), payload);
    let reject = rules_with(Some("other"), None);
    let err = codec::decode(&token, &cfg.secret, &reject).unwrap_err();
    assert_eq!(err.kind, ErrorKind::ValidationFailed);
}

#[test]
fn audience_rule_checks_a_present_audience() {
    let cfg = config_with("secret-key");
    let payload = b"{\"aud\":\"svc-a\",\"sub\":\"x\"}".to_vec();
    let token = codec::encode(&cfg.header, &payload, &cfg.secret).unwrap();
    let accept = rules_with(None, Some("svc-a"));
    assert_eq!(codec::decode(&token, &cfg.secret, &accept).unwrap(), payload);
    let reject = rules_with(None, Some("svc-b"));
    let err = codec::decode(&token, &cfg.secret, &reject).unwrap_err();
    assert_eq!(err.kind, ErrorKind::ValidationFailed);
}

#[test]
fn absent_issuer_and_audience_claims_pass_the_rules() {
    // The rules apply to a claim that is present; a token without the claim
    // passes either way.
    let cfg = config_with("secret-key");
    let payload = b"{\"sub\":\"x\"}".to_vec();
    let token = codec::encode(&cfg.header, &payload, &cfg.secret).unwrap();
    let rules = rules_with(Some("authsvc"), Some("svc-a"));
    assert_eq!(codec::decode(&token, &cfg.secret, &rules).unwrap(), payload);
}
