use iron_jwt::JWTClaims;
use iron_jwt::SubjectClaims;

#[test]
fn wire_form_is_the_canonical_object() {
    let claims = SubjectClaims { sub: b"user1".to_vec() };
    let wire = claims.to_wire().unwrap();
    assert_eq!(wire, b"{\"sub\":\"user1\"}".to_vec());
}

#[test]
fn empty_subject_has_a_wire_form() {
    let claims = SubjectClaims { sub: Vec::new() };
    let wire = claims.to_wire().unwrap();
    assert_eq!(wire, b"{\"sub\":\"\"}".to_vec());
    let back = SubjectClaims::from_wire(&wire).unwrap();
    assert_eq!(back, claims);
}

#[test]
fn wire_round_trips_for_every_safe_subject() {
    for sub in [&b"user1"[..], b"a", b"some longer subject 123", b"!#$%&'()*+,-./:;<=>?@[]^_`{|}~"] {
        let claims = SubjectClaims { sub: sub.to_vec() };
        let wire = claims.to_wire().unwrap();
        let back = SubjectClaims::from_wire(&wire).unwrap();
        assert_eq!(back, claims);
    }
}

#[test]
fn from_wire_rejects_foreign_shapes() {
    for bad in [
        &b""[..],
        b"{}",
        b"[1,2]",
        b"{\"sub\":\"a",
        b"{\"sub\":1}",
        b"{\"other\":\"a\"}",
        b"{\"sub\":\"a\\\"b\"}",
    ] {
        assert!(SubjectClaims::from_wire(&bad.to_vec()).is_none(), "accepted {:?}", bad);
    }
}

#[test]
fn control_and_escape_bytes_are_not_serializable() {
    for sub in [&b"tab\there"[..], b"quote\"here", b"back\\here", b"nul\0here"] {
        let claims = SubjectClaims { sub: sub.to_vec() };
        assert!(claims.to_wire().is_err(), "serialized {:?}", sub);
    }
}
