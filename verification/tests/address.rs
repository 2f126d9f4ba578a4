use pih_pah::address::{canonicalize, classify, ConnectionTarget, ValidationError};

#[test]
fn classifies_ip_port_literal() {
    let r = classify(b"127.0.0.1:5000").unwrap();
    assert_eq!(r, ConnectionTarget::IpPort { a: 127, b: 0, c: 0, d: 1, port: 5000 });
}

#[test]
fn classifies_highest_port() {
    let r = classify(b"255.255.255.255:65535").unwrap();
    assert_eq!(r, ConnectionTarget::IpPort { a: 255, b: 255, c: 255, d: 255, port: 65535 });
}

#[test]
fn rejects_octet_out_of_range() {
    assert_eq!(classify(b"256.0.0.1:5000"), Err(ValidationError::Malformed));
}

#[test]
fn rejects_port_out_of_range() {
    assert_eq!(classify(b"127.0.0.1:65536"), Err(ValidationError::Malformed));
}

#[test]
fn rejects_missing_port() {
    assert_eq!(classify(b"1.2.3.4"), Err(ValidationError::Malformed));
}

#[test]
fn rejects_empty() {
    assert_eq!(classify(b""), Err(ValidationError::Malformed));
}

#[test]
fn rejects_garbage() {
    assert_eq!(classify(b"a:b"), Err(ValidationError::Malformed));
    assert_eq!(classify(b"not a host"), Err(ValidationError::Malformed));
}

#[test]
fn classifies_bare_hostname() {
    let r = classify(b"example.com").unwrap();
    assert_eq!(r, ConnectionTarget::DomainAddress(b"example.com".to_vec()));
}

#[test]
fn classifies_scheme_urls() {
    let r = classify(b"http://example.com/").unwrap();
    assert_eq!(r, ConnectionTarget::DomainAddress(b"http://example.com/".to_vec()));
    let r = classify(b"https://game.example.com:8080/lobby").unwrap();
    assert_eq!(
        r,
        ConnectionTarget::DomainAddress(b"https://game.example.com:8080/lobby".to_vec())
    );
}

#[test]
fn scheme_alone_is_not_enough() {
    assert_eq!(classify(b"http://"), Err(ValidationError::Malformed));
}

#[test]
fn serializes_ip_port_canonically() {
    let t = ConnectionTarget::IpPort { a: 127, b: 0, c: 0, d: 1, port: 5000 };
    assert_eq!(t.to_bytes(), b"127.0.0.1:5000".to_vec());
}

#[test]
fn canonicalize_strips_leading_zeros() {
    assert_eq!(canonicalize(b"01.02.003.4:05").unwrap(), b"1.2.3.4:5".to_vec());
}

#[test]
fn canonicalize_is_idempotent_on_accepted_strings() {
    for s in [
        b"127.0.0.1:5000".to_vec(),
        b"01.2.3.4:05".to_vec(),
        b"example.com".to_vec(),
        b"http://example.com/".to_vec(),
    ] {
        let once = canonicalize(&s).unwrap();
        let twice = canonicalize(&once).unwrap();
        assert_eq!(once, twice);
        let c1 = classify(&s).unwrap();
        let c2 = classify(&once).unwrap();
        assert_eq!(c1, c2);
    }
}

#[test]
fn canonicalize_rejects_what_classify_rejects() {
    assert_eq!(canonicalize(b"999.1.1.1:1"), Err(ValidationError::Malformed));
}
