use xiaohai::token::{check_time_window, split_dots, TokenError, TokenIssuer};

fn issuer() -> TokenIssuer {
    TokenIssuer::new(vec![7u8; 32], "xiaohai-suite".to_string())
}

#[test]
fn sign_then_verify_round_trip() {
    let iss = issuer();
    let payload: Vec<u8> = b"{\"subject\":\"tester\"}".to_vec();
    let token = iss.sign_payload(&payload);
    assert!(token.starts_with("v1."));
    let back = iss.verify_payload(&token).unwrap();
    assert_eq!(back, payload);
}

#[test]
fn verify_rejects_a_tampered_payload() {
    let iss = issuer();
    let token = iss.sign_payload(&b"hello".to_vec());
    let parts: Vec<&str> = token.split('.').collect();
    let other = iss.sign_payload(&b"other payload".to_vec());
    let other_parts: Vec<&str> = other.split('.').collect();
    let tampered = format!("{}.{}.{}", parts[0], other_parts[1], parts[2]);
    assert_eq!(iss.verify_payload(&tampered), Err(TokenError::BadSignature));
}

#[test]
fn verify_rejects_a_wrong_key() {
    let token = issuer().sign_payload(&b"hello".to_vec());
    let other = TokenIssuer::new(vec![8u8; 32], "xiaohai-suite".to_string());
    assert_eq!(other.verify_payload(&token), Err(TokenError::BadSignature));
}

#[test]
fn verify_rejects_bad_shapes() {
    let iss = issuer();
    assert_eq!(iss.verify_payload(&"no dots at all".to_string()), Err(TokenError::BadFormat));
    assert_eq!(iss.verify_payload(&"v1.only-one-part".to_string()), Err(TokenError::BadFormat));
    assert_eq!(iss.verify_payload(&"v2.aGk.aGk".to_string()), Err(TokenError::BadFormat));
    assert_eq!(iss.verify_payload(&"v1.a.b.c".to_string()), Err(TokenError::BadFormat));
}

#[test]
fn verify_rejects_non_canonical_base64() {
    let iss = issuer();
    assert_eq!(iss.verify_payload(&"v1.@@@.aGk".to_string()), Err(TokenError::Decode));
    assert_eq!(iss.verify_payload(&"v1.aGk=.aGk".to_string()), Err(TokenError::Decode));
}

#[test]
fn split_dots_separates_parts() {
    let parts = split_dots(&"a.b.c".to_string());
    assert_eq!(parts, vec!["a".to_string(), "b".to_string(), "c".to_string()]);
    assert_eq!(split_dots(&"".to_string()), vec!["".to_string()]);
    assert_eq!(split_dots(&"..".to_string()), vec!["".to_string(); 3]);
}

#[test]
fn time_window_boundaries() {
    assert_eq!(check_time_window(100, 200, 150, 0), Ok(()));
    assert_eq!(check_time_window(100, 200, 99, 0), Err(TokenError::NotYetValid));
    assert_eq!(check_time_window(100, 200, 99, 1), Ok(()));
    assert_eq!(check_time_window(100, 200, 201, 0), Err(TokenError::Expired));
    assert_eq!(check_time_window(100, 200, 201, 1), Ok(()));
    assert_eq!(check_time_window(100, 200, 230, 30), Ok(()));
}

#[test]
fn issuer_keeps_product_code() {
    let iss = issuer();
    assert_eq!(iss.product_code(), "xiaohai-suite");
}
