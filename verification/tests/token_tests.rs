use account_session::account::Account;
use account_session::error::{SigningError, TokenError};
use account_session::password::HashedPassword;
use account_session::token::{
    decode_claims, encode_claims, same_bytes, Claims, SessionToken, TokenSigner, CLAIMS_LEN,
};

fn account(id: u64) -> Account {
    Account::from_row(
        id,
        "jake@example.com".to_string(),
        "jake".to_string(),
        None,
        None,
        HashedPassword::from_stored("stored".to_string()),
    )
}

fn signer() -> TokenSigner {
    TokenSigner::new(b"secret".to_vec(), 3600)
}

#[test]
fn claims_are_three_little_endian_numbers() {
    let bytes = encode_claims(Claims { sub: 1, iat: 1000, exp: 4600 });
    assert_eq!(bytes.len(), CLAIMS_LEN);
    assert_eq!(
        bytes,
        vec![
            1, 0, 0, 0, 0, 0, 0, 0, 0xe8, 0x03, 0, 0, 0, 0, 0, 0, 0xf8, 0x11, 0, 0, 0, 0, 0, 0
        ]
    );
    assert_eq!(decode_claims(&bytes), Some(Claims { sub: 1, iat: 1000, exp: 4600 }));
    let big = Claims { sub: u64::MAX, iat: 0x0102030405060708, exp: u64::MAX - 1 };
    assert_eq!(decode_claims(&encode_claims(big)), Some(big));
    assert_eq!(decode_claims(&bytes[..23]), None);
    assert_eq!(decode_claims(&[]), None);
    let mut longer = bytes.clone();
    longer.push(0);
    assert_eq!(decode_claims(&longer), None);
}

#[test]
fn sign_at_gives_the_exact_token() {
    let token = signer().sign_at(&account(1), 1000).expect("signing works");
    assert_eq!(
        token.as_str(),
        "0100000000000000e803000000000000f811000000000000\
         9265e457e07f29857f7d7e8fea2ee258256623ac4d0d0eb9c9cb7680c5fba8e7"
    );
    let short = TokenSigner::new(b"secret".to_vec(), 60);
    let other = short.sign_at(&account(7), 0).expect("signing works");
    assert_eq!(
        other.as_str(),
        "070000000000000000000000000000003c00000000000000\
         0681f89bd396b83b7f708de98e419ab26cbcef21cbdbbdacf10c11d47c6c1835"
    );
}

#[test]
fn sign_then_verify_yields_the_same_id() {
    let s = signer();
    let token = s.sign_at(&account(42), 1000).expect("signing works");
    let claims = s.verify_at(token.as_str(), 1000).expect("a fresh token is good");
    assert_eq!(claims, Claims { sub: 42, iat: 1000, exp: 4600 });
    assert_eq!(s.verify_at(token.as_str(), 4599), Ok(claims));
}

#[test]
fn a_token_ends_at_its_expiry() {
    let s = signer();
    let token = s.sign_at(&account(42), 1000).expect("signing works");
    assert_eq!(s.verify_at(token.as_str(), 4600), Err(TokenError::Expired));
    assert_eq!(s.verify_at(token.as_str(), u64::MAX), Err(TokenError::Expired));
    let none = TokenSigner::new(b"secret".to_vec(), 0);
    let dead = none.sign_at(&account(1), 5).expect("signing works");
    assert_eq!(none.verify_at(dead.as_str(), 5), Err(TokenError::Expired));
    assert_eq!(none.verify_at(dead.as_str(), 4), Ok(Claims { sub: 1, iat: 5, exp: 5 }));
}

#[test]
fn signing_needs_a_key() {
    let keyless = TokenSigner::new(Vec::new(), 3600);
    assert!(matches!(keyless.sign_at(&account(1), 0), Err(SigningError::KeyUnavailable)));
    assert!(matches!(keyless.sign(&account(1)), Err(SigningError::KeyUnavailable)));
    assert_eq!(keyless.verify_at("00", 0), Err(TokenError::KeyUnavailable));
    assert_eq!(keyless.verify("00"), Err(TokenError::KeyUnavailable));
}

#[test]
fn an_expiry_out_of_range_cannot_be_encoded() {
    let s = signer();
    assert!(matches!(
        s.sign_at(&account(1), u64::MAX - 3599),
        Err(SigningError::ClaimsNotEncodable)
    ));
    assert!(matches!(s.sign_at(&account(1), u64::MAX), Err(SigningError::ClaimsNotEncodable)));
    let last = s.sign_at(&account(1), u64::MAX - 3600).expect("the expiry just fits");
    assert_eq!(
        s.verify_at(last.as_str(), u64::MAX - 1),
        Ok(Claims { sub: 1, iat: u64::MAX - 3600, exp: u64::MAX })
    );
}

#[test]
fn a_tampered_token_is_refused() {
    let s = signer();
    let token = s.sign_at(&account(1), 1000).expect("signing works");
    let text = token.as_str().to_string();
    let forged_id = format!("02{}", &text[2..]);
    assert_eq!(s.verify_at(&forged_id, 1000), Err(TokenError::BadSignature));
    let last = if text.ends_with('0') { '1' } else { '0' };
    let forged_tag = format!("{}{}", &text[..text.len() - 1], last);
    assert_eq!(s.verify_at(&forged_tag, 1000), Err(TokenError::BadSignature));
    let cut = &text[..text.len() - 2];
    assert_eq!(s.verify_at(cut, 1000), Err(TokenError::BadSignature));
    let only_claims = &text[..2 * CLAIMS_LEN];
    assert_eq!(s.verify_at(only_claims, 1000), Err(TokenError::BadSignature));
    let longer = format!("{}00", text);
    assert_eq!(s.verify_at(&longer, 1000), Err(TokenError::BadSignature));
}

#[test]
fn a_token_of_another_key_is_refused() {
    let token = signer().sign_at(&account(1), 1000).expect("signing works");
    let other = TokenSigner::new(b"another".to_vec(), 3600);
    assert_eq!(other.verify_at(token.as_str(), 1000), Err(TokenError::BadSignature));
}

#[test]
fn text_that_is_no_token_is_malformed() {
    let s = signer();
    assert_eq!(s.verify_at("", 0), Err(TokenError::Malformed));
    assert_eq!(s.verify_at("not hex at all", 0), Err(TokenError::Malformed));
    assert_eq!(s.verify_at("abc", 0), Err(TokenError::Malformed));
    assert_eq!(s.verify_at(&"0".repeat(46), 0), Err(TokenError::Malformed));
    let token = s.sign_at(&account(1), 1000).expect("signing works");
    assert_eq!(s.verify_at(&token.as_str().to_uppercase(), 1000), Err(TokenError::Malformed));
}

#[test]
fn sign_reads_the_clock() {
    let s = signer();
    let token = s.sign(&account(9)).expect("signing works");
    let claims = s.verify(token.as_str()).expect("a fresh token is good");
    assert_eq!(claims.sub, 9);
    assert_eq!(claims.exp, claims.iat + 3600);
    assert!(claims.iat > 1_600_000_000);
    assert_eq!(s.verify_at(token.as_str(), claims.iat), Ok(claims));
}

#[test]
fn same_bytes_compares_whole_strings() {
    assert!(same_bytes(&[], &[]));
    assert!(same_bytes(&[1, 2, 3], &[1, 2, 3]));
    assert!(!same_bytes(&[1, 2, 3], &[1, 2, 4]));
    assert!(!same_bytes(&[0, 2, 3], &[1, 2, 3]));
    assert!(!same_bytes(&[1, 2], &[1, 2, 3]));
    assert!(!same_bytes(&[1, 2, 3], &[]));
    assert!(!same_bytes(&[0x0f], &[0xf0]));
}

#[test]
fn session_token_keeps_its_text() {
    let token = SessionToken::from_text("abc".to_string());
    assert_eq!(token.as_str(), "abc");
    assert_eq!(token.clone().into_text(), "abc");
}
