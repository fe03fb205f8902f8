use mpesa::access_token::{AccessToken, MpesaAccessTokenError, TokenReply, TokenStep, TOKEN_LIFETIME_MS};
use mpesa::parameters::{CommandIds, Identifiers, ResultCodes};

#[test]
fn test_access_token() {
    let consumer_key = String::from("0SKHgBn66azzyz5Y22ZufBhP6m5JwmQT");
    let consumer_secret = String::from("GUm27XVgi697SUfE");
    let access_token = AccessToken::new(consumer_key, consumer_secret);

    match access_token.token(0) {
        TokenStep::Cached(token) => println!("Here is the token {}", token),
        TokenStep::Fetch(header) => println!("Couldnot get token\n {}", header),
    }
}

#[test]
fn test_enum_conversion() {
    let string1 = CommandIds::TransactionReversal;
    assert_eq!(string1.to_string(), "TransactionReversal");
}

fn ok_reply(body: &str) -> TokenReply {
    TokenReply::Received { status: 200, body: String::from(body) }
}

#[test]
fn credentials_are_base64_of_key_and_secret() {
    let a = AccessToken::new(
        String::from("0SKHgBn66azzyz5Y22ZufBhP6m5JwmQT"),
        String::from("GUm27XVgi697SUfE"),
    );
    assert_eq!(
        a.credentials(),
        "MFNLSGdCbjY2YXp6eXo1WTIyWnVmQmhQNm01SndtUVQ6R1VtMjdYVmdpNjk3U1VmRQ=="
    );
}

#[test]
fn empty_cache_asks_for_a_fetch_with_basic_auth() {
    let a = AccessToken::new(String::from("foo"), String::from("bar"));
    match a.token(1_000) {
        TokenStep::Fetch(header) => assert_eq!(header, "Basic Zm9vOmJhcg=="),
        TokenStep::Cached(t) => panic!("unexpected cached token {}", t),
    }
}

#[test]
fn fresh_token_is_reused_within_lifetime() {
    let mut a = AccessToken::new(String::from("foo"), String::from("bar"));
    let got = a.accept_reply(1_000, ok_reply("{\"access_token\": \"tok1\", \"expires_in\": \"3599\"}"));
    assert_eq!(got.unwrap(), "tok1");
    for now in [1_000, 2_000, 1_000 + TOKEN_LIFETIME_MS - 1] {
        match a.token(now) {
            TokenStep::Cached(t) => assert_eq!(t, "tok1"),
            TokenStep::Fetch(_) => panic!("fetched within the lifetime at {}", now),
        }
    }
}

#[test]
fn stale_token_is_fetched_again() {
    let mut a = AccessToken::new(String::from("foo"), String::from("bar"));
    a.accept_reply(0, ok_reply("{\"access_token\": \"old\"}")).unwrap();
    let now = TOKEN_LIFETIME_MS + 1;
    assert!(matches!(a.token(TOKEN_LIFETIME_MS), TokenStep::Fetch(_)));
    assert!(matches!(a.token(now), TokenStep::Fetch(_)));
    let got = a.accept_reply(now, ok_reply("{\"access_token\": \"new\"}"));
    assert_eq!(got.unwrap(), "new");
    match a.token(now + 1) {
        TokenStep::Cached(t) => assert_eq!(t, "new"),
        TokenStep::Fetch(_) => panic!("fetched right after a refresh"),
    }
}

#[test]
fn lifetime_is_fifty_five_minutes() {
    assert_eq!(TOKEN_LIFETIME_MS, 55 * 60 * 1000);
}

#[test]
fn server_error_is_invalid_response_and_keeps_cache() {
    let mut a = AccessToken::new(String::from("foo"), String::from("bar"));
    let got = a.accept_reply(0, TokenReply::Received { status: 500, body: String::from("oops") });
    assert!(matches!(got, Err(MpesaAccessTokenError::RetrievalInvalidResponseError(500))));
    assert!(matches!(a.token(0), TokenStep::Fetch(_)));

    a.accept_reply(0, ok_reply("{\"access_token\": \"kept\"}")).unwrap();
    let later = TOKEN_LIFETIME_MS + 5;
    let got = a.accept_reply(later, TokenReply::Received { status: 500, body: String::new() });
    assert!(matches!(got, Err(MpesaAccessTokenError::RetrievalInvalidResponseError(500))));
    // still stale: the failed refresh stored nothing
    assert!(matches!(a.token(later), TokenStep::Fetch(_)));
    match a.token(10) {
        TokenStep::Cached(t) => assert_eq!(t, "kept"),
        TokenStep::Fetch(_) => panic!("the held token was lost"),
    }
}

#[test]
fn body_without_access_token_is_invalid_token() {
    let mut a = AccessToken::new(String::from("foo"), String::from("bar"));
    let got = a.accept_reply(0, ok_reply("{\"foo\": \"bar\"}"));
    match got {
        Err(MpesaAccessTokenError::InvalidAccessToken(d)) => {
            assert_eq!(d, "the response body holds no access_token string")
        }
        other => panic!("unexpected {:?}", other),
    }
    assert!(matches!(a.token(0), TokenStep::Fetch(_)));
}

#[test]
fn non_string_access_token_is_invalid_token() {
    let mut a = AccessToken::new(String::from("foo"), String::from("bar"));
    let got = a.accept_reply(0, ok_reply("{\"access_token\": 12}"));
    assert!(matches!(got, Err(MpesaAccessTokenError::InvalidAccessToken(_))));
}

#[test]
fn malformed_body_is_invalid_token() {
    let mut a = AccessToken::new(String::from("foo"), String::from("bar"));
    let got = a.accept_reply(0, ok_reply("not json"));
    match got {
        Err(MpesaAccessTokenError::InvalidAccessToken(d)) => assert!(!d.is_empty()),
        other => panic!("unexpected {:?}", other),
    }
    assert!(matches!(a.token(0), TokenStep::Fetch(_)));
}

#[test]
fn transport_failure_is_connection_error() {
    let mut a = AccessToken::new(String::from("foo"), String::from("bar"));
    let got = a.accept_reply(0, TokenReply::Failed(String::from("connection refused")));
    match got {
        Err(MpesaAccessTokenError::RetrievalConnectionError(c)) => assert_eq!(c, "connection refused"),
        other => panic!("unexpected {:?}", other),
    }
}

#[test]
fn accept_token_stores_parsed_token() {
    let mut a = AccessToken::new(String::from("foo"), String::from("bar"));
    assert_eq!(a.accept_token(7, Ok(Some(String::from("abc")))).unwrap(), "abc");
    assert!(matches!(a.token(8), TokenStep::Cached(ref t) if t == "abc"));
    let e = a.accept_token(9, Err(String::from("bad body")));
    assert!(matches!(e, Err(MpesaAccessTokenError::InvalidAccessToken(ref d)) if d == "bad body"));
    let e = a.accept_token(9, Ok(None));
    assert!(matches!(e, Err(MpesaAccessTokenError::InvalidAccessToken(_))));
    assert!(matches!(a.token(8), TokenStep::Cached(ref t) if t == "abc"));
}

#[test]
fn wire_tokens_of_codes() {
    assert_eq!(Identifiers::ShortCode.to_string(), "4");
    assert_eq!(Identifiers::MSISDN.to_string(), "1");
    assert_eq!(Identifiers::TillNumber.to_string(), "2");
    assert_eq!(ResultCodes::DuplicateDetected.to_string(), "15");
    assert_eq!(ResultCodes::Success.to_string(), "0");
    assert_eq!(ResultCodes::DebitAccountInvalid.to_string(), "11");
    assert_eq!(ResultCodes::TrafficBlockingConditionInPlace.to_string(), "26");
    assert_eq!(CommandIds::BusinessTransferFromMMFToUtility.to_string(), "BusinessTransferFromMMFToUtility");
    assert_eq!(CommandIds::SalaryPayment.to_string(), "SalaryPayment");
}
