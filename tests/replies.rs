use oidc_agent_rs::json::parse_json;
use oidc_agent_rs::mytoken::{Capability, MyTokenType, TokenInfoPerms};
use oidc_agent_rs::responses::{
    AccessTokenResponse, AccountsResponse, MyTokenResponse, OIDCAgentResponse, Status,
};
use oidc_agent_rs::{decode_reply, interpret_reply, Agent, Error, Token};

#[test]
fn success_reply_decodes_access_token() {
    let bytes = br#"{"status":"success","access_token":"tok","issuer":"https://issuer.example.org","expires_at":1700000000}"#;
    let r: AccessTokenResponse = decode_reply(bytes).unwrap();
    assert_eq!(r.access_token().secret(), "tok");
    assert_eq!(r.issuer(), "https://issuer.example.org/");
    assert_eq!(r.expires_at(), 1700000000);
}

#[test]
fn failure_reply_with_info() {
    let bytes = br#"{"status":"failure","error":"E","info":"I"}"#;
    match decode_reply::<AccessTokenResponse>(bytes) {
        Err(Error::AgentError(e)) => assert_eq!(e.to_string(), "E: I"),
        _ => panic!("expected an agent error"),
    }
}

#[test]
fn failure_reply_without_info() {
    let bytes = br#"{"status":"failure","error":"E"}"#;
    match decode_reply::<AccountsResponse>(bytes) {
        Err(Error::AgentError(e)) => assert_eq!(e.to_string(), "E"),
        _ => panic!("expected an agent error"),
    }
}

#[test]
fn reply_without_status_is_decode_error() {
    for bytes in [&b"{}"[..], b"not json", br#"{"status":"done"}"#, b"[1,2]"] {
        match decode_reply::<AccountsResponse>(bytes) {
            Err(Error::SerdeError(_)) => {}
            _ => panic!("expected a decode error"),
        }
    }
}

#[test]
fn success_reply_of_wrong_shape_is_decode_error() {
    let bytes = br#"{"status":"success","info":"x"}"#;
    assert!(matches!(decode_reply::<AccountsResponse>(bytes), Err(Error::SerdeError(_))));
    let bad_url = br#"{"status":"success","access_token":"t","issuer":"nope","expires_at":1}"#;
    assert!(matches!(decode_reply::<AccessTokenResponse>(bad_url), Err(Error::SerdeError(_))));
    let bad_time = br#"{"status":"success","access_token":"t","issuer":"https://i.example","expires_at":9223372036854775807}"#;
    assert!(matches!(decode_reply::<AccessTokenResponse>(bad_time), Err(Error::SerdeError(_))));
    let bad_failure = br#"{"status":"failure","info":"I"}"#;
    assert!(matches!(decode_reply::<AccountsResponse>(bad_failure), Err(Error::SerdeError(_))));
}

#[test]
fn accounts_reply_keeps_order() {
    let bytes = br#"{"status":"success","info":["b","a","c"]}"#;
    let r: AccountsResponse = decode_reply(bytes).unwrap();
    assert_eq!(r.info(), &vec!["b".to_string(), "a".to_string(), "c".to_string()]);
}

#[test]
fn envelope_status() {
    let j = parse_json(br#"{"status":"failure","error":"x"}"#).unwrap();
    let e = OIDCAgentResponse::decode(&j).unwrap();
    assert_eq!(*e.status(), Status::FAILURE);
    assert_eq!(e.status().to_string(), "failure");
    let r: Result<AccountsResponse, Error> = interpret_reply(&j);
    assert!(matches!(r, Err(Error::AgentError(_))));
}

#[test]
fn mytoken_reply_decodes_policy() {
    let bytes = br#"{"status":"success","mytoken":"mt","mytoken_issuer":"https://mt.example","oidc_issuer":"https://op.example","expires_at":null,"mytoken_type":"short_token","expires_in":3600,"capabilities":["AT","tokeninfo","AT"],"restrictions":[{"usages_AT":1},{"usages_AT":1},{"ip":["1.2.3.4"]}],"rotation":{"on_AT":true}}"#;
    let r: MyTokenResponse = decode_reply(bytes).unwrap();
    assert_eq!(r.mytoken().secret(), "mt");
    assert_eq!(r.mytoken_issuer(), "https://mt.example/");
    assert_eq!(r.oidc_issuer(), "https://op.example/");
    assert_eq!(r.expires_at(), None);
    assert_eq!(r.mytoken_type(), Some(MyTokenType::SHORT_TOKEN));
    assert_eq!(r.expires_in(), Some(3600));
    assert_eq!(r.transfer_code(), None);
    assert_eq!(
        r.capabilities(),
        Some(&vec![Capability::AT, Capability::TokenInfo(TokenInfoPerms::All)])
    );
    assert_eq!(r.restrictions().unwrap().len(), 2);
    assert_eq!(r.rotation().unwrap().on_AT(), Some(true));
}

#[test]
fn mytoken_reply_with_unknown_capability_fails() {
    let bytes = br#"{"status":"success","mytoken":"mt","mytoken_issuer":"https://mt.example","oidc_issuer":"https://op.example","capabilities":["fly"]}"#;
    assert!(matches!(decode_reply::<MyTokenResponse>(bytes), Err(Error::SerdeError(_))));
}

#[test]
fn token_rendering_hides_secret() {
    for secret in ["eyJhbGciOi", "s3cr3t-value", "x"] {
        let t = Token::new(secret.to_string());
        let shown = t.redacted();
        assert_eq!(shown, "Token([redacted])");
        assert!(!shown.contains(secret));
        assert_eq!(t.secret(), secret);
    }
}

#[test]
fn agent_keeps_socket_path() {
    let a = Agent::with_socket_path("/tmp/oidc-agent-service-1000/oidc-agent.sock");
    assert_eq!(a.get_socket_path(), Some("/tmp/oidc-agent-service-1000/oidc-agent.sock"));
}

fn expiry_reply(secs: &str) -> Vec<u8> {
    format!(
        r#"{{"status":"success","access_token":"t","issuer":"https://i.example","expires_at":{}}}"#,
        secs
    )
    .into_bytes()
}

#[test]
fn expiry_range_matches_chrono() {
    for ok in ["-8334601228800", "8210266876799", "0", "-1"] {
        match decode_reply::<AccessTokenResponse>(&expiry_reply(ok)) {
            Ok(r) => assert_eq!(r.expires_at().to_string(), ok),
            Err(_) => panic!("refused {}", ok),
        }
    }
    for bad in ["-8334601228801", "8210266876800", "1.5", "18446744073709551615"] {
        assert!(matches!(
            decode_reply::<AccessTokenResponse>(&expiry_reply(bad)),
            Err(Error::SerdeError(_))
        ));
    }
}
