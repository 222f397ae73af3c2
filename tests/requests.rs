use oidc_agent_rs::mytoken::{Capability, Profile};
use oidc_agent_rs::requests::{AccessTokenRequest, AccountsRequest, MyTokenRequest, RequestType};
use oidc_agent_rs::{Error, Request};

#[test]
fn accounts_request_json_exact() {
    assert_eq!(AccountsRequest::new().to_json(), r#"{"request":"loaded_accounts"}"#);
    assert_eq!(AccountsRequest::new().encode(), r#"{"request":"loaded_accounts"}"#);
    assert_eq!(AccountsRequest::new().kind(), RequestType::LOADED_ACCOUNTS);
}

#[test]
fn access_token_basic_json() {
    let r = AccessTokenRequest::basic("mytoken");
    assert_eq!(r.to_json(), r#"{"request":"access_token","account":"mytoken"}"#);
}

#[test]
fn access_token_build_needs_account_or_issuer() {
    match AccessTokenRequest::builder().build() {
        Err(Error::OtherError(m)) => {
            assert_eq!(m, "Failed to build request! Account name or issuer required!")
        }
        _ => panic!("expected a build error"),
    }
    assert!(AccessTokenRequest::builder().account("   ").build().is_err());
    assert!(AccessTokenRequest::builder().account("").build().is_err());
    assert!(AccessTokenRequest::builder().account("acc").build().is_ok());
    let by_issuer = AccessTokenRequest::builder()
        .issuer("https://issuer.example.org")
        .unwrap()
        .min_valid_period(60)
        .build()
        .unwrap();
    assert_eq!(
        by_issuer.to_json(),
        r#"{"request":"access_token","issuer":"https://issuer.example.org/","min_valid_period":60}"#
    );
    assert!(AccessTokenRequest::builder()
        .account(" ")
        .issuer("https://i.example")
        .unwrap()
        .build()
        .is_ok());
}

#[test]
fn access_token_issuer_must_be_url() {
    match AccessTokenRequest::builder().issuer("not a url") {
        Err(Error::ParseError(_)) => {}
        _ => panic!("expected a URL parse error"),
    }
}

#[test]
fn access_token_scope_accumulates() {
    let r = AccessTokenRequest::builder()
        .account("acc")
        .add_scope("a")
        .add_scope("b")
        .build()
        .unwrap();
    assert_eq!(r.to_json(), r#"{"request":"access_token","account":"acc","scope":"a b"}"#);
    let t = AccessTokenRequest::builder()
        .account("acc")
        .add_scope("  openid profile ")
        .audience("aud")
        .application_hint("app")
        .build()
        .unwrap();
    assert_eq!(
        t.to_json(),
        r#"{"request":"access_token","account":"acc","application_hint":"app","scope":"openid profile","audience":"aud"}"#
    );
}

#[test]
fn strings_are_escaped() {
    let r = AccessTokenRequest::basic("a\"b\\c");
    assert_eq!(r.to_json(), r#"{"request":"access_token","account":"a\"b\\c"}"#);
}

#[test]
fn mytoken_build_rejects_blank_account() {
    for blank in ["", " ", "\t\n ", "\u{3000}"] {
        match MyTokenRequest::builder(blank).build() {
            Err(Error::OtherError(m)) => {
                assert_eq!(m, "Failed to build request! Account name cannot be empty!")
            }
            _ => panic!("expected a build error"),
        }
    }
    assert!(MyTokenRequest::builder(" x ").build().is_ok());
}

#[test]
fn mytoken_basic_json_has_no_profile() {
    assert_eq!(
        MyTokenRequest::basic("mytoken").to_json(),
        r#"{"request":"mytoken","account":"mytoken"}"#
    );
}

#[test]
fn mytoken_request_with_profile_json() {
    let mut p = Profile::new();
    p.add_capabilities(&[Capability::AT]);
    let r = MyTokenRequest::builder("acc")
        .mytoken_profile(&p)
        .application_hint("app")
        .build()
        .unwrap();
    assert_eq!(
        r.encode(),
        r#"{"request":"mytoken","account":"acc","mytoken_profile":{"capabilities":["AT"]},"application_hint":"app"}"#
    );
}

#[test]
fn access_token_blank_scope_parts_skipped() {
    let r = AccessTokenRequest::builder()
        .account("acc")
        .add_scope(" ")
        .add_scope("b")
        .add_scope("\t")
        .build()
        .unwrap();
    assert_eq!(r.to_json(), r#"{"request":"access_token","account":"acc","scope":"b"}"#);
}

#[test]
fn control_characters_are_escaped() {
    let r = AccessTokenRequest::basic("\u{8}\t\n\u{c}\r\u{1}\u{1f}/\u{7f}é");
    assert_eq!(
        r.to_json(),
        "{\"request\":\"access_token\",\"account\":\"\\b\\t\\n\\f\\r\\u0001\\u001f/\u{7f}é\"}"
    );
}
