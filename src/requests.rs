//! The three requests the agent understands, their builders, and their JSON
//! wire form.
use crate::errors::Error;
use crate::merge::str_views;
use crate::mytoken::{profile_json, Profile, ProfileView};
use crate::text::{is_blank, join_scope, opt_view, scope_after, trim};
use crate::wire::{
    json_quoted, member, object, object_text, opt_int_json, opt_member, opt_str_json,
    opt_str_text, opt_u64_int, opt_u64_text, push_member, push_opt, quote,
};
use vstd::prelude::*;
use vstd::string::*;

verus! {

/// The discriminator that every request carries in its `request` field.
#[allow(non_camel_case_types)]
#[derive(Debug, Clone, Copy, PartialEq, Eq, Structural)]
pub enum RequestType {
    ACCESS_TOKEN,
    MYTOKEN,
    LOADED_ACCOUNTS,
}

impl RequestType {
    /// The discriminator as JSON text, quotes included.
    pub open spec fn json(self) -> Seq<char> {
        match self {
            RequestType::ACCESS_TOKEN => "\"access_token\""@,
            RequestType::MYTOKEN => "\"mytoken\""@,
            RequestType::LOADED_ACCOUNTS => "\"loaded_accounts\""@,
        }
    }

    pub fn json_text(&self) -> (r: &'static str)
        ensures
            r@ == self.json(),
    {
        match self {
            RequestType::ACCESS_TOKEN => "\"access_token\"",
            RequestType::MYTOKEN => "\"mytoken\"",
            RequestType::LOADED_ACCOUNTS => "\"loaded_accounts\"",
        }
    }
}

/// The serialization of the URL that a string parses to, if it is a URL.
pub uninterp spec fn parsed_url(s: Seq<char>) -> Option<Seq<char>>;

/// Relies on `url::Url::parse`: it accepts or refuses a string on its
/// characters alone, and the text kept is the parsed URL's serialization.
#[verifier::external_body]
pub fn parse_url(s: &str) -> (r: Result<String, url::ParseError>)
    ensures
        match r {
            Ok(t) => parsed_url(s@) == Some(t@),
            Err(_) => parsed_url(s@) is None,
        },
{
    url::Url::parse(s).map(String::from)
}

/// A request for an access token, for an account or an issuer.
#[derive(Debug, Clone)]
pub struct AccessTokenRequest {
    account: Option<String>,
    issuer: Option<String>,
    min_valid_period: Option<u64>,
    application_hint: Option<String>,
    scope: Option<String>,
    audience: Option<String>,
}

/// What an [`AccessTokenRequest`] holds, as mathematical values.
pub struct AccessTokenRequestView {
    pub account: Option<Seq<char>>,
    pub issuer: Option<Seq<char>>,
    pub min_valid_period: Option<u64>,
    pub application_hint: Option<Seq<char>>,
    pub scope: Option<Seq<char>>,
    pub audience: Option<Seq<char>>,
}

impl View for AccessTokenRequest {
    type V = AccessTokenRequestView;

    closed spec fn view(&self) -> AccessTokenRequestView {
        AccessTokenRequestView {
            account: opt_view(self.account),
            issuer: opt_view(self.issuer),
            min_valid_period: self.min_valid_period,
            application_hint: opt_view(self.application_hint),
            scope: opt_view(self.scope),
            audience: opt_view(self.audience),
        }
    }
}

/// A request with every field absent.
pub open spec fn empty_access_token_request() -> AccessTokenRequestView {
    AccessTokenRequestView {
        account: None,
        issuer: None,
        min_valid_period: None,
        application_hint: None,
        scope: None,
        audience: None,
    }
}

/// An access-token request may be sent when it names an account that is not
/// blank, or an issuer.
pub open spec fn names_account_or_issuer(v: AccessTokenRequestView) -> bool {
    (v.account matches Some(a) && !is_blank(a)) || v.issuer is Some
}

/// The JSON text of an access-token request: the discriminator, then the
/// fields that are present.
pub open spec fn access_token_request_json(v: AccessTokenRequestView) -> Seq<char> {
    object(
        seq![member("request"@, RequestType::ACCESS_TOKEN.json())] + opt_member(
            "account"@,
            opt_str_json(v.account),
        ) + opt_member("issuer"@, opt_str_json(v.issuer)) + opt_member(
            "min_valid_period"@,
            opt_int_json(opt_u64_int(v.min_valid_period)),
        ) + opt_member("application_hint"@, opt_str_json(v.application_hint)) + opt_member(
            "scope"@,
            opt_str_json(v.scope),
        ) + opt_member("audience"@, opt_str_json(v.audience)),
    )
}

pub const ACCESS_TOKEN_BUILD_ERROR: &'static str =
    "Failed to build request! Account name or issuer required!";

pub const MYTOKEN_BUILD_ERROR: &'static str =
    "Failed to build request! Account name cannot be empty!";

impl AccessTokenRequest {
    /// A request that names only `account`.
    pub fn basic(account: &str) -> (r: Self)
        ensures
            r@ == (AccessTokenRequestView {
                account: Some(account@),
                ..empty_access_token_request()
            }),
    {
        AccessTokenRequest {
            account: Some(account.to_string()),
            issuer: None,
            min_valid_period: None,
            application_hint: None,
            scope: None,
            audience: None,
        }
    }

    /// A builder with every field absent.
    pub fn builder() -> (r: AccessTokenRequestBuilder)
        ensures
            r.request() == empty_access_token_request(),
    {
        AccessTokenRequestBuilder(
            AccessTokenRequest {
                account: None,
                issuer: None,
                min_valid_period: None,
                application_hint: None,
                scope: None,
                audience: None,
            },
        )
    }

    pub fn kind(&self) -> (r: RequestType)
        ensures
            r == RequestType::ACCESS_TOKEN,
    {
        RequestType::ACCESS_TOKEN
    }

    /// Writes the request as the JSON text sent to the agent.
    pub fn to_json(&self) -> (r: String)
        ensures
            r@ == access_token_request_json(self@),
    {
        let mut m: Vec<String> = Vec::new();
        push_member(&mut m, "request", String::from_str(RequestType::ACCESS_TOKEN.json_text()));
        push_opt(&mut m, "account", opt_str_text(&self.account));
        push_opt(&mut m, "issuer", opt_str_text(&self.issuer));
        push_opt(&mut m, "min_valid_period", opt_u64_text(self.min_valid_period));
        push_opt(&mut m, "application_hint", opt_str_text(&self.application_hint));
        push_opt(&mut m, "scope", opt_str_text(&self.scope));
        push_opt(&mut m, "audience", opt_str_text(&self.audience));
        let ghost v = self@;
        assert(str_views(m@) =~= seq![member("request"@, RequestType::ACCESS_TOKEN.json())]
            + opt_member("account"@, opt_str_json(v.account)) + opt_member(
            "issuer"@,
            opt_str_json(v.issuer),
        ) + opt_member("min_valid_period"@, opt_int_json(opt_u64_int(v.min_valid_period)))
            + opt_member("application_hint"@, opt_str_json(v.application_hint)) + opt_member(
            "scope"@,
            opt_str_json(v.scope),
        ) + opt_member("audience"@, opt_str_json(v.audience)));
        object_text(&m)
    }
}

fn copy_opt_string(o: &Option<String>) -> (r: Option<String>)
    ensures
        opt_view(r) == opt_view(*o),
{
    match o {
        Some(s) => Some(s.clone()),
        None => None,
    }
}

/// Collects the fields of an [`AccessTokenRequest`] by chained calls.
pub struct AccessTokenRequestBuilder(AccessTokenRequest);

impl AccessTokenRequestBuilder {
    pub closed spec fn request(self) -> AccessTokenRequestView {
        self.0@
    }

    /// Sets the account shortname.
    pub fn account(self, account: &str) -> (r: Self)
        ensures
            r.request() == (AccessTokenRequestView { account: Some(account@), ..self.request() }),
    {
        let mut b = self;
        b.0.account = Some(account.to_string());
        b
    }

    /// Sets the issuer, which must be a well-formed URL; the URL's
    /// serialization is kept.
    pub fn issuer(self, issuer: &str) -> (r: Result<Self, Error>)
        ensures
            match r {
                Ok(b) => parsed_url(issuer@) matches Some(u) && b.request() == (AccessTokenRequestView {
                    issuer: Some(u),
                    ..self.request()
                }),
                Err(e) => parsed_url(issuer@) is None && e is ParseError,
            },
    {
        match parse_url(issuer) {
            Ok(u) => {
                let mut b = self;
                b.0.issuer = Some(u);
                Ok(b)
            },
            Err(e) => Err(Error::ParseError(e)),
        }
    }

    /// Sets the minimum time, in seconds, that the token must stay valid.
    pub fn min_valid_period(self, min_valid_period: u64) -> (r: Self)
        ensures
            r.request() == (AccessTokenRequestView { min_valid_period: Some(min_valid_period), ..self.request() }),
    {
        let mut b = self;
        b.0.min_valid_period = Some(min_valid_period);
        b
    }

    /// Sets the name of the application that asks.
    pub fn application_hint(self, application_hint: &str) -> (r: Self)
        ensures
            r.request() == (AccessTokenRequestView {
                application_hint: Some(application_hint@),
                ..self.request()
            }),
    {
        let mut b = self;
        b.0.application_hint = Some(application_hint.to_string());
        b
    }

    /// Joins `scope` onto the scopes collected so far, space separated.
    pub fn add_scope(self, scope: &str) -> (r: Self)
        ensures
            r.request() == (AccessTokenRequestView {
                scope: scope_after(self.request().scope, scope@),
                ..self.request()
            }),
    {
        let mut b = self;
        let cur = b.0.scope.take();
        b.0.scope = join_scope(cur, scope);
        b
    }

    /// Sets the audience of the token.
    pub fn audience(self, audience: &str) -> (r: Self)
        ensures
            r.request() == (AccessTokenRequestView { audience: Some(audience@), ..self.request() }),
    {
        let mut b = self;
        b.0.audience = Some(audience.to_string());
        b
    }

    /// The request, if it names a non-blank account or an issuer.
    pub fn build(self) -> (r: Result<AccessTokenRequest, Error>)
        ensures
            names_account_or_issuer(self.request()) <==> r is Ok,
            r matches Ok(q) ==> q@ == self.request(),
            r matches Err(e) ==> (e matches Error::OtherError(m) && m@
                == ACCESS_TOKEN_BUILD_ERROR@),
    {
        let has_account = match &self.0.account {
            Some(a) => {
                let t = trim(a.as_str());
                proof {
                    crate::text::lemma_trimmed_empty_iff_blank(a@);
                }
                t.unicode_len() > 0
            },
            None => false,
        };
        if has_account || self.0.issuer.is_some() {
            Ok(self.0)
        } else {
            Err(Error::OtherError(String::from_str(ACCESS_TOKEN_BUILD_ERROR)))
        }
    }
}

} // verus!

verus! {

/// A request for a mytoken for an account, with an optional policy.
#[derive(Debug, Clone)]
pub struct MyTokenRequest {
    account: String,
    mytoken_profile: Option<Profile>,
    application_hint: Option<String>,
}

/// What a [`MyTokenRequest`] holds, as mathematical values.
pub struct MyTokenRequestView {
    pub account: Seq<char>,
    pub mytoken_profile: Option<ProfileView>,
    pub application_hint: Option<Seq<char>>,
}

impl View for MyTokenRequest {
    type V = MyTokenRequestView;

    closed spec fn view(&self) -> MyTokenRequestView {
        MyTokenRequestView {
            account: self.account@,
            mytoken_profile: match self.mytoken_profile {
                Some(p) => Some(p@),
                None => None,
            },
            application_hint: opt_view(self.application_hint),
        }
    }
}

/// The JSON text of a mytoken request.
pub open spec fn mytoken_request_json(v: MyTokenRequestView) -> Seq<char> {
    object(
        seq![
            member("request"@, RequestType::MYTOKEN.json()),
            member("account"@, json_quoted(v.account)),
        ] + opt_member(
            "mytoken_profile"@,
            match v.mytoken_profile {
                Some(p) => Some(profile_json(p)),
                None => None,
            },
        ) + opt_member("application_hint"@, opt_str_json(v.application_hint)),
    )
}

impl MyTokenRequest {
    /// A request that names only `account`; no profile is sent.
    pub fn basic(account: &str) -> (r: Self)
        ensures
            r@ == (MyTokenRequestView {
                account: account@,
                mytoken_profile: None,
                application_hint: None,
            }),
    {
        MyTokenRequest { account: account.to_string(), mytoken_profile: None, application_hint: None }
    }

    /// A builder for a request for `account`.
    pub fn builder(account: &str) -> (r: MyTokenRequestBuilder)
        ensures
            r.request() == (MyTokenRequestView {
                account: account@,
                mytoken_profile: None,
                application_hint: None,
            }),
    {
        MyTokenRequestBuilder(MyTokenRequest::basic(account))
    }

    pub fn kind(&self) -> (r: RequestType)
        ensures
            r == RequestType::MYTOKEN,
    {
        RequestType::MYTOKEN
    }

    /// Writes the request as the JSON text sent to the agent.
    pub fn to_json(&self) -> (r: String)
        ensures
            r@ == mytoken_request_json(self@),
    {
        let mut m: Vec<String> = Vec::new();
        push_member(&mut m, "request", String::from_str(RequestType::MYTOKEN.json_text()));
        push_member(&mut m, "account", quote(self.account.as_str()));
        let profile = match &self.mytoken_profile {
            Some(p) => Some(p.to_json()),
            None => None,
        };
        push_opt(&mut m, "mytoken_profile", profile);
        push_opt(&mut m, "application_hint", opt_str_text(&self.application_hint));
        let ghost v = self@;
        assert(str_views(m@) =~= seq![
            member("request"@, RequestType::MYTOKEN.json()),
            member("account"@, json_quoted(v.account)),
        ] + opt_member(
            "mytoken_profile"@,
            match v.mytoken_profile {
                Some(p) => Some(profile_json(p)),
                None => None,
            },
        ) + opt_member("application_hint"@, opt_str_json(v.application_hint)));
        object_text(&m)
    }
}

/// Collects the fields of a [`MyTokenRequest`] by chained calls.
pub struct MyTokenRequestBuilder(MyTokenRequest);

impl MyTokenRequestBuilder {
    pub closed spec fn request(self) -> MyTokenRequestView {
        self.0@
    }

    /// Attaches a copy of `mytoken_profile`.
    pub fn mytoken_profile(self, mytoken_profile: &Profile) -> (r: Self)
        ensures
            r.request() == (MyTokenRequestView {
                mytoken_profile: Some(mytoken_profile@),
                ..self.request()
            }),
    {
        let mut b = self;
        b.0.mytoken_profile = Some(mytoken_profile.copy());
        b
    }

    /// Sets the name of the application that asks.
    pub fn application_hint(self, application_hint: &str) -> (r: Self)
        ensures
            r.request() == (MyTokenRequestView {
                application_hint: Some(application_hint@),
                ..self.request()
            }),
    {
        let mut b = self;
        b.0.application_hint = Some(application_hint.to_string());
        b
    }

    /// The request, unless the account is empty or all whitespace.
    pub fn build(self) -> (r: Result<MyTokenRequest, Error>)
        ensures
            is_blank(self.request().account) <==> r is Err,
            r matches Ok(q) ==> q@ == self.request(),
            r matches Err(e) ==> (e matches Error::OtherError(m) && m@ == MYTOKEN_BUILD_ERROR@),
    {
        let t = trim(self.0.account.as_str());
        proof {
            crate::text::lemma_trimmed_empty_iff_blank(self.0.account@);
        }
        if t.unicode_len() == 0 {
            return Err(Error::OtherError(String::from_str(MYTOKEN_BUILD_ERROR)));
        }
        Ok(self.0)
    }
}

/// A request for the shortnames of the accounts that the agent has loaded.
#[derive(Debug, Clone, Copy)]
pub struct AccountsRequest {}

/// The JSON text of an accounts request: the discriminator alone.
pub open spec fn accounts_request_json() -> Seq<char> {
    object(seq![member("request"@, RequestType::LOADED_ACCOUNTS.json())])
}

impl AccountsRequest {
    pub fn new() -> (r: Self) {
        AccountsRequest {  }
    }

    pub fn kind(&self) -> (r: RequestType)
        ensures
            r == RequestType::LOADED_ACCOUNTS,
    {
        RequestType::LOADED_ACCOUNTS
    }

    /// Writes the request as JSON: exactly `{"request":"loaded_accounts"}`.
    pub fn to_json(&self) -> (r: String)
        ensures
            r@ == accounts_request_json(),
            r@ == "{\"request\":\"loaded_accounts\"}"@,
    {
        let mut m: Vec<String> = Vec::new();
        push_member(&mut m, "request", String::from_str(RequestType::LOADED_ACCOUNTS.json_text()));
        assert(str_views(m@) =~= seq![member("request"@, RequestType::LOADED_ACCOUNTS.json())]);
        let r = object_text(&m);
        proof {
            lemma_accounts_request_text();
        }
        r
    }
}

/// The accounts request is written as `{"request":"loaded_accounts"}`, with no
/// other field.
pub proof fn lemma_accounts_request_text()
    ensures
        accounts_request_json() == "{\"request\":\"loaded_accounts\"}"@,
{
    broadcast use vstd::string::group_string_axioms;
    reveal_strlit("request");
    reveal_strlit("\"loaded_accounts\"");
    reveal_strlit("{\"request\":\"loaded_accounts\"}");
    let ms = seq![member("request"@, RequestType::LOADED_ACCOUNTS.json())];
    assert(crate::wire::joined(ms) == ms[0]);
    assert(accounts_request_json() =~= "{\"request\":\"loaded_accounts\"}"@);
}

} // verus!
