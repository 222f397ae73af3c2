//! The agent's replies: the status envelope and the success payload of each
//! request, decoded from a [`Json`] value.
use crate::json::{
    as_str, field, field_opt_bool, field_opt_seconds, field_opt_str, field_opt_str_list,
    field_opt_u64, field_seconds, field_str, field_str_list, member_or_null, present, opt_bool,
    opt_seconds, opt_str, opt_str_list, opt_u64, optional, req_seconds, req_str, req_str_list, Json,
};
use crate::merge::{str_views, union_extend};
use crate::mytoken::{
    capability_of, restriction_views, Capability, MyTokenType, Restriction, RestrictionView,
    Rotation, RotationView,
};
use crate::requests::{parse_url, parsed_url};
use crate::text::opt_view;
use vstd::prelude::*;
use vstd::string::*;

verus! {

/// Whether the agent did what was asked.
#[derive(Debug, Clone, Copy, PartialEq, Eq, Structural)]
pub enum Status {
    SUCCESS,
    FAILURE,
}

impl Status {
    pub open spec fn wire(self) -> Seq<char> {
        match self {
            Status::SUCCESS => "success"@,
            Status::FAILURE => "failure"@,
        }
    }

    /// The status as written on the wire.
    pub fn to_string(&self) -> (r: String)
        ensures
            r@ == self.wire(),
    {
        match self {
            Status::SUCCESS => String::from_str("success"),
            Status::FAILURE => String::from_str("failure"),
        }
    }
}

/// The status that a reply's `status` member names, if it names one.
pub open spec fn status_of(j: Json) -> Option<Status> {
    match req_str(j, "status"@) {
        Some(s) => if s == "success"@ {
            Some(Status::SUCCESS)
        } else if s == "failure"@ {
            Some(Status::FAILURE)
        } else {
            None
        },
        None => None,
    }
}

/// The envelope of every reply: its status alone.
#[derive(Debug, Clone, Copy)]
pub struct OIDCAgentResponse {
    status: Status,
}

impl OIDCAgentResponse {
    pub closed spec fn spec_status(self) -> Status {
        self.status
    }

    /// Reads the envelope; `None` when the reply names no status.
    pub fn decode(j: &Json) -> (r: Option<OIDCAgentResponse>)
        ensures
            match r {
                Some(e) => status_of(*j) == Some(e.spec_status()),
                None => status_of(*j) is None,
            },
    {
        match field_str(j, "status") {
            Some(s) => if crate::text::str_eq(s.as_str(), "success") {
                Some(OIDCAgentResponse { status: Status::SUCCESS })
            } else if crate::text::str_eq(s.as_str(), "failure") {
                Some(OIDCAgentResponse { status: Status::FAILURE })
            } else {
                None
            },
            None => None,
        }
    }

    pub fn status(&self) -> (r: &Status)
        ensures
            *r == self.spec_status(),
    {
        &self.status
    }
}

/// A secret token. It is never shown by the rendering for logs; only
/// [`Token::secret`] hands it out.
#[derive(Clone)]
pub struct Token(String);

/// What a token renders as for logs and debugging, whatever it holds.
pub open spec fn redacted() -> Seq<char> {
    "Token([redacted])"@
}

impl Token {
    pub closed spec fn spec_secret(self) -> Seq<char> {
        self.0@
    }

    pub fn new(secret: String) -> (r: Token)
        ensures
            r.spec_secret() == secret@,
    {
        Token(secret)
    }

    /// The secret itself.
    pub fn secret(&self) -> (r: &str)
        ensures
            r@ == self.spec_secret(),
    {
        self.0.as_str()
    }

    /// The text shown for this token in logs: a fixed placeholder.
    pub fn redacted(&self) -> (r: String)
        ensures
            r@ == redacted(),
    {
        String::from_str("Token([redacted])")
    }
}

/// `needle` occurs somewhere in `hay`.
pub open spec fn occurs_in(needle: Seq<char>, hay: Seq<char>) -> bool {
    exists|i: int|
        0 <= i && i + needle.len() <= hay.len() && #[trigger] hay.subrange(i, i + needle.len())
            == needle
}

/// The rendering of a token is the same placeholder for every token, so it
/// shows no secret but one that is already part of the placeholder's own text.
pub proof fn lemma_rendering_hides_secret(a: Token, b: Token, shown_a: Seq<char>, shown_b: Seq<char>)
    requires
        shown_a == redacted(),
        shown_b == redacted(),
        !occurs_in(a.spec_secret(), redacted()),
    ensures
        shown_a == shown_b,
        !occurs_in(a.spec_secret(), shown_a),
{
}

} // verus!

verus! {

/// The reply to an access-token request.
#[derive(Clone)]
pub struct AccessTokenResponse {
    access_token: Token,
    issuer: String,
    expires_at: i64,
}

/// What an [`AccessTokenResponse`] holds, as mathematical values.
pub struct AccessTokenResponseView {
    pub access_token: Seq<char>,
    pub issuer: Seq<char>,
    pub expires_at: i64,
}

impl View for AccessTokenResponse {
    type V = AccessTokenResponseView;

    closed spec fn view(&self) -> AccessTokenResponseView {
        AccessTokenResponseView {
            access_token: self.access_token.spec_secret(),
            issuer: self.issuer@,
            expires_at: self.expires_at,
        }
    }
}

/// The access-token reply that a JSON value holds: a token, an issuer that is
/// a URL (kept as its serialization) and an expiry time in seconds.
pub open spec fn access_token_response_of(j: Json) -> Option<AccessTokenResponseView> {
    match (req_str(j, "access_token"@), req_str(j, "issuer"@), req_seconds(j, "expires_at"@)) {
        (Some(t), Some(i), Some(e)) => match parsed_url(i) {
            Some(u) => Some(AccessTokenResponseView { access_token: t, issuer: u, expires_at: e }),
            None => None,
        },
        _ => None,
    }
}

/// Reads a URL-valued string: `None` when it is not a URL.
fn url_text(s: Option<String>) -> (r: Option<String>)
    ensures
        opt_view(r) == match opt_view(s) {
            Some(t) => parsed_url(t),
            None => None,
        },
{
    match s {
        Some(t) => match parse_url(t.as_str()) {
            Ok(u) => Some(u),
            Err(_) => None,
        },
        None => None,
    }
}

impl AccessTokenResponse {
    /// Decodes the reply; `None` when a member is missing or malformed.
    pub fn decode(j: &Json) -> (r: Option<AccessTokenResponse>)
        ensures
            match r {
                Some(x) => access_token_response_of(*j) == Some(x@),
                None => access_token_response_of(*j) is None,
            },
    {
        let token = field_str(j, "access_token");
        let issuer = field_str(j, "issuer");
        let expires = field_seconds(j, "expires_at");
        match (token, url_text(issuer), expires) {
            (Some(t), Some(u), Some(e)) => Some(
                AccessTokenResponse { access_token: Token::new(t), issuer: u, expires_at: e },
            ),
            _ => None,
        }
    }

    pub fn access_token(&self) -> (r: &Token)
        ensures
            r.spec_secret() == self@.access_token,
    {
        &self.access_token
    }

    /// The issuer's URL, as serialized by `url`.
    pub fn issuer(&self) -> (r: &str)
        ensures
            r@ == self@.issuer,
    {
        self.issuer.as_str()
    }

    /// The expiry time, in seconds since the Unix epoch.
    pub fn expires_at(&self) -> (r: i64)
        ensures
            r == self@.expires_at,
    {
        self.expires_at
    }
}

/// The reply to an accounts request: the loaded accounts' shortnames.
#[derive(Debug, Clone)]
pub struct AccountsResponse {
    info: Vec<String>,
}

impl View for AccountsResponse {
    type V = Seq<Seq<char>>;

    closed spec fn view(&self) -> Seq<Seq<char>> {
        str_views(self.info@)
    }
}

/// The accounts reply that a JSON value holds: a list of strings in `info`.
pub open spec fn accounts_response_of(j: Json) -> Option<Seq<Seq<char>>> {
    req_str_list(j, "info"@)
}

impl AccountsResponse {
    /// Decodes the reply; `None` when `info` is missing or not a list of strings.
    pub fn decode(j: &Json) -> (r: Option<AccountsResponse>)
        ensures
            match r {
                Some(x) => accounts_response_of(*j) == Some(x@),
                None => accounts_response_of(*j) is None,
            },
    {
        match field_str_list(j, "info") {
            Some(v) => Some(AccountsResponse { info: v }),
            None => None,
        }
    }

    pub fn info(&self) -> (r: &Vec<String>)
        ensures
            str_views(r@) == self@,
    {
        &self.info
    }
}

} // verus!

verus! {

/// The rotation that a JSON object holds.
pub open spec fn rotation_of(j: Json) -> Option<RotationView> {
    if j is Object && opt_bool(j, "on_AT"@) is Some && opt_bool(j, "on_other"@) is Some && opt_u64(
        j,
        "lifetime"@,
    ) is Some && opt_bool(j, "auto_revoke"@) is Some {
        Some(
            RotationView {
                on_at: opt_bool(j, "on_AT"@).unwrap(),
                on_other: opt_bool(j, "on_other"@).unwrap(),
                lifetime: opt_u64(j, "lifetime"@).unwrap(),
                auto_revoke: opt_bool(j, "auto_revoke"@).unwrap(),
            },
        )
    } else {
        None
    }
}

/// The restriction that a JSON object holds; every member is optional.
pub open spec fn restriction_of(j: Json) -> Option<RestrictionView> {
    if j is Object && opt_seconds(j, "nbf"@) is Some && opt_seconds(j, "exp"@) is Some && opt_str(
        j,
        "scope"@,
    ) is Some && opt_str_list(j, "audience"@) is Some && opt_str_list(j, "ip"@) is Some
        && opt_str_list(j, "geoip_allow"@) is Some && opt_str_list(j, "geoip_disallow"@) is Some
        && opt_u64(j, "usages_AT"@) is Some && opt_u64(j, "usages_other"@) is Some {
        Some(
            RestrictionView {
                nbf: opt_seconds(j, "nbf"@).unwrap(),
                exp: opt_seconds(j, "exp"@).unwrap(),
                scope: opt_str(j, "scope"@).unwrap(),
                audience: opt_str_list(j, "audience"@).unwrap(),
                ip: opt_str_list(j, "ip"@).unwrap(),
                geoip_allow: opt_str_list(j, "geoip_allow"@).unwrap(),
                geoip_disallow: opt_str_list(j, "geoip_disallow"@).unwrap(),
                usages_at: opt_u64(j, "usages_AT"@).unwrap(),
                usages_other: opt_u64(j, "usages_other"@).unwrap(),
            },
        )
    } else {
        None
    }
}

/// The capability that a JSON string names.
pub open spec fn capability_in(j: Json) -> Option<Capability> {
    match as_str(j) {
        Some(s) => capability_of(s),
        None => None,
    }
}

/// The set of capabilities that a JSON array holds, each once, in the order
/// of first appearance.
pub open spec fn capabilities_of(j: Json) -> Option<Seq<Capability>> {
    match j {
        Json::Array(items) => if forall|i: int|
            0 <= i < items@.len() ==> #[trigger] capability_in(items@[i]) is Some {
            Some(
                union_extend(
                    Seq::empty(),
                    items@.map_values(|x: Json| capability_in(x).unwrap()),
                ),
            )
        } else {
            None
        },
        _ => None,
    }
}

/// The set of restrictions that a JSON array holds, each once.
pub open spec fn restrictions_of(j: Json) -> Option<Seq<RestrictionView>> {
    match j {
        Json::Array(items) => if forall|i: int|
            0 <= i < items@.len() ==> #[trigger] restriction_of(items@[i]) is Some {
            Some(
                union_extend(
                    Seq::empty(),
                    items@.map_values(|x: Json| restriction_of(x).unwrap()),
                ),
            )
        } else {
            None
        },
        _ => None,
    }
}

/// The kind of token that a wire string names.
pub open spec fn token_type_of(s: Seq<char>) -> Option<MyTokenType> {
    if s == "token"@ {
        Some(MyTokenType::TOKEN)
    } else if s == "short_token"@ {
        Some(MyTokenType::SHORT_TOKEN)
    } else if s == "transer_code"@ {
        Some(MyTokenType::TRANSER_CODE)
    } else {
        None
    }
}

pub open spec fn token_type_in(j: Json) -> Option<MyTokenType> {
    match as_str(j) {
        Some(s) => token_type_of(s),
        None => None,
    }
}

fn decode_rotation(j: &Json) -> (r: Option<Rotation>)
    ensures
        match r {
            Some(x) => rotation_of(*j) == Some(x@),
            None => rotation_of(*j) is None,
        },
{
    match j {
        Json::Object(_) => {},
        _ => return None,
    }
    match (
        field_opt_bool(j, "on_AT"),
        field_opt_bool(j, "on_other"),
        field_opt_u64(j, "lifetime"),
        field_opt_bool(j, "auto_revoke"),
    ) {
        (Some(a), Some(o), Some(l), Some(v)) => Some(
            Rotation::from_parts(a, o, l, v),
        ),
        _ => None,
    }
}

#[allow(non_snake_case)]
fn decode_restriction(j: &Json) -> (r: Option<Restriction>)
    ensures
        match r {
            Some(x) => restriction_of(*j) == Some(x@),
            None => restriction_of(*j) is None,
        },
{
    match j {
        Json::Object(_) => {},
        _ => return None,
    }
    let nbf = field_opt_seconds(j, "nbf");
    let exp = field_opt_seconds(j, "exp");
    let scope = field_opt_str(j, "scope");
    let audience = field_opt_str_list(j, "audience");
    let ip = field_opt_str_list(j, "ip");
    let geoip_allow = field_opt_str_list(j, "geoip_allow");
    let geoip_disallow = field_opt_str_list(j, "geoip_disallow");
    let usages_AT = field_opt_u64(j, "usages_AT");
    let usages_other = field_opt_u64(j, "usages_other");
    match (nbf, exp, scope, audience, ip, geoip_allow, geoip_disallow, usages_AT, usages_other) {
        (
            Some(nbf),
            Some(exp),
            Some(scope),
            Some(audience),
            Some(ip),
            Some(geoip_allow),
            Some(geoip_disallow),
            Some(usages_AT),
            Some(usages_other),
        ) => Some(
            Restriction {
                nbf,
                exp,
                scope,
                audience,
                ip,
                geoip_allow,
                geoip_disallow,
                usages_AT,
                usages_other,
            },
        ),
        _ => None,
    }
}

fn decode_capabilities(j: &Json) -> (r: Option<Vec<Capability>>)
    ensures
        match r {
            Some(v) => capabilities_of(*j) == Some(v@),
            None => capabilities_of(*j) is None,
        },
{
    match j {
        Json::Array(items) => {
            let ghost all = items@.map_values(|x: Json| capability_in(x).unwrap());
            let mut out: Vec<Capability> = Vec::new();
            let mut i: usize = 0;
            while i < items.len()
                invariant
                    i <= items@.len(),
                    *j == Json::Array(*items),
                    all == items@.map_values(|x: Json| capability_in(x).unwrap()),
                    forall|k: int| 0 <= k < i ==> #[trigger] capability_in(items@[k]) is Some,
                    out@ == union_extend(Seq::empty(), all.take(i as int)),
                decreases items@.len() - i,
            {
                let c = match &items[i] {
                    Json::Str(s) => Capability::from_wire(s.as_str()),
                    _ => None,
                };
                match c {
                    Some(c) => {
                        assert(all.take(i + 1).drop_last() =~= all.take(i as int));
                        assert(all[i as int] == c);
                        if !crate::mytoken::contains_capability(&out, c) {
                            out.push(c);
                        }
                    },
                    None => {
                        assert(capability_in(items@[i as int]) is None);
                        return None;
                    },
                }
                i = i + 1;
            }
            assert(all.take(items@.len() as int) =~= all);
            Some(out)
        },
        _ => None,
    }
}

fn decode_restrictions(j: &Json) -> (r: Option<Vec<Restriction>>)
    ensures
        match r {
            Some(v) => restrictions_of(*j) == Some(restriction_views(v@)),
            None => restrictions_of(*j) is None,
        },
{
    match j {
        Json::Array(items) => {
            let ghost all = items@.map_values(|x: Json| restriction_of(x).unwrap());
            let mut out: Vec<Restriction> = Vec::new();
            let mut i: usize = 0;
            while i < items.len()
                invariant
                    i <= items@.len(),
                    *j == Json::Array(*items),
                    all == items@.map_values(|x: Json| restriction_of(x).unwrap()),
                    forall|k: int| 0 <= k < i ==> #[trigger] restriction_of(items@[k]) is Some,
                    restriction_views(out@) == union_extend(Seq::empty(), all.take(i as int)),
                decreases items@.len() - i,
            {
                match decode_restriction(&items[i]) {
                    Some(x) => {
                        let ghost prev = restriction_views(out@);
                        assert(all.take(i + 1).drop_last() =~= all.take(i as int));
                        assert(all[i as int] == x@);
                        if !crate::mytoken::contains_restriction(&out, &x) {
                            out.push(x);
                            assert(restriction_views(out@) =~= prev.push(all[i as int]));
                        }
                    },
                    None => {
                        return None;
                    },
                }
                i = i + 1;
            }
            assert(all.take(items@.len() as int) =~= all);
            Some(out)
        },
        _ => None,
    }
}

fn decode_token_type(j: &Json) -> (r: Option<MyTokenType>)
    ensures
        r == token_type_in(*j),
{
    match j {
        Json::Str(s) => if crate::text::str_eq(s.as_str(), "token") {
            Some(MyTokenType::TOKEN)
        } else if crate::text::str_eq(s.as_str(), "short_token") {
            Some(MyTokenType::SHORT_TOKEN)
        } else if crate::text::str_eq(s.as_str(), "transer_code") {
            Some(MyTokenType::TRANSER_CODE)
        } else {
            None
        },
        _ => None,
    }
}

} // verus!

verus! {

/// The reply to a mytoken request.
pub struct MyTokenResponse {
    mytoken: Token,
    mytoken_issuer: String,
    oidc_issuer: String,
    expires_at: Option<i64>,
    mytoken_type: Option<MyTokenType>,
    transfer_code: Option<String>,
    expires_in: Option<u64>,
    mom_id: Option<String>,
    capabilities: Option<Vec<Capability>>,
    restrictions: Option<Vec<Restriction>>,
    rotation: Option<Rotation>,
}

/// What a [`MyTokenResponse`] holds, as mathematical values.
pub struct MyTokenResponseView {
    pub mytoken: Seq<char>,
    pub mytoken_issuer: Seq<char>,
    pub oidc_issuer: Seq<char>,
    pub expires_at: Option<i64>,
    pub mytoken_type: Option<MyTokenType>,
    pub transfer_code: Option<Seq<char>>,
    pub expires_in: Option<u64>,
    pub mom_id: Option<Seq<char>>,
    pub capabilities: Option<Seq<Capability>>,
    pub restrictions: Option<Seq<RestrictionView>>,
    pub rotation: Option<RotationView>,
}

impl View for MyTokenResponse {
    type V = MyTokenResponseView;

    closed spec fn view(&self) -> MyTokenResponseView {
        MyTokenResponseView {
            mytoken: self.mytoken.spec_secret(),
            mytoken_issuer: self.mytoken_issuer@,
            oidc_issuer: self.oidc_issuer@,
            expires_at: self.expires_at,
            mytoken_type: self.mytoken_type,
            transfer_code: opt_view(self.transfer_code),
            expires_in: self.expires_in,
            mom_id: opt_view(self.mom_id),
            capabilities: match self.capabilities {
                Some(v) => Some(v@),
                None => None,
            },
            restrictions: match self.restrictions {
                Some(v) => Some(restriction_views(v@)),
                None => None,
            },
            rotation: match self.rotation {
                Some(r) => Some(r@),
                None => None,
            },
        }
    }
}

/// The issuer URL in member `key`, kept as its serialization.
pub open spec fn url_member(j: Json, key: Seq<char>) -> Option<Seq<char>> {
    match req_str(j, key) {
        Some(s) => parsed_url(s),
        None => None,
    }
}

/// The mytoken reply that a JSON value holds.
pub open spec fn mytoken_response_of(j: Json) -> Option<MyTokenResponseView> {
    let mytoken_type = optional(field(j, "mytoken_type"@), token_type_in(member_or_null(j, "mytoken_type"@)));
    let capabilities = optional(field(j, "capabilities"@), capabilities_of(member_or_null(j, "capabilities"@)));
    let restrictions = optional(field(j, "restrictions"@), restrictions_of(member_or_null(j, "restrictions"@)));
    let rotation = optional(field(j, "rotation"@), rotation_of(member_or_null(j, "rotation"@)));
    if req_str(j, "mytoken"@) is Some && url_member(j, "mytoken_issuer"@) is Some && url_member(
        j,
        "oidc_issuer"@,
    ) is Some && opt_seconds(j, "expires_at"@) is Some && mytoken_type is Some && opt_str(
        j,
        "transfer_code"@,
    ) is Some && opt_u64(j, "expires_in"@) is Some && opt_str(j, "mom_id"@) is Some
        && capabilities is Some && restrictions is Some && rotation is Some {
        Some(
            MyTokenResponseView {
                mytoken: req_str(j, "mytoken"@).unwrap(),
                mytoken_issuer: url_member(j, "mytoken_issuer"@).unwrap(),
                oidc_issuer: url_member(j, "oidc_issuer"@).unwrap(),
                expires_at: opt_seconds(j, "expires_at"@).unwrap(),
                mytoken_type: mytoken_type.unwrap(),
                transfer_code: opt_str(j, "transfer_code"@).unwrap(),
                expires_in: opt_u64(j, "expires_in"@).unwrap(),
                mom_id: opt_str(j, "mom_id"@).unwrap(),
                capabilities: capabilities.unwrap(),
                restrictions: restrictions.unwrap(),
                rotation: rotation.unwrap(),
            },
        )
    } else {
        None
    }
}

impl MyTokenResponse {
    /// Decodes the reply; `None` when a member is missing or malformed.
    pub fn decode(j: &Json) -> (r: Option<MyTokenResponse>)
        ensures
            match r {
                Some(x) => mytoken_response_of(*j) == Some(x@),
                None => mytoken_response_of(*j) is None,
            },
    {
        let mytoken = field_str(j, "mytoken");
        let mytoken_issuer = url_text(field_str(j, "mytoken_issuer"));
        let oidc_issuer = url_text(field_str(j, "oidc_issuer"));
        let expires_at = field_opt_seconds(j, "expires_at");
        let mytoken_type = match present(j, "mytoken_type") {
            Some(v) => match decode_token_type(v) {
                Some(t) => Some(Some(t)),
                None => None,
            },
            None => Some(None),
        };
        let transfer_code = field_opt_str(j, "transfer_code");
        let expires_in = field_opt_u64(j, "expires_in");
        let mom_id = field_opt_str(j, "mom_id");
        let capabilities = match present(j, "capabilities") {
            Some(v) => match decode_capabilities(v) {
                Some(c) => Some(Some(c)),
                None => None,
            },
            None => Some(None),
        };
        let restrictions = match present(j, "restrictions") {
            Some(v) => match decode_restrictions(v) {
                Some(c) => Some(Some(c)),
                None => None,
            },
            None => Some(None),
        };
        let rotation = match present(j, "rotation") {
            Some(v) => match decode_rotation(v) {
                Some(c) => Some(Some(c)),
                None => None,
            },
            None => Some(None),
        };
        match (
            mytoken,
            mytoken_issuer,
            oidc_issuer,
            expires_at,
            mytoken_type,
            transfer_code,
            expires_in,
            mom_id,
            capabilities,
            restrictions,
            rotation,
        ) {
            (
                Some(mytoken),
                Some(mytoken_issuer),
                Some(oidc_issuer),
                Some(expires_at),
                Some(mytoken_type),
                Some(transfer_code),
                Some(expires_in),
                Some(mom_id),
                Some(capabilities),
                Some(restrictions),
                Some(rotation),
            ) => Some(
                MyTokenResponse {
                    mytoken: Token::new(mytoken),
                    mytoken_issuer,
                    oidc_issuer,
                    expires_at,
                    mytoken_type,
                    transfer_code,
                    expires_in,
                    mom_id,
                    capabilities,
                    restrictions,
                    rotation,
                },
            ),
            _ => None,
        }
    }

    pub fn mytoken(&self) -> (r: &Token)
        ensures
            r.spec_secret() == self@.mytoken,
    {
        &self.mytoken
    }

    pub fn mytoken_issuer(&self) -> (r: &str)
        ensures
            r@ == self@.mytoken_issuer,
    {
        self.mytoken_issuer.as_str()
    }

    pub fn oidc_issuer(&self) -> (r: &str)
        ensures
            r@ == self@.oidc_issuer,
    {
        self.oidc_issuer.as_str()
    }

    /// The expiry time, in seconds since the Unix epoch.
    pub fn expires_at(&self) -> (r: Option<i64>)
        ensures
            r == self@.expires_at,
    {
        self.expires_at
    }

    pub fn mytoken_type(&self) -> (r: Option<MyTokenType>)
        ensures
            r == self@.mytoken_type,
    {
        self.mytoken_type
    }

    pub fn transfer_code(&self) -> (r: Option<&String>)
        ensures
            match r {
                Some(s) => self@.transfer_code == Some(s@),
                None => self@.transfer_code is None,
            },
    {
        self.transfer_code.as_ref()
    }

    /// The lifetime, in seconds.
    pub fn expires_in(&self) -> (r: Option<u64>)
        ensures
            r == self@.expires_in,
    {
        self.expires_in
    }

    pub fn mom_id(&self) -> (r: Option<&String>)
        ensures
            match r {
                Some(s) => self@.mom_id == Some(s@),
                None => self@.mom_id is None,
            },
    {
        self.mom_id.as_ref()
    }

    /// The capabilities of the mytoken, each once.
    pub fn capabilities(&self) -> (r: Option<&Vec<Capability>>)
        ensures
            match r {
                Some(v) => self@.capabilities == Some(v@),
                None => self@.capabilities is None,
            },
    {
        self.capabilities.as_ref()
    }

    /// The restrictions of the mytoken, each once.
    pub fn restrictions(&self) -> (r: Option<&Vec<Restriction>>)
        ensures
            match r {
                Some(v) => self@.restrictions == Some(restriction_views(v@)),
                None => self@.restrictions is None,
            },
    {
        self.restrictions.as_ref()
    }

    pub fn rotation(&self) -> (r: Option<&Rotation>)
        ensures
            match r {
                Some(x) => self@.rotation == Some(x@),
                None => self@.rotation is None,
            },
    {
        self.rotation.as_ref()
    }
}

} // verus!
