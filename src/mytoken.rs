//! The policy of a mytoken: what it may do (capabilities), under which
//! limits (restrictions) and how it renews itself (rotation).
use crate::errors::Error;
use vstd::prelude::*;
use vstd::string::*;
use crate::merge::{extend_strings, slice_views, str_views, union_extend};
use crate::text::{join_scope, opt_view, scope_after};
use crate::wire::{
    array, array_text, json_quoted, object, object_text, opt_bool_json, opt_bool_text,
    opt_i64_int, opt_i64_text, opt_int_json, opt_list_json, opt_list_text, opt_member,
    opt_str_json, opt_str_text, opt_u64_int, opt_u64_text, push_opt, quote,
};

verus! {

/// The granularities of the token-introspection capability.
#[derive(Debug, Clone, Copy, PartialEq, Eq, Hash, Structural)]
pub enum TokenInfoPerms {
    /// `tokeninfo:introspect`
    Introspect,
    /// `tokeninfo:subtokens`
    Subtokens,
    /// `tokeninfo:history`
    History,
    /// `tokeninfo`
    All,
}

impl TokenInfoPerms {
    pub open spec fn wire(self) -> Seq<char> {
        match self {
            TokenInfoPerms::Introspect => "tokeninfo:introspect"@,
            TokenInfoPerms::Subtokens => "tokeninfo:subtokens"@,
            TokenInfoPerms::History => "tokeninfo:history"@,
            TokenInfoPerms::All => "tokeninfo"@,
        }
    }

    /// The wire string of this granularity.
    pub fn as_str(&self) -> (r: &'static str)
        ensures
            r@ == self.wire(),
    {
        match self {
            TokenInfoPerms::Introspect => "tokeninfo:introspect",
            TokenInfoPerms::Subtokens => "tokeninfo:subtokens",
            TokenInfoPerms::History => "tokeninfo:history",
            TokenInfoPerms::All => "tokeninfo",
        }
    }
}

/// The granularities of the mytoken-management capability.
#[derive(Debug, Clone, Copy, PartialEq, Eq, Hash, Structural)]
pub enum MgmtPerms {
    /// `manage_mytoken:list`
    List,
    /// `manage_mytoken:revoke`
    Revoke,
    /// `manage_mytoken:history`
    History,
    /// `manage_mytoken`
    All,
}

impl MgmtPerms {
    pub open spec fn wire(self) -> Seq<char> {
        match self {
            MgmtPerms::List => "manage_mytoken:list"@,
            MgmtPerms::Revoke => "manage_mytoken:revoke"@,
            MgmtPerms::History => "manage_mytoken:history"@,
            MgmtPerms::All => "manage_mytoken"@,
        }
    }

    /// The wire string of this granularity.
    pub fn as_str(&self) -> (r: &'static str)
        ensures
            r@ == self.wire(),
    {
        match self {
            MgmtPerms::List => "manage_mytoken:list",
            MgmtPerms::Revoke => "manage_mytoken:revoke",
            MgmtPerms::History => "manage_mytoken:history",
            MgmtPerms::All => "manage_mytoken",
        }
    }
}

/// The granularities of the settings capability, writable or read-only.
#[derive(Debug, Clone, Copy, PartialEq, Eq, Hash, Structural)]
pub enum SettingsPerms {
    /// `settings:grants:ssh`
    Ssh,
    /// `settings:grants`
    Grants,
    /// `settings`
    All,
    /// `read@settings:grants:ssh`
    ReadSsh,
    /// `read@settings:grants`
    ReadGrants,
    /// `read@settings`
    ReadAll,
}

impl SettingsPerms {
    pub open spec fn wire(self) -> Seq<char> {
        match self {
            SettingsPerms::Ssh => "settings:grants:ssh"@,
            SettingsPerms::Grants => "settings:grants"@,
            SettingsPerms::All => "settings"@,
            SettingsPerms::ReadSsh => "read@settings:grants:ssh"@,
            SettingsPerms::ReadGrants => "read@settings:grants"@,
            SettingsPerms::ReadAll => "read@settings"@,
        }
    }

    /// The wire string of this granularity.
    pub fn as_str(&self) -> (r: &'static str)
        ensures
            r@ == self.wire(),
    {
        match self {
            SettingsPerms::Ssh => "settings:grants:ssh",
            SettingsPerms::Grants => "settings:grants",
            SettingsPerms::All => "settings",
            SettingsPerms::ReadSsh => "read@settings:grants:ssh",
            SettingsPerms::ReadGrants => "read@settings:grants",
            SettingsPerms::ReadAll => "read@settings",
        }
    }
}

/// What a minted mytoken may be used for.
#[derive(Debug, Clone, Copy, PartialEq, Eq, Hash, Structural)]
pub enum Capability {
    /// `AT`: obtain access tokens.
    AT,
    TokenInfo(TokenInfoPerms),
    MyTokenMgmt(MgmtPerms),
    /// `create_mytoken`
    MyTokenCreate,
    Settings(SettingsPerms),
}

/// The capability whose wire string is `s`, if there is one.
pub open spec fn capability_of(s: Seq<char>) -> Option<Capability> {
    if s == "AT"@ {
        Some(Capability::AT)
    } else if s == "tokeninfo"@ {
        Some(Capability::TokenInfo(TokenInfoPerms::All))
    } else if s == "tokeninfo:introspect"@ {
        Some(Capability::TokenInfo(TokenInfoPerms::Introspect))
    } else if s == "tokeninfo:subtokens"@ {
        Some(Capability::TokenInfo(TokenInfoPerms::Subtokens))
    } else if s == "tokeninfo:history"@ {
        Some(Capability::TokenInfo(TokenInfoPerms::History))
    } else if s == "manage_mytoken"@ {
        Some(Capability::MyTokenMgmt(MgmtPerms::All))
    } else if s == "manage_mytoken:list"@ {
        Some(Capability::MyTokenMgmt(MgmtPerms::List))
    } else if s == "manage_mytoken:revoke"@ {
        Some(Capability::MyTokenMgmt(MgmtPerms::Revoke))
    } else if s == "manage_mytoken:history"@ {
        Some(Capability::MyTokenMgmt(MgmtPerms::History))
    } else if s == "create_mytoken"@ {
        Some(Capability::MyTokenCreate)
    } else if s == "settings"@ {
        Some(Capability::Settings(SettingsPerms::All))
    } else if s == "settings:grants"@ {
        Some(Capability::Settings(SettingsPerms::Grants))
    } else if s == "settings:grants:ssh"@ {
        Some(Capability::Settings(SettingsPerms::Ssh))
    } else if s == "read@settings"@ {
        Some(Capability::Settings(SettingsPerms::ReadAll))
    } else if s == "read@settings:grants"@ {
        Some(Capability::Settings(SettingsPerms::ReadGrants))
    } else if s == "read@settings:grants:ssh"@ {
        Some(Capability::Settings(SettingsPerms::ReadSsh))
    } else {
        None
    }
}

impl Capability {
    /// The one wire string of this capability.
    pub open spec fn wire(self) -> Seq<char> {
        match self {
            Capability::AT => "AT"@,
            Capability::TokenInfo(p) => p.wire(),
            Capability::MyTokenMgmt(p) => p.wire(),
            Capability::MyTokenCreate => "create_mytoken"@,
            Capability::Settings(p) => p.wire(),
        }
    }

    /// Encodes this capability as its wire string.
    pub fn as_str(&self) -> (r: &'static str)
        ensures
            r@ == self.wire(),
    {
        match self {
            Capability::AT => "AT",
            Capability::TokenInfo(p) => p.as_str(),
            Capability::MyTokenMgmt(p) => p.as_str(),
            Capability::MyTokenCreate => "create_mytoken",
            Capability::Settings(p) => p.as_str(),
        }
    }

    /// Decodes a wire string; `None` for any string that is no capability's wire string.
    pub fn from_wire(s: &str) -> (r: Option<Capability>)
        ensures
            r == capability_of(s@),
    {
        if crate::text::str_eq(s, "AT") {
            Some(Capability::AT)
        } else if crate::text::str_eq(s, "tokeninfo") {
            Some(Capability::TokenInfo(TokenInfoPerms::All))
        } else if crate::text::str_eq(s, "tokeninfo:introspect") {
            Some(Capability::TokenInfo(TokenInfoPerms::Introspect))
        } else if crate::text::str_eq(s, "tokeninfo:subtokens") {
            Some(Capability::TokenInfo(TokenInfoPerms::Subtokens))
        } else if crate::text::str_eq(s, "tokeninfo:history") {
            Some(Capability::TokenInfo(TokenInfoPerms::History))
        } else if crate::text::str_eq(s, "manage_mytoken") {
            Some(Capability::MyTokenMgmt(MgmtPerms::All))
        } else if crate::text::str_eq(s, "manage_mytoken:list") {
            Some(Capability::MyTokenMgmt(MgmtPerms::List))
        } else if crate::text::str_eq(s, "manage_mytoken:revoke") {
            Some(Capability::MyTokenMgmt(MgmtPerms::Revoke))
        } else if crate::text::str_eq(s, "manage_mytoken:history") {
            Some(Capability::MyTokenMgmt(MgmtPerms::History))
        } else if crate::text::str_eq(s, "create_mytoken") {
            Some(Capability::MyTokenCreate)
        } else if crate::text::str_eq(s, "settings") {
            Some(Capability::Settings(SettingsPerms::All))
        } else if crate::text::str_eq(s, "settings:grants") {
            Some(Capability::Settings(SettingsPerms::Grants))
        } else if crate::text::str_eq(s, "settings:grants:ssh") {
            Some(Capability::Settings(SettingsPerms::Ssh))
        } else if crate::text::str_eq(s, "read@settings") {
            Some(Capability::Settings(SettingsPerms::ReadAll))
        } else if crate::text::str_eq(s, "read@settings:grants") {
            Some(Capability::Settings(SettingsPerms::ReadGrants))
        } else if crate::text::str_eq(s, "read@settings:grants:ssh") {
            Some(Capability::Settings(SettingsPerms::ReadSsh))
        } else {
            None
        }
    }
}

/// Decoding the wire string of any capability gives that capability back.
pub proof fn lemma_capability_round_trip(c: Capability)
    ensures
        capability_of(c.wire()) == Some(c),
{
    broadcast use vstd::string::group_string_axioms;
    reveal_strlit("AT");
    reveal_strlit("tokeninfo");
    reveal_strlit("tokeninfo:introspect");
    reveal_strlit("tokeninfo:subtokens");
    reveal_strlit("tokeninfo:history");
    reveal_strlit("manage_mytoken");
    reveal_strlit("manage_mytoken:list");
    reveal_strlit("manage_mytoken:revoke");
    reveal_strlit("manage_mytoken:history");
    reveal_strlit("create_mytoken");
    reveal_strlit("settings");
    reveal_strlit("settings:grants");
    reveal_strlit("settings:grants:ssh");
    reveal_strlit("read@settings");
    reveal_strlit("read@settings:grants");
    reveal_strlit("read@settings:grants:ssh");
    // The wire strings differ in their length or in their first character.
    assert("AT"@.len() == 2 && "AT"@[0] == 'A');
    assert("tokeninfo"@.len() == 9 && "tokeninfo"@[0] == 't');
    assert("tokeninfo:introspect"@.len() == 20 && "tokeninfo:introspect"@[0] == 't');
    assert("tokeninfo:subtokens"@.len() == 19 && "tokeninfo:subtokens"@[0] == 't');
    assert("tokeninfo:history"@.len() == 17 && "tokeninfo:history"@[0] == 't');
    assert("manage_mytoken"@.len() == 14 && "manage_mytoken"@[0] == 'm');
    assert("manage_mytoken:list"@.len() == 19 && "manage_mytoken:list"@[0] == 'm');
    assert("manage_mytoken:revoke"@.len() == 21 && "manage_mytoken:revoke"@[0] == 'm');
    assert("manage_mytoken:history"@.len() == 22 && "manage_mytoken:history"@[0] == 'm');
    assert("create_mytoken"@.len() == 14 && "create_mytoken"@[0] == 'c');
    assert("settings"@.len() == 8 && "settings"@[0] == 's');
    assert("settings:grants"@.len() == 15 && "settings:grants"@[0] == 's');
    assert("settings:grants:ssh"@.len() == 19 && "settings:grants:ssh"@[0] == 's');
    assert("read@settings"@.len() == 13 && "read@settings"@[0] == 'r');
    assert("read@settings:grants"@.len() == 20 && "read@settings:grants"@[0] == 'r');
    assert("read@settings:grants:ssh"@.len() == 24 && "read@settings:grants:ssh"@[0] == 'r');
}

/// A string decodes to a capability exactly when it is that capability's wire
/// string; every other string is rejected.
pub proof fn lemma_capability_decode_exhaustive(s: Seq<char>)
    ensures
        capability_of(s) is None <==> (forall|c: Capability| #[trigger] c.wire() != s),
        forall|c: Capability| capability_of(s) == Some(c) <==> #[trigger] c.wire() == s,
{
    assert forall|c: Capability| capability_of(s) == Some(c) <==> #[trigger] c.wire() == s by {
        lemma_capability_round_trip(c);
    }
    if capability_of(s) is None {
        assert forall|c: Capability| #[trigger] c.wire() != s by {
            lemma_capability_round_trip(c);
        }
    } else {
        let c0 = capability_of(s).unwrap();
        assert(c0.wire() == s);
    }
}

} // verus!

verus! {

/// The kinds of token that a mytoken reply may name.
#[allow(non_camel_case_types)]
#[derive(Debug, Clone, Copy, PartialEq, Eq, Structural)]
pub enum MyTokenType {
    TOKEN,
    SHORT_TOKEN,
    TRANSER_CODE,
}

impl MyTokenType {
    pub open spec fn wire(self) -> Seq<char> {
        match self {
            MyTokenType::TOKEN => "token"@,
            MyTokenType::SHORT_TOKEN => "short_token"@,
            MyTokenType::TRANSER_CODE => "transer_code"@,
        }
    }

    /// The wire string of this kind.
    pub fn as_str(&self) -> (r: &'static str)
        ensures
            r@ == self.wire(),
    {
        match self {
            MyTokenType::TOKEN => "token",
            MyTokenType::SHORT_TOKEN => "short_token",
            MyTokenType::TRANSER_CODE => "transer_code",
        }
    }
}

/// How a mytoken renews itself. Callers build one only through
/// [`RotationBuilder`], which asks that at least one trigger be set; one read
/// from an agent's reply holds what the agent sent.
#[allow(non_snake_case)]
#[derive(Debug, Clone, Copy, PartialEq, Eq, Structural)]
pub struct Rotation {
    on_AT: Option<bool>,
    on_other: Option<bool>,
    lifetime: Option<u64>,
    auto_revoke: Option<bool>,
}

/// What a [`Rotation`] holds.
pub struct RotationView {
    pub on_at: Option<bool>,
    pub on_other: Option<bool>,
    pub lifetime: Option<u64>,
    pub auto_revoke: Option<bool>,
}

impl View for Rotation {
    type V = RotationView;

    closed spec fn view(&self) -> RotationView {
        RotationView {
            on_at: self.on_AT,
            on_other: self.on_other,
            lifetime: self.lifetime,
            auto_revoke: self.auto_revoke,
        }
    }
}

/// A rotation with no field set.
pub open spec fn empty_rotation() -> RotationView {
    RotationView { on_at: None, on_other: None, lifetime: None, auto_revoke: None }
}

/// At least one of the two rotation triggers is set to `true`.
pub open spec fn has_trigger(r: RotationView) -> bool {
    r.on_at == Some(true) || r.on_other == Some(true)
}

impl Rotation {
    /// A builder with no field set.
    pub fn builder() -> (r: RotationBuilder)
        ensures
            r.rotation() == empty_rotation(),
    {
        RotationBuilder(Rotation { on_AT: None, on_other: None, lifetime: None, auto_revoke: None })
    }

    /// A rotation with the given fields, as read from a reply.
    pub(crate) fn from_parts(
        on_at: Option<bool>,
        on_other: Option<bool>,
        lifetime: Option<u64>,
        auto_revoke: Option<bool>,
    ) -> (r: Rotation)
        ensures
            r@ == (RotationView { on_at, on_other, lifetime, auto_revoke }),
    {
        Rotation { on_AT: on_at, on_other, lifetime, auto_revoke }
    }

    #[allow(non_snake_case)]
    pub fn on_AT(&self) -> (r: Option<bool>)
        ensures
            r == self@.on_at,
    {
        self.on_AT
    }

    pub fn on_other(&self) -> (r: Option<bool>)
        ensures
            r == self@.on_other,
    {
        self.on_other
    }

    pub fn lifetime(&self) -> (r: Option<u64>)
        ensures
            r == self@.lifetime,
    {
        self.lifetime
    }

    pub fn auto_revoke(&self) -> (r: Option<bool>)
        ensures
            r == self@.auto_revoke,
    {
        self.auto_revoke
    }
}

/// Collects the fields of a [`Rotation`].
pub struct RotationBuilder(Rotation);

#[allow(non_snake_case)]
impl RotationBuilder {
    /// The rotation collected so far.
    pub closed spec fn rotation(self) -> RotationView {
        self.0@
    }

    /// Rotate on every use for access tokens.
    pub fn set_on_AT(self) -> (r: Self)
        ensures
            r.rotation() == (RotationView { on_at: Some(true), ..self.rotation() }),
    {
        RotationBuilder(Rotation { on_AT: Some(true), ..self.0 })
    }

    pub fn unset_on_AT(self) -> (r: Self)
        ensures
            r.rotation() == (RotationView { on_at: Some(false), ..self.rotation() }),
    {
        RotationBuilder(Rotation { on_AT: Some(false), ..self.0 })
    }

    /// Rotate on every other use.
    pub fn set_on_other(self) -> (r: Self)
        ensures
            r.rotation() == (RotationView { on_other: Some(true), ..self.rotation() }),
    {
        RotationBuilder(Rotation { on_other: Some(true), ..self.0 })
    }

    pub fn unset_on_other(self) -> (r: Self)
        ensures
            r.rotation() == (RotationView { on_other: Some(false), ..self.rotation() }),
    {
        RotationBuilder(Rotation { on_other: Some(false), ..self.0 })
    }

    /// The lifetime of a rotated token, in seconds.
    pub fn set_lifetime(self, lifetime: u64) -> (r: Self)
        ensures
            r.rotation() == (RotationView { lifetime: Some(lifetime), ..self.rotation() }),
    {
        RotationBuilder(Rotation { lifetime: Some(lifetime), ..self.0 })
    }

    /// Revoke the whole token tree when a rotated token is reused.
    pub fn set_auto_revoke(self) -> (r: Self)
        ensures
            r.rotation() == (RotationView { auto_revoke: Some(true), ..self.rotation() }),
    {
        RotationBuilder(Rotation { auto_revoke: Some(true), ..self.0 })
    }

    pub fn unset_auto_revoke(self) -> (r: Self)
        ensures
            r.rotation() == (RotationView { auto_revoke: Some(false), ..self.rotation() }),
    {
        RotationBuilder(Rotation { auto_revoke: Some(false), ..self.0 })
    }

    /// The rotation, if at least one trigger was set to `true`.
    pub fn build(self) -> (r: Result<Rotation, Error>)
        ensures
            has_trigger(self.rotation()) <==> r is Ok,
            r matches Ok(x) ==> x@ == self.rotation(),
            r matches Err(e) ==> (e matches Error::OtherError(m) && m@ == ROTATION_ERROR@),
    {
        if self.0.on_AT == Some(true) || self.0.on_other == Some(true) {
            Ok(self.0)
        } else {
            Err(Error::OtherError(String::from_str(ROTATION_ERROR)))
        }
    }
}

pub const ROTATION_ERROR: &'static str = "Failed to build rotation object! on_AT or on_other must be set!";

} // verus!

verus! {

/// The limits placed on a mytoken. Every field is optional; times are seconds
/// since the Unix epoch.
#[allow(non_snake_case)]
#[derive(Debug, Clone)]
pub struct Restriction {
    pub nbf: Option<i64>,
    pub exp: Option<i64>,
    pub scope: Option<String>,
    pub audience: Option<Vec<String>>,
    pub ip: Option<Vec<String>>,
    pub geoip_allow: Option<Vec<String>>,
    pub geoip_disallow: Option<Vec<String>>,
    pub usages_AT: Option<u64>,
    pub usages_other: Option<u64>,
}

/// What a [`Restriction`] holds, as mathematical values.
pub struct RestrictionView {
    pub nbf: Option<i64>,
    pub exp: Option<i64>,
    pub scope: Option<Seq<char>>,
    pub audience: Option<Seq<Seq<char>>>,
    pub ip: Option<Seq<Seq<char>>>,
    pub geoip_allow: Option<Seq<Seq<char>>>,
    pub geoip_disallow: Option<Seq<Seq<char>>>,
    pub usages_at: Option<u64>,
    pub usages_other: Option<u64>,
}

/// The views of an optional list of strings.
pub open spec fn opt_strs(o: Option<Vec<String>>) -> Option<Seq<Seq<char>>> {
    match o {
        Some(v) => Some(str_views(v@)),
        None => None,
    }
}

/// An optional list after the strings `items` were added to it.
pub open spec fn extended(cur: Option<Seq<Seq<char>>>, items: Seq<Seq<char>>) -> Option<
    Seq<Seq<char>>,
> {
    Some(
        union_extend(
            match cur {
                Some(l) => l,
                None => Seq::empty(),
            },
            items,
        ),
    )
}

impl View for Restriction {
    type V = RestrictionView;

    open spec fn view(&self) -> RestrictionView {
        RestrictionView {
            nbf: self.nbf,
            exp: self.exp,
            scope: opt_view(self.scope),
            audience: opt_strs(self.audience),
            ip: opt_strs(self.ip),
            geoip_allow: opt_strs(self.geoip_allow),
            geoip_disallow: opt_strs(self.geoip_disallow),
            usages_at: self.usages_AT,
            usages_other: self.usages_other,
        }
    }
}

/// A restriction with no field set.
pub open spec fn empty_restriction() -> RestrictionView {
    RestrictionView {
        nbf: None,
        exp: None,
        scope: None,
        audience: None,
        ip: None,
        geoip_allow: None,
        geoip_disallow: None,
        usages_at: None,
        usages_other: None,
    }
}

/// Copies a list of strings.
pub fn copy_strings(v: &Vec<String>) -> (r: Vec<String>)
    ensures
        str_views(r@) == str_views(v@),
{
    let mut r: Vec<String> = Vec::new();
    let mut i: usize = 0;
    while i < v.len()
        invariant
            i <= v@.len(),
            r@.len() == i,
            str_views(r@) == str_views(v@).take(i as int),
        decreases v@.len() - i,
    {
        let ghost prev = r@;
        let item = v[i].clone();
        r.push(item);
        assert(r@ == prev.push(item));
        assert(str_views(r@) =~= str_views(v@).take(i + 1)) by {
            assert forall|j: int| 0 <= j < i + 1 implies #[trigger] str_views(r@)[j] == str_views(
                v@,
            ).take(i + 1)[j] by {
                if j < i {
                    assert(str_views(prev)[j] == str_views(v@).take(i as int)[j]);
                }
            }
        }
        i = i + 1;
    }
    assert(str_views(v@).take(v@.len() as int) =~= str_views(v@));
    r
}

/// Compares two lists of strings.
pub fn same_strings(a: &Vec<String>, b: &Vec<String>) -> (r: bool)
    ensures
        r == (str_views(a@) == str_views(b@)),
{
    if a.len() != b.len() {
        assert(str_views(a@).len() != str_views(b@).len());
        return false;
    }
    let mut i: usize = 0;
    while i < a.len()
        invariant
            i <= a@.len(),
            a@.len() == b@.len(),
            forall|j: int| 0 <= j < i ==> a@[j]@ == b@[j]@,
        decreases a@.len() - i,
    {
        if !crate::text::str_eq(a[i].as_str(), b[i].as_str()) {
            assert(str_views(a@)[i as int] != str_views(b@)[i as int]);
            return false;
        }
        i = i + 1;
    }
    assert(str_views(a@) =~= str_views(b@));
    true
}

fn copy_opt_string(o: &Option<String>) -> (r: Option<String>)
    ensures
        opt_view(r) == opt_view(*o),
{
    match o {
        Some(s) => Some(s.clone()),
        None => None,
    }
}

fn copy_opt_strings(o: &Option<Vec<String>>) -> (r: Option<Vec<String>>)
    ensures
        opt_strs(r) == opt_strs(*o),
{
    match o {
        Some(v) => Some(copy_strings(v)),
        None => None,
    }
}

fn same_opt_string(a: &Option<String>, b: &Option<String>) -> (r: bool)
    ensures
        r == (opt_view(*a) == opt_view(*b)),
{
    match (a, b) {
        (Some(x), Some(y)) => crate::text::str_eq(x.as_str(), y.as_str()),
        (None, None) => true,
        _ => false,
    }
}

fn same_opt_strings(a: &Option<Vec<String>>, b: &Option<Vec<String>>) -> (r: bool)
    ensures
        r == (opt_strs(*a) == opt_strs(*b)),
{
    match (a, b) {
        (Some(x), Some(y)) => same_strings(x, y),
        (None, None) => true,
        _ => false,
    }
}

#[allow(non_snake_case)]
impl Restriction {
    /// A restriction with no field set.
    pub fn new() -> (r: Restriction)
        ensures
            r@ == empty_restriction(),
    {
        Restriction {
            nbf: None,
            exp: None,
            scope: None,
            audience: None,
            ip: None,
            geoip_allow: None,
            geoip_disallow: None,
            usages_AT: None,
            usages_other: None,
        }
    }

    /// A field-by-field copy.
    pub fn copy(&self) -> (r: Restriction)
        ensures
            r@ == self@,
    {
        Restriction {
            nbf: self.nbf,
            exp: self.exp,
            scope: copy_opt_string(&self.scope),
            audience: copy_opt_strings(&self.audience),
            ip: copy_opt_strings(&self.ip),
            geoip_allow: copy_opt_strings(&self.geoip_allow),
            geoip_disallow: copy_opt_strings(&self.geoip_disallow),
            usages_AT: self.usages_AT,
            usages_other: self.usages_other,
        }
    }

    /// Whether two restrictions hold the same values.
    pub fn same_as(&self, other: &Restriction) -> (r: bool)
        ensures
            r == (self@ == other@),
    {
        self.nbf == other.nbf && self.exp == other.exp && same_opt_string(&self.scope, &other.scope)
            && same_opt_strings(&self.audience, &other.audience) && same_opt_strings(
            &self.ip,
            &other.ip,
        ) && same_opt_strings(&self.geoip_allow, &other.geoip_allow) && same_opt_strings(
            &self.geoip_disallow,
            &other.geoip_disallow,
        ) && self.usages_AT == other.usages_AT && self.usages_other == other.usages_other
    }

    /// Not valid before `nbf` (seconds since the epoch).
    pub fn set_nbf(&mut self, nbf: i64)
        ensures
            final(self)@ == (RestrictionView { nbf: Some(nbf), ..old(self)@ }),
    {
        self.nbf = Some(nbf);
    }

    /// Not valid after `exp` (seconds since the epoch).
    pub fn set_exp(&mut self, exp: i64)
        ensures
            final(self)@ == (RestrictionView { exp: Some(exp), ..old(self)@ }),
    {
        self.exp = Some(exp);
    }

    /// Joins `scope` onto the scopes collected so far, space separated.
    pub fn add_scope(&mut self, scope: &str)
        ensures
            final(self)@ == (RestrictionView {
                scope: scope_after(old(self)@.scope, scope@),
                ..old(self)@
            }),
    {
        let cur = self.scope.take();
        self.scope = join_scope(cur, scope);
    }

    /// Adds audiences not yet listed.
    pub fn add_audiences(&mut self, audiences: &[&str])
        ensures
            final(self)@ == (RestrictionView {
                audience: extended(old(self)@.audience, slice_views(audiences@)),
                ..old(self)@
            }),
    {
        let mut list = match self.audience.take() {
            Some(v) => v,
            None => Vec::new(),
        };
        assert(str_views(list@) == extended(old(self)@.audience, Seq::empty()).unwrap());
        extend_strings(&mut list, audiences);
        self.audience = Some(list);
    }

    /// Adds hosts or IP ranges not yet listed.
    pub fn add_ips(&mut self, hosts: &[&str])
        ensures
            final(self)@ == (RestrictionView {
                ip: extended(old(self)@.ip, slice_views(hosts@)),
                ..old(self)@
            }),
    {
        let mut list = match self.ip.take() {
            Some(v) => v,
            None => Vec::new(),
        };
        assert(str_views(list@) == extended(old(self)@.ip, Seq::empty()).unwrap());
        extend_strings(&mut list, hosts);
        self.ip = Some(list);
    }

    /// Adds allowed geo-IP regions not yet listed.
    pub fn add_geoip_allow(&mut self, geoip_allow: &[&str])
        ensures
            final(self)@ == (RestrictionView {
                geoip_allow: extended(old(self)@.geoip_allow, slice_views(geoip_allow@)),
                ..old(self)@
            }),
    {
        let mut list = match self.geoip_allow.take() {
            Some(v) => v,
            None => Vec::new(),
        };
        assert(str_views(list@) == extended(old(self)@.geoip_allow, Seq::empty()).unwrap());
        extend_strings(&mut list, geoip_allow);
        self.geoip_allow = Some(list);
    }

    /// Adds refused geo-IP regions not yet listed.
    pub fn add_geoip_disallow(&mut self, geoip_disallow: &[&str])
        ensures
            final(self)@ == (RestrictionView {
                geoip_disallow: extended(old(self)@.geoip_disallow, slice_views(geoip_disallow@)),
                ..old(self)@
            }),
    {
        let mut list = match self.geoip_disallow.take() {
            Some(v) => v,
            None => Vec::new(),
        };
        assert(str_views(list@) == extended(old(self)@.geoip_disallow, Seq::empty()).unwrap());
        extend_strings(&mut list, geoip_disallow);
        self.geoip_disallow = Some(list);
    }

    /// The number of times the mytoken may be used for access tokens.
    pub fn set_usage_AT(&mut self, n: u64)
        ensures
            final(self)@ == (RestrictionView { usages_at: Some(n), ..old(self)@ }),
    {
        self.usages_AT = Some(n);
    }

    /// The number of times the mytoken may be used otherwise.
    pub fn set_usage_other(&mut self, n: u64)
        ensures
            final(self)@ == (RestrictionView { usages_other: Some(n), ..old(self)@ }),
    {
        self.usages_other = Some(n);
    }

    /// A builder that starts from an empty restriction.
    pub fn builder() -> (r: RestrictionBuilder)
        ensures
            r.0@ == empty_restriction(),
    {
        RestrictionBuilder(Restriction::new())
    }
}

} // verus!

verus! {

/// Collects the fields of a [`Restriction`] by chained calls.
pub struct RestrictionBuilder(pub Restriction);

#[allow(non_snake_case)]
impl RestrictionBuilder {
    pub fn nbf(self, nbf: i64) -> (r: Self)
        ensures
            r.0@ == (RestrictionView { nbf: Some(nbf), ..self.0@ }),
    {
        let mut b = self;
        b.0.set_nbf(nbf);
        b
    }

    pub fn exp(self, exp: i64) -> (r: Self)
        ensures
            r.0@ == (RestrictionView { exp: Some(exp), ..self.0@ }),
    {
        let mut b = self;
        b.0.set_exp(exp);
        b
    }

    pub fn add_scope(self, scope: &str) -> (r: Self)
        ensures
            r.0@ == (RestrictionView { scope: scope_after(self.0@.scope, scope@), ..self.0@ }),
    {
        let mut b = self;
        b.0.add_scope(scope);
        b
    }

    pub fn add_audiences(self, audiences: &[&str]) -> (r: Self)
        ensures
            r.0@ == (RestrictionView {
                audience: extended(self.0@.audience, slice_views(audiences@)),
                ..self.0@
            }),
    {
        let mut b = self;
        b.0.add_audiences(audiences);
        b
    }

    pub fn add_ips(self, hosts: &[&str]) -> (r: Self)
        ensures
            r.0@ == (RestrictionView { ip: extended(self.0@.ip, slice_views(hosts@)), ..self.0@ }),
    {
        let mut b = self;
        b.0.add_ips(hosts);
        b
    }

    pub fn add_geoip_allow(self, geoip_allow: &[&str]) -> (r: Self)
        ensures
            r.0@ == (RestrictionView {
                geoip_allow: extended(self.0@.geoip_allow, slice_views(geoip_allow@)),
                ..self.0@
            }),
    {
        let mut b = self;
        b.0.add_geoip_allow(geoip_allow);
        b
    }

    pub fn add_geoip_disallow(self, geoip_disallow: &[&str]) -> (r: Self)
        ensures
            r.0@ == (RestrictionView {
                geoip_disallow: extended(self.0@.geoip_disallow, slice_views(geoip_disallow@)),
                ..self.0@
            }),
    {
        let mut b = self;
        b.0.add_geoip_disallow(geoip_disallow);
        b
    }

    pub fn usages_AT(self, n: u64) -> (r: Self)
        ensures
            r.0@ == (RestrictionView { usages_at: Some(n), ..self.0@ }),
    {
        let mut b = self;
        b.0.set_usage_AT(n);
        b
    }

    pub fn usages_other(self, n: u64) -> (r: Self)
        ensures
            r.0@ == (RestrictionView { usages_other: Some(n), ..self.0@ }),
    {
        let mut b = self;
        b.0.set_usage_other(n);
        b
    }

    pub fn build(self) -> (r: Restriction)
        ensures
            r@ == self.0@,
    {
        self.0
    }
}

/// The policy attached to a mytoken request: sets of capabilities and of
/// restrictions, and at most one rotation.
#[derive(Debug, Clone)]
pub struct Profile {
    capabilities: Option<Vec<Capability>>,
    restrictions: Option<Vec<Restriction>>,
    rotation: Option<Rotation>,
}

/// What a [`Profile`] holds, as mathematical values.
pub struct ProfileView {
    pub capabilities: Option<Seq<Capability>>,
    pub restrictions: Option<Seq<RestrictionView>>,
    pub rotation: Option<RotationView>,
}

/// The views of a list of restrictions.
pub open spec fn restriction_views(v: Seq<Restriction>) -> Seq<RestrictionView> {
    v.map_values(|r: Restriction| r@)
}

/// An optional list after `items` were added to it as to a set.
pub open spec fn merged<T>(cur: Option<Seq<T>>, items: Seq<T>) -> Option<Seq<T>> {
    Some(
        union_extend(
            match cur {
                Some(l) => l,
                None => Seq::empty(),
            },
            items,
        ),
    )
}

/// The lists of a profile hold no value twice.
pub open spec fn profile_wf(p: ProfileView) -> bool {
    &&& (p.capabilities matches Some(c) ==> c.no_duplicates())
    &&& (p.restrictions matches Some(r) ==> r.no_duplicates())
}

impl View for Profile {
    type V = ProfileView;

    closed spec fn view(&self) -> ProfileView {
        ProfileView {
            capabilities: match self.capabilities {
                Some(v) => Some(v@),
                None => None,
            },
            restrictions: match self.restrictions {
                Some(v) => Some(restriction_views(v@)),
                None => None,
            },
            rotation: match self.rotation {
                Some(r) => Some(r@),
                None => None,
            },
        }
    }
}

pub(crate) fn contains_capability(list: &Vec<Capability>, c: Capability) -> (r: bool)
    ensures
        r == list@.contains(c),
{
    let mut i: usize = 0;
    while i < list.len()
        invariant
            i <= list@.len(),
            forall|j: int| 0 <= j < i ==> list@[j] != c,
        decreases list@.len() - i,
    {
        if list[i] == c {
            return true;
        }
        i = i + 1;
    }
    false
}

pub(crate) fn contains_restriction(list: &Vec<Restriction>, x: &Restriction) -> (r: bool)
    ensures
        r == restriction_views(list@).contains(x@),
{
    let mut i: usize = 0;
    while i < list.len()
        invariant
            i <= list@.len(),
            forall|j: int| 0 <= j < i ==> list@[j]@ != x@,
        decreases list@.len() - i,
    {
        if list[i].same_as(x) {
            assert(restriction_views(list@)[i as int] == x@);
            return true;
        }
        i = i + 1;
    }
    assert forall|j: int| 0 <= j < restriction_views(list@).len() implies restriction_views(
        list@,
    )[j] != x@ by {}
    false
}

impl Profile {
    /// A profile with nothing set.
    pub fn new() -> (r: Profile)
        ensures
            r@ == (ProfileView { capabilities: None, restrictions: None, rotation: None }),
            profile_wf(r@),
    {
        Profile { capabilities: None, restrictions: None, rotation: None }
    }

    /// A copy that holds the same values.
    pub fn copy(&self) -> (r: Profile)
        ensures
            r@ == self@,
    {
        let capabilities = match &self.capabilities {
            Some(v) => {
                let mut c: Vec<Capability> = Vec::new();
                let mut i: usize = 0;
                while i < v.len()
                    invariant
                        i <= v@.len(),
                        c@ == v@.take(i as int),
                    decreases v@.len() - i,
                {
                    c.push(v[i]);
                    assert(c@ =~= v@.take(i + 1));
                    i = i + 1;
                }
                assert(v@.take(v@.len() as int) =~= v@);
                Some(c)
            },
            None => None,
        };
        let restrictions = match &self.restrictions {
            Some(v) => {
                let mut c: Vec<Restriction> = Vec::new();
                let mut i: usize = 0;
                while i < v.len()
                    invariant
                        i <= v@.len(),
                        c@.len() == i,
                        restriction_views(c@) == restriction_views(v@).take(i as int),
                    decreases v@.len() - i,
                {
                    let ghost prev = c@;
                    let item = v[i].copy();
                    c.push(item);
                    assert(c@ == prev.push(item));
                    assert(restriction_views(c@) =~= restriction_views(v@).take(i + 1)) by {
                        assert forall|j: int| 0 <= j < i + 1 implies #[trigger] restriction_views(
                            c@,
                        )[j] == restriction_views(v@).take(i + 1)[j] by {
                            if j < i {
                                assert(restriction_views(prev)[j] == restriction_views(v@).take(
                                    i as int,
                                )[j]);
                            }
                        }
                    }
                    i = i + 1;
                }
                assert(restriction_views(v@).take(v@.len() as int) =~= restriction_views(v@));
                Some(c)
            },
            None => None,
        };
        Profile { capabilities, restrictions, rotation: self.rotation }
    }

    /// Adds the capabilities not yet present: the profile then holds the union.
    pub fn add_capabilities(&mut self, capabilities: &[Capability])
        requires
            profile_wf(old(self)@),
        ensures
            final(self)@ == (ProfileView {
                capabilities: merged(old(self)@.capabilities, capabilities@),
                ..old(self)@
            }),
            profile_wf(final(self)@),
    {
        let mut list = match self.capabilities.take() {
            Some(v) => v,
            None => Vec::new(),
        };
        let ghost start = list@;
        assert(start == merged(old(self)@.capabilities, Seq::empty()).unwrap());
        let mut i: usize = 0;
        while i < capabilities.len()
            invariant
                i <= capabilities@.len(),
                list@ == union_extend(start, capabilities@.take(i as int)),
            decreases capabilities@.len() - i,
        {
            let c = capabilities[i];
            assert(capabilities@.take(i + 1).drop_last() =~= capabilities@.take(i as int));
            if !contains_capability(&list, c) {
                list.push(c);
            }
            i = i + 1;
        }
        assert(capabilities@.take(capabilities@.len() as int) =~= capabilities@);
        proof {
            crate::merge::lemma_union_extend(start, capabilities@);
        }
        self.capabilities = Some(list);
    }

    /// Adds the restrictions not yet present: the profile then holds the union.
    pub fn add_restrictions(&mut self, restrictions: &[Restriction])
        requires
            profile_wf(old(self)@),
        ensures
            final(self)@ == (ProfileView {
                restrictions: merged(
                    old(self)@.restrictions,
                    restriction_views(restrictions@),
                ),
                ..old(self)@
            }),
            profile_wf(final(self)@),
    {
        let mut list = match self.restrictions.take() {
            Some(v) => v,
            None => Vec::new(),
        };
        let ghost start = restriction_views(list@);
        assert(start == merged(old(self)@.restrictions, Seq::empty()).unwrap());
        let ghost items = restriction_views(restrictions@);
        let mut i: usize = 0;
        while i < restrictions.len()
            invariant
                i <= restrictions@.len(),
                items == restriction_views(restrictions@),
                restriction_views(list@) == union_extend(start, items.take(i as int)),
            decreases restrictions@.len() - i,
        {
            let x = &restrictions[i];
            let ghost prev = restriction_views(list@);
            assert(items.take(i + 1).drop_last() =~= items.take(i as int));
            if !contains_restriction(&list, x) {
                list.push(x.copy());
                assert(restriction_views(list@) =~= prev.push(x@));
            }
            i = i + 1;
        }
        assert(items.take(restrictions@.len() as int) =~= items);
        proof {
            crate::merge::lemma_union_extend(start, items);
        }
        self.restrictions = Some(list);
    }

    /// Sets the one rotation policy, replacing any earlier one.
    pub fn set_rotation(&mut self, rotation: &Rotation)
        ensures
            final(self)@ == (ProfileView { rotation: Some(rotation@), ..old(self)@ }),
    {
        self.rotation = Some(*rotation);
    }

    /// A builder that starts from an empty profile.
    pub fn builder() -> (r: ProfileBuilder)
        ensures
            r.0@ == (ProfileView { capabilities: None, restrictions: None, rotation: None }),
            profile_wf(r.0@),
    {
        ProfileBuilder(Profile::new())
    }
}

/// Adding capabilities twice leaves the union of everything added, each
/// capability once.
pub proof fn lemma_add_capabilities_twice(p: ProfileView, a: Seq<Capability>, b: Seq<Capability>)
    requires
        profile_wf(p),
    ensures
        ({
            let once = merged(p.capabilities, a).unwrap();
            let twice = merged(Some(once), b).unwrap();
            let before = match p.capabilities {
                Some(c) => c.to_set(),
                None => Set::empty(),
            };
            &&& twice.to_set() == before.union(a.to_set()).union(b.to_set())
            &&& twice.no_duplicates()
        }),
{
    let start = match p.capabilities {
        Some(c) => c,
        None => Seq::empty(),
    };
    assert(Seq::<Capability>::empty().to_set() =~= Set::empty());
    crate::merge::lemma_union_extend(start, a);
    crate::merge::lemma_union_extend(union_extend(start, a), b);
}

/// Collects the parts of a [`Profile`] by chained calls.
pub struct ProfileBuilder(pub Profile);

impl ProfileBuilder {
    pub fn add_capabilities(self, capabilities: &[Capability]) -> (r: Self)
        requires
            profile_wf(self.0@),
        ensures
            r.0@ == (ProfileView {
                capabilities: merged(self.0@.capabilities, capabilities@),
                ..self.0@
            }),
            profile_wf(r.0@),
    {
        let mut b = self;
        b.0.add_capabilities(capabilities);
        b
    }

    pub fn add_restrictions(self, restrictions: &[Restriction]) -> (r: Self)
        requires
            profile_wf(self.0@),
        ensures
            r.0@ == (ProfileView {
                restrictions: merged(self.0@.restrictions, restriction_views(restrictions@)),
                ..self.0@
            }),
            profile_wf(r.0@),
    {
        let mut b = self;
        b.0.add_restrictions(restrictions);
        b
    }

    pub fn set_rotation(self, rotation: &Rotation) -> (r: Self)
        ensures
            r.0@ == (ProfileView { rotation: Some(rotation@), ..self.0@ }),
    {
        let mut b = self;
        b.0.set_rotation(rotation);
        b
    }

    pub fn build(self) -> (r: Profile)
        ensures
            r@ == self.0@,
    {
        self.0
    }
}

} // verus!

verus! {

/// The JSON text of a rotation: its set fields, in declaration order.
pub open spec fn rotation_json(r: RotationView) -> Seq<char> {
    object(
        opt_member("on_AT"@, opt_bool_json(r.on_at)) + opt_member(
            "on_other"@,
            opt_bool_json(r.on_other),
        ) + opt_member("lifetime"@, opt_int_json(opt_u64_int(r.lifetime))) + opt_member(
            "auto_revoke"@,
            opt_bool_json(r.auto_revoke),
        ),
    )
}

/// The JSON text of a restriction: its set fields, in declaration order.
pub open spec fn restriction_json(r: RestrictionView) -> Seq<char> {
    object(
        opt_member("nbf"@, opt_int_json(opt_i64_int(r.nbf))) + opt_member(
            "exp"@,
            opt_int_json(opt_i64_int(r.exp)),
        ) + opt_member("scope"@, opt_str_json(r.scope)) + opt_member(
            "audience"@,
            opt_list_json(r.audience),
        ) + opt_member("ip"@, opt_list_json(r.ip)) + opt_member(
            "geoip_allow"@,
            opt_list_json(r.geoip_allow),
        ) + opt_member("geoip_disallow"@, opt_list_json(r.geoip_disallow)) + opt_member(
            "usages_AT"@,
            opt_int_json(opt_u64_int(r.usages_at)),
        ) + opt_member("usages_other"@, opt_int_json(opt_u64_int(r.usages_other))),
    )
}

/// The JSON text of a profile: its set parts, capabilities as their wire
/// strings.
pub open spec fn profile_json(p: ProfileView) -> Seq<char> {
    object(
        opt_member(
            "capabilities"@,
            match p.capabilities {
                Some(c) => Some(array(c.map_values(|x: Capability| json_quoted(x.wire())))),
                None => None,
            },
        ) + opt_member(
            "restrictions"@,
            match p.restrictions {
                Some(r) => Some(array(r.map_values(|x: RestrictionView| restriction_json(x)))),
                None => None,
            },
        ) + opt_member(
            "rotation"@,
            match p.rotation {
                Some(r) => Some(rotation_json(r)),
                None => None,
            },
        ),
    )
}

impl Rotation {
    /// Writes this rotation as JSON.
    pub fn to_json(&self) -> (r: String)
        ensures
            r@ == rotation_json(self@),
    {
        let mut m: Vec<String> = Vec::new();
        push_opt(&mut m, "on_AT", opt_bool_text(self.on_AT));
        push_opt(&mut m, "on_other", opt_bool_text(self.on_other));
        push_opt(&mut m, "lifetime", opt_u64_text(self.lifetime));
        push_opt(&mut m, "auto_revoke", opt_bool_text(self.auto_revoke));
        assert(str_views(m@) =~= opt_member("on_AT"@, opt_bool_json(self.on_AT)) + opt_member(
            "on_other"@,
            opt_bool_json(self.on_other),
        ) + opt_member("lifetime"@, opt_int_json(opt_u64_int(self.lifetime))) + opt_member(
            "auto_revoke"@,
            opt_bool_json(self.auto_revoke),
        ));
        object_text(&m)
    }
}

impl Restriction {
    /// Writes this restriction as JSON.
    pub fn to_json(&self) -> (r: String)
        ensures
            r@ == restriction_json(self@),
    {
        let mut m: Vec<String> = Vec::new();
        push_opt(&mut m, "nbf", opt_i64_text(self.nbf));
        push_opt(&mut m, "exp", opt_i64_text(self.exp));
        push_opt(&mut m, "scope", opt_str_text(&self.scope));
        push_opt(&mut m, "audience", opt_list_text(&self.audience));
        push_opt(&mut m, "ip", opt_list_text(&self.ip));
        push_opt(&mut m, "geoip_allow", opt_list_text(&self.geoip_allow));
        push_opt(&mut m, "geoip_disallow", opt_list_text(&self.geoip_disallow));
        push_opt(&mut m, "usages_AT", opt_u64_text(self.usages_AT));
        push_opt(&mut m, "usages_other", opt_u64_text(self.usages_other));
        let ghost v = self@;
        assert(str_views(m@) =~= opt_member("nbf"@, opt_int_json(opt_i64_int(v.nbf))) + opt_member(
            "exp"@,
            opt_int_json(opt_i64_int(v.exp)),
        ) + opt_member("scope"@, opt_str_json(v.scope)) + opt_member(
            "audience"@,
            opt_list_json(v.audience),
        ) + opt_member("ip"@, opt_list_json(v.ip)) + opt_member(
            "geoip_allow"@,
            opt_list_json(v.geoip_allow),
        ) + opt_member("geoip_disallow"@, opt_list_json(v.geoip_disallow)) + opt_member(
            "usages_AT"@,
            opt_int_json(opt_u64_int(v.usages_at)),
        ) + opt_member("usages_other"@, opt_int_json(opt_u64_int(v.usages_other))));
        object_text(&m)
    }
}

impl Profile {
    /// Writes this profile as JSON; absent parts are left out, not written as null.
    pub fn to_json(&self) -> (r: String)
        ensures
            r@ == profile_json(self@),
    {
        let caps = match &self.capabilities {
            Some(v) => {
                let mut items: Vec<String> = Vec::new();
                let mut i: usize = 0;
                while i < v.len()
                    invariant
                        i <= v@.len(),
                        items@.len() == i,
                        forall|j: int|
                            0 <= j < i ==> #[trigger] items@[j]@ == json_quoted(v@[j].wire()),
                    decreases v@.len() - i,
                {
                    items.push(quote(v[i].as_str()));
                    i = i + 1;
                }
                assert(str_views(items@) =~= v@.map_values(
                    |x: Capability| json_quoted(x.wire()),
                ));
                Some(array_text(&items))
            },
            None => None,
        };
        let rests = match &self.restrictions {
            Some(v) => {
                let mut items: Vec<String> = Vec::new();
                let mut i: usize = 0;
                while i < v.len()
                    invariant
                        i <= v@.len(),
                        items@.len() == i,
                        forall|j: int|
                            0 <= j < i ==> #[trigger] items@[j]@ == restriction_json(v@[j]@),
                    decreases v@.len() - i,
                {
                    items.push(v[i].to_json());
                    i = i + 1;
                }
                assert(str_views(items@) =~= restriction_views(v@).map_values(
                    |x: RestrictionView| restriction_json(x),
                ));
                Some(array_text(&items))
            },
            None => None,
        };
        let rot = match &self.rotation {
            Some(r) => Some(r.to_json()),
            None => None,
        };
        let mut m: Vec<String> = Vec::new();
        push_opt(&mut m, "capabilities", caps);
        push_opt(&mut m, "restrictions", rests);
        push_opt(&mut m, "rotation", rot);
        object_text(&m)
    }
}

} // verus!

verus! {

impl PartialEq for Restriction {
    fn eq(&self, other: &Restriction) -> bool {
        self.same_as(other)
    }
}

impl vstd::std_specs::cmp::PartialEqSpecImpl for Restriction {
    open spec fn obeys_eq_spec() -> bool {
        true
    }

    open spec fn eq_spec(&self, other: &Restriction) -> bool {
        self@ == other@
    }
}

impl Eq for Restriction {
}

impl Default for Restriction {
    fn default() -> (r: Restriction)
        ensures
            r@ == empty_restriction(),
    {
        Restriction::new()
    }
}

impl Default for Profile {
    fn default() -> (r: Profile)
        ensures
            r@ == (ProfileView { capabilities: None, restrictions: None, rotation: None }),
            profile_wf(r@),
    {
        Profile::new()
    }
}

} // verus!
